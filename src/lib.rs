//! A read-only text viewer core: a store of lines with their tab-expanded
//! renderings, a cursor kept in content coordinates, scroll offsets that keep
//! the cursor inside a fixed viewport, and the composition of visible rows.
//! A small singly linked stack of integers is provided alongside.

pub mod render;
pub mod rows;
pub mod cursor;
pub mod frame;
pub mod list;
