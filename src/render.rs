use vstd::prelude::*;

verus! {

/// Width of a tab stop, in rendered columns.
pub const TAB_STOP: usize = 8;

/// `n` spaces.
pub open spec fn spaces(n: nat) -> Seq<char> {
    Seq::new(n, |i: int| ' ')
}

/// Number of spaces a tab turns into when it starts at rendered column `col`:
/// at least one, and up to the next multiple of the tab stop.
pub open spec fn tab_fill(col: nat) -> nat {
    (TAB_STOP - col % (TAB_STOP as nat)) as nat
}

/// The display form of a line: every tab becomes the spaces that carry the
/// next character to the following tab stop; other characters are kept.
pub open spec fn expand(s: Seq<char>) -> Seq<char>
    decreases s.len(),
{
    if s.len() == 0 {
        Seq::empty()
    } else {
        let p = expand(s.drop_last());
        if s.last() == '\t' {
            p + spaces(tab_fill(p.len()))
        } else {
            p.push(s.last())
        }
    }
}

/// Rendered width of `s`, accumulated character by character: a tab adds
/// `(TAB_STOP - 1) - (w % TAB_STOP) + 1`, any other character adds one.
pub open spec fn render_width(s: Seq<char>) -> nat
    decreases s.len(),
{
    if s.len() == 0 {
        0
    } else {
        let w = render_width(s.drop_last());
        if s.last() == '\t' {
            (w + (TAB_STOP - 1) - w % (TAB_STOP as nat) + 1) as nat
        } else {
            w + 1
        }
    }
}

/// True when `s` holds no tab character.
pub open spec fn tab_free(s: Seq<char>) -> bool {
    forall|i: int| 0 <= i < s.len() ==> s[i] != '\t'
}

/// The width accumulated over a line is the length of its expansion.
pub proof fn lemma_width_is_expanded_len(s: Seq<char>)
    ensures
        render_width(s) == expand(s).len(),
    decreases s.len(),
{
    if s.len() > 0 {
        lemma_width_is_expanded_len(s.drop_last());
    }
}

/// The rendered column of logical column `k` equals the length of the
/// expansion of the first `k` characters.
pub proof fn lemma_render_x_matches_expand(line: Seq<char>, k: nat)
    requires
        k <= line.len(),
    ensures
        render_width(line.take(k as int)) == expand(line.take(k as int)).len(),
{
    lemma_width_is_expanded_len(line.take(k as int));
}

/// A line without tabs renders as itself, and each logical column is its own
/// rendered column.
pub proof fn lemma_tab_free_renders_unchanged(line: Seq<char>, k: nat)
    requires
        tab_free(line),
        k <= line.len(),
    ensures
        expand(line) == line,
        render_width(line.take(k as int)) == k,
    decreases line.len(),
{
    if line.len() > 0 {
        let p = line.drop_last();
        assert(tab_free(p));
        assert(line.last() == line[line.len() - 1]);
        lemma_tab_free_renders_unchanged(p, 0);
        assert(expand(line) =~= line);
        if k < line.len() {
            assert(line.take(k as int) =~= p.take(k as int));
            lemma_tab_free_renders_unchanged(p, k);
        } else {
            assert(line.take(k as int) =~= line);
            lemma_tab_free_renders_unchanged(p, (k - 1) as nat);
            assert(p.take(k - 1) =~= p);
            assert(line.drop_last() == p);
        }
    }
}

/// Rendered width never shrinks as a line grows.
pub proof fn lemma_width_monotone(s: Seq<char>, i: nat, j: nat)
    requires
        i <= j <= s.len(),
    ensures
        render_width(s.take(i as int)) <= render_width(s.take(j as int)),
    decreases j - i,
{
    if i < j {
        lemma_width_monotone(s, i, (j - 1) as nat);
        assert(s.take(j as int).drop_last() =~= s.take(j - 1));
    }
}

/// Expands the tabs of `content` into spaces up to the next tab stop.
pub fn expand_tabs(content: &Vec<char>) -> (r: Vec<char>)
    ensures
        r@ == expand(content@),
{
    let mut out: Vec<char> = Vec::new();
    let n = content.len();
    let mut i: usize = 0;
    while i < n
        invariant
            n == content@.len(),
            i <= n,
            out@ == expand(content@.take(i as int)),
        decreases n - i,
    {
        let c = content[i];
        let ghost prev = out@;
        assert(content@.take(i + 1).drop_last() =~= content@.take(i as int));
        if c == '\t' {
            out.push(' ');
            while out.len() % TAB_STOP != 0
                invariant
                    out@.len() > prev.len(),
                    out@.len() <= prev.len() + tab_fill(prev.len()),
                    out@ =~= prev + spaces((out@.len() - prev.len()) as nat),
                decreases prev.len() + tab_fill(prev.len()) - out@.len(),
            {
                out.push(' ');
            }
            assert(out@.len() == prev.len() + tab_fill(prev.len()));
        } else {
            out.push(c);
        }
        i = i + 1;
    }
    assert(content@.take(n as int) =~= content@);
    out
}

/// Rendered column of logical column `col` of `content`.
pub fn rendered_column(content: &Vec<char>, col: usize) -> (r: usize)
    requires
        col <= content@.len(),
        expand(content@).len() <= usize::MAX,
    ensures
        r == render_width(content@.take(col as int)),
{
    proof {
        lemma_width_is_expanded_len(content@);
        assert(content@.take(content@.len() as int) =~= content@);
    }
    let mut acc: usize = 0;
    let mut i: usize = 0;
    while i < col
        invariant
            col <= content@.len(),
            render_width(content@) <= usize::MAX,
            content@.take(content@.len() as int) == content@,
            i <= col,
            acc == render_width(content@.take(i as int)),
        decreases col - i,
    {
        proof {
            lemma_width_monotone(content@, (i + 1) as nat, content@.len());
            assert(content@.take(i + 1).drop_last() =~= content@.take(i as int));
        }
        if content[i] == '\t' {
            acc = acc + (TAB_STOP - 1 - acc % TAB_STOP) + 1;
        } else {
            acc = acc + 1;
        }
        i = i + 1;
    }
    acc
}

} // verus!
