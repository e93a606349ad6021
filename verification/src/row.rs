//! A single row of text: the raw characters as typed, and a derived
//! rendered form in which every tab advances to the next tab stop.

use vstd::prelude::*;

verus! {

/// Width of one tab stop, in rendered cells.
pub const TAB_STOP: usize = 8;

/// A run of `n` spaces.
pub open spec fn spaces(n: int) -> Seq<char> {
    Seq::new(n as nat, |i: int| ' ')
}

/// The rendered text after appending one more raw character `c` to a line
/// whose rendered form so far is `r`: a tab pads with spaces up to the next
/// multiple of `TAB_STOP`, any other character is appended as itself.
pub open spec fn render_step(r: Seq<char>, c: char) -> Seq<char> {
    if c == '\t' {
        r + spaces(TAB_STOP as int - (r.len() as int % (TAB_STOP as int)))
    } else {
        r.push(c)
    }
}

/// The rendered form of the raw characters `s`, with tabs expanded.
pub open spec fn render_of(s: Seq<char>) -> Seq<char>
    decreases s.len(),
{
    if s.len() == 0 {
        Seq::empty()
    } else {
        render_step(render_of(s.drop_last()), s.last())
    }
}

/// The rendered column that raw column `cx` projects to: the rendered
/// length of the first `cx` raw characters.
pub open spec fn rx_of(s: Seq<char>, cx: int) -> int
    recommends
        0 <= cx <= s.len(),
{
    render_of(s.take(cx)).len() as int
}

/// The raw characters after inserting `c` at position `at` (appending
/// when `at` is at or past the end).
pub open spec fn insert_at(s: Seq<char>, at: int, c: char) -> Seq<char> {
    if at >= s.len() {
        s.push(c)
    } else {
        s.insert(at, c)
    }
}

/// True when `s` holds no tab character.
pub open spec fn has_no_tabs(s: Seq<char>) -> bool {
    forall|i: int| 0 <= i < s.len() ==> s[i] != '\t'
}

/// Rendering one more character extends the prefix rendering by one step.
pub proof fn lemma_render_of_take_step(s: Seq<char>, i: int)
    requires
        0 <= i < s.len(),
    ensures
        render_of(s.take(i + 1)) == render_step(render_of(s.take(i)), s[i]),
{
    assert(s.take(i + 1).drop_last() =~= s.take(i));
    assert(s.take(i + 1).last() == s[i]);
}

/// Each raw character contributes at least one rendered cell, so the
/// rendered length of a prefix never decreases as the prefix grows.
pub proof fn lemma_render_len_monotone(s: Seq<char>, i: int, j: int)
    requires
        0 <= i <= j <= s.len(),
    ensures
        render_of(s.take(i)).len() + (j - i) <= render_of(s.take(j)).len(),
    decreases j - i,
{
    if i < j {
        lemma_render_len_monotone(s, i, j - 1);
        lemma_render_of_take_step(s, j - 1);
    }
}

/// Projecting the full raw length gives exactly the rendered length.
pub proof fn lemma_rx_at_end(s: Seq<char>)
    ensures
        rx_of(s, s.len() as int) == render_of(s).len(),
{
    assert(s.take(s.len() as int) =~= s);
}

/// The render column is non-decreasing in the raw column.
pub proof fn lemma_rx_non_decreasing(s: Seq<char>, c1: int, c2: int)
    requires
        0 <= c1 <= c2 <= s.len(),
    ensures
        rx_of(s, c1) <= rx_of(s, c2),
{
    lemma_render_len_monotone(s, c1, c2);
}

/// A line without tabs renders as itself.
pub proof fn lemma_no_tabs_render_identity(s: Seq<char>)
    requires
        has_no_tabs(s),
    ensures
        render_of(s) == s,
    decreases s.len(),
{
    if s.len() == 0 {
        assert(render_of(s) =~= s);
    } else {
        assert(has_no_tabs(s.drop_last())) by {
            assert(forall|i: int|
                0 <= i < s.drop_last().len() ==> s.drop_last()[i] == s[i]);
        }
        lemma_no_tabs_render_identity(s.drop_last());
        assert(s.last() != '\t');
        assert(s.drop_last().push(s.last()) =~= s);
    }
}

/// On a line without tabs, every render column equals its raw column.
pub proof fn lemma_no_tabs_rx_identity(s: Seq<char>, col: int)
    requires
        has_no_tabs(s),
        0 <= col <= s.len(),
    ensures
        rx_of(s, col) == col,
{
    assert(has_no_tabs(s.take(col))) by {
        assert(forall|i: int| 0 <= i < s.take(col).len() ==> s.take(col)[i] == s[i]);
    }
    lemma_no_tabs_render_identity(s.take(col));
}

/// The raw characters obtained by inserting each character of `s` in turn
/// at the end of the line built so far.
pub open spec fn appended(s: Seq<char>) -> Seq<char>
    decreases s.len(),
{
    if s.len() == 0 {
        Seq::empty()
    } else {
        insert_at(appended(s.drop_last()), s.len() - 1, s.last())
    }
}

/// Inserting the characters of `s` one at a time, each at the end of the
/// line built so far, yields exactly `s`; in particular the line so built
/// renders the same as a line constructed from `s` directly.
pub proof fn lemma_append_build(s: Seq<char>)
    ensures
        appended(s) == s,
        render_of(appended(s)) == render_of(s),
    decreases s.len(),
{
    if s.len() == 0 {
        assert(appended(s) =~= s);
    } else {
        lemma_append_build(s.drop_last());
        assert(appended(s.drop_last()).push(s.last()) =~= s);
    }
}

/// One row of the document: raw characters and their rendered form.
pub struct Row {
    /// The characters as typed or loaded, with no tab expansion.
    pub chars: Vec<char>,
    /// The display form, re-derived from `chars` on every change.
    pub render: Vec<char>,
}

impl Row {
    /// The rendered form is exactly the tab expansion of the raw form.
    pub open spec fn wf(&self) -> bool {
        self.render@ == render_of(self.chars@)
    }

    /// Builds a row from raw characters, deriving the rendered form.
    pub fn new(chars: Vec<char>) -> (row: Row)
        ensures
            row.chars@ == chars@,
            row.wf(),
    {
        let render = Row::render_row(&chars);
        Row { chars, render }
    }

    /// Number of raw characters.
    pub fn len(&self) -> (n: usize)
        ensures
            n == self.chars@.len(),
    {
        self.chars.len()
    }

    /// Number of rendered cells.
    pub fn render_len(&self) -> (n: usize)
        ensures
            n == self.render@.len(),
    {
        self.render.len()
    }

    /// Projects the raw column `cx` into rendered-cell space, counting one
    /// cell per ordinary character and advancing to the next tab stop for
    /// each tab. A column past the end projects like the end itself.
    pub fn cx_to_rx(&self, cx: usize) -> (rx: usize)
        requires
            self.wf(),
        ensures
            rx == rx_of(self.chars@, vstd::math::min(cx as int, self.chars@.len() as int)),
    {
        let n: usize = if cx < self.chars.len() {
            cx
        } else {
            self.chars.len()
        };
        let mut rx: usize = 0;
        let mut i: usize = 0;
        proof {
            assert(self.chars@.take(0) =~= Seq::<char>::empty());
        }
        while i < n
            invariant
                i <= n,
                n == vstd::math::min(cx as int, self.chars@.len() as int),
                self.wf(),
                rx == rx_of(self.chars@, i as int),
            decreases n - i,
        {
            let ghost rx_next = rx_of(self.chars@, i as int + 1);
            proof {
                lemma_render_of_take_step(self.chars@, i as int);
                lemma_render_len_monotone(self.chars@, i + 1, self.chars@.len() as int);
                assert(self.chars@.take(self.chars@.len() as int) =~= self.chars@);
                assert(rx_next <= self.render.len());
            }
            let c = self.chars[i];
            if c == '\t' {
                rx = rx + (TAB_STOP - 1 - rx % TAB_STOP);
            }
            assert(rx + 1 == rx_next);
            rx = rx + 1;
            i = i + 1;
        }
        rx
    }

    /// Inserts `c` into the raw characters at index `at` (appending when
    /// `at` is at or past the end), then re-derives the rendered form.
    pub fn insert_char(&mut self, at: usize, c: char)
        ensures
            final(self).chars@ == insert_at(old(self).chars@, at as int, c),
            final(self).wf(),
    {
        if at >= self.chars.len() {
            self.chars.push(c);
        } else {
            self.chars.insert(at, c);
        }
        self.render = Row::render_row(&self.chars);
    }

    /// Expands the raw characters into the rendered form: a tab pads with
    /// spaces up to the next multiple of `TAB_STOP`, everything else is
    /// copied through.
    fn render_row(chars: &Vec<char>) -> (render: Vec<char>)
        ensures
            render@ == render_of(chars@),
    {
        let mut render: Vec<char> = Vec::new();
        let mut i: usize = 0;
        proof {
            assert(chars@.take(0) =~= Seq::<char>::empty());
        }
        while i < chars.len()
            invariant
                i <= chars@.len(),
                render@ == render_of(chars@.take(i as int)),
            decreases chars@.len() - i,
        {
            proof {
                lemma_render_of_take_step(chars@, i as int);
            }
            let c = chars[i];
            if c == '\t' {
                let pad = TAB_STOP - render.len() % TAB_STOP;
                let ghost before = render@;
                let mut j: usize = 0;
                while j < pad
                    invariant
                        j <= pad,
                        render@ == before + spaces(j as int),
                    decreases pad - j,
                {
                    render.push(' ');
                    proof {
                        assert(before + spaces(j + 1) =~= (before + spaces(j as int)).push(' '));
                    }
                    j = j + 1;
                }
                proof {
                    assert(render@ == render_step(before, c));
                }
            } else {
                render.push(c);
            }
            i = i + 1;
        }
        proof {
            assert(chars@.take(chars@.len() as int) =~= chars@);
        }
        render
    }
}

} // verus!
