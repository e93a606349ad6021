//! Small text helpers: turning string slices into character vectors,
//! decimal formatting of counts, and width-limited truncation.

use vstd::prelude::*;
use vstd::string::StrSliceExecFns;

verus! {

/// The first `w` characters of `s`, or all of `s` when it is shorter.
pub open spec fn take_upto(s: Seq<char>, w: int) -> Seq<char> {
    if s.len() <= w {
        s
    } else {
        s.take(w)
    }
}

/// The raw lines of a document, one character sequence per row.
pub open spec fn lines_view(data: Seq<Vec<char>>) -> Seq<Seq<char>> {
    data.map_values(|v: Vec<char>| v@)
}

/// One splitting step: a newline opens a new empty line, any other
/// character extends the line currently being built.
pub open spec fn split_step(acc: Seq<Seq<char>>, c: char) -> Seq<Seq<char>>
    recommends
        acc.len() > 0,
{
    if c == '\n' {
        acc.push(Seq::empty())
    } else {
        acc.update(acc.len() - 1, acc.last().push(c))
    }
}

/// The text `s` split on newlines: always one more line than there are
/// newline characters, so an empty text gives one empty line and a
/// trailing newline gives a trailing empty line.
pub open spec fn split_lines_of(s: Seq<char>) -> Seq<Seq<char>>
    decreases s.len(),
{
    if s.len() == 0 {
        seq![Seq::<char>::empty()]
    } else {
        split_step(split_lines_of(s.drop_last()), s.last())
    }
}

/// Splits loaded text into lines on the newline character, exactly as
/// [`split_lines_of`] describes.
pub fn split_lines(text: &str) -> (lines: Vec<Vec<char>>)
    ensures
        lines_view(lines@) == split_lines_of(text@),
{
    let n = text.unicode_len();
    let mut lines: Vec<Vec<char>> = Vec::new();
    let first: Vec<char> = Vec::new();
    lines.push(first);
    proof {
        assert(text@.take(0) =~= Seq::<char>::empty());
        assert(lines_view(lines@) =~= split_lines_of(text@.take(0)));
    }
    let mut i: usize = 0;
    while i < n
        invariant
            i <= n,
            n == text@.len(),
            lines@.len() >= 1,
            lines_view(lines@) == split_lines_of(text@.take(i as int)),
        decreases n - i,
    {
        proof {
            assert(text@.take(i + 1).drop_last() =~= text@.take(i as int));
            assert(text@.take(i + 1).last() == text@[i as int]);
        }
        let c = text.get_char(i);
        if c == '\n' {
            let fresh: Vec<char> = Vec::new();
            lines.push(fresh);
            proof {
                assert(lines_view(lines@) =~= split_lines_of(text@.take(i + 1)));
            }
        } else {
            let mut last_line = lines.pop().unwrap();
            last_line.push(c);
            lines.push(last_line);
            proof {
                assert(lines_view(lines@) =~= split_lines_of(text@.take(i + 1)));
            }
        }
        i = i + 1;
    }
    proof {
        assert(text@.take(n as int) =~= text@);
    }
    lines
}

/// The digit character for a value below ten.
pub open spec fn digit_char(d: int) -> char {
    if d == 0 {
        '0'
    } else if d == 1 {
        '1'
    } else if d == 2 {
        '2'
    } else if d == 3 {
        '3'
    } else if d == 4 {
        '4'
    } else if d == 5 {
        '5'
    } else if d == 6 {
        '6'
    } else if d == 7 {
        '7'
    } else if d == 8 {
        '8'
    } else {
        '9'
    }
}

/// The decimal digits of `n`, most significant first.
pub open spec fn dec_of(n: nat) -> Seq<char>
    decreases n,
{
    if n < 10 {
        seq![digit_char(n as int)]
    } else {
        dec_of(n / 10).push(digit_char((n % 10) as int))
    }
}

/// The characters of the string slice `s`, in order.
pub fn str_chars(s: &str) -> (v: Vec<char>)
    ensures
        v@ == s@,
{
    let n = s.unicode_len();
    let mut v: Vec<char> = Vec::new();
    let mut i: usize = 0;
    proof {
        assert(s@.take(0) =~= Seq::<char>::empty());
    }
    while i < n
        invariant
            i <= n,
            n == s@.len(),
            v@ == s@.take(i as int),
        decreases n - i,
    {
        let c = s.get_char(i);
        v.push(c);
        proof {
            assert(s@.take(i + 1) =~= s@.take(i as int).push(s@[i as int]));
        }
        i = i + 1;
    }
    proof {
        assert(s@.take(n as int) =~= s@);
    }
    v
}

/// A copy of the characters in `src`.
pub fn copy_chars(src: &Vec<char>) -> (dst: Vec<char>)
    ensures
        dst@ == src@,
{
    let mut dst: Vec<char> = Vec::new();
    let mut i: usize = 0;
    proof {
        assert(src@.take(0) =~= Seq::<char>::empty());
    }
    while i < src.len()
        invariant
            i <= src@.len(),
            dst@ == src@.take(i as int),
        decreases src@.len() - i,
    {
        dst.push(src[i]);
        proof {
            assert(src@.take(i + 1) =~= src@.take(i as int).push(src@[i as int]));
        }
        i = i + 1;
    }
    proof {
        assert(src@.take(src@.len() as int) =~= src@);
    }
    dst
}

/// The decimal rendering of `n`, most significant digit first.
pub fn dec_chars(n: usize) -> (v: Vec<char>)
    ensures
        v@ == dec_of(n as nat),
    decreases n,
{
    if n < 10 {
        let d = digit_exec(n);
        let mut v: Vec<char> = Vec::new();
        v.push(d);
        proof {
            assert(v@ =~= seq![digit_char(n as int)]);
        }
        v
    } else {
        let mut v = dec_chars(n / 10);
        let d = digit_exec(n % 10);
        v.push(d);
        v
    }
}

/// A copy of `src[start..end]`.
pub fn slice_chars(src: &Vec<char>, start: usize, end: usize) -> (dst: Vec<char>)
    requires
        start <= end <= src@.len(),
    ensures
        dst@ == src@.subrange(start as int, end as int),
{
    let mut dst: Vec<char> = Vec::new();
    let mut i: usize = start;
    proof {
        assert(src@.subrange(start as int, start as int) =~= Seq::<char>::empty());
    }
    while i < end
        invariant
            start <= i <= end,
            end <= src@.len(),
            dst@ == src@.subrange(start as int, i as int),
        decreases end - i,
    {
        dst.push(src[i]);
        proof {
            assert(src@.subrange(start as int, i + 1) =~= src@.subrange(
                start as int,
                i as int,
            ).push(src@[i as int]));
        }
        i = i + 1;
    }
    dst
}

/// The digit character for `d`, which must be below ten.
fn digit_exec(d: usize) -> (c: char)
    requires
        d < 10,
    ensures
        c == digit_char(d as int),
{
    if d == 0 {
        '0'
    } else if d == 1 {
        '1'
    } else if d == 2 {
        '2'
    } else if d == 3 {
        '3'
    } else if d == 4 {
        '4'
    } else if d == 5 {
        '5'
    } else if d == 6 {
        '6'
    } else if d == 7 {
        '7'
    } else if d == 8 {
        '8'
    } else {
        '9'
    }
}

/// A copy of `src` cut down to at most `w` characters.
pub fn chars_upto(src: &Vec<char>, w: usize) -> (dst: Vec<char>)
    ensures
        dst@ == take_upto(src@, w as int),
{
    let n: usize = if src.len() < w {
        src.len()
    } else {
        w
    };
    let mut dst: Vec<char> = Vec::new();
    let mut i: usize = 0;
    proof {
        assert(src@.take(0) =~= Seq::<char>::empty());
    }
    while i < n
        invariant
            i <= n,
            n <= src@.len(),
            dst@ == src@.take(i as int),
        decreases n - i,
    {
        dst.push(src[i]);
        proof {
            assert(src@.take(i + 1) =~= src@.take(i as int).push(src@[i as int]));
        }
        i = i + 1;
    }
    proof {
        if src@.len() <= w {
            assert(src@.take(src@.len() as int) =~= src@);
        }
    }
    dst
}

} // verus!
