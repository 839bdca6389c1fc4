//! Contracts for the operations of `String` that the library edits text
//! with, and the first word of a line.

use vstd::prelude::*;
use crate::geometry::least;

verus! {

/// `String::push` appends one character to the string.
pub assume_specification[ String::push ](s: &mut String, ch: char)
    ensures
        final(s)@ == old(s)@.push(ch),
;

/// `String::pop` removes the last character and returns it, or returns
/// `None` and leaves the string empty where it was empty.
pub assume_specification[ String::pop ](s: &mut String) -> (r: Option<char>)
    ensures
        old(s)@.len() > 0 ==> r == Some(old(s)@.last()) && final(s)@ == old(s)@.drop_last(),
        old(s)@.len() == 0 ==> r.is_none() && final(s)@ == old(s)@,
;

/// White space: the characters that separate the words of a line.
pub open spec fn is_space(c: char) -> bool {
    c == ' ' || ('\t' <= c && c <= '\r')
}

/// Tells whether `c` is white space.
pub fn is_space_char(c: char) -> (r: bool)
    ensures
        r == is_space(c),
{
    c == ' ' || ('\t' <= c && c <= '\r')
}

/// The least index at or after `from` whose character is white space
/// (`space` true) or is not (`space` false); the length of `s` if there is
/// none.
pub open spec fn first_where(s: Seq<char>, from: int, space: bool) -> int
    decreases s.len() - from,
{
    if from < 0 || from >= s.len() {
        s.len() as int
    } else if is_space(s[from]) == space {
        from
    } else {
        first_where(s, from + 1, space)
    }
}

/// The first word of `s`: the characters from the first one that is not white
/// space up to the next white space or the end. Empty where `s` holds white
/// space only.
pub open spec fn first_word(s: Seq<char>) -> Seq<char> {
    let start = first_where(s, 0, false);
    s.subrange(start, first_where(s, start, true))
}

/// The index that [`first_where`] gives lies between `from` and the length.
pub proof fn lemma_first_where_bounds(s: Seq<char>, from: int, space: bool)
    requires
        0 <= from <= s.len(),
    ensures
        from <= first_where(s, from, space) <= s.len(),
    decreases s.len() - from,
{
    if from < s.len() && is_space(s[from]) != space {
        lemma_first_where_bounds(s, from + 1, space);
    }
}

/// Copies the first word of `line`.
pub fn first_word_of(line: &str) -> (r: String)
    ensures
        r@ == first_word(line@),
{
    let mut word = String::new();
    let mut started = false;
    let mut done = false;
    let ghost s = line@;
    let ghost start = first_where(s, 0, false);
    proof {
        lemma_first_where_bounds(s, 0, false);
    }
    for c in it: line.chars()
        invariant
            it.seq() == s,
            0 <= start == first_where(s, 0, false),
            !started ==> !done && word@ == Seq::<char>::empty() && start == first_where(
                s,
                it.index() as int,
                false,
            ),
            started && !done ==> start <= it.index() && word@ == s.subrange(start, it.index() as int)
                && first_where(s, start, true) == first_where(s, it.index() as int, true),
            done ==> started && word@ == first_word(s),
    {
        let ghost i = it.index() as int;
        let ghost before = word@;
        assert(0 <= i < s.len() && c == s[i]);
        if !done {
            if is_space_char(c) {
                if started {
                    done = true;
                    proof {
                        assert(first_where(s, i, true) == i);
                    }
                }
            } else {
                if !started {
                    assert(start == i);
                }
                started = true;
                word.push(c);
                proof {
                    assert(s.subrange(start, i + 1) =~= s.subrange(start, i).push(c));
                    assert(first_where(s, i, true) == first_where(s, i + 1, true));
                }
            }
        }
    }
    proof {
        let n = s.len() as int;
        assert(first_where(s, n, true) == n);
        assert(first_where(s, n, false) == n);
        if !started {
            assert(s.subrange(n, n) =~= Seq::<char>::empty());
        }
    }
    word
}

/// `n` spaces.
pub open spec fn spaces(n: nat) -> Seq<char> {
    Seq::new(n, |i: int| ' ')
}

/// The text of `line` followed by `count` spaces.
pub fn pad_right(line: &str, count: usize) -> (r: String)
    ensures
        r@ == line@ + spaces(count as nat),
{
    let mut padded = line.to_owned();
    let mut i: usize = 0;
    proof {
        assert(padded@ =~= line@ + spaces(0));
    }
    while i < count
        invariant
            i <= count,
            padded@ == line@ + spaces(i as nat),
        decreases count - i,
    {
        padded.push(' ');
        proof {
            assert(line@ + spaces((i + 1) as nat) =~= (line@ + spaces(i as nat)).push(' '));
        }
        i += 1;
    }
    padded
}

/// The character of the decimal digit `d`.
pub open spec fn digit_char(d: int) -> char {
    if d == 0 {
        '0'
    } else if d == 1 {
        '1'
    } else if d == 2 {
        '2'
    } else if d == 3 {
        '3'
    } else if d == 4 {
        '4'
    } else if d == 5 {
        '5'
    } else if d == 6 {
        '6'
    } else if d == 7 {
        '7'
    } else if d == 8 {
        '8'
    } else {
        '9'
    }
}

/// The value of the decimal digit `c`, if it is one.
pub open spec fn digit_value(c: char) -> Option<int> {
    if '0' <= c && c <= '9' {
        Some(c as int - '0' as int)
    } else {
        None
    }
}

/// The decimal digits of `n`, the most significant first and without leading
/// zeros.
pub open spec fn decimal(n: nat) -> Seq<char>
    decreases n,
{
    if n < 10 {
        seq![digit_char(n as int)]
    } else {
        decimal(n / 10).push(digit_char((n % 10) as int))
    }
}

/// Every character is a decimal digit.
pub open spec fn all_digits(s: Seq<char>) -> bool {
    forall|i: int| 0 <= i < s.len() ==> digit_value(#[trigger] s[i]).is_some()
}

/// The number that the decimal digits `s` write; zero for no digits.
pub open spec fn decimal_value(s: Seq<char>) -> nat
    decreases s.len(),
{
    if s.len() == 0 {
        0
    } else {
        match digit_value(s.last()) {
            Some(d) => decimal_value(s.drop_last()) * 10 + d as nat,
            None => 0,
        }
    }
}

/// The number that `s` writes in decimal digits, if it holds digits only, at
/// least one, and the number fits into `usize`.
pub open spec fn parsed_decimal(s: Seq<char>) -> Option<usize> {
    if s.len() > 0 && all_digits(s) && decimal_value(s) <= usize::MAX {
        Some(decimal_value(s) as usize)
    } else {
        None
    }
}

/// The character of a decimal digit.
fn digit_to_char(d: usize) -> (r: char)
    requires
        d < 10,
    ensures
        r == digit_char(d as int),
{
    if d == 0 {
        '0'
    } else if d == 1 {
        '1'
    } else if d == 2 {
        '2'
    } else if d == 3 {
        '3'
    } else if d == 4 {
        '4'
    } else if d == 5 {
        '5'
    } else if d == 6 {
        '6'
    } else if d == 7 {
        '7'
    } else if d == 8 {
        '8'
    } else {
        '9'
    }
}

/// The value of a decimal digit, if `c` is one.
fn char_to_digit(c: char) -> (r: Option<usize>)
    ensures
        match r {
            Some(d) => digit_value(c) == Some(d as int) && d < 10,
            None => digit_value(c).is_none(),
        },
{
    if '0' <= c && c <= '9' {
        Some((c as u32 - '0' as u32) as usize)
    } else {
        None
    }
}

/// Appends the decimal digits of `n` to `out`.
pub fn push_decimal(out: &mut String, n: usize)
    ensures
        final(out)@ == old(out)@ + decimal(n as nat),
    decreases n,
{
    if n >= 10 {
        push_decimal(out, n / 10);
    }
    out.push(digit_to_char(n % 10));
    proof {
        if n >= 10 {
            assert(out@ =~= old(out)@ + decimal(n as nat));
        } else {
            assert(out@ =~= old(out)@ + decimal(n as nat));
        }
    }
}

/// Reads decimal digits as a number. The result is `None` where a character
/// is no digit, where there is no character, and where the number does not
/// fit.
pub fn parse_decimal(digits: &str) -> (r: Option<usize>)
    ensures
        r == parsed_decimal(digits@),
{
    let ghost s = digits@;
    let mut value: usize = 0;
    let mut any = false;
    for c in it: digits.chars()
        invariant
            it.seq() == s,
            s == digits@,
            any == (it.index() > 0),
            all_digits(s.take(it.index() as int)),
            value == decimal_value(s.take(it.index() as int)),
    {
        let ghost i = it.index() as int;
        assert(0 <= i < s.len() && c == s[i]);
        proof {
            assert(s.take(i + 1).drop_last() =~= s.take(i));
            assert(s.take(i + 1).last() == c);
        }
        match char_to_digit(c) {
            Some(d) => {
                assert(decimal_value(s.take(i + 1)) == decimal_value(s.take(i)) * 10 + d);
                let next = match value.checked_mul(10) {
                    Some(tens) => tens.checked_add(d),
                    None => None,
                };
                match next {
                    Some(v) => {
                        value = v;
                    },
                    None => {
                        proof {
                            assert(decimal_value(s.take(i + 1)) > usize::MAX);
                            lemma_decimal_value_grows(s, i + 1);
                        }
                        return None;
                    },
                }
            },
            None => {
                proof {
                    assert(!all_digits(s)) by {
                        assert(digit_value(s[i]).is_none());
                    }
                }
                return None;
            },
        }
        any = true;
        proof {
            assert forall|j: int| 0 <= j < s.take(i + 1).len() implies digit_value(#[trigger] s.take(i + 1)[j]).is_some() by {
                if j < i {
                    assert(s.take(i)[j] == s.take(i + 1)[j]);
                }
            }
        }
    }
    proof {
        assert(s.take(s.len() as int) =~= s);
    }
    if any {
        Some(value)
    } else {
        None
    }
}

/// The number written by the first `k` digits is no greater than the number
/// written by all of them.
pub proof fn lemma_decimal_value_grows(s: Seq<char>, k: int)
    requires
        0 <= k <= s.len(),
    ensures
        all_digits(s) ==> decimal_value(s.take(k)) <= decimal_value(s),
    decreases s.len() - k,
{
    if all_digits(s) {
        if k < s.len() {
            lemma_decimal_value_grows(s, k + 1);
            assert(s.take(k + 1).drop_last() =~= s.take(k));
            assert(s.take(k + 1).last() == s[k]);
            assert(digit_value(s[k]).is_some());
        } else {
            assert(s.take(k) =~= s);
        }
    }
}

/// The text `s` moved to the right end of a field `width` characters wide:
/// spaces before it make up for what it falls short. A longer text
/// stays as it is.
pub open spec fn right_aligned(s: Seq<char>, width: int) -> Seq<char> {
    spaces(crate::geometry::sat_sub(width, s.len() as int) as nat) + s
}

/// Appends `text` to `out`, moved to the right end of a field `width`
/// characters wide.
pub fn push_right_aligned(out: &mut String, text: &str, width: usize)
    ensures
        final(out)@ == old(out)@ + right_aligned(text@, width as int),
{
    let fill: usize = width.saturating_sub(text.unicode_len());
    let mut i: usize = 0;
    proof {
        assert(out@ =~= old(out)@ + spaces(0));
    }
    while i < fill
        invariant
            i <= fill,
            out@ == old(out)@ + spaces(i as nat),
        decreases fill - i,
    {
        out.push(' ');
        proof {
            assert(old(out)@ + spaces((i + 1) as nat) =~= (old(out)@ + spaces(i as nat)).push(' '));
        }
        i += 1;
    }
    out.append(text);
    proof {
        assert(out@ =~= old(out)@ + right_aligned(text@, width as int));
    }
}

/// The text `s` in a field of exactly `width` characters: cut off after
/// `width` characters, or followed by spaces that make up for what it falls
/// short.
pub open spec fn fitted(s: Seq<char>, width: int) -> Seq<char> {
    if s.len() >= width {
        s.take(width)
    } else {
        s + spaces((width - s.len()) as nat)
    }
}

/// The text of `text` in a field of exactly `width` characters.
pub fn fit_to_width(text: &str, width: usize) -> (r: String)
    ensures
        r@ == fitted(text@, width as int),
{
    let ghost s = text@;
    let mut out = String::new();
    let mut count: usize = 0;
    for c in it: text.chars()
        invariant
            it.seq() == s,
            count <= width,
            count == least(it.index() as int, width as int),
            out@ == s.take(count as int),
    {
        let ghost i = it.index() as int;
        assert(0 <= i < s.len() && c == s[i]);
        if count < width {
            out.push(c);
            proof {
                assert(s.take(count + 1) =~= s.take(count as int).push(c));
            }
            count += 1;
        }
    }
    let fill: usize = width - count;
    let ghost head = out@;
    let mut k: usize = 0;
    proof {
        assert(out@ =~= head + spaces(0));
    }
    while k < fill
        invariant
            k <= fill,
            out@ == head + spaces(k as nat),
        decreases fill - k,
    {
        out.push(' ');
        proof {
            assert(head + spaces((k + 1) as nat) =~= (head + spaces(k as nat)).push(' '));
        }
        k += 1;
    }
    proof {
        if s.len() >= width {
            assert(out@ =~= s.take(width as int));
        } else {
            assert(s.take(s.len() as int) =~= s);
        }
    }
    out
}

} // verus!
