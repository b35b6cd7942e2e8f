use vstd::prelude::*;
use vstd::string::*;

verus! {

/// `String::push` appends one character to the end of the string.
pub assume_specification[ String::push ](s: &mut String, ch: char)
    ensures
        final(s)@ == old(s)@.push(ch),
;

/// `String::pop` removes the last character and returns it, or returns
/// `None` and leaves the string as it is where it is empty.
pub assume_specification[ String::pop ](s: &mut String) -> (last: Option<char>)
    ensures
        old(s)@.len() == 0 ==> last.is_none() && final(s)@ == old(s)@,
        old(s)@.len() > 0 ==> last == Some(old(s)@.last()) && final(s)@ == old(s)@.drop_last(),
;

/// `String::clear` removes every character.
pub assume_specification[ String::clear ](s: &mut String)
    ensures
        final(s)@ == Seq::<char>::empty(),
;

/// `unit` written `n` times in a row.
pub open spec fn repeat_seq(unit: Seq<char>, n: nat) -> Seq<char>
    decreases n,
{
    if n == 0 {
        Seq::empty()
    } else {
        repeat_seq(unit, (n - 1) as nat) + unit
    }
}

/// Appends `unit` to `s`, `n` times.
pub fn push_repeat(s: &mut String, unit: &str, n: usize)
    ensures
        final(s)@ == old(s)@ + repeat_seq(unit@, n as nat),
{
    let mut i: usize = 0;
    assert(s@ =~= old(s)@ + repeat_seq(unit@, 0));
    while i < n
        invariant
            i <= n,
            s@ == old(s)@ + repeat_seq(unit@, i as nat),
        decreases n - i,
    {
        s.append(unit);
        i = i + 1;
        assert(s@ =~= old(s)@ + repeat_seq(unit@, i as nat));
    }
}

/// The character of a digit below sixteen, with capital letters from ten on.
pub open spec fn digit_char(d: int) -> char {
    if d < 10 {
        ((48 + d) as u8) as char
    } else {
        ((55 + d) as u8) as char
    }
}

/// The character of a digit below sixteen.
pub fn digit_to_char(d: u8) -> (c: char)
    requires
        d < 16,
    ensures
        c == digit_char(d as int),
{
    if d < 10 {
        (48 + d) as char
    } else {
        (55 + d) as char
    }
}

/// The decimal digits of a natural number, without leading zeros.
pub open spec fn decimal_digits(n: nat) -> Seq<char>
    decreases n,
{
    if n < 10 {
        seq![digit_char(n as int)]
    } else {
        decimal_digits(n / 10).push(digit_char((n % 10) as int))
    }
}

/// An integer written in decimal, with a minus sign where it is negative.
pub open spec fn decimal(n: int) -> Seq<char> {
    if n < 0 {
        seq!['-'] + decimal_digits((-n) as nat)
    } else {
        decimal_digits(n as nat)
    }
}

fn push_decimal_digits(s: &mut String, n: u32)
    ensures
        final(s)@ == old(s)@ + decimal_digits(n as nat),
    decreases n,
{
    if n >= 10 {
        push_decimal_digits(s, n / 10);
    }
    s.push(digit_to_char((n % 10) as u8));
    assert(s@ =~= old(s)@ + decimal_digits(n as nat));
}

/// Writes `n` in decimal.
pub fn decimal_string(n: i32) -> (s: String)
    ensures
        s@ == decimal(n as int),
{
    let mut s = String::new();
    if n < 0 {
        s.push('-');
        let m: u32 = if n == i32::MIN {
            2147483648u32
        } else {
            (-n) as u32
        };
        push_decimal_digits(&mut s, m);
        assert(s@ =~= decimal(n as int));
    } else {
        push_decimal_digits(&mut s, n as u32);
        assert(s@ =~= decimal(n as int));
    }
    s
}

/// How many line breaks a text holds.
pub open spec fn newlines(text: Seq<char>) -> nat
    decreases text.len(),
{
    if text.len() == 0 {
        0
    } else {
        newlines(text.drop_last()) + (if text.last() == '\n' {
            1nat
        } else {
            0nat
        })
    }
}

/// How many lines a text has: one per line break, and one more where text
/// follows the last break.
pub open spec fn spec_line_count(text: Seq<char>) -> nat {
    if text.len() > 0 && text.last() != '\n' {
        newlines(text) + 1
    } else {
        newlines(text)
    }
}

/// A text has no more line breaks than characters, and fewer where it
/// does not end in one.
pub proof fn lemma_newlines_bound(text: Seq<char>)
    ensures
        newlines(text) <= text.len(),
        text.len() > 0 && text.last() != '\n' ==> newlines(text) < text.len(),
    decreases text.len(),
{
    if text.len() > 0 {
        lemma_newlines_bound(text.drop_last());
    }
}

/// Counts the lines of a text.
pub fn line_count(text: &str) -> (lines: usize)
    ensures
        lines == spec_line_count(text@),
{
    let len = text.unicode_len();
    let mut count: usize = 0;
    let mut last_is_break = true;
    let mut i: usize = 0;
    while i < len
        invariant
            i <= len,
            len == text@.len(),
            count == newlines(text@.take(i as int)),
            count <= i,
            last_is_break == (i == 0 || text@[i - 1] == '\n'),
            i > 0 && !last_is_break ==> count < i,
        decreases len - i,
    {
        let c = text.get_char(i);
        proof {
            assert(text@.take(i + 1).drop_last() =~= text@.take(i as int));
            lemma_newlines_bound(text@.take(i + 1));
        }
        if c == '\n' {
            count = count + 1;
            last_is_break = true;
        } else {
            last_is_break = false;
        }
        i = i + 1;
    }
    assert(text@.take(len as int) =~= text@);
    if last_is_break {
        count
    } else {
        count + 1
    }
}

} // verus!
