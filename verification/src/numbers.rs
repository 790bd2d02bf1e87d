use vstd::prelude::*;

use crate::text::{chars_of, decimal, push_char, push_decimal};

verus! {

broadcast use vstd::string::group_string_axioms;

/// Whether `c` is one of the ASCII digits `0` to `9`.
pub open spec fn is_digit(c: char) -> bool {
    '0' <= c && c <= '9'
}

/// The value of an ASCII digit.
pub open spec fn digit_value(c: char) -> nat {
    ((c as u32) - ('0' as u32)) as nat
}

/// The value of a string of decimal digits.
pub open spec fn digits_value(s: Seq<char>) -> nat
    decreases s.len(),
{
    if s.len() == 0 {
        0
    } else {
        digits_value(s.drop_last()) * 10 + digit_value(s.last())
    }
}

/// A non-empty string of ASCII digits.
pub open spec fn all_digits(s: Seq<char>) -> bool {
    s.len() > 0 && forall|i: int| 0 <= i < s.len() ==> #[trigger] is_digit(s[i])
}

/// The integer that a text spells as Rust's integer parsing reads it: an optional `+` or
/// `-` and at least one ASCII digit, nothing else.
pub open spec fn int_of_text(s: Seq<char>) -> Option<int> {
    if s.len() > 0 && s[0] == '-' && all_digits(s.drop_first()) {
        Some(-(digits_value(s.drop_first()) as int))
    } else if s.len() > 0 && s[0] == '+' && all_digits(s.drop_first()) {
        Some(digits_value(s.drop_first()) as int)
    } else if all_digits(s) {
        Some(digits_value(s) as int)
    } else {
        None
    }
}

/// What `str::parse::<i32>` gives for a text: its integer, when it has one in range.
pub open spec fn i32_of_text(s: Seq<char>) -> Option<i32> {
    match int_of_text(s) {
        Some(v) => if i32::MIN <= v && v <= i32::MAX {
            Some(v as i32)
        } else {
            None
        },
        None => None,
    }
}

/// The decimal notation of an integer, with `-` before a negative one.
pub open spec fn int_text(v: int) -> Seq<char> {
    if v < 0 {
        seq!['-'] + decimal((-v) as nat)
    } else {
        decimal(v as nat)
    }
}

proof fn lemma_digits_value_grows(s: Seq<char>, k: int)
    requires
        0 <= k <= s.len(),
    ensures
        digits_value(s.take(k)) <= digits_value(s),
    decreases s.len() - k,
{
    if k < s.len() {
        lemma_digits_value_grows(s.drop_last(), k);
        assert(s.drop_last().take(k) =~= s.take(k));
    } else {
        assert(s.take(k) =~= s);
    }
}

/// The value of the digits `cs[from..]` when they are all digits (at least one) and the
/// value is at most `2^32`; `None` otherwise.
fn read_digits(cs: &[char], from: usize) -> (r: Option<u64>)
    requires
        from <= cs.len(),
    ensures
        r matches Some(v) ==> all_digits(cs@.skip(from as int)) && v == digits_value(
            cs@.skip(from as int),
        ) && v <= 0x1_0000_0000,
        r is None ==> !all_digits(cs@.skip(from as int)) || digits_value(cs@.skip(from as int))
            > 0x1_0000_0000,
{
    let ghost t = cs@.skip(from as int);
    if from == cs.len() {
        return None;
    }
    let mut acc: u64 = 0;
    let mut i: usize = from;
    assert(t.take(0) =~= Seq::<char>::empty());
    while i < cs.len()
        invariant
            from <= i <= cs.len(),
            from < cs.len(),
            t == cs@.skip(from as int),
            t.len() == cs.len() - from,
            forall|j: int| 0 <= j < i - from ==> #[trigger] is_digit(t[j]),
            acc == digits_value(t.take(i - from)),
            acc <= 0x1_0000_0000,
        decreases cs.len() - i,
    {
        let c = cs[i];
        assert(t[i - from] == c);
        if !('0' <= c && c <= '9') {
            assert(!is_digit(t[i - from]));
            return None;
        }
        let d: u64 = (c as u32 - '0' as u32) as u64;
        assert(t.take(i - from + 1).drop_last() =~= t.take(i - from));
        acc = acc * 10 + d;
        i = i + 1;
        if acc > 0x1_0000_0000 {
            proof {
                lemma_digits_value_grows(t, i - from);
            }
            return None;
        }
    }
    proof {
        assert(t.take(i - from) =~= t);
    }
    Some(acc)
}

/// Parses a text as `str::parse::<i32>` does.
pub fn parse_i32(s: &str) -> (r: Option<i32>)
    ensures
        r == i32_of_text(s@),
{
    let cs = chars_of(s);
    let n = cs.len();
    if n > 0 && (cs[0] == '-' || cs[0] == '+') {
        let negative = cs[0] == '-';
        assert(cs@.skip(1) =~= cs@.drop_first());
        assert(!is_digit(cs@[0]));
        match read_digits(cs.as_slice(), 1) {
            Some(v) => {
                if negative {
                    if v <= 0x8000_0000 {
                        let x: i64 = 0i64 - (v as i64);
                        Some(x as i32)
                    } else {
                        None
                    }
                } else {
                    if v <= 0x7fff_ffff {
                        Some(v as i32)
                    } else {
                        None
                    }
                }
            },
            None => None,
        }
    } else {
        assert(cs@.skip(0) =~= cs@);
        match read_digits(cs.as_slice(), 0) {
            Some(v) => {
                if v <= 0x7fff_ffff {
                    Some(v as i32)
                } else {
                    None
                }
            },
            None => None,
        }
    }
}

/// Appends the decimal notation of `v` to `s`, with `-` before a negative value.
pub fn push_int(s: &mut String, v: i64)
    ensures
        final(s)@ == old(s)@ + int_text(v as int),
{
    if v < 0 {
        push_char(s, '-');
        let m: u64 = (0i128 - (v as i128)) as u64;
        push_decimal(s, m);
        assert(old(s)@ + int_text(v as int) =~= old(s)@.push('-') + decimal(m as nat));
    } else {
        push_decimal(s, v as u64);
    }
}

/// The decimal notation of `v`, as `to_string` writes an integer.
pub fn int_string(v: i64) -> (r: String)
    ensures
        r@ == int_text(v as int),
{
    let mut s = String::new();
    push_int(&mut s, v);
    assert(s@ =~= int_text(v as int));
    s
}

} // verus!
