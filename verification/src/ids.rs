use vstd::prelude::*;

use crate::text::push_char;

verus! {

/// The lower-case hexadecimal digit of `n`, for `n` below 16.
pub open spec fn hex_digit(n: nat) -> char {
    if n < 10 {
        crate::text::digit_char(n)
    } else if n == 10 {
        'a'
    } else if n == 11 {
        'b'
    } else if n == 12 {
        'c'
    } else if n == 13 {
        'd'
    } else if n == 14 {
        'e'
    } else {
        'f'
    }
}

/// The last `n` hexadecimal digits of `v`, most significant first.
pub open spec fn hex_digits(v: nat, n: nat) -> Seq<char>
    decreases n,
{
    if n == 0 {
        Seq::empty()
    } else {
        hex_digits(v / 16, (n - 1) as nat).push(hex_digit(v % 16))
    }
}

/// A UUID in its simple form: 32 lower-case hexadecimal digits.
pub open spec fn uuid_simple(v: u128) -> Seq<char> {
    hex_digits(v as nat, 32)
}

/// A UUID in its hyphenated form, as `Uuid` displays it: groups of 8, 4, 4, 4 and 12
/// lower-case hexadecimal digits joined by `-`.
pub open spec fn uuid_hyphenated(v: u128) -> Seq<char> {
    let h = uuid_simple(v);
    h.subrange(0, 8) + seq!['-'] + h.subrange(8, 12) + seq!['-'] + h.subrange(12, 16) + seq!['-']
        + h.subrange(16, 20) + seq!['-'] + h.subrange(20, 32)
}

/// What `Uuid::parse_str` accepts and gives: the 128-bit value of a UUID written in one of
/// the crate's accepted forms.
pub uninterp spec fn uuid_from_text(text: Seq<char>) -> Option<u128>;

/// Parses a UUID with `Uuid::parse_str`. The contract claims that the result is
/// `uuid_from_text` of the text, by the value of the UUID, and, as the crate's parser
/// reads 32 hexadecimal digits or the hyphenated 8-4-4-4-12 form in order, most
/// significant first, that the simple and hyphenated forms of a value give that value.
#[verifier::external_body]
pub(crate) fn parse_uuid(text: &str) -> (r: Option<u128>)
    ensures
        r == uuid_from_text(text@),
        forall|v: u128| #[trigger] uuid_simple(v) == text@ ==> r == Some(v),
        forall|v: u128| #[trigger] uuid_hyphenated(v) == text@ ==> r == Some(v),
{
    uuid::Uuid::parse_str(text).ok().map(|u| u.as_u128())
}

fn hex_char(n: u128) -> (c: char)
    requires
        n < 16,
    ensures
        c == hex_digit(n as nat),
{
    if n < 10 {
        crate::text::digit_of(n as usize)
    } else if n == 10 {
        'a'
    } else if n == 11 {
        'b'
    } else if n == 12 {
        'c'
    } else if n == 13 {
        'd'
    } else if n == 14 {
        'e'
    } else {
        'f'
    }
}

fn push_hex_digits(s: &mut String, v: u128, n: u32)
    ensures
        final(s)@ == old(s)@ + hex_digits(v as nat, n as nat),
    decreases n,
{
    if n > 0 {
        push_hex_digits(s, v / 16, n - 1);
        push_char(s, hex_char(v % 16));
        assert(old(s)@ + hex_digits(v as nat, n as nat) =~= old(s)@ + hex_digits(
            (v / 16) as nat,
            (n - 1) as nat,
        ) + seq![hex_digit((v % 16) as nat)]);
    } else {
        assert(old(s)@ + hex_digits(v as nat, 0) =~= old(s)@);
    }
}

proof fn lemma_hex_digits_len(v: nat, n: nat)
    ensures
        hex_digits(v, n).len() == n,
    decreases n,
{
    if n > 0 {
        lemma_hex_digits_len(v / 16, (n - 1) as nat);
    }
}

/// The simple form of a UUID.
pub fn uuid_simple_string(v: u128) -> (r: String)
    ensures
        r@ == uuid_simple(v),
{
    let mut s = String::new();
    push_hex_digits(&mut s, v, 32);
    assert(s@ =~= uuid_simple(v));
    s
}

/// The hyphenated form of a UUID.
pub fn uuid_string(v: u128) -> (r: String)
    ensures
        r@ == uuid_hyphenated(v),
{
    let h = crate::text::chars_of(uuid_simple_string(v).as_str());
    proof {
        lemma_hex_digits_len(v as nat, 32);
    }
    let mut s = String::new();
    let mut i: usize = 0;
    while i < 32
        invariant
            i <= 32,
            h@ == uuid_simple(v),
            h@.len() == 32,
            s@ == uuid_hyphenated(v).take(
                i + if i > 20 {
                    4int
                } else if i > 16 {
                    3int
                } else if i > 12 {
                    2int
                } else if i > 8 {
                    1int
                } else {
                    0int
                },
            ),
        decreases 32 - i,
    {
        if i == 8 || i == 12 || i == 16 || i == 20 {
            push_char(&mut s, '-');
        }
        push_char(&mut s, h[i]);
        i = i + 1;
        assert(s@ =~= uuid_hyphenated(v).take(
            i + if i > 20 {
                4int
            } else if i > 16 {
                3int
            } else if i > 12 {
                2int
            } else if i > 8 {
                1int
            } else {
                0int
            },
        ));
    }
    assert(s@ =~= uuid_hyphenated(v));
    s
}

/// The hyphenated form of a UUID has 36 characters.
pub proof fn lemma_uuid_hyphenated_len(v: u128)
    ensures
        uuid_simple(v).len() == 32,
        uuid_hyphenated(v).len() == 36,
{
    lemma_hex_digits_len(v as nat, 32);
}

} // verus!
