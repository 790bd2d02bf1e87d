use vstd::prelude::*;
use vstd::string::StringSliceAdditionalSpecFns;

use crate::text::{char_is_space, chars_of, is_space, push_char, string_of, to_lowercase, trim, trim_chars};

verus! {

broadcast use vstd::string::group_string_axioms;

/// What `str::to_uppercase` gives for a text: the Unicode upper-case mapping.
pub uninterp spec fn uppercase_text(s: Seq<char>) -> Seq<char>;

/// The upper-case form of `s`, by `str::to_uppercase`. The mapping is Unicode's; the
/// contract says only that the result is `uppercase_text` of the argument.
#[verifier::external_body]
pub(crate) fn to_uppercase(s: &str) -> (r: String)
    ensures
        r@ == uppercase_text(s@),
{
    s.to_uppercase()
}

/// The first character of each whitespace-separated word of `s`, in order; `in_word`
/// tells whether `s` continues a word.
pub open spec fn word_initials(s: Seq<char>, in_word: bool) -> Seq<char>
    decreases s.len(),
{
    if s.len() == 0 {
        Seq::empty()
    } else if is_space(s[0]) {
        word_initials(s.drop_first(), false)
    } else if in_word {
        word_initials(s.drop_first(), true)
    } else {
        seq![s[0]] + word_initials(s.drop_first(), true)
    }
}

/// The initials shown for a user: the upper-cased first characters of the first two words
/// of the display name, or `AD` when it has no word.
pub open spec fn initials_of(display_name: Seq<char>) -> Seq<char> {
    let inits = word_initials(display_name, false);
    if inits.len() == 0 {
        "AD"@
    } else {
        uppercase_text(
            inits.take(
                if inits.len() < 2 {
                    inits.len() as int
                } else {
                    2
                },
            ),
        )
    }
}

/// Whether `b` is an ASCII hexadecimal digit.
pub open spec fn is_hex_byte(b: u8) -> bool {
    (48 <= b && b <= 57) || (65 <= b && b <= 70) || (97 <= b && b <= 102)
}

/// The value of an ASCII hexadecimal digit.
pub open spec fn hex_byte_value(b: u8) -> int {
    if b <= 57 {
        b - 48
    } else if b <= 70 {
        b - 55
    } else {
        b - 87
    }
}

/// The byte that the two characters after a `%` stand for, read as `u8::from_str_radix`
/// reads them in base 16 (which also takes a leading `+`).
pub open spec fn escaped_byte(h1: u8, h2: u8) -> Option<u8> {
    if is_hex_byte(h1) && is_hex_byte(h2) {
        Some((hex_byte_value(h1) * 16 + hex_byte_value(h2)) as u8)
    } else if h1 == 43 && is_hex_byte(h2) {
        Some(hex_byte_value(h2) as u8)
    } else {
        None
    }
}

/// The byte at `i`, or the digit `0` past the end.
pub open spec fn byte_or_zero(s: Seq<u8>, i: int) -> u8 {
    if i < s.len() {
        s[i]
    } else {
        48
    }
}

/// A form-encoded byte string decoded byte by byte: `+` is a space, `%` and two
/// hexadecimal digits the character of that code (missing digits read as `0`), a `%`
/// without them stays as written, and every other byte becomes the character of its code.
pub open spec fn url_decoded(s: Seq<u8>) -> Seq<char>
    decreases s.len(),
{
    if s.len() == 0 {
        Seq::empty()
    } else if s[0] == 43 {
        seq![' '] + url_decoded(s.drop_first())
    } else if s[0] == 37 {
        let h1 = byte_or_zero(s, 1);
        let h2 = byte_or_zero(s, 2);
        let rest = s.skip(if s.len() >= 3 {
            3
        } else {
            s.len() as int
        });
        match escaped_byte(h1, h2) {
            Some(c) => seq![c as char] + url_decoded(rest),
            None => seq!['%', h1 as char, h2 as char] + url_decoded(rest),
        }
    } else {
        seq![s[0] as char] + url_decoded(s.drop_first())
    }
}

/// Whether a byte is left as it is by percent-encoding: ASCII letters, digits, `-`, `.`,
/// `_` and `~`.
pub open spec fn is_unreserved(b: u8) -> bool {
    (48 <= b && b <= 57) || (65 <= b && b <= 90) || (97 <= b && b <= 122) || b == 45 || b == 46
        || b == 95 || b == 126
}

/// The upper-case hexadecimal digit of a value below 16.
pub open spec fn upper_hex(d: int) -> char {
    if d < 10 {
        ((48 + d) as u8) as char
    } else {
        ((55 + d) as u8) as char
    }
}

/// A byte string percent-encoded as `urlencoding::encode` does: unreserved bytes as they
/// are, every other byte as `%` and two upper-case hexadecimal digits.
pub open spec fn percent_encoded(s: Seq<u8>) -> Seq<char>
    decreases s.len(),
{
    if s.len() == 0 {
        Seq::empty()
    } else if is_unreserved(s[0]) {
        seq![s[0] as char] + percent_encoded(s.drop_first())
    } else {
        seq!['%', upper_hex((s[0] / 16) as int), upper_hex((s[0] % 16) as int)] + percent_encoded(s.drop_first())
    }
}

/// Percent-encodes a text with `urlencoding::encode`; the contract states the crate's
/// documented rule (see `percent_encoded`) over the text's UTF-8 bytes.
#[verifier::external_body]
pub(crate) fn encode_component(text: &str) -> (r: String)
    ensures
        r@ == percent_encoded(text.spec_bytes()),
{
    urlencoding::encode(text).into_owned()
}

/// The address the campaign console returns to after an action on its tab `tab`:
/// `/campaigns?tab=TAB&message=TEXT`, or `&error=TEXT` when the action failed, with the
/// text percent-encoded.
pub fn campaigns_notice(tab: &str, is_error: bool, text: &str) -> (r: String)
    ensures
        r@ == "/campaigns?tab="@ + tab@ + (if is_error {
            "&error="@
        } else {
            "&message="@
        }) + percent_encoded(text.spec_bytes()),
{
    let head = crate::text::join2("/campaigns?tab=", tab);
    let key = if is_error {
        "&error="
    } else {
        "&message="
    };
    let with_key = crate::text::join2(head.as_str(), key);
    let encoded = encode_component(text);
    let r = crate::text::join2(with_key.as_str(), encoded.as_str());
    assert(r@ =~= "/campaigns?tab="@ + tab@ + key@ + percent_encoded(text.spec_bytes()));
    r
}

/// How a list is paged: how many rows a page holds, which page is shown, how many rows
/// are skipped, and how many pages there are.
#[derive(Clone, Copy, Debug, PartialEq, Eq, Structural)]
pub struct Paging {
    pub limit: i64,
    pub page: i64,
    pub offset: i64,
    pub total_pages: i64,
}

/// A value held within `lo..=hi`.
pub open spec fn clamp_int(v: int, lo: int, hi: int) -> int {
    if v < lo {
        lo
    } else if v > hi {
        hi
    } else {
        v
    }
}

/// `a / b` rounded up, for `a >= 0` and `b > 0`.
pub open spec fn ceil_div(a: int, b: int) -> int {
    (a + b - 1) / b
}

fn hex_value_of(b: u8) -> (r: Option<u8>)
    ensures
        r is Some <==> is_hex_byte(b),
        r matches Some(v) ==> v == hex_byte_value(b) && v < 16,
{
    if 48 <= b && b <= 57 {
        Some(b - 48)
    } else if 65 <= b && b <= 70 {
        Some(b - 55)
    } else if 97 <= b && b <= 102 {
        Some(b - 87)
    } else {
        None
    }
}

/// The user's initials (see `initials_of`).
pub fn get_user_initials(display_name: &str) -> (r: String)
    ensures
        r@ == initials_of(display_name@),
{
    let cs = chars_of(display_name);
    let mut inits: Vec<char> = Vec::new();
    let mut in_word = false;
    let mut i: usize = 0;
    assert(cs@.skip(0) =~= cs@);
    while i < cs.len()
        invariant
            i <= cs.len(),
            inits@ + word_initials(cs@.skip(i as int), in_word) == word_initials(cs@, false),
        decreases cs.len() - i,
    {
        let c = cs[i];
        assert(cs@.skip(i as int).drop_first() =~= cs@.skip(i + 1));
        assert(cs@.skip(i as int)[0] == c);
        if char_is_space(c) {
            in_word = false;
        } else if in_word {
        } else {
            let ghost before = inits@;
            inits.push(c);
            assert(before + (seq![c] + word_initials(cs@.skip(i + 1), true)) =~= inits@
                + word_initials(cs@.skip(i + 1), true));
            in_word = true;
        }
        i = i + 1;
    }
    assert(cs@.skip(i as int) =~= Seq::<char>::empty());
    assert(inits@ + Seq::<char>::empty() =~= inits@);
    if inits.len() == 0 {
        return "AD".to_string();
    }
    let n: usize = if inits.len() < 2 {
        inits.len()
    } else {
        2
    };
    let first = crate::text::slice_chars(inits.as_slice(), 0, n);
    assert(first@ =~= inits@.take(n as int));
    to_uppercase(string_of(first.as_slice()).as_str())
}

/// Decodes a form-encoded text (see `url_decoded`).
pub fn url_decode(s: &str) -> (r: String)
    ensures
        r@ == url_decoded(s.spec_bytes()),
{
    let bytes = s.as_bytes();
    let n = bytes.len();
    let mut out = String::new();
    let mut i: usize = 0;
    assert(bytes@.skip(0) =~= bytes@);
    while i < n
        invariant
            i <= n,
            n == bytes@.len(),
            bytes@ == s.spec_bytes(),
            out@ + url_decoded(bytes@.skip(i as int)) == url_decoded(bytes@),
        decreases n - i,
    {
        let ghost t = bytes@.skip(i as int);
        let b = bytes[i];
        assert(t[0] == b);
        if b == 43 {
            assert(t.drop_first() =~= bytes@.skip(i + 1));
            let ghost o = out@;
            push_char(&mut out, ' ');
            assert(o + (seq![' '] + url_decoded(t.drop_first())) =~= out@ + url_decoded(bytes@.skip(i + 1)));
            i = i + 1;
        } else if b == 37 {
            let h1: u8 = if n - i > 1 {
                bytes[i + 1]
            } else {
                48
            };
            let h2: u8 = if n - i > 2 {
                bytes[i + 2]
            } else {
                48
            };
            let next: usize = if n - i >= 3 {
                i + 3
            } else {
                n
            };
            assert(h1 == byte_or_zero(t, 1));
            assert(h2 == byte_or_zero(t, 2));
            assert(t.skip(
                if t.len() >= 3 {
                    3
                } else {
                    t.len() as int
                },
            ) =~= bytes@.skip(next as int));
            let ghost o = out@;
            let decoded: Option<u8> = match (hex_value_of(h1), hex_value_of(h2)) {
                (Some(a), Some(c)) => Some(a * 16 + c),
                (None, Some(c)) => if h1 == 43 {
                    Some(c)
                } else {
                    None
                },
                _ => None,
            };
            assert(decoded == escaped_byte(h1, h2));
            match decoded {
                Some(code) => {
                    push_char(&mut out, code as char);
                },
                None => {
                    push_char(&mut out, '%');
                    push_char(&mut out, h1 as char);
                    push_char(&mut out, h2 as char);
                },
            }
            assert(out@ + url_decoded(bytes@.skip(next as int)) =~= o + url_decoded(t));
            i = next;
        } else {
            assert(t.drop_first() =~= bytes@.skip(i + 1));
            let ghost o = out@;
            push_char(&mut out, b as char);
            assert(o + (seq![b as char] + url_decoded(t.drop_first())) =~= out@ + url_decoded(
                bytes@.skip(i + 1),
            ));
            i = i + 1;
        }
    }
    assert(bytes@.skip(n as int) =~= Seq::<u8>::empty());
    assert(out@ + Seq::<char>::empty() =~= out@);
    out
}

/// How a list is paged: 20 rows a page by default, held within 5 to 100; page 1 by
/// default and at least 1; the rows of earlier pages skipped; at least one page, enough
/// for all `total_count` rows.
pub fn paging(limit: Option<i64>, page: Option<i64>, total_count: i64) -> (r: Paging)
    requires
        0 <= total_count <= 0x20_0000_0000_0000,
        page matches Some(p) ==> p <= i64::MAX / 100,
    ensures
        r.limit == clamp_int(
            match limit {
                Some(l) => l as int,
                None => 20,
            },
            5,
            100,
        ),
        r.page == match page {
            Some(p) => if p < 1 {
                1
            } else {
                p as int
            },
            None => 1,
        },
        r.offset == (r.page - 1) * r.limit,
        r.total_pages == if ceil_div(total_count as int, r.limit as int) < 1 {
            1
        } else {
            ceil_div(total_count as int, r.limit as int)
        },
{
    let l0: i64 = match limit {
        Some(l) => l,
        None => 20,
    };
    let l: i64 = if l0 < 5 {
        5
    } else if l0 > 100 {
        100
    } else {
        l0
    };
    let p0: i64 = match page {
        Some(p) => p,
        None => 1,
    };
    let p: i64 = if p0 < 1 {
        1
    } else {
        p0
    };
    assert((p - 1) * l <= (i64::MAX / 100) * 100) by (nonlinear_arith)
        requires
            1 <= p <= i64::MAX / 100,
            5 <= l <= 100,
    ;
    let offset = (p - 1) * l;
    let pages = (total_count + l - 1) / l;
    let total_pages = if pages < 1 {
        1
    } else {
        pages
    };
    Paging { limit: l, page: p, offset, total_pages }
}

/// Whether a checkbox of a form is ticked: its value is `true` or `on`.
pub fn is_checked(value: Option<&str>) -> (r: bool)
    ensures
        r == match value {
            Some(v) => v@ == "true"@ || v@ == "on"@,
            None => false,
        },
{
    match value {
        Some(v) => {
            let cs = chars_of(v);
            crate::text::chars_are(cs.as_slice(), "true") || crate::text::chars_are(cs.as_slice(), "on")
        },
        None => false,
    }
}

/// The kind of a followup posted from the web: `solution` and `task` as chosen, anything
/// else a `followup`.
pub fn followup_item_type(item_type: Option<&str>) -> (r: String)
    ensures
        r@ == match item_type {
            Some(t) => if t@ == "solution"@ {
                "solution"@
            } else if t@ == "task"@ {
                "task"@
            } else {
                "followup"@
            },
            None => "followup"@,
        },
{
    match item_type {
        Some(t) => {
            let cs = chars_of(t);
            if crate::text::chars_are(cs.as_slice(), "solution") {
                "solution".to_string()
            } else if crate::text::chars_are(cs.as_slice(), "task") {
                "task".to_string()
            } else {
                "followup".to_string()
            }
        },
        None => "followup".to_string(),
    }
}

/// The tags of a contact entered as a comma-separated list: each trimmed and lower-cased,
/// blank ones left out.
pub open spec fn tag_list(pieces: Seq<Seq<char>>) -> Seq<Seq<char>>
    decreases pieces.len(),
{
    if pieces.len() == 0 {
        Seq::empty()
    } else {
        let rest = tag_list(pieces.drop_last());
        let t = crate::text::lowercase_text(trim(pieces.last()));
        if t.len() == 0 {
            rest
        } else {
            rest.push(t)
        }
    }
}

/// The pieces of `s` split at each `,`.
pub open spec fn comma_pieces(s: Seq<char>) -> Seq<Seq<char>>
    decreases s.len(),
{
    if s.len() == 0 {
        seq![Seq::empty()]
    } else {
        let rest = comma_pieces(s.drop_last());
        if s.last() == ',' {
            rest.push(Seq::empty())
        } else {
            rest.update(rest.len() - 1, rest.last().push(s.last()))
        }
    }
}

proof fn lemma_comma_pieces_nonempty(s: Seq<char>)
    ensures
        comma_pieces(s).len() >= 1,
    decreases s.len(),
{
    if s.len() > 0 {
        lemma_comma_pieces_nonempty(s.drop_last());
    }
}

/// The tags of a contact from a comma-separated list (see `tag_list`).
pub fn parse_tags(text: &str) -> (r: Vec<String>)
    ensures
        r@.map_values(|s: String| s@) == tag_list(comma_pieces(text@)),
{
    let cs = chars_of(text);
    let mut pieces: Vec<Vec<char>> = Vec::new();
    pieces.push(Vec::new());
    let mut i: usize = 0;
    assert(cs@.take(0) =~= Seq::<char>::empty());
    assert(pieces@.map_values(|p: Vec<char>| p@) =~= comma_pieces(cs@.take(0)));
    while i < cs.len()
        invariant
            i <= cs.len(),
            pieces@.len() >= 1,
            pieces@.map_values(|p: Vec<char>| p@) == comma_pieces(cs@.take(i as int)),
        decreases cs.len() - i,
    {
        let c = cs[i];
        let ghost prefix = cs@.take(i + 1);
        assert(prefix.drop_last() =~= cs@.take(i as int));
        assert(prefix.last() == c);
        proof {
            lemma_comma_pieces_nonempty(cs@.take(i as int));
        }
        if c == ',' {
            pieces.push(Vec::new());
            assert(pieces@.map_values(|p: Vec<char>| p@) =~= comma_pieces(prefix));
        } else {
            let last = pieces.len() - 1;
            let mut cur = pieces.pop().unwrap();
            cur.push(c);
            pieces.push(cur);
            assert(pieces@.map_values(|p: Vec<char>| p@) =~= comma_pieces(prefix));
        }
        i = i + 1;
    }
    assert(cs@.take(cs.len() as int) =~= cs@);
    let mut out: Vec<String> = Vec::new();
    let mut j: usize = 0;
    assert(out@.map_values(|s: String| s@) =~= tag_list(pieces@.map_values(|p: Vec<char>| p@).take(0)));
    while j < pieces.len()
        invariant
            j <= pieces.len(),
            out@.map_values(|s: String| s@) == tag_list(pieces@.map_values(|p: Vec<char>| p@).take(j as int)),
        decreases pieces.len() - j,
    {
        let ghost views = pieces@.map_values(|p: Vec<char>| p@);
        assert(views.take(j + 1).drop_last() =~= views.take(j as int));
        assert(views.take(j + 1).last() == pieces@[j as int]@);
        let piece = string_of(pieces[j].as_slice());
        let t = to_lowercase(crate::text::trimmed(piece.as_str()).as_str());
        if chars_of(t.as_str()).len() > 0 {
            let ghost before = out@;
            out.push(t);
            assert(out@.map_values(|s: String| s@) =~= before.map_values(|s: String| s@).push(t@));
        }
        j = j + 1;
    }
    assert(pieces@.map_values(|p: Vec<char>| p@).take(pieces.len() as int) =~= pieces@.map_values(
        |p: Vec<char>| p@,
    ));
    out
}


/// A byte string without `%` and `+` decodes to the characters of its bytes, one for one.
pub proof fn law_plain_bytes_decode_to_themselves(s: Seq<u8>)
    requires
        forall|i: int| 0 <= i < s.len() ==> (#[trigger] s[i]) != 37 && s[i] != 43,
    ensures
        url_decoded(s) == s.map_values(|b: u8| b as char),
    decreases s.len(),
{
    if s.len() > 0 {
        let t = s.drop_first();
        assert forall|i: int| 0 <= i < t.len() implies (#[trigger] t[i]) != 37 && t[i] != 43 by {
            assert(t[i] == s[i + 1]);
        }
        law_plain_bytes_decode_to_themselves(t);
        assert(url_decoded(s) =~= s.map_values(|b: u8| b as char));
    } else {
        assert(url_decoded(s) =~= s.map_values(|b: u8| b as char));
    }
}

/// A display name without words gives the initials `AD`.
pub proof fn law_blank_name_initials(display_name: Seq<char>)
    requires
        forall|i: int| 0 <= i < display_name.len() ==> is_space(#[trigger] display_name[i]),
    ensures
        initials_of(display_name) == "AD"@,
{
    lemma_no_words(display_name, false);
}

proof fn lemma_no_words(s: Seq<char>, in_word: bool)
    requires
        forall|i: int| 0 <= i < s.len() ==> is_space(#[trigger] s[i]),
    ensures
        word_initials(s, in_word).len() == 0,
    decreases s.len(),
{
    if s.len() > 0 {
        let t = s.drop_first();
        assert forall|i: int| 0 <= i < t.len() implies is_space(#[trigger] t[i]) by {
            assert(t[i] == s[i + 1]);
        }
        assert(is_space(s[0]));
        lemma_no_words(t, false);
    }
}

/// Paging always shows at least one page, and its pages hold every row.
pub proof fn law_pages_hold_all_rows(total_count: int, limit: int)
    requires
        0 <= total_count,
        5 <= limit <= 100,
    ensures
        ceil_div(total_count, limit) * limit >= total_count,
        ceil_div(total_count, limit) >= 0,
{
    assert(ceil_div(total_count, limit) * limit >= total_count) by (nonlinear_arith)
        requires
            0 <= total_count,
            5 <= limit,
    {
        let q = (total_count + limit - 1) / limit;
        let r = (total_count + limit - 1) % limit;
        assert(total_count + limit - 1 == q * limit + r);
    }
}

/// A list filter as the ticket list reads it: trimmed, and absent when blank.
pub fn clean_filter(value: Option<&str>) -> (r: Option<String>)
    ensures
        crate::rules::patterns::opt_text(r) == match value {
            Some(v) => if trim(v@).len() > 0 {
                Some(trim(v@))
            } else {
                None
            },
            None => None,
        },
{
    match value {
        Some(v) => {
            let t = trim_chars(v);
            if t.len() > 0 {
                Some(string_of(t.as_slice()))
            } else {
                None
            }
        },
        None => None,
    }
}

/// The entity a session names: its UUID, or the nil UUID when the text is not one.
pub fn session_entity(entity_id_text: &str) -> (r: u128)
    ensures
        r == match crate::ids::uuid_from_text(entity_id_text@) {
            Some(v) => v,
            None => 0,
        },
{
    match crate::ids::parse_uuid(entity_id_text) {
        Some(v) => v,
        None => 0,
    }
}

} // verus!
