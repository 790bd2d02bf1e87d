use vstd::prelude::*;

use crate::ids::{uuid_simple, uuid_simple_string};
use crate::numbers::{i32_of_text, parse_i32};
use crate::text::{
    chars_are, chars_contain, chars_eq_ignore_ascii_case, chars_of, contains,
    eq_ignore_ascii_case, join2, lowercase_text, push_char, to_lowercase,
};

verus! {

broadcast use vstd::string::group_string_axioms;

/// A marketing contact.
#[derive(Debug)]
pub struct MarketingContact {
    pub id: u128,
    pub entity_id: u128,
    pub email: String,
    pub first_name: String,
    pub last_name: String,
    pub company: String,
    pub phone: String,
    pub stage: String,
    pub points: i32,
    pub tags: Vec<String>,
    pub is_unsubscribed: bool,
}

/// A condition of a segment: a contact field, an operator and a value.
#[derive(Clone, Debug)]
pub struct SegmentRule {
    pub field: String,
    pub operator: String,
    pub value: String,
}

/// The integer a segment compares points with: the value parsed, 0 when it does not parse.
pub open spec fn points_target(value: Seq<char>) -> int {
    match i32_of_text(value) {
        Some(v) => v as int,
        None => 0,
    }
}

/// Whether some tag of a contact equals `value` up to ASCII case.
pub open spec fn has_tag(tags: Seq<String>, value: Seq<char>) -> bool {
    exists|i: int| 0 <= i < tags.len() && eq_ignore_ascii_case((#[trigger] tags[i])@, value)
}

/// Whether a contact passes one condition of a segment. Points compare with `gte`, `lte`
/// and `equals`; the stage with `equals` and `not_equals` up to ASCII case; tags with
/// `contains` (some tag equal up to ASCII case); the company with `contains` (lower-case
/// substring) and `equals` (up to ASCII case). Any other field or operator lets every
/// contact pass.
pub open spec fn passes(c: MarketingContact, r: SegmentRule) -> bool {
    let f = r.field@;
    let op = r.operator@;
    let v = r.value@;
    if f == "points"@ {
        if op == "gte"@ {
            c.points >= points_target(v)
        } else if op == "lte"@ {
            c.points <= points_target(v)
        } else if op == "equals"@ {
            c.points == points_target(v)
        } else {
            true
        }
    } else if f == "stage"@ {
        if op == "equals"@ {
            eq_ignore_ascii_case(c.stage@, v)
        } else if op == "not_equals"@ {
            !eq_ignore_ascii_case(c.stage@, v)
        } else {
            true
        }
    } else if f == "tags"@ {
        if op == "contains"@ {
            has_tag(c.tags@, v)
        } else {
            true
        }
    } else if f == "company"@ {
        if op == "contains"@ {
            contains(lowercase_text(c.company@), lowercase_text(v))
        } else if op == "equals"@ {
            eq_ignore_ascii_case(c.company@, v)
        } else {
            true
        }
    } else {
        true
    }
}

/// Whether a contact passes every condition of a segment.
pub open spec fn passes_all(c: MarketingContact, rules: Seq<SegmentRule>) -> bool {
    forall|i: int| 0 <= i < rules.len() ==> passes(c, #[trigger] rules[i])
}

/// The contacts among the first `n` that pass every condition, in order.
pub open spec fn segment_members(contacts: Seq<MarketingContact>, rules: Seq<SegmentRule>, n: int) -> Seq<
    MarketingContact,
>
    decreases n,
{
    if n <= 0 {
        Seq::empty()
    } else if passes_all(contacts[n - 1], rules) {
        segment_members(contacts, rules, n - 1).push(contacts[n - 1])
    } else {
        segment_members(contacts, rules, n - 1)
    }
}

/// Marketing contacts, segments and campaigns.
pub struct MarketingService;

impl MarketingService {
    fn any_tag(tags: &Vec<String>, value: &[char]) -> (r: bool)
        ensures
            r == has_tag(tags@, value@),
    {
        let mut i: usize = 0;
        while i < tags.len()
            invariant
                i <= tags.len(),
                forall|j: int| 0 <= j < i ==> !eq_ignore_ascii_case((#[trigger] tags@[j])@, value@),
            decreases tags.len() - i,
        {
            if chars_eq_ignore_ascii_case(chars_of(tags[i].as_str()).as_slice(), value) {
                return true;
            }
            i = i + 1;
        }
        false
    }

    /// Whether a contact passes one condition of a segment (see `passes`).
    pub fn contact_passes(c: &MarketingContact, r: &SegmentRule) -> (b: bool)
        ensures
            b == passes(*c, *r),
    {
        let field = chars_of(r.field.as_str());
        let op = chars_of(r.operator.as_str());
        let f = field.as_slice();
        let o = op.as_slice();
        let v = chars_of(r.value.as_str());
        if chars_are(f, "points") {
            let target: i32 = match parse_i32(r.value.as_str()) {
                Some(t) => t,
                None => 0,
            };
            if chars_are(o, "gte") {
                c.points >= target
            } else if chars_are(o, "lte") {
                c.points <= target
            } else if chars_are(o, "equals") {
                c.points == target
            } else {
                true
            }
        } else if chars_are(f, "stage") {
            let stage = chars_of(c.stage.as_str());
            if chars_are(o, "equals") {
                chars_eq_ignore_ascii_case(stage.as_slice(), v.as_slice())
            } else if chars_are(o, "not_equals") {
                !chars_eq_ignore_ascii_case(stage.as_slice(), v.as_slice())
            } else {
                true
            }
        } else if chars_are(f, "tags") {
            if chars_are(o, "contains") {
                Self::any_tag(&c.tags, v.as_slice())
            } else {
                true
            }
        } else if chars_are(f, "company") {
            if chars_are(o, "contains") {
                let company = chars_of(to_lowercase(c.company.as_str()).as_str());
                let value = chars_of(to_lowercase(r.value.as_str()).as_str());
                chars_contain(company.as_slice(), value.as_slice())
            } else if chars_are(o, "equals") {
                chars_eq_ignore_ascii_case(chars_of(c.company.as_str()).as_slice(), v.as_slice())
            } else {
                true
            }
        } else {
            true
        }
    }

    fn passes_every(c: &MarketingContact, rules: &[SegmentRule]) -> (b: bool)
        ensures
            b == passes_all(*c, rules@),
    {
        let mut i: usize = 0;
        while i < rules.len()
            invariant
                i <= rules.len(),
                forall|j: int| 0 <= j < i ==> passes(*c, #[trigger] rules@[j]),
            decreases rules.len() - i,
        {
            if !Self::contact_passes(c, &rules[i]) {
                return false;
            }
            i = i + 1;
        }
        true
    }

    /// The contacts of a segment: those, in order, that pass every condition of it.
    pub fn filter_segment_contacts(contacts: Vec<MarketingContact>, rules: &[SegmentRule]) -> (r: Vec<
        MarketingContact,
    >)
        ensures
            r@ == segment_members(contacts@, rules@, contacts@.len() as int),
    {
        let ghost all = contacts@;
        let n = contacts.len();
        let mut rest = contacts;
        let mut kept: Vec<MarketingContact> = Vec::new();
        let mut i: usize = 0;
        while rest.len() > 0
            invariant
                i <= all.len(),
                all.len() == n,
                rest@ == all.skip(i as int),
                kept@ == segment_members(all, rules@, i as int),
            decreases rest.len(),
        {
            let c = rest.remove(0);
            assert(c == all[i as int]);
            assert(rest@ =~= all.skip(i + 1));
            if Self::passes_every(&c, rules) {
                kept.push(c);
            }
            i = i + 1;
        }
        assert(i == all.len());
        kept
    }

    /// A delivery's tracking token: two random values as 32 hexadecimal digits each.
    pub fn tracking_token(first: u128, second: u128) -> (r: String)
        ensures
            r@ == uuid_simple(first) + uuid_simple(second),
    {
        let a = uuid_simple_string(first);
        let b = uuid_simple_string(second);
        join2(a.as_str(), b.as_str())
    }

    /// The name under which a contact receives a campaign: first and last name.
    pub fn recipient_name(first_name: &str, last_name: &str) -> (r: String)
        ensures
            r@ == first_name@ + seq![' '] + last_name@,
    {
        let mut s = first_name.to_string();
        push_char(&mut s, ' ');
        s.append(last_name);
        s
    }

    /// The event under which a campaign's mail is queued.
    pub fn campaign_event(name: &str) -> (r: String)
        ensures
            r@ == "campaign:"@ + name@,
    {
        join2("campaign:", name)
    }

    /// The status of a new campaign: scheduled when it has a time, a draft otherwise.
    pub fn new_campaign_status(scheduled: bool) -> (r: String)
        ensures
            r@ == if scheduled {
                "scheduled"@
            } else {
                "draft"@
            },
    {
        if scheduled {
            "scheduled".to_string()
        } else {
            "draft".to_string()
        }
    }

    /// The engagement points of a tracked event: 2 for a first open, 5 for a first click,
    /// none for a repeated one.
    pub fn engagement_points(is_click: bool, is_first: bool) -> (r: i32)
        ensures
            r == if !is_first {
                0i32
            } else if is_click {
                5i32
            } else {
                2i32
            },
    {
        if !is_first {
            0
        } else if is_click {
            5
        } else {
            2
        }
    }

    /// The stage and points of a new contact: as given, `lead` and 0 by default.
    pub fn new_contact_defaults(stage: Option<String>, points: Option<i32>) -> (r: (String, i32))
        ensures
            r.0@ == match stage {
                Some(s) => s@,
                None => "lead"@,
            },
            r.1 == match points {
                Some(p) => p,
                None => 0,
            },
    {
        let s = match stage {
            Some(s) => s,
            None => "lead".to_string(),
        };
        let p = match points {
            Some(p) => p,
            None => 0,
        };
        (s, p)
    }
}

} // verus!
