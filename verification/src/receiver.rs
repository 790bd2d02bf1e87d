use vstd::prelude::*;

use crate::ids::{parse_uuid, uuid_from_text};
use crate::numbers::{i32_of_text, parse_i32};
use crate::rules::engine::lookup;
use crate::rules::fields::FieldMap;
use crate::rules::patterns::{regex_compiles, regex_first_captures, regex_is_match};
use crate::text::{
    chars_are, chars_contain, chars_end_with, chars_equal, chars_of, chars_start_with, contains,
    decimal, ends_with, join2, lowercase_text, push_char, second_piece, slice_chars, split_piece,
    starts_with, string_of, strip_leading, strip_leading_chars, to_lowercase,
};

verus! {

broadcast use vstd::string::group_string_axioms;

/// A blacklist rule on incoming mail: what it inspects (`sender_email`, `domain` or
/// `subject_regex`), its pattern and the reason given when it blocks.
#[derive(Clone, Debug)]
pub struct MailBlacklist {
    pub id: u128,
    pub rule_type: String,
    pub pattern: String,
    pub reason: Option<String>,
    pub is_active: bool,
}

/// Whether `text` matches a pattern with wildcards: `*` matches everything, a pattern
/// ending in `*` matches the texts that start with the rest, one starting with `*` the
/// texts that end with the rest; any pattern matches the text equal to it.
pub open spec fn wildcard_match(text: Seq<char>, pattern: Seq<char>) -> bool {
    ||| pattern == seq!['*']
    ||| (pattern.len() > 0 && pattern.last() == '*' && starts_with(text, pattern.drop_last()))
    ||| (pattern.len() > 0 && pattern[0] == '*' && ends_with(text, pattern.drop_first()))
    ||| text == pattern
}

/// The domain part of a lower-cased sender address: what follows the first `@` up to the
/// next one, or the empty text when there is no `@`.
pub open spec fn sender_domain(from_lower: Seq<char>) -> Seq<char> {
    match split_piece(from_lower, '@', 1) {
        Some(d) => d,
        None => Seq::empty(),
    }
}

/// The regular expression a `subject_regex` rule searches for: its pattern, matched
/// without regard to case.
pub open spec fn subject_regex_of(pattern: Seq<char>) -> Seq<char> {
    "(?i)"@ + pattern
}

/// Whether an active blacklist rule blocks a message, given the lower-cased sender and
/// subject. Sender and domain patterns are wildcards compared in lower case; a `domain`
/// rule also accepts its pattern without any leading `*@` and `@`. A `subject_regex`
/// rule blocks when its pattern, as a case-insensitive regular expression, compiles and
/// matches somewhere in the subject; a pattern that does not compile blocks nothing.
pub open spec fn blacklist_hit(rule: MailBlacklist, from_lower: Seq<char>, subject_lower: Seq<char>) -> bool {
    let p = lowercase_text(rule.pattern@);
    rule.is_active && if rule.rule_type@ == "sender_email"@ {
        wildcard_match(from_lower, p)
    } else if rule.rule_type@ == "domain"@ {
        sender_domain(from_lower) == strip_leading(strip_leading(p, "*@"@), "@"@) || wildcard_match(
            sender_domain(from_lower),
            p,
        )
    } else if rule.rule_type@ == "subject_regex"@ {
        regex_compiles(subject_regex_of(rule.pattern@)) && regex_first_captures(
            subject_regex_of(rule.pattern@),
            subject_lower,
        ) is Some
    } else {
        false
    }
}

/// The reason a rule gives: its own, or the default of its kind.
pub open spec fn blacklist_reason(rule: MailBlacklist) -> Seq<char> {
    match rule.reason {
        Some(r) => r@,
        None => if rule.rule_type@ == "sender_email"@ {
            "Remitente en lista negra"@
        } else if rule.rule_type@ == "domain"@ {
            "Dominio en lista negra"@
        } else {
            "Asunto coincide con regla de bloqueo"@
        },
    }
}

/// The reason of the first rule from position `i` on that blocks the message, if any.
pub open spec fn first_block_from(
    rules: Seq<MailBlacklist>,
    from_lower: Seq<char>,
    subject_lower: Seq<char>,
    i: int,
) -> Option<Seq<char>>
    decreases rules.len() - i,
{
    if i < 0 || i >= rules.len() {
        None
    } else if blacklist_hit(rules[i], from_lower, subject_lower) {
        Some(blacklist_reason(rules[i]))
    } else {
        first_block_from(rules, from_lower, subject_lower, i + 1)
    }
}

/// The keywords in a lower-cased subject that mark a service request.
pub open spec fn mentions_request(subject_lower: Seq<char>) -> bool {
    contains(subject_lower, "solicitud"@) || contains(subject_lower, "peticion"@) || contains(
        subject_lower,
        "request"@,
    )
}

/// `v` held within `lo..=hi`.
pub open spec fn clamp(v: int, lo: int, hi: int) -> int {
    if v < lo {
        lo
    } else if v > hi {
        hi
    } else {
        v
    }
}

/// How a new ticket from mail is classified: its type, urgency, impact, category and
/// technician.
#[derive(Clone, Debug)]
pub struct IncomingTicketPlan {
    pub ticket_type: String,
    pub urgency: i32,
    pub impact: i32,
    pub category: String,
    pub technician_id: Option<u128>,
}

/// A field of the rule output parsed as an integer, if it is set and parses.
pub open spec fn int_field(mutations: Map<Seq<char>, Seq<char>>, key: Seq<char>) -> Option<i32> {
    match lookup(mutations, key) {
        Some(t) => i32_of_text(t),
        None => None,
    }
}

/// The classification of a new ticket from mail: a request when the lower-cased subject
/// mentions one, an incident otherwise, urgency and impact 3, category "Correo
/// Electrónico" and no technician; then whatever the business rules set overrides these,
/// urgency and impact held within 1 to 5, the technician only as a UUID.
pub open spec fn incoming_plan_ok(
    plan: IncomingTicketPlan,
    subject: Seq<char>,
    mutations: Map<Seq<char>, Seq<char>>,
) -> bool {
    &&& plan.ticket_type@ == match lookup(mutations, "ticket_type"@) {
        Some(t) => t,
        None => if mentions_request(lowercase_text(subject)) {
            "request"@
        } else {
            "incident"@
        },
    }
    &&& plan.urgency == match int_field(mutations, "urgency"@) {
        Some(u) => clamp(u as int, 1, 5),
        None => 3,
    }
    &&& plan.impact == match int_field(mutations, "impact"@) {
        Some(i) => clamp(i as int, 1, 5),
        None => 3,
    }
    &&& plan.category@ == match lookup(mutations, "category"@) {
        Some(c) => c,
        None => "Correo Electrónico"@,
    }
    &&& plan.technician_id == match lookup(mutations, "assigned_technician_id"@) {
        Some(t) => uuid_from_text(t),
        None => None,
    }
}

/// `v` in decimal, at least `width` characters wide, padded with zeros after the sign, as
/// `format!("{:0width$}", v)` writes it.
pub open spec fn zero_padded(v: int, width: nat) -> Seq<char> {
    let digits = decimal(if v < 0 {
        (-v) as nat
    } else {
        v as nat
    });
    let sign = if v < 0 {
        seq!['-']
    } else {
        Seq::<char>::empty()
    };
    let pad = if sign.len() + digits.len() < width {
        (width - sign.len() - digits.len()) as nat
    } else {
        0nat
    };
    sign + Seq::new(pad, |i: int| '0') + digits
}

/// The number of a ticket: its prefix, the year and its serial, zero-padded to four digits.
pub open spec fn ticket_number_text(prefix: Seq<char>, year: Seq<char>, serial: int) -> Seq<char> {
    prefix + seq!['-'] + year + seq!['-'] + zero_padded(serial, 4)
}

/// The hours within which a ticket of a priority is to be resolved.
pub open spec fn hours_for_priority(priority: int) -> int {
    if priority == 5 {
        4
    } else if priority == 4 {
        8
    } else if priority == 3 {
        24
    } else if priority == 2 {
        48
    } else {
        72
    }
}

/// The outcome of a collection run on a mail receiver.
#[derive(Clone, Debug)]
pub struct CollectResult {
    pub receiver_id: u128,
    pub receiver_name: String,
    pub emails_checked: i32,
    pub tickets_created: i32,
    pub followups_added: i32,
    pub rejected_blacklisted: i32,
    pub message: String,
}

/// Ingestion of incoming mail.
pub struct ReceiverService;

impl ReceiverService {
    /// Whether `text` matches `pattern`, where `*` alone matches everything and a `*` at
    /// the end or the start of the pattern stands for any rest.
    pub fn matches_wildcard(text: &str, pattern: &str) -> (r: bool)
        ensures
            r == wildcard_match(text@, pattern@),
    {
        let t = chars_of(text);
        let p = chars_of(pattern);
        Self::wildcard_chars(t.as_slice(), p.as_slice())
    }

    fn wildcard_chars(t: &[char], p: &[char]) -> (r: bool)
        ensures
            r == wildcard_match(t@, p@),
    {
        if p.len() == 1 && p[0] == '*' {
            assert(p@ =~= seq!['*']);
            return true;
        }
        proof {
            if p@ == seq!['*'] {
                assert(p@.len() == 1 && p@[0] == '*');
            }
        }
        if p.len() > 0 && p[p.len() - 1] == '*' {
            let prefix = slice_chars(p, 0, p.len() - 1);
            assert(prefix@ =~= p@.drop_last());
            if chars_start_with(t, prefix.as_slice()) {
                return true;
            }
        }
        if p.len() > 0 && p[0] == '*' {
            let suffix = slice_chars(p, 1, p.len());
            assert(suffix@ =~= p@.drop_first());
            if chars_end_with(t, suffix.as_slice()) {
                return true;
            }
        }
        chars_equal(t, p)
    }

    /// Whether a rule blocks a message, given the lower-cased sender and subject.
    fn rule_blocks(rule: &MailBlacklist, from_lower: &[char], subject_lower: &[char]) -> (r: bool)
        ensures
            r == blacklist_hit(*rule, from_lower@, subject_lower@),
    {
        if !rule.is_active {
            return false;
        }
        let p = chars_of(to_lowercase(rule.pattern.as_str()).as_str());
        let kind = chars_of(rule.rule_type.as_str());
        if chars_are(kind.as_slice(), "sender_email") {
            Self::wildcard_chars(from_lower, p.as_slice())
        } else if chars_are(kind.as_slice(), "domain") {
            let domain: Vec<char> = match second_piece(from_lower, '@') {
                Some(d) => d,
                None => Vec::new(),
            };
            assert(domain@ == sender_domain(from_lower@));
            proof {
                reveal_strlit("*@");
                reveal_strlit("@");
            }
            let star_at = chars_of("*@");
            let at = chars_of("@");
            let without_star = strip_leading_chars(p.as_slice(), star_at.as_slice());
            let pattern_domain = strip_leading_chars(without_star.as_slice(), at.as_slice());
            chars_equal(domain.as_slice(), pattern_domain.as_slice()) || Self::wildcard_chars(
                domain.as_slice(),
                p.as_slice(),
            )
        } else if chars_are(kind.as_slice(), "subject_regex") {
            let re = join2("(?i)", rule.pattern.as_str());
            let subject = string_of(subject_lower);
            match regex_is_match(re.as_str(), subject.as_str()) {
                Some(found) => found,
                None => false,
            }
        } else {
            false
        }
    }

    fn reason_of(rule: &MailBlacklist) -> (r: String)
        ensures
            r@ == blacklist_reason(*rule),
    {
        match &rule.reason {
            Some(r) => r.clone(),
            None => {
                let kind = chars_of(rule.rule_type.as_str());
                if chars_are(kind.as_slice(), "sender_email") {
                    "Remitente en lista negra".to_string()
                } else if chars_are(kind.as_slice(), "domain") {
                    "Dominio en lista negra".to_string()
                } else {
                    "Asunto coincide con regla de bloqueo".to_string()
                }
            },
        }
    }

    /// The reason of the first active blacklist rule, in the given order, that blocks a
    /// message from `from_email` with `subject`; `None` when no rule blocks it. Sender and
    /// subject compare in lower case; subject rules are case-insensitive regular
    /// expressions (see `blacklist_hit`).
    pub fn is_blacklisted(blacklists: &[MailBlacklist], from_email: &str, subject: &str) -> (r:
        Option<String>)
        ensures
            crate::rules::patterns::opt_text(r) == first_block_from(
                blacklists@,
                lowercase_text(from_email@),
                lowercase_text(subject@),
                0,
            ),
    {
        let from_lower = chars_of(to_lowercase(from_email).as_str());
        let subject_lower = chars_of(to_lowercase(subject).as_str());
        let mut i: usize = 0;
        while i < blacklists.len()
            invariant
                i <= blacklists.len(),
                from_lower@ == lowercase_text(from_email@),
                subject_lower@ == lowercase_text(subject@),
                first_block_from(blacklists@, from_lower@, subject_lower@, i as int)
                    == first_block_from(blacklists@, from_lower@, subject_lower@, 0),
            decreases blacklists.len() - i,
        {
            if Self::rule_blocks(&blacklists[i], from_lower.as_slice(), subject_lower.as_slice()) {
                return Some(Self::reason_of(&blacklists[i]));
            }
            i = i + 1;
        }
        None
    }

    /// What the sender of a blocked message is told.
    pub fn rejection_message(reason: &str) -> (r: String)
        ensures
            r@ == "Mensaje descartado por lista negra: "@ + reason@,
    {
        join2("Mensaje descartado por lista negra: ", reason)
    }

    /// Whether a reply by mail brings a ticket back to `assigned`: it does for a solved or
    /// pending ticket.
    pub fn reopens_on_reply(status: &str) -> (r: bool)
        ensures
            r == (status@ == "solved"@ || status@ == "pending"@),
    {
        let s = chars_of(status);
        chars_are(s.as_slice(), "solved") || chars_are(s.as_slice(), "pending")
    }

    /// The followup text of a reply: the cleaned reply, or the whole body when cleaning
    /// left nothing.
    pub fn followup_content(body: &str, cleaned: &str) -> (r: String)
        ensures
            r@ == if cleaned@.len() == 0 {
                body@
            } else {
                cleaned@
            },
    {
        let c = chars_of(cleaned);
        if c.len() == 0 {
            body.to_string()
        } else {
            cleaned.to_string()
        }
    }

    /// What the sender of a reply is told once it is added to ticket `ticket_number`.
    pub fn followup_added_message(ticket_number: &str) -> (r: String)
        ensures
            r@ == "Seguimiento agregado al ticket existente "@ + ticket_number@,
    {
        join2("Seguimiento agregado al ticket existente ", ticket_number)
    }

    /// The classification of a new ticket from mail with subject `subject`, given the
    /// fields the business rules left (see `incoming_plan_ok`).
    pub fn plan_incoming_ticket(subject: &str, mutations: &FieldMap) -> (r: IncomingTicketPlan)
        ensures
            incoming_plan_ok(r, subject@, mutations@),
    {
        let subject_lower = chars_of(to_lowercase(subject).as_str());
        let sl = subject_lower.as_slice();
        let mut ticket_type = if chars_contain(sl, chars_of("solicitud").as_slice())
            || chars_contain(sl, chars_of("peticion").as_slice()) || chars_contain(
            sl,
            chars_of("request").as_slice(),
        ) {
            "request".to_string()
        } else {
            "incident".to_string()
        };
        let mut urgency: i32 = 3;
        let mut impact: i32 = 3;
        let mut category = "Correo Electrónico".to_string();
        let mut technician_id: Option<u128> = None;
        match mutations.get("urgency") {
            Some(v) => match parse_i32(v.as_str()) {
                Some(u) => {
                    urgency = Self::clamp_level(u);
                },
                None => {},
            },
            None => {},
        }
        match mutations.get("impact") {
            Some(v) => match parse_i32(v.as_str()) {
                Some(i) => {
                    impact = Self::clamp_level(i);
                },
                None => {},
            },
            None => {},
        }
        match mutations.get("category") {
            Some(c) => {
                category = c.clone();
            },
            None => {},
        }
        match mutations.get("ticket_type") {
            Some(t) => {
                ticket_type = t.clone();
            },
            None => {},
        }
        match mutations.get("assigned_technician_id") {
            Some(t) => {
                technician_id = parse_uuid(t.as_str());
            },
            None => {},
        }
        IncomingTicketPlan { ticket_type, urgency, impact, category, technician_id }
    }

    /// A level held within 1 to 5.
    pub fn clamp_level(v: i32) -> (r: i32)
        ensures
            r == clamp(v as int, 1, 5),
    {
        if v < 1 {
            1
        } else if v > 5 {
            5
        } else {
            v
        }
    }

    /// The number prefix of a ticket type: `REQ` for a request, `INC` for anything else.
    pub fn ticket_prefix(ticket_type: &str) -> (r: String)
        ensures
            r@ == if ticket_type@ == "request"@ {
                "REQ"@
            } else {
                "INC"@
            },
    {
        if chars_are(chars_of(ticket_type).as_slice(), "request") {
            "REQ".to_string()
        } else {
            "INC".to_string()
        }
    }

    /// The number of the ticket that follows `count` existing tickets, as
    /// `PREFIX-YEAR-NNNN`.
    pub fn ticket_number(prefix: &str, year: &str, count: i64) -> (r: String)
        requires
            count < i64::MAX,
        ensures
            r@ == ticket_number_text(prefix@, year@, count + 1),
    {
        let mut s = prefix.to_string();
        push_char(&mut s, '-');
        s.append(year);
        push_char(&mut s, '-');
        let tail = zero_pad(count + 1, 4);
        s.append(tail.as_str());
        assert(s@ =~= ticket_number_text(prefix@, year@, count + 1));
        s
    }

    /// The hours within which a ticket of priority `priority` is to be resolved: 4 for
    /// priority 5, 8 for 4, 24 for 3, 48 for 2 and 72 otherwise.
    pub fn resolution_hours(priority: i32) -> (r: i64)
        ensures
            r == hours_for_priority(priority as int),
    {
        if priority == 5 {
            4
        } else if priority == 4 {
            8
        } else if priority == 3 {
            24
        } else if priority == 2 {
            48
        } else {
            72
        }
    }

    /// The status of a new ticket: `assigned` when a technician was chosen, `new`
    /// otherwise.
    pub fn initial_status(has_technician: bool) -> (r: String)
        ensures
            r@ == if has_technician {
                "assigned"@
            } else {
                "new"@
            },
    {
        if has_technician {
            "assigned".to_string()
        } else {
            "new".to_string()
        }
    }

    /// What the sender is told once ticket `ticket_number` is created from the mail.
    pub fn ticket_created_message(ticket_number: &str) -> (r: String)
        ensures
            r@ == "Nuevo ticket "@ + ticket_number@ + " creado exitosamente desde correo"@,
    {
        let s = join2("Nuevo ticket ", ticket_number);
        join2(s.as_str(), " creado exitosamente desde correo")
    }

    /// The entity of mail that no receiver routes: the default entity
    /// `00000000-0000-0000-0000-000000000001`.
    pub fn default_entity() -> (r: u128)
        ensures
            r == 1,
    {
        1
    }
}

/// `v` in decimal, zero-padded to `width` characters after the sign.
pub fn zero_pad(v: i64, width: usize) -> (r: String)
    ensures
        r@ == zero_padded(v as int, width as nat),
{
    let mut s = String::new();
    let m: u64 = if v < 0 {
        push_char(&mut s, '-');
        (0i128 - (v as i128)) as u64
    } else {
        v as u64
    };
    let digits = crate::text::decimal_string(m);
    let dl = chars_of(digits.as_str()).len();
    let sign_len: usize = if v < 0 {
        1
    } else {
        0
    };
    let ghost sign = s@;
    let mut pad: usize = 0;
    if dl < width && sign_len < width - dl {
        let target = width - sign_len - dl;
        while pad < target
            invariant
                pad <= target,
                s@ == sign + Seq::new(pad as nat, |i: int| '0'),
            decreases target - pad,
        {
            push_char(&mut s, '0');
            pad = pad + 1;
            assert(s@ =~= sign + Seq::new(pad as nat, |i: int| '0'));
        }
    } else {
        assert(s@ =~= sign + Seq::new(0, |i: int| '0'));
    }
    s.append(digits.as_str());
    assert(s@ =~= zero_padded(v as int, width as nat));
    s
}


/// The pattern `*` matches every text.
pub proof fn law_star_matches_everything(text: Seq<char>)
    ensures
        wildcard_match(text, seq!['*']),
{
}

/// Every pattern matches the text equal to it.
pub proof fn law_pattern_matches_itself(text: Seq<char>)
    ensures
        wildcard_match(text, text),
{
}

/// A pattern ending in `*` matches every text that starts with the rest of it.
pub proof fn law_trailing_star_matches_prefix(text: Seq<char>, prefix: Seq<char>)
    requires
        starts_with(text, prefix),
    ensures
        wildcard_match(text, prefix.push('*')),
{
    assert(prefix.push('*').drop_last() =~= prefix);
}

/// Inactive blacklist rules never block a message.
pub proof fn law_inactive_rules_never_block(
    rules: Seq<MailBlacklist>,
    from_lower: Seq<char>,
    subject_lower: Seq<char>,
    i: int,
)
    requires
        forall|j: int| 0 <= j < rules.len() ==> !(#[trigger] rules[j]).is_active,
    ensures
        first_block_from(rules, from_lower, subject_lower, i) is None,
    decreases rules.len() - i,
{
    if 0 <= i < rules.len() {
        assert(!rules[i].is_active);
        law_inactive_rules_never_block(rules, from_lower, subject_lower, i + 1);
    }
}

/// The first blacklist rule that blocks a message decides the reason given; the rules
/// after it are not consulted.
pub proof fn law_first_blocking_rule_decides(
    rules: Seq<MailBlacklist>,
    from_lower: Seq<char>,
    subject_lower: Seq<char>,
    k: int,
)
    requires
        0 <= k < rules.len(),
        blacklist_hit(rules[k], from_lower, subject_lower),
        forall|j: int| 0 <= j < k ==> !blacklist_hit(#[trigger] rules[j], from_lower, subject_lower),
    ensures
        first_block_from(rules, from_lower, subject_lower, 0) == Some(blacklist_reason(rules[k])),
{
    lemma_block_scan(rules, from_lower, subject_lower, 0, k);
}

proof fn lemma_block_scan(
    rules: Seq<MailBlacklist>,
    from_lower: Seq<char>,
    subject_lower: Seq<char>,
    i: int,
    k: int,
)
    requires
        0 <= i <= k < rules.len(),
        blacklist_hit(rules[k], from_lower, subject_lower),
        forall|j: int| 0 <= j < k ==> !blacklist_hit(#[trigger] rules[j], from_lower, subject_lower),
    ensures
        first_block_from(rules, from_lower, subject_lower, i) == Some(blacklist_reason(rules[k])),
    decreases k - i,
{
    if i < k {
        assert(!blacklist_hit(rules[i], from_lower, subject_lower));
        lemma_block_scan(rules, from_lower, subject_lower, i + 1, k);
    }
}

/// The urgency and impact of a ticket from mail always lie within 1 to 5, whatever the
/// business rules write.
pub proof fn law_incoming_levels_in_range(
    plan: IncomingTicketPlan,
    subject: Seq<char>,
    mutations: Map<Seq<char>, Seq<char>>,
)
    requires
        incoming_plan_ok(plan, subject, mutations),
    ensures
        1 <= plan.urgency <= 5,
        1 <= plan.impact <= 5,
{
}

impl ReceiverService {
    /// The outcome of a collection run: the mailbox is reached and five messages checked;
    /// the run itself creates nothing.
    pub fn collection_result(receiver_id: u128, receiver_name: String) -> (r: CollectResult)
        ensures
            r.receiver_id == receiver_id,
            r.receiver_name@ == receiver_name@,
            r.emails_checked == 5,
            r.tickets_created == 0,
            r.followups_added == 0,
            r.rejected_blacklisted == 0,
            r.message@ == "Sincronización de buzón completada exitosamente. Conexión establecida."@,
    {
        CollectResult {
            receiver_id,
            receiver_name,
            emails_checked: 5,
            tickets_created: 0,
            followups_added: 0,
            rejected_blacklisted: 0,
            message: "Sincronización de buzón completada exitosamente. Conexión establecida.".to_string(),
        }
    }
}

/// A pattern made of `*` and a suffix that does not itself end in `*` matches exactly the
/// texts that end with that suffix, and the pattern itself: the suffix found anywhere
/// else in the text does not match.
pub proof fn law_leading_star_matches_suffix_only(text: Seq<char>, suffix: Seq<char>)
    requires
        suffix.len() > 0,
        suffix.last() != '*',
    ensures
        wildcard_match(text, seq!['*'] + suffix) <==> ((suffix.len() <= text.len() && text.subrange(
            text.len() - suffix.len(),
            text.len() as int,
        ) == suffix) || text == seq!['*'] + suffix),
{
    let p = seq!['*'] + suffix;
    assert(p.drop_first() =~= suffix);
    assert(p.last() == suffix.last());
    assert(p.len() >= 2);
    assert(p != seq!['*']);
}

/// A pattern made of a prefix that does not itself start with `*`, and a final `*`,
/// matches exactly the texts that begin with that prefix, and the pattern itself.
pub proof fn law_trailing_star_matches_prefix_only(text: Seq<char>, prefix: Seq<char>)
    requires
        prefix.len() > 0,
        prefix[0] != '*',
    ensures
        wildcard_match(text, prefix.push('*')) <==> ((prefix.len() <= text.len() && text.subrange(
            0,
            prefix.len() as int,
        ) == prefix) || text == prefix.push('*')),
{
    let p = prefix.push('*');
    assert(p.drop_last() =~= prefix);
    assert(p[0] == prefix[0]);
    assert(p.len() >= 2);
    assert(p != seq!['*']);
}

/// A pattern with no `*` at either end matches only the text equal to it.
pub proof fn law_plain_pattern_matches_only_itself(text: Seq<char>, pattern: Seq<char>)
    requires
        pattern.len() > 0,
        pattern[0] != '*',
        pattern.last() != '*',
    ensures
        wildcard_match(text, pattern) <==> text == pattern,
{
    assert(pattern != seq!['*']);
}

} // verus!
