use vstd::prelude::*;

use crate::numbers::{int_string, int_text};
use crate::rules::assets::{entity_from_output, entity_of_pipeline, insert_optional, with_optional};
use crate::rules::engine::{opt_str, pipeline_output, RuleEngine};
use crate::rules::fields::FieldMap;
use crate::rules::model::RuleWithDetails;
use crate::text::{chars_of, second_piece, split_piece, string_of, trim, trimmed};

verus! {

broadcast use vstd::string::group_string_axioms;

/// The domain of a mail address: what `split('@').nth(1)` gives, trimmed.
pub open spec fn mail_domain(from_email: Seq<char>) -> Option<Seq<char>> {
    match split_piece(from_email, '@', 1) {
        Some(d) => Some(trim(d)),
        None => None,
    }
}

/// `fields` with the sender's domain, when the address has one.
pub open spec fn with_domain(fields: Map<Seq<char>, Seq<char>>, from_email: Seq<char>) -> Map<
    Seq<char>,
    Seq<char>,
> {
    match mail_domain(from_email) {
        Some(d) => fields.insert("domain"@, d),
        None => fields,
    }
}

/// The fields the ticket entity rules see.
pub open spec fn ticket_entity_input(
    from_email: Seq<char>,
    ip_address: Option<Seq<char>>,
    subject: Seq<char>,
) -> Map<Seq<char>, Seq<char>> {
    with_optional(
        with_domain(
            Map::empty().insert("from_email"@, trim(from_email)).insert("subject"@, trim(subject)),
            from_email,
        ),
        "ip_address"@,
        ip_address,
    )
}

/// The fields the ticket business rules see.
pub open spec fn ticket_business_input(
    subject: Seq<char>,
    content: Seq<char>,
    from_email: Seq<char>,
    urgency: i32,
    impact: i32,
) -> Map<Seq<char>, Seq<char>> {
    with_domain(
        Map::empty().insert("subject"@, trim(subject)).insert("content"@, trim(content)).insert(
            "from_email"@,
            trim(from_email),
        ).insert("urgency"@, int_text(urgency as int)).insert("impact"@, int_text(impact as int)),
        from_email,
    )
}

/// Sets `domain` to the sender's domain, when the address has one.
fn insert_domain(fields: &mut FieldMap, from_email: &str)
    ensures
        final(fields)@ == with_domain(old(fields)@, from_email@),
{
    let cs = chars_of(from_email);
    match second_piece(cs.as_slice(), '@') {
        Some(d) => {
            let dom = string_of(d.as_slice());
            fields.insert("domain".to_string(), trimmed(dom.as_str()));
        },
        None => {},
    }
}

/// Helpdesk rules on incoming tickets.
pub struct HelpdeskRulesService;

impl HelpdeskRulesService {
    /// The entity of a new ticket, by the `ticket_entity` rules over the sender's address,
    /// its domain, the subject and the sender's IP address: the UUID the rules write into
    /// `entity_id`, if they write one that parses.
    pub fn evaluate_ticket_entity(
        rules: &[RuleWithDetails],
        from_email: &str,
        ip_address: Option<&str>,
        subject: &str,
    ) -> (r: Option<u128>)
        ensures
            r == entity_from_output(
                pipeline_output(
                    rules@,
                    ticket_entity_input(from_email@, opt_str(ip_address), subject@),
                ),
            ),
    {
        let mut input = FieldMap::new();
        input.insert("from_email".to_string(), trimmed(from_email));
        input.insert("subject".to_string(), trimmed(subject));
        insert_domain(&mut input, from_email);
        insert_optional(&mut input, "ip_address", ip_address);
        entity_of_pipeline(rules, &input)
    }

    /// The fields the `ticket_business` rules leave for a new ticket (urgency, impact,
    /// category, ticket type, technician, ...), starting from its subject, content, sender,
    /// sender's domain and current urgency and impact.
    pub fn evaluate_ticket_business_rules(
        rules: &[RuleWithDetails],
        subject: &str,
        content: &str,
        from_email: &str,
        current_urgency: i32,
        current_impact: i32,
    ) -> (r: FieldMap)
        ensures
            r@ == pipeline_output(
                rules@,
                ticket_business_input(
                    subject@,
                    content@,
                    from_email@,
                    current_urgency,
                    current_impact,
                ),
            ),
    {
        let mut input = FieldMap::new();
        input.insert("subject".to_string(), trimmed(subject));
        input.insert("content".to_string(), trimmed(content));
        input.insert("from_email".to_string(), trimmed(from_email));
        input.insert("urgency".to_string(), int_string(current_urgency as i64));
        input.insert("impact".to_string(), int_string(current_impact as i64));
        insert_domain(&mut input, from_email);
        let (output, _steps) = RuleEngine::evaluate_pipeline(rules, &input);
        output
    }
}

} // verus!
