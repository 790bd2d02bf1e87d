use vstd::prelude::*;

use crate::numbers::{int_string, int_text};
use crate::rules::patterns::opt_text;
use crate::text::{chars_are, chars_contain, chars_of, contains, join2, trim, trim_chars};

verus! {

broadcast use vstd::string::group_string_axioms;

/// A recipient by its view.
pub open spec fn recipient_view(r: (String, Option<String>)) -> (Seq<char>, Option<Seq<char>>) {
    (r.0@, opt_text(r.1))
}

/// Recipients by their views.
pub open spec fn recipients_view(rs: Seq<(String, Option<String>)>) -> Seq<(Seq<char>, Option<Seq<char>>)> {
    rs.map_values(|r: (String, Option<String>)| recipient_view(r))
}

/// Whether some recipient has address `e`.
pub open spec fn has_address(targets: Seq<(Seq<char>, Option<Seq<char>>)>, e: Seq<char>) -> bool {
    exists|i: int| 0 <= i < targets.len() && (#[trigger] targets[i]).0 == e
}

/// `targets` after the first `n` group members, each added when its address is not blank
/// and not already a recipient.
pub open spec fn with_members(
    targets: Seq<(Seq<char>, Option<Seq<char>>)>,
    members: Seq<(Seq<char>, Seq<char>)>,
    n: int,
) -> Seq<(Seq<char>, Option<Seq<char>>)>
    decreases n,
{
    if n <= 0 {
        targets
    } else {
        let t = with_members(targets, members, n - 1);
        let m = members[n - 1];
        if trim(m.0).len() > 0 && !has_address(t, m.0) {
            t.push((m.0, Some(m.1)))
        } else {
            t
        }
    }
}

/// What a notification knows of its ticket's people.
#[derive(Clone, Debug)]
pub struct TicketContacts {
    pub requester_email: Option<String>,
    pub requester_name: String,
    pub technician_email: Option<String>,
    pub technician_name: String,
}

/// `targets` with the contact `email` (named `name`), when it is a non-blank address.
pub open spec fn with_contact(
    targets: Seq<(Seq<char>, Option<Seq<char>>)>,
    email: Option<String>,
    name: Seq<char>,
) -> Seq<(Seq<char>, Option<Seq<char>>)> {
    match email {
        Some(e) => if trim(e@).len() > 0 {
            targets.push((e@, Some(name)))
        } else {
            targets
        },
        None => targets,
    }
}

/// `targets` after the recipient roles `roles[..n]`: `requester`, `technician`, and
/// `group` or `assigned_group` for the members of the ticket's group; other roles add no
/// one.
pub open spec fn with_roles(
    roles: Seq<Seq<char>>,
    n: int,
    contacts: TicketContacts,
    members: Option<Seq<(Seq<char>, Seq<char>)>>,
) -> Seq<(Seq<char>, Option<Seq<char>>)>
    decreases n,
{
    if n <= 0 {
        Seq::empty()
    } else {
        let t = with_roles(roles, n - 1, contacts, members);
        let role = roles[n - 1];
        if role == "requester"@ {
            with_contact(t, contacts.requester_email, contacts.requester_name@)
        } else if role == "technician"@ {
            with_contact(t, contacts.technician_email, contacts.technician_name@)
        } else if role == "group"@ || role == "assigned_group"@ {
            match members {
                Some(ms) => with_members(t, ms, ms.len() as int),
                None => t,
            }
        } else {
            t
        }
    }
}

/// The recipients of a notification: those of its roles; when there are none for a new or
/// assigned ticket, the members of its group; when there are still none, the
/// administrator, if an address is configured.
pub open spec fn recipients_of(
    event_key: Seq<char>,
    roles: Seq<Seq<char>>,
    contacts: TicketContacts,
    members: Option<Seq<(Seq<char>, Seq<char>)>>,
    admin_email: Seq<char>,
    admin_name: Seq<char>,
) -> Seq<(Seq<char>, Option<Seq<char>>)> {
    let t = with_roles(roles, roles.len() as int, contacts, members);
    let t2 = if (event_key == "ticket_created"@ || event_key == "ticket_assigned"@) && t.len() == 0 {
        match members {
            Some(ms) => with_members(t, ms, ms.len() as int),
            None => t,
        }
    } else {
        t
    };
    if t2.len() == 0 && admin_email.len() > 0 {
        seq![(admin_email, Some(admin_name))]
    } else {
        t2
    }
}

/// Group members by their views.
pub open spec fn members_view(ms: Seq<(String, String)>) -> Seq<(Seq<char>, Seq<char>)> {
    ms.map_values(|m: (String, String)| (m.0@, m.1@))
}

/// Optional group members by their views.
pub open spec fn opt_members_view(ms: Option<Vec<(String, String)>>) -> Option<Seq<(Seq<char>, Seq<char>)>> {
    match ms {
        Some(v) => Some(members_view(v@)),
        None => None,
    }
}

/// The subject of a notification: the configured prefix and a space before the rendered
/// subject, unless the prefix is empty or already in it.
pub open spec fn prefixed_subject_text(prefix: Seq<char>, raw: Seq<char>) -> Seq<char> {
    if prefix.len() > 0 && !contains(raw, prefix) {
        prefix + seq![' '] + raw
    } else {
        raw
    }
}

/// The text or default of an optional value.
pub open spec fn or_default(o: Option<String>, d: Seq<char>) -> Seq<char> {
    match o {
        Some(s) => s@,
        None => d,
    }
}

/// The variables a notification template can use, with their defaults.
pub open spec fn template_vars_ok(
    vars: Seq<(Seq<char>, Seq<char>)>,
    number: Seq<char>,
    name: Seq<char>,
    content: Seq<char>,
    ticket_type: Seq<char>,
    priority: i32,
    status: Seq<char>,
    category: Option<String>,
    requester_name: Option<String>,
    technician_name: Option<String>,
    group_name: Option<String>,
    followup_content: Seq<char>,
    author_name: Seq<char>,
) -> bool {
    vars == seq![
        ("ticket.number"@, number),
        ("ticket.name"@, name),
        ("ticket.content"@, content),
        ("ticket.type"@, ticket_type),
        ("ticket.priority"@, int_text(priority as int)),
        ("ticket.status"@, status),
        ("ticket.category"@, or_default(category, "General"@)),
        ("ticket.requester_name"@, or_default(requester_name, "Usuario"@)),
        ("ticket.technician_name"@, or_default(technician_name, "Sin Asignar"@)),
        ("ticket.group_name"@, or_default(group_name, "Sin Grupo"@)),
        ("followup.content"@, followup_content),
        ("author.name"@, author_name),
    ]
}

/// Notification dispatch.
pub struct MailService;

impl MailService {
    /// The subject of a notification (see `prefixed_subject_text`).
    pub fn prefixed_subject(prefix: &str, raw_subject: &str) -> (r: String)
        ensures
            r@ == prefixed_subject_text(prefix@, raw_subject@),
    {
        let p = chars_of(prefix);
        let raw = chars_of(raw_subject);
        if p.len() > 0 && !chars_contain(raw.as_slice(), p.as_slice()) {
            proof {
                reveal_strlit(" ");
            }
            let s = join2(prefix, " ");
            let r = join2(s.as_str(), raw_subject);
            assert(r@ =~= prefix@ + seq![' '] + raw_subject@);
            r
        } else {
            raw_subject.to_string()
        }
    }

    /// The HTML and text bodies with the signature appended, when there is one.
    pub fn signed_bodies(body_html: &str, body_text: &str, signature: &str) -> (r: (String, String))
        ensures
            r.0@ == if signature@.len() == 0 {
                body_html@
            } else {
                body_html@ + "<br><br><pre style=\"font-family:sans-serif; color:#64748b;\">"@
                    + signature@ + "</pre>"@
            },
            r.1@ == if signature@.len() == 0 {
                body_text@
            } else {
                body_text@ + "\n\n"@ + signature@
            },
    {
        if chars_of(signature).len() == 0 {
            return (body_html.to_string(), body_text.to_string());
        }
        let mut html = body_html.to_string();
        html.append("<br><br><pre style=\"font-family:sans-serif; color:#64748b;\">");
        html.append(signature);
        html.append("</pre>");
        let mut text = body_text.to_string();
        text.append("\n\n");
        text.append(signature);
        (html, text)
    }

    /// The followup and its author that a notification shows: the followup's content and
    /// author (or "Especialista") when there is one, nothing and "Sistema" otherwise.
    pub fn followup_parts(followup: Option<(String, Option<String>)>) -> (r: (String, String))
        ensures
            match followup {
                Some(f) => r.0@ == f.0@ && r.1@ == or_default(f.1, "Especialista"@),
                None => r.0@ == Seq::<char>::empty() && r.1@ == "Sistema"@,
            },
    {
        match followup {
            Some((content, author)) => {
                let a = match author {
                    Some(a) => a,
                    None => "Especialista".to_string(),
                };
                (content, a)
            },
            None => (String::new(), "Sistema".to_string()),
        }
    }

    fn text_or(o: Option<String>, d: &str) -> (r: String)
        ensures
            r@ == or_default(o, d@),
    {
        match o {
            Some(s) => s,
            None => d.to_string(),
        }
    }

    /// The variables of a notification template, in order (see `template_vars_ok`).
    pub fn template_variables(
        number: &str,
        name: &str,
        content: &str,
        ticket_type: &str,
        priority: i32,
        status: &str,
        category: Option<String>,
        requester_name: Option<String>,
        technician_name: Option<String>,
        group_name: Option<String>,
        followup_content: &str,
        author_name: &str,
    ) -> (r: Vec<(String, String)>)
        ensures
            template_vars_ok(
                members_view(r@),
                number@,
                name@,
                content@,
                ticket_type@,
                priority,
                status@,
                category,
                requester_name,
                technician_name,
                group_name,
                followup_content@,
                author_name@,
            ),
    {
        let ghost (c0, r0, t0, g0) = (category, requester_name, technician_name, group_name);
        let v = vec![
            ("ticket.number".to_string(), number.to_string()),
            ("ticket.name".to_string(), name.to_string()),
            ("ticket.content".to_string(), content.to_string()),
            ("ticket.type".to_string(), ticket_type.to_string()),
            ("ticket.priority".to_string(), int_string(priority as i64)),
            ("ticket.status".to_string(), status.to_string()),
            ("ticket.category".to_string(), Self::text_or(category, "General")),
            ("ticket.requester_name".to_string(), Self::text_or(requester_name, "Usuario")),
            ("ticket.technician_name".to_string(), Self::text_or(technician_name, "Sin Asignar")),
            ("ticket.group_name".to_string(), Self::text_or(group_name, "Sin Grupo")),
            ("followup.content".to_string(), followup_content.to_string()),
            ("author.name".to_string(), author_name.to_string()),
        ];
        assert(members_view(v@) =~= seq![
            ("ticket.number"@, number@),
            ("ticket.name"@, name@),
            ("ticket.content"@, content@),
            ("ticket.type"@, ticket_type@),
            ("ticket.priority"@, int_text(priority as int)),
            ("ticket.status"@, status@),
            ("ticket.category"@, or_default(c0, "General"@)),
            ("ticket.requester_name"@, or_default(r0, "Usuario"@)),
            ("ticket.technician_name"@, or_default(t0, "Sin Asignar"@)),
            ("ticket.group_name"@, or_default(g0, "Sin Grupo"@)),
            ("followup.content"@, followup_content@),
            ("author.name"@, author_name@),
        ]);
        v
    }

    fn has_recipient(targets: &Vec<(String, Option<String>)>, email: &String) -> (r: bool)
        ensures
            r == has_address(recipients_view(targets@), email@),
    {
        let mut i: usize = 0;
        while i < targets.len()
            invariant
                i <= targets.len(),
                forall|j: int| 0 <= j < i ==> (#[trigger] targets@[j]).0@ != email@,
            decreases targets.len() - i,
        {
            if targets[i].0 == *email {
                assert(recipients_view(targets@)[i as int].0 == email@);
                return true;
            }
            i = i + 1;
        }
        assert forall|j: int| 0 <= j < targets.len() implies (#[trigger] recipients_view(targets@)[j]).0
            != email@ by {
            assert(recipients_view(targets@)[j] == recipient_view(targets@[j]));
        }
        false
    }

    fn add_members(targets: &mut Vec<(String, Option<String>)>, members: &Vec<(String, String)>)
        ensures
            recipients_view(final(targets)@) == with_members(
                recipients_view(old(targets)@),
                members_view(members@),
                members@.len() as int,
            ),
    {
        let ghost start = recipients_view(targets@);
        let mut i: usize = 0;
        while i < members.len()
            invariant
                i <= members.len(),
                recipients_view(targets@) == with_members(start, members_view(members@), i as int),
            decreases members.len() - i,
        {
            let (email, name) = (&members[i].0, &members[i].1);
            let blank = trim_chars(email.as_str()).len() == 0;
            if !blank && !Self::has_recipient(targets, email) {
                let ghost before = targets@;
                targets.push((email.clone(), Some(name.clone())));
                assert(recipients_view(targets@) =~= recipients_view(before).push(
                    (email@, Some(name@)),
                ));
            }
            i = i + 1;
        }
    }

    fn add_contact(targets: &mut Vec<(String, Option<String>)>, email: &Option<String>, name: &String)
        ensures
            recipients_view(final(targets)@) == with_contact(recipients_view(old(targets)@), *email, name@),
    {
        match email {
            Some(e) => {
                if trim_chars(e.as_str()).len() > 0 {
                    let ghost before = targets@;
                    targets.push((e.clone(), Some(name.clone())));
                    assert(recipients_view(targets@) =~= recipients_view(before).push(
                        (e@, Some(name@)),
                    ));
                }
            },
            None => {},
        }
    }

    /// The recipients of a notification (see `recipients_of`); `group_members` are the
    /// active members of the ticket's group, `None` when it has no group.
    pub fn resolve_recipients(
        event_key: &str,
        roles: &[String],
        contacts: &TicketContacts,
        group_members: &Option<Vec<(String, String)>>,
        admin_email: &str,
        admin_name: &str,
    ) -> (r: Vec<(String, Option<String>)>)
        ensures
            recipients_view(r@) == recipients_of(
                event_key@,
                roles@.map_values(|s: String| s@),
                *contacts,
                opt_members_view(*group_members),
                admin_email@,
                admin_name@,
            ),
    {
        let ghost role_views = roles@.map_values(|s: String| s@);
        let mut targets: Vec<(String, Option<String>)> = Vec::new();
        let mut i: usize = 0;
        assert(recipients_view(targets@) =~= Seq::<(Seq<char>, Option<Seq<char>>)>::empty());
        while i < roles.len()
            invariant
                i <= roles.len(),
                role_views == roles@.map_values(|s: String| s@),
                recipients_view(targets@) == with_roles(
                    role_views,
                    i as int,
                    *contacts,
                    opt_members_view(*group_members),
                ),
            decreases roles.len() - i,
        {
            let role = chars_of(roles[i].as_str());
            let rs = role.as_slice();
            assert(role@ == role_views[i as int]);
            if chars_are(rs, "requester") {
                Self::add_contact(&mut targets, &contacts.requester_email, &contacts.requester_name);
            } else if chars_are(rs, "technician") {
                Self::add_contact(&mut targets, &contacts.technician_email, &contacts.technician_name);
            } else if chars_are(rs, "group") || chars_are(rs, "assigned_group") {
                match group_members {
                    Some(ms) => Self::add_members(&mut targets, ms),
                    None => {},
                }
            }
            i = i + 1;
        }
        let ek = chars_of(event_key);
        if (chars_are(ek.as_slice(), "ticket_created") || chars_are(ek.as_slice(), "ticket_assigned"))
            && targets.len() == 0 {
            match group_members {
                Some(ms) => Self::add_members(&mut targets, ms),
                None => {},
            }
        }
        if targets.len() == 0 && chars_of(admin_email).len() > 0 {
            let v = vec![(admin_email.to_string(), Some(admin_name.to_string()))];
            assert(recipients_view(v@) =~= seq![(admin_email@, Some(admin_name@))]);
            return v;
        }
        targets
    }
}


proof fn lemma_members_keep_targets(
    targets: Seq<(Seq<char>, Option<Seq<char>>)>,
    members: Seq<(Seq<char>, Seq<char>)>,
    n: int,
    e: Seq<char>,
)
    requires
        0 <= n <= members.len(),
        has_address(targets, e),
    ensures
        has_address(with_members(targets, members, n), e),
    decreases n,
{
    if n > 0 {
        lemma_members_keep_targets(targets, members, n - 1, e);
        let t = with_members(targets, members, n - 1);
        let i = choose|i: int| 0 <= i < t.len() && (#[trigger] t[i]).0 == e;
        let m = members[n - 1];
        if trim(m.0).len() > 0 && !has_address(t, m.0) {
            assert(t.push((m.0, Some(m.1)))[i].0 == e);
        }
    }
}

/// Every group member with an address is among the recipients once the group is added.
pub proof fn law_every_member_reached(
    targets: Seq<(Seq<char>, Option<Seq<char>>)>,
    members: Seq<(Seq<char>, Seq<char>)>,
    n: int,
    k: int,
)
    requires
        0 <= k < n <= members.len(),
        trim(members[k].0).len() > 0,
    ensures
        has_address(with_members(targets, members, n), members[k].0),
    decreases n,
{
    let t = with_members(targets, members, k);
    let m = members[k];
    if !has_address(t, m.0) {
        assert(t.push((m.0, Some(m.1)))[t.len() as int].0 == m.0);
    }
    assert(has_address(with_members(targets, members, k + 1), m.0));
    lemma_members_from(targets, members, k + 1, n, m.0);
}

proof fn lemma_members_from(
    targets: Seq<(Seq<char>, Option<Seq<char>>)>,
    members: Seq<(Seq<char>, Seq<char>)>,
    a: int,
    n: int,
    e: Seq<char>,
)
    requires
        0 <= a <= n <= members.len(),
        has_address(with_members(targets, members, a), e),
    ensures
        has_address(with_members(targets, members, n), e),
    decreases n - a,
{
    if a < n {
        let t = with_members(targets, members, a);
        let i = choose|i: int| 0 <= i < t.len() && (#[trigger] t[i]).0 == e;
        let m = members[a];
        if trim(m.0).len() > 0 && !has_address(t, m.0) {
            assert(t.push((m.0, Some(m.1)))[i].0 == e);
        }
        lemma_members_from(targets, members, a + 1, n, e);
    }
}

/// Whether no address occurs twice among the recipients.
pub open spec fn addresses_distinct(t: Seq<(Seq<char>, Option<Seq<char>>)>) -> bool {
    forall|i: int, j: int| 0 <= i < j < t.len() ==> (#[trigger] t[i]).0 != (#[trigger] t[j]).0
}

/// Adding a group's members never makes an address occur twice.
pub proof fn law_members_added_once(
    targets: Seq<(Seq<char>, Option<Seq<char>>)>,
    members: Seq<(Seq<char>, Seq<char>)>,
    n: int,
)
    requires
        0 <= n <= members.len(),
        addresses_distinct(targets),
    ensures
        addresses_distinct(with_members(targets, members, n)),
    decreases n,
{
    if n > 0 {
        law_members_added_once(targets, members, n - 1);
        let t = with_members(targets, members, n - 1);
        let m = members[n - 1];
        if trim(m.0).len() > 0 && !has_address(t, m.0) {
            let u = t.push((m.0, Some(m.1)));
            assert forall|i: int, j: int| 0 <= i < j < u.len() implies (#[trigger] u[i]).0 != (
            #[trigger] u[j]).0 by {
                if j == t.len() {
                    assert(u[i] == t[i]);
                    if t[i].0 == m.0 {
                        assert(has_address(t, m.0));
                    }
                } else {
                    assert(u[i] == t[i] && u[j] == t[j]);
                }
            }
        }
    }
}

/// When an administrator address is configured, a notification always has a recipient.
pub proof fn law_someone_is_notified(
    event_key: Seq<char>,
    roles: Seq<Seq<char>>,
    contacts: TicketContacts,
    members: Option<Seq<(Seq<char>, Seq<char>)>>,
    admin_email: Seq<char>,
    admin_name: Seq<char>,
)
    requires
        admin_email.len() > 0,
    ensures
        recipients_of(event_key, roles, contacts, members, admin_email, admin_name).len() > 0,
{
}

/// Whether `x` is among the recipients.
pub open spec fn has_recipient(t: Seq<(Seq<char>, Option<Seq<char>>)>, x: (Seq<char>, Option<Seq<char>>)) -> bool {
    exists|i: int| 0 <= i < t.len() && t[i] == x
}

proof fn lemma_members_extend(
    targets: Seq<(Seq<char>, Option<Seq<char>>)>,
    members: Seq<(Seq<char>, Seq<char>)>,
    n: int,
)
    ensures
        targets.len() <= with_members(targets, members, n).len(),
        forall|i: int| 0 <= i < targets.len() ==> #[trigger] with_members(targets, members, n)[i] == targets[i],
    decreases n,
{
    if n > 0 {
        lemma_members_extend(targets, members, n - 1);
    }
}

proof fn lemma_roles_extend(
    roles: Seq<Seq<char>>,
    a: int,
    n: int,
    contacts: TicketContacts,
    members: Option<Seq<(Seq<char>, Seq<char>)>>,
)
    requires
        0 <= a <= n,
    ensures
        with_roles(roles, a, contacts, members).len() <= with_roles(roles, n, contacts, members).len(),
        forall|i: int|
            0 <= i < with_roles(roles, a, contacts, members).len() ==> #[trigger] with_roles(
                roles,
                n,
                contacts,
                members,
            )[i] == with_roles(roles, a, contacts, members)[i],
    decreases n - a,
{
    if a < n {
        lemma_roles_extend(roles, a, n - 1, contacts, members);
        let t = with_roles(roles, n - 1, contacts, members);
        match members {
            Some(ms) => lemma_members_extend(t, ms, ms.len() as int),
            None => {},
        }
    }
}

proof fn lemma_role_contact_reaches(
    event_key: Seq<char>,
    roles: Seq<Seq<char>>,
    contacts: TicketContacts,
    members: Option<Seq<(Seq<char>, Seq<char>)>>,
    admin_email: Seq<char>,
    admin_name: Seq<char>,
    k: int,
    x: (Seq<char>, Option<Seq<char>>),
)
    requires
        0 <= k < roles.len(),
        has_recipient(with_roles(roles, k + 1, contacts, members), x),
    ensures
        has_recipient(recipients_of(event_key, roles, contacts, members, admin_email, admin_name), x),
{
    lemma_roles_extend(roles, k + 1, roles.len() as int, contacts, members);
    let t = with_roles(roles, k + 1, contacts, members);
    let all = with_roles(roles, roles.len() as int, contacts, members);
    let i = choose|i: int| 0 <= i < t.len() && t[i] == x;
    assert(all[i] == t[i]);
    assert(all.len() > 0);
}

/// A `technician` role reaches the ticket's technician, under the technician's name,
/// whenever the technician has a non-blank address, whatever the other roles and the
/// event.
pub proof fn law_technician_role_reaches_technician(
    event_key: Seq<char>,
    roles: Seq<Seq<char>>,
    contacts: TicketContacts,
    members: Option<Seq<(Seq<char>, Seq<char>)>>,
    admin_email: Seq<char>,
    admin_name: Seq<char>,
    k: int,
    email: String,
)
    requires
        0 <= k < roles.len(),
        roles[k] == "technician"@,
        contacts.technician_email == Some(email),
        trim(email@).len() > 0,
    ensures
        has_recipient(
            recipients_of(event_key, roles, contacts, members, admin_email, admin_name),
            (email@, Some(contacts.technician_name@)),
        ),
{
    reveal_strlit("technician");
    reveal_strlit("requester");
    assert("technician"@.len() == 10 && "requester"@.len() == 9);
    let t = with_roles(roles, k, contacts, members);
    let u = with_roles(roles, k + 1, contacts, members);
    assert(u == t.push((email@, Some(contacts.technician_name@))));
    assert(u[t.len() as int] == (email@, Some(contacts.technician_name@)));
    lemma_role_contact_reaches(
        event_key,
        roles,
        contacts,
        members,
        admin_email,
        admin_name,
        k,
        (email@, Some(contacts.technician_name@)),
    );
}

/// A `requester` role reaches the ticket's requester, under the requester's name,
/// whenever the requester has a non-blank address, whatever the other roles and the
/// event.
pub proof fn law_requester_role_reaches_requester(
    event_key: Seq<char>,
    roles: Seq<Seq<char>>,
    contacts: TicketContacts,
    members: Option<Seq<(Seq<char>, Seq<char>)>>,
    admin_email: Seq<char>,
    admin_name: Seq<char>,
    k: int,
    email: String,
)
    requires
        0 <= k < roles.len(),
        roles[k] == "requester"@,
        contacts.requester_email == Some(email),
        trim(email@).len() > 0,
    ensures
        has_recipient(
            recipients_of(event_key, roles, contacts, members, admin_email, admin_name),
            (email@, Some(contacts.requester_name@)),
        ),
{
    let t = with_roles(roles, k, contacts, members);
    let u = with_roles(roles, k + 1, contacts, members);
    assert(u == t.push((email@, Some(contacts.requester_name@))));
    assert(u[t.len() as int] == (email@, Some(contacts.requester_name@)));
    lemma_role_contact_reaches(
        event_key,
        roles,
        contacts,
        members,
        admin_email,
        admin_name,
        k,
        (email@, Some(contacts.requester_name@)),
    );
}

/// The administrator is written to only when no role, and no group fallback, reaches
/// anyone: once a role has reached someone, the administrator is not added in their place.
pub proof fn law_admin_only_as_last_resort(
    event_key: Seq<char>,
    roles: Seq<Seq<char>>,
    contacts: TicketContacts,
    members: Option<Seq<(Seq<char>, Seq<char>)>>,
    admin_email: Seq<char>,
    admin_name: Seq<char>,
)
    requires
        with_roles(roles, roles.len() as int, contacts, members).len() > 0,
    ensures
        recipients_of(event_key, roles, contacts, members, admin_email, admin_name) == with_roles(
            roles,
            roles.len() as int,
            contacts,
            members,
        ),
{
}

} // verus!
