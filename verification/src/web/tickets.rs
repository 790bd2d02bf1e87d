use vstd::prelude::*;

use crate::receiver::{clamp, ReceiverService};
use crate::text::{chars_are, trim, trim_chars, trimmed};
use crate::web::helpers::{followup_item_type, is_checked};

verus! {

/// Whether the type chosen on the ticket form is `request`.
pub open spec fn chose_request(ticket_type: Option<&str>) -> bool {
    match ticket_type {
        Some(t) => t@ == "request"@,
        None => false,
    }
}

/// A level given on the ticket form, held within 1 to 5; 3 when none was given.
pub open spec fn form_level(v: Option<i32>) -> int {
    match v {
        Some(x) => clamp(x as int, 1, 5),
        None => 3,
    }
}

/// What opening a ticket from the web form decides before the ticket is stored.
pub struct NewTicketPlan {
    /// The title, trimmed.
    pub name: String,
    /// The description, trimmed.
    pub content: String,
    /// `request` or `incident`.
    pub ticket_type: String,
    /// `REQ` for a request, `INC` for an incident.
    pub prefix: String,
    pub urgency: i32,
    pub impact: i32,
    /// `assigned` when a technician or a group was chosen, `new` otherwise.
    pub status: String,
    /// Whether the ticket counts as acknowledged from the start.
    pub acknowledged: bool,
    /// The time-to-own status: `within_sla` once assigned, `pending` otherwise.
    pub tto_status: String,
    /// Whether an assignment notice follows the creation notice.
    pub notify_assignment: bool,
}

/// The plan for a ticket opened from the web form, or `None` when its title or its
/// description is blank (the form is then sent back to the ticket list).
pub fn plan_web_ticket(
    name: &str,
    content: &str,
    ticket_type: Option<&str>,
    urgency: Option<i32>,
    impact: Option<i32>,
    has_technician: bool,
    has_group: bool,
) -> (r: Option<NewTicketPlan>)
    ensures
        r is None <==> (trim(name@).len() == 0 || trim(content@).len() == 0),
        r matches Some(p) ==> {
            let assigned = has_technician || has_group;
            &&& p.name@ == trim(name@)
            &&& p.content@ == trim(content@)
            &&& p.ticket_type@ == (if chose_request(ticket_type) {
                "request"@
            } else {
                "incident"@
            })
            &&& p.prefix@ == (if chose_request(ticket_type) {
                "REQ"@
            } else {
                "INC"@
            })
            &&& p.urgency == form_level(urgency)
            &&& p.impact == form_level(impact)
            &&& p.status@ == (if assigned {
                "assigned"@
            } else {
                "new"@
            })
            &&& p.acknowledged == assigned
            &&& p.tto_status@ == (if assigned {
                "within_sla"@
            } else {
                "pending"@
            })
            &&& p.notify_assignment == assigned
        },
{
    let n = trimmed(name);
    let c = trimmed(content);
    if n.unicode_len() == 0 || c.unicode_len() == 0 {
        return None;
    }
    let is_request = match ticket_type {
        Some(t) => chars_are(crate::text::chars_of(t).as_slice(), "request"),
        None => false,
    };
    let kind = if is_request {
        "request".to_string()
    } else {
        "incident".to_string()
    };
    proof {
        reveal_strlit("request");
        reveal_strlit("incident");
    }
    assert("incident"@.len() == 8);
    assert("request"@.len() == 7);
    let prefix = ReceiverService::ticket_prefix(kind.as_str());
    let u = match urgency {
        Some(x) => ReceiverService::clamp_level(x),
        None => 3,
    };
    let i = match impact {
        Some(x) => ReceiverService::clamp_level(x),
        None => 3,
    };
    let assigned = has_technician || has_group;
    let status = ReceiverService::initial_status(assigned);
    let tto_status = if assigned {
        "within_sla".to_string()
    } else {
        "pending".to_string()
    };
    let plan = NewTicketPlan {
        name: n,
        content: c,
        ticket_type: kind,
        prefix,
        urgency: u,
        impact: i,
        status,
        acknowledged: assigned,
        tto_status,
        notify_assignment: assigned,
    };
    assert(plan.prefix@ == (if chose_request(ticket_type) {
        "REQ"@
    } else {
        "INC"@
    }));
    Some(plan)
}

/// What a status chosen on a ticket page leads to.
pub enum StatusChange {
    /// The ticket is solved: a survey link is issued and `ticket_solved` is announced.
    Solved,
    /// The ticket is closed (and counts as solved if it was not): `ticket_closed` is
    /// announced.
    Closed,
    /// Any other status is stored as given, trimmed, with no notice.
    Other(String),
}

/// The change that the status `requested` stands for, trimmed.
pub fn status_change(requested: &str) -> (r: StatusChange)
    ensures
        match r {
            StatusChange::Solved => trim(requested@) == "solved"@,
            StatusChange::Closed => trim(requested@) == "closed"@,
            StatusChange::Other(s) => {
                &&& s@ == trim(requested@)
                &&& s@ != "solved"@
                &&& s@ != "closed"@
            },
        },
{
    let cs = trim_chars(requested);
    if chars_are(cs.as_slice(), "solved") {
        StatusChange::Solved
    } else if chars_are(cs.as_slice(), "closed") {
        StatusChange::Closed
    } else {
        StatusChange::Other(crate::text::string_of(cs.as_slice()))
    }
}

impl StatusChange {
    /// The event announced for the change, if any.
    pub fn event(&self) -> (r: Option<String>)
        ensures
            match self {
                StatusChange::Solved => r matches Some(e) && e@ == "ticket_solved"@,
                StatusChange::Closed => r matches Some(e) && e@ == "ticket_closed"@,
                StatusChange::Other(_) => r is None,
            },
    {
        match self {
            StatusChange::Solved => Some("ticket_solved".to_string()),
            StatusChange::Closed => Some("ticket_closed".to_string()),
            StatusChange::Other(_) => None,
        }
    }

    /// Whether the change issues a satisfaction survey link: only when the ticket is
    /// solved.
    pub fn issues_survey(&self) -> (r: bool)
        ensures
            r == (self is Solved),
    {
        match self {
            StatusChange::Solved => true,
            _ => false,
        }
    }
}

/// What assigning a ticket does to it.
pub struct AssignmentOutcome {
    /// `assigned` when a `new` ticket gets a technician or a group; the status as it was
    /// otherwise.
    pub status: String,
    /// Whether the acknowledgement time is set now.
    pub acknowledge: bool,
    /// `within_sla` when a `pending` time-to-own gets an assignee; as it was otherwise.
    pub tto_status: String,
    /// Whether `ticket_assigned` is announced.
    pub notify: bool,
}

/// The effect of setting the technician and group of a ticket whose status is
/// `status`, whose time-to-own status is `tto_status` and which was `acknowledged`
/// or not. Clearing both assignees changes nothing but the assignees themselves.
pub fn assignment_outcome(
    status: &str,
    tto_status: &str,
    acknowledged: bool,
    has_technician: bool,
    has_group: bool,
) -> (r: AssignmentOutcome)
    ensures
        ({
            let assigned = has_technician || has_group;
            &&& r.status@ == (if assigned && status@ == "new"@ {
                "assigned"@
            } else {
                status@
            })
            &&& r.acknowledge == (assigned && !acknowledged)
            &&& r.tto_status@ == (if assigned && tto_status@ == "pending"@ {
                "within_sla"@
            } else {
                tto_status@
            })
            &&& r.notify == assigned
        }),
{
    let assigned = has_technician || has_group;
    let new_status = if assigned && crate::text::text_eq(status, "new") {
        "assigned".to_string()
    } else {
        status.to_string()
    };
    let new_tto = if assigned && crate::text::text_eq(tto_status, "pending") {
        "within_sla".to_string()
    } else {
        tto_status.to_string()
    };
    AssignmentOutcome {
        status: new_status,
        acknowledge: assigned && !acknowledged,
        tto_status: new_tto,
        notify: assigned,
    }
}

/// What posting a followup on a ticket page decides.
pub struct FollowupPlan {
    /// The text, trimmed.
    pub content: String,
    /// `solution`, `task` or `followup`.
    pub item_type: String,
    /// Whether only technicians see it.
    pub is_private: bool,
    /// Whether it solves the ticket (a `solution`): the ticket is then marked solved
    /// and a survey link is issued.
    pub solves: bool,
    /// `ticket_solved` for a solution, `ticket_followup_added` otherwise.
    pub event: String,
}

/// The plan for a followup posted from the web, or `None` when its text is blank (the
/// request is then refused as malformed).
pub fn plan_followup(content: &str, item_type: Option<&str>, is_private: Option<&str>) -> (r:
    Option<FollowupPlan>)
    ensures
        r is None <==> trim(content@).len() == 0,
        r matches Some(p) ==> {
            let kind = match item_type {
                Some(t) => if t@ == "solution"@ {
                    "solution"@
                } else if t@ == "task"@ {
                    "task"@
                } else {
                    "followup"@
                },
                None => "followup"@,
            };
            &&& p.content@ == trim(content@)
            &&& p.item_type@ == kind
            &&& p.is_private == match is_private {
                Some(v) => v@ == "true"@ || v@ == "on"@,
                None => false,
            }
            &&& p.solves == (kind == "solution"@)
            &&& p.event@ == (if kind == "solution"@ {
                "ticket_solved"@
            } else {
                "ticket_followup_added"@
            })
        },
{
    let text = trimmed(content);
    if text.unicode_len() == 0 {
        return None;
    }
    let kind = followup_item_type(item_type);
    let private = is_checked(is_private);
    let solves = crate::text::text_eq(kind.as_str(), "solution");
    let event = if solves {
        "ticket_solved".to_string()
    } else {
        "ticket_followup_added".to_string()
    };
    Some(FollowupPlan { content: text, item_type: kind, is_private: private, solves, event })
}

} // verus!
