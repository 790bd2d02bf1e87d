use vstd::prelude::*;

use crate::ids::{parse_uuid, uuid_from_text, uuid_hyphenated, uuid_string};
use crate::numbers::{i32_of_text, int_text, parse_i32, push_int};
use crate::receiver::{clamp, hours_for_priority, ReceiverService};
use crate::text::{chars_are, chars_of, join2};

verus! {

broadcast use vstd::string::group_string_axioms;

/// A pending escalation level of an open ticket, as the SLA tick reads it. Times are Unix
/// timestamps in seconds.
#[derive(Clone, Debug)]
pub struct PendingEscalation {
    pub ticket_id: u128,
    pub ticket_number: String,
    pub ticket_name: String,
    pub ticket_priority: i32,
    pub sla_level_id: u128,
    pub level_name: String,
    pub target_type: String,
    pub execution_offset_minutes: i32,
    pub action_type: String,
    pub action_value: String,
    pub time_to_own: Option<i64>,
    pub time_to_resolve: Option<i64>,
}

/// What an escalation does to its ticket.
#[derive(Clone, Debug)]
pub enum EscalationAction {
    SetPriority(i32),
    ReassignGroup(u128),
    ReassignTechnician(u128),
    SendAlert(String),
    Nothing,
}

/// An escalation that is due: what it does, how the log describes it, and the audit note
/// added to the ticket.
#[derive(Clone, Debug)]
pub struct EscalationPlan {
    pub action: EscalationAction,
    pub details: String,
    pub audit_note: String,
}

/// The deadline an escalation level counts from: time to own for `tto` levels, time to
/// resolve otherwise.
pub open spec fn escalation_base(esc: PendingEscalation) -> Option<i64> {
    if esc.target_type@ == "tto"@ {
        esc.time_to_own
    } else {
        esc.time_to_resolve
    }
}

/// Whether an escalation level is due at `now`: its deadline is known and `now` is at or
/// past the deadline moved by the level's offset in minutes.
pub open spec fn escalation_due(esc: PendingEscalation, now: i64) -> bool {
    match escalation_base(esc) {
        Some(base) => now >= base + esc.execution_offset_minutes * 60,
        None => false,
    }
}

/// The notification an alert level sends: a warning for a level at or before the
/// deadline, a breach after it.
pub open spec fn alert_event(offset_minutes: i32) -> Seq<char> {
    if offset_minutes <= 0 {
        "sla_warning_ttr"@
    } else {
        "sla_breached_ttr"@
    }
}

/// The action and the description of a due escalation level.
pub open spec fn escalation_effect(esc: PendingEscalation) -> (EscalationKind, Seq<char>) {
    if esc.action_type@ == "escalate_priority"@ {
        match i32_of_text(esc.action_value@) {
            Some(p) => (
                EscalationKind::SetPriority(clamp(p as int, 1, 5)),
                "Prioridad elevada a P"@ + int_text(clamp(p as int, 1, 5)),
            ),
            None => (EscalationKind::Nothing, Seq::empty()),
        }
    } else if esc.action_type@ == "reassign_group"@ {
        match uuid_from_text(esc.action_value@) {
            Some(g) => (
                EscalationKind::ReassignGroup(g),
                "Ticket reasignado al grupo transversal "@ + uuid_hyphenated(g),
            ),
            None => (EscalationKind::Nothing, Seq::empty()),
        }
    } else if esc.action_type@ == "reassign_technician"@ {
        match uuid_from_text(esc.action_value@) {
            Some(t) => (
                EscalationKind::ReassignTechnician(t),
                "Ticket reasignado al técnico "@ + uuid_hyphenated(t),
            ),
            None => (EscalationKind::Nothing, Seq::empty()),
        }
    } else if esc.action_type@ == "send_alert"@ {
        (
            EscalationKind::SendAlert(alert_event(esc.execution_offset_minutes)),
            "Notificación de alerta enviada ("@ + alert_event(esc.execution_offset_minutes)
                + ") a destinatarios "@ + esc.action_value@,
        )
    } else {
        (EscalationKind::Nothing, "Acción de escalamiento desconocida"@)
    }
}

/// An escalation action by its view.
pub enum EscalationKind {
    SetPriority(int),
    ReassignGroup(u128),
    ReassignTechnician(u128),
    SendAlert(Seq<char>),
    Nothing,
}

/// An escalation action's view.
pub open spec fn action_kind(a: EscalationAction) -> EscalationKind {
    match a {
        EscalationAction::SetPriority(p) => EscalationKind::SetPriority(p as int),
        EscalationAction::ReassignGroup(g) => EscalationKind::ReassignGroup(g),
        EscalationAction::ReassignTechnician(t) => EscalationKind::ReassignTechnician(t),
        EscalationAction::SendAlert(e) => EscalationKind::SendAlert(e@),
        EscalationAction::Nothing => EscalationKind::Nothing,
    }
}

/// The audit note of an escalation: the level's name and the description of its action.
pub open spec fn audit_note_text(level_name: Seq<char>, details: Seq<char>) -> Seq<char> {
    "⚡ [Matriz de Escalamiento SLA] Regla activada: '"@ + level_name + "'. "@ + details
}

/// Service level agreement deadlines and escalations.
pub struct SlaService;

impl SlaService {
    /// The deadlines of a ticket when no SLA is configured: time to own one hour after
    /// `start`, time to resolve after the hours of its priority (see
    /// `ReceiverService::resolution_hours`).
    pub fn fallback_deadlines(priority: i32, start: i64) -> (r: (i64, i64))
        requires
            start <= i64::MAX - 72 * 3600,
        ensures
            r.0 == start + 3600,
            r.1 == start + hours_for_priority(priority as int) * 3600,
    {
        let hours = ReceiverService::resolution_hours(priority);
        (start + 3600, start + hours * 3600)
    }

    /// Whether an escalation level is due at `now`.
    pub fn is_due(esc: &PendingEscalation, now: i64) -> (r: bool)
        ensures
            r == escalation_due(*esc, now),
    {
        let base = if chars_are(chars_of(esc.target_type.as_str()).as_slice(), "tto") {
            esc.time_to_own
        } else {
            esc.time_to_resolve
        };
        match base {
            Some(b) => {
                let trigger: i128 = (b as i128) + (esc.execution_offset_minutes as i128) * 60;
                (now as i128) >= trigger
            },
            None => false,
        }
    }

    /// What a due escalation level does and how it is recorded (see `escalation_effect`
    /// and `audit_note_text`); `None` when the level is not due at `now`.
    pub fn plan_escalation(esc: &PendingEscalation, now: i64) -> (r: Option<EscalationPlan>)
        ensures
            r is Some <==> escalation_due(*esc, now),
            r matches Some(p) ==> action_kind(p.action) == escalation_effect(*esc).0 && p.details@
                == escalation_effect(*esc).1 && p.audit_note@ == audit_note_text(
                esc.level_name@,
                p.details@,
            ),
    {
        if !Self::is_due(esc, now) {
            return None;
        }
        let kind = chars_of(esc.action_type.as_str());
        let k = kind.as_slice();
        let (action, details) = if chars_are(k, "escalate_priority") {
            match parse_i32(esc.action_value.as_str()) {
                Some(p) => {
                    let c = ReceiverService::clamp_level(p);
                    let mut d = "Prioridad elevada a P".to_string();
                    push_int(&mut d, c as i64);
                    (EscalationAction::SetPriority(c), d)
                },
                None => {
                    let d = String::new();
                    (EscalationAction::Nothing, d)
                },
            }
        } else if chars_are(k, "reassign_group") {
            match parse_uuid(esc.action_value.as_str()) {
                Some(g) => (
                    EscalationAction::ReassignGroup(g),
                    join2("Ticket reasignado al grupo transversal ", uuid_string(g).as_str()),
                ),
                None => (EscalationAction::Nothing, String::new()),
            }
        } else if chars_are(k, "reassign_technician") {
            match parse_uuid(esc.action_value.as_str()) {
                Some(t) => (
                    EscalationAction::ReassignTechnician(t),
                    join2("Ticket reasignado al técnico ", uuid_string(t).as_str()),
                ),
                None => (EscalationAction::Nothing, String::new()),
            }
        } else if chars_are(k, "send_alert") {
            let event = if esc.execution_offset_minutes <= 0 {
                "sla_warning_ttr".to_string()
            } else {
                "sla_breached_ttr".to_string()
            };
            let a = join2("Notificación de alerta enviada (", event.as_str());
            let b = join2(a.as_str(), ") a destinatarios ");
            let d = join2(b.as_str(), esc.action_value.as_str());
            (EscalationAction::SendAlert(event), d)
        } else {
            (EscalationAction::Nothing, "Acción de escalamiento desconocida".to_string())
        };
        let a = join2("⚡ [Matriz de Escalamiento SLA] Regla activada: '", esc.level_name.as_str());
        let b = join2(a.as_str(), "'. ");
        let audit_note = join2(b.as_str(), details.as_str());
        Some(EscalationPlan { action, details, audit_note })
    }
}


/// An escalation level that is due stays due as time goes on.
pub proof fn law_due_escalation_stays_due(esc: PendingEscalation, now: i64, later: i64)
    requires
        escalation_due(esc, now),
        now <= later,
    ensures
        escalation_due(esc, later),
{
}

/// A level whose deadline is unknown never fires.
pub proof fn law_unknown_deadline_never_fires(esc: PendingEscalation, now: i64)
    requires
        escalation_base(esc) is None,
    ensures
        !escalation_due(esc, now),
{
}

/// Whether a ticket with status `status` is still open: neither solved nor closed.
pub open spec fn ticket_open(status: Seq<char>) -> bool {
    status != "solved"@ && status != "closed"@
}

/// The time-to-own status of a ticket after the SLA tick at `now`: an open ticket not yet
/// acknowledged whose time to own has passed is `breached`; otherwise the status stays.
pub open spec fn tto_status_after(
    status: Seq<char>,
    acknowledged: bool,
    time_to_own: Option<i64>,
    current: Seq<char>,
    now: i64,
) -> Seq<char> {
    if ticket_open(status) && !acknowledged && (time_to_own matches Some(t) && t < now) {
        "breached"@
    } else {
        current
    }
}

/// The time-to-resolve status of a ticket after the SLA tick at `now`: an open ticket
/// whose time to resolve has passed is `breached`; one still `within_sla` whose time to
/// resolve comes within the next hour is `at_risk`; otherwise the status stays.
pub open spec fn ttr_status_after(
    status: Seq<char>,
    time_to_resolve: Option<i64>,
    current: Seq<char>,
    now: i64,
) -> Seq<char> {
    match time_to_resolve {
        Some(t) => if !ticket_open(status) {
            current
        } else if t < now {
            "breached"@
        } else if t <= now + 3600 && current == "within_sla"@ {
            "at_risk"@
        } else {
            current
        },
        None => current,
    }
}

impl SlaService {
    fn is_open(status: &str) -> (r: bool)
        ensures
            r == ticket_open(status@),
    {
        let s = chars_of(status);
        !(chars_are(s.as_slice(), "solved") || chars_are(s.as_slice(), "closed"))
    }

    /// The time-to-own status after the tick (see `tto_status_after`).
    pub fn tto_status_after_tick(
        status: &str,
        acknowledged: bool,
        time_to_own: Option<i64>,
        current: &str,
        now: i64,
    ) -> (r: String)
        ensures
            r@ == tto_status_after(status@, acknowledged, time_to_own, current@, now),
    {
        let passed = match time_to_own {
            Some(t) => t < now,
            None => false,
        };
        if Self::is_open(status) && !acknowledged && passed {
            "breached".to_string()
        } else {
            current.to_string()
        }
    }

    /// The time-to-resolve status after the tick (see `ttr_status_after`).
    pub fn ttr_status_after_tick(status: &str, time_to_resolve: Option<i64>, current: &str, now: i64) -> (r:
        String)
        ensures
            r@ == ttr_status_after(status@, time_to_resolve, current@, now),
    {
        match time_to_resolve {
            Some(t) => {
                if !Self::is_open(status) {
                    current.to_string()
                } else if t < now {
                    "breached".to_string()
                } else if (t as i128) <= (now as i128) + 3600 && chars_are(
                    chars_of(current).as_slice(),
                    "within_sla",
                ) {
                    "at_risk".to_string()
                } else {
                    current.to_string()
                }
            },
            None => current.to_string(),
        }
    }
}

/// The tick only worsens the time-to-resolve status of a ticket: once `breached` it stays
/// `breached`, and `at_risk` never returns to `within_sla`.
pub proof fn law_ttr_status_never_improves(
    status: Seq<char>,
    time_to_resolve: Option<i64>,
    current: Seq<char>,
    now: i64,
)
    ensures
        current == "breached"@ ==> ttr_status_after(status, time_to_resolve, current, now)
            == "breached"@,
        current == "at_risk"@ ==> ttr_status_after(status, time_to_resolve, current, now)
            != "within_sla"@,
{
    reveal_strlit("breached");
    reveal_strlit("at_risk");
    reveal_strlit("within_sla");
    assert("breached"@.len() == 8 && "at_risk"@.len() == 7 && "within_sla"@.len() == 10);
}

proof fn lemma_action_names()
    ensures
        "escalate_priority"@.len() == 17,
        "reassign_group"@.len() == 14,
        "reassign_technician"@.len() == 19,
        "send_alert"@.len() == 10,
        "sla_breached_ttr"@.len() == 16,
        "sla_warning_ttr"@.len() == 15,
{
    reveal_strlit("escalate_priority");
    reveal_strlit("reassign_group");
    reveal_strlit("reassign_technician");
    reveal_strlit("send_alert");
    reveal_strlit("sla_breached_ttr");
    reveal_strlit("sla_warning_ttr");
}

/// An alert level sends the breach notice `sla_breached_ttr` exactly when it fires after
/// the deadline (a positive offset), and the warning `sla_warning_ttr` exactly when it
/// fires at or before it; its description names the notice and the recipients.
pub proof fn law_alert_after_deadline_is_breach(esc: PendingEscalation)
    requires
        esc.action_type@ == "send_alert"@,
    ensures
        (escalation_effect(esc).0 == EscalationKind::SendAlert("sla_breached_ttr"@))
            <==> esc.execution_offset_minutes > 0,
        (escalation_effect(esc).0 == EscalationKind::SendAlert("sla_warning_ttr"@))
            <==> esc.execution_offset_minutes <= 0,
        escalation_effect(esc).1 == "Notificación de alerta enviada ("@ + (if esc.execution_offset_minutes
            > 0 {
            "sla_breached_ttr"@
        } else {
            "sla_warning_ttr"@
        }) + ") a destinatarios "@ + esc.action_value@,
{
    lemma_action_names();
}

/// Two alert levels that differ only in firing before or after the deadline send
/// different notices.
pub proof fn law_alert_notice_depends_on_side_of_deadline(a: PendingEscalation, b: PendingEscalation)
    requires
        a.action_type@ == "send_alert"@,
        b.action_type@ == "send_alert"@,
        a.execution_offset_minutes <= 0,
        b.execution_offset_minutes > 0,
    ensures
        escalation_effect(a).0 != escalation_effect(b).0,
{
    lemma_action_names();
    assert("sla_breached_ttr"@ != "sla_warning_ttr"@);
}

/// A priority escalation whose value reads as a number sets a priority within 1 to 5:
/// the number itself when it is already in that range, the nearest bound otherwise.
pub proof fn law_priority_escalation_in_range(esc: PendingEscalation, p: i32)
    requires
        esc.action_type@ == "escalate_priority"@,
        i32_of_text(esc.action_value@) == Some(p),
    ensures
        ({
            let k = escalation_effect(esc).0;
            &&& k is SetPriority
            &&& 1 <= k->SetPriority_0 <= 5
            &&& (1 <= p <= 5 ==> k->SetPriority_0 == p)
            &&& (p < 1 ==> k->SetPriority_0 == 1)
            &&& (p > 5 ==> k->SetPriority_0 == 5)
        }),
{
}

} // verus!
