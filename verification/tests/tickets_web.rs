use itilsuite::web::tickets::{assignment_outcome, plan_followup, plan_web_ticket, status_change, StatusChange};
use itilsuite::web::users::{count_users, initial_password, username_initial, UserSummary};

#[test]
fn web_ticket_blank_fields_are_refused() {
    assert!(plan_web_ticket("   ", "algo", None, None, None, false, false).is_none());
    assert!(plan_web_ticket("Impresora", " \t", None, None, None, false, false).is_none());
}

#[test]
fn web_ticket_defaults_to_unassigned_incident() {
    let p = plan_web_ticket("  Impresora  ", " no imprime ", None, None, None, false, false).unwrap();
    assert_eq!(p.name, "Impresora");
    assert_eq!(p.content, "no imprime");
    assert_eq!(p.ticket_type, "incident");
    assert_eq!(p.prefix, "INC");
    assert_eq!(p.urgency, 3);
    assert_eq!(p.impact, 3);
    assert_eq!(p.status, "new");
    assert!(!p.acknowledged);
    assert_eq!(p.tto_status, "pending");
    assert!(!p.notify_assignment);
}

#[test]
fn web_ticket_request_assigned_to_group() {
    let p = plan_web_ticket("Alta", "usuario nuevo", Some("request"), Some(9), Some(0), false, true).unwrap();
    assert_eq!(p.ticket_type, "request");
    assert_eq!(p.prefix, "REQ");
    assert_eq!(p.urgency, 5);
    assert_eq!(p.impact, 1);
    assert_eq!(p.status, "assigned");
    assert!(p.acknowledged);
    assert_eq!(p.tto_status, "within_sla");
    assert!(p.notify_assignment);
    let other = plan_web_ticket("x", "y", Some("problem"), Some(4), None, true, false).unwrap();
    assert_eq!(other.ticket_type, "incident");
    assert_eq!(other.urgency, 4);
}

#[test]
fn status_changes() {
    let s = status_change(" solved ");
    assert!(matches!(s, StatusChange::Solved));
    assert_eq!(s.event(), Some("ticket_solved".to_string()));
    assert!(s.issues_survey());
    let c = status_change("closed");
    assert!(matches!(c, StatusChange::Closed));
    assert_eq!(c.event(), Some("ticket_closed".to_string()));
    assert!(!c.issues_survey());
    match status_change("  pending ") {
        StatusChange::Other(s) => assert_eq!(s, "pending"),
        _ => panic!("expected a plain status"),
    }
    assert_eq!(status_change("Solved").event(), None);
}

#[test]
fn assigning_a_new_ticket() {
    let o = assignment_outcome("new", "pending", false, true, false);
    assert_eq!(o.status, "assigned");
    assert!(o.acknowledge);
    assert_eq!(o.tto_status, "within_sla");
    assert!(o.notify);
    let kept = assignment_outcome("in_progress", "breached", true, false, true);
    assert_eq!(kept.status, "in_progress");
    assert!(!kept.acknowledge);
    assert_eq!(kept.tto_status, "breached");
    assert!(kept.notify);
    let cleared = assignment_outcome("new", "pending", false, false, false);
    assert_eq!(cleared.status, "new");
    assert!(!cleared.acknowledge);
    assert_eq!(cleared.tto_status, "pending");
    assert!(!cleared.notify);
}

#[test]
fn followups_from_the_web() {
    assert!(plan_followup("  ", Some("solution"), None).is_none());
    let s = plan_followup(" listo ", Some("solution"), Some("on")).unwrap();
    assert_eq!(s.content, "listo");
    assert_eq!(s.item_type, "solution");
    assert!(s.is_private);
    assert!(s.solves);
    assert_eq!(s.event, "ticket_solved");
    let f = plan_followup("revisando", Some("note"), Some("yes")).unwrap();
    assert_eq!(f.item_type, "followup");
    assert!(!f.is_private);
    assert!(!f.solves);
    assert_eq!(f.event, "ticket_followup_added");
    let t = plan_followup("tarea", Some("task"), None).unwrap();
    assert_eq!(t.item_type, "task");
    assert_eq!(t.event, "ticket_followup_added");
}

#[test]
fn user_list_figures() {
    let users = vec![
        UserSummary { profile_name: "Technician".to_string(), is_active: true },
        UserSummary { profile_name: "Admin".to_string(), is_active: false },
        UserSummary { profile_name: "Super-Admin".to_string(), is_active: true },
        UserSummary { profile_name: "Self-Service".to_string(), is_active: true },
        UserSummary { profile_name: "technician".to_string(), is_active: false },
    ];
    let c = count_users(&users);
    assert_eq!(c.total, 5);
    assert_eq!(c.active, 3);
    assert_eq!(c.technicians, 1);
    assert_eq!(c.admins, 2);
    let none = count_users(&[]);
    assert_eq!((none.total, none.active, none.technicians, none.admins), (0, 0, 0, 0));
}

#[test]
fn user_initial_letter() {
    assert_eq!(username_initial("admin"), "A");
    assert_eq!(username_initial(""), "U");
    assert_eq!(username_initial("ñandú"), "Ñ");
}

#[test]
fn default_password_for_new_accounts() {
    assert_eq!(initial_password(None), "ITILSuite2026!");
    assert_eq!(initial_password(Some("   ")), "ITILSuite2026!");
    assert_eq!(initial_password(Some(" secreto ")), " secreto ");
}
