use itilsuite::agent::{AgentService, GlpiDrive, GlpiMemory, GlpiNetwork, MatchKind};
use itilsuite::changes::{ChangeService, ProblemService};
use itilsuite::chat::ChatService;
use itilsuite::mail::{MailService, TicketContacts};
use itilsuite::marketing::{MarketingContact, MarketingService, SegmentRule};
use itilsuite::receiver::{IncomingTicketPlan, MailBlacklist, ReceiverService};
use itilsuite::rules::assets::AssetRulesService;
use itilsuite::rules::dictionaries::DictionaryService;
use itilsuite::rules::fields::FieldMap;
use itilsuite::rules::helpdesk::HelpdeskRulesService;
use itilsuite::rules::model::{Rule, RuleAction, RuleCriteria, RuleWithDetails};
use itilsuite::sla::{EscalationAction, PendingEscalation, SlaService};
use itilsuite::survey::{AnsweredQuestion, IssuedLink, SurveyRefusal, SurveyService};

fn simple_rule(id: u128, field: &str, op: &str, pattern: &str, out_field: &str, out: &str) -> RuleWithDetails {
    RuleWithDetails {
        rule: Rule {
            id,
            rule_type: "t".to_string(),
            name: "r".to_string(),
            description: None,
            is_active: true,
            ranking: 1,
            match_logic: "AND".to_string(),
            stop_on_first_match: true,
            entity_id: None,
            is_recursive: true,
            created_at: 0,
            updated_at: 0,
        },
        criteria: vec![RuleCriteria {
            id: 1,
            rule_id: id,
            field: field.to_string(),
            operator: op.to_string(),
            pattern: pattern.to_string(),
            created_at: 0,
        }],
        actions: vec![RuleAction {
            id: 2,
            rule_id: id,
            action_type: "assign".to_string(),
            field: out_field.to_string(),
            value: out.to_string(),
            created_at: 0,
        }],
    }
}

#[test]
fn dictionary_normalizes_and_falls_back() {
    let rules = vec![simple_rule(1, "raw_manufacturer", "contains", "hewlett", "normalized_manufacturer", "HP")];
    assert_eq!(DictionaryService::normalize_manufacturer(&rules, " Hewlett-Packard "), "HP");
    assert_eq!(DictionaryService::normalize_manufacturer(&rules, " Dell Inc. "), "Dell Inc.");
    assert_eq!(DictionaryService::normalize_manufacturer(&rules, "   "), "Desconocido");
    assert_eq!(DictionaryService::normalize_software(&[], "  "), "");
    assert_eq!(DictionaryService::normalize_model(&[], " X1 "), "X1");
    assert_eq!(DictionaryService::model_rule_type("monitor"), "dict_monitor_model");
    assert_eq!(DictionaryService::model_rule_type("server"), "dict_computer_model");
    let (n, v, a) = DictionaryService::normalize_os(&[], &[], &[], " Ubuntu ", "24.04", " x86_64");
    assert_eq!((n.as_str(), v.as_str(), a.as_str()), ("Ubuntu", "24.04", "x86_64"));
}

#[test]
fn asset_and_ticket_entities_come_from_rules() {
    let ent = "6a2f41a3-c54c-fce8-32d2-0324e1c32e22";
    let rules = vec![simple_rule(1, "ip_address", "in_subnet", "10.0.0.0/8", "entity_id", ent)];
    let got = AssetRulesService::evaluate_asset_entity(&rules, Some(" 10.1.1.1 "), None, None, None);
    assert_eq!(got, Some(uuid::Uuid::parse_str(ent).unwrap().as_u128()));
    assert_eq!(AssetRulesService::evaluate_asset_entity(&rules, Some("192.168.0.1"), None, None, None), None);
    let bad = vec![simple_rule(1, "hostname", "is_not_empty", "", "entity_id", "not-a-uuid")];
    assert_eq!(AssetRulesService::evaluate_asset_entity(&bad, None, None, Some("pc"), None), None);
    assert_eq!(
        AssetRulesService::evaluate_reconciliation_decision(&[], None, None, None, None),
        "create_new"
    );
    let domain_rules = vec![simple_rule(1, "domain", "equals", "acme.com", "entity_id", ent)];
    let t = HelpdeskRulesService::evaluate_ticket_entity(&domain_rules, "ana@ACME.com", None, "hola");
    assert_eq!(t, Some(uuid::Uuid::parse_str(ent).unwrap().as_u128()));
    let out = HelpdeskRulesService::evaluate_ticket_business_rules(&[], " s ", " c ", "a@b.c@d", -3, 4);
    assert_eq!(out.get("domain").map(|s| s.as_str()), Some("b.c"));
    assert_eq!(out.get("urgency").map(|s| s.as_str()), Some("-3"));
    assert_eq!(out.get("impact").map(|s| s.as_str()), Some("4"));
    assert_eq!(out.get("subject").map(|s| s.as_str()), Some("s"));
}

#[test]
fn wildcard_patterns() {
    assert!(ReceiverService::matches_wildcard("anything", "*"));
    assert!(ReceiverService::matches_wildcard("spam@x.com", "spam*"));
    assert!(ReceiverService::matches_wildcard("a@spam.com", "*@spam.com"));
    assert!(ReceiverService::matches_wildcard("exact", "exact"));
    assert!(!ReceiverService::matches_wildcard("exact", "exactly"));
}

fn blacklist(kind: &str, pattern: &str, reason: Option<&str>, active: bool) -> MailBlacklist {
    MailBlacklist {
        id: 1,
        rule_type: kind.to_string(),
        pattern: pattern.to_string(),
        reason: reason.map(|r| r.to_string()),
        is_active: active,
    }
}

#[test]
fn blacklist_first_match_gives_reason() {
    let rules = vec![
        blacklist("sender_email", "*", Some("off"), false),
        blacklist("domain", "*@SPAM.com", None, true),
        blacklist("subject_regex", "^win\\b", Some("lottery"), true),
    ];
    assert_eq!(
        ReceiverService::is_blacklisted(&rules, "bob@spam.com", "hi").as_deref(),
        Some("Dominio en lista negra")
    );
    assert_eq!(
        ReceiverService::is_blacklisted(&rules, "bob@ok.com", "WIN a prize").as_deref(),
        Some("lottery")
    );
    assert_eq!(ReceiverService::is_blacklisted(&rules, "bob@ok.com", "hello"), None);
    assert_eq!(ReceiverService::is_blacklisted(&rules, "bob@ok.com", "winter sale"), None);
    assert_eq!(
        ReceiverService::rejection_message("x"),
        "Mensaje descartado por lista negra: x"
    );
}

#[test]
fn subject_rules_are_case_insensitive_regexes() {
    let rules = vec![blacklist("subject_regex", "^urgent.*prize", None, true)];
    assert_eq!(
        ReceiverService::is_blacklisted(&rules, "a@b.com", "URGENT: claim your prize").as_deref(),
        Some("Asunto coincide con regla de bloqueo")
    );
    assert_eq!(ReceiverService::is_blacklisted(&rules, "a@b.com", "not urgent: prize"), None);
    let broken = vec![blacklist("subject_regex", "(unclosed", Some("bad"), true)];
    assert_eq!(ReceiverService::is_blacklisted(&broken, "a@b.com", "(unclosed"), None);
}

#[test]
fn incoming_ticket_classification() {
    let mut m = FieldMap::new();
    let plan: IncomingTicketPlan = ReceiverService::plan_incoming_ticket("Solicitud de acceso", &m);
    assert_eq!(plan.ticket_type, "request");
    assert_eq!((plan.urgency, plan.impact), (3, 3));
    assert_eq!(plan.category, "Correo Electrónico");
    assert_eq!(plan.technician_id, None);
    m.insert("urgency".to_string(), "9".to_string());
    m.insert("impact".to_string(), "x".to_string());
    m.insert("category".to_string(), "Redes".to_string());
    m.insert("assigned_technician_id".to_string(), "00000000-0000-0000-0000-000000000002".to_string());
    let plan = ReceiverService::plan_incoming_ticket("Printer broken", &m);
    assert_eq!(plan.ticket_type, "incident");
    assert_eq!((plan.urgency, plan.impact), (5, 3));
    assert_eq!(plan.category, "Redes");
    assert_eq!(plan.technician_id, Some(2));
    assert_eq!(ReceiverService::ticket_prefix("request"), "REQ");
    assert_eq!(ReceiverService::ticket_prefix("incident"), "INC");
    assert_eq!(ReceiverService::ticket_number("INC", "2026", 0), "INC-2026-0001");
    assert_eq!(ReceiverService::ticket_number("REQ", "2026", 12344), "REQ-2026-12345");
    assert_eq!(ReceiverService::resolution_hours(5), 4);
    assert_eq!(ReceiverService::resolution_hours(1), 72);
    assert_eq!(ReceiverService::initial_status(true), "assigned");
    assert!(ReceiverService::reopens_on_reply("pending"));
    assert!(!ReceiverService::reopens_on_reply("new"));
    assert_eq!(ReceiverService::followup_content("body", ""), "body");
    assert_eq!(ReceiverService::default_entity(), 1);
}

#[test]
fn sla_fallback_and_escalations() {
    assert_eq!(SlaService::fallback_deadlines(3, 1000), (4600, 1000 + 24 * 3600));
    let mut esc = PendingEscalation {
        ticket_id: 1,
        ticket_number: "INC-1".to_string(),
        ticket_name: "x".to_string(),
        ticket_priority: 3,
        sla_level_id: 2,
        level_name: "Nivel 1".to_string(),
        target_type: "ttr".to_string(),
        execution_offset_minutes: -30,
        action_type: "escalate_priority".to_string(),
        action_value: "9".to_string(),
        time_to_own: None,
        time_to_resolve: Some(10_000),
    };
    assert!(SlaService::plan_escalation(&esc, 10_000 - 1801).is_none());
    let plan = SlaService::plan_escalation(&esc, 10_000 - 1800).unwrap();
    assert!(matches!(plan.action, EscalationAction::SetPriority(5)));
    assert_eq!(plan.details, "Prioridad elevada a P5");
    assert_eq!(
        plan.audit_note,
        "⚡ [Matriz de Escalamiento SLA] Regla activada: 'Nivel 1'. Prioridad elevada a P5"
    );
    esc.action_type = "send_alert".to_string();
    esc.action_value = "group".to_string();
    let plan = SlaService::plan_escalation(&esc, 10_000).unwrap();
    assert_eq!(plan.details, "Notificación de alerta enviada (sla_warning_ttr) a destinatarios group");
    esc.action_type = "reassign_group".to_string();
    esc.action_value = "00000000-0000-0000-0000-0000000000ab".to_string();
    let plan = SlaService::plan_escalation(&esc, 10_000).unwrap();
    assert_eq!(plan.details, "Ticket reasignado al grupo transversal 00000000-0000-0000-0000-0000000000ab");
    esc.target_type = "tto".to_string();
    assert!(SlaService::plan_escalation(&esc, 10_000).is_none());
}

#[test]
fn survey_links_and_checks() {
    assert_eq!(SurveyService::public_url(Some("http://h//"), "tok"), "http://h/survey/tok");
    assert_eq!(SurveyService::public_url(None, "tok"), "/survey/tok");
    let t = SurveyService::token_text(1, 2);
    assert_eq!(t.len(), 64);
    assert!(t.ends_with("0002"));
    assert_eq!(SurveyService::token_expiry(100, 15), 100 + 15 * 86400);
    assert_eq!(
        SurveyService::check_public_access("pending", 5, 10, true, 0),
        Err(SurveyRefusal::LinkExpired)
    );
    assert_eq!(
        SurveyService::check_public_access("completed", 50, 10, true, 0),
        Err(SurveyRefusal::AlreadyCompleted)
    );
    assert_eq!(SurveyService::check_public_access("completed", 50, 10, true, 1), Ok(()));
    assert_eq!(SurveyService::check_public_access("pending", 50, 10, false, 1), Err(SurveyRefusal::SurveyInactive));
    assert!(SurveyService::expires_on_access("in_progress"));
    assert_eq!(SurveyService::check_draft("pending", 50, 10), Ok(true));
    assert_eq!(SurveyService::check_draft("completed", 50, 10), Err(SurveyRefusal::DraftOfCompleted));
    assert_eq!(SurveyService::check_submission("in_progress", 0, 5, 10), Err(SurveyRefusal::SurveyExpired));
    assert_eq!(
        SurveyService::refusal_message(SurveyRefusal::SurveyExpired),
        "Esta encuesta ha expirado"
    );
}

#[test]
fn survey_tags_and_summary() {
    let text = SurveyService::replace_tags(
        "Hola ##ticket.requester##, ticket ##ticket.id## por ##ticket.technician##",
        Some("INC-1"),
        None,
        None,
        None,
    );
    assert_eq!(text, "Hola Estimado cliente, ticket INC-1 por el equipo técnico");
    let answers = vec![
        AnsweredQuestion { name: "Trato".to_string(), question_type: "rating5".to_string(), value: "7".to_string() },
        AnsweredQuestion { name: "NPS".to_string(), question_type: "nps".to_string(), value: "9".to_string() },
        AnsweredQuestion { name: "Nota".to_string(), question_type: "text".to_string(), value: "ok".to_string() },
        AnsweredQuestion { name: "Bad".to_string(), question_type: "rating5".to_string(), value: "x".to_string() },
    ];
    let (lines, rating) = SurveyService::summarize_answers(&answers);
    assert_eq!(rating, Some(7));
    assert_eq!(
        lines,
        vec![
            "* **Trato**: ⭐⭐⭐⭐⭐ (7/5)".to_string(),
            "* **NPS**: **9/10**".to_string(),
            "* **Nota**: ok".to_string(),
        ]
    );
    let note = SurveyService::satisfaction_followup(Some(2), &lines[..1]);
    assert_eq!(
        note,
        "📋 **Encuesta de Satisfacción Recibida**: ⭐⭐ (2/5)\n\n* **Trato**: ⭐⭐⭐⭐⭐ (7/5)\n\n*Registrado de forma automatizada por el sistema de encuestas.*"
    );
    let none = SurveyService::satisfaction_followup(None, &[]);
    assert!(none.starts_with("📋 **Encuesta de Satisfacción Recibida**: Completada\n\n\n\n"));
}

#[test]
fn survey_tallies() {
    let rows = vec![(Some(5), 3), (Some(1), 2), (Some(9), 100), (None, 7), (Some(5), 4)];
    let c = SurveyService::tally_csat(&rows);
    assert_eq!(c.counts, vec![2, 0, 0, 0, 4]);
    assert_eq!(c.total, 9);
    let nps = SurveyService::tally_nps(&[(Some(10), 5), (Some(8), 2), (Some(3), 1), (Some(11), 9)]);
    assert_eq!((nps.promoters, nps.passives, nps.detractors, nps.total), (5, 2, 1, 8));
    assert_eq!(SurveyService::option_ranking(0), 10);
}

#[test]
fn mail_subject_bodies_and_recipients() {
    assert_eq!(MailService::prefixed_subject("[ITIL]", "Hola"), "[ITIL] Hola");
    assert_eq!(MailService::prefixed_subject("[ITIL]", "[ITIL] Hola"), "[ITIL] Hola");
    assert_eq!(MailService::prefixed_subject("", "Hola"), "Hola");
    let (h, t) = MailService::signed_bodies("<p>x</p>", "x", "Sig");
    assert_eq!(h, "<p>x</p><br><br><pre style=\"font-family:sans-serif; color:#64748b;\">Sig</pre>");
    assert_eq!(t, "x\n\nSig");
    assert_eq!(MailService::followup_parts(None), (String::new(), "Sistema".to_string()));
    let vars = MailService::template_variables("N", "n", "c", "incident", 4, "new", None, None, None, None, "", "Sistema");
    assert_eq!(vars.len(), 12);
    assert_eq!(vars[4], ("ticket.priority".to_string(), "4".to_string()));
    assert_eq!(vars[6], ("ticket.category".to_string(), "General".to_string()));
    let contacts = TicketContacts {
        requester_email: Some("req@x.com".to_string()),
        requester_name: "Req".to_string(),
        technician_email: Some("  ".to_string()),
        technician_name: "Tech".to_string(),
    };
    let members = Some(vec![
        ("req@x.com".to_string(), "Req again".to_string()),
        ("g@x.com".to_string(), "G".to_string()),
    ]);
    let roles = vec!["requester".to_string(), "technician".to_string(), "group".to_string(), "group".to_string()];
    let r = MailService::resolve_recipients("ticket_updated", &roles, &contacts, &members, "admin@x", "Admin");
    assert_eq!(
        r,
        vec![
            ("req@x.com".to_string(), Some("Req".to_string())),
            ("g@x.com".to_string(), Some("G".to_string())),
        ]
    );
    let r = MailService::resolve_recipients("ticket_created", &[], &contacts, &members, "admin@x", "Admin");
    assert_eq!(r.len(), 2);
    let r = MailService::resolve_recipients("ticket_closed", &[], &contacts, &members, "admin@x", "Admin");
    assert_eq!(r, vec![("admin@x".to_string(), Some("Admin".to_string()))]);
}

#[test]
fn chat_conversion_pieces() {
    assert_eq!(ChatService::conversion_levels(None, Some(9)), (3, 5));
    assert_eq!(ChatService::conversion_ticket_number("2026", 0), "INC-2026-10000");
    assert_eq!(ChatService::conversion_ticket_number("2026", 89999), "INC-2026-99999");
    assert_eq!(ChatService::conversion_content(None, "msg", Some("a.pdf")), "msg\n\n[Adjunto vinculado]: a.pdf");
    assert_eq!(ChatService::conversion_content(Some("o".to_string()), "msg", Some("a.pdf")), "o");
    assert_eq!(ChatService::conversion_requester(None, 4), 4);
    assert_eq!(ChatService::conversion_category(None), "Mesa de Ayuda");
    assert_eq!(ChatService::conversion_notice("INC-1", "  Fallo  "), "📋 Mensaje convertido en Ticket #INC-1: \"Fallo\"");
    assert_eq!(ChatService::ticket_link(255), "/tickets/00000000-0000-0000-0000-0000000000ff");
    assert!(!ChatService::message_acceptable("   ", false));
    assert!(ChatService::message_acceptable("", true));
    assert_eq!(ChatService::sender_display_name(" ", "", "juan"), "juan");
    assert_eq!(ChatService::sender_display_name("Ana", "Ruiz", "ana"), "Ana Ruiz");
    assert_eq!(ChatService::default_settings().panel_width_px, 380);
}

#[test]
fn change_and_problem_rules() {
    let a = ChangeService::new_change_attributes(Some(0), None, None, Some("high".to_string()));
    assert_eq!((a.urgency, a.impact, a.first.as_str(), a.second.as_str()), (1, 3, "normal", "high"));
    assert_eq!(ChangeService::change_number("2026", 41), "RFC-2026-0042");
    assert!(ChangeService::closes_change("rejected"));
    assert_eq!(ChangeService::updated_change_attributes(None, Some(7), 2, 2), (2, 5));
    let sql = ChangeService::list_conditions(true, Some("all"), Some("normal"), Some(""));
    assert_eq!(
        sql,
        " AND c.entity_id = $1 AND c.change_type = $3 ORDER BY c.priority DESC, c.created_at DESC LIMIT $5 OFFSET $6"
    );
    assert_eq!(ProblemService::problem_number("2026", 0), "PRB-2026-0001");
    assert_eq!(ProblemService::kedb_number("2026", 9), "KEDB-2026-0010");
    assert_eq!(ProblemService::status_stamps("resolved"), (true, false));
    assert!(!ProblemService::becomes_known_error("closed"));
    let (t, s, r, w) = ProblemService::kedb_texts(None, "Caída", None, "Contenido", None, None);
    assert_eq!(t, "Workaround para: Caída");
    assert_eq!(s, "Contenido");
    assert_eq!(r, "En análisis");
    assert_eq!(w, "Procedimiento de mitigación no documentado aún");
    assert_eq!(ProblemService::followup_kind(None, None), ("followup".to_string(), false));
    assert_eq!(itilsuite::changes::search_pattern("x"), "%x%");
}

fn contact(id: u128, stage: &str, points: i32, company: &str, tags: &[&str]) -> MarketingContact {
    MarketingContact {
        id,
        entity_id: 1,
        email: format!("c{}@x.com", id),
        first_name: "F".to_string(),
        last_name: "L".to_string(),
        company: company.to_string(),
        phone: String::new(),
        stage: stage.to_string(),
        points,
        tags: tags.iter().map(|t| t.to_string()).collect(),
        is_unsubscribed: false,
    }
}

#[test]
fn marketing_segments() {
    let contacts = vec![
        contact(1, "lead", 10, "ACME Corp", &["vip"]),
        contact(2, "customer", 50, "Other", &[]),
        contact(3, "Lead", 80, "acme", &["VIP", "x"]),
    ];
    let rules = vec![
        SegmentRule { field: "stage".to_string(), operator: "equals".to_string(), value: "LEAD".to_string() },
        SegmentRule { field: "points".to_string(), operator: "gte".to_string(), value: "20".to_string() },
    ];
    let kept = MarketingService::filter_segment_contacts(contacts, &rules);
    assert_eq!(kept.iter().map(|c| c.id).collect::<Vec<_>>(), vec![3]);
    let c = contact(4, "lead", 0, "Big ACME", &["vip"]);
    let r = |f: &str, o: &str, v: &str| SegmentRule { field: f.to_string(), operator: o.to_string(), value: v.to_string() };
    assert!(MarketingService::contact_passes(&c, &r("company", "contains", "acme")));
    assert!(MarketingService::contact_passes(&c, &r("tags", "contains", "VIP")));
    assert!(MarketingService::contact_passes(&c, &r("points", "equals", "nan")));
    assert!(MarketingService::contact_passes(&c, &r("unknown", "x", "y")));
    assert_eq!(MarketingService::tracking_token(0, 1).len(), 64);
    assert_eq!(MarketingService::recipient_name("A", "B"), "A B");
    assert_eq!(MarketingService::campaign_event("Promo"), "campaign:Promo");
    assert_eq!(MarketingService::new_campaign_status(false), "draft");
    assert_eq!(MarketingService::engagement_points(true, true), 5);
    assert_eq!(MarketingService::engagement_points(false, true), 2);
    assert_eq!(MarketingService::engagement_points(true, false), 0);
    assert_eq!(MarketingService::new_contact_defaults(None, None), ("lead".to_string(), 0));
}

#[test]
fn agent_presets_and_plans() {
    let p = AgentService::get_preset_payload("thinkpad_laptop");
    let facts = AgentService::inventory_facts(&p);
    assert_eq!(facts.hostname.as_deref(), Some("NB-STOCK-04"));
    assert_eq!(facts.primary_ip.as_deref(), Some("192.168.10.155"));
    assert_eq!(facts.agent_version, "GLPI-Agent_v1.11");
    let p = AgentService::get_preset_payload("anything");
    assert_eq!(p.deviceid.as_deref(), Some("ws-dev-juan-reconcile"));
    assert_eq!(p.content.as_ref().unwrap().monitors.as_ref().unwrap().len(), 1);
    let mac = AgentService::get_preset_payload("new_macbook");
    assert_eq!(mac.content.as_ref().unwrap().bios.as_ref().unwrap().ssn.as_deref(), Some("C02G4001MD6R"));

    assert!(AgentService::is_rejected("reject"));
    let rej = AgentService::rejection_response(None);
    assert_eq!((rej.status.as_str(), rej.asset_name.as_str(), rej.asset_id), ("rejected", "Unknown", 0));

    let locked = vec!["name".to_string()];
    let plan = AgentService::plan_asset_update(&locked, "OLD", Some("NEW"), true, false, true, true);
    assert!(!plan.update_name);
    assert_eq!(plan.new_name, "OLD");
    assert!(plan.update_manufacturer && !plan.update_model && plan.update_serial && plan.update_uuid);
    let plan = AgentService::plan_asset_update(&[], "OLD", Some("NEW"), false, false, false, false);
    assert_eq!(plan.new_name, "NEW");

    let n = AgentService::plan_new_asset(None, 0x1234_5678_9abc_def0_0000_0000_0000_0000, "trash");
    assert_eq!(n.name, "PC-12345678");
    assert_eq!(n.asset_type, "computer");
    assert_eq!(n.status, "trash");
    let n = AgentService::plan_new_asset(Some("SRV-DB-01"), 0, "create_new");
    assert_eq!((n.asset_type.as_str(), n.status.as_str()), ("server", "active"));

    let mem = AgentService::memory_spec(&[
        GlpiMemory { capacity: Some(8192), memory_type: None, speed: None, numslots: None },
        GlpiMemory { capacity: None, memory_type: Some("DDR4".to_string()), speed: None, numslots: None },
    ]);
    assert_eq!((mem.total_mb, mem.memory_type.as_str(), mem.slots_used), (8192, "DDR4", 2));
    assert_eq!(AgentService::memory_spec(&[]).memory_type, "RAM");
    let st = AgentService::storage_specs(&[GlpiDrive { volumn: None, filesystem: None, total: Some(-2048), free: Some(1500), drive_type: None }]);
    assert_eq!((st[0].name.as_str(), st[0].size_gb, st[0].free_gb), ("Storage", -2, 1));
    let nets = AgentService::network_specs(&[GlpiNetwork {
        description: None,
        mac: Some("aa".to_string()),
        ipaddress: None,
        ipmask: None,
        status: None,
        speed: None,
        network_type: None,
    }]);
    assert_eq!((nets[0].name.as_str(), nets[0].status.as_str()), ("Interface", "up"));
    let ok = AgentService::processed_response(5, "created".to_string(), "PC-1".to_string());
    assert_eq!(ok.message, "Asset 'PC-1' successfully processed via GLPI-Agent protocol");
    assert_eq!(AgentService::cpu_spec(&[]).is_none(), true);
}

#[test]
fn preset_payloads_in_full() {
    let p = AgentService::get_preset_payload("thinkpad_laptop");
    assert_eq!(p.deviceid.as_deref(), Some("thinkpad-t14s-gen4-2026-09-18"));
    let c = p.content.unwrap();
    assert_eq!(c.hardware.as_ref().unwrap().name.as_deref(), Some("NB-STOCK-04"));
    assert_eq!(c.bios.as_ref().unwrap().smanufacturer.as_deref(), Some("Lenovo"));
    assert_eq!(c.bios.as_ref().unwrap().ssn.as_deref(), Some("PF48X91A"));
    assert!(c.monitors.is_none());
    assert_eq!(c.softwares.as_ref().unwrap().len(), 2);

    let p = AgentService::get_preset_payload("new_macbook");
    assert_eq!(p.deviceid.as_deref(), Some("macbook-pro-m3max-2026-09-18"));
    let c = p.content.unwrap();
    assert_eq!(c.hardware.as_ref().unwrap().name.as_deref(), Some("MBP16-DESIGN-01"));
    assert_eq!(c.bios.as_ref().unwrap().smanufacturer.as_deref(), Some("Apple Inc."));
    assert_eq!(c.operatingsystem.as_ref().unwrap().arch.as_deref(), Some("arm64"));
    let monitors = c.monitors.as_ref().unwrap();
    assert_eq!(monitors.len(), 1);
    assert_eq!(monitors[0].serial.as_deref(), Some("F6KG8931MD90"));

    for name in ["thinkpad_laptop", "new_macbook", "other"] {
        let p = AgentService::get_preset_payload(name);
        assert_eq!(p.action.as_deref(), Some("inventory"));
        assert_eq!(p.itemtype.as_deref(), Some("Computer"));
        let c = p.content.unwrap();
        assert_eq!(c.versionclient.as_deref(), Some("GLPI-Agent_v1.11"));
        assert_eq!(c.cpus.as_ref().unwrap().len(), 1);
        assert_eq!(c.memories.as_ref().unwrap().len(), 1);
        assert_eq!(c.drives.as_ref().unwrap().len(), 1);
        assert_eq!(c.networks.as_ref().unwrap().len(), 1);
        let hw = c.hardware.as_ref().unwrap();
        assert_eq!(c.networks.as_ref().unwrap()[0].ipaddress, hw.dns);
        assert_eq!(hw.memory, c.memories.as_ref().unwrap()[0].capacity);
        let d = &c.drives.as_ref().unwrap()[0];
        assert!(d.free.unwrap() <= d.total.unwrap());
    }
}

fn link(ticket: Option<u128>, survey: u128, status: &str, created_at: i64, expires_at: i64) -> IssuedLink {
    IssuedLink { ticket_id: ticket, survey_id: survey, status: status.to_string(), created_at, expires_at }
}

#[test]
fn open_survey_link_is_reused() {
    let links = vec![
        link(Some(1), 9, "pending", 100, 1000),
        link(Some(1), 9, "completed", 300, 1000),
        link(Some(1), 9, "in_progress", 200, 1000),
        link(Some(1), 8, "pending", 400, 1000),
        link(Some(2), 9, "pending", 500, 1000),
        link(Some(1), 9, "pending", 600, 50),
        link(Some(1), 9, "pending", 200, 2000),
    ];
    assert_eq!(SurveyService::reusable_link(&links, Some(1), 9, 60), Some(2));
    assert_eq!(SurveyService::reusable_link(&links, None, 9, 60), None);
    assert_eq!(SurveyService::reusable_link(&links, Some(3), 9, 60), None);
    assert_eq!(SurveyService::reusable_link(&links, Some(1), 9, 1500), Some(6));
}

#[test]
fn sla_status_transitions() {
    assert_eq!(SlaService::tto_status_after_tick("new", false, Some(100), "pending", 200), "breached");
    assert_eq!(SlaService::tto_status_after_tick("new", true, Some(100), "within_sla", 200), "within_sla");
    assert_eq!(SlaService::tto_status_after_tick("solved", false, Some(100), "pending", 200), "pending");
    assert_eq!(SlaService::tto_status_after_tick("new", false, None, "pending", 200), "pending");
    assert_eq!(SlaService::ttr_status_after_tick("assigned", Some(100), "within_sla", 200), "breached");
    assert_eq!(SlaService::ttr_status_after_tick("assigned", Some(3800), "within_sla", 200), "at_risk");
    assert_eq!(SlaService::ttr_status_after_tick("assigned", Some(3801), "within_sla", 200), "within_sla");
    assert_eq!(SlaService::ttr_status_after_tick("assigned", Some(3000), "breached", 200), "breached");
    assert_eq!(SlaService::ttr_status_after_tick("closed", Some(100), "within_sla", 200), "within_sla");
    assert_eq!(SlaService::ttr_status_after_tick("assigned", None, "within_sla", 200), "within_sla");
}

#[test]
fn reconciliation_lookups_in_order() {
    let p = AgentService::get_preset_payload("new_macbook");
    let keys = AgentService::reconciliation_keys(&p);
    let got: Vec<(MatchKind, &str)> = keys.iter().map(|k| (k.kind, k.value.as_str())).collect();
    assert_eq!(
        got,
        vec![
            (MatchKind::HardwareUuid, "e71092a4-56b0-410a-85d1-c02g4001md6r"),
            (MatchKind::Serial, "C02G4001MD6R"),
            (MatchKind::Mac, "f0:18:98:44:b1:2c"),
            (MatchKind::Hostname, "MBP16-DESIGN-01"),
        ]
    );
    let mut bare = AgentService::get_preset_payload("other");
    {
        let c = bare.content.as_mut().unwrap();
        c.hardware.as_mut().unwrap().uuid = None;
        c.networks.as_mut().unwrap()[0].mac = Some(String::new());
    }
    let keys = AgentService::reconciliation_keys(&bare);
    let kinds: Vec<MatchKind> = keys.iter().map(|k| k.kind).collect();
    assert_eq!(kinds, vec![MatchKind::Serial, MatchKind::Hostname]);
}

#[test]
fn issuing_twice_gives_the_same_link() {
    let mut links = vec![link(Some(4), 9, "completed", 10, 5000), link(Some(4), 9, "pending", 20, 90)];
    assert_eq!(SurveyService::reusable_link(&links, Some(4), 9, 100), None);
    links.push(link(Some(4), 9, "pending", 100, 100 + 7 * 86400));
    let first = SurveyService::reusable_link(&links, Some(4), 9, 150);
    assert_eq!(first, Some(2));
    assert_eq!(SurveyService::reusable_link(&links, Some(4), 9, 3000), first);
}
