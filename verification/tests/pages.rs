use itilsuite::survey::{QuestionAttributes, QuestionChange, RecordedAnswer, SurveyService};
use itilsuite::web::asset_specs::{AssetSpecDisplay, AssetSpecs, SpecEntry, SpecScalar};
use itilsuite::web::helpers::{clean_filter, session_entity};
use itilsuite::web::session::{LoginRefusal, SessionRules};
use itilsuite::web::templates::MailConfigTabs;

fn rec(fields: &[(&str, SpecScalar)]) -> Vec<(String, SpecScalar)> {
    fields.iter().map(|(k, v)| (k.to_string(), v.clone())).collect()
}

fn text(s: &str) -> SpecScalar {
    SpecScalar::Text(s.to_string())
}

#[test]
fn login_decisions_and_cookies() {
    assert_eq!(SessionRules::check_login(false, true, true, true), Err(LoginRefusal::BadCredentials));
    assert_eq!(SessionRules::check_login(true, false, false, true), Err(LoginRefusal::AccountDisabled));
    assert_eq!(SessionRules::check_login(true, true, false, true), Err(LoginRefusal::BadCredentials));
    assert_eq!(SessionRules::check_login(true, true, true, false), Err(LoginRefusal::NoProfile));
    assert_eq!(SessionRules::check_login(true, true, true, true), Ok(()));
    assert_eq!(SessionRules::refusal_status(LoginRefusal::NoProfile), 403);
    assert_eq!(SessionRules::refusal_status(LoginRefusal::BadCredentials), 400);
    assert_eq!(
        SessionRules::refusal_message(LoginRefusal::AccountDisabled),
        "La cuenta de usuario se encuentra deshabilitada"
    );
    assert_eq!(SessionRules::display_name("Ana", "", "ana"), "Ana");
    assert_eq!(SessionRules::display_name("", "", "ana"), "ana");
    assert_eq!(
        SessionRules::session_cookie("tok", 8),
        "itilsuite_session=tok; Path=/; HttpOnly; SameSite=Lax; Max-Age=28800"
    );
    assert_eq!(
        SessionRules::session_tokens("a=1; itilsuite_session=x=y ;itilsuite_session=z; other"),
        vec!["x=y".to_string(), "z".to_string()]
    );
    assert_eq!(SessionRules::session_tokens(""), Vec::<String>::new());
}

#[test]
fn asset_spec_displays() {
    let specs = AssetSpecs {
        entries: vec![
            ("cpu".to_string(), SpecEntry::Record(rec(&[("name", text("i7")), ("cores", SpecScalar::Int(8)), ("threads", SpecScalar::Int(16))]))),
            ("os".to_string(), SpecEntry::Record(rec(&[("name", text("Ubuntu")), ("kernel", text("6.8"))]))),
            ("memory".to_string(), SpecEntry::Record(rec(&[("slots_used", SpecScalar::Int(2)), ("slots_total", SpecScalar::Int(4))]))),
            (
                "storage".to_string(),
                SpecEntry::List(vec![
                    rec(&[("name", text("C:")), ("size_gb", SpecScalar::Int(512)), ("free_gb", SpecScalar::Int(100))]),
                    rec(&[("size_gb", SpecScalar::Int(1000))]),
                ]),
            ),
            ("networks".to_string(), SpecEntry::List(vec![rec(&[("name", text("eth0")), ("ip", text("10.0.0.2"))])])),
            (
                "softwares".to_string(),
                SpecEntry::List(vec![rec(&[("name", text("Vim")), ("version", text("9"))]), rec(&[("version", text("1"))])]),
            ),
        ],
    };
    assert_eq!(AssetSpecDisplay::cpu_display(&specs), "i7");
    assert_eq!(AssetSpecDisplay::cpu_cores_display(&specs).as_deref(), Some("8 Núcleos / 16 Hilos"));
    assert_eq!(AssetSpecDisplay::os_display(&specs), "Ubuntu");
    assert_eq!(AssetSpecDisplay::os_details_display(&specs).as_deref(), Some("Kernel: 6.8"));
    assert_eq!(AssetSpecDisplay::ram_slots_display(&specs).as_deref(), Some("2 de 4 ranuras en uso"));
    assert_eq!(AssetSpecDisplay::storage_display(&specs), "C: (512 GB, 100 GB libres) • Disco (1000 GB)");
    assert_eq!(AssetSpecDisplay::network_ip_display(&specs), "10.0.0.2");
    assert_eq!(AssetSpecDisplay::network_mac_display(&specs), "-");
    assert_eq!(AssetSpecDisplay::network_interface_display(&specs).as_deref(), Some("Interfaz eth0"));
    assert_eq!(
        AssetSpecDisplay::softwares_list(&specs),
        vec![("Vim".to_string(), "9".to_string(), String::new())]
    );
    let empty = AssetSpecs { entries: vec![("cpu".to_string(), SpecEntry::Text("Xeon".to_string()))] };
    assert_eq!(AssetSpecDisplay::cpu_display(&empty), "Xeon");
    assert_eq!(AssetSpecDisplay::os_display(&empty), "No detectado");
    assert_eq!(AssetSpecDisplay::storage_display(&empty), "No especificado");
    assert_eq!(AssetSpecDisplay::cpu_cores_display(&empty), None);
}

#[test]
fn mail_tabs_filters_and_entities() {
    assert!(MailConfigTabs::is_smtp_tab(""));
    assert!(MailConfigTabs::is_queue_tab("queue"));
    assert!(!MailConfigTabs::is_templates_tab("receivers"));
    assert_eq!(clean_filter(Some("  open ")).as_deref(), Some("open"));
    assert_eq!(clean_filter(Some("   ")), None);
    assert_eq!(session_entity("not a uuid"), 0);
    assert_eq!(session_entity("00000000-0000-0000-0000-000000000010"), 16);
}

#[test]
fn survey_admin_rules() {
    let s = SurveyService::new_survey_settings(None, None, Some(false), None, Some(1));
    assert!(!s.is_default && s.is_active && !s.is_recursive);
    assert_eq!((s.ttl_days, s.allow_reentry), (15, 1));
    assert!(SurveyService::takes_default_role(true, false));
    assert!(!SurveyService::takes_default_role(true, true));
    assert_eq!(SurveyService::clone_name("CSAT", None), "CSAT (Copia)");
    assert_eq!(SurveyService::next_question_ranking(None, Some(30)), 40);
    assert_eq!(SurveyService::next_question_ranking(None, None), 10);
    let q = SurveyService::apply_question_change(
        QuestionAttributes {
            name: "Q".to_string(),
            question_type: "text".to_string(),
            is_mandatory: false,
            ranking: 10,
            condition_question_id: Some(3),
            condition_value: None,
        },
        QuestionChange {
            name: None,
            question_type: Some("nps".to_string()),
            is_mandatory: Some(true),
            ranking: None,
            condition_question_id: None,
            condition_value: Some("5".to_string()),
        },
    );
    assert_eq!((q.name.as_str(), q.question_type.as_str(), q.is_mandatory, q.ranking), ("Q", "nps", true, 10));
    assert_eq!((q.condition_question_id, q.condition_value.as_deref()), (Some(3), Some("5")));
    assert_eq!(SurveyService::condition_question(&[7, 8], Some(1)), Some(8));
    assert_eq!(SurveyService::condition_question(&[7, 8], Some(5)), None);
    assert_eq!(SurveyService::metrics_token_filter(false, false, false), "WHERE 1=1");
    assert_eq!(
        SurveyService::metrics_token_filter(true, false, true),
        "WHERE 1=1 AND survey_id = $1 AND created_at <= $2"
    );
    assert_eq!(
        SurveyService::metrics_token_filter(false, true, true),
        "WHERE 1=1 AND created_at >= $1 AND created_at <= $2"
    );
    let answers = vec![
        RecordedAnswer { question_type: "text".to_string(), answer: Some("x".to_string()) },
        RecordedAnswer { question_type: "rating5".to_string(), answer: Some("4".to_string()) },
        RecordedAnswer { question_type: "nps".to_string(), answer: None },
        RecordedAnswer { question_type: "nps".to_string(), answer: Some("9".to_string()) },
    ];
    assert_eq!(SurveyService::first_numeric_answer(&answers, "rating5"), Some(4));
    assert_eq!(SurveyService::first_numeric_answer(&answers, "nps"), None);
}
