use itilsuite::numbers::{int_string, parse_i32};
use itilsuite::web::forms::{CreateRuleWebForm, SmtpSettingsForm, UpdateChatSettingsWebForm};
use itilsuite::web::helpers::{
    campaigns_notice, followup_item_type, get_user_initials, is_checked, paging, parse_tags, url_decode,
};

#[test]
fn initials_of_display_names() {
    assert_eq!(get_user_initials("juan pérez garcía"), "JP");
    assert_eq!(get_user_initials("  ana  "), "A");
    assert_eq!(get_user_initials("   "), "AD");
    assert_eq!(get_user_initials(""), "AD");
}

#[test]
fn url_decoding() {
    assert_eq!(url_decode("a+b%20c"), "a b c");
    assert_eq!(url_decode("100%"), "100\u{0}");
    assert_eq!(url_decode("%zz"), "%zz");
    assert_eq!(url_decode("%+5"), "\u{5}");
    assert_eq!(url_decode("%4"), "@");
    assert_eq!(url_decode("plain"), "plain");
    assert_eq!(url_decode("%C3%A9"), "Ã©");
}

#[test]
fn percent_encoding() {
    assert_eq!(
        campaigns_notice("contacts", true, "a b/ñ~"),
        "/campaigns?tab=contacts&error=a%20b%2F%C3%B1~"
    );
    assert_eq!(
        campaigns_notice("campaigns", false, "Campaña despachada exitosamente a 3 contactos"),
        "/campaigns?tab=campaigns&message=Campa%C3%B1a%20despachada%20exitosamente%20a%203%20contactos"
    );
}

#[test]
fn paging_rules() {
    let p = paging(None, None, 0);
    assert_eq!((p.limit, p.page, p.offset, p.total_pages), (20, 1, 0, 1));
    let p = paging(Some(1000), Some(3), 250);
    assert_eq!((p.limit, p.page, p.offset, p.total_pages), (100, 3, 200, 3));
    let p = paging(Some(1), Some(-4), 11);
    assert_eq!((p.limit, p.page, p.offset, p.total_pages), (5, 1, 0, 3));
}

#[test]
fn form_helpers() {
    assert!(is_checked(Some("on")));
    assert!(!is_checked(Some("yes")));
    assert_eq!(followup_item_type(Some("task")), "task");
    assert_eq!(followup_item_type(Some("other")), "followup");
    assert_eq!(parse_tags(" VIP, ,Partner ,"), vec!["vip".to_string(), "partner".to_string()]);
    assert_eq!(parse_tags(""), Vec::<String>::new());
}

#[test]
fn numbers_parse_like_rust() {
    assert_eq!(parse_i32("+7"), Some(7));
    assert_eq!(parse_i32("-2147483648"), Some(i32::MIN));
    assert_eq!(parse_i32("2147483648"), None);
    assert_eq!(parse_i32(" 1"), None);
    assert_eq!(parse_i32("-"), None);
    assert_eq!(parse_i32("99999999999999999999"), None);
    assert_eq!(int_string(-45), "-45");
    assert_eq!(int_string(i64::MIN), "-9223372036854775808");
}

#[test]
fn form_settings() {
    let form = CreateRuleWebForm {
        name: "n".to_string(),
        rule_type: "t".to_string(),
        description: None,
        ranking: None,
        match_logic: None,
        stop_on_first_match: Some("0".to_string()),
        criterion_field: "f".to_string(),
        criterion_operator: "equals".to_string(),
        criterion_pattern: "p".to_string(),
        action_type: "assign".to_string(),
        action_field: "g".to_string(),
        action_value: "v".to_string(),
    };
    let s = form.settings();
    assert_eq!((s.ranking, s.match_logic.as_str(), s.stop_on_first_match), (10, "AND", false));
    let chat = UpdateChatSettingsWebForm {
        launcher_color: None,
        bubble_color: Some("#000".to_string()),
        panel_width_px: Some(1000),
        max_attachment_size_mb: Some(0),
        ticket_conversion_enabled: Some("on".to_string()),
        allow_attachments: None,
        auto_notify_ticket_events: Some("true".to_string()),
    }
    .into_settings();
    assert_eq!(chat.launcher_color, "#eb4d3d");
    assert_eq!((chat.panel_width_px, chat.max_attachment_size_mb), (600, 1));
    assert!(chat.ticket_conversion_enabled && !chat.allow_attachments && chat.auto_notify_ticket_events);
    let smtp = SmtpSettingsForm {
        notifications_enabled: Some("on".to_string()),
        email_followups_enabled: Some("true".to_string()),
        from_name: None,
        from_email: None,
        reply_to_email: None,
        admin_name: None,
        admin_email: None,
        smtp_host: None,
        smtp_port: None,
        smtp_encryption: None,
        smtp_username: None,
        smtp_password: None,
        subject_prefix: None,
        email_signature: None,
        max_retries: None,
        retry_interval_minutes: None,
    }
    .into_settings();
    assert!(!smtp.notifications_enabled && smtp.email_followups_enabled);
    assert_eq!((smtp.smtp_port, smtp.subject_prefix.as_str()), (1025, "[ITILSuite]"));
}
