use itilsuite::rules::engine::{CriterionOperator, RuleEngine};
use itilsuite::rules::fields::FieldMap;
use itilsuite::rules::model::{Rule, RuleAction, RuleCriteria, RuleWithDetails};
use uuid::Uuid;

fn rule(id: u128, name: &str, ranking: i32, match_logic: &str, stop: bool) -> Rule {
    Rule {
        id,
        rule_type: "dict_manufacturer".to_string(),
        name: name.to_string(),
        description: None,
        is_active: true,
        ranking,
        match_logic: match_logic.to_string(),
        stop_on_first_match: stop,
        entity_id: None,
        is_recursive: true,
        created_at: 0,
        updated_at: 0,
    }
}

fn criterion(rule_id: u128, field: &str, operator: &str, pattern: &str) -> RuleCriteria {
    RuleCriteria {
        id: Uuid::new_v4().as_u128(),
        rule_id,
        field: field.to_string(),
        operator: operator.to_string(),
        pattern: pattern.to_string(),
        created_at: 0,
    }
}

fn action(rule_id: u128, field: &str, value: &str) -> RuleAction {
    RuleAction {
        id: Uuid::new_v4().as_u128(),
        rule_id,
        action_type: "assign".to_string(),
        field: field.to_string(),
        value: value.to_string(),
        created_at: 0,
    }
}

#[test]
fn test_match_criterion_operators() {
    // equals
    assert!(RuleEngine::evaluate_criterion(Some("hp"), "equals", "HP").0);
    assert!(!RuleEngine::evaluate_criterion(Some("Dell"), "equals", "HP").0);

    // contains
    assert!(RuleEngine::evaluate_criterion(Some("HP ProBook 450 G8"), "contains", "ProBook").0);
    assert!(!RuleEngine::evaluate_criterion(Some("HP ProBook 450 G8"), "contains", "ThinkPad").0);

    // regex_match with capture
    let (matched, caps) = RuleEngine::evaluate_criterion(
        Some("Windows 11 Pro 64-bit"),
        "regex_match",
        r"^Windows\s+(1[01])\s+(Pro|Enterprise)",
    );
    assert!(matched);
    assert_eq!(caps.get(1).map(|s| s.as_str()), Some("11"));
    assert_eq!(caps.get(2).map(|s| s.as_str()), Some("Pro"));

    // in_subnet CIDR check
    assert!(RuleEngine::evaluate_criterion(Some("192.168.1.50"), "in_subnet", "192.168.1.0/24").0);
    assert!(!RuleEngine::evaluate_criterion(Some("10.0.0.50"), "in_subnet", "192.168.1.0/24").0);

    // is_empty / is_not_empty
    assert!(RuleEngine::evaluate_criterion(None, "is_empty", "").0);
    assert!(RuleEngine::evaluate_criterion(Some(""), "is_empty", "").0);
    assert!(RuleEngine::evaluate_criterion(Some("valid_value"), "is_not_empty", "").0);
}

#[test]
fn test_resolve_action_value() {
    let caps = vec!["full".to_string(), "11".to_string(), "Enterprise".to_string()];
    let resolved = RuleEngine::resolve_action_value("Windows $1 $2", &caps);
    assert_eq!(resolved, "Windows 11 Enterprise");
}

#[test]
fn test_evaluate_pipeline_and_stop_on_first_match() {
    let rule1_id = Uuid::new_v4().as_u128();
    let rule2_id = Uuid::new_v4().as_u128();

    let r1 = RuleWithDetails {
        rule: rule(rule1_id, "Normalize HP", 10, "OR", true),
        criteria: vec![
            criterion(rule1_id, "raw_manufacturer", "contains", "Hewlett-Packard"),
            criterion(rule1_id, "raw_manufacturer", "equals", "HP Inc."),
        ],
        actions: vec![action(rule1_id, "normalized_manufacturer", "HP")],
    };

    let r2 = RuleWithDetails {
        rule: rule(rule2_id, "Fallback Rule", 20, "AND", false),
        criteria: vec![],
        actions: vec![action(rule2_id, "normalized_manufacturer", "Other")],
    };

    let rules = vec![r1, r2];

    let mut input = FieldMap::new();
    input.insert("raw_manufacturer".to_string(), "Hewlett-Packard".to_string());

    let (output, steps) = RuleEngine::evaluate_pipeline(&rules, &input);
    assert_eq!(output.get("normalized_manufacturer").map(|s| s.as_str()), Some("HP"));
    // Since r1 stopped on first match, step 2 should not have run
    assert_eq!(steps.len(), 1);
    assert!(steps[0].matched);
    assert!(steps[0].stopped_pipeline);
}

#[test]
fn operator_names_select_operators() {
    assert_eq!(RuleEngine::classify_operator("is"), CriterionOperator::Equals);
    assert_eq!(RuleEngine::classify_operator("is_not"), CriterionOperator::NotEquals);
    assert_eq!(RuleEngine::classify_operator("regex_not_match"), CriterionOperator::RegexNotMatch);
    assert_eq!(RuleEngine::classify_operator("bogus"), CriterionOperator::Unknown);
}

#[test]
fn criterion_trims_and_ignores_case() {
    assert!(RuleEngine::evaluate_criterion(Some("  hp  "), "is", " HP ").0);
    assert!(RuleEngine::evaluate_criterion(Some("Dell"), "not_equals", "HP").0);
    assert!(RuleEngine::evaluate_criterion(Some("ThinkPad T14"), "starts_with", "thinkpad").0);
    assert!(RuleEngine::evaluate_criterion(Some("ThinkPad T14"), "ends_with", "t14").0);
    assert!(RuleEngine::evaluate_criterion(Some("ThinkPad T14"), "not_contains", "Dell").0);
    assert!(!RuleEngine::evaluate_criterion(Some("x"), "unknown_op", "x").0);
}

#[test]
fn regex_criteria_edge_cases() {
    let (m, caps) = RuleEngine::evaluate_criterion(Some("abc"), "regex_match", "(");
    assert!(!m);
    assert!(caps.is_empty());
    assert!(!RuleEngine::evaluate_criterion(Some("abc"), "regex_not_match", "(").0);
    assert!(RuleEngine::evaluate_criterion(Some("abc"), "regex_not_match", "^z").0);
    let (m, caps) = RuleEngine::evaluate_criterion(Some("abc123"), "regex_match", "[a-z]+(?:([0-9]+)|([A-Z]+))");
    assert!(m);
    assert_eq!(caps, vec!["abc123".to_string(), "123".to_string(), String::new()]);
}

#[test]
fn subnet_criteria_cover_ipv6_and_bad_input() {
    assert!(RuleEngine::evaluate_criterion(Some("fd00::1"), "in_subnet", "fd00::/16").0);
    assert!(!RuleEngine::evaluate_criterion(Some("fd01::1"), "in_subnet", "fd00::/16").0);
    assert!(!RuleEngine::evaluate_criterion(Some("192.168.1.5"), "in_subnet", "fd00::/16").0);
    assert!(!RuleEngine::evaluate_criterion(Some("not-an-ip"), "in_subnet", "10.0.0.0/8").0);
    assert!(RuleEngine::evaluate_criterion(Some("8.8.8.8"), "in_subnet", "0.0.0.0/0").0);
    assert!(RuleEngine::evaluate_criterion(Some("10.1.2.3"), "in_subnet", " 10.1.2.3/32 ").0);
}

#[test]
fn resolve_replaces_every_occurrence_in_group_order() {
    let caps = vec!["x".to_string(), "y".to_string()];
    assert_eq!(RuleEngine::resolve_action_value("$1-$1-$0", &caps), "y-y-x");
    assert_eq!(RuleEngine::resolve_action_value("plain $1", &[]), "plain $1");
    let eleven: Vec<String> = ["a", "b", "c", "d", "e", "f", "g", "h", "i", "j", "k"]
        .iter()
        .map(|s| s.to_string())
        .collect();
    assert_eq!(RuleEngine::resolve_action_value("$10", &eleven), "k");
    assert_eq!(RuleEngine::resolve_action_value("$1/$10/$0", &eleven), "b/k/a");
    let two: Vec<String> = vec!["a".to_string(), "b".to_string()];
    assert_eq!(RuleEngine::resolve_action_value("$10", &two), "b0");
    let chained: Vec<String> = vec!["x".to_string(), "$2".to_string(), "Y".to_string()];
    assert_eq!(RuleEngine::resolve_action_value("$1", &chained), "Y");
    let back: Vec<String> = vec!["x".to_string(), "y".to_string(), "$1".to_string()];
    assert_eq!(RuleEngine::resolve_action_value("$2", &back), "$1");
}

#[test]
fn rule_without_criteria_is_catch_all_and_actions_use_captures() {
    let id = 7u128;
    let r = RuleWithDetails {
        rule: rule(id, "Windows", 1, "AND", false),
        criteria: vec![criterion(id, "raw_os_name", "regex_match", r"Windows (\d+)")],
        actions: vec![action(id, "normalized_os_name", "Windows $1")],
    };
    let fallback = RuleWithDetails {
        rule: rule(8, "Tag", 2, "and", false),
        criteria: vec![],
        actions: vec![action(8, "seen", "yes")],
    };
    let mut input = FieldMap::new();
    input.insert("raw_os_name".to_string(), "Microsoft Windows 11 Pro".to_string());
    let (out, steps) = RuleEngine::evaluate_pipeline(&[r, fallback], &input);
    assert_eq!(steps.len(), 2);
    assert_eq!(out.get("normalized_os_name").map(|s| s.as_str()), Some("Windows 11"));
    assert_eq!(out.get("seen").map(|s| s.as_str()), Some("yes"));
    assert_eq!(out.get("raw_os_name").map(|s| s.as_str()), Some("Microsoft Windows 11 Pro"));
    assert_eq!(steps[0].actions_executed[0].computed_value, "Windows 11");
    assert!(!steps[1].stopped_pipeline);
}

#[test]
fn and_rule_needs_all_criteria() {
    let r = RuleWithDetails {
        rule: rule(1, "both", 1, "AND", true),
        criteria: vec![criterion(1, "a", "equals", "1"), criterion(1, "b", "equals", "2")],
        actions: vec![action(1, "out", "hit")],
    };
    let mut input = FieldMap::new();
    input.insert("a".to_string(), "1".to_string());
    input.insert("b".to_string(), "3".to_string());
    let (out, steps) = RuleEngine::evaluate_pipeline(&[r], &input);
    assert!(!steps[0].matched);
    assert!(!steps[0].stopped_pipeline);
    assert!(steps[0].actions_executed.is_empty());
    assert_eq!(out.get("out"), None);
    assert_eq!(steps[0].criteria_results[0].actual_value.as_deref(), Some("1"));
    assert!(steps[0].criteria_results[0].matched);
    assert!(!steps[0].criteria_results[1].matched);
}

#[test]
fn field_map_insert_replaces() {
    let mut m = FieldMap::new();
    m.insert("k".to_string(), "1".to_string());
    m.insert("k".to_string(), "2".to_string());
    m.insert("j".to_string(), "3".to_string());
    assert_eq!(m.len(), 2);
    assert_eq!(m.get("k").map(|s| s.as_str()), Some("2"));
    assert_eq!(m.to_pairs(), vec![("k".to_string(), "2".to_string()), ("j".to_string(), "3".to_string())]);
}
