use vstd::prelude::*;

verus! {

/// A rule of the engine: its identity, its kind, its place in the evaluation order and how
/// its criteria combine. Identifiers are UUIDs held as 128-bit integers; times are Unix
/// timestamps in seconds.
#[derive(Clone, Debug)]
pub struct Rule {
    pub id: u128,
    pub rule_type: String,
    pub name: String,
    pub description: Option<String>,
    pub is_active: bool,
    pub ranking: i32,
    pub match_logic: String,
    pub stop_on_first_match: bool,
    pub entity_id: Option<u128>,
    pub is_recursive: bool,
    pub created_at: i64,
    pub updated_at: i64,
}

/// A condition of a rule: a field, an operator and a pattern.
#[derive(Clone, Debug)]
pub struct RuleCriteria {
    pub id: u128,
    pub rule_id: u128,
    pub field: String,
    pub operator: String,
    pub pattern: String,
    pub created_at: i64,
}

/// What a matching rule does: it sets `field` to `value`, in which `$0`, `$1`, ... stand
/// for the capture groups of the rule's last capturing criterion.
#[derive(Clone, Debug)]
pub struct RuleAction {
    pub id: u128,
    pub rule_id: u128,
    pub action_type: String,
    pub field: String,
    pub value: String,
    pub created_at: i64,
}

/// A rule with its criteria and actions, each in creation order.
#[derive(Clone, Debug)]
pub struct RuleWithDetails {
    pub rule: Rule,
    pub criteria: Vec<RuleCriteria>,
    pub actions: Vec<RuleAction>,
}

/// How one criterion fared in an evaluation.
#[derive(Clone, Debug)]
pub struct CriteriaEvaluationResult {
    pub field: String,
    pub operator: String,
    pub pattern: String,
    pub actual_value: Option<String>,
    pub matched: bool,
}

/// An action that ran, with the value it wrote.
#[derive(Clone, Debug)]
pub struct ActionEvaluationResult {
    pub action_type: String,
    pub field: String,
    pub computed_value: String,
}

/// The record of one rule evaluated in a pipeline.
#[derive(Clone, Debug)]
pub struct EvaluatedRuleStep {
    pub rule_id: u128,
    pub rule_name: String,
    pub ranking: i32,
    pub matched: bool,
    pub criteria_results: Vec<CriteriaEvaluationResult>,
    pub actions_executed: Vec<ActionEvaluationResult>,
    pub stopped_pipeline: bool,
}

} // verus!
