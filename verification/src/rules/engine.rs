use vstd::prelude::*;

use crate::rules::fields::FieldMap;
use crate::rules::model::{
    ActionEvaluationResult, CriteriaEvaluationResult, EvaluatedRuleStep, RuleAction, RuleCriteria,
    RuleWithDetails,
};
use crate::rules::patterns::{
    ip_addr_from_text, ip_net_from_text, net_contains, parse_ip_addr, parse_ip_net, regex_captures,
    regex_compiles, regex_first_captures, regex_is_match, subnet_contains,
};
use crate::text::{
    chars_are, chars_contain, chars_occur_at, occurs_at, chars_end_with, chars_eq_ignore_ascii_case, chars_of,
    chars_start_with, contains, decimal, push_char, push_decimal, ends_with, eq_ignore_ascii_case,
    lowercase_text, replace_all, replace_chars, starts_with, string_of, to_lowercase, trim,
    trim_chars, trimmed,
};

verus! {

broadcast use vstd::string::group_string_axioms;

/// The operators a criterion can use.
#[derive(Clone, Copy, Debug, PartialEq, Eq, Structural)]
pub enum CriterionOperator {
    Equals,
    NotEquals,
    Contains,
    NotContains,
    StartsWith,
    EndsWith,
    RegexMatch,
    RegexNotMatch,
    IsEmpty,
    IsNotEmpty,
    InSubnet,
    Unknown,
}

/// The operator that a criterion's operator name selects; `is` and `is_not` are other
/// names of `equals` and `not_equals`.
pub open spec fn operator_kind(op: Seq<char>) -> CriterionOperator {
    if op == "equals"@ || op == "is"@ {
        CriterionOperator::Equals
    } else if op == "not_equals"@ || op == "is_not"@ {
        CriterionOperator::NotEquals
    } else if op == "contains"@ {
        CriterionOperator::Contains
    } else if op == "not_contains"@ {
        CriterionOperator::NotContains
    } else if op == "starts_with"@ {
        CriterionOperator::StartsWith
    } else if op == "ends_with"@ {
        CriterionOperator::EndsWith
    } else if op == "regex_match"@ {
        CriterionOperator::RegexMatch
    } else if op == "regex_not_match"@ {
        CriterionOperator::RegexNotMatch
    } else if op == "is_empty"@ {
        CriterionOperator::IsEmpty
    } else if op == "is_not_empty"@ {
        CriterionOperator::IsNotEmpty
    } else if op == "in_subnet"@ {
        CriterionOperator::InSubnet
    } else {
        CriterionOperator::Unknown
    }
}

/// The text of a capture group; a group that took no part in the match reads as empty.
pub open spec fn group_text(g: Option<Seq<char>>) -> Seq<char> {
    match g {
        Some(t) => t,
        None => Seq::empty(),
    }
}

/// The value a criterion compares: the field's value, or the empty text when the field is
/// not set, without surrounding whitespace.
pub open spec fn compared_value(actual: Option<Seq<char>>) -> Seq<char> {
    trim(
        match actual {
            Some(s) => s,
            None => Seq::empty(),
        },
    )
}

/// Whether a criterion holds, and the capture groups it yields, for the value `actual` of
/// its field. Only `regex_match` yields groups. Text comparisons ignore surrounding
/// whitespace of value and pattern; `equals` ignores ASCII case and the substring tests
/// compare lower-case forms. An unknown operator, an invalid regular expression and an
/// unparsable address or network never match.
pub open spec fn criterion_result(actual: Option<Seq<char>>, operator: Seq<char>, pattern: Seq<
    char,
>) -> (bool, Seq<Seq<char>>) {
    let a = compared_value(actual);
    let p = trim(pattern);
    let none = Seq::<Seq<char>>::empty();
    match operator_kind(operator) {
        CriterionOperator::Equals => (eq_ignore_ascii_case(a, p), none),
        CriterionOperator::NotEquals => (!eq_ignore_ascii_case(a, p), none),
        CriterionOperator::Contains => (contains(lowercase_text(a), lowercase_text(p)), none),
        CriterionOperator::NotContains => (!contains(lowercase_text(a), lowercase_text(p)), none),
        CriterionOperator::StartsWith => (starts_with(lowercase_text(a), lowercase_text(p)), none),
        CriterionOperator::EndsWith => (ends_with(lowercase_text(a), lowercase_text(p)), none),
        CriterionOperator::RegexMatch => if regex_compiles(pattern) {
            match regex_first_captures(pattern, a) {
                Some(gs) => (true, gs.map_values(|g: Option<Seq<char>>| group_text(g))),
                None => (false, none),
            }
        } else {
            (false, none)
        },
        CriterionOperator::RegexNotMatch => if regex_compiles(pattern) {
            (regex_first_captures(pattern, a) is None, none)
        } else {
            (false, none)
        },
        CriterionOperator::IsEmpty => (a.len() == 0, none),
        CriterionOperator::IsNotEmpty => (a.len() != 0, none),
        CriterionOperator::InSubnet => match (ip_addr_from_text(a), ip_net_from_text(p)) {
            (Some(ip), Some(net)) => (net_contains(net, ip), none),
            _ => (false, none),
        },
        CriterionOperator::Unknown => (false, none),
    }
}

/// An optional borrowed text by its view.
pub open spec fn opt_str(o: Option<&str>) -> Option<Seq<char>> {
    match o {
        Some(s) => Some(s@),
        None => None,
    }
}

/// The value of `key` in `fields`, if it is set.
pub open spec fn lookup(fields: Map<Seq<char>, Seq<char>>, key: Seq<char>) -> Option<Seq<char>> {
    if fields.dom().contains(key) {
        Some(fields[key])
    } else {
        None
    }
}

/// How criterion `c` fares against `fields`.
pub open spec fn criterion_on(c: RuleCriteria, fields: Map<Seq<char>, Seq<char>>) -> (
    bool,
    Seq<Seq<char>>,
) {
    criterion_result(lookup(fields, c.field@), c.operator@, c.pattern@)
}

/// How many of the first `n` criteria hold.
pub open spec fn matched_count(cs: Seq<RuleCriteria>, fields: Map<Seq<char>, Seq<char>>, n: int) -> nat
    decreases n,
{
    if n <= 0 {
        0
    } else {
        matched_count(cs, fields, n - 1) + if criterion_on(cs[n - 1], fields).0 {
            1nat
        } else {
            0nat
        }
    }
}

/// The capture groups of the last of the first `n` criteria that holds and yields groups;
/// none if there is no such criterion.
pub open spec fn last_captures(cs: Seq<RuleCriteria>, fields: Map<Seq<char>, Seq<char>>, n: int) -> Seq<
    Seq<char>,
>
    decreases n,
{
    if n <= 0 {
        Seq::empty()
    } else if criterion_on(cs[n - 1], fields).0 && criterion_on(cs[n - 1], fields).1.len() > 0 {
        criterion_on(cs[n - 1], fields).1
    } else {
        last_captures(cs, fields, n - 1)
    }
}

/// Whether a rule matches `fields`: a rule without criteria always does; with match logic
/// `OR` (in any case) when some criterion holds; otherwise when all hold.
pub open spec fn rule_matches(item: RuleWithDetails, fields: Map<Seq<char>, Seq<char>>) -> bool {
    let n = item.criteria@.len();
    if n == 0 {
        true
    } else if eq_ignore_ascii_case(item.rule.match_logic@, "OR"@) {
        matched_count(item.criteria@, fields, n as int) > 0
    } else {
        matched_count(item.criteria@, fields, n as int) == n
    }
}

/// The capture groups that a rule's actions see.
pub open spec fn rule_captures(item: RuleWithDetails, fields: Map<Seq<char>, Seq<char>>) -> Seq<
    Seq<char>,
> {
    last_captures(item.criteria@, fields, item.criteria@.len() as int)
}

/// The placeholder of capture group `i`: `$` and the decimal number.
pub open spec fn placeholder(i: nat) -> Seq<char> {
    seq!['$'] + decimal(i)
}

/// Whether the placeholder of a group after `i` and before `n` begins `s`: there the
/// longer placeholder is meant (with eleven groups, `$10` is group 10, not group 1).
pub open spec fn longer_group_at(s: Seq<char>, i: nat, n: nat) -> bool {
    exists|j: nat| i < j < n && #[trigger] occurs_at(s, placeholder(j), 0)
}

/// `s` with every occurrence of the placeholder of group `i`, scanning from the left,
/// replaced by `rep`, except where the placeholder of a later group among `n` begins.
pub open spec fn replace_group(s: Seq<char>, i: nat, rep: Seq<char>, n: nat) -> Seq<char>
    decreases s.len(),
{
    if s.len() == 0 {
        s
    } else if occurs_at(s, placeholder(i), 0) && !longer_group_at(s, i, n) {
        rep + replace_group(s.skip(placeholder(i).len() as int), i, rep, n)
    } else {
        seq![s[0]] + replace_group(s.drop_first(), i, rep, n)
    }
}

/// `template` after replacing the placeholders of groups `0` up to `k - 1`, in that order,
/// each in what the previous replacements left.
pub open spec fn resolve_up(template: Seq<char>, captures: Seq<Seq<char>>, k: nat) -> Seq<char>
    decreases k,
{
    if k == 0 {
        template
    } else {
        replace_group(
            resolve_up(template, captures, (k - 1) as nat),
            (k - 1) as nat,
            captures[k - 1],
            captures.len(),
        )
    }
}

/// An action value with its placeholders `$0` ... `$N` replaced by the capture groups,
/// group by group from `$0` up, each at all its occurrences in the text so far; a
/// placeholder that begins the placeholder of a later group (`$1` in `$10` when there are
/// eleven groups) is left for that group.
pub open spec fn resolved_value(template: Seq<char>, captures: Seq<Seq<char>>) -> Seq<char> {
    resolve_up(template, captures, captures.len())
}

/// `fields` after the first `n` actions, with `captures` for their placeholders.
pub open spec fn apply_actions(
    acts: Seq<RuleAction>,
    captures: Seq<Seq<char>>,
    fields: Map<Seq<char>, Seq<char>>,
    n: int,
) -> Map<Seq<char>, Seq<char>>
    decreases n,
{
    if n <= 0 {
        fields
    } else {
        apply_actions(acts, captures, fields, n - 1).insert(
            acts[n - 1].field@,
            resolved_value(acts[n - 1].value@, captures),
        )
    }
}

/// `fields` after a rule: its actions applied if it matches, unchanged otherwise.
pub open spec fn after_rule(item: RuleWithDetails, fields: Map<Seq<char>, Seq<char>>) -> Map<
    Seq<char>,
    Seq<char>,
> {
    if rule_matches(item, fields) {
        apply_actions(item.actions@, rule_captures(item, fields), fields, item.actions@.len() as int)
    } else {
        fields
    }
}

/// Whether a rule ends the pipeline: it matches and is marked to stop on a match.
pub open spec fn halts(item: RuleWithDetails, fields: Map<Seq<char>, Seq<char>>) -> bool {
    rule_matches(item, fields) && item.rule.stop_on_first_match
}

/// The fields that rule `i` sees when the rules before it all ran.
pub open spec fn fields_before(
    rules: Seq<RuleWithDetails>,
    input: Map<Seq<char>, Seq<char>>,
    i: int,
) -> Map<Seq<char>, Seq<char>>
    decreases i,
{
    if i <= 0 {
        input
    } else {
        after_rule(rules[i - 1], fields_before(rules, input, i - 1))
    }
}

/// Whether rule `i` ends the pipeline when it runs.
pub open spec fn halts_at(rules: Seq<RuleWithDetails>, input: Map<Seq<char>, Seq<char>>, i: int) -> bool {
    halts(rules[i], fields_before(rules, input, i))
}

/// How many rules run from rule `i` on: up to and including the first that ends the
/// pipeline, or all of them.
pub open spec fn rules_run_from(rules: Seq<RuleWithDetails>, input: Map<Seq<char>, Seq<char>>, i: int) -> nat
    decreases rules.len() - i,
{
    if i < 0 || i >= rules.len() {
        rules.len()
    } else if halts_at(rules, input, i) {
        (i + 1) as nat
    } else {
        rules_run_from(rules, input, i + 1)
    }
}

/// How many rules a pipeline runs.
pub open spec fn rules_run(rules: Seq<RuleWithDetails>, input: Map<Seq<char>, Seq<char>>) -> nat {
    rules_run_from(rules, input, 0)
}

/// The record of criterion `c` evaluated against `fields`.
pub open spec fn records_criterion(
    r: CriteriaEvaluationResult,
    c: RuleCriteria,
    fields: Map<Seq<char>, Seq<char>>,
) -> bool {
    &&& r.field@ == c.field@
    &&& r.operator@ == c.operator@
    &&& r.pattern@ == c.pattern@
    &&& crate::rules::patterns::opt_text(r.actual_value) == lookup(fields, c.field@)
    &&& r.matched == criterion_on(c, fields).0
}

/// The record of action `a` run with `captures`.
pub open spec fn records_action(r: ActionEvaluationResult, a: RuleAction, captures: Seq<Seq<char>>) -> bool {
    &&& r.action_type@ == a.action_type@
    &&& r.field@ == a.field@
    &&& r.computed_value@ == resolved_value(a.value@, captures)
}

/// The record of rule `item` evaluated against `fields`: its identity, whether it matched,
/// each criterion, the actions that ran (all of them when it matched, none otherwise) and
/// whether it ended the pipeline.
pub open spec fn records_rule(
    step: EvaluatedRuleStep,
    item: RuleWithDetails,
    fields: Map<Seq<char>, Seq<char>>,
) -> bool {
    &&& step.rule_id == item.rule.id
    &&& step.rule_name@ == item.rule.name@
    &&& step.ranking == item.rule.ranking
    &&& step.matched == rule_matches(item, fields)
    &&& step.stopped_pipeline == halts(item, fields)
    &&& step.criteria_results@.len() == item.criteria@.len()
    &&& forall|j: int|
        0 <= j < item.criteria@.len() ==> records_criterion(
            #[trigger] step.criteria_results@[j],
            item.criteria@[j],
            fields,
        )
    &&& step.actions_executed@.len() == if step.matched {
        item.actions@.len()
    } else {
        0
    }
    &&& forall|j: int|
        0 <= j < step.actions_executed@.len() ==> records_action(
            #[trigger] step.actions_executed@[j],
            item.actions@[j],
            rule_captures(item, fields),
        )
}

/// The rule engine: it evaluates criteria and runs ordered rule pipelines over text fields.
pub struct RuleEngine;

impl RuleEngine {
    /// The operator that `op` names.
    pub fn classify_operator(op: &str) -> (k: CriterionOperator)
        ensures
            k == operator_kind(op@),
    {
        let cs = chars_of(op);
        let c = cs.as_slice();
        if chars_are(c, "equals") || chars_are(c, "is") {
            CriterionOperator::Equals
        } else if chars_are(c, "not_equals") || chars_are(c, "is_not") {
            CriterionOperator::NotEquals
        } else if chars_are(c, "contains") {
            CriterionOperator::Contains
        } else if chars_are(c, "not_contains") {
            CriterionOperator::NotContains
        } else if chars_are(c, "starts_with") {
            CriterionOperator::StartsWith
        } else if chars_are(c, "ends_with") {
            CriterionOperator::EndsWith
        } else if chars_are(c, "regex_match") {
            CriterionOperator::RegexMatch
        } else if chars_are(c, "regex_not_match") {
            CriterionOperator::RegexNotMatch
        } else if chars_are(c, "is_empty") {
            CriterionOperator::IsEmpty
        } else if chars_are(c, "is_not_empty") {
            CriterionOperator::IsNotEmpty
        } else if chars_are(c, "in_subnet") {
            CriterionOperator::InSubnet
        } else {
            CriterionOperator::Unknown
        }
    }

    /// The lower-case characters of a text given as characters.
    fn lowered(cs: &[char]) -> (r: Vec<char>)
        ensures
            r@ == lowercase_text(cs@),
    {
        let s = string_of(cs);
        let l = to_lowercase(s.as_str());
        chars_of(l.as_str())
    }

    /// Evaluates one criterion against the value of its field (`None` when the field is
    /// not set). Returns whether it holds and, for `regex_match`, the capture groups.
    pub fn evaluate_criterion(actual_val_opt: Option<&str>, operator: &str, pattern: &str) -> (r: (
        bool,
        Vec<String>,
    ))
        ensures
            r.0 == criterion_result(opt_str(actual_val_opt), operator@, pattern@).0,
            r.1@.map_values(|s: String| s@) == criterion_result(
                opt_str(actual_val_opt),
                operator@,
                pattern@,
            ).1,
    {
        let raw: &str = match actual_val_opt {
            Some(s) => s,
            None => "",
        };
        proof {
            reveal_strlit("");
        }
        let actual = trim_chars(raw);
        assert(actual@ == compared_value(opt_str(actual_val_opt)));
        let no_groups: Vec<String> = Vec::new();
        assert(no_groups@.map_values(|s: String| s@) =~= Seq::<Seq<char>>::empty());
        match Self::classify_operator(operator) {
            CriterionOperator::Equals => {
                let p = trim_chars(pattern);
                (chars_eq_ignore_ascii_case(actual.as_slice(), p.as_slice()), no_groups)
            },
            CriterionOperator::NotEquals => {
                let p = trim_chars(pattern);
                (!chars_eq_ignore_ascii_case(actual.as_slice(), p.as_slice()), no_groups)
            },
            CriterionOperator::Contains => {
                let a = Self::lowered(actual.as_slice());
                let p = Self::lowered(trim_chars(pattern).as_slice());
                (chars_contain(a.as_slice(), p.as_slice()), no_groups)
            },
            CriterionOperator::NotContains => {
                let a = Self::lowered(actual.as_slice());
                let p = Self::lowered(trim_chars(pattern).as_slice());
                (!chars_contain(a.as_slice(), p.as_slice()), no_groups)
            },
            CriterionOperator::StartsWith => {
                let a = Self::lowered(actual.as_slice());
                let p = Self::lowered(trim_chars(pattern).as_slice());
                (chars_start_with(a.as_slice(), p.as_slice()), no_groups)
            },
            CriterionOperator::EndsWith => {
                let a = Self::lowered(actual.as_slice());
                let p = Self::lowered(trim_chars(pattern).as_slice());
                (chars_end_with(a.as_slice(), p.as_slice()), no_groups)
            },
            CriterionOperator::RegexMatch => {
                let hay = string_of(actual.as_slice());
                match regex_captures(pattern, hay.as_str()) {
                    Some(Some(groups)) => {
                        let texts = Self::group_texts(&groups);
                        (true, texts)
                    },
                    Some(None) => (false, no_groups),
                    None => (false, no_groups),
                }
            },
            CriterionOperator::RegexNotMatch => {
                let hay = string_of(actual.as_slice());
                match regex_is_match(pattern, hay.as_str()) {
                    Some(b) => (!b, no_groups),
                    None => (false, no_groups),
                }
            },
            CriterionOperator::IsEmpty => (actual.len() == 0, no_groups),
            CriterionOperator::IsNotEmpty => (actual.len() != 0, no_groups),
            CriterionOperator::InSubnet => {
                let hay = string_of(actual.as_slice());
                let net_text = trimmed(pattern);
                match (parse_ip_addr(hay.as_str()), parse_ip_net(net_text.as_str())) {
                    (Some(ip), Some(net)) => (subnet_contains(net, ip), no_groups),
                    _ => (false, no_groups),
                }
            },
            CriterionOperator::Unknown => (false, no_groups),
        }
    }

    /// The texts of capture groups, the empty text for a group that took no part.
    fn group_texts(groups: &Vec<Option<String>>) -> (r: Vec<String>)
        ensures
            r@.map_values(|s: String| s@) == groups@.map_values(
                |o: Option<String>| crate::rules::patterns::opt_text(o),
            ).map_values(|g: Option<Seq<char>>| group_text(g)),
    {
        let mut out: Vec<String> = Vec::new();
        let mut i: usize = 0;
        while i < groups.len()
            invariant
                i <= groups.len(),
                out.len() == i,
                forall|j: int|
                    0 <= j < i ==> (#[trigger] out@[j])@ == group_text(
                        crate::rules::patterns::opt_text(groups@[j]),
                    ),
            decreases groups.len() - i,
        {
            match &groups[i] {
                Some(t) => out.push(t.clone()),
                None => out.push(String::new()),
            }
            i = i + 1;
        }
        assert(out@.map_values(|s: String| s@) =~= groups@.map_values(
            |o: Option<String>| crate::rules::patterns::opt_text(o),
        ).map_values(|g: Option<Seq<char>>| group_text(g)));
        out
    }

    /// The characters of the placeholder of group `i`.
    fn placeholder_chars(i: usize) -> (r: Vec<char>)
        ensures
            r@ == placeholder(i as nat),
    {
        let mut ph = String::new();
        push_char(&mut ph, '$');
        push_decimal(&mut ph, i as u64);
        assert(ph@ =~= placeholder(i as nat));
        chars_of(ph.as_str())
    }

    /// Whether the placeholder of a group after `i` and before `n` begins at position `p`
    /// of `s`.
    fn longer_group_here(s: &[char], p: usize, i: usize, n: usize) -> (r: bool)
        requires
            p <= s@.len(),
        ensures
            r == longer_group_at(s@.skip(p as int), i as nat, n as nat),
    {
        let ghost t = s@.skip(p as int);
        let mut j: usize = i;
        while j < n && j + 1 < n
            invariant
                i <= j,
                j == i || j < n,
                p <= s@.len(),
                t == s@.skip(p as int),
                forall|m: nat| i < m <= j ==> !occurs_at(t, #[trigger] placeholder(m), 0),
            decreases n - j,
        {
            j = j + 1;
            let ph = Self::placeholder_chars(j);
            let here = chars_occur_at(s, ph.as_slice(), p);
            proof {
                if p + ph@.len() <= s@.len() {
                    assert(t.subrange(0, ph@.len() as int) =~= s@.subrange(p as int, p + ph@.len()));
                }
            }
            if here {
                assert(occurs_at(t, placeholder(j as nat), 0));
                return true;
            }
        }
        proof {
            assert forall|m: nat| i < m < n implies !occurs_at(t, #[trigger] placeholder(m), 0) by {
                assert(m <= j);
            }
        }
        false
    }

    /// `s` with the placeholder of group `i` replaced by `rep` (see `replace_group`).
    fn replace_group_chars(s: &[char], i: usize, rep: &[char], n: usize) -> (r: Vec<char>)
        ensures
            r@ == replace_group(s@, i as nat, rep@, n as nat),
    {
        let pat = Self::placeholder_chars(i);
        let mut out: Vec<char> = Vec::new();
        let mut p: usize = 0;
        assert(s@.skip(0) =~= s@);
        while p < s.len()
            invariant
                p <= s.len(),
                pat@ == placeholder(i as nat),
                pat@.len() > 0,
                out@ + replace_group(s@.skip(p as int), i as nat, rep@, n as nat) == replace_group(
                    s@,
                    i as nat,
                    rep@,
                    n as nat,
                ),
            decreases s.len() - p,
        {
            let ghost t = s@.skip(p as int);
            let at = chars_occur_at(s, pat.as_slice(), p);
            proof {
                if p + pat@.len() <= s@.len() {
                    assert(t.subrange(0, pat@.len() as int) =~= s@.subrange(p as int, p + pat@.len()));
                }
            }
            assert(at == occurs_at(t, placeholder(i as nat), 0));
            if at && !Self::longer_group_here(s, p, i, n) {
                assert(t.skip(pat@.len() as int) =~= s@.skip(p + pat@.len()));
                let ghost out0 = out@;
                let mut k: usize = 0;
                while k < rep.len()
                    invariant
                        k <= rep.len(),
                        out@ == out0 + rep@.take(k as int),
                    decreases rep.len() - k,
                {
                    out.push(rep[k]);
                    assert(out0 + rep@.take(k as int).push(rep@[k as int]) =~= out0 + rep@.take(
                        k + 1,
                    ));
                    k = k + 1;
                }
                assert(rep@.take(rep.len() as int) =~= rep@);
                assert(out0 + (rep@ + replace_group(t.skip(pat@.len() as int), i as nat, rep@, n as nat))
                    =~= out@ + replace_group(s@.skip(p + pat@.len()), i as nat, rep@, n as nat));
                p = p + pat.len();
            } else {
                assert(t.drop_first() =~= s@.skip(p + 1));
                let ghost out0 = out@;
                out.push(s[p]);
                assert(out0 + (seq![t[0]] + replace_group(t.drop_first(), i as nat, rep@, n as nat))
                    =~= out@ + replace_group(s@.skip(p + 1), i as nat, rep@, n as nat));
                p = p + 1;
            }
        }
        assert(s@.skip(p as int) =~= Seq::<char>::empty());
        assert(out@ + Seq::<char>::empty() =~= out@);
        out
    }

    /// `template` with its placeholders `$0` ... `$N` replaced by the captured groups
    /// (see `resolved_value`): group by group from `$0` up, so that a placeholder brought
    /// in by an earlier group is itself replaced by its later group, while `$10` stands
    /// for group 10 and not for group 1 followed by `0` when there are eleven groups.
    pub fn resolve_action_value(template: &str, captures: &[String]) -> (r: String)
        ensures
            r@ == resolved_value(template@, captures@.map_values(|s: String| s@)),
    {
        let ghost caps = captures@.map_values(|s: String| s@);
        let mut result = chars_of(template);
        let n = captures.len();
        let mut i: usize = 0;
        while i < n
            invariant
                i <= n,
                n == captures@.len(),
                caps == captures@.map_values(|s: String| s@),
                result@ == resolve_up(template@, caps, i as nat),
            decreases n - i,
        {
            let capc = chars_of(captures[i].as_str());
            result = Self::replace_group_chars(result.as_slice(), i, capc.as_slice(), n);
            i = i + 1;
        }
        string_of(result.as_slice())
    }

    /// Runs one rule against `current`: evaluates its criteria, and when it matches,
    /// writes its actions' values. Returns the record of the evaluation.
    pub fn run_rule(item: &RuleWithDetails, current: &mut FieldMap) -> (step: EvaluatedRuleStep)
        ensures
            records_rule(step, *item, old(current)@),
            final(current)@ == after_rule(*item, old(current)@),
    {
        let ghost fields0 = current@;
        let cs = &item.criteria;
        let mut criteria_results: Vec<CriteriaEvaluationResult> = Vec::new();
        let mut all_captures: Vec<String> = Vec::new();
        let mut match_count: usize = 0;
        let mut i: usize = 0;
        assert(all_captures@.map_values(|s: String| s@) =~= Seq::<Seq<char>>::empty());
        while i < cs.len()
            invariant
                i <= cs.len(),
                current@ == fields0,
                match_count == matched_count(cs@, fields0, i as int),
                match_count <= i,
                all_captures@.map_values(|s: String| s@) == last_captures(cs@, fields0, i as int),
                criteria_results.len() == i,
                forall|j: int|
                    0 <= j < i ==> records_criterion(
                        #[trigger] criteria_results@[j],
                        cs@[j],
                        fields0,
                    ),
            decreases cs.len() - i,
        {
            let crit = &cs[i];
            let actual: Option<&String> = current.get(crit.field.as_str());
            let actual_str: Option<&str> = match actual {
                Some(v) => Some(v.as_str()),
                None => None,
            };
            assert(opt_str(actual_str) == lookup(fields0, crit.field@));
            let (matched, caps) = Self::evaluate_criterion(
                actual_str,
                crit.operator.as_str(),
                crit.pattern.as_str(),
            );
            if matched {
                match_count = match_count + 1;
                if caps.len() > 0 {
                    all_captures = caps;
                }
            }
            let actual_value: Option<String> = match actual {
                Some(v) => Some(v.clone()),
                None => None,
            };
            criteria_results.push(
                CriteriaEvaluationResult {
                    field: crit.field.clone(),
                    operator: crit.operator.clone(),
                    pattern: crit.pattern.clone(),
                    actual_value,
                    matched,
                },
            );
            i = i + 1;
        }
        let total_criteria = cs.len();
        let rule_matched = if total_criteria == 0 {
            true
        } else if chars_eq_ignore_ascii_case(
            chars_of(item.rule.match_logic.as_str()).as_slice(),
            chars_of("OR").as_slice(),
        ) {
            match_count > 0
        } else {
            match_count == total_criteria
        };
        let mut actions_executed: Vec<ActionEvaluationResult> = Vec::new();
        let mut stopped_pipeline = false;
        if rule_matched {
            let acts = &item.actions;
            let mut j: usize = 0;
            while j < acts.len()
                invariant
                    j <= acts.len(),
                    current@ == apply_actions(
                        acts@,
                        all_captures@.map_values(|s: String| s@),
                        fields0,
                        j as int,
                    ),
                    actions_executed.len() == j,
                    forall|m: int|
                        0 <= m < j ==> records_action(
                            #[trigger] actions_executed@[m],
                            acts@[m],
                            all_captures@.map_values(|s: String| s@),
                        ),
                decreases acts.len() - j,
            {
                let act = &acts[j];
                let computed_value = Self::resolve_action_value(
                    act.value.as_str(),
                    all_captures.as_slice(),
                );
                current.insert(act.field.clone(), computed_value.clone());
                actions_executed.push(
                    ActionEvaluationResult {
                        action_type: act.action_type.clone(),
                        field: act.field.clone(),
                        computed_value,
                    },
                );
                j = j + 1;
            }
            if item.rule.stop_on_first_match {
                stopped_pipeline = true;
            }
        }
        EvaluatedRuleStep {
            rule_id: item.rule.id,
            rule_name: item.rule.name.clone(),
            ranking: item.rule.ranking,
            matched: rule_matched,
            criteria_results,
            actions_executed,
            stopped_pipeline,
        }
    }

    /// Runs the rules in order over a copy of `input_fields`. Each rule sees the fields as
    /// the rules before it left them; a matching rule marked to stop on a match ends the
    /// pipeline. Returns the final fields and one record per rule that ran.
    pub fn evaluate_pipeline(rules: &[RuleWithDetails], input_fields: &FieldMap) -> (r: (
        FieldMap,
        Vec<EvaluatedRuleStep>,
    ))
        ensures
            r.1@.len() == rules_run(rules@, input_fields@),
            r.0@ == fields_before(rules@, input_fields@, r.1@.len() as int),
            forall|i: int|
                0 <= i < r.1@.len() ==> records_rule(
                    #[trigger] r.1@[i],
                    rules@[i],
                    fields_before(rules@, input_fields@, i),
                ),
    {
        let ghost input = input_fields@;
        let mut current = input_fields.duplicate();
        let mut steps: Vec<EvaluatedRuleStep> = Vec::new();
        let mut i: usize = 0;
        let mut stopped = false;
        while i < rules.len() && !stopped
            invariant
                i <= rules.len(),
                steps.len() == i,
                current@ == fields_before(rules@, input, i as int),
                forall|j: int|
                    0 <= j < i ==> records_rule(
                        #[trigger] steps@[j],
                        rules@[j],
                        fields_before(rules@, input, j),
                    ),
                forall|j: int| 0 <= j < i - 1 ==> !halts_at(rules@, input, j),
                !stopped ==> forall|j: int| 0 <= j < i ==> !halts_at(rules@, input, j),
                stopped ==> i > 0 && halts_at(rules@, input, i - 1),
            decreases rules.len() - i,
        {
            let step = Self::run_rule(&rules[i], &mut current);
            stopped = step.stopped_pipeline;
            steps.push(step);
            i = i + 1;
        }
        proof {
            if stopped {
                lemma_rules_run_from(rules@, input, 0, i - 1);
            } else {
                lemma_rules_run_from(rules@, input, 0, rules@.len() as int);
            }
        }
        (current, steps)
    }
}

proof fn lemma_rules_run_from(
    rules: Seq<RuleWithDetails>,
    input: Map<Seq<char>, Seq<char>>,
    i: int,
    k: int,
)
    requires
        0 <= i <= k <= rules.len(),
        forall|j: int| i <= j < k ==> !halts_at(rules, input, j),
        k == rules.len() || halts_at(rules, input, k),
    ensures
        rules_run_from(rules, input, i) == if k == rules.len() {
            rules.len()
        } else {
            (k + 1) as nat
        },
    decreases k - i,
{
    if i < k {
        lemma_rules_run_from(rules, input, i + 1, k);
    }
}

proof fn lemma_matched_count(cs: Seq<RuleCriteria>, fields: Map<Seq<char>, Seq<char>>, n: int)
    requires
        0 <= n <= cs.len(),
    ensures
        matched_count(cs, fields, n) <= n,
        matched_count(cs, fields, n) > 0 <==> exists|j: int|
            0 <= j < n && #[trigger] criterion_on(cs[j], fields).0,
        matched_count(cs, fields, n) == n <==> forall|j: int|
            0 <= j < n ==> #[trigger] criterion_on(cs[j], fields).0,
    decreases n,
{
    if n > 0 {
        lemma_matched_count(cs, fields, n - 1);
        if matched_count(cs, fields, n - 1) > 0 {
            let j = choose|j: int| 0 <= j < n - 1 && #[trigger] criterion_on(cs[j], fields).0;
            assert(0 <= j < n && criterion_on(cs[j], fields).0);
        }
        if criterion_on(cs[n - 1], fields).0 {
            assert(0 <= n - 1 < n && criterion_on(cs[n - 1], fields).0);
        }
        if forall|j: int| 0 <= j < n ==> #[trigger] criterion_on(cs[j], fields).0 {
            assert forall|j: int| 0 <= j < n - 1 implies #[trigger] criterion_on(cs[j], fields).0 by {
                assert(criterion_on(cs[j], fields).0);
            }
        }
    }
}

/// A rule without criteria matches whatever the fields hold: it is the catch-all of its
/// pipeline.
pub proof fn law_rule_without_criteria_matches(item: RuleWithDetails, fields: Map<Seq<char>, Seq<char>>)
    requires
        item.criteria@.len() == 0,
    ensures
        rule_matches(item, fields),
{
}

/// A rule whose match logic is `OR` (in any case) and which has criteria matches exactly
/// when at least one of its criteria holds.
pub proof fn law_or_rule_needs_one_criterion(item: RuleWithDetails, fields: Map<Seq<char>, Seq<char>>)
    requires
        item.criteria@.len() > 0,
        eq_ignore_ascii_case(item.rule.match_logic@, "OR"@),
    ensures
        rule_matches(item, fields) <==> exists|j: int|
            0 <= j < item.criteria@.len() && #[trigger] criterion_on(item.criteria@[j], fields).0,
{
    lemma_matched_count(item.criteria@, fields, item.criteria@.len() as int);
}

/// A rule with criteria whose match logic is anything but `OR` matches exactly when all of
/// its criteria hold.
pub proof fn law_and_rule_needs_every_criterion(
    item: RuleWithDetails,
    fields: Map<Seq<char>, Seq<char>>,
)
    requires
        item.criteria@.len() > 0,
        !eq_ignore_ascii_case(item.rule.match_logic@, "OR"@),
    ensures
        rule_matches(item, fields) <==> forall|j: int|
            0 <= j < item.criteria@.len() ==> #[trigger] criterion_on(item.criteria@[j], fields).0,
{
    lemma_matched_count(item.criteria@, fields, item.criteria@.len() as int);
}

/// A pipeline runs its rules in order until the first matching rule marked to stop on a
/// match, which is the last to run; when no rule stops it, every rule runs.
pub proof fn law_pipeline_stops_at_first_stopping_rule(
    rules: Seq<RuleWithDetails>,
    input: Map<Seq<char>, Seq<char>>,
)
    ensures
        rules_run(rules, input) <= rules.len(),
        forall|j: int| 0 <= j < rules_run(rules, input) - 1 ==> !#[trigger] halts_at(rules, input, j),
        rules_run(rules, input) < rules.len() ==> rules_run(rules, input) > 0 && halts_at(
            rules,
            input,
            rules_run(rules, input) - 1,
        ),
        (forall|j: int| 0 <= j < rules.len() ==> !#[trigger] halts_at(rules, input, j))
            ==> rules_run(rules, input) == rules.len(),
{
    lemma_rules_run_shape(rules, input, 0);
}

proof fn lemma_rules_run_shape(rules: Seq<RuleWithDetails>, input: Map<Seq<char>, Seq<char>>, i: int)
    requires
        0 <= i <= rules.len(),
    ensures
        i <= rules_run_from(rules, input, i) <= rules.len(),
        forall|j: int|
            i <= j < rules_run_from(rules, input, i) - 1 ==> !#[trigger] halts_at(rules, input, j),
        rules_run_from(rules, input, i) < rules.len() ==> rules_run_from(rules, input, i) > i
            && halts_at(rules, input, rules_run_from(rules, input, i) - 1),
        (forall|j: int| i <= j < rules.len() ==> !#[trigger] halts_at(rules, input, j))
            ==> rules_run_from(rules, input, i) == rules.len(),
    decreases rules.len() - i,
{
    if i < rules.len() && !halts_at(rules, input, i) {
        lemma_rules_run_shape(rules, input, i + 1);
    }
}

proof fn lemma_actions_keep_field(
    acts: Seq<RuleAction>,
    captures: Seq<Seq<char>>,
    fields: Map<Seq<char>, Seq<char>>,
    n: int,
    key: Seq<char>,
)
    requires
        0 <= n <= acts.len(),
        forall|j: int| 0 <= j < n ==> (#[trigger] acts[j]).field@ != key,
    ensures
        lookup(apply_actions(acts, captures, fields, n), key) == lookup(fields, key),
    decreases n,
{
    if n > 0 {
        lemma_actions_keep_field(acts, captures, fields, n - 1, key);
        assert(acts[n - 1].field@ != key);
    }
}

/// A field that no action of the rules that ran writes leaves the pipeline as it came in:
/// set to the same value, or not set.
pub proof fn law_unwritten_field_passes_through(
    rules: Seq<RuleWithDetails>,
    input: Map<Seq<char>, Seq<char>>,
    key: Seq<char>,
    n: int,
)
    requires
        0 <= n <= rules.len(),
        forall|i: int, j: int|
            0 <= i < n && 0 <= j < rules[i].actions@.len() ==> (#[trigger] rules[i].actions@[j]).field@
                != key,
    ensures
        lookup(fields_before(rules, input, n), key) == lookup(input, key),
    decreases n,
{
    if n > 0 {
        law_unwritten_field_passes_through(rules, input, key, n - 1);
        let item = rules[n - 1];
        let f = fields_before(rules, input, n - 1);
        if rule_matches(item, f) {
            assert forall|j: int| 0 <= j < item.actions@.len() implies (
            #[trigger] item.actions@[j]).field@ != key by {
                assert(rules[n - 1].actions@[j].field@ != key);
            }
            lemma_actions_keep_field(
                item.actions@,
                rule_captures(item, f),
                f,
                item.actions@.len() as int,
                key,
            );
        }
    }
}

/// Without capture groups an action value is written as it stands.
pub proof fn law_value_without_captures_is_unchanged(template: Seq<char>)
    ensures
        resolved_value(template, Seq::empty()) == template,
{
}

/// A matching rule's last action on a field decides the field's value after the rule.
pub proof fn law_last_action_on_field_wins(
    item: RuleWithDetails,
    fields: Map<Seq<char>, Seq<char>>,
    j: int,
)
    requires
        rule_matches(item, fields),
        0 <= j < item.actions@.len(),
        forall|m: int| j < m < item.actions@.len() ==> (#[trigger] item.actions@[m]).field@
            != item.actions@[j].field@,
    ensures
        lookup(after_rule(item, fields), item.actions@[j].field@) == Some(
            resolved_value(item.actions@[j].value@, rule_captures(item, fields)),
        ),
{
    lemma_last_write(
        item.actions@,
        rule_captures(item, fields),
        fields,
        item.actions@.len() as int,
        j,
    );
}

proof fn lemma_last_write(
    acts: Seq<RuleAction>,
    captures: Seq<Seq<char>>,
    fields: Map<Seq<char>, Seq<char>>,
    n: int,
    j: int,
)
    requires
        0 <= j < n <= acts.len(),
        forall|m: int| j < m < n ==> (#[trigger] acts[m]).field@ != acts[j].field@,
    ensures
        lookup(apply_actions(acts, captures, fields, n), acts[j].field@) == Some(
            resolved_value(acts[j].value@, captures),
        ),
    decreases n,
{
    if n - 1 > j {
        lemma_last_write(acts, captures, fields, n - 1, j);
        assert(acts[n - 1].field@ != acts[j].field@);
    }
}

/// The fields a pipeline leaves behind.
pub open spec fn pipeline_output(rules: Seq<RuleWithDetails>, input: Map<Seq<char>, Seq<char>>) -> Map<
    Seq<char>,
    Seq<char>,
> {
    fields_before(rules, input, rules_run(rules, input) as int)
}

/// The value a pipeline leaves in `key`, or `default` when it leaves the field unset.
pub open spec fn output_or(
    rules: Seq<RuleWithDetails>,
    input: Map<Seq<char>, Seq<char>>,
    key: Seq<char>,
    default: Seq<char>,
) -> Seq<char> {
    match lookup(pipeline_output(rules, input), key) {
        Some(v) => v,
        None => default,
    }
}

/// Runs `rules` over `input` and reads field `key` of the result.
pub fn pipeline_field(rules: &[RuleWithDetails], input: &FieldMap, key: &str) -> (r: Option<String>)
    ensures
        crate::rules::patterns::opt_text(r) == lookup(pipeline_output(rules@, input@), key@),
{
    let (output, _steps) = RuleEngine::evaluate_pipeline(rules, input);
    match output.get(key) {
        Some(v) => Some(v.clone()),
        None => None,
    }
}

/// Runs `rules` over `input` and reads field `key` of the result, `default` when unset.
pub fn pipeline_field_or(rules: &[RuleWithDetails], input: &FieldMap, key: &str, default: String) -> (r: String)
    ensures
        r@ == output_or(rules@, input@, key@, default@),
{
    match pipeline_field(rules, input, key) {
        Some(v) => v,
        None => default,
    }
}

proof fn lemma_operator_names()
    ensures
        "equals"@.len() == 6,
        "is"@.len() == 2,
        "not_equals"@.len() == 10,
        "is_not"@.len() == 6,
        "contains"@.len() == 8,
        "not_contains"@.len() == 12,
        "starts_with"@.len() == 11,
        "ends_with"@.len() == 9,
        "is_not"@ != "equals"@,
{
    reveal_strlit("equals");
    reveal_strlit("is");
    reveal_strlit("not_equals");
    reveal_strlit("is_not");
    reveal_strlit("contains");
    reveal_strlit("not_contains");
    reveal_strlit("starts_with");
    reveal_strlit("ends_with");
    assert("is_not"@[0] != "equals"@[0]);
}

/// The value and the pattern a text criterion compares, both trimmed and lower-cased.
pub open spec fn lowered_value(actual: Option<Seq<char>>) -> Seq<char> {
    lowercase_text(compared_value(actual))
}

/// The pattern a text criterion compares, trimmed and lower-cased.
pub open spec fn lowered_pattern(pattern: Seq<char>) -> Seq<char> {
    lowercase_text(trim(pattern))
}

/// `ends_with` holds exactly when the lower-cased value ends with the lower-cased pattern:
/// its last characters are the pattern's, whatever the value holds before them. It
/// yields no capture groups.
pub proof fn law_ends_with_criterion(actual: Option<Seq<char>>, pattern: Seq<char>)
    ensures
        ({
            let a = lowered_value(actual);
            let p = lowered_pattern(pattern);
            criterion_result(actual, "ends_with"@, pattern) == (p.len() <= a.len() && a.subrange(
                a.len() - p.len(),
                a.len() as int,
            ) == p, Seq::<Seq<char>>::empty())
        }),
{
    lemma_operator_names();
}

/// `starts_with` holds exactly when the lower-cased value begins with the lower-cased
/// pattern. It yields no capture groups.
pub proof fn law_starts_with_criterion(actual: Option<Seq<char>>, pattern: Seq<char>)
    ensures
        ({
            let a = lowered_value(actual);
            let p = lowered_pattern(pattern);
            criterion_result(actual, "starts_with"@, pattern) == (p.len() <= a.len()
                && a.subrange(0, p.len() as int) == p, Seq::<Seq<char>>::empty())
        }),
{
    lemma_operator_names();
}

/// `contains` holds exactly when the lower-cased pattern occurs at some position of the
/// lower-cased value. It yields no capture groups.
pub proof fn law_contains_criterion(actual: Option<Seq<char>>, pattern: Seq<char>)
    ensures
        ({
            let a = lowered_value(actual);
            let p = lowered_pattern(pattern);
            criterion_result(actual, "contains"@, pattern) == ((exists|i: int|
                0 <= i && i + p.len() <= a.len() && #[trigger] a.subrange(i, i + p.len()) == p),
            Seq::<Seq<char>>::empty())
        }),
{
    lemma_operator_names();
    let a = lowered_value(actual);
    let p = lowered_pattern(pattern);
    if contains(a, p) {
        let i = choose|i: int| #[trigger] crate::text::occurs_at(a, p, i);
        assert(a.subrange(i, i + p.len()) == p);
    }
    if exists|i: int| 0 <= i && i + p.len() <= a.len() && #[trigger] a.subrange(i, i + p.len()) == p {
        let i = choose|i: int| 0 <= i && i + p.len() <= a.len() && #[trigger] a.subrange(i, i + p.len()) == p;
        assert(crate::text::occurs_at(a, p, i));
    }
}

/// Each negated operator gives the opposite of its positive one: `not_contains` of
/// `contains`, `not_equals` and `is_not` of `equals`.
pub proof fn law_negated_criteria(actual: Option<Seq<char>>, pattern: Seq<char>)
    ensures
        criterion_result(actual, "not_contains"@, pattern).0 == !criterion_result(
            actual,
            "contains"@,
            pattern,
        ).0,
        criterion_result(actual, "not_equals"@, pattern).0 == !criterion_result(
            actual,
            "equals"@,
            pattern,
        ).0,
        criterion_result(actual, "is_not"@, pattern).0 == !criterion_result(actual, "is"@, pattern).0,
{
    lemma_operator_names();
}

/// `equals` (and `is`) holds exactly when the trimmed value and pattern have the same
/// length and agree at each position up to ASCII case.
pub proof fn law_equals_criterion(actual: Option<Seq<char>>, pattern: Seq<char>)
    ensures
        ({
            let a = compared_value(actual);
            let p = trim(pattern);
            &&& criterion_result(actual, "equals"@, pattern).0 == (a.len() == p.len() && forall|i: int|
                0 <= i < a.len() ==> #[trigger] crate::text::ascii_lower(a[i])
                    == crate::text::ascii_lower(p[i]))
            &&& criterion_result(actual, "is"@, pattern) == criterion_result(actual, "equals"@, pattern)
        }),
{
    lemma_operator_names();
}

proof fn lemma_more_operator_names()
    ensures
        "is_empty"@ != "equals"@ && "is_empty"@ != "is"@ && "is_empty"@ != "not_equals"@
            && "is_empty"@ != "is_not"@ && "is_empty"@ != "contains"@ && "is_empty"@ != "not_contains"@
            && "is_empty"@ != "starts_with"@ && "is_empty"@ != "ends_with"@ && "is_empty"@
            != "regex_match"@ && "is_empty"@ != "regex_not_match"@,
        "is_not_empty"@ != "equals"@ && "is_not_empty"@ != "is"@ && "is_not_empty"@ != "not_equals"@
            && "is_not_empty"@ != "is_not"@ && "is_not_empty"@ != "contains"@ && "is_not_empty"@
            != "not_contains"@ && "is_not_empty"@ != "starts_with"@ && "is_not_empty"@ != "ends_with"@
            && "is_not_empty"@ != "regex_match"@ && "is_not_empty"@ != "regex_not_match"@
            && "is_not_empty"@ != "is_empty"@,
        "regex_match"@ != "equals"@ && "regex_match"@ != "is"@ && "regex_match"@ != "not_equals"@
            && "regex_match"@ != "is_not"@ && "regex_match"@ != "contains"@ && "regex_match"@
            != "not_contains"@ && "regex_match"@ != "starts_with"@ && "regex_match"@ != "ends_with"@,
        "regex_not_match"@ != "equals"@ && "regex_not_match"@ != "is"@ && "regex_not_match"@
            != "not_equals"@ && "regex_not_match"@ != "is_not"@ && "regex_not_match"@ != "contains"@
            && "regex_not_match"@ != "not_contains"@ && "regex_not_match"@ != "starts_with"@
            && "regex_not_match"@ != "ends_with"@ && "regex_not_match"@ != "regex_match"@,
{
    lemma_operator_names();
    reveal_strlit("is_empty");
    reveal_strlit("is_not_empty");
    reveal_strlit("regex_match");
    reveal_strlit("regex_not_match");
    reveal_strlit("contains");
    reveal_strlit("not_contains");
    reveal_strlit("starts_with");
    assert("is_empty"@.len() == 8 && "is_not_empty"@.len() == 12 && "regex_match"@.len() == 11
        && "regex_not_match"@.len() == 15);
    assert("is_empty"@[0] != "contains"@[0]);
    assert("is_not_empty"@[0] != "not_contains"@[0]);
    assert("regex_match"@[0] != "starts_with"@[0]);
}

/// `is_empty` holds exactly when the value, trimmed, is empty (an unset field counts as
/// empty), and `is_not_empty` exactly when it is not.
pub proof fn law_emptiness_criteria(actual: Option<Seq<char>>, pattern: Seq<char>)
    ensures
        criterion_result(actual, "is_empty"@, pattern).0 == (compared_value(actual).len() == 0),
        criterion_result(actual, "is_not_empty"@, pattern).0 == !criterion_result(
            actual,
            "is_empty"@,
            pattern,
        ).0,
        actual is None ==> criterion_result(actual, "is_empty"@, pattern).0,
{
    lemma_more_operator_names();
    if actual is None {
        assert(compared_value(actual) =~= Seq::<char>::empty()) by {
            assert(trim(Seq::<char>::empty()) =~= Seq::<char>::empty()) by {
                reveal_with_fuel(crate::text::trim_start, 1);
                reveal_with_fuel(crate::text::trim_end, 1);
            }
        }
    }
}

/// For a pattern that compiles, `regex_not_match` gives the opposite of `regex_match`;
/// a pattern that does not compile satisfies neither.
pub proof fn law_regex_criteria_opposite(actual: Option<Seq<char>>, pattern: Seq<char>)
    ensures
        regex_compiles(pattern) ==> criterion_result(actual, "regex_not_match"@, pattern).0
            == !criterion_result(actual, "regex_match"@, pattern).0,
        !regex_compiles(pattern) ==> !criterion_result(actual, "regex_match"@, pattern).0
            && !criterion_result(actual, "regex_not_match"@, pattern).0,
{
    lemma_more_operator_names();
}

} // verus!
