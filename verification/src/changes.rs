use vstd::prelude::*;

use crate::receiver::{clamp, ticket_number_text, ReceiverService};
use crate::text::{chars_are, chars_of, join2};

verus! {

broadcast use vstd::string::group_string_axioms;

/// Whether a list filter value selects anything: it is given, not empty and not `all`.
pub open spec fn filter_applies(v: Option<Seq<char>>) -> bool {
    match v {
        Some(s) => s.len() > 0 && s != "all"@,
        None => false,
    }
}

/// An optional borrowed text by its view.
pub open spec fn opt_view(o: Option<&str>) -> Option<Seq<char>> {
    crate::rules::engine::opt_str(o)
}

/// A level given in a request, or a default, held within 1 to 5.
pub open spec fn level_or(v: Option<i32>, default: int) -> int {
    clamp(
        match v {
            Some(x) => x as int,
            None => default,
        },
        1,
        5,
    )
}

/// A text given in a request, or a default.
pub open spec fn text_or(v: Option<String>, default: Seq<char>) -> Seq<char> {
    match v {
        Some(s) => s@,
        None => default,
    }
}

/// The attributes of a new or updated record: urgency, impact and two texts.
#[derive(Clone, Debug)]
pub struct RecordAttributes {
    pub urgency: i32,
    pub impact: i32,
    pub first: String,
    pub second: String,
}

/// A level given in a request or a default, held within 1 to 5.
pub fn level_with_default(v: Option<i32>, default: i32) -> (r: i32)
    ensures
        r == level_or(v, default as int),
{
    let x = match v {
        Some(x) => x,
        None => default,
    };
    ReceiverService::clamp_level(x)
}

/// A text given in a request, or a default.
pub fn text_with_default(v: Option<String>, default: &str) -> (r: String)
    ensures
        r@ == text_or(v, default@),
{
    match v {
        Some(s) => s,
        None => default.to_string(),
    }
}

/// Whether a list filter value applies.
pub fn applies(v: Option<&str>) -> (r: bool)
    ensures
        r == filter_applies(opt_view(v)),
{
    match v {
        Some(s) => {
            let cs = chars_of(s);
            cs.len() > 0 && !chars_are(cs.as_slice(), "all")
        },
        None => false,
    }
}

/// The search pattern of a list: the text between `%` wildcards.
pub fn search_pattern(search: &str) -> (r: String)
    ensures
        r@ == "%"@ + search@ + "%"@,
{
    let s = join2("%", search);
    join2(s.as_str(), "%")
}

/// Change management.
pub struct ChangeService;

impl ChangeService {
    /// Urgency and impact (3 by default, held within 1 to 5), type (`normal` by default)
    /// and risk (`medium` by default) of a new change.
    pub fn new_change_attributes(
        urgency: Option<i32>,
        impact: Option<i32>,
        change_type: Option<String>,
        risk_level: Option<String>,
    ) -> (r: RecordAttributes)
        ensures
            r.urgency == level_or(urgency, 3),
            r.impact == level_or(impact, 3),
            r.first@ == text_or(change_type, "normal"@),
            r.second@ == text_or(risk_level, "medium"@),
    {
        RecordAttributes {
            urgency: level_with_default(urgency, 3),
            impact: level_with_default(impact, 3),
            first: text_with_default(change_type, "normal"),
            second: text_with_default(risk_level, "medium"),
        }
    }

    /// The number of the change that follows `count` changes: `RFC-YEAR-NNNN`.
    pub fn change_number(year: &str, count: i64) -> (r: String)
        requires
            count < i64::MAX,
        ensures
            r@ == ticket_number_text("RFC"@, year@, count + 1),
    {
        ReceiverService::ticket_number("RFC", year, count)
    }

    /// Urgency and impact of an updated change (the request's or the current ones, held
    /// within 1 to 5), its status, type and risk (the request's or the current ones).
    pub fn updated_change_attributes(
        urgency: Option<i32>,
        impact: Option<i32>,
        current_urgency: i32,
        current_impact: i32,
    ) -> (r: (i32, i32))
        ensures
            r.0 == level_or(urgency, current_urgency as int),
            r.1 == level_or(impact, current_impact as int),
    {
        (level_with_default(urgency, current_urgency), level_with_default(impact, current_impact))
    }

    /// Whether a change in `status` is closed: it is when closed or rejected.
    pub fn closes_change(status: &str) -> (r: bool)
        ensures
            r == (status@ == "closed"@ || status@ == "rejected"@),
    {
        let s = chars_of(status);
        chars_are(s.as_slice(), "closed") || chars_are(s.as_slice(), "rejected")
    }

    /// The filter conditions of the change list, each only when its filter applies.
    pub fn list_conditions(
        has_entity: bool,
        status: Option<&str>,
        change_type: Option<&str>,
        search: Option<&str>,
    ) -> (r: String)
        ensures
            r@ == (if has_entity {
                " AND c.entity_id = $1"@
            } else {
                Seq::empty()
            }) + (if filter_applies(opt_view(status)) {
                " AND c.status = $2"@
            } else {
                Seq::empty()
            }) + (if filter_applies(opt_view(change_type)) {
                " AND c.change_type = $3"@
            } else {
                Seq::empty()
            }) + (if search matches Some(s) && s@.len() > 0 {
                " AND (c.name ILIKE $4 OR c.change_number ILIKE $4 OR c.category ILIKE $4 OR c.implementation_plan ILIKE $4)"@
            } else {
                Seq::empty()
            }) + " ORDER BY c.priority DESC, c.created_at DESC LIMIT $5 OFFSET $6"@,
    {
        let mut sql = String::new();
        if has_entity {
            sql.append(" AND c.entity_id = $1");
        }
        if applies(status) {
            sql.append(" AND c.status = $2");
        }
        if applies(change_type) {
            sql.append(" AND c.change_type = $3");
        }
        let searching = match search {
            Some(s) => chars_of(s).len() > 0,
            None => false,
        };
        if searching {
            sql.append(
                " AND (c.name ILIKE $4 OR c.change_number ILIKE $4 OR c.category ILIKE $4 OR c.implementation_plan ILIKE $4)",
            );
        }
        sql.append(" ORDER BY c.priority DESC, c.created_at DESC LIMIT $5 OFFSET $6");
        assert(sql@ =~= (if has_entity {
            " AND c.entity_id = $1"@
        } else {
            Seq::empty()
        }) + (if filter_applies(opt_view(status)) {
            " AND c.status = $2"@
        } else {
            Seq::empty()
        }) + (if filter_applies(opt_view(change_type)) {
            " AND c.change_type = $3"@
        } else {
            Seq::empty()
        }) + (if search matches Some(s) && s@.len() > 0 {
            " AND (c.name ILIKE $4 OR c.change_number ILIKE $4 OR c.category ILIKE $4 OR c.implementation_plan ILIKE $4)"@
        } else {
            Seq::empty()
        }) + " ORDER BY c.priority DESC, c.created_at DESC LIMIT $5 OFFSET $6"@);
        sql
    }
}

/// Problem management and the known error database.
pub struct ProblemService;

impl ProblemService {
    /// Urgency and impact of a new problem: as requested (3 by default), held within 1 to 5.
    pub fn new_problem_levels(urgency: Option<i32>, impact: Option<i32>) -> (r: (i32, i32))
        ensures
            r.0 == level_or(urgency, 3),
            r.1 == level_or(impact, 3),
    {
        (level_with_default(urgency, 3), level_with_default(impact, 3))
    }

    /// The number of the problem that follows `count` problems: `PRB-YEAR-NNNN`.
    pub fn problem_number(year: &str, count: i64) -> (r: String)
        requires
            count < i64::MAX,
        ensures
            r@ == ticket_number_text("PRB"@, year@, count + 1),
    {
        ReceiverService::ticket_number("PRB", year, count)
    }

    /// The number of the known error article that follows `count` articles:
    /// `KEDB-YEAR-NNNN`.
    pub fn kedb_number(year: &str, count: i64) -> (r: String)
        requires
            count < i64::MAX,
        ensures
            r@ == ticket_number_text("KEDB"@, year@, count + 1),
    {
        ReceiverService::ticket_number("KEDB", year, count)
    }

    /// Whether an updated problem in `status` records a solution time (`resolved`) and a
    /// closing time (`closed`).
    pub fn status_stamps(status: &str) -> (r: (bool, bool))
        ensures
            r.0 == (status@ == "resolved"@),
            r.1 == (status@ == "closed"@),
    {
        let s = chars_of(status);
        (chars_are(s.as_slice(), "resolved"), chars_are(s.as_slice(), "closed"))
    }

    /// Whether writing a known error article for a problem in `status` marks it a known
    /// error: it does unless the problem is resolved or closed.
    pub fn becomes_known_error(status: &str) -> (r: bool)
        ensures
            r == !(status@ == "resolved"@ || status@ == "closed"@),
    {
        let s = chars_of(status);
        !(chars_are(s.as_slice(), "resolved") || chars_are(s.as_slice(), "closed"))
    }

    /// The texts of a known error article drawn from a problem: title (or "Workaround para:"
    /// and the problem's name), symptoms (or the problem's content), root cause (or "En
    /// análisis") and workaround (or a note that none is documented).
    pub fn kedb_texts(
        title: Option<String>,
        problem_name: &str,
        symptoms: Option<String>,
        content: &str,
        root_cause: Option<String>,
        workaround: Option<String>,
    ) -> (r: (String, String, String, String))
        ensures
            r.0@ == match title {
                Some(t) => t@,
                None => "Workaround para: "@ + problem_name@,
            },
            r.1@ == text_or(symptoms, content@),
            r.2@ == text_or(root_cause, "En análisis"@),
            r.3@ == text_or(workaround, "Procedimiento de mitigación no documentado aún"@),
    {
        let t = match title {
            Some(t) => t,
            None => join2("Workaround para: ", problem_name),
        };
        (
            t,
            text_with_default(symptoms, content),
            text_with_default(root_cause, "En análisis"),
            text_with_default(workaround, "Procedimiento de mitigación no documentado aún"),
        )
    }

    /// The kind and visibility of a followup: as requested, a public `followup` by default.
    pub fn followup_kind(item_type: Option<String>, is_private: Option<bool>) -> (r: (String, bool))
        ensures
            r.0@ == text_or(item_type, "followup"@),
            r.1 == match is_private {
                Some(p) => p,
                None => false,
            },
    {
        let p = match is_private {
            Some(p) => p,
            None => false,
        };
        (text_with_default(item_type, "followup"), p)
    }
}

} // verus!
