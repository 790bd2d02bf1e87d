use vstd::prelude::*;

use crate::rules::engine::{fields_before, lookup, output_or, pipeline_field_or, rules_run};
use crate::rules::fields::FieldMap;
use crate::rules::model::RuleWithDetails;
use crate::text::{string_of, trim, trim_chars};

verus! {

broadcast use vstd::string::group_string_axioms;

/// The fields a dictionary pipeline starts from: one field holding the raw value.
pub open spec fn single_field(key: Seq<char>, value: Seq<char>) -> Map<Seq<char>, Seq<char>> {
    Map::empty().insert(key, value)
}

/// What a dictionary gives for a raw value: the output field the rules set, or the raw
/// value itself.
pub open spec fn dictionary_value(
    rules: Seq<RuleWithDetails>,
    in_key: Seq<char>,
    out_key: Seq<char>,
    raw: Seq<char>,
) -> Seq<char> {
    output_or(rules, single_field(in_key, raw), out_key, raw)
}

/// The rule type of the model dictionary for an asset category.
pub open spec fn model_dictionary(category: Seq<char>) -> Seq<char> {
    if category == "monitor"@ {
        "dict_monitor_model"@
    } else if category == "printer"@ {
        "dict_printer_model"@
    } else if category == "peripheral"@ {
        "dict_peripheral_model"@
    } else if category == "phone"@ {
        "dict_phone_model"@
    } else {
        "dict_computer_model"@
    }
}

/// Normalisation of raw inventory values through the dictionary rules.
pub struct DictionaryService;

impl DictionaryService {
    /// Runs a dictionary over a trimmed raw value.
    fn lookup_dictionary(rules: &[RuleWithDetails], in_key: &str, out_key: &str, raw: Vec<char>) -> (r: String)
        ensures
            r@ == dictionary_value(rules@, in_key@, out_key@, raw@),
    {
        let mut input = FieldMap::new();
        input.insert(in_key.to_string(), string_of(raw.as_slice()));
        assert(input@ =~= single_field(in_key@, raw@));
        pipeline_field_or(rules, &input, out_key, string_of(raw.as_slice()))
    }

    /// Normalises a hardware manufacturer with the `dict_manufacturer` rules (for example
    /// "Hewlett-Packard" to "HP"). A blank value is "Desconocido"; a value no rule maps
    /// stays as it came, trimmed.
    pub fn normalize_manufacturer(rules: &[RuleWithDetails], raw: &str) -> (r: String)
        ensures
            r@ == if trim(raw@).len() == 0 {
                "Desconocido"@
            } else {
                dictionary_value(rules@, "raw_manufacturer"@, "normalized_manufacturer"@, trim(raw@))
            },
    {
        let t = trim_chars(raw);
        if t.len() == 0 {
            return "Desconocido".to_string();
        }
        Self::lookup_dictionary(rules, "raw_manufacturer", "normalized_manufacturer", t)
    }

    /// Normalises an operating system's name, version and architecture, each with its own
    /// dictionary (`dict_os`, `dict_os_version`, `dict_os_architecture`); a value no rule
    /// maps stays as it came, trimmed.
    pub fn normalize_os(
        name_rules: &[RuleWithDetails],
        version_rules: &[RuleWithDetails],
        arch_rules: &[RuleWithDetails],
        raw_name: &str,
        raw_version: &str,
        raw_arch: &str,
    ) -> (r: (String, String, String))
        ensures
            r.0@ == dictionary_value(name_rules@, "raw_os_name"@, "normalized_os_name"@, trim(raw_name@)),
            r.1@ == dictionary_value(
                version_rules@,
                "raw_version"@,
                "normalized_version"@,
                trim(raw_version@),
            ),
            r.2@ == dictionary_value(arch_rules@, "raw_arch"@, "normalized_arch"@, trim(raw_arch@)),
    {
        let name = Self::lookup_dictionary(
            name_rules,
            "raw_os_name",
            "normalized_os_name",
            trim_chars(raw_name),
        );
        let version = Self::lookup_dictionary(
            version_rules,
            "raw_version",
            "normalized_version",
            trim_chars(raw_version),
        );
        let arch = Self::lookup_dictionary(
            arch_rules,
            "raw_arch",
            "normalized_arch",
            trim_chars(raw_arch),
        );
        (name, version, arch)
    }

    /// Normalises a software name with the `dict_software` rules. A blank name is the empty
    /// text; a name no rule maps stays as it came, trimmed.
    pub fn normalize_software(rules: &[RuleWithDetails], raw_sw: &str) -> (r: String)
        ensures
            r@ == if trim(raw_sw@).len() == 0 {
                Seq::<char>::empty()
            } else {
                dictionary_value(
                    rules@,
                    "raw_software_name"@,
                    "normalized_software_name"@,
                    trim(raw_sw@),
                )
            },
    {
        let t = trim_chars(raw_sw);
        if t.len() == 0 {
            return String::new();
        }
        Self::lookup_dictionary(rules, "raw_software_name", "normalized_software_name", t)
    }

    /// The dictionary that normalises models of an asset category: computers and servers
    /// (and any unknown category) use `dict_computer_model`.
    pub fn model_rule_type(category: &str) -> (r: String)
        ensures
            r@ == model_dictionary(category@),
    {
        let c = crate::text::chars_of(category);
        let cs = c.as_slice();
        if crate::text::chars_are(cs, "monitor") {
            "dict_monitor_model".to_string()
        } else if crate::text::chars_are(cs, "printer") {
            "dict_printer_model".to_string()
        } else if crate::text::chars_are(cs, "peripheral") {
            "dict_peripheral_model".to_string()
        } else if crate::text::chars_are(cs, "phone") {
            "dict_phone_model".to_string()
        } else {
            "dict_computer_model".to_string()
        }
    }

    /// Normalises a hardware model with the rules of its category's dictionary (see
    /// `model_rule_type`). A blank model is the empty text; a model no rule maps stays as it
    /// came, trimmed.
    pub fn normalize_model(rules: &[RuleWithDetails], raw_model: &str) -> (r: String)
        ensures
            r@ == if trim(raw_model@).len() == 0 {
                Seq::<char>::empty()
            } else {
                dictionary_value(rules@, "raw_model"@, "normalized_model"@, trim(raw_model@))
            },
    {
        let t = trim_chars(raw_model);
        if t.len() == 0 {
            return String::new();
        }
        Self::lookup_dictionary(rules, "raw_model", "normalized_model", t)
    }
}

/// A dictionary without rules gives every value back as it came.
pub proof fn law_empty_dictionary_keeps_values(in_key: Seq<char>, out_key: Seq<char>, raw: Seq<char>)
    requires
        in_key != out_key,
    ensures
        dictionary_value(Seq::empty(), in_key, out_key, raw) == raw,
{
    let input = single_field(in_key, raw);
    assert(rules_run(Seq::<RuleWithDetails>::empty(), input) == 0);
    assert(fields_before(Seq::<RuleWithDetails>::empty(), input, 0) == input);
    assert(lookup(input, out_key) is None);
}

/// When the first rule of a dictionary matches, stops the pipeline and maps the value, the
/// dictionary gives that rule's value.
pub proof fn law_first_stopping_rule_names_the_value(
    rules: Seq<RuleWithDetails>,
    in_key: Seq<char>,
    out_key: Seq<char>,
    raw: Seq<char>,
    j: int,
)
    requires
        rules.len() > 0,
        crate::rules::engine::rule_matches(rules[0], single_field(in_key, raw)),
        rules[0].rule.stop_on_first_match,
        0 <= j < rules[0].actions@.len(),
        rules[0].actions@[j].field@ == out_key,
        forall|m: int| j < m < rules[0].actions@.len() ==> (#[trigger] rules[0].actions@[m]).field@
            != out_key,
    ensures
        dictionary_value(rules, in_key, out_key, raw) == crate::rules::engine::resolved_value(
            rules[0].actions@[j].value@,
            crate::rules::engine::rule_captures(rules[0], single_field(in_key, raw)),
        ),
{
    let input = single_field(in_key, raw);
    assert(fields_before(rules, input, 0) == input);
    assert(crate::rules::engine::halts_at(rules, input, 0));
    assert(rules_run(rules, input) == 1);
    crate::rules::engine::law_last_action_on_field_wins(rules[0], input, j);
}

/// Each special asset category has a model dictionary of its own, named after it
/// (`dict_` + category + `_model`); every other category, computers and servers among
/// them, uses the computer dictionary.
pub proof fn law_model_dictionary_named_after_category(category: Seq<char>)
    ensures
        (category == "monitor"@ || category == "printer"@ || category == "peripheral"@ || category
            == "phone"@) ==> model_dictionary(category) == "dict_"@ + category + "_model"@,
        !(category == "monitor"@ || category == "printer"@ || category == "peripheral"@ || category
            == "phone"@) ==> model_dictionary(category) == "dict_"@ + "computer"@ + "_model"@,
{
    reveal_strlit("monitor");
    reveal_strlit("printer");
    reveal_strlit("peripheral");
    reveal_strlit("phone");
    reveal_strlit("computer");
    reveal_strlit("dict_");
    reveal_strlit("_model");
    reveal_strlit("dict_monitor_model");
    reveal_strlit("dict_printer_model");
    reveal_strlit("dict_peripheral_model");
    reveal_strlit("dict_phone_model");
    reveal_strlit("dict_computer_model");
    assert("monitor"@.len() == 7 && "printer"@.len() == 7 && "peripheral"@.len() == 10 && "phone"@.len()
        == 5);
    assert("monitor"@[0] != "printer"@[0]);
    assert("dict_"@ + "monitor"@ + "_model"@ =~= "dict_monitor_model"@);
    assert("dict_"@ + "printer"@ + "_model"@ =~= "dict_printer_model"@);
    assert("dict_"@ + "peripheral"@ + "_model"@ =~= "dict_peripheral_model"@);
    assert("dict_"@ + "phone"@ + "_model"@ =~= "dict_phone_model"@);
    assert("dict_"@ + "computer"@ + "_model"@ =~= "dict_computer_model"@);
}

/// Different special categories never share a model dictionary.
pub proof fn law_model_dictionaries_distinct(a: Seq<char>, b: Seq<char>)
    requires
        a == "monitor"@ || a == "printer"@ || a == "peripheral"@ || a == "phone"@,
        b == "monitor"@ || b == "printer"@ || b == "peripheral"@ || b == "phone"@,
        a != b,
    ensures
        model_dictionary(a) != model_dictionary(b),
{
    law_model_dictionary_named_after_category(a);
    law_model_dictionary_named_after_category(b);
    let da = "dict_"@ + a + "_model"@;
    let db = "dict_"@ + b + "_model"@;
    reveal_strlit("dict_");
    reveal_strlit("_model");
    assert("dict_"@.len() == 5 && "_model"@.len() == 6);
    assert(da.len() == 11 + a.len());
    assert(db.len() == 11 + b.len());
    if da == db {
        assert(a.len() == b.len());
        assert(a =~= da.subrange(5, 5 + a.len() as int));
        assert(b =~= db.subrange(5, 5 + b.len() as int));
    }
}

} // verus!
