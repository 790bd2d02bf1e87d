use vstd::prelude::*;

use crate::ids::{parse_uuid, uuid_from_text};
use crate::rules::engine::{lookup, output_or, pipeline_field, pipeline_field_or, pipeline_output};
use crate::rules::fields::FieldMap;
use crate::rules::model::RuleWithDetails;
use crate::rules::engine::opt_str;
use crate::text::{trim, trimmed};

verus! {

broadcast use vstd::string::group_string_axioms;

/// `fields` with `key` set to the trimmed `value` when there is a value.
pub open spec fn with_optional(
    fields: Map<Seq<char>, Seq<char>>,
    key: Seq<char>,
    value: Option<Seq<char>>,
) -> Map<Seq<char>, Seq<char>> {
    match value {
        Some(v) => fields.insert(key, trim(v)),
        None => fields,
    }
}

/// The entity named by a pipeline's `entity_id` field, when that field holds a UUID.
pub open spec fn entity_from_output(output: Map<Seq<char>, Seq<char>>) -> Option<u128> {
    match lookup(output, "entity_id"@) {
        Some(text) => uuid_from_text(text),
        None => None,
    }
}

/// Sets `key` to the trimmed `value` when there is a value.
pub fn insert_optional(fields: &mut FieldMap, key: &str, value: Option<&str>)
    ensures
        final(fields)@ == with_optional(old(fields)@, key@, opt_str(value)),
{
    match value {
        Some(v) => fields.insert(key.to_string(), trimmed(v)),
        None => {},
    }
}

/// Reads the entity a pipeline assigns.
pub fn entity_of_pipeline(rules: &[RuleWithDetails], input: &FieldMap) -> (r: Option<u128>)
    ensures
        r == entity_from_output(pipeline_output(rules@, input@)),
{
    match pipeline_field(rules, input, "entity_id") {
        Some(text) => parse_uuid(text.as_str()),
        None => None,
    }
}

/// Rules on discovered equipment.
pub struct AssetRulesService;

impl AssetRulesService {
    /// The entity a discovered asset belongs to, by the `asset_entity` rules over its IP
    /// address, inventory tag, host name and domain (each trimmed, each only when known):
    /// the UUID the rules write into `entity_id`, if they write one that parses.
    pub fn evaluate_asset_entity(
        rules: &[RuleWithDetails],
        ip_address: Option<&str>,
        inventory_tag: Option<&str>,
        hostname: Option<&str>,
        domain: Option<&str>,
    ) -> (r: Option<u128>)
        ensures
            r == entity_from_output(
                pipeline_output(
                    rules@,
                    with_optional(
                        with_optional(
                            with_optional(
                                with_optional(Map::empty(), "ip_address"@, opt_str(ip_address)),
                                "inventory_tag"@,
                                opt_str(inventory_tag),
                            ),
                            "hostname"@,
                            opt_str(hostname),
                        ),
                        "domain"@,
                        opt_str(domain),
                    ),
                ),
            ),
    {
        let mut input = FieldMap::new();
        insert_optional(&mut input, "ip_address", ip_address);
        insert_optional(&mut input, "inventory_tag", inventory_tag);
        insert_optional(&mut input, "hostname", hostname);
        insert_optional(&mut input, "domain", domain);
        entity_of_pipeline(rules, &input)
    }

    /// The import decision for a discovered asset (`link_by_uuid`, `link_by_serial`,
    /// `link_by_mac`, `reject`, `trash`, `create_new`, ...), by the `asset_import_link`
    /// rules over its BIOS UUID, serial number, MAC address and host name (each trimmed,
    /// each only when known): the `reconciliation_decision` the rules write, `create_new`
    /// when they write none.
    pub fn evaluate_reconciliation_decision(
        rules: &[RuleWithDetails],
        bios_uuid: Option<&str>,
        serial_number: Option<&str>,
        mac_address: Option<&str>,
        hostname: Option<&str>,
    ) -> (r: String)
        ensures
            r@ == output_or(
                rules@,
                with_optional(
                    with_optional(
                        with_optional(
                            with_optional(Map::empty(), "bios_uuid"@, opt_str(bios_uuid)),
                            "serial_number"@,
                            opt_str(serial_number),
                        ),
                        "mac_address"@,
                        opt_str(mac_address),
                    ),
                    "hostname"@,
                    opt_str(hostname),
                ),
                "reconciliation_decision"@,
                "create_new"@,
            ),
    {
        let mut input = FieldMap::new();
        insert_optional(&mut input, "bios_uuid", bios_uuid);
        insert_optional(&mut input, "serial_number", serial_number);
        insert_optional(&mut input, "mac_address", mac_address);
        insert_optional(&mut input, "hostname", hostname);
        pipeline_field_or(rules, &input, "reconciliation_decision", "create_new".to_string())
    }
}

} // verus!
