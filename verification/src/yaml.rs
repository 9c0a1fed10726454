//! YAML documents of string fields, written by `serde_yaml`.
//!
//! The items in this file state what the library relies on from `serde_yaml`;
//! Verus takes them on trust. They speak of mappings whose keys and values
//! are all strings, which [`mapping_holds_strings`] says of a mapping: the
//! empty mapping is one, inserting a string under a string keeps it one, and
//! the two functions that take a mapping ask for one.

use vstd::prelude::*;

verus! {

/// `serde_yaml::Mapping`: an insertion-ordered map from YAML values to YAML
/// values.
#[verifier::external_type_specification]
#[verifier::external_body]
pub struct ExMapping(serde_yaml::Mapping);

/// `serde_yaml::Error`: why a document could not be written.
#[verifier::external_type_specification]
#[verifier::external_body]
pub struct ExYamlError(serde_yaml::Error);

/// Whether every key and every value of the mapping is a YAML string.
pub uninterp spec fn mapping_holds_strings(mapping: serde_yaml::Mapping) -> bool;

/// The entries of a mapping whose keys and values are all strings, in the
/// order in which the mapping holds them.
pub uninterp spec fn mapping_entries(mapping: serde_yaml::Mapping) -> Seq<(Seq<char>, Seq<char>)>;

/// The text that `serde_yaml::to_string` gives for a mapping with these
/// string entries, or `None` where it reports an error.
pub uninterp spec fn yaml_document(entries: Seq<(Seq<char>, Seq<char>)>) -> Option<Seq<char>>;

/// Whether `key` is the key of some entry.
pub open spec fn has_key(entries: Seq<(Seq<char>, Seq<char>)>, key: Seq<char>) -> bool {
    exists|i: int| 0 <= i < entries.len() && (#[trigger] entries[i]).0 == key
}

/// The entries after `key` is set to `value`: an entry with that key keeps
/// its place and gets the new value, a new key goes to the end.
pub open spec fn with_entry(
    entries: Seq<(Seq<char>, Seq<char>)>,
    key: Seq<char>,
    value: Seq<char>,
) -> Seq<(Seq<char>, Seq<char>)> {
    if has_key(entries, key) {
        let i = choose|i: int| 0 <= i < entries.len() && (#[trigger] entries[i]).0 == key;
        entries.update(i, (key, value))
    } else {
        entries.push((key, value))
    }
}

/// `serde_yaml::Mapping::new` makes a mapping without entries.
pub assume_specification[ serde_yaml::Mapping::new ]() -> (mapping: serde_yaml::Mapping)
    ensures
        mapping_holds_strings(mapping),
        mapping_entries(mapping) == Seq::<(Seq<char>, Seq<char>)>::empty(),
;

/// Calls `serde_yaml::Mapping::insert` with a string key and a string value
/// on a mapping of strings, which stays one. The mapping is an `IndexMap`: a
/// key that is present keeps its position and only its value changes, a new
/// key is added last.
#[verifier::external_body]
pub(crate) fn mapping_insert(mapping: &mut serde_yaml::Mapping, key: &str, value: &str)
    requires
        mapping_holds_strings(*old(mapping)),
    ensures
        mapping_holds_strings(*final(mapping)),
        mapping_entries(*final(mapping)) == with_entry(
            mapping_entries(*old(mapping)),
            key@,
            value@,
        ),
{
    mapping.insert(
        serde_yaml::Value::String(key.to_string()),
        serde_yaml::Value::String(value.to_string()),
    );
}

/// Calls `serde_yaml::to_string` on a mapping of strings. The text depends
/// on the entries alone; the call may report an error.
#[verifier::external_body]
pub(crate) fn mapping_to_string(mapping: &serde_yaml::Mapping) -> (r: Result<
    String,
    serde_yaml::Error,
>)
    requires
        mapping_holds_strings(*mapping),
    ensures
        match r {
            Ok(text) => yaml_document(mapping_entries(*mapping)) == Some(text@),
            Err(_) => yaml_document(mapping_entries(*mapping)) is None,
        },
{
    serde_yaml::to_string(mapping)
}

} // verus!
