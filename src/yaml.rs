//! A YAML document as a tree of plain values, read with `serde_yaml`.
use vstd::prelude::*;

verus! {

/// A YAML node. Numbers keep their text; a mapping keeps its entries in
/// document order.
#[derive(Debug)]
pub enum YamlValue {
    Null,
    Bool(bool),
    Number(String),
    Str(String),
    Sequence(Vec<YamlValue>),
    Mapping(Vec<(YamlValue, YamlValue)>),
}

#[verifier::external_type_specification]
#[verifier::external_body]
pub struct ExSerdeYamlValue(serde_yaml::Value);

/// The tree that `serde_yaml` reads from a text, or `None` where the text
/// is not well-formed YAML.
pub uninterp spec fn yaml_document(text: Seq<char>) -> Option<YamlValue>;

/// Relies on `serde_yaml::from_str` into a `serde_yaml::Value`: the tree
/// depends on the text alone; the error's message gives the location.
#[verifier::external_body]
pub(crate) fn load_document(text: &str) -> (r: Result<YamlValue, String>)
    ensures
        match r {
            Ok(v) => yaml_document(text@) == Some(v),
            Err(_) => yaml_document(text@) is None,
        },
{
    match serde_yaml::from_str::<serde_yaml::Value>(text) {
        Ok(v) => Ok(tree_of(v)),
        Err(e) => Err(e.to_string()),
    }
}

/// Relies on the variants of `serde_yaml::Value`: each moves into the node
/// of the same shape, a number as its text and a tagged node as its value.
#[verifier::external_body]
fn tree_of(v: serde_yaml::Value) -> YamlValue {
    match v {
        serde_yaml::Value::Null => YamlValue::Null,
        serde_yaml::Value::Bool(b) => YamlValue::Bool(b),
        serde_yaml::Value::Number(n) => YamlValue::Number(n.to_string()),
        serde_yaml::Value::String(s) => YamlValue::Str(s),
        serde_yaml::Value::Sequence(s) => YamlValue::Sequence(s.into_iter().map(tree_of).collect()),
        serde_yaml::Value::Mapping(m) => YamlValue::Mapping(
            m.into_iter().map(|(k, v)| (tree_of(k), tree_of(v))).collect(),
        ),
        serde_yaml::Value::Tagged(t) => tree_of(t.value),
    }
}

} // verus!
