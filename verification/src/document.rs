//! Reading a TOML document. The parser and the value tree are the `toml`
//! crate's. This module declares its types, gives what they hold a name, and
//! states of a few of its functions what the library relies on. None of
//! these statements is proved here.

use vstd::prelude::*;

verus! {

/// `toml::map::Map`, the map that a `toml::Table` is.
#[verifier::external_type_specification]
#[verifier::external_body]
#[verifier::reject_recursive_types(K)]
#[verifier::reject_recursive_types(V)]
pub struct ExTomlMap<K, V>(toml::map::Map<K, V>);

/// `toml::Value`, one value of a document.
#[verifier::external_type_specification]
#[verifier::external_body]
pub struct ExTomlValue(toml::Value);

/// `toml::de::Error`, why a text is no document.
#[verifier::external_type_specification]
#[verifier::external_body]
pub struct ExTomlError(toml::de::Error);

/// What one value of a document holds, as far as a manifest is read: a
/// string, an integer, a boolean or a table. A float, a date or an array
/// is `Other`.
pub enum Node {
    Text(Seq<char>),
    Integer(i64),
    Boolean(bool),
    Table(Map<Seq<char>, Node>),
    Other,
}

/// What a `toml::Table` holds: under each of its keys, what the value there holds.
pub uninterp spec fn table_nodes(table: toml::Table) -> Map<Seq<char>, Node>;

/// What a `toml::Value` holds.
pub uninterp spec fn value_node(value: toml::Value) -> Node;

/// What `toml::from_str` makes of a text: the entries of the document, or
/// nothing where the text is no TOML document.
pub uninterp spec fn parsed_document(text: Seq<char>) -> Option<Map<Seq<char>, Node>>;

/// `toml::from_str`, asked for a `toml::Table`. Claimed: the outcome is a
/// function of the text alone, and the table returned holds the document.
#[verifier::external_body]
pub(crate) fn parse_document(text: &str) -> (parsed: Result<toml::Table, toml::de::Error>)
    ensures
        match parsed {
            Ok(table) => parsed_document(text@) == Some(table_nodes(table)),
            Err(_) => parsed_document(text@) is None,
        },
{
    toml::from_str::<toml::Table>(text)
}

/// `toml::map::Map::get` on a table. Claimed: it returns the value under
/// `key`, and nothing exactly where the table has no such key.
#[verifier::external_body]
pub(crate) fn table_get<'a>(table: &'a toml::Table, key: &str) -> (found: Option<&'a toml::Value>)
    ensures
        match found {
            Some(value) => table_nodes(*table).contains_key(key@) && table_nodes(*table)[key@]
                == value_node(*value),
            None => !table_nodes(*table).contains_key(key@),
        },
{
    table.get(key)
}

/// `toml::Value::as_bool`. Claimed: the boolean of a boolean value, nothing of any other.
pub assume_specification[ toml::Value::as_bool ](value: &toml::Value) -> (held: Option<bool>)
    ensures
        held == (match value_node(*value) {
            Node::Boolean(b) => Some(b),
            _ => None,
        }),
;

/// `toml::Value::as_integer`. Claimed: the integer of an integer value, nothing of any other.
pub assume_specification[ toml::Value::as_integer ](value: &toml::Value) -> (held: Option<i64>)
    ensures
        held == (match value_node(*value) {
            Node::Integer(i) => Some(i),
            _ => None,
        }),
;

/// `toml::Value::as_str`. Claimed: the characters of a string value, nothing of any other.
pub assume_specification<'a>[ toml::Value::as_str ](value: &'a toml::Value) -> (held: Option<
    &'a str,
>)
    ensures
        match value_node(*value) {
            Node::Text(text) => held matches Some(s) && s@ == text,
            _ => held is None,
        },
;

/// `toml::Value::as_table`. Claimed: the table of a table value, nothing of any other.
pub assume_specification<'a>[ toml::Value::as_table ](value: &'a toml::Value) -> (held: Option<
    &'a toml::Table,
>)
    ensures
        match value_node(*value) {
            Node::Table(entries) => held matches Some(table) && table_nodes(*table) == entries,
            _ => held is None,
        },
;

} // verus!
