//! Reading a JSON document.
//!
//! The document is parsed and walked by `serde_json`, which Verus does not
//! see. What this module claims of it is written in the contracts of
//! [`parse_document`] and [`leaf_at`]; nothing here proves those claims.

use vstd::prelude::*;

verus! {

#[verifier::external_type_specification]
#[verifier::external_body]
pub struct ExJsonValue(serde_json::Value);

#[verifier::external_type_specification]
#[verifier::external_body]
pub struct ExJsonError(serde_json::Error);

/// What stands at one place of a document, as far as a flight record needs
/// it.
#[derive(Clone, Debug, PartialEq, Eq)]
pub enum Leaf {
    /// The place does not exist.
    Absent,
    /// The place holds `null`.
    Null,
    /// The place holds a string.
    Text(String),
    /// The place holds a number. `integer` is the number where it was
    /// written as an integer that fits 64 bits with a sign; `bits` is the
    /// pattern of the binary64 number nearest to it.
    Number { integer: Option<i64>, bits: Option<u64> },
    /// The place holds a boolean, an array or an object.
    Other,
}

/// The mathematical content of a [`Leaf`].
pub enum LeafView {
    Absent,
    Null,
    Text(Seq<char>),
    Number { integer: Option<i64>, bits: Option<u64> },
    Other,
}

impl View for Leaf {
    type V = LeafView;

    open spec fn view(&self) -> LeafView {
        match *self {
            Leaf::Absent => LeafView::Absent,
            Leaf::Null => LeafView::Null,
            Leaf::Text(s) => LeafView::Text(s@),
            Leaf::Number { integer, bits } => LeafView::Number { integer, bits },
            Leaf::Other => LeafView::Other,
        }
    }
}

/// What a parsed document holds: for each JSON Pointer that leads to a
/// value in it, what stands there.
pub uninterp spec fn json_leaves(doc: serde_json::Value) -> Map<Seq<char>, LeafView>;

/// What a text holds when read as a JSON document, or nothing where it is
/// not one.
pub uninterp spec fn json_document(text: Seq<char>) -> Option<Map<Seq<char>, LeafView>>;

/// What stands in `leaves` at `pointer`.
pub open spec fn leaf_of(leaves: Map<Seq<char>, LeafView>, pointer: Seq<char>) -> LeafView {
    if leaves.contains_key(pointer) {
        leaves[pointer]
    } else {
        LeafView::Absent
    }
}

/// Calls `serde_json::from_str` for a `serde_json::Value`. The contract
/// claims that the outcome depends on the text alone: the text is a
/// document exactly when the call succeeds, and the value that comes back
/// holds what the text holds.
#[verifier::external_body]
pub(crate) fn parse_document(text: &str) -> (r: Result<serde_json::Value, serde_json::Error>)
    ensures
        match r {
            Ok(doc) => json_document(text@) == Some(json_leaves(doc)),
            Err(_) => json_document(text@).is_none(),
        },
{
    serde_json::from_str::<serde_json::Value>(text)
}

/// Calls `serde_json::Value::pointer` and tells the variants of the value
/// that it finds apart; for a number it hands on what `Number::as_i64` and
/// `Number::as_f64` return, the latter as its 64 bits. The contract claims
/// that this is what the document holds at `pointer`, and that a pointer
/// that leads nowhere gives `Absent`.
#[verifier::external_body]
pub(crate) fn leaf_at(doc: &serde_json::Value, pointer: &str) -> (r: Leaf)
    ensures
        r@ == leaf_of(json_leaves(*doc), pointer@),
{
    match doc.pointer(pointer) {
        None => Leaf::Absent,
        Some(serde_json::Value::Null) => Leaf::Null,
        Some(serde_json::Value::String(s)) => Leaf::Text(s.clone()),
        Some(serde_json::Value::Number(n)) => Leaf::Number {
            integer: n.as_i64(),
            bits: n.as_f64().map(|x| x.to_bits()),
        },
        Some(_) => Leaf::Other,
    }
}

} // verus!
