//! Reading JSON text into [`Json`] documents.
//!
//! The text is parsed by `serde_json`. What that crate hands back is opaque
//! to the verifier, so this module states, for each call it makes, what the
//! call is trusted to return, and proves the conversion into [`Json`] from
//! those statements.

use vstd::prelude::*;

use crate::json::{Json, JsonView};

verus! {

#[verifier::external_type_specification]
#[verifier::external_body]
pub struct ExValue(serde_json::Value);

#[verifier::external_type_specification]
#[verifier::external_body]
pub struct ExNumber(serde_json::Number);

#[verifier::external_type_specification]
#[verifier::external_body]
pub struct ExError(serde_json::Error);

/// The document that `serde_json` reads from a text, or `None` where it
/// rejects the text.
pub uninterp spec fn parsed_json(text: Seq<u8>) -> Option<JsonView>;

/// The document that a `serde_json` value holds.
pub uninterp spec fn value_view(value: serde_json::Value) -> JsonView;

/// The number that a `serde_json` number holds: `Int` where it is an integer
/// that fits an `i64`, `Decimal` with its printed text otherwise.
pub uninterp spec fn number_view(number: serde_json::Number) -> JsonView;

/// One level of a `serde_json` value, with its children still unread.
enum Node<'a> {
    Null,
    Bool(bool),
    Number(&'a serde_json::Number),
    Text(&'a String),
    Array(&'a Vec<serde_json::Value>),
    Object(Vec<(&'a String, &'a serde_json::Value)>),
}

/// The document that a node stands for.
spec fn node_view(node: Node) -> JsonView {
    match node {
        Node::Null => JsonView::Null,
        Node::Bool(b) => JsonView::Bool(b),
        Node::Number(n) => number_view(*n),
        Node::Text(t) => JsonView::Text(t@),
        Node::Array(items) => JsonView::Array(
            Seq::new(items@.len(), |i: int| value_view(items@[i])),
        ),
        Node::Object(members) => JsonView::Object(
            Seq::new(members@.len(), |i: int| (members@[i].0@, value_view(*members@[i].1))),
        ),
    }
}

/// Calls `serde_json::from_slice` for a `serde_json::Value`.
///
/// Trusted: the call succeeds exactly on the texts that `parsed_json` knows,
/// and the value it returns holds that document.
#[verifier::external_body]
fn parse_value(text: &[u8]) -> (r: Result<serde_json::Value, serde_json::Error>)
    ensures
        match r {
            Ok(value) => parsed_json(text@) == Some(value_view(value)),
            Err(_) => parsed_json(text@) is None,
        },
{
    serde_json::from_slice::<serde_json::Value>(text)
}

/// Tells the variants of `serde_json::Value` apart.
///
/// Trusted: the node holds the fields of the variant, an object's members in
/// the order in which `serde_json::Map::iter` yields them.
#[verifier::external_body]
fn open<'a>(value: &'a serde_json::Value) -> (node: Node<'a>)
    ensures
        node_view(node) == value_view(*value),
{
    match value {
        serde_json::Value::Null => Node::Null,
        serde_json::Value::Bool(b) => Node::Bool(*b),
        serde_json::Value::Number(n) => Node::Number(n),
        serde_json::Value::String(s) => Node::Text(s),
        serde_json::Value::Array(items) => Node::Array(items),
        serde_json::Value::Object(map) => Node::Object(map.iter().collect()),
    }
}

/// Calls `serde_json::Number::as_i64`.
///
/// Trusted: the call returns the integer where the number is one that fits an
/// `i64`, and `None` for every other number.
#[verifier::external_body]
fn number_as_i64(number: &serde_json::Number) -> (r: Option<i64>)
    ensures
        match r {
            Some(i) => number_view(*number) == JsonView::Int(i as int),
            None => number_view(*number) is Decimal,
        },
{
    number.as_i64()
}

/// Prints a `serde_json::Number` through its `Display` impl.
///
/// Trusted: the same number always prints as the same text.
#[verifier::external_body]
fn number_text(number: &serde_json::Number) -> (r: String)
    ensures
        number_view(*number) matches JsonView::Decimal(text) ==> r@ == text,
{
    number.to_string()
}

/// Converts a `serde_json` value into a document.
fn lift(value: &serde_json::Value) -> (json: Json)
    ensures
        json@ == value_view(*value),
    decreases value_view(*value),
{
    match open(value) {
        Node::Null => Json::Null,
        Node::Bool(b) => Json::Bool(b),
        Node::Number(n) => match number_as_i64(n) {
            Some(i) => Json::Int(i),
            None => Json::Decimal(number_text(n)),
        },
        Node::Text(t) => Json::Text(t.clone()),
        Node::Array(items) => {
            let ghost want = value_view(*value)->Array_0;
            let mut out: Vec<Json> = Vec::new();
            let mut i: usize = 0;
            while i < items.len()
                invariant
                    i <= items.len(),
                    out@.len() == i,
                    value_view(*value) == JsonView::Array(want),
                    want.len() == items@.len(),
                    forall|k: int| 0 <= k < items@.len() ==> want[k] == value_view(#[trigger] items@[k]),
                    forall|k: int| 0 <= k < i ==> (#[trigger] out@[k])@ == want[k],
                decreases items.len() - i,
            {
                proof {
                    assert(decreases_to!(value_view(*value) => value_view(*value)->Array_0));
                    assert(decreases_to!(want => want[i as int]));
                }
                let child = lift(&items[i]);
                out.push(child);
                i += 1;
            }
            let json = Json::Array(out);
            assert(json@->Array_0 =~= want);
            json
        },
        Node::Object(members) => {
            let ghost want = value_view(*value)->Object_0;
            let mut out: Vec<(String, Json)> = Vec::new();
            let mut i: usize = 0;
            while i < members.len()
                invariant
                    i <= members.len(),
                    out@.len() == i,
                    value_view(*value) == JsonView::Object(want),
                    want.len() == members@.len(),
                    forall|k: int| 0 <= k < members@.len() ==>
                        want[k] == ((#[trigger] members@[k]).0@, value_view(*members@[k].1)),
                    forall|k: int| 0 <= k < i ==>
                        ((#[trigger] out@[k]).0@, out@[k].1@) == want[k],
                decreases members.len() - i,
            {
                let key = members[i].0.clone();
                proof {
                    assert(decreases_to!(value_view(*value) => value_view(*value)->Object_0));
                    assert(decreases_to!(want => want[i as int]));
                    assert(decreases_to!(want[i as int] => want[i as int].1));
                }
                let child = lift(members[i].1);
                out.push((key, child));
                i += 1;
            }
            let json = Json::Object(out);
            assert(json@->Object_0 =~= want);
            json
        },
    }
}

/// Why a text could not be read as a JSON document.
#[derive(Debug, Clone, PartialEq, Eq)]
pub struct SyntaxError {
    /// What the parser reported, with the line and column at which it stopped.
    pub message: String,
}

impl Json {
    /// Reads a JSON text.
    ///
    /// Returns the document exactly where the text is one that the parser
    /// accepts, and the parser's complaint otherwise. The document is the
    /// parser's: it holds the members of an object as the parser keeps
    /// them, which is one member for each name.
    pub fn parse(text: &[u8]) -> (r: Result<Json, SyntaxError>)
        ensures
            match r {
                Ok(json) => parsed_json(text@) == Some(json@),
                Err(_) => parsed_json(text@) is None,
            },
    {
        match parse_value(text) {
            Ok(value) => Ok(lift(&value)),
            Err(e) => Err(SyntaxError { message: e.to_string() }),
        }
    }
}

} // verus!
