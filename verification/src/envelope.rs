//! The `{"data": ...}` envelope of a response body, and the shapes that a
//! payload can be read as.

use vstd::prelude::*;

use crate::json::{member, Json, JsonView};

verus! {

/// A type that a JSON document can be read as.
///
/// `shape` says, for every document, whether it has the shape of the type and
/// which value it then holds. `from_json` computes exactly that.
pub trait Payload: Sized + DeepView {
    /// The value that `json` holds when read as `Self`; `None` where it does
    /// not have the shape.
    spec fn shape(json: JsonView) -> Option<<Self as DeepView>::V>;

    /// Reads a document as `Self`.
    fn from_json(json: &Json) -> (r: Option<Self>)
        ensures
            r.deep_view() == Self::shape(json@),
    ;
}

/// Every document reads as itself.
impl Payload for Json {
    open spec fn shape(json: JsonView) -> Option<JsonView> {
        Some(json)
    }

    fn from_json(json: &Json) -> (r: Option<Json>) {
        Some(json.clone())
    }
}

impl Payload for String {
    open spec fn shape(json: JsonView) -> Option<Seq<char>> {
        match json {
            JsonView::Text(t) => Some(t),
            _ => None,
        }
    }

    fn from_json(json: &Json) -> (r: Option<String>) {
        match json {
            Json::Text(t) => Some(t.clone()),
            _ => None,
        }
    }
}

impl Payload for bool {
    open spec fn shape(json: JsonView) -> Option<bool> {
        match json {
            JsonView::Bool(b) => Some(b),
            _ => None,
        }
    }

    fn from_json(json: &Json) -> (r: Option<bool>) {
        match json {
            Json::Bool(b) => Some(*b),
            _ => None,
        }
    }
}

impl Payload for i64 {
    open spec fn shape(json: JsonView) -> Option<i64> {
        match json {
            JsonView::Int(i) if i64::MIN <= i <= i64::MAX => Some(i as i64),
            _ => None,
        }
    }

    fn from_json(json: &Json) -> (r: Option<i64>) {
        match json {
            Json::Int(i) => Some(*i),
            _ => None,
        }
    }
}

impl Payload for i32 {
    open spec fn shape(json: JsonView) -> Option<i32> {
        match json {
            JsonView::Int(i) if i32::MIN <= i <= i32::MAX => Some(i as i32),
            _ => None,
        }
    }

    fn from_json(json: &Json) -> (r: Option<i32>) {
        match json {
            Json::Int(i) => {
                if i32::MIN as i64 <= *i && *i <= i32::MAX as i64 {
                    Some(*i as i32)
                } else {
                    None
                }
            },
            _ => None,
        }
    }
}

/// `null` reads as `None`; any other document must have the shape of `T`.
impl<T: Payload> Payload for Option<T> {
    open spec fn shape(json: JsonView) -> Option<Option<T::V>> {
        match json {
            JsonView::Null => Some(None),
            _ => match T::shape(json) {
                Some(v) => Some(Some(v)),
                None => None,
            },
        }
    }

    fn from_json(json: &Json) -> (r: Option<Option<T>>) {
        match json {
            Json::Null => Some(None),
            _ => match T::from_json(json) {
                Some(v) => Some(Some(v)),
                None => None,
            },
        }
    }
}

/// An array reads as a list where every item has the shape of `T`.
impl<T: Payload> Payload for Vec<T> {
    open spec fn shape(json: JsonView) -> Option<Seq<T::V>> {
        match json {
            JsonView::Array(items) => if forall|i: int|
                0 <= i < items.len() ==> (#[trigger] T::shape(items[i])) is Some {
                Some(Seq::new(items.len(), |i: int| T::shape(items[i]).unwrap()))
            } else {
                None
            },
            _ => None,
        }
    }

    fn from_json(json: &Json) -> (r: Option<Vec<T>>) {
        match json {
            Json::Array(items) => {
                let ghost all = json@->Array_0;
                let mut out: Vec<T> = Vec::new();
                let mut i: usize = 0;
                while i < items.len()
                    invariant
                        i <= items.len(),
                        json@ == JsonView::Array(all),
                        all.len() == items@.len(),
                        forall|k: int| 0 <= k < items@.len() ==> all[k] == (#[trigger] items@[k])@,
                        out@.len() == i,
                        forall|k: int| 0 <= k < i ==>
                            T::shape(all[k]) == Some((#[trigger] out@[k]).deep_view()),
                    decreases items.len() - i,
                {
                    match T::from_json(&items[i]) {
                        Some(v) => out.push(v),
                        None => return None,
                    }
                    i += 1;
                }
                assert forall|k: int| 0 <= k < all.len() implies (#[trigger] T::shape(
                    all[k],
                )) is Some by {
                    assert(T::shape(all[k]) == Some(out@[k].deep_view()));
                }
                Some(out)
            },
            _ => None,
        }
    }
}

/// The value of the member `key` of an object, read as `T`; `None` where the
/// member is missing or does not have the shape.
pub open spec fn field<T: Payload>(json: JsonView, key: Seq<char>) -> Option<T::V> {
    match json.get(key) {
        Some(value) => T::shape(value),
        None => None,
    }
}

/// As [`field`], for a member that may be left out: a missing member and
/// `null` both read as `None`.
pub open spec fn optional<T: Payload>(json: JsonView, key: Seq<char>) -> Option<Option<T::V>> {
    match json.get(key) {
        Some(value) => Option::<T>::shape(value),
        None => Some(None),
    }
}

/// Reads the member `key` of an object as `T`.
pub fn read_field<T: Payload>(json: &Json, key: &str) -> (r: Option<T>)
    ensures
        r.deep_view() == field::<T>(json@, key@),
{
    match json.get(key) {
        Some(value) => T::from_json(value),
        None => None,
    }
}

/// Reads a member of an object that may be left out.
pub fn read_optional<T: Payload>(json: &Json, key: &str) -> (r: Option<Option<T>>)
    ensures
        r.deep_view() == optional::<T>(json@, key@),
{
    match json.get(key) {
        Some(value) => Option::<T>::from_json(value),
        None => Some(None),
    }
}

/// The wrapper of every successful response body: the payload stands under
/// the member `data`.
#[derive(Debug, Clone, PartialEq, Eq)]
pub struct ApiResponse<T> {
    pub data: T,
}

impl<T: DeepView> DeepView for ApiResponse<T> {
    type V = ApiResponse<T::V>;

    open spec fn deep_view(&self) -> ApiResponse<T::V> {
        ApiResponse { data: self.data.deep_view() }
    }
}

/// Why a document is no envelope around a `T`.
#[derive(Debug, Clone, Copy, PartialEq, Eq, Structural)]
pub enum ShapeError {
    /// The document is no object.
    NotAnObject,
    /// The object has no member `data`.
    MissingData,
    /// The member `data` does not have the shape of the payload.
    Mismatch,
}

/// The payload of an envelope, or the reason why `json` is none.
///
/// Members other than `data` are ignored.
pub open spec fn envelope<T: Payload>(json: JsonView) -> Result<T::V, ShapeError> {
    if !(json is Object) {
        Err(ShapeError::NotAnObject)
    } else {
        match json.get("data"@) {
            None => Err(ShapeError::MissingData),
            Some(data) => match T::shape(data) {
                Some(payload) => Ok(payload),
                None => Err(ShapeError::Mismatch),
            },
        }
    }
}

/// The envelope that holds `payload` and nothing else.
pub open spec fn wrap(payload: JsonView) -> JsonView {
    JsonView::Object(seq![("data"@, payload)])
}

impl<T: Payload> ApiResponse<T> {
    /// Reads a document as an envelope around a `T`.
    pub fn decode(json: &Json) -> (r: Result<ApiResponse<T>, ShapeError>)
        ensures
            match r {
                Ok(response) => envelope::<T>(json@) == Ok::<T::V, ShapeError>(
                    response.data.deep_view(),
                ),
                Err(e) => envelope::<T>(json@) == Err::<T::V, ShapeError>(e),
            },
    {
        if !json.is_object() {
            return Err(ShapeError::NotAnObject);
        }
        match json.get("data") {
            None => Err(ShapeError::MissingData),
            Some(data) => match T::from_json(data) {
                Some(payload) => Ok(ApiResponse { data: payload }),
                None => Err(ShapeError::Mismatch),
            },
        }
    }
}

impl<T: Payload> Payload for ApiResponse<T> {
    open spec fn shape(json: JsonView) -> Option<ApiResponse<T::V>> {
        match envelope::<T>(json) {
            Ok(payload) => Some(ApiResponse { data: payload }),
            Err(_) => None,
        }
    }

    fn from_json(json: &Json) -> (r: Option<ApiResponse<T>>) {
        match ApiResponse::<T>::decode(json) {
            Ok(response) => Some(response),
            Err(_) => None,
        }
    }
}

/// Opening the envelope made around a payload gives the payload back.
pub proof fn envelope_round_trip<T: Payload>(payload: JsonView)
    requires
        T::shape(payload) is Some,
    ensures
        envelope::<T>(wrap(payload)) == Ok::<T::V, ShapeError>(T::shape(payload).unwrap()),
{
    let members = seq![("data"@, payload)];
    assert(member(members, "data"@) == Some(payload));
}

/// An object yields the payload under its first member `data`, whatever
/// other members it has.
pub proof fn envelope_ignores_other_members<T: Payload>(json: JsonView, payload: JsonView)
    requires
        json is Object,
        json.get("data"@) == Some(payload),
        T::shape(payload) is Some,
    ensures
        envelope::<T>(json) == Ok::<T::V, ShapeError>(T::shape(payload).unwrap()),
{
}

/// A document without a member `data` is no envelope, for any payload.
pub proof fn envelope_needs_data<T: Payload>(json: JsonView)
    requires
        json.get("data"@) is None,
    ensures
        envelope::<T>(json) is Err,
        envelope::<T>(json) != Err::<T::V, ShapeError>(ShapeError::Mismatch),
{
}

/// A member `data` that does not have the shape of the payload makes the
/// document a mismatch: no payload is produced.
pub proof fn envelope_rejects_mismatch<T: Payload>(json: JsonView, data: JsonView)
    requires
        json.get("data"@) == Some(data),
        T::shape(data) is None,
    ensures
        envelope::<T>(json) == Err::<T::V, ShapeError>(ShapeError::Mismatch),
{
}

} // verus!
