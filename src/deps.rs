//! What the library takes on trust from the crates it builds on: their types,
//! as opaque values, and the contracts of the few calls it makes into them.

use vstd::prelude::*;

verus! {

/// A JSON value of serde_json, carried through unopened.
#[verifier::external_type_specification]
#[verifier::external_body]
pub struct ExValue(serde_json::Value);

/// The text of a JSON string value, `None` for every other kind of value.
pub uninterp spec fn json_text(v: serde_json::Value) -> Option<Seq<char>>;

/// Relies on serde_json's `Value::as_str`: `Some` with the text exactly when
/// the value is a JSON string.
pub assume_specification[ serde_json::Value::as_str ](v: &serde_json::Value) -> (r: Option<&str>)
    ensures
        match r {
            Some(s) => json_text(*v) == Some(s@),
            None => json_text(*v) is None,
        },
;

/// The sending half of a tokio one-shot channel.
#[verifier::external_type_specification]
#[verifier::external_body]
#[verifier::reject_recursive_types(T)]
pub struct ExSender<T>(tokio::sync::oneshot::Sender<T>);

/// The receiving half of a tokio one-shot channel.
#[verifier::external_type_specification]
#[verifier::external_body]
#[verifier::reject_recursive_types(T)]
pub struct ExReceiver<T>(tokio::sync::oneshot::Receiver<T>);

/// What a receiver yields when its sender was dropped without a send.
#[verifier::external_type_specification]
#[verifier::external_body]
pub struct ExRecvError(tokio::sync::oneshot::error::RecvError);

/// Relies on tokio's `oneshot::channel`: a fresh pair of connected halves.
pub assume_specification<T>[ tokio::sync::oneshot::channel::<T> ]() -> (
    tokio::sync::oneshot::Sender<T>,
    tokio::sync::oneshot::Receiver<T>,
);

/// Relies on tokio's `Sender::send`: when the receiver is gone the value
/// comes back unchanged in `Err`.
pub assume_specification<T>[ tokio::sync::oneshot::Sender::<T>::send ](
    tx: tokio::sync::oneshot::Sender<T>,
    t: T,
) -> (r: Result<(), T>)
    ensures
        r is Err ==> r->Err_0 == t,
;

/// Relies on uuid's `Uuid::new_v4` and its hyphenated `Display`: a fresh
/// random id as text. Nothing is promised of its value.
#[verifier::external_body]
pub(crate) fn fresh_request_id() -> (r: String) {
    uuid::Uuid::new_v4().to_string()
}

} // verus!
