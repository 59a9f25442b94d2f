//! Tool calls that suspend until an outside fulfiller answers.

use std::collections::HashMap;
use tokio::sync::oneshot::error::RecvError;
use tokio::sync::oneshot::{Receiver, Sender};
use vstd::prelude::*;
use vstd::string::StringExecFns;

use crate::deps::{fresh_request_id, json_text};
use crate::pending::PendingTable;

verus! {

/// How a tool call ended: a result value, or a failure message.
#[derive(Debug, PartialEq)]
pub enum ToolOutcome {
    Success(serde_json::Value),
    Failure(String),
}

/// The table of open tool calls, each holding the sender its caller waits on.
pub type ToolRequests = PendingTable<Sender<ToolOutcome>>;

/// The notice sent to the fulfiller when a tool call opens.
pub struct ToolRequestEvent {
    pub request_id: String,
    pub name: String,
    pub args: HashMap<String, serde_json::Value>,
}

/// A result submitted by the fulfiller for an open request.
pub struct ToolOutputRequest {
    pub request_id: String,
    pub result: serde_json::Value,
    pub is_error: bool,
}

/// Errors reported to whoever submits a tool result.
#[derive(Debug, Clone, PartialEq)]
pub enum BridgeError {
    /// No open request has this id: unknown, already fulfilled, or abandoned.
    RequestNotFound(String),
}

impl BridgeError {
    /// A line describing the error.
    pub fn message(&self) -> (r: String)
        ensures
            match self {
                BridgeError::RequestNotFound(id) => r@ == "Request ID "@ + id@ + " not found"@,
            },
    {
        match self {
            BridgeError::RequestNotFound(id) => {
                let mut m = String::from_str("Request ID ");
                m.append(id.as_str());
                m.append(" not found");
                m
            },
        }
    }
}

/// Whether `o` is a failure whose message is `m`.
pub open spec fn is_failure_with(o: ToolOutcome, m: Seq<char>) -> bool {
    o is Failure && o->Failure_0@ == m
}

/// The outcome that a submitted result stands for: the value itself, or for
/// an error the value's text, or a generic message when it holds no text.
pub open spec fn submitted_outcome(result: serde_json::Value, is_error: bool, o: ToolOutcome) -> bool {
    if !is_error {
        o == ToolOutcome::Success(result)
    } else {
        match json_text(result) {
            Some(t) => is_failure_with(o, t),
            None => is_failure_with(o, "Unknown error"@),
        }
    }
}

/// Turns a submitted result into the outcome handed to the waiting call.
pub fn outcome_from_submission(result: serde_json::Value, is_error: bool) -> (o: ToolOutcome)
    ensures
        submitted_outcome(result, is_error, o),
{
    if !is_error {
        ToolOutcome::Success(result)
    } else {
        match result.as_str() {
            Some(text) => ToolOutcome::Failure(String::from_str(text)),
            None => ToolOutcome::Failure(String::from_str("Unknown error")),
        }
    }
}

/// What the waiting call returns once its slot yields: the outcome that was
/// sent, or a cancellation failure when the sender was dropped unanswered.
pub fn settle(received: Result<ToolOutcome, RecvError>) -> (o: ToolOutcome)
    ensures
        match received {
            Ok(sent) => o == sent,
            Err(_) => is_failure_with(o, "cancelled"@),
        },
{
    match received {
        Ok(sent) => sent,
        Err(_) => ToolOutcome::Failure(String::from_str("cancelled")),
    }
}

/// Opens a tool call: a fresh id, a slot entered in the table under it, and
/// the notice to publish once the entry is in place. The caller waits on the
/// returned receiver.
pub fn open_request(
    table: &mut ToolRequests,
    name: String,
    args: HashMap<String, serde_json::Value>,
) -> (r: (Receiver<ToolOutcome>, ToolRequestEvent))
    requires
        old(table).wf(),
    ensures
        final(table).wf(),
        final(table)@.contains_key(r.1.request_id@),
        final(table)@.remove(r.1.request_id@) == old(table)@.remove(r.1.request_id@),
        r.1.name == name,
        r.1.args == args,
{
    let request_id = fresh_request_id();
    let (tx, rx) = tokio::sync::oneshot::channel::<ToolOutcome>();
    let _ = table.insert(request_id.clone(), tx);
    proof {
        assert(final(table)@ == old(table)@.insert(request_id@, tx));
    }
    assert(table@.remove(request_id@) =~= old(table)@.remove(request_id@));
    (rx, ToolRequestEvent { request_id, name, args })
}

/// Closes `id` from the waiting side (publishing failed, a wait expired, or
/// the session shuts down). Returns whether the request was still open; its
/// dropped slot can no longer be fulfilled.
pub fn abandon(table: &mut ToolRequests, id: &String) -> (r: bool)
    requires
        old(table).wf(),
    ensures
        final(table).wf(),
        r == old(table)@.contains_key(id@),
        final(table)@ == old(table)@.remove(id@),
{
    table.take(id).is_some()
}

/// How long a tool call waits for its fulfiller before it gives up.
pub const INVOCATION_TIMEOUT_MS: u64 = 300_000;

/// Closes `id` when its wait has run out: a timeout failure for the waiting
/// call if the request was still open, else `None`, since the fulfiller got
/// there first and its outcome is already in the slot.
pub fn expire(table: &mut ToolRequests, id: &String) -> (r: Option<ToolOutcome>)
    requires
        old(table).wf(),
    ensures
        final(table).wf(),
        final(table)@ == old(table)@.remove(id@),
        r is Some <==> old(table)@.contains_key(id@),
        r is Some ==> is_failure_with(r->Some_0, "timed out"@),
{
    match table.take(id) {
        Some(_) => Some(ToolOutcome::Failure(String::from_str("timed out"))),
        None => None,
    }
}

/// Hands `outcome` to the call waiting on `id` and closes it. Returns false,
/// touching nothing, when no such request is open.
pub fn fulfill(table: &mut ToolRequests, id: &String, outcome: ToolOutcome) -> (r: bool)
    requires
        old(table).wf(),
    ensures
        final(table).wf(),
        r == old(table)@.contains_key(id@),
        final(table)@ == old(table)@.remove(id@),
{
    match table.take(id) {
        Some(tx) => {
            let _ = tx.send(outcome);
            true
        },
        None => false,
    }
}

/// Takes a submission from the fulfiller: fulfils the request it names with
/// the outcome it stands for, or reports that no such request is open.
pub fn submit_tool_output(table: &mut ToolRequests, payload: ToolOutputRequest) -> (r: Result<(), BridgeError>)
    requires
        old(table).wf(),
    ensures
        final(table).wf(),
        final(table)@ == old(table)@.remove(payload.request_id@),
        old(table)@.contains_key(payload.request_id@) <==> r is Ok,
        r is Err ==> r->Err_0 == BridgeError::RequestNotFound(payload.request_id),
{
    let outcome = outcome_from_submission(payload.result, payload.is_error);
    if fulfill(table, &payload.request_id, outcome) {
        Ok(())
    } else {
        Err(BridgeError::RequestNotFound(payload.request_id))
    }
}

/// How many of the closings `ids`, made one after another on a table with
/// open requests `m`, succeed for the request `r`. A fulfilment, an
/// abandonment and an expiry act on the table alike: each removes its id and
/// succeeds exactly when the id was open.
pub open spec fn successes_for<S>(m: Map<Seq<char>, S>, ids: Seq<Seq<char>>, r: Seq<char>) -> nat
    decreases ids.len(),
{
    if ids.len() == 0 {
        0
    } else {
        let hit: nat = if ids[0] == r && m.contains_key(r) { 1 } else { 0 };
        hit + successes_for(m.remove(ids[0]), ids.drop_first(), r)
    }
}

proof fn lemma_closed_stays_closed<S>(m: Map<Seq<char>, S>, ids: Seq<Seq<char>>, r: Seq<char>)
    requires
        !m.contains_key(r),
    ensures
        successes_for(m, ids, r) == 0,
    decreases ids.len(),
{
    if ids.len() > 0 {
        lemma_closed_stays_closed(m.remove(ids[0]), ids.drop_first(), r);
    }
}

/// A request is closed at most once: over any run of fulfilments (or
/// abandonments, or expiries), at most one of those naming `r` succeeds, and
/// once one has, every later one for `r` finds it closed. So a request is
/// never both fulfilled and abandoned, nor fulfilled twice.
pub proof fn lemma_fulfilled_at_most_once<S>(m: Map<Seq<char>, S>, ids: Seq<Seq<char>>, r: Seq<char>)
    ensures
        successes_for(m, ids, r) <= 1,
        m.contains_key(r) ==> successes_for(m.remove(r), ids, r) == 0,
    decreases ids.len(),
{
    lemma_closed_stays_closed(m.remove(r), ids, r);
    if ids.len() > 0 {
        if ids[0] == r && m.contains_key(r) {
            lemma_closed_stays_closed(m.remove(r), ids.drop_first(), r);
        } else {
            lemma_fulfilled_at_most_once(m.remove(ids[0]), ids.drop_first(), r);
        }
    }
}

} // verus!
