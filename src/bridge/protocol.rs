//! The two wire shapes of the sidecar line protocol, and the rule that
//! tells a progress notification from a command reply.
use vstd::prelude::*;

use crate::json::{as_object, json_as_object, json_map_len, new_map};
use crate::text::str_equals;

verus! {

#[verifier::external_type_specification]
#[verifier::external_body]
pub struct ExJsonValue(serde_json::Value);

#[verifier::external_type_specification]
#[verifier::external_body]
#[verifier::reject_recursive_types(K)]
#[verifier::reject_recursive_types(V)]
pub struct ExJsonMap<K, V>(serde_json::Map<K, V>);

/// One command sent to the sidecar: `{id, cmd, ...payload}` on the wire.
#[derive(Debug)]
pub struct BridgeRequest {
    pub id: String,
    pub cmd: String,
    pub payload: serde_json::Map<String, serde_json::Value>,
}

/// One line read back from the sidecar: a command reply or a progress
/// notification, every field optional.
#[derive(Debug)]
pub struct BridgeResponse {
    pub id: Option<String>,
    pub ok: Option<bool>,
    pub error: Option<String>,
    pub data: Option<serde_json::Value>,
    pub event: Option<String>,
    pub phase: Option<String>,
    pub message: Option<String>,
    pub current: Option<usize>,
    pub total: Option<usize>,
}

/// The `event` value that marks a progress notification.
pub open spec fn progress_word() -> Seq<char> {
    seq!['p', 'r', 'o', 'g', 'r', 'e', 's', 's']
}

/// A reply is a progress notification exactly when its `event` is "progress".
pub open spec fn is_progress(r: BridgeResponse) -> bool {
    match r.event {
        Some(e) => e@ == progress_word(),
        None => false,
    }
}

/// A line answers the request `id` when it is no progress notification and
/// carries that id.
pub open spec fn answers(r: BridgeResponse, id: Seq<char>) -> bool {
    !is_progress(r) && match r.id {
        Some(rid) => rid@ == id,
        None => false,
    }
}

impl BridgeRequest {
    /// A request with the given id and command; the members of an object
    /// payload go alongside them, a payload of another kind counts as empty.
    pub fn new(id: String, cmd: &str, payload: serde_json::Value) -> (r: BridgeRequest)
        ensures
            r.id@ == id@,
            r.cmd@ == cmd@,
            match json_as_object(payload) {
                Some(members) => r.payload == members,
                None => json_map_len(r.payload) == 0,
            },
    {
        let members = match as_object(payload) {
            Some(members) => members,
            None => new_map(),
        };
        BridgeRequest { id, cmd: cmd.to_string(), payload: members }
    }
}

impl BridgeResponse {
    pub fn is_progress_event(&self) -> (r: bool)
        ensures
            r == is_progress(*self),
    {
        proof {
            reveal_strlit("progress");
            assert("progress"@ =~= progress_word());
        }
        match &self.event {
            Some(e) => str_equals(e.as_str(), "progress"),
            None => false,
        }
    }
}

} // verus!
