//! User requests to the agent.
use vstd::prelude::*;
use vstd::utf8::{encode_utf8, decode_utf8, is_char_boundary};

use crate::ids::{random_uuid, uuid_text, is_hyphenated_uuid_text};
use crate::runtime::clock::unix_time_ms;
use crate::text::to_owned_string;

verus! {

/// A unique request identifier.
#[derive(Debug, Clone, Copy, PartialEq, Eq, Hash)]
pub struct RequestId(uuid::Uuid);

impl RequestId {
    /// A fresh random identifier.
    pub fn new() -> (r: RequestId) {
        RequestId(random_uuid())
    }

    /// The identifier in the hyphenated UUID format.
    pub fn to_string(&self) -> (r: String)
        ensures
            is_hyphenated_uuid_text(r@),
    {
        uuid_text(&self.0)
    }
}

impl Default for RequestId {
    fn default() -> (r: RequestId) {
        RequestId::new()
    }
}

/// Who makes a request.
#[derive(Debug, Clone, Copy, PartialEq, Eq, Structural)]
pub enum ActorType {
    Human,
    System,
    Agent,
}

/// The actor behind a request.
#[derive(Debug, Clone)]
pub struct RequestActor {
    /// The kind of actor.
    pub actor_type: ActorType,
    /// Who the actor is.
    pub identity: String,
}

/// The longest request input, in bytes.
pub const MAX_INPUT_BYTES: usize = 10_000;

/// A structured user request.
#[derive(Debug, Clone)]
pub struct UserRequest {
    /// The request's identifier.
    pub id: RequestId,
    /// The session it belongs to.
    pub session_id: String,
    /// Who made it.
    pub actor: RequestActor,
    /// What was asked.
    pub input: String,
    /// Milliseconds since the Unix epoch.
    pub timestamp: u64,
    /// Free-form metadata.
    pub metadata: serde_json::Value,
}

/// The reason a request is refused, if any: empty input, input over
/// 10 000 bytes, or no session, checked in that order.
pub open spec fn spec_request_error(input: Seq<char>, session_id: Seq<char>) -> Option<Seq<char>> {
    if input.len() == 0 {
        Some("Request input must not be empty"@)
    } else if encode_utf8(input).len() > 10_000 {
        Some("Request input exceeds maximum length"@)
    } else if session_id.len() == 0 {
        Some("Session ID must not be empty"@)
    } else {
        None
    }
}

/// An input longer than 200 bytes can be cut at byte 197: that byte
/// starts a character.
pub open spec fn input_truncatable(input: Seq<char>) -> bool {
    encode_utf8(input).len() > 200 ==> is_char_boundary(encode_utf8(input), 197)
}

/// The input as shown in logs: the first 197 bytes and `...` when it is
/// longer than 200 bytes; else the whole input.
pub open spec fn spec_sanitized_input(input: Seq<char>) -> Seq<char> {
    if encode_utf8(input).len() > 200 {
        decode_utf8(encode_utf8(input).subrange(0, 197)) + "..."@
    } else {
        input
    }
}

impl UserRequest {
    /// A request made at the given time.
    pub fn new_at(
        now: u64,
        session_id: &str,
        actor: RequestActor,
        input: &str,
        metadata: serde_json::Value,
    ) -> (r: UserRequest)
        ensures
            r.session_id@ == session_id@,
            r.actor == actor,
            r.input@ == input@,
            r.timestamp == now,
            r.metadata == metadata,
    {
        UserRequest {
            id: RequestId::new(),
            session_id: to_owned_string(session_id),
            actor,
            input: to_owned_string(input),
            timestamp: now,
            metadata,
        }
    }

    /// A request made now.
    pub fn new(session_id: &str, actor: RequestActor, input: &str, metadata: serde_json::Value) -> (r: UserRequest)
        ensures
            r.session_id@ == session_id@,
            r.actor == actor,
            r.input@ == input@,
            r.metadata == metadata,
    {
        UserRequest::new_at(unix_time_ms(), session_id, actor, input, metadata)
    }

    /// Checks the request: a non-empty input of at most 10 000 bytes and a
    /// session.
    pub fn validate(&self) -> (r: Result<(), String>)
        ensures
            r is Ok <==> spec_request_error(self.input@, self.session_id@) is None,
            r matches Err(e) ==> Some(e@) == spec_request_error(self.input@, self.session_id@),
    {
        if self.input.as_str().is_empty() {
            return Err(String::from_str("Request input must not be empty"));
        }
        if self.input.as_str().as_bytes().len() > MAX_INPUT_BYTES {
            return Err(String::from_str("Request input exceeds maximum length"));
        }
        if self.session_id.as_str().is_empty() {
            return Err(String::from_str("Session ID must not be empty"));
        }
        Ok(())
    }

    /// The input as shown in logs: cut to 197 bytes and `...` when longer
    /// than 200 bytes.
    pub fn sanitized_input(&self) -> (r: String)
        requires
            input_truncatable(self.input@),
        ensures
            r@ == spec_sanitized_input(self.input@),
    {
        broadcast use vstd::utf8::group_utf8_lib;
        let input = self.input.as_str();
        if input.as_bytes().len() > 200 {
            let (head, _) = input.split_at(197);
            assert(head@ == decode_utf8(encode_utf8(head@)));
            let mut r = to_owned_string(head);
            r.append("...");
            r
        } else {
            self.input.clone()
        }
    }
}

} // verus!
