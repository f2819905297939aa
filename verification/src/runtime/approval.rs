//! Approval of risky actions by the user.
use vstd::prelude::*;

use crate::ids::{random_uuid, uuid_bits, uuid_value};
use crate::runtime::clock::unix_time_ms;
use crate::text::to_owned_string;

verus! {

/// A unique approval-request identifier.
#[derive(Debug, Clone, Copy, PartialEq, Eq, Hash)]
pub struct ApprovalRequestId(uuid::Uuid);

impl ApprovalRequestId {
    /// A fresh random identifier.
    pub fn new() -> (r: ApprovalRequestId) {
        ApprovalRequestId(random_uuid())
    }

    /// The identifier's 128-bit value, which tells requests apart.
    pub closed spec fn spec_key(&self) -> u128 {
        uuid_value(self.0)
    }

    /// The identifier's 128-bit value.
    pub fn key(&self) -> (r: u128)
        ensures
            r == self.spec_key(),
    {
        uuid_bits(&self.0)
    }

    /// The identifier as a UUID.
    pub fn as_uuid(&self) -> (r: uuid::Uuid)
        ensures
            uuid_value(r) == self.spec_key(),
    {
        self.0
    }
}

impl Default for ApprovalRequestId {
    fn default() -> (r: ApprovalRequestId) {
        ApprovalRequestId::new()
    }
}

/// Where an approval request stands.
#[derive(Debug, Clone, Copy, PartialEq, Eq, Structural)]
pub enum ApprovalStatus {
    Pending,
    Approved,
    Denied,
    Expired,
}

/// A request for the user's approval of an action.
#[derive(Debug, Clone)]
pub struct ApprovalRequest {
    /// The request's identifier.
    pub id: ApprovalRequestId,
    /// The session of the action.
    pub session_id: String,
    /// The action awaiting approval.
    pub action_id: String,
    /// The action's name.
    pub action_name: String,
    /// The action's risk level.
    pub risk_level: String,
    /// Why the action is wanted.
    pub reason: String,
    /// Where the request stands.
    pub status: ApprovalStatus,
    /// Creation time, milliseconds since the Unix epoch.
    pub created_at: u64,
    /// When the request was approved or denied.
    pub resolved_at: Option<u64>,
}

impl ApprovalRequest {
    /// A pending request created at the given time.
    pub fn new_at(
        now: u64,
        session_id: &str,
        action_id: &str,
        action_name: &str,
        risk_level: &str,
        reason: &str,
    ) -> (r: ApprovalRequest)
        ensures
            r.session_id@ == session_id@,
            r.action_id@ == action_id@,
            r.action_name@ == action_name@,
            r.risk_level@ == risk_level@,
            r.reason@ == reason@,
            r.status == ApprovalStatus::Pending,
            r.created_at == now,
            r.resolved_at is None,
    {
        ApprovalRequest {
            id: ApprovalRequestId::new(),
            session_id: to_owned_string(session_id),
            action_id: to_owned_string(action_id),
            action_name: to_owned_string(action_name),
            risk_level: to_owned_string(risk_level),
            reason: to_owned_string(reason),
            status: ApprovalStatus::Pending,
            created_at: now,
            resolved_at: None,
        }
    }

    /// A pending request created now.
    pub fn new(session_id: &str, action_id: &str, action_name: &str, risk_level: &str, reason: &str) -> (r:
        ApprovalRequest)
        ensures
            r.session_id@ == session_id@,
            r.action_id@ == action_id@,
            r.action_name@ == action_name@,
            r.risk_level@ == risk_level@,
            r.reason@ == reason@,
            r.status == ApprovalStatus::Pending,
            r.resolved_at is None,
    {
        ApprovalRequest::new_at(unix_time_ms(), session_id, action_id, action_name, risk_level, reason)
    }

    /// Records the user's answer at the given time.
    pub fn resolve_at(&mut self, now: u64, approved: bool)
        ensures
            *final(self) == (ApprovalRequest {
                status: if approved {
                    ApprovalStatus::Approved
                } else {
                    ApprovalStatus::Denied
                },
                resolved_at: Some(now),
                ..*old(self)
            }),
    {
        self.status = if approved {
            ApprovalStatus::Approved
        } else {
            ApprovalStatus::Denied
        };
        self.resolved_at = Some(now);
    }

    /// Approves the request now.
    pub fn approve(&mut self)
        ensures
            final(self).status == ApprovalStatus::Approved,
            final(self).resolved_at is Some,
            final(self).id == old(self).id,
            final(self).created_at == old(self).created_at,
    {
        self.resolve_at(unix_time_ms(), true);
    }

    /// Denies the request now.
    pub fn deny(&mut self)
        ensures
            final(self).status == ApprovalStatus::Denied,
            final(self).resolved_at is Some,
            final(self).id == old(self).id,
            final(self).created_at == old(self).created_at,
    {
        self.resolve_at(unix_time_ms(), false);
    }

    /// Whether the request awaits an answer.
    pub fn is_pending(&self) -> (r: bool)
        ensures
            r == (self.status == ApprovalStatus::Pending),
    {
        self.status == ApprovalStatus::Pending
    }

    /// Whether the request was approved.
    pub fn is_approved(&self) -> (r: bool)
        ensures
            r == (self.status == ApprovalStatus::Approved),
    {
        self.status == ApprovalStatus::Approved
    }
}

/// The user's decision on an approval request.
#[derive(Debug, Clone)]
pub struct ApprovalDecision {
    /// The request decided on.
    pub request_id: ApprovalRequestId,
    /// Approved or denied.
    pub decision: ApprovalStatus,
    /// Why.
    pub reason: String,
}

impl ApprovalDecision {
    /// An approval of the request.
    pub fn approve(request_id: ApprovalRequestId, reason: &str) -> (r: ApprovalDecision)
        ensures
            r.request_id == request_id,
            r.decision == ApprovalStatus::Approved,
            r.reason@ == reason@,
    {
        ApprovalDecision { request_id, decision: ApprovalStatus::Approved, reason: to_owned_string(reason) }
    }

    /// A denial of the request.
    pub fn deny(request_id: ApprovalRequestId, reason: &str) -> (r: ApprovalDecision)
        ensures
            r.request_id == request_id,
            r.decision == ApprovalStatus::Denied,
            r.reason@ == reason@,
    {
        ApprovalDecision { request_id, decision: ApprovalStatus::Denied, reason: to_owned_string(reason) }
    }
}

} // verus!
