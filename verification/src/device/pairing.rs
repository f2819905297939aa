//! The pairing contract: pairing states, codes, grants, and the check that
//! a pairing acceptance matches its request.
use vstd::prelude::*;
use vstd::string::StringSliceAdditionalSpecFns;
use vstd::utf8::{decode_utf8, encode_utf8_decode_utf8, is_leading_byte_width_1, partial_valid_utf8, partial_valid_utf8_extend_ascii_block, valid_utf8};

use super::fingerprint::{DeviceFingerprint, fingerprint_eq};
use super::identity::{DeviceClass, DeviceId, device_id_eq};

verus! {

/// The lifecycle of a pairing relationship.
#[derive(Debug, Clone, Copy, PartialEq, Eq, Hash, Structural)]
pub enum PairingState {
    Available,
    Pairing,
    Paired,
    Cancelled,
    Revoked,
    Expired,
}

/// The kebab-case name of each pairing state.
pub open spec fn spec_pairing_state_name(s: PairingState) -> Seq<char> {
    match s {
        PairingState::Available => "available"@,
        PairingState::Pairing => "pairing"@,
        PairingState::Paired => "paired"@,
        PairingState::Cancelled => "cancelled"@,
        PairingState::Revoked => "revoked"@,
        PairingState::Expired => "expired"@,
    }
}

/// The moves of the pairing lifecycle: an available peer starts pairing or
/// is paired outright; a pairing completes or is cancelled; a paired peer
/// is revoked or expires; a cancelled or revoked peer may only start a
/// fresh pairing; an expired peer is demoted to available or re-pairs.
/// Nothing else moves, and no state moves to itself.
pub open spec fn spec_pairing_transition_allowed(from: PairingState, to: PairingState) -> bool {
    match from {
        PairingState::Available => to == PairingState::Pairing || to == PairingState::Paired,
        PairingState::Pairing => to == PairingState::Paired || to == PairingState::Cancelled,
        PairingState::Paired => to == PairingState::Revoked || to == PairingState::Expired,
        PairingState::Cancelled => to == PairingState::Pairing,
        PairingState::Revoked => to == PairingState::Pairing,
        PairingState::Expired => to == PairingState::Available || to == PairingState::Pairing,
    }
}

impl PairingState {
    /// Whether the lifecycle allows moving from this state to `next`.
    pub fn can_transition_to(&self, next: PairingState) -> (r: bool)
        ensures
            r == spec_pairing_transition_allowed(*self, next),
    {
        match self {
            PairingState::Available => next == PairingState::Pairing || next == PairingState::Paired,
            PairingState::Pairing => next == PairingState::Paired || next == PairingState::Cancelled,
            PairingState::Paired => next == PairingState::Revoked || next == PairingState::Expired,
            PairingState::Cancelled => next == PairingState::Pairing,
            PairingState::Revoked => next == PairingState::Pairing,
            PairingState::Expired => next == PairingState::Available || next == PairingState::Pairing,
        }
    }

    /// The canonical kebab-case name.
    pub fn as_str(&self) -> (r: &'static str)
        ensures
            r@ == spec_pairing_state_name(*self),
    {
        match self {
            PairingState::Available => "available",
            PairingState::Pairing => "pairing",
            PairingState::Paired => "paired",
            PairingState::Cancelled => "cancelled",
            PairingState::Revoked => "revoked",
            PairingState::Expired => "expired",
        }
    }

    /// Only a `Paired` peer is trusted.
    pub fn is_trusted(&self) -> (r: bool)
        ensures
            r == (*self == PairingState::Paired),
    {
        matches!(self, PairingState::Paired)
    }
}

/// Decodes bytes as UTF-8 with `std::str::from_utf8`, giving the empty
/// string when they are not valid UTF-8.
#[verifier::external_body]
fn utf8_or_empty(bytes: &[u8]) -> (r: &str)
    ensures
        valid_utf8(bytes@) ==> r.spec_bytes() == bytes@,
        !valid_utf8(bytes@) ==> r@.len() == 0,
{
    std::str::from_utf8(bytes).unwrap_or("")
}

/// An ASCII decimal digit byte.
pub open spec fn is_digit_byte(b: u8) -> bool {
    48 <= b <= 57
}

/// A valid pairing code: exactly six bytes, each an ASCII decimal digit.
pub open spec fn spec_is_valid_code(bytes: Seq<u8>) -> bool {
    bytes.len() == 6 && forall|i: int| 0 <= i < 6 ==> is_digit_byte(bytes[i])
}

/// Six ASCII digits are valid UTF-8: each is a one-byte encoding.
proof fn lemma_digits_are_utf8(bytes: Seq<u8>)
    requires
        spec_is_valid_code(bytes),
    ensures
        valid_utf8(bytes),
{
    assert(bytes.subrange(0, 0).len() == 0);
    assert(partial_valid_utf8(bytes, 0));
    assert forall|i: int| 0 <= i < 6 implies #[trigger] is_leading_byte_width_1(bytes[i]) by {
        assert(is_digit_byte(bytes[i]));
    }
    partial_valid_utf8_extend_ascii_block(bytes, 0, 6);
    assert(bytes.subrange(0, 6) =~= bytes);
}

/// A code made from a string gives that string back: `PairingCode::new(s)`
/// keeps the bytes of `s`, and `as_str` decodes the code's bytes.
pub proof fn law_pairing_code_round_trip(s: &str, c: PairingCode)
    requires
        c.spec_bytes() == s.spec_bytes(),
    ensures
        decode_utf8(c.spec_bytes()) == s@,
{
    encode_utf8_decode_utf8(s@);
}

/// A 6-digit pairing code.
#[derive(Debug, Clone, Copy, Hash, PartialOrd, Ord)]
pub struct PairingCode([u8; 6]);

impl PairingCode {
    /// A code holds exactly six ASCII decimal digits.
    #[verifier::type_invariant]
    spec fn digits_only(self) -> bool {
        spec_is_valid_code(self.0@)
    }

    /// The code's six digit bytes.
    pub closed spec fn spec_bytes(&self) -> Seq<u8> {
        self.0@
    }

    /// Whether `s` is a valid 6-digit decimal code.
    pub fn is_valid(s: &str) -> (r: bool)
        ensures
            r == spec_is_valid_code(s.spec_bytes()),
    {
        let b = s.as_bytes();
        if b.len() != 6 {
            return false;
        }
        let mut i: usize = 0;
        while i < 6
            invariant
                i <= 6,
                b@.len() == 6,
                b@ == s.spec_bytes(),
                forall|j: int| 0 <= j < i ==> is_digit_byte(b@[j]),
            decreases 6 - i,
        {
            if b[i] < 48 || b[i] > 57 {
                assert(!is_digit_byte(b@[i as int]));
                return false;
            }
            i += 1;
        }
        true
    }

    /// The code for a valid 6-digit string; `None` otherwise.
    pub fn new(s: &str) -> (r: Option<PairingCode>)
        ensures
            r is Some <==> spec_is_valid_code(s.spec_bytes()),
            r matches Some(c) ==> c.spec_bytes() == s.spec_bytes(),
    {
        if !PairingCode::is_valid(s) {
            return None;
        }
        let b = s.as_bytes();
        let code = PairingCode([b[0], b[1], b[2], b[3], b[4], b[5]]);
        assert(code.0@ =~= b@);
        Some(code)
    }

    /// The 6-digit decimal string.
    pub fn as_str(&self) -> (r: &str)
        ensures
            r.spec_bytes() == self.spec_bytes(),
            r@ == decode_utf8(self.spec_bytes()),
            spec_is_valid_code(r.spec_bytes()),
    {
        proof {
            use_type_invariant(self);
            lemma_digits_are_utf8(self.0@);
        }
        let r = utf8_or_empty(&self.0);
        proof {
            encode_utf8_decode_utf8(r@);
        }
        r
    }
}

impl PartialEq for PairingCode {
    fn eq(&self, other: &Self) -> (r: bool) {
        let mut i: usize = 0;
        while i < 6
            invariant
                i <= 6,
                self.0@.len() == 6,
                other.0@.len() == 6,
                forall|j: int| 0 <= j < i ==> self.0@[j] == other.0@[j],
            decreases 6 - i,
        {
            if self.0[i] != other.0[i] {
                return false;
            }
            i += 1;
        }
        assert(self.0@ =~= other.0@);
        true
    }
}

impl vstd::std_specs::cmp::PartialEqSpecImpl for PairingCode {
    open spec fn obeys_eq_spec() -> bool {
        true
    }

    open spec fn eq_spec(&self, other: &PairingCode) -> bool {
        self.spec_bytes() == other.spec_bytes()
    }
}

impl Eq for PairingCode {}

/// The capabilities a paired peer is granted.
#[derive(Debug, PartialEq, Eq, Hash, Structural)]
pub struct PairingGrant {
    /// The peer may push observations into the local log.
    pub receive_observations: bool,
    /// The peer may push proposals into the local proposal set.
    pub receive_proposals: bool,
    /// The peer may ask for remote task execution.
    pub execute_remote_tasks: bool,
}

impl Clone for PairingGrant {
    fn clone(&self) -> (r: Self)
        ensures
            r == *self,
    {
        PairingGrant {
            receive_observations: self.receive_observations,
            receive_proposals: self.receive_proposals,
            execute_remote_tasks: self.execute_remote_tasks,
        }
    }
}

impl PairingGrant {
    /// Observations and proposals, but no remote execution.
    pub fn permissive() -> (r: PairingGrant)
        ensures
            r.receive_observations,
            r.receive_proposals,
            !r.execute_remote_tasks,
    {
        PairingGrant { receive_observations: true, receive_proposals: true, execute_remote_tasks: false }
    }
}

impl Default for PairingGrant {
    fn default() -> (r: PairingGrant)
        ensures
            r.receive_observations,
            r.receive_proposals,
            !r.execute_remote_tasks,
    {
        PairingGrant::permissive()
    }
}

/// The initiator's pairing request.
#[derive(Debug, Clone, PartialEq, Eq)]
pub struct PairingRequest {
    pub device_id: DeviceId,
    pub device_class: DeviceClass,
    pub fingerprint: DeviceFingerprint,
    pub code: PairingCode,
    pub grant: PairingGrant,
    pub timestamp_ms: u64,
}

/// The responder's pairing acceptance.
#[derive(Debug, Clone, PartialEq, Eq)]
pub struct PairingAcceptance {
    pub device_id: DeviceId,
    pub device_class: DeviceClass,
    pub fingerprint: DeviceFingerprint,
    pub code: PairingCode,
    pub grant: PairingGrant,
    pub timestamp_ms: u64,
}

/// One pairing record, as held by the device registry.
#[derive(Debug, Clone, PartialEq, Eq)]
pub struct Pairing {
    pub device_id: DeviceId,
    pub device_class: DeviceClass,
    pub fingerprint: DeviceFingerprint,
    pub state: PairingState,
    pub grant: PairingGrant,
    pub last_transition_ms: u64,
}

/// Reasons a pairing operation is invalid.
#[derive(Debug, Clone, PartialEq, Eq, Structural)]
pub enum PairingError {
    CodeMismatch,
    FingerprintMismatch,
    IdentityMismatch,
    RequestExpired,
    AlreadyPaired,
    TerminalState,
}

/// `now - then`, or 0 when `then` is later than `now`.
pub open spec fn elapsed(now: u64, then: u64) -> int {
    if now >= then {
        now - then
    } else {
        0
    }
}

/// The outcome of checking an acceptance against its request: the first
/// failing check among code, fingerprint, identity and age.
pub open spec fn spec_validate_acceptance(
    request: PairingRequest,
    acceptance: PairingAcceptance,
    skew_ms: u64,
    now_ms: u64,
) -> Result<(), PairingError> {
    if acceptance.code.spec_bytes() != request.code.spec_bytes() {
        Err(PairingError::CodeMismatch)
    } else if acceptance.fingerprint.spec_bytes() != request.fingerprint.spec_bytes() {
        Err(PairingError::FingerprintMismatch)
    } else if acceptance.device_id@ != request.device_id@ {
        Err(PairingError::IdentityMismatch)
    } else if elapsed(now_ms, request.timestamp_ms) > skew_ms {
        Err(PairingError::RequestExpired)
    } else {
        Ok(())
    }
}

/// Checks that an acceptance matches its request and that the request is
/// within the skew window.
pub fn validate_acceptance(
    request: &PairingRequest,
    acceptance: &PairingAcceptance,
    skew_ms: u64,
    now_ms: u64,
) -> (r: Result<(), PairingError>)
    ensures
        r == spec_validate_acceptance(*request, *acceptance, skew_ms, now_ms),
{
    if acceptance.code != request.code {
        return Err(PairingError::CodeMismatch);
    }
    if !fingerprint_eq(&acceptance.fingerprint, &request.fingerprint) {
        return Err(PairingError::FingerprintMismatch);
    }
    if !device_id_eq(&acceptance.device_id, &request.device_id) {
        return Err(PairingError::IdentityMismatch);
    }
    if now_ms.saturating_sub(request.timestamp_ms) > skew_ms {
        return Err(PairingError::RequestExpired);
    }
    Ok(())
}

/// An acceptance that echoes its request's code, fingerprint and identity
/// is accepted exactly while the request is within the skew window.
pub proof fn law_matching_acceptance_accepted_within_skew(
    request: PairingRequest,
    acceptance: PairingAcceptance,
    skew_ms: u64,
    now_ms: u64,
)
    requires
        acceptance.code.spec_bytes() == request.code.spec_bytes(),
        acceptance.fingerprint.spec_bytes() == request.fingerprint.spec_bytes(),
        acceptance.device_id@ == request.device_id@,
    ensures
        spec_validate_acceptance(request, acceptance, skew_ms, now_ms) is Ok <==> elapsed(
            now_ms,
            request.timestamp_ms,
        ) <= skew_ms,
{
}

} // verus!
