//! Random identifiers: the UUID type and the source of fresh ones.
use vstd::prelude::*;

verus! {

/// `uuid::Uuid`, held opaquely.
#[verifier::external_type_specification]
#[verifier::external_body]
pub struct ExUuid(uuid::Uuid);

/// A fresh random (version 4) UUID from `uuid::Uuid::new_v4`. The value
/// comes from the system's random source: nothing is promised of it.
#[verifier::external_body]
pub(crate) fn random_uuid() -> (r: uuid::Uuid) {
    uuid::Uuid::new_v4()
}

/// The text of a UUID in the hyphenated lowercase format: 36
/// characters, lowercase hex digits with hyphens at positions 8, 13, 18
/// and 23.
pub open spec fn is_hyphenated_uuid_text(s: Seq<char>) -> bool {
    &&& s.len() == 36
    &&& forall|i: int|
        0 <= i < 36 ==> if i == 8 || i == 13 || i == 18 || i == 23 {
            s[i] == '-'
        } else {
            ('0' <= s[i] <= '9') || ('a' <= s[i] <= 'f')
        }
}

/// The hyphenated lowercase text of a UUID, as its `Display` impl
/// writes it.
pub uninterp spec fn uuid_string(u: uuid::Uuid) -> Seq<char>;

/// Formats a UUID with its `Display` impl (`uuid::Uuid`'s lowercase
/// hyphenated form); the text is named by `uuid_string` and has that
/// format. Which digits appear depends on the UUID's bytes, which this
/// library does not read.
#[verifier::external_body]
pub(crate) fn uuid_text(u: &uuid::Uuid) -> (r: String)
    ensures
        r@ == uuid_string(*u),
        is_hyphenated_uuid_text(r@),
{
    u.to_string()
}

/// The 128-bit value of a UUID, as `Uuid::as_u128` gives it.
pub uninterp spec fn uuid_value(u: uuid::Uuid) -> u128;

/// Calls `uuid::Uuid::as_u128`; the result is named by `uuid_value`.
#[verifier::external_body]
pub(crate) fn uuid_bits(u: &uuid::Uuid) -> (r: u128)
    ensures
        r == uuid_value(*u),
{
    u.as_u128()
}

} // verus!
