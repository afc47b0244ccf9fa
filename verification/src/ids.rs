//! Identifiers.

use vstd::prelude::*;

verus! {

/// The identifier that `uuid` gives to a name: version 5, in the namespace of object
/// identifiers.
pub uninterp spec fn oid_uuid(name: Seq<char>) -> Seq<char>;

/// Wraps `uuid::Uuid::new_v5` in `NAMESPACE_OID`, followed by `to_string`: the digest
/// of namespace and name, in hyphenated form. It depends on the name alone.
#[verifier::external_body]
pub(crate) fn uuid_v5(name: &str) -> (r: String)
    ensures
        r@ == oid_uuid(name@),
{
    uuid::Uuid::new_v5(&uuid::Uuid::NAMESPACE_OID, name.as_bytes()).to_string()
}

/// Wraps `uuid::Uuid::new_v4`, followed by `to_string`: a random identifier in
/// hyphenated form, which has 36 characters. Nothing is said of which one comes.
#[verifier::external_body]
pub(crate) fn uuid_v4() -> (r: String)
    ensures
        r@.len() == 36,
{
    uuid::Uuid::new_v4().to_string()
}

} // verus!
