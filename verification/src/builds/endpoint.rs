//! The addresses of other services.

use vstd::prelude::*;
use crate::engine::opt_text;

verus! {

/// How long a service may take to accept a connection.
pub const CONNECT_TIMEOUT_MS: u64 = 2_000;

/// What is wrong with a text that is to be the address of a service, in words; nothing
/// where it is one.
pub uninterp spec fn endpoint_fault(endpoint: Seq<char>) -> Option<Seq<char>>;

/// Wraps `tonic::transport::Endpoint::from_shared`, which parses the text and connects to
/// nothing; what is returned is its error in words, which says of every text that is no
/// address that it is an invalid URI. Which texts are addresses is left unsaid.
#[verifier::external_body]
pub(crate) fn check_endpoint(endpoint: &str) -> (r: Option<String>)
    ensures
        opt_text(r) == endpoint_fault(endpoint@),
        r is Some ==> r->Some_0@ == "invalid URI"@,
{
    tonic::transport::Endpoint::from_shared(endpoint.to_owned()).err().map(|e| e.to_string())
}

} // verus!
