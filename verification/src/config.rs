//! What the server is set up with.

use vstd::prelude::*;

verus! {

/// The settings that the rules of the server read.
#[derive(Debug)]
pub struct Config {
    /// Where uploads are staged.
    pub build_uploads_root: String,
    pub build_upload_max_size_bytes: u64,
    /// Where the builder is, and how long each of its calls may take.
    pub build_service_grpc_endpoint: String,
    pub build_service_submit_timeout_ms: u64,
    pub build_service_get_timeout_ms: u64,
    pub build_service_list_timeout_ms: u64,
    pub build_service_cancel_timeout_ms: u64,
    /// Where teams are looked up, and how long that may take.
    pub hps_endpoint: String,
    pub hps_get_timeout_ms: u64,
    /// The edition in which teams are looked up.
    pub hps_edition: String,
    /// How long a team that was looked up is remembered.
    pub hps_cache_ttl_ms: u64,
}

} // verus!
