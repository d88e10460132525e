//! The request and response of the `Deploy` call, as plain values.

use vstd::prelude::*;
use crate::deploy_log::DeployLogEntry;

verus! {

/// One deploy request: a package name, the archive, its hex SHA-256, the
/// base64 signature over the archive and the signer's base64 public key.
pub struct DeployRequest {
    pub package_name: String,
    pub version: String,
    pub file_data: Vec<u8>,
    pub file_hash: String,
    pub signature: String,
    pub public_key: String,
    /// Free-form metadata; carried, never read.
    pub metadata: Vec<(String, String)>,
}

/// The in-band answer to a deploy: whether it succeeded, a summary, the deploy
/// id and the transcript.
pub struct DeployResponse {
    pub success: bool,
    pub message: String,
    pub deploy_id: String,
    pub logs: Vec<DeployLogEntry>,
}

} // verus!
