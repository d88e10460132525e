//! The agent's decisions on an inbound request, before any deploy work: the
//! signature must decode, the key must be allowed and must have signed the
//! archive, the archive must fit the size limit, and the package must exist.

use vstd::prelude::*;
use crate::auth::{base64_bytes, decode_base64, signature_verdict, Auth};
use crate::config::{ConfigSnapshot, ServerPackageConfig};
use crate::error::{AdeployError, RpcCode, RpcStatus};
use crate::protocol::DeployRequest;
use crate::text::{decimal, decimal_text, join2, join3, trim_text, trimmed};

verus! {

/// Largest archive, in bytes, when no limit is configured.
pub const DEFAULT_MAX_MESSAGE_SIZE: u64 = 104857600;

/// Whether `key` is on the allow-list, comparing both sides without
/// surrounding whitespace.
pub open spec fn key_allowed(allowed: Seq<String>, key: Seq<char>) -> bool {
    exists|i: int| 0 <= i < allowed.len() && trimmed(#[trigger] allowed[i]@) == trimmed(key)
}

/// Whether an archive of `len` bytes breaks the limit `max` (zero: no limit).
pub open spec fn too_large(len: nat, max: u64) -> bool {
    max > 0 && len > max
}

/// The status with which a request is turned away, from what the checks
/// found in the order they run, or `None` when it is let through.
pub open spec fn admission_code(signature_ok: bool, key_listed: bool, signature_valid: bool, len: nat, max: u64, has_package: bool) -> Option<RpcCode> {
    if !signature_ok {
        Some(RpcCode::InvalidArgument)
    } else if !key_listed {
        Some(RpcCode::Unauthenticated)
    } else if !signature_valid {
        Some(RpcCode::Unauthenticated)
    } else if too_large(len, max) {
        Some(RpcCode::ResourceExhausted)
    } else if !has_package {
        Some(RpcCode::NotFound)
    } else {
        None
    }
}

/// Whether the request's signature text decodes and, decoded, holds for its
/// archive under its public key.
pub open spec fn signature_holds(req: DeployRequest) -> bool {
    match base64_bytes(req.signature@) {
        Some(sig) => signature_verdict(req.public_key@, req.file_data@, sig) == Some(true),
        None => false,
    }
}

/// The status with which a request is turned away, or `None` when it is let through.
pub open spec fn rejection(snapshot: ConfigSnapshot, req: DeployRequest) -> Option<RpcCode> {
    admission_code(
        base64_bytes(req.signature@) is Some,
        key_allowed(snapshot.allowed_keys@, req.public_key@),
        signature_holds(req),
        req.file_data@.len(),
        snapshot.max_file_size,
        snapshot.package is Some,
    )
}

/// See `admission_code`.
pub fn admission_code_of(signature_ok: bool, key_listed: bool, signature_valid: bool, len: usize, max: u64, has_package: bool) -> (r: Option<RpcCode>)
    ensures
        r == admission_code(signature_ok, key_listed, signature_valid, len as nat, max, has_package),
{
    if !signature_ok {
        Some(RpcCode::InvalidArgument)
    } else if !key_listed {
        Some(RpcCode::Unauthenticated)
    } else if !signature_valid {
        Some(RpcCode::Unauthenticated)
    } else if max > 0 && len as u64 > max {
        Some(RpcCode::ResourceExhausted)
    } else if !has_package {
        Some(RpcCode::NotFound)
    } else {
        None
    }
}

/// Checks the allow-list for `key`.
pub fn is_key_allowed(allowed: &Vec<String>, key: &str) -> (r: bool)
    ensures
        r == key_allowed(allowed@, key@),
{
    let wanted = trim_text(key);
    let mut i: usize = 0;
    while i < allowed.len()
        invariant
            i <= allowed@.len(),
            wanted@ == trimmed(key@),
            forall|j: int| 0 <= j < i ==> trimmed(#[trigger] allowed@[j]@) != trimmed(key@),
        decreases allowed@.len() - i,
    {
        let candidate = trim_text(allowed[i].as_str());
        if candidate == wanted {
            return true;
        }
        i = i + 1;
    }
    false
}

fn status(code: RpcCode, message: String) -> (r: RpcStatus)
    ensures
        r.code == code,
        r.message@ == message@,
{
    RpcStatus { code, message }
}

/// Authenticates a request and resolves its package against a configuration
/// snapshot. Malformed signature text is `InvalidArgument`; a key off the
/// allow-list or a signature that does not hold is `Unauthenticated`; an
/// archive over the limit is `ResourceExhausted`; an unknown package is
/// `NotFound`. Otherwise the package entry comes back.
pub fn admit_request(snapshot: &ConfigSnapshot, request: &DeployRequest) -> (r: Result<ServerPackageConfig, RpcStatus>)
    ensures
        r is Ok <==> rejection(*snapshot, *request) is None,
        r is Ok ==> snapshot.package == Some(r->Ok_0),
        r matches Err(s) ==> Some(s.code) == rejection(*snapshot, *request),
        r matches Err(s) ==> (s.code == RpcCode::InvalidArgument ==> "Invalid signature: "@.is_prefix_of(s.message@)),
        r matches Err(s) ==> (s.code == RpcCode::Unauthenticated && !key_allowed(snapshot.allowed_keys@, request.public_key@) ==> s.message@ == "Client public key not allowed"@),
        r matches Err(s) ==> (s.code == RpcCode::ResourceExhausted ==> s.message@ == "Archive size exceeds configured max_file_size ("@ + decimal(snapshot.max_file_size as nat) + " bytes)"@),
        r matches Err(s) ==> (s.code == RpcCode::NotFound ==> s.message@ == "Package '"@ + request.package_name@ + "' not configured"@),
{
    let decoded = decode_base64(request.signature.as_str());
    let signature_ok = decoded.is_ok();
    let key_listed = signature_ok && is_key_allowed(&snapshot.allowed_keys, request.public_key.as_str());
    let check: Option<Result<bool, AdeployError>> = match &decoded {
        Ok(sig) => if key_listed {
            Some(Auth::verify_signature(request.public_key.as_str(), request.file_data.as_slice(), sig.as_slice()))
        } else {
            None
        },
        Err(_) => None,
    };
    let signature_valid = match &check {
        Some(Ok(v)) => *v,
        _ => false,
    };
    let code = admission_code_of(
        signature_ok,
        key_listed,
        signature_valid,
        request.file_data.len(),
        snapshot.max_file_size,
        snapshot.package.is_some(),
    );
    proof {
        if signature_ok && !key_listed {
            assert(!key_allowed(snapshot.allowed_keys@, request.public_key@));
        }
        if signature_ok && key_listed {
            assert(signature_valid == signature_holds(*request));
        }
    }
    match code {
        None => match &snapshot.package {
            Some(p) => Ok(p.duplicate()),
            None => Err(status(RpcCode::Internal, String::new())),
        },
        Some(c) => {
            let message = match (&decoded, &check) {
                (Err(e), _) => {
                    let m = join2("Invalid signature: ", e.as_str());
                    assert(m@.subrange(0, "Invalid signature: "@.len() as int) =~= "Invalid signature: "@);
                    m
                },
                (Ok(_), None) => String::from_str("Client public key not allowed"),
                (Ok(_), Some(Ok(false))) => String::from_str("Invalid Ed25519 signature"),
                (Ok(_), Some(Err(e))) => join2("Auth error: ", e.text().as_str()),
                (Ok(_), Some(Ok(true))) => if c == RpcCode::ResourceExhausted {
                    join3(
                        "Archive size exceeds configured max_file_size (",
                        decimal_text(snapshot.max_file_size).as_str(),
                        " bytes)",
                    )
                } else {
                    join3("Package '", request.package_name.as_str(), "' not configured")
                },
            };
            Err(status(c, message))
        },
    }
}

/// Message size limit of the transport for a configured archive limit (zero:
/// the default), clamped to what `usize` holds.
pub fn resolve_message_limit(limit: u64) -> (r: usize)
    ensures
        limit == 0 ==> r as int == if DEFAULT_MAX_MESSAGE_SIZE as int <= usize::MAX as int { DEFAULT_MAX_MESSAGE_SIZE as int } else { usize::MAX as int },
        limit > 0 ==> r as int == if limit as int <= usize::MAX as int { limit as int } else { usize::MAX as int },
{
    let limit = if limit == 0 { DEFAULT_MAX_MESSAGE_SIZE } else { limit };
    clamp_to_usize(limit)
}

/// `v`, or `usize::MAX` where `v` does not fit.
pub fn clamp_to_usize(v: u64) -> (r: usize)
    ensures
        r as int == if v as int <= usize::MAX as int { v as int } else { usize::MAX as int },
{
    if v as u128 <= usize::MAX as u128 {
        v as usize
    } else {
        usize::MAX
    }
}

/// The address the agent listens on: all interfaces, at `port`.
pub fn bind_address(port: u16) -> (r: String)
    ensures
        r@ == "0.0.0.0:"@ + decimal(port as nat),
{
    join2("0.0.0.0:", decimal_text(port as u64).as_str())
}

} // verus!
