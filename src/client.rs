//! The client's decisions around one push: which remote, which packages, how
//! large an archive may be, what request goes out, and what the answer means.

use vstd::prelude::*;
use crate::auth::{base64_text, encode_base64, signed_by, Auth};
use crate::config::{
    lookup, remote_for, get_remote_config, find_entry, ClientConfig,
    ClientPackageConfig, RemoteConfig,
};
use crate::error::{error_text, AdeployError, ErrorKind, RpcCode, RpcStatus};
use crate::protocol::{DeployRequest, DeployResponse};
use crate::server::DEFAULT_MAX_MESSAGE_SIZE;
use crate::text::{decimal, decimal_text, join2, join3, join4, trim_text, trimmed};

verus! {

/// The remote for `host`, else the `default` remote, else a configuration error.
pub fn resolve_remote_configuration<'a>(config: &'a ClientConfig, host: &str) -> (r: Result<&'a RemoteConfig, AdeployError>)
    requires
        config.wf(),
    ensures
        r is Ok <==> remote_for(*config, host@) is Some,
        r is Ok ==> *r->Ok_0 == remote_for(*config, host@)->0,
        r is Err ==> r->Err_0@ == (ErrorKind::Config, "No server configuration found for host: "@ + host@),
{
    match get_remote_config(config, host) {
        Some(remote) => Ok(remote),
        None => Err(AdeployError::Config(join2("No server configuration found for host: ", host))),
    }
}

/// The archive limit for a remote: its own when set and positive, else the default.
pub open spec fn effective_max(config: RemoteConfig) -> u64 {
    match config.max_file_size {
        Some(v) => if v > 0 { v } else { DEFAULT_MAX_MESSAGE_SIZE },
        None => DEFAULT_MAX_MESSAGE_SIZE,
    }
}

/// See `effective_max`.
pub fn resolved_max_file_size(config: &RemoteConfig) -> (r: u64)
    ensures
        r == effective_max(*config),
{
    match config.max_file_size {
        Some(v) => if v > 0 { v } else { DEFAULT_MAX_MESSAGE_SIZE },
        None => DEFAULT_MAX_MESSAGE_SIZE,
    }
}

/// `limit` as a message size, clamped to what `usize` holds.
pub fn clamp_message_limit(limit: u64) -> (r: usize)
    ensures
        r as int == if limit as int <= usize::MAX as int { limit as int } else { usize::MAX as int },
{
    crate::server::clamp_to_usize(limit)
}

/// Text of the client-side size error.
pub open spec fn oversize_text(size: nat, limit: u64) -> Seq<char> {
    "Archive size "@ + decimal(size) + " exceeds configured max_file_size "@ + decimal(limit as nat)
}

/// Refuses an archive larger than `limit` (zero: no limit).
pub fn enforce_client_archive_size(data: &[u8], limit: u64) -> (r: Result<(), AdeployError>)
    ensures
        r is Err <==> limit > 0 && data@.len() > limit,
        r is Err ==> r->Err_0@ == (ErrorKind::Deploy, oversize_text(data@.len(), limit)),
{
    if limit > 0 {
        let archive_size = data.len() as u64;
        if archive_size > limit {
            return Err(AdeployError::Deploy(join4(
                "Archive size ",
                decimal_text(archive_size).as_str(),
                " exceeds configured max_file_size ",
                decimal_text(limit).as_str(),
            )));
        }
    }
    Ok(())
}

/// The connect and call timeout for a remote: none when it is zero.
pub fn effective_timeout(timeout_secs: u64) -> (r: Option<u64>)
    ensures
        timeout_secs == 0 ==> r is None,
        timeout_secs > 0 ==> r == Some(timeout_secs),
{
    if timeout_secs == 0 { None } else { Some(timeout_secs) }
}

/// The endpoint of a remote: `http://host:port`.
pub fn endpoint_uri(host: &str, port: u16) -> (r: String)
    ensures
        r@ == "http://"@ + host@ + ":"@ + decimal(port as nat),
{
    join4("http://", host, ":", decimal_text(port as u64).as_str())
}

/// The requested names that the configuration knows, in the order asked.
pub open spec fn known_names(config: ClientConfig, requested: Seq<Seq<char>>) -> Seq<Seq<char>>
    decreases requested.len(),
{
    if requested.len() == 0 {
        requested
    } else {
        let rest = known_names(config, requested.drop_last());
        if lookup(config.packages@, requested.last()) is Some {
            rest.push(requested.last())
        } else {
            rest
        }
    }
}

/// The packages to deploy: those of `package_names` that the configuration
/// knows, in the order given; a configuration error when there are none.
pub fn select_packages(config: &ClientConfig, package_names: Option<Vec<String>>) -> (r: Result<Vec<(String, ClientPackageConfig)>, AdeployError>)
    requires
        config.wf(),
    ensures
        package_names is None ==> r is Err,
        package_names matches Some(ns) ==> {
            let known = known_names(*config, ns@.map_values(|s: String| s@));
            &&& (r is Err <==> known.len() == 0)
            &&& r matches Ok(v) ==> {
                &&& v@.len() == known.len()
                &&& forall|i: int| 0 <= i < v@.len() ==> (#[trigger] v@[i]).0@ == known[i]
                    && v@[i].1.sources@ == lookup(config.packages@, known[i])->0.sources@
            }
        },
        r is Err ==> r->Err_0@ == (ErrorKind::Config, "No packages found to deploy"@),
{
    let names_in = match package_names {
        Some(ns) => ns,
        None => {
            return Err(AdeployError::Config(String::from_str("No packages found to deploy")));
        },
    };
    let ghost requested = names_in@.map_values(|s: String| s@);
    let mut out: Vec<(String, ClientPackageConfig)> = Vec::new();
    let mut i: usize = 0;
    while i < names_in.len()
        invariant
            i <= names_in@.len(),
            requested == names_in@.map_values(|s: String| s@),
            out@.len() == known_names(*config, requested.subrange(0, i as int)).len(),
            forall|k: int| 0 <= k < out@.len() ==> (#[trigger] out@[k]).0@ == known_names(*config, requested.subrange(0, i as int))[k]
                && out@[k].1.sources@ == lookup(config.packages@, known_names(*config, requested.subrange(0, i as int))[k])->0.sources@,
        decreases names_in@.len() - i,
    {
        let ghost pre = requested.subrange(0, i as int);
        let ghost post = requested.subrange(0, i as int + 1);
        assert(post.drop_last() =~= pre);
        assert(post.last() == names_in@[i as int]@);
        match find_entry(&config.packages, names_in[i].as_str()) {
            Some(j) => {
                let entry = config.packages[j].1.duplicate();
                out.push((names_in[i].clone(), entry));
            },
            None => {},
        }
        i = i + 1;
    }
    assert(requested.subrange(0, names_in@.len() as int) =~= requested);
    if out.len() == 0 {
        return Err(AdeployError::Config(String::from_str("No packages found to deploy")));
    }
    Ok(out)
}

/// The request that carries one package: the archive, its hash, the base64
/// signature over it, and the client's public key.
pub open spec fn request_for(req: DeployRequest, package_name: Seq<char>, archive: Seq<u8>, file_hash: Seq<char>, signature: Seq<u8>, public_key: Seq<char>) -> bool {
    &&& req.package_name@ == package_name
    &&& req.version@ == "1.0.0"@
    &&& req.file_data@ == archive
    &&& req.file_hash@ == file_hash
    &&& req.signature@ == base64_text(signature)
    &&& req.public_key@ == public_key
    &&& req.metadata@.len() == 0
}

/// Builds the request for one package: the archive must fit `max_file_size`,
/// and is signed with the client's key.
pub fn prepare_request(auth: &Auth, public_key: &str, package_name: &str, archive_data: Vec<u8>, file_hash: String, max_file_size: u64) -> (r: Result<DeployRequest, AdeployError>)
    ensures
        max_file_size > 0 && archive_data@.len() > max_file_size ==> r is Err && r->Err_0@ == (ErrorKind::Deploy, oversize_text(archive_data@.len(), max_file_size)),
        !(max_file_size > 0 && archive_data@.len() > max_file_size) ==> (r is Ok <==> auth.key() is Some),
        r matches Ok(req) ==> exists|sig: Seq<u8>| signed_by(auth.key()->0, archive_data@, sig) && request_for(req, package_name@, archive_data@, file_hash@, sig, public_key@),
        r is Err && !(max_file_size > 0 && archive_data@.len() > max_file_size) ==> r->Err_0@ == (ErrorKind::Auth, "Failed to sign data: "@ + error_text((ErrorKind::Auth, "No keypair available for signing"@))),
{
    match enforce_client_archive_size(archive_data.as_slice(), max_file_size) {
        Ok(()) => {},
        Err(e) => {
            return Err(e);
        },
    }
    let signature = match auth.sign_data(archive_data.as_slice()) {
        Ok(s) => s,
        Err(e) => {
            return Err(AdeployError::Auth(join2("Failed to sign data: ", e.text().as_str())));
        },
    };
    let signature_text = encode_base64(signature.as_slice());
    let req = DeployRequest {
        package_name: String::from_str(package_name),
        version: String::from_str("1.0.0"),
        file_data: archive_data,
        file_hash,
        signature: signature_text,
        public_key: String::from_str(public_key),
        metadata: Vec::new(),
    };
    assert(request_for(req, package_name@, archive_data@, file_hash@, signature@, public_key@));
    Ok(req)
}

/// What an in-band answer means for the push of `package_name`.
pub fn interpret_response(package_name: &str, response: &DeployResponse) -> (r: Result<(), AdeployError>)
    ensures
        r is Ok <==> response.success,
        r is Err ==> r->Err_0@ == (ErrorKind::Deploy, "Package "@ + package_name@ + " deployment failed: "@ + response.message@),
{
    if response.success {
        Ok(())
    } else {
        let head = join3("Package ", package_name, " deployment failed: ");
        Err(AdeployError::Deploy(join2(head.as_str(), response.message.as_str())))
    }
}

/// What the operator is told when the agent turns the push away as
/// unauthenticated: the client's own public key, to add to `allowed_keys`.
pub fn rejection_hint(status: &RpcStatus, public_key: &str) -> (r: Option<String>)
    ensures
        r is Some <==> status.code == RpcCode::Unauthenticated,
        r matches Some(t) ==> t@ == "Deployment rejected (unauthenticated). Add this public key to the server's `allowed_keys`: "@ + trimmed(public_key@),
{
    if status.code == RpcCode::Unauthenticated {
        Some(join2(
            "Deployment rejected (unauthenticated). Add this public key to the server's `allowed_keys`: ",
            trim_text(public_key).as_str(),
        ))
    } else {
        None
    }
}

} // verus!
