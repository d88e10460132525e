//! Properties of the deploy path that hold for all inputs, stated over the
//! same spec functions as the contracts of the functions involved.

use vstd::prelude::*;
use crate::auth::base64_bytes;
use crate::auth::signature_verdict;
use crate::config::{ConfigSnapshot, ServerConfig, ServerPackageConfig};
use crate::deploy::{backup_name, UtcStamp};
use crate::deploy_log::LogLevel;
use crate::digest::archive_hash_text;
use crate::engine::{
    arrive_pre, error_line, hook_close_line, next_stage, rank,
    start_stage, work_pending, Fault, Stage,
};
use crate::error::{error_text, RpcCode};
use crate::protocol::DeployRequest;
use crate::server::{key_allowed, rejection, too_large};
use crate::text::{decimal, padded_decimal, trimmed};
use crate::watcher::{is_newer, pinned};

verus! {

/// The archive a client hashed is the archive the server accepts: the hash
/// the client sends for `archive` is exactly what the server recomputes.
pub proof fn lemma_honest_payload_accepted(archive: Seq<u8>, pkg: ServerPackageConfig, name: Seq<char>, exe_dir: Option<Seq<char>>)
    ensures
        start_stage(pkg, name, exe_dir, archive_hash_text(archive) == archive_hash_text(archive))
            == arrive_pre(pkg, name, exe_dir).0,
{
}

/// A payload whose hash differs from the one sent with it fails the deploy
/// at once: no hook, backup or extraction is asked for.
pub proof fn lemma_corrupt_payload_stops(received: Seq<u8>, file_hash: Seq<char>, pkg: ServerPackageConfig, name: Seq<char>, exe_dir: Option<Seq<char>>)
    requires
        archive_hash_text(received) != file_hash,
    ensures
        start_stage(pkg, name, exe_dir, archive_hash_text(received) == file_hash) == Stage::Failed,
        !work_pending(Stage::Failed),
        forall|ok: bool| next_stage(Stage::Failed, pkg, name, exe_dir, ok) == Stage::Failed,
{
}

/// Every step moves a deploy strictly forward in the order pre-hook, backup,
/// extraction, post-hook, end; so each stage, the backup among them, is
/// passed at most once, and the backup comes before extraction.
pub proof fn lemma_stages_advance(s: Stage, pkg: ServerPackageConfig, name: Seq<char>, exe_dir: Option<Seq<char>>, ok: bool)
    requires
        work_pending(s),
    ensures
        rank(next_stage(s, pkg, name, exe_dir, ok)) > rank(s),
        rank(Stage::Backup) < rank(Stage::Extract),
{
}

/// A failing pre-hook ends the deploy before the backup and the extraction:
/// nothing more is asked for, so the deploy directory and the backup root
/// are left alone.
pub proof fn lemma_pre_hook_failure_stops(pkg: ServerPackageConfig, name: Seq<char>, exe_dir: Option<Seq<char>>)
    ensures
        next_stage(Stage::PreHook, pkg, name, exe_dir, false) == Stage::Failed,
        !work_pending(Stage::Failed),
{
}

/// A failing post-hook still completes the deploy, and its transcript line
/// is an error that cites the post-hook.
pub proof fn lemma_post_hook_failure_completes(pkg: ServerPackageConfig, name: Seq<char>, exe_dir: Option<Seq<char>>, f: Fault)
    ensures
        next_stage(Stage::PostHook, pkg, name, exe_dir, false) == Stage::Completed,
        hook_close_line(Stage::PostHook, Some(f)) == error_line("After-deploy script failed: "@ + error_text(f)),
        hook_close_line(Stage::PostHook, Some(f)).0 == LogLevel::Error,
{
}

/// A request whose signature decodes but whose key is not on the allow-list
/// is turned away as unauthenticated, whatever else it holds.
pub proof fn lemma_unlisted_key_rejected(snapshot: ConfigSnapshot, req: DeployRequest)
    requires
        base64_bytes(req.signature@) is Some,
        !key_allowed(snapshot.allowed_keys@, req.public_key@),
    ensures
        rejection(snapshot, req) == Some(RpcCode::Unauthenticated),
{
}

/// An authenticated request whose archive exceeds the configured limit is
/// turned away as resource-exhausted, before any deploy work.
pub proof fn lemma_oversize_rejected(snapshot: ConfigSnapshot, req: DeployRequest)
    requires
        base64_bytes(req.signature@) is Some,
        key_allowed(snapshot.allowed_keys@, req.public_key@),
        signature_verdict(req.public_key@, req.file_data@, base64_bytes(req.signature@)->0) == Some(true),
        too_large(req.file_data@.len(), snapshot.max_file_size),
    ensures
        rejection(snapshot, req) == Some(RpcCode::ResourceExhausted),
{
}

/// After the file is rewritten (its time moves past the last one read), the
/// next poll reloads it; the published configuration allows exactly the new
/// keys, keeps the running port whatever the file says, and takes every
/// other field from the file.
pub proof fn lemma_reload_takes_new_keys(last: Option<u128>, modified: u128, new_config: ServerConfig, port: u16, key: Seq<char>)
    requires
        last matches Some(l) ==> modified > l,
        exists|i: int| 0 <= i < new_config.server.allowed_keys@.len() && (#[trigger] new_config.server.allowed_keys@[i])@ == key,
    ensures
        is_newer(last, modified),
        pinned(new_config, port).server.allowed_keys == new_config.server.allowed_keys,
        key_allowed(pinned(new_config, port).server.allowed_keys@, key),
        pinned(new_config, port).server.port == port,
        pinned(new_config, port).server.max_file_size == new_config.server.max_file_size,
        pinned(new_config, port).packages == new_config.packages,
{
    let i = choose|i: int| 0 <= i < new_config.server.allowed_keys@.len() && (#[trigger] new_config.server.allowed_keys@[i])@ == key;
    assert(trimmed(pinned(new_config, port).server.allowed_keys@[i]@) == trimmed(key));
}

/// Whether a character is a decimal digit.
pub open spec fn is_digit(c: char) -> bool {
    '0' <= c && c <= '9'
}

/// `backup_` followed by eight digits, `_` and six digits.
pub open spec fn backup_name_shape(n: Seq<char>) -> bool {
    &&& n.len() == 22
    &&& n.subrange(0, 7) == "backup_"@
    &&& forall|i: int| 7 <= i < 15 ==> is_digit(#[trigger] n[i])
    &&& n[15] == '_'
    &&& forall|i: int| 16 <= i < 22 ==> is_digit(#[trigger] n[i])
}

proof fn lemma_decimal_digits(n: nat)
    ensures
        forall|i: int| 0 <= i < decimal(n).len() ==> is_digit(#[trigger] decimal(n)[i]),
        decimal(n).len() >= 1,
        n < 10 ==> decimal(n).len() == 1,
        n < 100 ==> decimal(n).len() <= 2,
        n < 10000 ==> decimal(n).len() <= 4,
    decreases n,
{
    if n >= 10 {
        lemma_decimal_digits(n / 10);
        let d = decimal(n);
        assert forall|i: int| 0 <= i < d.len() implies is_digit(#[trigger] d[i]) by {
            if i < d.len() - 1 {
                assert(d[i] == decimal(n / 10)[i]);
            }
        }
        assert(n < 100 ==> n / 10 < 10);
        assert(n < 10000 ==> n / 10 < 1000);
        if n / 10 >= 10 {
            lemma_decimal_digits(n / 100);
            assert(n / 10 / 10 == n / 100);
            assert(n < 10000 ==> n / 100 < 100);
        }
    }
}

proof fn lemma_padded_digits(n: nat, w: nat)
    requires
        decimal(n).len() <= w,
    ensures
        padded_decimal(n, w).len() == w,
        forall|i: int| 0 <= i < w ==> is_digit(#[trigger] padded_decimal(n, w)[i]),
{
    lemma_decimal_digits(n);
    let d = decimal(n);
    let p = padded_decimal(n, w);
    assert forall|i: int| 0 <= i < w implies is_digit(#[trigger] p[i]) by {
        if d.len() < w && i >= w - d.len() {
            assert(p[i] == d[i - (w - d.len())]);
        }
    }
}

/// The snapshot of a deploy started in a year of four digits is named
/// `backup_YYYYMMDD_HHMMSS`.
pub proof fn lemma_backup_name_shape(t: UtcStamp)
    requires
        t.wf(),
        0 <= t.year <= 9999,
    ensures
        backup_name_shape(backup_name(t)),
{
    lemma_decimal_digits(t.year as nat);
    lemma_decimal_digits(t.month as nat);
    lemma_decimal_digits(t.day as nat);
    lemma_decimal_digits(t.hour as nat);
    lemma_decimal_digits(t.minute as nat);
    lemma_decimal_digits(t.second as nat);
    lemma_padded_digits(t.year as nat, 4);
    lemma_padded_digits(t.month as nat, 2);
    lemma_padded_digits(t.day as nat, 2);
    lemma_padded_digits(t.hour as nat, 2);
    lemma_padded_digits(t.minute as nat, 2);
    lemma_padded_digits(t.second as nat, 2);
    let y = padded_decimal(t.year as nat, 4);
    let mo = padded_decimal(t.month as nat, 2);
    let d = padded_decimal(t.day as nat, 2);
    let h = padded_decimal(t.hour as nat, 2);
    let mi = padded_decimal(t.minute as nat, 2);
    let s = padded_decimal(t.second as nat, 2);
    let n = backup_name(t);
    reveal_strlit("backup_");
    assert(n == "backup_"@ + y + mo + d + seq!['_'] + h + mi + s);
    assert(n.subrange(0, 7) =~= "backup_"@);
    assert forall|i: int| 7 <= i < 15 implies is_digit(#[trigger] n[i]) by {
        if i < 11 {
            assert(n[i] == y[i - 7]);
        } else if i < 13 {
            assert(n[i] == mo[i - 11]);
        } else {
            assert(n[i] == d[i - 13]);
        }
    }
    assert forall|i: int| 16 <= i < 22 implies is_digit(#[trigger] n[i]) by {
        if i < 18 {
            assert(n[i] == h[i - 16]);
        } else if i < 20 {
            assert(n[i] == mi[i - 18]);
        } else {
            assert(n[i] == s[i - 20]);
        }
    }
}

} // verus!
