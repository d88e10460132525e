//! The pieces of one deploy that decide rather than act: the deploy id and
//! start time, where a backup goes and what it is called, how archive sources
//! are laid out, and what a hook's output contributes to the transcript.

use vstd::prelude::*;
use crate::config::ServerPackageConfig;
use crate::deploy_log::{DeployLogEntry, LogLevel};
use crate::digest::{archive_hash, archive_hash_text};
use crate::error::{AdeployError, ErrorKind};
use crate::text::{
    base_name, base_name_of, join2, join3, join4, join_path, joined_path, padded_decimal,
    padded_decimal_text, signed_decimal, signed_decimal_text, split_lines, text_lines,
};
use chrono::{Datelike, Timelike};

verus! {

/// A lower-case hex digit.
pub open spec fn is_lower_hex(c: char) -> bool {
    ('0' <= c && c <= '9') || ('a' <= c && c <= 'f')
}

/// The hyphenated text of a random (version 4, RFC 4122 variant) UUID:
/// 36 characters, hyphens at 8, 13, 18 and 23, lower-case hex elsewhere,
/// version digit `4` at 14 and variant digit 8, 9, a or b at 19.
pub open spec fn is_uuid_v4_text(s: Seq<char>) -> bool {
    &&& s.len() == 36
    &&& forall|i: int| 0 <= i < 36 ==> (if i == 8 || i == 13 || i == 18 || i == 23 {
        #[trigger] s[i] == '-'
    } else {
        is_lower_hex(s[i])
    })
    &&& s[14] == '4'
    &&& (s[19] == '8' || s[19] == '9' || s[19] == 'a' || s[19] == 'b')
}

/// Relies on `uuid::Uuid::new_v4` (which sets the version and variant bits)
/// and its `Display`, the lower-case hyphenated form.
#[verifier::external_body]
fn new_deploy_id() -> (r: String)
    ensures
        is_uuid_v4_text(r@),
{
    uuid::Uuid::new_v4().to_string()
}

/// Relies on `chrono::Utc::now` and its calendar accessors: year (never
/// before 1970, as `now` does not return earlier times), month (1 to 12),
/// day (1 to 31), hour (0 to 23), minute and second (0 to 59).
#[verifier::external_body]
fn utc_now_parts() -> (r: (i32, u32, u32, u32, u32, u32))
    ensures
        r.0 >= 1970,
        1 <= r.1 <= 12,
        1 <= r.2 <= 31,
        r.3 <= 23,
        r.4 <= 59,
        r.5 <= 59,
{
    let now = chrono::Utc::now();
    (now.year(), now.month(), now.day(), now.hour(), now.minute(), now.second())
}

/// A UTC calendar time to the second.
#[derive(Clone, Copy, Debug, PartialEq, Eq, Structural)]
pub struct UtcStamp {
    pub year: i32,
    pub month: u32,
    pub day: u32,
    pub hour: u32,
    pub minute: u32,
    pub second: u32,
}

impl UtcStamp {
    pub open spec fn wf(self) -> bool {
        &&& 1 <= self.month <= 12
        &&& 1 <= self.day <= 31
        &&& self.hour <= 23
        &&& self.minute <= 59
        &&& self.second <= 59
    }

    /// The year as `%Y` writes it: four digits at least, and a sign outside 0 to 9999.
    pub open spec fn year_text(self) -> Seq<char> {
        if self.year < 0 {
            seq!['-'] + padded_decimal((-self.year) as nat, 4)
        } else if self.year > 9999 {
            seq!['+'] + padded_decimal(self.year as nat, 4)
        } else {
            padded_decimal(self.year as nat, 4)
        }
    }

    /// `YYYYMMDD_HHMMSS`.
    pub open spec fn spec_compact(self) -> Seq<char> {
        self.year_text() + padded_decimal(self.month as nat, 2) + padded_decimal(self.day as nat, 2)
            + seq!['_'] + padded_decimal(self.hour as nat, 2) + padded_decimal(self.minute as nat, 2)
            + padded_decimal(self.second as nat, 2)
    }

    fn year_digits(&self) -> (r: String)
        ensures
            r@ == self.year_text(),
    {
        proof {
            reveal_strlit("-");
            reveal_strlit("+");
        }
        if self.year < 0 {
            let magnitude: u64 = if self.year == i32::MIN {
                2147483648u64
            } else {
                (-self.year) as u64
            };
            join2("-", padded_decimal_text(magnitude, 4).as_str())
        } else if self.year > 9999 {
            join2("+", padded_decimal_text(self.year as u64, 4).as_str())
        } else {
            padded_decimal_text(self.year as u64, 4)
        }
    }

    /// See `spec_compact`.
    pub fn compact(&self) -> (r: String)
        ensures
            r@ == self.spec_compact(),
    {
        proof {
            reveal_strlit("-");
            reveal_strlit("+");
            reveal_strlit("_");
        }
        let date = join3(
            self.year_digits().as_str(),
            padded_decimal_text(self.month as u64, 2).as_str(),
            padded_decimal_text(self.day as u64, 2).as_str(),
        );
        let time = join3(
            padded_decimal_text(self.hour as u64, 2).as_str(),
            padded_decimal_text(self.minute as u64, 2).as_str(),
            padded_decimal_text(self.second as u64, 2).as_str(),
        );
        join3(date.as_str(), "_", time.as_str())
    }
}

/// Name of the snapshot directory of a deploy started at `t`.
pub open spec fn backup_name(t: UtcStamp) -> Seq<char> {
    "backup_"@ + t.spec_compact()
}

/// See `backup_name`.
pub fn backup_folder_name(t: &UtcStamp) -> (r: String)
    ensures
        r@ == backup_name(*t),
{
    join2("backup_", t.compact().as_str())
}

/// Identity and start time of one deploy.
pub struct DeployManager {
    pub deploy_id: String,
    pub start_time: UtcStamp,
}

impl DeployManager {
    /// A fresh random UUID as deploy id, and the current UTC time.
    pub fn new() -> (r: Self)
        ensures
            is_uuid_v4_text(r.deploy_id@),
            r.start_time.wf(),
            r.start_time.year >= 1970,
    {
        let deploy_id = new_deploy_id();
        let (year, month, day, hour, minute, second) = utc_now_parts();
        DeployManager {
            deploy_id,
            start_time: UtcStamp { year, month, day, hour, minute, second },
        }
    }

    /// A deploy with a given id and start time.
    pub fn with_identity(deploy_id: String, start_time: UtcStamp) -> (r: Self)
        ensures
            r.deploy_id == deploy_id,
            r.start_time == start_time,
    {
        DeployManager { deploy_id, start_time }
    }
}

impl Default for DeployManager {
    fn default() -> (r: Self)
        ensures
            is_uuid_v4_text(r.deploy_id@),
            r.start_time.wf(),
            r.start_time.year >= 1970,
    {
        DeployManager::new()
    }
}

/// Where the backups of `package_name` go: the configured backup path, else a
/// directory named after the package beside the executable (`exe_dir`).
pub open spec fn backup_root(config: ServerPackageConfig, package_name: Seq<char>, exe_dir: Option<Seq<char>>) -> Option<Seq<char>> {
    match config.backup_path {
        Some(p) => Some(p@),
        None => match exe_dir {
            Some(d) => Some(joined_path(d, package_name)),
            None => None,
        },
    }
}

/// The text of an optional borrowed string.
pub open spec fn text_opt(o: Option<&str>) -> Option<Seq<char>> {
    match o {
        Some(s) => Some(s@),
        None => None,
    }
}

/// See `backup_root`; without an executable directory to fall back on, a file-system error.
pub fn resolve_backup_directory(config: &ServerPackageConfig, package_name: &str, exe_dir: Option<&str>) -> (r: Result<String, AdeployError>)
    ensures
        r is Ok <==> backup_root(*config, package_name@, text_opt(exe_dir)) is Some,
        r is Ok ==> r->Ok_0@ == backup_root(*config, package_name@, text_opt(exe_dir))->0,
        r is Err ==> r->Err_0@ == (ErrorKind::FileSystem, "Failed to get parent directory of executable"@),
{
    match &config.backup_path {
        Some(p) => Ok(p.clone()),
        None => match exe_dir {
            Some(d) => Ok(join_path(d, package_name)),
            None => Err(AdeployError::FileSystem(String::from_str("Failed to get parent directory of executable"))),
        },
    }
}

/// What a source path turned out to be on disk.
#[derive(Clone, Copy, Debug, PartialEq, Eq, Structural)]
pub enum SourceKind {
    Missing,
    File,
    Directory,
    Other,
}

/// How one source enters the archive.
#[derive(Clone, Debug)]
pub enum ArchiveStep {
    /// A regular file, at its base name.
    AddFile { path: String, name: String },
    /// A directory, its contents rooted at the archive root.
    AddDirectoryContents { path: String },
    /// Neither file nor directory: nothing is added.
    Skip,
}

/// How a source path of the given kind enters the archive: a file at its base
/// name, a directory unprefixed, a missing path an error.
pub fn archive_step(source: &str, kind: SourceKind) -> (r: Result<ArchiveStep, AdeployError>)
    ensures
        kind == SourceKind::Missing ==> r is Err && r->Err_0@ == (ErrorKind::FileSystem, "Source path '"@ + source@ + "' does not exist"@),
        kind == SourceKind::File && base_name(source@).len() == 0 ==> r is Err && r->Err_0@ == (ErrorKind::FileSystem, "Invalid file name"@),
        kind == SourceKind::File && base_name(source@).len() > 0 ==> (r matches Ok(ArchiveStep::AddFile { path, name }) && path@ == source@ && name@ == base_name(source@)),
        kind == SourceKind::Directory ==> (r matches Ok(ArchiveStep::AddDirectoryContents { path }) && path@ == source@),
        kind == SourceKind::Other ==> r matches Ok(ArchiveStep::Skip),
{
    match kind {
        SourceKind::Missing => Err(AdeployError::FileSystem(join3("Source path '", source, "' does not exist"))),
        SourceKind::File => {
            let name = base_name_of(source);
            if name.as_str().unicode_len() == 0 {
                Err(AdeployError::FileSystem(String::from_str("Invalid file name")))
            } else {
                Ok(ArchiveStep::AddFile { path: String::from_str(source), name })
            }
        },
        SourceKind::Directory => Ok(ArchiveStep::AddDirectoryContents { path: String::from_str(source) }),
        SourceKind::Other => Ok(ArchiveStep::Skip),
    }
}

/// A finished archive with its hex SHA-256, as the client sends them.
pub fn finish_package(archive: Vec<u8>) -> (r: (Vec<u8>, String))
    ensures
        r.0@ == archive@,
        r.1@ == archive_hash_text(archive@),
        r.1@.len() == 64,
{
    let hash = archive_hash(archive.as_slice());
    (archive, hash)
}

/// What the host shell reported for one hook command.
pub struct HookOutput {
    /// Exit code; `None` when the process ended without one (killed by a signal).
    pub exit_code: Option<i32>,
    pub stdout: String,
    pub stderr: String,
}

/// The non-empty lines among `ls`.
pub open spec fn non_empty(ls: Seq<Seq<char>>) -> Seq<Seq<char>>
    decreases ls.len(),
{
    if ls.len() == 0 {
        ls
    } else if ls.last().len() == 0 {
        non_empty(ls.drop_last())
    } else {
        non_empty(ls.drop_last()).push(ls.last())
    }
}

/// Transcript lines for a hook's output: each non-empty stdout line at info,
/// then each non-empty stderr line at warn, prefixed `STDERR: `.
pub open spec fn hook_lines(stdout: Seq<char>, stderr: Seq<char>) -> Seq<(LogLevel, Seq<char>)> {
    non_empty(text_lines(stdout)).map_values(|l: Seq<char>| (LogLevel::Info, l))
        + non_empty(text_lines(stderr)).map_values(|l: Seq<char>| (LogLevel::Warn, "STDERR: "@ + l))
}

/// The transcript as plain values.
pub open spec fn entries_view(logs: Seq<DeployLogEntry>) -> Seq<(LogLevel, Seq<char>)> {
    logs.map_values(|e: DeployLogEntry| (e.level, e.message@))
}

fn push_lines(logs: &mut Vec<DeployLogEntry>, text: &str, stderr: bool)
    ensures
        entries_view(final(logs)@) == entries_view(old(logs)@) + (if stderr {
            non_empty(text_lines(text@)).map_values(|l: Seq<char>| (LogLevel::Warn, "STDERR: "@ + l))
        } else {
            non_empty(text_lines(text@)).map_values(|l: Seq<char>| (LogLevel::Info, l))
        }),
{
    let lines = split_lines(text);
    let ghost ls = text_lines(text@);
    let ghost start = entries_view(logs@);
    let mut i: usize = 0;
    while i < lines.len()
        invariant
            lines@.map_values(|l: String| l@) == ls,
            i <= lines@.len(),
            entries_view(logs@) == start + (if stderr {
                non_empty(ls.subrange(0, i as int)).map_values(|l: Seq<char>| (LogLevel::Warn, "STDERR: "@ + l))
            } else {
                non_empty(ls.subrange(0, i as int)).map_values(|l: Seq<char>| (LogLevel::Info, l))
            }),
        decreases lines@.len() - i,
    {
        let ghost pre = ls.subrange(0, i as int);
        let ghost post = ls.subrange(0, i as int + 1);
        assert(post.drop_last() =~= pre);
        assert(post.last() == lines@[i as int]@);
        let ghost before = logs@;
        if lines[i].as_str().unicode_len() > 0 {
            let entry = if stderr {
                DeployLogEntry::warn(join2("STDERR: ", lines[i].as_str()))
            } else {
                DeployLogEntry::info(lines[i].clone())
            };
            logs.push(entry);
            assert(entries_view(logs@) =~= entries_view(before).push((entry.level, entry.message@)));
            if stderr {
                assert(non_empty(post).map_values(|l: Seq<char>| (LogLevel::Warn, "STDERR: "@ + l)) =~= non_empty(pre).map_values(|l: Seq<char>| (LogLevel::Warn, "STDERR: "@ + l)).push((entry.level, entry.message@)));
            } else {
                assert(non_empty(post).map_values(|l: Seq<char>| (LogLevel::Info, l)) =~= non_empty(pre).map_values(|l: Seq<char>| (LogLevel::Info, l)).push((entry.level, entry.message@)));
            }
        }
        i = i + 1;
    }
    assert(ls.subrange(0, lines@.len() as int) =~= ls);
}

/// Text of a hook's failure: the command and its exit code (`-1` without one).
pub open spec fn script_failure_text(command: Seq<char>, exit_code: Option<i32>) -> Seq<char> {
    "Script '"@ + command + "' execution failed with exit code: "@ + signed_decimal(
        match exit_code {
            Some(c) => c as int,
            None => -1,
        },
    )
}

/// Transcript lines and verdict of one hook run.
pub struct ScriptRun {
    pub logs: Vec<DeployLogEntry>,
    pub error: Option<AdeployError>,
}

/// What one hook run contributes: its output lines, and a deploy error exactly
/// when it did not exit with code zero.
pub fn script_result(command: &str, output: &HookOutput) -> (r: ScriptRun)
    ensures
        entries_view(r.logs@) == hook_lines(output.stdout@, output.stderr@),
        r.error is None <==> output.exit_code == Some(0i32),
        r.error matches Some(e) ==> e@ == (ErrorKind::Deploy, script_failure_text(command@, output.exit_code)),
{
    let mut logs: Vec<DeployLogEntry> = Vec::new();
    assert(entries_view(logs@) =~= Seq::<(LogLevel, Seq<char>)>::empty());
    push_lines(&mut logs, output.stdout.as_str(), false);
    push_lines(&mut logs, output.stderr.as_str(), true);
    let error = match output.exit_code {
        Some(0i32) => None,
        _ => {
            let code: i64 = match output.exit_code {
                Some(c) => c as i64,
                None => -1,
            };
            let text = join4(
                "Script '",
                command,
                "' execution failed with exit code: ",
                signed_decimal_text(code).as_str(),
            );
            Some(AdeployError::Deploy(text))
        },
    };
    ScriptRun { logs, error }
}

} // verus!
