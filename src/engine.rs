//! One deploy as a state machine. The engine decides; the caller performs each
//! action it asks for (run a hook, take the snapshot, extract the archive) and
//! reports the result back, until the engine asks for nothing more.
//!
//! Order: hash check, pre-hook, backup, extraction, post-hook. A failure of
//! any of the first four ends the deploy; a failing post-hook is recorded in
//! the transcript and the deploy still succeeds.

use vstd::prelude::*;
use crate::config::ServerPackageConfig;
use crate::deploy::{
    backup_folder_name, backup_name, backup_root, entries_view, hook_lines, resolve_backup_directory,
    script_failure_text, script_result, text_opt, DeployManager, HookOutput, UtcStamp,
};
use crate::deploy_log::{DeployLogEntry, LogLevel};
use crate::digest::{archive_hash_text, hash_mismatch_text, verify_archive_hash};
use crate::error::{error_text, AdeployError, ErrorKind};
use crate::protocol::DeployResponse;
use crate::text::{join2, join3, join4, join_path, joined_path};

verus! {

/// Where a deploy stands.
#[derive(Clone, Copy, Debug, PartialEq, Eq, Structural)]
pub enum Stage {
    /// Waiting for the pre-hook to run.
    PreHook,
    /// Waiting for the snapshot of the deploy directory.
    Backup,
    /// Waiting for the archive to be extracted.
    Extract,
    /// Waiting for the post-hook to run.
    PostHook,
    Completed,
    Failed,
}

/// What the engine asks its caller to do next.
pub enum Action {
    /// Run this command under the host shell and report its output.
    RunHook { command: String },
    /// Create `backup_root` (with parents); if `deploy_path` exists, copy its
    /// contents into `snapshot_path`, and report whether it did.
    Backup { deploy_path: String, backup_root: String, snapshot_path: String },
    /// Create `deploy_path` (with parents) and extract the archive into it.
    Extract { deploy_path: String },
    /// Nothing more: the deploy is over.
    Finish,
}

/// A transcript line as a plain value.
pub type Line = (LogLevel, Seq<char>);

/// An error as a plain value.
pub type Fault = (ErrorKind, Seq<char>);

pub open spec fn info(t: Seq<char>) -> Line {
    (LogLevel::Info, t)
}

pub open spec fn error_line(t: Seq<char>) -> Line {
    (LogLevel::Error, t)
}

pub open spec fn opening_text(id: Seq<char>) -> Seq<char> {
    "["@ + id + "] Starting deployment execution"@
}

pub open spec fn completion_text(id: Seq<char>) -> Seq<char> {
    "["@ + id + "] Deployment completed successfully"@
}

/// The error of a backup root that cannot be resolved.
pub open spec fn no_exe_dir_fault() -> Fault {
    (ErrorKind::FileSystem, "Failed to get parent directory of executable"@)
}

/// Entering the extraction stage.
pub open spec fn arrive_extract() -> (Stage, Seq<Line>, Option<Fault>) {
    (Stage::Extract, seq![info("Extracting files..."@)], None)
}

/// Entering the backup stage, which is passed over when backups are off and
/// fails at once when the backup root cannot be resolved.
pub open spec fn arrive_backup(pkg: ServerPackageConfig, name: Seq<char>, exe_dir: Option<Seq<char>>) -> (Stage, Seq<Line>, Option<Fault>) {
    if !pkg.backup_enabled {
        arrive_extract()
    } else if backup_root(pkg, name, exe_dir) is Some {
        (Stage::Backup, seq![info("Creating backup snapshot"@)], None)
    } else {
        (
            Stage::Failed,
            seq![
                info("Creating backup snapshot"@),
                error_line("Backup failed: "@ + error_text(no_exe_dir_fault())),
            ],
            Some(no_exe_dir_fault()),
        )
    }
}

/// Entering the pre-hook stage, passed over when no pre-hook is configured.
pub open spec fn arrive_pre(pkg: ServerPackageConfig, name: Seq<char>, exe_dir: Option<Seq<char>>) -> (Stage, Seq<Line>, Option<Fault>) {
    if pkg.before_deploy_script is Some {
        (Stage::PreHook, seq![info("Running Before-deploy script..."@)], None)
    } else {
        let a = arrive_backup(pkg, name, exe_dir);
        (a.0, seq![info("No Before-deploy script configured"@)] + a.1, a.2)
    }
}

/// Entering the post-hook stage, passed over when no post-hook is configured.
pub open spec fn arrive_post(pkg: ServerPackageConfig, id: Seq<char>) -> (Stage, Seq<Line>, Option<Fault>) {
    if pkg.after_deploy_script is Some {
        (Stage::PostHook, seq![info("Running After-deploy script..."@)], None)
    } else {
        (
            Stage::Completed,
            seq![info("No After-deploy script configured"@), info(completion_text(id))],
            None,
        )
    }
}

/// The outcome of asking the shell to run a hook: its output, or the text of
/// the reason it could not be started.
pub enum HookReport {
    Ran(HookOutput),
    NotStarted(String),
}

/// Output lines of a hook report, and its error if the hook failed.
pub open spec fn hook_report_view(command: Seq<char>, report: HookReport) -> (Seq<Line>, Option<Fault>) {
    match report {
        HookReport::Ran(out) => (
            hook_lines(out.stdout@, out.stderr@),
            if out.exit_code == Some(0i32) {
                None
            } else {
                Some((ErrorKind::Deploy, script_failure_text(command, out.exit_code)))
            },
        ),
        HookReport::NotStarted(m) => (
            Seq::empty(),
            Some((ErrorKind::Deploy, "Failed to execute script '"@ + command + "': "@ + m@)),
        ),
    }
}

/// The stage that follows `stage` when its action succeeded (`ok`) or failed.
pub open spec fn next_stage(stage: Stage, pkg: ServerPackageConfig, name: Seq<char>, exe_dir: Option<Seq<char>>, ok: bool) -> Stage {
    match stage {
        Stage::PreHook => if ok { arrive_backup(pkg, name, exe_dir).0 } else { Stage::Failed },
        Stage::Backup => if ok { Stage::Extract } else { Stage::Failed },
        Stage::Extract => if ok { arrive_post(pkg, name).0 } else { Stage::Failed },
        Stage::PostHook => Stage::Completed,
        Stage::Completed => Stage::Completed,
        Stage::Failed => Stage::Failed,
    }
}

/// The stage a deploy is in right after it starts: the first stage with work
/// when the archive matches its hash, else failed.
pub open spec fn start_stage(pkg: ServerPackageConfig, name: Seq<char>, exe_dir: Option<Seq<char>>, hash_ok: bool) -> Stage {
    if hash_ok {
        arrive_pre(pkg, name, exe_dir).0
    } else {
        Stage::Failed
    }
}

/// Whether the engine still asks its caller for work in this stage.
pub open spec fn work_pending(s: Stage) -> bool {
    s != Stage::Completed && s != Stage::Failed
}

/// Position of a stage in the fixed order of a deploy.
pub open spec fn rank(s: Stage) -> int {
    match s {
        Stage::PreHook => 1,
        Stage::Backup => 2,
        Stage::Extract => 3,
        Stage::PostHook => 4,
        Stage::Completed => 5,
        Stage::Failed => 5,
    }
}

/// One deploy in progress.
pub struct DeployEngine {
    deploy_id: String,
    start_time: UtcStamp,
    package_name: String,
    package: ServerPackageConfig,
    exe_dir: Option<String>,
    archive: Vec<u8>,
    stage: Stage,
    logs: Vec<DeployLogEntry>,
    failure: Option<AdeployError>,
}

fn push_line(logs: &mut Vec<DeployLogEntry>, level: LogLevel, text: String)
    ensures
        entries_view(final(logs)@) == entries_view(old(logs)@).push((level, text@)),
{
    let ghost before = logs@;
    logs.push(DeployLogEntry::new(level, text));
    assert(entries_view(logs@) =~= entries_view(before).push((level, text@)));
}

fn push_all(logs: &mut Vec<DeployLogEntry>, more: Vec<DeployLogEntry>)
    ensures
        entries_view(final(logs)@) == entries_view(old(logs)@) + entries_view(more@),
{
    let ghost before = logs@;
    let mut more = more;
    let ghost m = more@;
    logs.append(&mut more);
    assert(entries_view(logs@) =~= entries_view(before) + entries_view(m));
}

impl DeployEngine {
    pub closed spec fn stage(&self) -> Stage {
        self.stage
    }

    pub closed spec fn transcript(&self) -> Seq<Line> {
        entries_view(self.logs@)
    }

    pub closed spec fn failure(&self) -> Option<Fault> {
        match self.failure {
            Some(e) => Some(e@),
            None => None,
        }
    }

    pub closed spec fn id(&self) -> Seq<char> {
        self.deploy_id@
    }

    pub closed spec fn started(&self) -> UtcStamp {
        self.start_time
    }

    pub closed spec fn package_name(&self) -> Seq<char> {
        self.package_name@
    }

    pub closed spec fn package(&self) -> ServerPackageConfig {
        self.package
    }

    pub closed spec fn exe_dir(&self) -> Option<Seq<char>> {
        match self.exe_dir {
            Some(d) => Some(d@),
            None => None,
        }
    }

    pub closed spec fn archive_bytes(&self) -> Seq<u8> {
        self.archive@
    }

    /// The identity, configuration and archive of a deploy stay fixed while it runs.
    pub open spec fn same_deploy(&self, other: &Self) -> bool {
        &&& self.id() == other.id()
        &&& self.started() == other.started()
        &&& self.package_name() == other.package_name()
        &&& self.package() == other.package()
        &&& self.exe_dir() == other.exe_dir()
        &&& self.archive_bytes() == other.archive_bytes()
    }

    /// Failed exactly when an error is recorded, and each waiting stage has its work.
    pub open spec fn wf(&self) -> bool {
        &&& (self.stage() == Stage::Failed <==> self.failure() is Some)
        &&& self.stage() == Stage::PreHook ==> self.package().before_deploy_script is Some
        &&& self.stage() == Stage::PostHook ==> self.package().after_deploy_script is Some
        &&& self.stage() == Stage::Backup ==> self.package().backup_enabled && backup_root(
            self.package(),
            self.package_name(),
            self.exe_dir(),
        ) is Some
    }

    /// Where the snapshot of this deploy goes: under the backup root, named
    /// after the deploy's start time.
    pub open spec fn snapshot_path(&self) -> Seq<char> {
        joined_path(
            backup_root(self.package(), self.package_name(), self.exe_dir())->0,
            backup_name(self.started()),
        )
    }

    /// Starts a deploy of `archive` for the package `package_name`: checks the
    /// archive against `expected_hash`, then moves to the first stage with work.
    pub fn start(manager: &DeployManager, package_name: String, package: ServerPackageConfig, archive: Vec<u8>, expected_hash: &str, exe_dir: Option<String>) -> (r: Self)
        ensures
            r.wf(),
            r.id() == manager.deploy_id@,
            r.started() == manager.start_time,
            r.package_name() == package_name@,
            r.package() == package,
            r.exe_dir() == text_opt_owned(exe_dir),
            r.stage() == start_stage(package, package_name@, text_opt_owned(exe_dir), archive_hash_text(archive@) == expected_hash@),
            archive_hash_text(archive@) == expected_hash@ ==> {
                let a = arrive_pre(package, package_name@, text_opt_owned(exe_dir));
                &&& r.archive_bytes() == archive@
                &&& r.stage() == a.0
                &&& r.failure() == a.2
                &&& r.transcript() == seq![info(opening_text(manager.deploy_id@)), info("Archive hash verified"@)] + a.1
            },
            archive_hash_text(archive@) != expected_hash@ ==> {
                let f = (ErrorKind::Deploy, hash_mismatch_text(expected_hash@, archive_hash_text(archive@)));
                &&& r.stage() == Stage::Failed
                &&& r.failure() == Some(f)
                &&& r.transcript() == seq![info(opening_text(manager.deploy_id@)), error_line("Archive verification failed: "@ + error_text(f))]
            },
    {
        let mut logs: Vec<DeployLogEntry> = Vec::new();
        assert(entries_view(logs@) =~= Seq::<Line>::empty());
        push_line(&mut logs, LogLevel::Info, join3("[", manager.deploy_id.as_str(), "] Starting deployment execution"));
        let ghost bytes = archive@;
        match verify_archive_hash(archive, expected_hash) {
            Ok(archive) => {
                push_line(&mut logs, LogLevel::Info, String::from_str("Archive hash verified"));
                let mut engine = DeployEngine {
                    deploy_id: manager.deploy_id.clone(),
                    start_time: manager.start_time,
                    package_name,
                    package,
                    exe_dir,
                    archive,
                    // placeholder: `enter_pre` sets the first stage with work
                    stage: Stage::Failed,
                    logs,
                    failure: None,
                };
                engine.enter_pre();
                engine
            },
            Err(e) => {
                push_line(&mut logs, LogLevel::Error, join2("Archive verification failed: ", e.text().as_str()));
                DeployEngine {
                    deploy_id: manager.deploy_id.clone(),
                    start_time: manager.start_time,
                    package_name,
                    package,
                    exe_dir,
                    archive: Vec::new(),
                    stage: Stage::Failed,
                    logs,
                    failure: Some(e),
                }
            },
        }
    }
}

impl DeployEngine {
    fn fail(&mut self, prefix: &str, e: AdeployError)
        requires
            old(self).failure is None,
        ensures
            final(self).same_deploy(old(self)),
            final(self).stage() == Stage::Failed,
            final(self).failure() == Some(e@),
            final(self).transcript() == old(self).transcript().push(error_line(prefix@ + error_text(e@))),
    {
        let text = join2(prefix, e.text().as_str());
        push_line(&mut self.logs, LogLevel::Error, text);
        self.stage = Stage::Failed;
        self.failure = Some(e);
    }

    fn enter_extract(&mut self)
        requires
            old(self).failure is None,
        ensures
            final(self).same_deploy(old(self)),
            final(self).stage() == arrive_extract().0,
            final(self).failure() == arrive_extract().2,
            final(self).transcript() == old(self).transcript() + arrive_extract().1,
    {
        push_line(&mut self.logs, LogLevel::Info, String::from_str("Extracting files..."));
        self.stage = Stage::Extract;
        assert(self.transcript() =~= old(self).transcript() + arrive_extract().1);
    }

    fn enter_backup(&mut self)
        requires
            old(self).failure is None,
        ensures
            final(self).same_deploy(old(self)),
            final(self).stage() == arrive_backup(old(self).package(), old(self).package_name(), old(self).exe_dir()).0,
            final(self).failure() == arrive_backup(old(self).package(), old(self).package_name(), old(self).exe_dir()).2,
            final(self).transcript() == old(self).transcript() + arrive_backup(old(self).package(), old(self).package_name(), old(self).exe_dir()).1,
    {
        if !self.package.backup_enabled {
            self.enter_extract();
            return;
        }
        push_line(&mut self.logs, LogLevel::Info, String::from_str("Creating backup snapshot"));
        let exe_dir: Option<&str> = match &self.exe_dir {
            Some(d) => Some(d.as_str()),
            None => None,
        };
        assert(text_opt(exe_dir) == self.exe_dir());
        match resolve_backup_directory(&self.package, self.package_name.as_str(), exe_dir) {
            Ok(_) => {
                self.stage = Stage::Backup;
                assert(self.transcript() =~= old(self).transcript() + arrive_backup(old(self).package(), old(self).package_name(), old(self).exe_dir()).1);
            },
            Err(e) => {
                self.fail("Backup failed: ", e);
                assert(self.transcript() =~= old(self).transcript() + arrive_backup(old(self).package(), old(self).package_name(), old(self).exe_dir()).1);
            },
        }
    }

    fn enter_pre(&mut self)
        requires
            old(self).failure is None,
        ensures
            final(self).same_deploy(old(self)),
            final(self).stage() == arrive_pre(old(self).package(), old(self).package_name(), old(self).exe_dir()).0,
            final(self).failure() == arrive_pre(old(self).package(), old(self).package_name(), old(self).exe_dir()).2,
            final(self).transcript() == old(self).transcript() + arrive_pre(old(self).package(), old(self).package_name(), old(self).exe_dir()).1,
    {
        if self.package.before_deploy_script.is_some() {
            push_line(&mut self.logs, LogLevel::Info, String::from_str("Running Before-deploy script..."));
            self.stage = Stage::PreHook;
            assert(self.transcript() =~= old(self).transcript() + arrive_pre(old(self).package(), old(self).package_name(), old(self).exe_dir()).1);
        } else {
            push_line(&mut self.logs, LogLevel::Info, String::from_str("No Before-deploy script configured"));
            let ghost mid = self.transcript();
            self.enter_backup();
            assert(self.transcript() =~= old(self).transcript() + arrive_pre(old(self).package(), old(self).package_name(), old(self).exe_dir()).1);
        }
    }

    fn enter_post(&mut self)
        requires
            old(self).failure is None,
        ensures
            final(self).same_deploy(old(self)),
            final(self).stage() == arrive_post(old(self).package(), old(self).id()).0,
            final(self).failure() == arrive_post(old(self).package(), old(self).id()).2,
            final(self).transcript() == old(self).transcript() + arrive_post(old(self).package(), old(self).id()).1,
    {
        if self.package.after_deploy_script.is_some() {
            push_line(&mut self.logs, LogLevel::Info, String::from_str("Running After-deploy script..."));
            self.stage = Stage::PostHook;
        } else {
            push_line(&mut self.logs, LogLevel::Info, String::from_str("No After-deploy script configured"));
            push_line(&mut self.logs, LogLevel::Info, join3("[", self.deploy_id.as_str(), "] Deployment completed successfully"));
            self.stage = Stage::Completed;
        }
        assert(self.transcript() =~= old(self).transcript() + arrive_post(old(self).package(), old(self).id()).1);
    }
}

/// Transcript line that closes a hook stage, by stage and fault.
pub open spec fn hook_close_line(stage: Stage, fault: Option<Fault>) -> Line {
    if stage == Stage::PreHook {
        match fault {
            None => info("Before-deploy script succeeded"@),
            Some(f) => error_line("Before-deploy script failed: "@ + error_text(f)),
        }
    } else {
        match fault {
            None => info("After-deploy script succeeded"@),
            Some(f) => error_line("After-deploy script failed: "@ + error_text(f)),
        }
    }
}

/// Transcript lines of the answer to a finished deploy: the engine's
/// transcript; on failure it is preceded by the error and, for a deploy
/// error, its details.
pub open spec fn response_lines(transcript: Seq<Line>, failure: Option<Fault>) -> Seq<Line> {
    match failure {
        None => transcript,
        Some(f) => seq![error_line("Deployment failed: "@ + error_text(f))] + (
        if f.0 == ErrorKind::Deploy {
            seq![error_line("Details: "@ + f.1)]
        } else {
            Seq::empty()
        }) + transcript,
    }
}

impl DeployEngine {
    /// The archive, exactly the bytes whose hash was checked.
    pub fn archive(&self) -> (r: &Vec<u8>)
        ensures
            r@ == self.archive_bytes(),
    {
        &self.archive
    }

    /// What the caller must do next.
    pub fn next_action(&self) -> (r: Action)
        requires
            self.wf(),
        ensures
            self.stage() == Stage::PreHook ==> (r matches Action::RunHook { command } && command@
                == self.package().before_deploy_script->0@),
            self.stage() == Stage::PostHook ==> (r matches Action::RunHook { command } && command@
                == self.package().after_deploy_script->0@),
            self.stage() == Stage::Backup ==> (r matches Action::Backup {
                deploy_path,
                backup_root: root,
                snapshot_path,
            } && deploy_path@ == self.package().deploy_path@ && root@ == backup_root(
                self.package(),
                self.package_name(),
                self.exe_dir(),
            )->0 && snapshot_path@ == self.snapshot_path()),
            self.stage() == Stage::Extract ==> (r matches Action::Extract { deploy_path }
                && deploy_path@ == self.package().deploy_path@),
            !work_pending(self.stage()) ==> r is Finish,
    {
        match self.stage {
            Stage::PreHook => {
                let command = match &self.package.before_deploy_script {
                    Some(c) => c.clone(),
                    None => String::new(),
                };
                Action::RunHook { command }
            },
            Stage::PostHook => {
                let command = match &self.package.after_deploy_script {
                    Some(c) => c.clone(),
                    None => String::new(),
                };
                Action::RunHook { command }
            },
            Stage::Backup => {
                let exe_dir: Option<&str> = match &self.exe_dir {
                    Some(d) => Some(d.as_str()),
                    None => None,
                };
                assert(text_opt(exe_dir) == self.exe_dir());
                let root = match resolve_backup_directory(&self.package, self.package_name.as_str(), exe_dir) {
                    Ok(p) => p,
                    Err(_) => String::new(),
                };
                let snapshot_path = join_path(root.as_str(), backup_folder_name(&self.start_time).as_str());
                Action::Backup { deploy_path: self.package.deploy_path.clone(), backup_root: root, snapshot_path }
            },
            Stage::Extract => Action::Extract { deploy_path: self.package.deploy_path.clone() },
            _ => Action::Finish,
        }
    }

    /// Records the outcome of the hook that `next_action` asked for. A failing
    /// pre-hook ends the deploy; a failing post-hook is logged and the deploy
    /// completes all the same.
    pub fn hook_finished(&mut self, report: HookReport)
        requires
            old(self).wf(),
            old(self).stage() == Stage::PreHook || old(self).stage() == Stage::PostHook,
        ensures
            final(self).wf(),
            final(self).same_deploy(old(self)),
            ({
                let pre = old(self).stage() == Stage::PreHook;
                let command = if pre {
                    old(self).package().before_deploy_script->0@
                } else {
                    old(self).package().after_deploy_script->0@
                };
                let v = hook_report_view(command, report);
                let base = old(self).transcript() + v.0 + seq![hook_close_line(old(self).stage(), v.1)];
                if pre {
                    if v.1 is None {
                        let a = arrive_backup(old(self).package(), old(self).package_name(), old(self).exe_dir());
                        &&& final(self).stage() == a.0
                        &&& final(self).failure() == a.2
                        &&& final(self).transcript() == base + a.1
                    } else {
                        &&& final(self).stage() == Stage::Failed
                        &&& final(self).failure() == v.1
                        &&& final(self).transcript() == base
                    }
                } else {
                    &&& final(self).stage() == Stage::Completed
                    &&& final(self).failure() is None
                    &&& final(self).transcript() == base + seq![info(completion_text(old(self).id()))]
                }
            }),
    {
        let pre = self.stage == Stage::PreHook;
        let command = if pre {
            match &self.package.before_deploy_script {
                Some(c) => c.clone(),
                None => String::new(),
            }
        } else {
            match &self.package.after_deploy_script {
                Some(c) => c.clone(),
                None => String::new(),
            }
        };
        let ghost v = hook_report_view(command@, report);
        let fault: Option<AdeployError> = match report {
            HookReport::Ran(out) => {
                let run = script_result(command.as_str(), &out);
                push_all(&mut self.logs, run.logs);
                run.error
            },
            HookReport::NotStarted(m) => {
                assert(entries_view(Seq::<DeployLogEntry>::empty()) =~= Seq::<Line>::empty());
                assert(self.transcript() =~= old(self).transcript() + v.0);
                Some(AdeployError::Deploy(join4("Failed to execute script '", command.as_str(), "': ", m.as_str())))
            },
        };
        assert(self.transcript() == old(self).transcript() + v.0);
        let ghost mid = self.transcript();
        if pre {
            match fault {
                None => {
                    push_line(&mut self.logs, LogLevel::Info, String::from_str("Before-deploy script succeeded"));
                    self.enter_backup();
                    assert(self.transcript() =~= mid + seq![hook_close_line(Stage::PreHook, v.1)] + arrive_backup(old(self).package(), old(self).package_name(), old(self).exe_dir()).1);
                },
                Some(e) => {
                    self.fail("Before-deploy script failed: ", e);
                },
            }
        } else {
            match fault {
                None => {
                    push_line(&mut self.logs, LogLevel::Info, String::from_str("After-deploy script succeeded"));
                },
                Some(e) => {
                    let text = join2("After-deploy script failed: ", e.text().as_str());
                    push_line(&mut self.logs, LogLevel::Error, text);
                },
            }
            push_line(&mut self.logs, LogLevel::Info, join3("[", self.deploy_id.as_str(), "] Deployment completed successfully"));
            self.stage = Stage::Completed;
        }
    }

    /// Records the outcome of the snapshot: `Ok(true)` when the deploy
    /// directory was copied, `Ok(false)` when there was none to copy.
    pub fn backup_finished(&mut self, report: Result<bool, AdeployError>)
        requires
            old(self).wf(),
            old(self).stage() == Stage::Backup,
        ensures
            final(self).wf(),
            final(self).same_deploy(old(self)),
            report matches Ok(copied) ==> {
                let note = if copied {
                    info("Backup stored at "@ + old(self).snapshot_path())
                } else {
                    info("No existing deployment at "@ + old(self).package().deploy_path@ + "; skipping backup"@)
                };
                &&& final(self).stage() == Stage::Extract
                &&& final(self).failure() is None
                &&& final(self).transcript() == old(self).transcript() + seq![note] + arrive_extract().1
            },
            report matches Err(e) ==> {
                &&& final(self).stage() == Stage::Failed
                &&& final(self).failure() == Some(e@)
                &&& final(self).transcript() == old(self).transcript() + seq![error_line("Backup failed: "@ + error_text(e@))]
            },
    {
        match report {
            Ok(copied) => {
                if copied {
                    let exe_dir: Option<&str> = match &self.exe_dir {
                        Some(d) => Some(d.as_str()),
                        None => None,
                    };
                    assert(text_opt(exe_dir) == self.exe_dir());
                    let root = match resolve_backup_directory(&self.package, self.package_name.as_str(), exe_dir) {
                        Ok(p) => p,
                        Err(_) => String::new(),
                    };
                    let snapshot_path = join_path(root.as_str(), backup_folder_name(&self.start_time).as_str());
                    push_line(&mut self.logs, LogLevel::Info, join2("Backup stored at ", snapshot_path.as_str()));
                } else {
                    push_line(&mut self.logs, LogLevel::Info, join3("No existing deployment at ", self.package.deploy_path.as_str(), "; skipping backup"));
                }
                let ghost mid = self.transcript();
                self.enter_extract();
            },
            Err(e) => {
                self.fail("Backup failed: ", e);
            },
        }
    }

    /// Records the outcome of the extraction.
    pub fn extract_finished(&mut self, report: Result<(), AdeployError>)
        requires
            old(self).wf(),
            old(self).stage() == Stage::Extract,
        ensures
            final(self).wf(),
            final(self).same_deploy(old(self)),
            report is Ok ==> {
                let a = arrive_post(old(self).package(), old(self).id());
                &&& final(self).stage() == a.0
                &&& final(self).failure() is None
                &&& final(self).transcript() == old(self).transcript() + seq![info("Files extracted and deployed successfully"@)] + a.1
            },
            report matches Err(e) ==> {
                &&& final(self).stage() == Stage::Failed
                &&& final(self).failure() == Some(e@)
                &&& final(self).transcript() == old(self).transcript() + seq![error_line("File extraction failed: "@ + error_text(e@))]
            },
    {
        match report {
            Ok(()) => {
                push_line(&mut self.logs, LogLevel::Info, String::from_str("Files extracted and deployed successfully"));
                self.enter_post();
            },
            Err(e) => {
                self.fail("File extraction failed: ", e);
            },
        }
    }

    /// The in-band answer to a finished deploy.
    pub fn finish(self) -> (r: DeployResponse)
        requires
            self.wf(),
            self.stage() == Stage::Completed || self.stage() == Stage::Failed,
        ensures
            r.success <==> self.stage() == Stage::Completed,
            r.deploy_id@ == self.id(),
            r.success ==> r.message@ == "Deployment completed successfully"@,
            !r.success ==> r.message@ == error_text(self.failure()->0),
            entries_view(r.logs@) == response_lines(self.transcript(), self.failure()),
    {
        let logs = self.logs;
        match self.failure {
            None => DeployResponse {
                success: true,
                message: String::from_str("Deployment completed successfully"),
                deploy_id: self.deploy_id,
                logs,
            },
            Some(e) => {
                let text = e.text();
                let mut head: Vec<DeployLogEntry> = Vec::new();
                assert(entries_view(head@) =~= Seq::<Line>::empty());
                push_line(&mut head, LogLevel::Error, join2("Deployment failed: ", text.as_str()));
                let ghost mid = entries_view(head@);
                match &e {
                    AdeployError::Deploy(m) => {
                        push_line(&mut head, LogLevel::Error, join2("Details: ", m.as_str()));
                    },
                    _ => {
                        assert(mid + Seq::<Line>::empty() =~= mid);
                    },
                }
                push_all(&mut head, logs);
                DeployResponse { success: false, message: text, deploy_id: self.deploy_id, logs: head }
            },
        }
    }
}

/// The text of an optional owned string.
pub open spec fn text_opt_owned(o: Option<String>) -> Option<Seq<char>> {
    match o {
        Some(s) => Some(s@),
        None => None,
    }
}

} // verus!
