//! Decisions of the configuration watcher. Each poll the caller reports what
//! it found on disk; the watcher says whether to reload, what to log, and
//! which configuration to publish. Errors are logged once per distinct text,
//! a failed reload keeps the previous configuration, and the port of the
//! running agent never changes.

use vstd::prelude::*;
use crate::config::{ServerConfig, ServerSettings};
use crate::deploy::entries_view;
use crate::deploy_log::{DeployLogEntry, LogLevel};
use crate::text::{decimal, decimal_text, join2, join3, join4};

verus! {

/// What one poll found out about the configuration file.
pub enum Probe {
    /// The file's modification time, in nanoseconds since the epoch.
    Modified(u128),
    /// The file's metadata could not be read; the reason.
    MetadataUnavailable(String),
    /// The metadata holds no modification time; the reason.
    ModifiedUnavailable(String),
}

/// What the caller does after a poll.
pub struct PollDecision {
    /// Lines for the agent's own log.
    pub notes: Vec<DeployLogEntry>,
    /// Whether to parse the file again.
    pub reload: bool,
}

/// State kept between polls.
pub struct ConfigWatcher {
    /// Modification time of the last configuration read.
    pub last_modified: Option<u128>,
    /// The error logged last, until the trouble it reports is over.
    pub last_error: Option<String>,
    /// Whether the file's metadata could not be read at the last poll.
    pub file_missing: bool,
}

/// The text of an optional owned string.
pub open spec fn error_view(e: Option<String>) -> Option<Seq<char>> {
    match e {
        Some(s) => Some(s@),
        None => None,
    }
}

/// Notes for an error `msg`, given the error logged last: a warning, unless
/// it is the same text again.
pub open spec fn error_notes(last: Option<Seq<char>>, msg: Seq<char>) -> Seq<(LogLevel, Seq<char>)> {
    if last == Some(msg) {
        Seq::empty()
    } else {
        seq![(LogLevel::Warn, msg)]
    }
}

/// Note for a file whose metadata is readable again after a failure.
pub open spec fn back_text(path: Seq<char>) -> Seq<char> {
    "Server config file "@ + path + " became available again"@
}

pub open spec fn metadata_error_text(t: Seq<char>) -> Seq<char> {
    "Failed to read server config metadata: "@ + t
}

pub open spec fn modified_error_text(t: Seq<char>) -> Seq<char> {
    "Failed to read server config modified time: "@ + t
}

pub open spec fn reload_error_text(t: Seq<char>) -> Seq<char> {
    "Failed to reload server config: "@ + t
}

/// `new` with the port of the running agent: every other field is taken from `new`.
pub open spec fn pinned(new: ServerConfig, port: u16) -> ServerConfig {
    ServerConfig { server: ServerSettings { port, ..new.server }, ..new }
}

/// Warning about a port change in the file, which is not applied.
pub open spec fn port_change_text(current: u16, requested: u16, path: Seq<char>) -> Seq<char> {
    "Ignoring server port change from "@ + decimal(current as nat) + " to "@ + decimal(requested as nat) + " in "@ + path
}

/// Whether a file modified at `modified` needs reading, given the time of the
/// last configuration read.
pub open spec fn is_newer(last: Option<u128>, modified: u128) -> bool {
    match last {
        Some(l) => modified > l,
        None => true,
    }
}

/// Keeps the running port in a freshly parsed configuration; reports whether
/// the file asked for another one.
pub fn pin_port(new_config: ServerConfig, current_port: u16) -> (r: (ServerConfig, bool))
    ensures
        r.0 == pinned(new_config, current_port),
        r.0.wf() == new_config.wf(),
        r.1 <==> new_config.server.port != current_port,
{
    let changed = new_config.server.port != current_port;
    let mut c = new_config;
    c.server.port = current_port;
    (c, changed)
}

impl ConfigWatcher {
    /// A watcher that starts from the modification time seen at startup.
    pub fn new(initial_modified: Option<u128>) -> (r: Self)
        ensures
            r.last_modified == initial_modified,
            r.last_error is None,
            !r.file_missing,
    {
        ConfigWatcher { last_modified: initial_modified, last_error: None, file_missing: false }
    }

    /// Records the error `msg`, with a warning unless it was the error logged last.
    fn note_error(&mut self, notes: &mut Vec<DeployLogEntry>, msg: String)
        ensures
            final(self).last_modified == old(self).last_modified,
            final(self).file_missing == old(self).file_missing,
            error_view(final(self).last_error) == Some(msg@),
            entries_view(final(notes)@) == entries_view(old(notes)@) + error_notes(
                error_view(old(self).last_error),
                msg@,
            ),
    {
        let repeated = match &self.last_error {
            Some(e) => *e == msg,
            None => false,
        };
        let ghost before = notes@;
        if !repeated {
            notes.push(DeployLogEntry::warn(msg.clone()));
        }
        assert(entries_view(notes@) =~= entries_view(before) + error_notes(
            error_view(old(self).last_error),
            msg@,
        ));
        self.last_error = Some(msg);
    }

    /// Decides what to do with one poll of the file at `path`. It reloads
    /// exactly when the modification time is known and later than the last
    /// one read. A failure is warned about once per distinct text; when the
    /// metadata is readable again after a failure, that is noted and the
    /// failure forgotten.
    pub fn observe(&mut self, path: &str, probe: Probe) -> (r: PollDecision)
        ensures
            r.reload <==> (probe matches Probe::Modified(m) && is_newer(old(self).last_modified, m)),
            final(self).last_modified == old(self).last_modified,
            final(self).file_missing <==> probe is MetadataUnavailable,
            probe matches Probe::MetadataUnavailable(t) ==> {
                &&& error_view(final(self).last_error) == Some(metadata_error_text(t@))
                &&& entries_view(r.notes@) == error_notes(error_view(old(self).last_error), metadata_error_text(t@))
            },
            !(probe is MetadataUnavailable) ==> {
                let back = old(self).file_missing;
                let last = if back { None } else { error_view(old(self).last_error) };
                let opening = if back {
                    seq![(LogLevel::Info, back_text(path@))]
                } else {
                    Seq::empty()
                };
                &&& probe matches Probe::ModifiedUnavailable(t) ==> {
                    &&& error_view(final(self).last_error) == Some(modified_error_text(t@))
                    &&& entries_view(r.notes@) == opening + error_notes(last, modified_error_text(t@))
                }
                &&& probe is Modified ==> {
                    &&& error_view(final(self).last_error) == last
                    &&& entries_view(r.notes@) == opening
                }
            },
    {
        let mut notes: Vec<DeployLogEntry> = Vec::new();
        assert(entries_view(notes@) =~= Seq::<(LogLevel, Seq<char>)>::empty());
        match probe {
            Probe::MetadataUnavailable(t) => {
                self.note_error(&mut notes, join2("Failed to read server config metadata: ", t.as_str()));
                assert(entries_view(notes@) =~= error_notes(error_view(old(self).last_error), metadata_error_text(t@)));
                self.file_missing = true;
                PollDecision { notes, reload: false }
            },
            Probe::ModifiedUnavailable(t) => {
                self.come_back(&mut notes, path);
                self.note_error(&mut notes, join2("Failed to read server config modified time: ", t.as_str()));
                PollDecision { notes, reload: false }
            },
            Probe::Modified(m) => {
                self.come_back(&mut notes, path);
                let reload = match self.last_modified {
                    Some(l) => m > l,
                    None => true,
                };
                PollDecision { notes, reload }
            },
        }
    }

    /// After a readable poll: if the last poll could not read the metadata,
    /// note that the file is back and forget that error.
    fn come_back(&mut self, notes: &mut Vec<DeployLogEntry>, path: &str)
        requires
            old(notes)@.len() == 0,
        ensures
            final(self).last_modified == old(self).last_modified,
            !final(self).file_missing,
            error_view(final(self).last_error) == if old(self).file_missing {
                None
            } else {
                error_view(old(self).last_error)
            },
            entries_view(final(notes)@) == if old(self).file_missing {
                seq![(LogLevel::Info, back_text(path@))]
            } else {
                Seq::<(LogLevel, Seq<char>)>::empty()
            },
    {
        if self.file_missing {
            notes.push(DeployLogEntry::info(join3("Server config file ", path, " became available again")));
            self.last_error = None;
            self.file_missing = false;
        }
        assert(entries_view(notes@) =~= if old(self).file_missing {
            seq![(LogLevel::Info, back_text(path@))]
        } else {
            Seq::<(LogLevel, Seq<char>)>::empty()
        });
    }

    /// Takes the outcome of reading the file modified at `modified`: a parsed
    /// configuration is published with the running port kept, and its time
    /// remembered; a parse error is warned about once per distinct text, and
    /// nothing is published.
    pub fn reloaded(&mut self, path: &str, modified: u128, result: Result<ServerConfig, String>, current_port: u16) -> (r: (Option<ServerConfig>, Vec<DeployLogEntry>))
        requires
            result matches Ok(c) ==> c.wf(),
        ensures
            r.0 matches Some(c) ==> c.wf(),
            final(self).file_missing == old(self).file_missing,
            result matches Ok(c) ==> r.0 == Some(pinned(c, current_port)),
            result matches Ok(c) ==> final(self).last_modified == Some(modified) && final(self).last_error is None,
            result matches Ok(c) ==> entries_view(r.1@) == (if c.server.port != current_port {
                seq![(LogLevel::Warn, port_change_text(current_port, c.server.port, path@))]
            } else {
                Seq::empty()
            }) + seq![(LogLevel::Info, "Reloaded server config from "@ + path@)],
            result matches Err(t) ==> r.0 is None && final(self).last_modified == old(self).last_modified,
            result matches Err(t) ==> error_view(final(self).last_error) == Some(reload_error_text(t@)),
            result matches Err(t) ==> entries_view(r.1@) == error_notes(error_view(old(self).last_error), reload_error_text(t@)),
    {
        let mut notes: Vec<DeployLogEntry> = Vec::new();
        match result {
            Ok(c) => {
                self.last_error = None;
                let requested_port = c.server.port;
                let (pinned_config, changed) = pin_port(c, current_port);
                if changed {
                    let head = join4(
                        "Ignoring server port change from ",
                        decimal_text(current_port as u64).as_str(),
                        " to ",
                        decimal_text(requested_port as u64).as_str(),
                    );
                    notes.push(DeployLogEntry::warn(join3(head.as_str(), " in ", path)));
                }
                let ghost before = notes@;
                notes.push(DeployLogEntry::info(join2("Reloaded server config from ", path)));
                assert(entries_view(notes@) =~= entries_view(before) + seq![(LogLevel::Info, "Reloaded server config from "@ + path@)]);
                assert(entries_view(before) =~= (if requested_port != current_port {
                    seq![(LogLevel::Warn, port_change_text(current_port, requested_port, path@))]
                } else {
                    Seq::empty()
                }));
                self.last_modified = Some(modified);
                (Some(pinned_config), notes)
            },
            Err(t) => {
                assert(entries_view(notes@) =~= Seq::<(LogLevel, Seq<char>)>::empty());
                self.note_error(&mut notes, join2("Failed to reload server config: ", t.as_str()));
                assert(entries_view(notes@) =~= error_notes(error_view(old(self).last_error), reload_error_text(t@)));
                (None, notes)
            },
        }
    }
}

} // verus!
