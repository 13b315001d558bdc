//! The transfer pipeline as a verified state machine.
//!
//! The machine decides; a driver outside the library acts. Each call of
//! [`Pipeline::step`] consumes the event that answers the pending action
//! and returns the next action: connect to the source, then to the target,
//! list the source directory, report the regex-filtered candidates, query
//! one modification time per candidate, report the time-filtered selection,
//! then for each selected file retrieve it, switch the target directory and
//! store it under its base name, and finally close both connections. Any
//! fatal failure ends the run at once; a failed modification-time query
//! only drops that one entry.

use vstd::prelude::*;
use crate::errors::FatalError;
use crate::paths::base_name;
use crate::paths::base_name_spec;
use crate::pattern::Matcher;
use crate::pattern::filter_files;
use crate::pattern::regex_filtered;
use crate::time_window::TimeWindow;
use crate::time_window::Timestamp;
use crate::time_window::filter_by_time;
use crate::time_window::time_filtered;

verus! {

/// What one run works on: where to list on the source, where to store on
/// the target, and the modification-time window.
pub struct Config {
    pub source_path: String,
    pub target_path: String,
    pub window: TimeWindow,
}

/// A command the machine hands to the driver. Every action but `Report`
/// and `Done` stands for exactly one round-trip of the corresponding FTP
/// operation; there are no retries.
pub enum Action {
    /// Open and authenticate the source connection.
    ConnectSource,
    /// Open and authenticate the target connection.
    ConnectTarget,
    /// Request a name listing of the given directory on the source.
    List(String),
    /// Emit the given candidate list as diagnostic output.
    Report(Vec<String>),
    /// Query the modification time of the given path on the source.
    QueryModifiedTime(String),
    /// Fetch the full contents of the given path from the source.
    Retrieve(String),
    /// Switch the target's working directory to the given path.
    ChangeDirectory(String),
    /// Upload the bytes under the given name on the target.
    Store(String, Vec<u8>),
    /// Best-effort logout of both connections; errors are swallowed.
    CloseConnections,
    /// The run is over; its outcome is in the machine's phase.
    Done,
}

/// The driver's answer to the pending action.
pub enum Event {
    /// The source connection is open and authenticated.
    SourceConnected,
    /// Opening or authenticating the source connection failed.
    SourceConnectFailed,
    /// The target connection is open and authenticated.
    TargetConnected,
    /// Opening or authenticating the target connection failed.
    TargetConnectFailed,
    /// The raw entries of the requested name listing.
    Listed(Vec<String>),
    /// The listing request failed.
    ListFailed,
    /// The diagnostic list was emitted.
    Reported,
    /// The queried modification time, or `None` when the query failed.
    ModifiedTime(Option<Timestamp>),
    /// The full contents of the requested file.
    Contents(Vec<u8>),
    /// Fetching the requested file failed.
    RetrieveFailed,
    /// The target's working directory was switched.
    DirectoryChanged,
    /// Switching the target's working directory failed.
    ChangeDirectoryFailed,
    /// The upload completed.
    Stored,
    /// The upload failed.
    StoreFailed,
    /// Both connections were closed, or closing was attempted.
    ConnectionsClosed,
}

/// Where the run stands, with the data the remaining stages need.
pub enum Phase {
    /// Awaiting the source connection.
    ConnectingSource,
    /// Awaiting the target connection.
    ConnectingTarget,
    /// Awaiting the source directory listing.
    Listing,
    /// Awaiting the report of the regex-filtered candidates.
    ReportingMatched { matched: Vec<String> },
    /// Awaiting one modification time per remaining candidate.
    TimeFiltering { matched: Vec<String>, mtimes: Vec<Option<Timestamp>> },
    /// Awaiting the report of the time-filtered selection.
    ReportingSelected { selected: Vec<String> },
    /// Awaiting the contents of `selected[next]`.
    Fetching { selected: Vec<String>, next: usize },
    /// Awaiting the target directory switch before storing
    /// `selected[next]`, whose contents are in hand.
    SwitchingDirectory { selected: Vec<String>, next: usize, contents: Vec<u8> },
    /// Awaiting the upload of `selected[next]`.
    Storing { selected: Vec<String>, next: usize },
    /// Awaiting the best-effort close of both connections.
    Closing,
    /// The run is over.
    Finished { outcome: Result<(), FatalError> },
}

/// The selection-and-transfer machine: configuration, compiled pattern,
/// and the current phase.
pub struct Pipeline {
    pub config: Config,
    pub matcher: Matcher,
    pub phase: Phase,
}

impl Pipeline {
    /// The indices the current phase holds stay inside its lists.
    pub open spec fn wf(self) -> bool {
        match self.phase {
            Phase::TimeFiltering { matched, mtimes } => mtimes@.len() < matched@.len(),
            Phase::Fetching { selected, next } => next < selected@.len(),
            Phase::SwitchingDirectory { selected, next, contents } => next < selected@.len(),
            Phase::Storing { selected, next } => next < selected@.len(),
            _ => true,
        }
    }

    /// Whether `e` answers the action the machine is waiting on. A
    /// finished machine expects nothing.
    pub open spec fn expects(self, e: Event) -> bool {
        match self.phase {
            Phase::ConnectingSource => e is SourceConnected || e is SourceConnectFailed,
            Phase::ConnectingTarget => e is TargetConnected || e is TargetConnectFailed,
            Phase::Listing => e is Listed || e is ListFailed,
            Phase::ReportingMatched { .. } => e is Reported,
            Phase::TimeFiltering { .. } => e is ModifiedTime,
            Phase::ReportingSelected { .. } => e is Reported,
            Phase::Fetching { .. } => e is Contents || e is RetrieveFailed,
            Phase::SwitchingDirectory { .. } => e is DirectoryChanged
                || e is ChangeDirectoryFailed,
            Phase::Storing { .. } => e is Stored || e is StoreFailed,
            Phase::Closing => e is ConnectionsClosed,
            Phase::Finished { .. } => false,
        }
    }

    /// The run is over with outcome `o`.
    pub open spec fn finished_with(self, o: Result<(), FatalError>) -> bool {
        self.phase matches Phase::Finished { outcome } && outcome == o
    }

    /// Start a run. The driver's first task is the source connection; the
    /// target connection is not requested until the source one stands, so
    /// a source failure aborts the run with the target never opened.
    pub fn new(config: Config, matcher: Matcher) -> (r: (Pipeline, Action))
        ensures
            r.0.wf(),
            r.0.config == config,
            r.0.matcher == matcher,
            r.0.phase is ConnectingSource,
            r.1 is ConnectSource,
    {
        (Pipeline { config, matcher, phase: Phase::ConnectingSource }, Action::ConnectSource)
    }

    /// The outcome of a finished run, or `None` while the run is under way.
    pub fn outcome(&self) -> (r: Option<Result<(), FatalError>>)
        ensures
            r is Some <==> self.phase is Finished,
            r matches Some(o) ==> self.finished_with(o),
    {
        match &self.phase {
            Phase::Finished { outcome } => Some(*outcome),
            _ => None,
        }
    }

    /// Consume the event that answers the pending action and return the
    /// machine with the next action.
    ///
    /// A connect, list, retrieve, directory-change or store failure ends
    /// the run at once with the corresponding fatal error and no further
    /// action: no close is requested on that path, so a connection already
    /// open is left to the process exit. A failed modification-time query
    /// is answered with `ModifiedTime(None)` and only drops that one entry.
    pub fn step(self, event: Event) -> (r: (Pipeline, Action))
        requires
            self.wf(),
            self.expects(event),
        ensures
            r.0.wf(),
            r.0.config == self.config,
            r.0.matcher == self.matcher,
            self.phase is ConnectingSource && event is SourceConnected ==> r.0.phase
                is ConnectingTarget && r.1 is ConnectTarget,
            self.phase is ConnectingSource && event is SourceConnectFailed ==> r.0.finished_with(
                Err(FatalError::SourceConnect),
            ) && r.1 is Done,
            self.phase is ConnectingTarget && event is TargetConnected ==> r.0.phase is Listing && (
            r.1 matches Action::List(d) && d@ == self.config.source_path@),
            self.phase is ConnectingTarget && event is TargetConnectFailed ==> r.0.finished_with(
                Err(FatalError::TargetConnect),
            ) && r.1 is Done,
            self.phase is Listing ==> (event matches Event::Listed(entries) ==> (r.0.phase
                matches Phase::ReportingMatched { matched } && matched.deep_view()
                == regex_filtered(entries.deep_view(), self.matcher.pattern()) && (
            r.1 matches Action::Report(l) && l.deep_view() == matched.deep_view()))),
            self.phase is Listing && event is ListFailed ==> r.0.finished_with(
                Err(FatalError::List),
            ) && r.1 is Done,
            self.phase matches Phase::ReportingMatched { matched } ==> (event is Reported ==> (
            if matched@.len() > 0 {
                (r.0.phase matches Phase::TimeFiltering { matched: m2, mtimes } && m2 == matched
                    && mtimes@.len() == 0) && (r.1 matches Action::QueryModifiedTime(p) && p@
                    == matched.deep_view()[0])
            } else {
                (r.0.phase matches Phase::ReportingSelected { selected } && selected.deep_view()
                    == Seq::<Seq<char>>::empty()) && (r.1 matches Action::Report(l)
                    && l.deep_view() == Seq::<Seq<char>>::empty())
            })),
            self.phase matches Phase::TimeFiltering { matched, mtimes } ==> (event
                matches Event::ModifiedTime(m) ==> (if mtimes@.len() + 1 < matched@.len() {
                (r.0.phase matches Phase::TimeFiltering { matched: m2, mtimes: t2 } && m2 == matched
                    && t2@ == mtimes@.push(m)) && (r.1 matches Action::QueryModifiedTime(p) && p@
                    == matched.deep_view()[mtimes@.len() as int + 1])
            } else {
                (r.0.phase matches Phase::ReportingSelected { selected } && selected.deep_view()
                    == time_filtered(matched.deep_view(), mtimes@.push(m), self.config.window)) && (
                r.1 matches Action::Report(l) && l.deep_view() == time_filtered(
                    matched.deep_view(),
                    mtimes@.push(m),
                    self.config.window,
                ))
            })),
            self.phase matches Phase::ReportingSelected { selected } ==> (event is Reported ==> (
            if selected@.len() > 0 {
                (r.0.phase matches Phase::Fetching { selected: s2, next } && s2 == selected && next
                    == 0) && (r.1 matches Action::Retrieve(p) && p@ == selected.deep_view()[0])
            } else {
                r.0.phase is Closing && r.1 is CloseConnections
            })),
            self.phase matches Phase::Fetching { selected, next } ==> (event
                matches Event::Contents(bytes) ==> ((r.0.phase
                matches Phase::SwitchingDirectory { selected: s2, next: n2, contents } && s2
                == selected && n2 == next && contents@ == bytes@) && (
            r.1 matches Action::ChangeDirectory(d) && d@ == self.config.target_path@))),
            self.phase is Fetching && event is RetrieveFailed ==> r.0.finished_with(
                Err(FatalError::Retrieve),
            ) && r.1 is Done,
            self.phase matches Phase::SwitchingDirectory { selected, next, contents } ==> (event
                is DirectoryChanged ==> ((r.0.phase
                matches Phase::Storing { selected: s2, next: n2 } && s2 == selected && n2 == next)
                && (r.1 matches Action::Store(name, bytes) && name@ == base_name_spec(
                selected.deep_view()[next as int],
            ) && bytes@ == contents@))),
            self.phase is SwitchingDirectory && event is ChangeDirectoryFailed
                ==> r.0.finished_with(Err(FatalError::ChangeDirectory)) && r.1 is Done,
            self.phase matches Phase::Storing { selected, next } ==> (event is Stored ==> (if next
                + 1 < selected@.len() {
                (r.0.phase matches Phase::Fetching { selected: s2, next: n2 } && s2 == selected
                    && n2 == next + 1) && (r.1 matches Action::Retrieve(p) && p@
                    == selected.deep_view()[next + 1])
            } else {
                r.0.phase is Closing && r.1 is CloseConnections
            })),
            self.phase is Storing && event is StoreFailed ==> r.0.finished_with(
                Err(FatalError::Store),
            ) && r.1 is Done,
            self.phase is Closing && event is ConnectionsClosed ==> r.0.finished_with(Ok(()))
                && r.1 is Done,
    {
        let Pipeline { config, matcher, phase } = self;
        match (phase, event) {
            (Phase::ConnectingSource, Event::SourceConnected) => (
                Pipeline { config, matcher, phase: Phase::ConnectingTarget },
                Action::ConnectTarget,
            ),
            (Phase::ConnectingSource, Event::SourceConnectFailed) => (
                Pipeline {
                    config,
                    matcher,
                    phase: Phase::Finished { outcome: Err(FatalError::SourceConnect) },
                },
                Action::Done,
            ),
            (Phase::ConnectingTarget, Event::TargetConnected) => {
                let dir = config.source_path.clone();
                (Pipeline { config, matcher, phase: Phase::Listing }, Action::List(dir))
            },
            (Phase::ConnectingTarget, Event::TargetConnectFailed) => (
                Pipeline {
                    config,
                    matcher,
                    phase: Phase::Finished { outcome: Err(FatalError::TargetConnect) },
                },
                Action::Done,
            ),
            (Phase::Listing, Event::Listed(entries)) => {
                let matched = filter_files(&matcher, &entries);
                let report = clone_names(&matched);
                (
                    Pipeline { config, matcher, phase: Phase::ReportingMatched { matched } },
                    Action::Report(report),
                )
            },
            (Phase::Listing, Event::ListFailed) => (
                Pipeline {
                    config,
                    matcher,
                    phase: Phase::Finished { outcome: Err(FatalError::List) },
                },
                Action::Done,
            ),
            (Phase::ReportingMatched { matched }, Event::Reported) => {
                if matched.len() > 0 {
                    let first = matched[0].clone();
                    (
                        Pipeline {
                            config,
                            matcher,
                            phase: Phase::TimeFiltering { matched, mtimes: Vec::new() },
                        },
                        Action::QueryModifiedTime(first),
                    )
                } else {
                    let selected: Vec<String> = Vec::new();
                    let report: Vec<String> = Vec::new();
                    (
                        Pipeline {
                            config,
                            matcher,
                            phase: Phase::ReportingSelected { selected },
                        },
                        Action::Report(report),
                    )
                }
            },
            (Phase::TimeFiltering { matched, mtimes }, Event::ModifiedTime(m)) => {
                let mut mtimes = mtimes;
                mtimes.push(m);
                if mtimes.len() < matched.len() {
                    let next_path = matched[mtimes.len()].clone();
                    (
                        Pipeline {
                            config,
                            matcher,
                            phase: Phase::TimeFiltering { matched, mtimes },
                        },
                        Action::QueryModifiedTime(next_path),
                    )
                } else {
                    let selected = filter_by_time(&matched, &mtimes, &config.window);
                    let report = clone_names(&selected);
                    (
                        Pipeline {
                            config,
                            matcher,
                            phase: Phase::ReportingSelected { selected },
                        },
                        Action::Report(report),
                    )
                }
            },
            (Phase::ReportingSelected { selected }, Event::Reported) => {
                if selected.len() > 0 {
                    let first = selected[0].clone();
                    (
                        Pipeline {
                            config,
                            matcher,
                            phase: Phase::Fetching { selected, next: 0 },
                        },
                        Action::Retrieve(first),
                    )
                } else {
                    (
                        Pipeline { config, matcher, phase: Phase::Closing },
                        Action::CloseConnections,
                    )
                }
            },
            (Phase::Fetching { selected, next }, Event::Contents(bytes)) => {
                let dir = config.target_path.clone();
                (
                    Pipeline {
                        config,
                        matcher,
                        phase: Phase::SwitchingDirectory { selected, next, contents: bytes },
                    },
                    Action::ChangeDirectory(dir),
                )
            },
            (Phase::Fetching { selected, next }, Event::RetrieveFailed) => (
                Pipeline {
                    config,
                    matcher,
                    phase: Phase::Finished { outcome: Err(FatalError::Retrieve) },
                },
                Action::Done,
            ),
            (Phase::SwitchingDirectory { selected, next, contents }, Event::DirectoryChanged) => {
                let name = base_name(selected[next].as_str());
                (
                    Pipeline {
                        config,
                        matcher,
                        phase: Phase::Storing { selected, next },
                    },
                    Action::Store(name, contents),
                )
            },
            (
                Phase::SwitchingDirectory { selected, next, contents },
                Event::ChangeDirectoryFailed,
            ) => (
                Pipeline {
                    config,
                    matcher,
                    phase: Phase::Finished { outcome: Err(FatalError::ChangeDirectory) },
                },
                Action::Done,
            ),
            (Phase::Storing { selected, next }, Event::Stored) => {
                let len = selected.len();
                if next + 1 < len {
                    let next_path = selected[next + 1].clone();
                    (
                        Pipeline {
                            config,
                            matcher,
                            phase: Phase::Fetching { selected, next: next + 1 },
                        },
                        Action::Retrieve(next_path),
                    )
                } else {
                    (
                        Pipeline { config, matcher, phase: Phase::Closing },
                        Action::CloseConnections,
                    )
                }
            },
            (Phase::Storing { selected, next }, Event::StoreFailed) => (
                Pipeline {
                    config,
                    matcher,
                    phase: Phase::Finished { outcome: Err(FatalError::Store) },
                },
                Action::Done,
            ),
            (Phase::Closing, Event::ConnectionsClosed) => (
                Pipeline {
                    config,
                    matcher,
                    phase: Phase::Finished { outcome: Ok(()) },
                },
                Action::Done,
            ),
            // Dead: every event the precondition admits is handled above.
            (other, _) => {
                proof {
                    assert(false);
                }
                (Pipeline { config, matcher, phase: other }, Action::Done)
            },
        }
    }
}

/// A copy of a name list, equal to it entry for entry.
fn clone_names(v: &Vec<String>) -> (r: Vec<String>)
    ensures
        r.deep_view() == v.deep_view(),
{
    let mut out: Vec<String> = Vec::new();
    let mut i: usize = 0;
    while i < v.len()
        invariant
            i <= v@.len(),
            out.deep_view() == v.deep_view().take(i as int),
        decreases v@.len() - i,
    {
        let ghost prev = out.deep_view();
        out.push(v[i].clone());
        proof {
            assert(out.deep_view() =~= prev.push(v.deep_view()[i as int]));
            assert(v.deep_view().take(i + 1) =~= v.deep_view().take(i as int).push(
                v.deep_view()[i as int],
            ));
        }
        i += 1;
    }
    proof {
        assert(v.deep_view().take(v@.len() as int) =~= v.deep_view());
    }
    out
}

} // verus!
