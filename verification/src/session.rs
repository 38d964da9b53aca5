//! The routine as a machine: from the stage it is in and the result of the
//! last action to the next stage and the line to log.
//!
//! A caller asks [`Session::pending`] what to do, does it with its Git
//! library, and reports the result to [`Session::advance`], until the action
//! is [`Action::Stop`].

use crate::branch::{
    heads_prefix, short_branch_name, short_name, short_name_strips_the_prefix, BranchNameError,
};
use crate::report::{
    announce, announcement, failure_line, fetch_summary, merge_failure, merge_report,
    merge_success, optional_line, report_failure, summary, Failure, FailureView, Level, LogLine,
    LogLineView,
};
use crate::transfer::TransferStats;
use vstd::prelude::*;

verus! {

/// The remote that is used when none is asked for: `origin`.
pub open spec fn default_remote() -> Seq<char> {
    "origin"@
}

/// The remote to work with: the one that was asked for, as it was written,
/// or `origin`.
pub fn remote_or_default<'a>(requested: &'a Option<String>) -> (name: &'a str)
    ensures
        name@ == match *requested {
            Some(asked) => asked@,
            None => default_remote(),
        },
{
    match requested {
        Some(asked) => asked.as_str(),
        None => "origin",
    }
}

/// Which of the routine's callbacks an action runs with.
#[derive(Clone, Copy, Debug, PartialEq, Eq)]
pub struct Callbacks {
    /// Offer the SSH key of [`crate::credentials::ssh_key`].
    pub credentials: bool,
    /// Log each reference with [`crate::report::tip_updated`].
    pub update_tips: bool,
    /// Log the transfer with [`crate::report::transfer_progress`].
    pub transfer_progress: bool,
}

/// How a fetch is set up. What is switched off here is left to the remote's
/// configuration.
#[derive(Clone, Copy, Debug, PartialEq, Eq)]
pub struct FetchSettings {
    /// Remove remote-tracking references that are gone upstream.
    pub prune: bool,
    /// Download no tags at all.
    pub skip_tags: bool,
    pub callbacks: Callbacks,
}

/// The settings of the main download: prune, no tags, every callback.
pub open spec fn download_settings() -> FetchSettings {
    FetchSettings {
        prune: true,
        skip_tags: true,
        callbacks: Callbacks { credentials: true, update_tips: true, transfer_progress: true },
    }
}

/// The callbacks of the connection that asks for the default branch:
/// credentials only.
pub open spec fn connect_callbacks() -> Callbacks {
    Callbacks { credentials: true, update_tips: false, transfer_progress: false }
}

/// The settings of the fetch of the default branch: the Git library's own.
pub open spec fn branch_fetch_settings() -> FetchSettings {
    FetchSettings {
        prune: false,
        skip_tags: false,
        callbacks: Callbacks { credentials: false, update_tips: false, transfer_progress: false },
    }
}

/// Why the routine stopped before its end.
#[derive(Clone, Debug, PartialEq, Eq)]
pub enum Abort {
    /// The Git library failed.
    Git(Failure),
    /// The remote's default is not a branch that can be fetched by name.
    NoBranch { advertised: String, reason: BranchNameError },
    /// A result was reported that the pending action cannot have.
    OutOfTurn,
}

/// How the routine ended.
#[derive(Clone, Debug, PartialEq, Eq)]
pub enum Outcome {
    Completed,
    Aborted(Abort),
}

/// Where the routine stands: the action whose result is awaited.
#[derive(Clone, Debug, PartialEq, Eq)]
pub enum Stage {
    /// Opening the repository in the working directory.
    Open,
    /// Fetch: looking the remote up among the configured ones.
    FetchFind,
    /// Fetch: taking the remote's name for a URL.
    FetchAnonymous,
    /// Fetch: downloading.
    FetchDownload,
    /// Fetch: moving the remote-tracking references.
    FetchUpdateTips,
    /// Fetch: closing the connection.
    FetchDisconnect,
    /// Merging into the current branch.
    Merge,
    /// Default branch: looking the remote up again.
    HeadFind,
    /// Default branch: taking the remote's name for a URL.
    HeadAnonymous,
    /// Default branch: connecting.
    HeadConnect,
    /// Default branch: asking which branch it is.
    HeadQuery,
    /// Default branch: fetching it.
    HeadFetch { branch: String },
    /// Default branch: closing the connection.
    HeadDisconnect,
    /// Nothing is left to do.
    Done(Outcome),
}

/// What the caller is to do next.
#[derive(Clone, Debug, PartialEq, Eq)]
pub enum Action {
    /// Open the repository in the working directory.
    OpenRepository,
    /// Look up the configured remote of this name.
    FindRemote { name: String },
    /// Make a remote without a name from this URL.
    AnonymousRemote { url: String },
    /// Download from the remote with its configured refspecs, and report the
    /// transfer's counters.
    Download { settings: FetchSettings },
    /// Move the remote-tracking references to what was downloaded, without
    /// callbacks and with the remote's own tag setting.
    UpdateTips { update_fetch_head: bool },
    /// Close the connection to the remote.
    Disconnect,
    /// Merge into the current branch, with default checkout.
    Merge { fail_on_conflict: bool },
    /// Connect to the remote for fetching.
    Connect { callbacks: Callbacks },
    /// Report the reference that the remote advertises as its default.
    DefaultBranch,
    /// Fetch this one branch.
    Fetch { branch: String, settings: FetchSettings },
    /// Stop: the session is done.
    Stop,
}

/// The result of an action.
#[derive(Clone, Debug, PartialEq, Eq)]
pub enum Event {
    /// The action went through and has nothing to report.
    Succeeded,
    /// The download went through, with these counters at its end.
    Downloaded(TransferStats),
    /// The remote advertises this reference as its default.
    Advertised(String),
    /// The Git library failed.
    Failed(Failure),
}

/// One run of the routine.
#[derive(Clone, Debug, PartialEq, Eq)]
pub struct Session {
    /// The remote, by name or URL, as it was asked for.
    pub remote: String,
    pub stage: Stage,
}

/// An [`Abort`] as a value of logic.
pub enum AbortView {
    Git(FailureView),
    NoBranch { advertised: Seq<char>, reason: BranchNameError },
    OutOfTurn,
}

/// An [`Outcome`] as a value of logic.
pub enum OutcomeView {
    Completed,
    Aborted(AbortView),
}

/// A [`Stage`] as a value of logic.
pub enum StageView {
    Open,
    FetchFind,
    FetchAnonymous,
    FetchDownload,
    FetchUpdateTips,
    FetchDisconnect,
    Merge,
    HeadFind,
    HeadAnonymous,
    HeadConnect,
    HeadQuery,
    HeadFetch { branch: Seq<char> },
    HeadDisconnect,
    Done(OutcomeView),
}

/// An [`Action`] as a value of logic.
pub enum ActionView {
    OpenRepository,
    FindRemote { name: Seq<char> },
    AnonymousRemote { url: Seq<char> },
    Download { settings: FetchSettings },
    UpdateTips { update_fetch_head: bool },
    Disconnect,
    Merge { fail_on_conflict: bool },
    Connect { callbacks: Callbacks },
    DefaultBranch,
    Fetch { branch: Seq<char>, settings: FetchSettings },
    Stop,
}

/// An [`Event`] as a value of logic.
pub enum EventView {
    Succeeded,
    Downloaded(TransferStats),
    Advertised(Seq<char>),
    Failed(FailureView),
}

/// A [`Session`] as a value of logic.
pub struct SessionView {
    pub remote: Seq<char>,
    pub stage: StageView,
}

impl View for Abort {
    type V = AbortView;

    open spec fn view(&self) -> AbortView {
        match *self {
            Abort::Git(failure) => AbortView::Git(failure@),
            Abort::NoBranch { advertised, reason } => AbortView::NoBranch {
                advertised: advertised@,
                reason,
            },
            Abort::OutOfTurn => AbortView::OutOfTurn,
        }
    }
}

impl View for Outcome {
    type V = OutcomeView;

    open spec fn view(&self) -> OutcomeView {
        match *self {
            Outcome::Completed => OutcomeView::Completed,
            Outcome::Aborted(abort) => OutcomeView::Aborted(abort@),
        }
    }
}

impl View for Stage {
    type V = StageView;

    open spec fn view(&self) -> StageView {
        match *self {
            Stage::Open => StageView::Open,
            Stage::FetchFind => StageView::FetchFind,
            Stage::FetchAnonymous => StageView::FetchAnonymous,
            Stage::FetchDownload => StageView::FetchDownload,
            Stage::FetchUpdateTips => StageView::FetchUpdateTips,
            Stage::FetchDisconnect => StageView::FetchDisconnect,
            Stage::Merge => StageView::Merge,
            Stage::HeadFind => StageView::HeadFind,
            Stage::HeadAnonymous => StageView::HeadAnonymous,
            Stage::HeadConnect => StageView::HeadConnect,
            Stage::HeadQuery => StageView::HeadQuery,
            Stage::HeadFetch { branch } => StageView::HeadFetch { branch: branch@ },
            Stage::HeadDisconnect => StageView::HeadDisconnect,
            Stage::Done(outcome) => StageView::Done(outcome@),
        }
    }
}

impl View for Action {
    type V = ActionView;

    open spec fn view(&self) -> ActionView {
        match *self {
            Action::OpenRepository => ActionView::OpenRepository,
            Action::FindRemote { name } => ActionView::FindRemote { name: name@ },
            Action::AnonymousRemote { url } => ActionView::AnonymousRemote { url: url@ },
            Action::Download { settings } => ActionView::Download { settings },
            Action::UpdateTips { update_fetch_head } => ActionView::UpdateTips {
                update_fetch_head,
            },
            Action::Disconnect => ActionView::Disconnect,
            Action::Merge { fail_on_conflict } => ActionView::Merge { fail_on_conflict },
            Action::Connect { callbacks } => ActionView::Connect { callbacks },
            Action::DefaultBranch => ActionView::DefaultBranch,
            Action::Fetch { branch, settings } => ActionView::Fetch { branch: branch@, settings },
            Action::Stop => ActionView::Stop,
        }
    }
}

impl View for Event {
    type V = EventView;

    open spec fn view(&self) -> EventView {
        match *self {
            Event::Succeeded => EventView::Succeeded,
            Event::Downloaded(stats) => EventView::Downloaded(stats),
            Event::Advertised(name) => EventView::Advertised(name@),
            Event::Failed(failure) => EventView::Failed(failure@),
        }
    }
}

impl View for Session {
    type V = SessionView;

    open spec fn view(&self) -> SessionView {
        SessionView { remote: self.remote@, stage: self.stage@ }
    }
}

/// What an abort is reported with, after `error: `.
pub open spec fn abort_message(abort: AbortView) -> Seq<char> {
    match abort {
        AbortView::Git(failure) => failure.message,
        AbortView::NoBranch { advertised, reason: BranchNameError::NotUnderHeads } => {
            "default branch "@ + advertised + " is not under refs/heads/"@
        },
        AbortView::NoBranch { advertised, reason: BranchNameError::LineBreak } => {
            "default branch "@ + advertised + " holds a line break"@
        },
        AbortView::OutOfTurn => "a result arrived that the pending action cannot have"@,
    }
}

/// The end of a session that aborts: the final stage and the error line.
pub open spec fn aborted(abort: AbortView) -> (StageView, Option<LogLineView>) {
    (StageView::Done(OutcomeView::Aborted(abort)), Some(failure_line(abort_message(abort))))
}

/// The action that a session awaits the result of.
pub open spec fn pending_action(session: SessionView) -> ActionView {
    match session.stage {
        StageView::Open => ActionView::OpenRepository,
        StageView::FetchFind | StageView::HeadFind => ActionView::FindRemote {
            name: session.remote,
        },
        StageView::FetchAnonymous | StageView::HeadAnonymous => ActionView::AnonymousRemote {
            url: session.remote,
        },
        StageView::FetchDownload => ActionView::Download { settings: download_settings() },
        StageView::FetchUpdateTips => ActionView::UpdateTips { update_fetch_head: true },
        StageView::FetchDisconnect | StageView::HeadDisconnect => ActionView::Disconnect,
        StageView::Merge => ActionView::Merge { fail_on_conflict: true },
        StageView::HeadConnect => ActionView::Connect { callbacks: connect_callbacks() },
        StageView::HeadQuery => ActionView::DefaultBranch,
        StageView::HeadFetch { branch } => ActionView::Fetch {
            branch,
            settings: branch_fetch_settings(),
        },
        StageView::Done(_) => ActionView::Stop,
    }
}

/// The stage that follows and the line to log, given the result of the
/// pending action.
///
/// A remote that is not found by name is tried as a URL. A merge that fails is
/// logged as an error and the routine goes on. Any other failure ends the
/// session, and so does a result that the pending action cannot have. A
/// session that is done stays as it is.
pub open spec fn step(session: SessionView, event: EventView) -> (StageView, Option<LogLineView>) {
    match (session.stage, event) {
        (StageView::Done(_), _) => (session.stage, None),
        (StageView::FetchFind, EventView::Failed(_)) => (StageView::FetchAnonymous, None),
        (StageView::HeadFind, EventView::Failed(_)) => (StageView::HeadAnonymous, None),
        (StageView::Merge, EventView::Failed(failure)) => (
            StageView::HeadFind,
            Some(merge_failure(failure)),
        ),
        (_, EventView::Failed(failure)) => aborted(AbortView::Git(failure)),
        (StageView::Open, EventView::Succeeded) => (
            StageView::FetchFind,
            Some(announcement(session.remote)),
        ),
        (StageView::FetchFind, EventView::Succeeded) => (StageView::FetchDownload, None),
        (StageView::FetchAnonymous, EventView::Succeeded) => (StageView::FetchDownload, None),
        (StageView::FetchDownload, EventView::Downloaded(stats)) => (
            StageView::FetchUpdateTips,
            Some(summary(stats)),
        ),
        (StageView::FetchUpdateTips, EventView::Succeeded) => (StageView::FetchDisconnect, None),
        (StageView::FetchDisconnect, EventView::Succeeded) => (StageView::Merge, None),
        (StageView::Merge, EventView::Succeeded) => (StageView::HeadFind, Some(merge_success())),
        (StageView::HeadFind, EventView::Succeeded) => (StageView::HeadConnect, None),
        (StageView::HeadAnonymous, EventView::Succeeded) => (StageView::HeadConnect, None),
        (StageView::HeadConnect, EventView::Succeeded) => (StageView::HeadQuery, None),
        (StageView::HeadQuery, EventView::Advertised(advertised)) => match short_name(advertised) {
            Ok(branch) => (StageView::HeadFetch { branch }, None),
            Err(reason) => aborted(AbortView::NoBranch { advertised, reason }),
        },
        (StageView::HeadFetch { .. }, EventView::Succeeded) => (StageView::HeadDisconnect, None),
        (StageView::HeadDisconnect, EventView::Succeeded) => (
            StageView::Done(OutcomeView::Completed),
            None,
        ),
        _ => aborted(AbortView::OutOfTurn),
    }
}

/// No more than this many actions are left to perform in a stage.
pub open spec fn actions_left(stage: StageView) -> nat {
    match stage {
        StageView::Open => 13,
        StageView::FetchFind => 12,
        StageView::FetchAnonymous => 11,
        StageView::FetchDownload => 10,
        StageView::FetchUpdateTips => 9,
        StageView::FetchDisconnect => 8,
        StageView::Merge => 7,
        StageView::HeadFind => 6,
        StageView::HeadAnonymous => 5,
        StageView::HeadConnect => 4,
        StageView::HeadQuery => 3,
        StageView::HeadFetch { .. } => 2,
        StageView::HeadDisconnect => 1,
        StageView::Done(_) => 0,
    }
}

/// A session in `stage`, for the same remote.
pub open spec fn at(session: SessionView, stage: StageView) -> SessionView {
    SessionView { remote: session.remote, stage }
}

/// The remote is looked up under the very text that the session was made
/// for; where no configured remote is found, that same text is taken for a
/// URL, and nothing is logged about it. This holds in the fetch and again
/// before the default branch is asked for.
pub proof fn remote_is_resolved_verbatim(session: SessionView, failure: FailureView)
    requires
        session.stage is FetchFind || session.stage is HeadFind,
    ensures
        pending_action(session) == (ActionView::FindRemote { name: session.remote }),
        pending_action(at(session, step(session, EventView::Failed(failure)).0))
            == (ActionView::AnonymousRemote { url: session.remote }),
        step(session, EventView::Failed(failure)).1 is None,
{
}

/// A failure of the Git library ends the session with that failure and the
/// line `error: ` and its message, whatever was still to do. The two
/// exceptions are the lookup of the remote by name and the merge.
pub proof fn failure_ends_the_session(session: SessionView, failure: FailureView)
    requires
        !(session.stage is Done),
        !(session.stage is FetchFind),
        !(session.stage is HeadFind),
        !(session.stage is Merge),
    ensures
        step(session, EventView::Failed(failure)).0 == StageView::Done(
            OutcomeView::Aborted(AbortView::Git(failure)),
        ),
        step(session, EventView::Failed(failure)).1 == Some(failure_line(failure.message)),
        pending_action(at(session, step(session, EventView::Failed(failure)).0))
            == ActionView::Stop,
{
}

/// The merge is asked to fail on conflict. Where it fails, the failure is
/// logged in full as an error, never as a success, and the routine goes on to
/// the default branch.
pub proof fn failed_merge_is_reported(session: SessionView, failure: FailureView)
    requires
        session.stage is Merge,
    ensures
        pending_action(session) == (ActionView::Merge { fail_on_conflict: true }),
        step(session, EventView::Failed(failure)).1 == Some(
            LogLineView { level: Level::Error, text: failure.detail },
        ),
        step(session, EventView::Failed(failure)).1 != Some(merge_success()),
        step(session, EventView::Failed(failure)).0 == StageView::HeadFind,
{
}

/// The branch that is fetched at the end is the advertised default without
/// its `refs/heads/`; a default that is no such branch ends the session, and
/// the outcome says why.
pub proof fn default_branch_is_fetched_by_short_name(session: SessionView, advertised: Seq<char>)
    requires
        session.stage is HeadQuery,
    ensures
        match short_name(advertised) {
            Ok(branch) => advertised == heads_prefix() + branch && pending_action(
                at(session, step(session, EventView::Advertised(advertised)).0),
            ) == (ActionView::Fetch { branch, settings: branch_fetch_settings() }),
            Err(reason) => step(session, EventView::Advertised(advertised)).0 == StageView::Done(
                OutcomeView::Aborted(AbortView::NoBranch { advertised, reason }),
            ),
        },
{
    if let Ok(branch) = short_name(advertised) {
        short_name_strips_the_prefix(advertised, branch);
    }
}

/// Every result uses up at least one of the actions that are left, so a
/// session is done after thirteen results at most.
pub proof fn every_result_brings_the_end_nearer(session: SessionView, event: EventView)
    requires
        !(session.stage is Done),
    ensures
        actions_left(step(session, event).0) < actions_left(session.stage),
        actions_left(session.stage) <= 13,
{
}

/// A session that is done asks for nothing, and no result changes it or is
/// logged.
pub proof fn done_is_final(session: SessionView, event: EventView)
    requires
        session.stage is Done,
    ensures
        pending_action(session) == ActionView::Stop,
        step(session, event) == (session.stage, None::<LogLineView>),
{
}

fn abort(reason: Abort) -> (end: (Stage, Option<LogLine>))
    ensures
        (end.0@, optional_line(end.1)) == aborted(reason@),
{
    let line = match &reason {
        Abort::Git(failure) => report_failure(failure.message.as_str()),
        Abort::NoBranch { advertised, reason } => {
            let mut message = String::from_str("default branch ");
            message.append(advertised.as_str());
            match reason {
                BranchNameError::NotUnderHeads => {
                    message.append(" is not under refs/heads/");
                },
                BranchNameError::LineBreak => {
                    message.append(" holds a line break");
                },
            }
            report_failure(message.as_str())
        },
        Abort::OutOfTurn => report_failure("a result arrived that the pending action cannot have"),
    };
    (Stage::Done(Outcome::Aborted(reason)), Some(line))
}

impl Session {
    /// A session for `remote`, with everything still to do.
    pub fn new(remote: &str) -> (session: Session)
        ensures
            session@ == (SessionView { remote: remote@, stage: StageView::Open }),
    {
        Session { remote: String::from_str(remote), stage: Stage::Open }
    }

    /// The action to perform next.
    pub fn pending(&self) -> (action: Action)
        ensures
            action@ == pending_action(self@),
    {
        match &self.stage {
            Stage::Open => Action::OpenRepository,
            Stage::FetchFind | Stage::HeadFind => Action::FindRemote { name: self.remote.clone() },
            Stage::FetchAnonymous | Stage::HeadAnonymous => Action::AnonymousRemote {
                url: self.remote.clone(),
            },
            Stage::FetchDownload => Action::Download {
                settings: FetchSettings {
                    prune: true,
                    skip_tags: true,
                    callbacks: Callbacks {
                        credentials: true,
                        update_tips: true,
                        transfer_progress: true,
                    },
                },
            },
            Stage::FetchUpdateTips => Action::UpdateTips { update_fetch_head: true },
            Stage::FetchDisconnect | Stage::HeadDisconnect => Action::Disconnect,
            Stage::Merge => Action::Merge { fail_on_conflict: true },
            Stage::HeadConnect => Action::Connect {
                callbacks: Callbacks {
                    credentials: true,
                    update_tips: false,
                    transfer_progress: false,
                },
            },
            Stage::HeadQuery => Action::DefaultBranch,
            Stage::HeadFetch { branch } => Action::Fetch {
                branch: branch.clone(),
                settings: FetchSettings {
                    prune: false,
                    skip_tags: false,
                    callbacks: Callbacks {
                        credentials: false,
                        update_tips: false,
                        transfer_progress: false,
                    },
                },
            },
            Stage::Done(_) => Action::Stop,
        }
    }

    /// How the session ended, once it is done.
    pub fn outcome(&self) -> (outcome: Option<&Outcome>)
        ensures
            match outcome {
                Some(o) => self@.stage == StageView::Done(o@),
                None => !(self@.stage is Done),
            },
    {
        match &self.stage {
            Stage::Done(outcome) => Some(outcome),
            _ => None,
        }
    }

    /// Takes the result of the pending action: moves to the next stage and
    /// returns the line to log, if there is one.
    pub fn advance(&mut self, event: Event) -> (line: Option<LogLine>)
        ensures
            final(self).remote@ == old(self).remote@,
            (final(self).stage@, optional_line(line)) == step(old(self)@, event@),
    {
        let (next, line) = match event {
            Event::Failed(failure) => match &self.stage {
                Stage::Done(_) => {
                    return None;
                },
                Stage::FetchFind => (Stage::FetchAnonymous, None),
                Stage::HeadFind => (Stage::HeadAnonymous, None),
                Stage::Merge => (Stage::HeadFind, Some(merge_report(Some(&failure)))),
                _ => abort(Abort::Git(failure)),
            },
            Event::Succeeded => match &self.stage {
                Stage::Done(_) => {
                    return None;
                },
                Stage::Open => (Stage::FetchFind, Some(announce(self.remote.as_str()))),
                Stage::FetchFind => (Stage::FetchDownload, None),
                Stage::FetchAnonymous => (Stage::FetchDownload, None),
                Stage::FetchUpdateTips => (Stage::FetchDisconnect, None),
                Stage::FetchDisconnect => (Stage::Merge, None),
                Stage::Merge => (Stage::HeadFind, Some(merge_report(None))),
                Stage::HeadFind => (Stage::HeadConnect, None),
                Stage::HeadAnonymous => (Stage::HeadConnect, None),
                Stage::HeadConnect => (Stage::HeadQuery, None),
                Stage::HeadFetch { .. } => (Stage::HeadDisconnect, None),
                Stage::HeadDisconnect => (Stage::Done(Outcome::Completed), None),
                _ => abort(Abort::OutOfTurn),
            },
            Event::Downloaded(stats) => match &self.stage {
                Stage::Done(_) => {
                    return None;
                },
                Stage::FetchDownload => (Stage::FetchUpdateTips, Some(fetch_summary(&stats))),
                _ => abort(Abort::OutOfTurn),
            },
            Event::Advertised(advertised) => match &self.stage {
                Stage::Done(_) => {
                    return None;
                },
                Stage::HeadQuery => match short_branch_name(advertised.as_str()) {
                    Ok(branch) => (Stage::HeadFetch { branch }, None),
                    Err(reason) => abort(Abort::NoBranch { advertised, reason }),
                },
                _ => abort(Abort::OutOfTurn),
            },
        };
        self.stage = next;
        line
    }
}

} // verus!
