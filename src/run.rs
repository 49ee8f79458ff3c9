//! The steps of one run: resolve, fetch, verify, confirm, save, launch.
//!
//! The run decides; its caller performs each action and reports back what
//! came of it as the next event.
use vstd::prelude::*;

use crate::digest::{opt_text, outcome_of, sha1_of, verify, VerificationOutcome};
use crate::release::{
    resolution_spec, resolve_reply, Channel, Endpoint, MetadataReply, ReleaseDescriptor,
    ResolutionError, Source,
};
use crate::text::{file_name_for, file_name_spec};

verus! {

/// What a run is asked to do once the release is resolved.
#[derive(Debug, Clone, Copy, PartialEq, Eq, Structural)]
pub enum Mode {
    /// Print the download link.
    PrintUrl,
    /// Print the expected hash.
    PrintHash,
    /// Print the link and the hash.
    PrintBoth,
    /// Download, check, save and offer to run the installer.
    DownloadAndInstall,
}

impl Mode {
    /// The mode prints the download link.
    pub open spec fn shows_url(self) -> bool {
        self is PrintUrl || self is PrintBoth
    }

    /// The mode prints the expected hash.
    pub open spec fn shows_hash(self) -> bool {
        self is PrintHash || self is PrintBoth
    }
}

/// Why the artifact could not be fetched.
#[derive(Debug, Clone, PartialEq, Eq)]
pub enum FetchError {
    /// The request failed before a status came back.
    Transport(String),
    /// The server answered with a status outside 200..=299.
    HttpStatus(u16),
}

/// Why the artifact could not be saved.
#[derive(Debug, Clone, PartialEq, Eq)]
pub enum PersistenceError {
    IoFailure(String),
}

/// Why the installer did not run to a clean end.
#[derive(Debug, Clone, PartialEq, Eq)]
pub enum LaunchError {
    /// The process could not be started or waited for.
    SpawnFailure(String),
    /// The process ended with a status other than zero.
    NonZeroExit(i32),
}

/// A failure that ends a run in error.
#[derive(Debug, Clone, PartialEq, Eq)]
pub enum Failure {
    Resolution(ResolutionError),
    Fetch(FetchError),
    Persistence(PersistenceError),
}

/// How a run ended.
#[derive(Debug, Clone, PartialEq, Eq)]
pub enum Ending {
    /// The requested fields were printed.
    Printed,
    /// The artifact was saved (and, if asked, the installer ran).
    Completed,
    /// The user declined to keep an artifact that could not be verified.
    Declined,
    /// The artifact was saved, but the installer failed.
    LaunchFailed(LaunchError),
    /// A fatal failure.
    Failed(Failure),
}

impl Ending {
    /// The process exit status for this ending: 1 for a failure, else 0.
    pub fn exit_code(&self) -> (r: i32)
        ensures
            r == (if self is Failed { 1i32 } else { 0i32 }),
    {
        match self {
            Ending::Failed(_) => 1,
            _ => 0,
        }
    }
}

/// A yes/no question put to the user.
#[derive(Debug, Clone, Copy, PartialEq, Eq, Structural)]
pub enum Question {
    /// Keep the artifact although it failed verification this way?
    Proceed(VerificationOutcome),
    /// Run the installer that was just saved?
    RunInstaller,
}

/// Where a run stands.
#[derive(Debug, Clone, PartialEq, Eq)]
pub enum Stage {
    Start,
    /// Waiting for the metadata of a dynamic channel.
    Resolving,
    /// Waiting for the requested fields to be printed.
    Printing,
    /// Waiting for the artifact.
    Fetching { descriptor: ReleaseDescriptor },
    /// Waiting for the user to accept an artifact that did not verify.
    Confirming { file_name: String, bytes: Vec<u8> },
    /// Waiting for the artifact to be written.
    Saving { file_name: String },
    /// Waiting for the user to accept or refuse running the installer.
    OfferingLaunch { file_name: String },
    /// Waiting for the installer to exit.
    Launching,
    Finished(Ending),
}

/// What the caller reports back after an action.
#[derive(Debug, PartialEq, Eq)]
pub enum Event {
    Started,
    Metadata(MetadataReply),
    Printed,
    Fetched(Result<Vec<u8>, FetchError>),
    /// The answer to the last question; a prompt that failed counts as its default.
    Answer(bool),
    Saved(Result<(), PersistenceError>),
    Launched(Result<(), LaunchError>),
}

/// What the caller is to do next.
#[derive(Debug, PartialEq, Eq)]
pub enum Action {
    /// Ask the update service about a channel.
    RequestMetadata(Channel),
    /// Print the fields that are present.
    Print { url: Option<String>, hash: Option<String> },
    /// Download the artifact at this link.
    Fetch(String),
    /// Ask a yes/no question, with this default answer.
    Confirm { question: Question, default_yes: bool },
    /// Create or truncate the file, write all the bytes, and flush it.
    Save { file_name: String, bytes: Vec<u8> },
    /// Run the saved file, with no arguments, and wait for it.
    Launch(String),
    /// Stop: the run has finished, with the ending its stage holds.
    Finish,
}

/// One run of the tool, for a version and a mode.
#[derive(Debug, PartialEq, Eq)]
pub struct Run {
    pub endpoint: Endpoint,
    pub mode: Mode,
    /// This platform can run the installer.
    pub launch_supported: bool,
    pub stage: Stage,
}

/// `next` has finished with `end`, and `a` stops the run.
pub open spec fn finishes(next: Stage, a: Action, end: Ending) -> bool {
    next == Stage::Finished(end) && a is Finish
}

/// What follows the resolution of a release with link `url` and hash `hash`:
/// a mode that prints prints the fields it asks for; a download fetches.
pub open spec fn after_resolution(
    mode: Mode,
    url: Seq<char>,
    hash: Option<Seq<char>>,
    next: Stage,
    a: Action,
) -> bool {
    if mode is DownloadAndInstall {
        &&& next matches Stage::Fetching { descriptor }
        &&& descriptor.download_url@ == url
        &&& opt_text(descriptor.expected_hash) == hash
        &&& a == Action::Fetch(descriptor.download_url)
    } else {
        &&& next == Stage::Printing
        &&& a matches Action::Print { url: pu, hash: ph }
        &&& opt_text(pu) == (if mode.shows_url() { Some(url) } else { None })
        &&& opt_text(ph) == (if mode.shows_hash() { hash } else { None })
    }
}

/// What follows the fetch of `bytes` for `d`: a verified artifact is saved
/// under the name its link gives; any other outcome is put to the user,
/// whose default is to refuse.
pub open spec fn after_fetch(d: ReleaseDescriptor, bytes: Vec<u8>, next: Stage, a: Action) -> bool {
    let outcome = outcome_of(sha1_of(bytes@), opt_text(d.expected_hash));
    if outcome is Verified {
        &&& next matches Stage::Saving { file_name }
        &&& file_name@ == file_name_spec(d.download_url@)
        &&& a == Action::Save { file_name, bytes }
    } else {
        &&& next matches Stage::Confirming { file_name, bytes: kept }
        &&& file_name@ == file_name_spec(d.download_url@)
        &&& kept == bytes
        &&& a == Action::Confirm { question: Question::Proceed(outcome), default_yes: false }
    }
}

impl Run {
    /// The run is waiting for an event of this kind.
    pub open spec fn accepts(self, e: Event) -> bool {
        match self.stage {
            Stage::Start => e is Started,
            Stage::Resolving => e is Metadata,
            Stage::Printing => e is Printed,
            Stage::Fetching { .. } => e is Fetched,
            Stage::Confirming { .. } => e is Answer,
            Stage::Saving { .. } => e is Saved,
            Stage::OfferingLaunch { .. } => e is Answer,
            Stage::Launching => e is Launched,
            Stage::Finished(_) => true,
        }
    }

    /// `next` and `a` are the stage and the action that follow `e`.
    pub open spec fn transition(self, e: Event, next: Stage, a: Action) -> bool {
        match self.stage {
            Stage::Start => match self.endpoint.channel_spec() {
                Some(c) => next == Stage::Resolving && a == Action::RequestMetadata(c),
                None => after_resolution(
                    self.mode,
                    self.endpoint.fixed_url_spec()->0,
                    self.endpoint.fixed_hash_spec(),
                    next,
                    a,
                ),
            },
            Stage::Resolving => match e {
                Event::Metadata(reply) => match resolution_spec(reply) {
                    Err(err) => finishes(next, a, Ending::Failed(Failure::Resolution(err))),
                    Ok(d) => after_resolution(
                        self.mode,
                        d.download_url@,
                        opt_text(d.expected_hash),
                        next,
                        a,
                    ),
                },
                _ => false,
            },
            Stage::Printing => finishes(next, a, Ending::Printed),
            Stage::Fetching { descriptor } => match e {
                Event::Fetched(Err(err)) => finishes(next, a, Ending::Failed(Failure::Fetch(err))),
                Event::Fetched(Ok(bytes)) => after_fetch(descriptor, bytes, next, a),
                _ => false,
            },
            Stage::Confirming { file_name, bytes } => match e {
                Event::Answer(true) => next == Stage::Saving { file_name } && a == Action::Save {
                    file_name,
                    bytes,
                },
                Event::Answer(false) => finishes(next, a, Ending::Declined),
                _ => false,
            },
            Stage::Saving { file_name } => match e {
                Event::Saved(Err(err)) => finishes(
                    next,
                    a,
                    Ending::Failed(Failure::Persistence(err)),
                ),
                Event::Saved(Ok(())) => if self.launch_supported {
                    next == Stage::OfferingLaunch { file_name } && a == Action::Confirm {
                        question: Question::RunInstaller,
                        default_yes: true,
                    }
                } else {
                    finishes(next, a, Ending::Completed)
                },
                _ => false,
            },
            Stage::OfferingLaunch { file_name } => match e {
                Event::Answer(true) => next == Stage::Launching && a == Action::Launch(file_name),
                Event::Answer(false) => finishes(next, a, Ending::Completed),
                _ => false,
            },
            Stage::Launching => match e {
                Event::Launched(Ok(())) => finishes(next, a, Ending::Completed),
                Event::Launched(Err(err)) => finishes(next, a, Ending::LaunchFailed(err)),
                _ => false,
            },
            Stage::Finished(end) => finishes(next, a, end),
        }
    }

    /// A run that has not started.
    pub fn new(endpoint: Endpoint, mode: Mode, launch_supported: bool) -> (r: Run)
        ensures
            r == (Run { endpoint, mode, launch_supported, stage: Stage::Start }),
    {
        Run { endpoint, mode, launch_supported, stage: Stage::Start }
    }

    /// Whether the run is waiting for an event of this kind.
    pub fn accepts_event(&self, e: &Event) -> (r: bool)
        ensures
            r == self.accepts(*e),
    {
        match &self.stage {
            Stage::Start => matches!(e, Event::Started),
            Stage::Resolving => matches!(e, Event::Metadata(_)),
            Stage::Printing => matches!(e, Event::Printed),
            Stage::Fetching { .. } => matches!(e, Event::Fetched(_)),
            Stage::Confirming { .. } => matches!(e, Event::Answer(_)),
            Stage::Saving { .. } => matches!(e, Event::Saved(_)),
            Stage::OfferingLaunch { .. } => matches!(e, Event::Answer(_)),
            Stage::Launching => matches!(e, Event::Launched(_)),
            Stage::Finished(_) => true,
        }
    }
}

/// The stage and action that follow the resolution of `d`.
fn resolved(mode: Mode, d: ReleaseDescriptor) -> (r: (Stage, Action))
    ensures
        after_resolution(mode, d.download_url@, opt_text(d.expected_hash), r.0, r.1),
{
    match mode {
        Mode::DownloadAndInstall => {
            let url = d.download_url.clone();
            (Stage::Fetching { descriptor: d }, Action::Fetch(url))
        },
        Mode::PrintUrl => (Stage::Printing, Action::Print { url: Some(d.download_url), hash: None }),
        Mode::PrintHash => (Stage::Printing, Action::Print { url: None, hash: d.expected_hash }),
        Mode::PrintBoth => (
            Stage::Printing,
            Action::Print { url: Some(d.download_url), hash: d.expected_hash },
        ),
    }
}

/// The stage and action that follow the fetch of `bytes` for `d`.
fn fetched(d: ReleaseDescriptor, bytes: Vec<u8>) -> (r: (Stage, Action))
    ensures
        after_fetch(d, bytes, r.0, r.1),
{
    let outcome = verify(bytes.as_slice(), &d.expected_hash);
    let file_name = file_name_for(d.download_url.as_str());
    match outcome {
        VerificationOutcome::Verified => {
            let name = file_name.clone();
            (Stage::Saving { file_name }, Action::Save { file_name: name, bytes })
        },
        _ => (
            Stage::Confirming { file_name, bytes },
            Action::Confirm { question: Question::Proceed(outcome), default_yes: false },
        ),
    }
}

/// The stage that follows `stage` on event `e`, and the action it calls for.
fn next_of(
    endpoint: Endpoint,
    mode: Mode,
    launch_supported: bool,
    stage: Stage,
    e: Event,
) -> (r: (Stage, Action))
    requires
        (Run { endpoint, mode, launch_supported, stage }).accepts(e),
    ensures
        (Run { endpoint, mode, launch_supported, stage }).transition(e, r.0, r.1),
{
    match (stage, e) {
        (Stage::Start, _) => match endpoint.source() {
            Source::Dynamic(c) => (Stage::Resolving, Action::RequestMetadata(c)),
            Source::Fixed(d) => resolved(mode, d),
        },
        (Stage::Resolving, Event::Metadata(reply)) => match resolve_reply(reply) {
            Err(err) => (Stage::Finished(Ending::Failed(Failure::Resolution(err))), Action::Finish),
            Ok(d) => resolved(mode, d),
        },
        (Stage::Printing, _) => (Stage::Finished(Ending::Printed), Action::Finish),
        (Stage::Fetching { descriptor }, Event::Fetched(fetch)) => match fetch {
            Err(err) => (Stage::Finished(Ending::Failed(Failure::Fetch(err))), Action::Finish),
            Ok(bytes) => fetched(descriptor, bytes),
        },
        (Stage::Confirming { file_name, bytes }, Event::Answer(yes)) => if yes {
            let name = file_name.clone();
            (Stage::Saving { file_name }, Action::Save { file_name: name, bytes })
        } else {
            (Stage::Finished(Ending::Declined), Action::Finish)
        },
        (Stage::Saving { file_name }, Event::Saved(saved)) => match saved {
            Err(err) => (
                Stage::Finished(Ending::Failed(Failure::Persistence(err))),
                Action::Finish,
            ),
            Ok(()) => if launch_supported {
                (
                    Stage::OfferingLaunch { file_name },
                    Action::Confirm { question: Question::RunInstaller, default_yes: true },
                )
            } else {
                (Stage::Finished(Ending::Completed), Action::Finish)
            },
        },
        (Stage::OfferingLaunch { file_name }, Event::Answer(yes)) => if yes {
            (Stage::Launching, Action::Launch(file_name))
        } else {
            (Stage::Finished(Ending::Completed), Action::Finish)
        },
        (Stage::Launching, Event::Launched(launched)) => match launched {
            Err(err) => (Stage::Finished(Ending::LaunchFailed(err)), Action::Finish),
            Ok(()) => (Stage::Finished(Ending::Completed), Action::Finish),
        },
        (Stage::Finished(end), _) => (Stage::Finished(end), Action::Finish),
        // Any other pair is ruled out by `accepts`.
        (stage, _) => (stage, Action::Finish),
    }
}

impl Run {
    /// Takes the run one step on: the run after `e`, and the action to perform.
    pub fn step(self, e: Event) -> (r: (Run, Action))
        requires
            self.accepts(e),
        ensures
            r.0.endpoint == self.endpoint,
            r.0.mode == self.mode,
            r.0.launch_supported == self.launch_supported,
            self.transition(e, r.0.stage, r.1),
    {
        let Run { endpoint, mode, launch_supported, stage } = self;
        let (stage, action) = next_of(endpoint, mode, launch_supported, stage, e);
        (Run { endpoint, mode, launch_supported, stage }, action)
    }
}

} // verus!
