use nvdl::digest::{UnverifiableReason, VerificationOutcome};
use nvdl::release::{Channel, Endpoint, MetadataReply, ResolutionError};
use nvdl::run::{Action, Ending, Event, FetchError, Failure, LaunchError, Mode, PersistenceError, Question, Run, Stage};

const ABC_SHA1: &str = "a9993e364706816aba3e25717850c26c9cd0d89d";

fn step(run: Run, e: Event) -> (Run, Action) {
    assert!(run.accepts_event(&e));
    run.step(e)
}

fn stable_reply(hash: &str) -> Event {
    Event::Metadata(MetadataReply::Received {
        url: Some("https://example/nvda_2024.1.exe".to_string()),
        hash: Some(hash.to_string()),
    })
}

#[test]
fn matching_download_is_saved_without_prompt() {
    let run = Run::new(Endpoint::Stable, Mode::DownloadAndInstall, false);
    let (run, a) = step(run, Event::Started);
    assert_eq!(a, Action::RequestMetadata(Channel::Stable));
    let (run, a) = step(run, stable_reply(ABC_SHA1));
    assert_eq!(a, Action::Fetch("https://example/nvda_2024.1.exe".to_string()));
    let (run, a) = step(run, Event::Fetched(Ok(b"abc".to_vec())));
    assert_eq!(a, Action::Save { file_name: "nvda_2024.1.exe".to_string(), bytes: b"abc".to_vec() });
    let (run, a) = step(run, Event::Saved(Ok(())));
    assert_eq!(a, Action::Finish);
    assert_eq!(run.stage, Stage::Finished(Ending::Completed));
}

#[test]
fn malformed_hash_declined() {
    let run = Run::new(Endpoint::Stable, Mode::DownloadAndInstall, true);
    let (run, _) = step(run, Event::Started);
    let (run, _) = step(run, stable_reply("not-hex"));
    let (run, a) = step(run, Event::Fetched(Ok(b"abc".to_vec())));
    assert_eq!(
        a,
        Action::Confirm {
            question: Question::Proceed(VerificationOutcome::Unverifiable(UnverifiableReason::InvalidHashFormat)),
            default_yes: false,
        }
    );
    let (run, a) = step(run, Event::Answer(false));
    assert_eq!(a, Action::Finish);
    assert_eq!(run.stage, Stage::Finished(Ending::Declined));
    assert_eq!(Ending::Declined.exit_code(), 0);
}

#[test]
fn legacy_mismatch_accepted_is_saved() {
    let run = Run::new(Endpoint::Xp, Mode::DownloadAndInstall, false);
    let (run, a) = step(run, Event::Started);
    assert_eq!(a, Action::Fetch("https://download.nvaccess.org/releases/2017.3/nvda_2017.3.exe".to_string()));
    let (run, a) = step(run, Event::Fetched(Ok(b"corrupted".to_vec())));
    assert_eq!(
        a,
        Action::Confirm { question: Question::Proceed(VerificationOutcome::Mismatched), default_yes: false }
    );
    let (run, a) = step(run, Event::Answer(true));
    assert_eq!(a, Action::Save { file_name: "nvda_2017.3.exe".to_string(), bytes: b"corrupted".to_vec() });
    let (run, a) = step(run, Event::Saved(Ok(())));
    assert_eq!(a, Action::Finish);
    assert_eq!(run.stage, Stage::Finished(Ending::Completed));
}

#[test]
fn metadata_failure_is_fatal() {
    let run = Run::new(Endpoint::Stable, Mode::DownloadAndInstall, false);
    let (run, _) = step(run, Event::Started);
    let (run, a) = step(run, Event::Metadata(MetadataReply::Failed("HTTP status 500".to_string())));
    assert_eq!(a, Action::Finish);
    let expected = Ending::Failed(Failure::Resolution(ResolutionError::Transport("HTTP status 500".to_string())));
    assert_eq!(run.stage, Stage::Finished(expected.clone()));
    assert_ne!(expected.exit_code(), 0);
}

#[test]
fn print_url_fetches_nothing() {
    let run = Run::new(Endpoint::Beta, Mode::PrintUrl, true);
    let (run, a) = step(run, Event::Started);
    assert_eq!(a, Action::RequestMetadata(Channel::Beta));
    let (run, a) = step(run, stable_reply(ABC_SHA1));
    assert_eq!(a, Action::Print { url: Some("https://example/nvda_2024.1.exe".to_string()), hash: None });
    let (run, a) = step(run, Event::Printed);
    assert_eq!(a, Action::Finish);
    assert_eq!(run.stage, Stage::Finished(Ending::Printed));
}

#[test]
fn print_modes_choose_fields() {
    let (_, a) = step(Run::new(Endpoint::Win7, Mode::PrintHash, false), Event::Started);
    assert_eq!(a, Action::Print { url: None, hash: Some("985a6deab01edb55fbedc9b056956e30120db290".to_string()) });
    let (_, a) = step(Run::new(Endpoint::Win7, Mode::PrintBoth, false), Event::Started);
    assert_eq!(
        a,
        Action::Print {
            url: Some("https://download.nvaccess.org/releases/2023.3.4/nvda_2023.3.4.exe".to_string()),
            hash: Some("985a6deab01edb55fbedc9b056956e30120db290".to_string()),
        }
    );
}

#[test]
fn missing_hash_asks_before_saving() {
    let run = Run::new(Endpoint::Alpha, Mode::DownloadAndInstall, false);
    let (run, _) = step(run, Event::Started);
    let reply = MetadataReply::Received { url: Some("https://example/dir/".to_string()), hash: None };
    let (run, _) = step(run, Event::Metadata(reply));
    let (run, a) = step(run, Event::Fetched(Ok(b"abc".to_vec())));
    assert_eq!(
        a,
        Action::Confirm {
            question: Question::Proceed(VerificationOutcome::Unverifiable(UnverifiableReason::NoHashProvided)),
            default_yes: false,
        }
    );
    let (_, a) = step(run, Event::Answer(true));
    assert_eq!(a, Action::Save { file_name: "nvda_installer.exe".to_string(), bytes: b"abc".to_vec() });
}

#[test]
fn missing_link_is_fatal() {
    let run = Run::new(Endpoint::Stable, Mode::PrintUrl, false);
    let (run, _) = step(run, Event::Started);
    let (run, a) = step(run, Event::Metadata(MetadataReply::Received { url: None, hash: None }));
    assert_eq!(a, Action::Finish);
    assert_eq!(run.stage, Stage::Finished(Ending::Failed(Failure::Resolution(ResolutionError::MissingUrl))));
}

#[test]
fn fetch_failure_is_fatal() {
    let run = Run::new(Endpoint::Xp, Mode::DownloadAndInstall, true);
    let (run, _) = step(run, Event::Started);
    let (run, a) = step(run, Event::Fetched(Err(FetchError::HttpStatus(404))));
    assert_eq!(a, Action::Finish);
    let end = Ending::Failed(Failure::Fetch(FetchError::HttpStatus(404)));
    assert_eq!(end.exit_code(), 1);
    assert_eq!(run.stage, Stage::Finished(end));
}

#[test]
fn save_failure_is_fatal() {
    let run = Run::new(Endpoint::Stable, Mode::DownloadAndInstall, true);
    let (run, _) = step(run, Event::Started);
    let (run, _) = step(run, stable_reply(ABC_SHA1));
    let (run, _) = step(run, Event::Fetched(Ok(b"abc".to_vec())));
    let (run, a) = step(run, Event::Saved(Err(PersistenceError::IoFailure("disk full".to_string()))));
    assert_eq!(a, Action::Finish);
    let end = Ending::Failed(Failure::Persistence(PersistenceError::IoFailure("disk full".to_string())));
    assert_eq!(run.stage, Stage::Finished(end));
}

#[test]
fn launch_is_offered_where_supported() {
    let run = Run::new(Endpoint::Stable, Mode::DownloadAndInstall, true);
    let (run, _) = step(run, Event::Started);
    let (run, _) = step(run, stable_reply(ABC_SHA1));
    let (run, _) = step(run, Event::Fetched(Ok(b"abc".to_vec())));
    let (run, a) = step(run, Event::Saved(Ok(())));
    assert_eq!(a, Action::Confirm { question: Question::RunInstaller, default_yes: true });
    let (run, a) = step(run, Event::Answer(true));
    assert_eq!(a, Action::Launch("nvda_2024.1.exe".to_string()));
    let (run, a) = step(run, Event::Launched(Err(LaunchError::NonZeroExit(2))));
    assert_eq!(a, Action::Finish);
    let end = Ending::LaunchFailed(LaunchError::NonZeroExit(2));
    assert_eq!(end.exit_code(), 0);
    assert_eq!(run.stage, Stage::Finished(end));
}

#[test]
fn launch_refused_completes() {
    let run = Run::new(Endpoint::Win7, Mode::DownloadAndInstall, true);
    let (run, _) = step(run, Event::Started);
    let (run, _) = step(run, Event::Fetched(Ok(b"x".to_vec())));
    let (run, _) = step(run, Event::Answer(true));
    let (run, _) = step(run, Event::Saved(Ok(())));
    let (run, a) = step(run, Event::Answer(false));
    assert_eq!(a, Action::Finish);
    assert_eq!(run.stage, Stage::Finished(Ending::Completed));
}

#[test]
fn finished_run_ignores_events() {
    let run = Run::new(Endpoint::Beta, Mode::PrintHash, false);
    let (run, _) = step(run, Event::Started);
    let (run, _) = step(run, Event::Metadata(MetadataReply::Received { url: Some("https://e/x".to_string()), hash: None }));
    let (run, _) = step(run, Event::Printed);
    let (run, a) = step(run, Event::Answer(true));
    assert_eq!(a, Action::Finish);
    assert_eq!(run.stage, Stage::Finished(Ending::Printed));
}

#[test]
fn unexpected_events_are_refused() {
    let run = Run::new(Endpoint::Stable, Mode::DownloadAndInstall, false);
    assert!(!run.accepts_event(&Event::Printed));
    assert!(run.accepts_event(&Event::Started));
}
