use updater_core::check::{
    newer_version_strings, newer_versions, updates_available, MyError, UpdateCheckingStatus,
};
use updater_core::state::{fetched_message, GuiMessage, Updater, UpdaterMessage, UpdaterState};
use updater_core::version::Version;

fn strings(raw: &[&str]) -> Vec<String> {
    raw.iter().map(|s| s.to_string()).collect()
}

#[test]
fn comparison_is_field_wise() {
    let base = Version::new(1, 2, 3);
    assert!(Version::new(2, 0, 0).is_newer_than(&base));
    assert!(Version::new(1, 3, 0).is_newer_than(&base));
    assert!(Version::new(1, 2, 4).is_newer_than(&base));
    assert!(!Version::new(1, 2, 3).is_newer_than(&base));
    assert!(!Version::new(1, 2, 2).is_newer_than(&base));
    assert!(!Version::new(1, 1, 9).is_newer_than(&base));
    assert!(!Version::new(0, 9, 9).is_newer_than(&base));
    // major outranks minor and patch, minor outranks patch
    assert!(Version::new(2, 0, 0).is_newer_than(&Version::new(1, 99, 99)));
    assert!(Version::new(1, 3, 0).is_newer_than(&Version::new(1, 2, 99)));
}

#[test]
fn parsing_then_comparing_matches_field_wise_order() {
    let running = Version::new(1, 2, 3);
    let found = newer_versions(&running, &strings(&["2.0.0", "1.3.0", "1.2.4", "1.2.3", "0.9.9"]));
    assert_eq!(
        found,
        vec![Version::new(2, 0, 0), Version::new(1, 3, 0), Version::new(1, 2, 4)]
    );
}

#[test]
fn only_older_or_equal_yields_empty() {
    let running = Version::new(1, 2, 3);
    let found = newer_versions(&running, &strings(&["1.2.3", "1.2.2", "1.0.0", "0.9.9"]));
    assert!(found.is_empty());
}

#[test]
fn unparseable_entries_are_dropped_in_order() {
    let running = Version::new(1, 0, 0);
    let found = newer_versions(
        &running,
        &strings(&["bogus", "2.0.0", "not a version", "3.0.0", "1.0.01"]),
    );
    assert_eq!(found, vec![Version::new(2, 0, 0), Version::new(3, 0, 0)]);
}

#[test]
fn newer_versions_is_idempotent() {
    let running = Version::new(0, 10, 0);
    let releases = strings(&["0.10.1", "bogus", "0.11.0"]);
    let first = newer_versions(&running, &releases);
    let second = newer_versions(&running, &releases);
    assert_eq!(first, second);
}

#[test]
fn prerelease_strings_expose_their_triple() {
    let running = Version::new(0, 9, 0);
    let found = newer_versions(&running, &strings(&["1.0.0-alpha"]));
    assert_eq!(found, vec![Version::new(1, 0, 0)]);
}

#[test]
fn newer_version_strings_keeps_the_raw_strings() {
    let running = Version::new(0, 10, 0);
    let kept = newer_version_strings(&running, &strings(&["0.10.1", "0.9.0", "bogus"]));
    assert_eq!(kept, strings(&["0.10.1"]));
}

#[test]
fn scenario_found_one_newer_version() {
    let running = Version::new(0, 10, 0);
    let releases = strings(&["0.10.1", "0.9.0", "bogus"]);
    let found = newer_versions(&running, &releases);
    assert_eq!(found, vec![Version::new(0, 10, 1)]);

    let kept = newer_version_strings(&running, &releases);
    let message = fetched_message(&Ok(kept));
    assert_eq!(message, "Found the following new versions: \n0.10.1\n");

    let mut updater = Updater::new();
    let launch = updater.update(UpdaterMessage::FetchedNewerVersions(Ok(strings(&["0.10.1"]))));
    assert!(launch);
    match updater.state {
        UpdaterState::Fetched(ref m) => {
            assert_eq!(m, "Found the following new versions: \n0.10.1\n")
        }
        _ => panic!("expected the fetched state"),
    }
}

#[test]
fn scenario_empty_release_list_shows_bare_header() {
    let running = Version::new(0, 10, 0);
    let found = newer_versions(&running, &strings(&[]));
    assert!(found.is_empty());

    let mut updater = Updater::new();
    let launch = updater.update(UpdaterMessage::FetchedNewerVersions(Ok(Vec::new())));
    assert!(launch);
    match updater.state {
        UpdaterState::Fetched(ref m) => assert_eq!(m, "Found the following new versions: \n"),
        _ => panic!("expected the fetched state"),
    }
}

#[test]
fn scenario_fetch_failure_shows_the_error_text() {
    let mut updater = Updater::new();
    let launch = updater.update(UpdaterMessage::FetchedNewerVersions(Err(
        "Some problem while fetching versions from github".to_string(),
    )));
    assert!(launch);
    match updater.state {
        UpdaterState::Fetched(ref m) => {
            assert_eq!(m, "Some problem while fetching versions from github")
        }
        _ => panic!("expected the fetched state"),
    }
}

#[test]
fn scenario_start_signal_preempts_and_is_overwritten() {
    let mut updater = Updater::new();
    assert!(matches!(updater.state, UpdaterState::Fetching));

    let launch = updater.update(UpdaterMessage::GuiMessage(GuiMessage::StartPBC));
    assert!(!launch);
    assert!(matches!(updater.state, UpdaterState::Starting));

    // a completion that arrives afterwards is still processed and simply
    // overwrites the state
    let launch = updater.update(UpdaterMessage::FetchedNewerVersions(Ok(Vec::new())));
    assert!(launch);
    assert!(matches!(updater.state, UpdaterState::Fetched(_)));
}

#[test]
fn status_reports_the_first_newer_version() {
    let result: Result<Vec<Version>, MyError> =
        Ok(vec![Version::new(0, 10, 1), Version::new(0, 10, 2)]);
    assert_eq!(
        updates_available(&result),
        UpdateCheckingStatus::UpdatesAvailable(0, 10, 1)
    );
}

#[test]
fn status_reports_up_to_date_on_empty_list() {
    let result: Result<Vec<Version>, MyError> = Ok(Vec::new());
    assert_eq!(updates_available(&result), UpdateCheckingStatus::UpToDate);
}

#[test]
fn status_reports_errors_of_either_kind() {
    let fetch_failed: Result<Vec<Version>, MyError> = Err(MyError::SelfUpdateError);
    assert_eq!(updates_available(&fetch_failed), UpdateCheckingStatus::Error);
    let parse_failed: Result<Vec<Version>, MyError> = Err(MyError::SemVerError);
    assert_eq!(updates_available(&parse_failed), UpdateCheckingStatus::Error);
}

#[test]
fn display_text_follows_the_state() {
    let mut updater = Updater::new();
    assert_eq!(updater.title(), "PBC Updater");
    assert_eq!(updater.display_text(), "Fetching versions from Github");

    updater.update(UpdaterMessage::FetchedNewerVersions(Err("gone".to_string())));
    assert_eq!(updater.display_text(), "gone");

    updater.update(UpdaterMessage::GuiMessage(GuiMessage::StartPBC));
    assert_eq!(updater.display_text(), "Starting PBC now...");

    updater.state = UpdaterState::Downloading;
    assert_eq!(updater.display_text(), "Whoopsie, something went wrong");
    updater.state = UpdaterState::Updating;
    assert_eq!(updater.display_text(), "Whoopsie, something went wrong");
    updater.state = UpdaterState::Updated;
    assert_eq!(updater.display_text(), "Whoopsie, something went wrong");
}
