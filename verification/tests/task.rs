use app_update::checker::{CheckError, Fetched, RemoteManifest, UpdateChecker};
use app_update::installer::{
    DownloadProgress, InstallError, InstallEvent, InstallOutcome, InstallState, Installer,
    Notification,
};
use app_update::task::{after_check, after_install, run_task, TaskOutcome, TaskStep};
use app_update::transcript::install;
use app_update::version::Version;

fn running(version: &str) -> UpdateChecker {
    UpdateChecker::new(
        String::from("https://updates.example/latest"),
        Version::parse(version).expect("a version"),
    )
}

fn advertised(version: &str, length: Option<u64>) -> Fetched {
    Fetched::Document(RemoteManifest {
        version: Some(String::from(version)),
        location: Some(String::from("https://updates.example/app-1.2.0.bin")),
        content_length: length,
        integrity: Some(String::from("abc123")),
    })
}

fn download(token: &str) -> Vec<InstallEvent> {
    vec![
        InstallEvent::ChunkStaged { size: 1000, advertised: Some(2500) },
        InstallEvent::ChunkStaged { size: 1000, advertised: Some(2500) },
        InstallEvent::ChunkStaged { size: 500, advertised: Some(2500) },
        InstallEvent::StreamExhausted,
        InstallEvent::ArtifactToken(String::from(token)),
        InstallEvent::PlatformInstalled,
    ]
}

#[test]
fn update_is_found_downloaded_and_installed() {
    let checker = running("1.0.0");
    let found = checker.check(advertised("1.2.0", Some(2500))).expect("no error");
    let update = found.expect("an update");
    assert_eq!(update.version(), &Version::new(1, 2, 0));
    assert_eq!(update.location(), "https://updates.example/app-1.2.0.bin");
    assert_eq!(update.integrity(), "abc123");
    let report = install(update, &download("abc123"));
    let mut last = 0;
    let mut reports = 0;
    for notification in &report.notifications {
        if let Notification::Progress(progress) = notification {
            assert!(progress.transferred > last);
            assert_eq!(progress.total, Some(2500));
            last = progress.transferred;
            reports += 1;
        }
    }
    assert_eq!(reports, 3);
    assert_eq!(last, 2500);
    assert_eq!(report.notifications.last(), Some(&Notification::DownloadComplete));
    assert_eq!(report.outcome(), Some(InstallOutcome::Succeeded));
    assert_eq!(report.result(), Some(Ok(())));
}

#[test]
fn task_installs_what_the_check_finds() {
    let report = run_task(&running("1.0.0"), advertised("1.2.0", None), &download("abc123"));
    assert_eq!(report.outcome, Some(TaskOutcome::Installed));
    assert_eq!(
        report.notifications,
        vec![
            Notification::Progress(DownloadProgress { transferred: 1000, total: Some(2500) }),
            Notification::Progress(DownloadProgress { transferred: 2000, total: Some(2500) }),
            Notification::Progress(DownloadProgress { transferred: 2500, total: Some(2500) }),
            Notification::DownloadComplete,
        ]
    );
}

#[test]
fn task_ends_at_once_without_an_update() {
    for version in ["1.0.0", "0.9.9", "0.0.1"] {
        let report = run_task(&running("1.0.0"), advertised(version, None), &download("abc123"));
        assert_eq!(report.outcome, Some(TaskOutcome::NoUpdate));
        assert!(report.notifications.is_empty());
    }
}

#[test]
fn task_ends_at_once_when_the_check_fails() {
    let events = download("abc123");
    let report = run_task(&running("1.0.0"), Fetched::Unreachable, &events);
    assert_eq!(report.outcome, Some(TaskOutcome::CheckFailed(CheckError::NetworkUnreachable)));
    assert!(report.notifications.is_empty());
    let report = run_task(&running("1.0.0"), Fetched::Unreadable, &events);
    assert_eq!(report.outcome, Some(TaskOutcome::CheckFailed(CheckError::MalformedManifest)));
    let report = run_task(&running("1.0.0"), advertised("newest", None), &events);
    assert_eq!(report.outcome, Some(TaskOutcome::CheckFailed(CheckError::UnparsableVersion)));
    assert!(report.notifications.is_empty());
}

#[test]
fn task_reports_why_the_installation_failed() {
    let report = run_task(&running("1.0.0"), advertised("1.2.0", None), &download("abc12"));
    assert_eq!(report.outcome, Some(TaskOutcome::InstallFailed(InstallError::IntegrityMismatch)));
    assert_eq!(report.notifications.len(), 4);
    let events = vec![
        InstallEvent::ChunkStaged { size: 1, advertised: None },
        InstallEvent::TransferInterrupted,
    ];
    let report = run_task(&running("1.0.0"), advertised("1.2.0", None), &events);
    assert_eq!(
        report.outcome,
        Some(TaskOutcome::InstallFailed(InstallError::TransferInterrupted))
    );
    let events = vec![InstallEvent::StagingWriteFailed];
    let report = run_task(&running("1.0.0"), advertised("1.2.0", None), &events);
    assert_eq!(
        report.outcome,
        Some(TaskOutcome::InstallFailed(InstallError::StagingWriteFailed))
    );
    let events = vec![
        InstallEvent::StreamExhausted,
        InstallEvent::ArtifactToken(String::from("abc123")),
        InstallEvent::PlatformRejected,
    ];
    let report = run_task(&running("1.0.0"), advertised("1.2.0", None), &events);
    assert_eq!(report.outcome, Some(TaskOutcome::InstallFailed(InstallError::PlatformRejected)));
}

#[test]
fn task_torn_down_in_flight_has_no_outcome() {
    let events = vec![InstallEvent::ChunkStaged { size: 10, advertised: Some(20) }];
    let report = run_task(&running("1.0.0"), advertised("1.2.0", Some(20)), &events);
    assert_eq!(report.outcome, None);
    assert_eq!(
        report.notifications,
        vec![Notification::Progress(DownloadProgress { transferred: 10, total: Some(20) })]
    );
}

#[test]
fn found_update_is_installed_at_once() {
    let found = running("1.0.0").check(advertised("1.2.0", None));
    match after_check(found) {
        TaskStep::Install(installer) => {
            assert_eq!(installer.state(), InstallState::Fetching { received: 0 });
            assert_eq!(installer.update().version(), &Version::new(1, 2, 0));
            assert_eq!(after_install(&installer), None);
        }
        TaskStep::Finish(outcome) => panic!("ended with {:?}", outcome),
    }
}

#[test]
fn no_update_and_failed_check_end_the_task() {
    assert_eq!(after_check(Ok(None)), TaskStep::Finish(TaskOutcome::NoUpdate));
    for error in [
        CheckError::NetworkUnreachable,
        CheckError::MalformedManifest,
        CheckError::UnparsableVersion,
    ] {
        assert_eq!(after_check(Err(error)), TaskStep::Finish(TaskOutcome::CheckFailed(error)));
    }
}

#[test]
fn ended_installation_ends_the_task() {
    let update = running("1.0.0")
        .check(advertised("3.4.5", None))
        .expect("no error")
        .expect("an update");
    let mut installer = Installer::new(update);
    assert_eq!(after_install(&installer), None);
    installer.start();
    assert_eq!(after_install(&installer), None);
    installer.handle(&InstallEvent::StreamExhausted);
    assert_eq!(after_install(&installer), None);
    installer.handle(&InstallEvent::ArtifactToken(String::from("abc123")));
    assert_eq!(after_install(&installer), None);
    installer.handle(&InstallEvent::PlatformInstalled);
    assert_eq!(after_install(&installer), Some(TaskOutcome::Installed));
    assert_eq!(installer.update().version(), &Version::new(3, 4, 5));
}

#[test]
fn task_takes_versions_as_semver_writes_them() {
    let report = run_task(&running("2.0.0-beta.1"), advertised("v2.0.0", None), &download("abc123"));
    assert_eq!(report.outcome, Some(TaskOutcome::Installed));
    let report = run_task(&running("1.0.0"), advertised("1.2.0-rc1", None), &download("abc123"));
    assert_eq!(report.outcome, Some(TaskOutcome::Installed));
    let report = run_task(&running("1.2.0"), advertised("1.2.0-rc1", None), &download("abc123"));
    assert_eq!(report.outcome, Some(TaskOutcome::NoUpdate));
}
