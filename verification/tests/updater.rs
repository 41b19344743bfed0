use deni_desktop::updater::{check_outcome, install_outcome, start_failure_report, UpdateCheck};

#[test]
fn start_failure_interactive_notifies() {
    let r = start_failure_report(true, "boom");
    assert_eq!(r.notification.as_deref(), Some("Couldn't start the updater: boom"));
    assert_eq!(r.log, None);
}

#[test]
fn start_failure_background_logs() {
    let r = start_failure_report(false, "boom");
    assert_eq!(r.notification, None);
    assert_eq!(r.log.as_deref(), Some("failed to initialize updater: boom"));
}

#[test]
fn available_interactive_installs() {
    let p = check_outcome(true, &UpdateCheck::Available { version: "1.2.3".to_string() });
    assert!(p.install);
    assert_eq!(
        p.report.notification.as_deref(),
        Some("Downloading Deni AI 1.2.3. The installer will run when the download finishes.")
    );
}

#[test]
fn available_background_only_notifies() {
    let p = check_outcome(false, &UpdateCheck::Available { version: "1.2.3".to_string() });
    assert!(!p.install);
    assert_eq!(
        p.report.notification.as_deref(),
        Some("Deni AI 1.2.3 is available. Use Help > Check for Updates to install it.")
    );
}

#[test]
fn up_to_date_and_no_feed() {
    let p = check_outcome(true, &UpdateCheck::UpToDate);
    assert_eq!(p.report.notification.as_deref(), Some("You're already on the latest desktop build."));
    let p = check_outcome(false, &UpdateCheck::UpToDate);
    assert!(p.report.notification.is_none() && p.report.log.is_none() && !p.install);
    let p = check_outcome(true, &UpdateCheck::NoEndpoints);
    assert_eq!(
        p.report.notification.as_deref(),
        Some("Updater support is wired in, but this build does not have a release feed configured yet.")
    );
    let p = check_outcome(false, &UpdateCheck::NoEndpoints);
    assert!(p.report.notification.is_none() && p.report.log.is_none() && !p.install);
}

#[test]
fn failed_check() {
    let e = UpdateCheck::Failed { error: "offline".to_string() };
    let p = check_outcome(true, &e);
    assert_eq!(p.report.notification.as_deref(), Some("Couldn't check for updates: offline"));
    let p = check_outcome(false, &e);
    assert_eq!(p.report.log.as_deref(), Some("background update check failed: offline"));
    assert!(p.report.notification.is_none());
}

#[test]
fn install_results() {
    assert_eq!(install_outcome("2.0", &Ok(())), "Deni AI 2.0 is ready to install.");
    assert_eq!(
        install_outcome("2.0", &Err("disk full".to_string())),
        "The update download failed: disk full"
    );
}
