//! What the shell reports at each step of an update check. In an interactive
//! check (from the menu) every outcome is reported in a notification; in the
//! check at start-up only an available update is, and failures are logged.

use vstd::prelude::*;

use crate::url_guard::opt_string_view;

verus! {

/// What the update server answered.
#[derive(Debug, Clone)]
pub enum UpdateCheck {
    /// A newer build, of this version, is available.
    Available { version: String },
    /// This is the latest build.
    UpToDate,
    /// The build has no release feed configured.
    NoEndpoints,
    /// The check failed with this error.
    Failed { error: String },
}

/// A notification to show and a line to log, each where there is one.
#[derive(Debug)]
pub struct Report {
    pub notification: Option<String>,
    pub log: Option<String>,
}

/// What follows an update check: the report, and whether to download and
/// install the update.
#[derive(Debug)]
pub struct CheckPlan {
    pub report: Report,
    pub install: bool,
}

/// The notification and log line of an updater that would not start.
pub open spec fn spec_start_failure(interactive: bool, error: Seq<char>) -> (Option<Seq<char>>, Option<Seq<char>>) {
    if interactive {
        (Some("Couldn't start the updater: "@ + error), None)
    } else {
        (None, Some("failed to initialize updater: "@ + error))
    }
}

/// The notification, log line and install decision after a check.
pub open spec fn spec_check_outcome(interactive: bool, check: UpdateCheck) -> (Option<Seq<char>>, Option<Seq<char>>, bool) {
    match check {
        UpdateCheck::Available { version } => if interactive {
            (Some("Downloading Deni AI "@ + version@
                + ". The installer will run when the download finishes."@), None, true)
        } else {
            (Some("Deni AI "@ + version@ + " is available. Use Help > Check for Updates to install it."@), None, false)
        },
        UpdateCheck::UpToDate => if interactive {
            (Some("You're already on the latest desktop build."@), None, false)
        } else {
            (None, None, false)
        },
        UpdateCheck::NoEndpoints => if interactive {
            (Some("Updater support is wired in, but this build does not have a release feed configured yet."@), None, false)
        } else {
            (None, None, false)
        },
        UpdateCheck::Failed { error } => if interactive {
            (Some("Couldn't check for updates: "@ + error@), None, false)
        } else {
            (None, Some("background update check failed: "@ + error@), false)
        },
    }
}

/// The notification after a download and install of `version`.
pub open spec fn spec_install_outcome(version: Seq<char>, result: Result<(), Seq<char>>) -> Seq<char> {
    match result {
        Ok(()) => "Deni AI "@ + version + " is ready to install."@,
        Err(error) => "The update download failed: "@ + error,
    }
}

/// The check at start-up never installs anything, and shows a notification
/// only for an available update.
pub proof fn lemma_background_check_is_quiet(check: UpdateCheck, error: Seq<char>)
    ensures
        !spec_check_outcome(false, check).2,
        spec_check_outcome(false, check).0 is Some <==> check is Available,
        spec_start_failure(false, error).0 is None,
{
}

/// An interactive check reports every outcome in a notification, logs
/// nothing, and installs exactly when an update is available.
pub proof fn lemma_interactive_check_reports(check: UpdateCheck, error: Seq<char>)
    ensures
        spec_check_outcome(true, check).0 is Some,
        spec_check_outcome(true, check).1 is None,
        spec_check_outcome(true, check).2 <==> check is Available,
        spec_start_failure(true, error).0 is Some,
        spec_start_failure(true, error).1 is None,
{
}

/// The report when the updater cannot be started.
pub fn start_failure_report(interactive: bool, error: &str) -> (r: Report)
    ensures
        (opt_string_view(r.notification), opt_string_view(r.log)) == spec_start_failure(interactive, error@),
{
    if interactive {
        Report {
            notification: Some(String::from_str("Couldn't start the updater: ").concat(error)),
            log: None,
        }
    } else {
        Report {
            notification: None,
            log: Some(String::from_str("failed to initialize updater: ").concat(error)),
        }
    }
}

/// The report after an update check, and whether to install the update.
/// Only an interactive check installs an available update.
pub fn check_outcome(interactive: bool, check: &UpdateCheck) -> (p: CheckPlan)
    ensures
        (opt_string_view(p.report.notification), opt_string_view(p.report.log), p.install) == spec_check_outcome(
            interactive,
            *check,
        ),
{
    match check {
        UpdateCheck::Available { version } => {
            if interactive {
                let n = String::from_str("Downloading Deni AI ").concat(version.as_str()).concat(
                    ". The installer will run when the download finishes.",
                );
                CheckPlan { report: Report { notification: Some(n), log: None }, install: true }
            } else {
                let n = String::from_str("Deni AI ").concat(version.as_str()).concat(
                    " is available. Use Help > Check for Updates to install it.",
                );
                CheckPlan { report: Report { notification: Some(n), log: None }, install: false }
            }
        },
        UpdateCheck::UpToDate => {
            let n = if interactive {
                Some(String::from_str("You're already on the latest desktop build."))
            } else {
                None
            };
            CheckPlan { report: Report { notification: n, log: None }, install: false }
        },
        UpdateCheck::NoEndpoints => {
            let n = if interactive {
                Some(
                    String::from_str(
                        "Updater support is wired in, but this build does not have a release feed configured yet.",
                    ),
                )
            } else {
                None
            };
            CheckPlan { report: Report { notification: n, log: None }, install: false }
        },
        UpdateCheck::Failed { error } => {
            if interactive {
                let n = String::from_str("Couldn't check for updates: ").concat(error.as_str());
                CheckPlan { report: Report { notification: Some(n), log: None }, install: false }
            } else {
                let l = String::from_str("background update check failed: ").concat(error.as_str());
                CheckPlan { report: Report { notification: None, log: Some(l) }, install: false }
            }
        },
    }
}

/// The notification after the download and install of `version`.
pub fn install_outcome(version: &str, result: &Result<(), String>) -> (n: String)
    ensures
        n@ == spec_install_outcome(
            version@,
            match result {
                Ok(()) => Ok(()),
                Err(e) => Err(e@),
            },
        ),
{
    match result {
        Ok(()) => String::from_str("Deni AI ").concat(version).concat(" is ready to install."),
        Err(error) => String::from_str("The update download failed: ").concat(error.as_str()),
    }
}

} // verus!
