use vstd::prelude::*;

verus! {

/// What the external update service reports about an available update.
pub struct UpdateInfo {
    pub version: String,
    pub body: Option<String>,
    pub date: Option<String>,
}

/// The caller-facing summary of an update check.
pub struct AppUpdateCheckResult {
    pub has_update: bool,
    pub current_version: String,
    pub latest_version: Option<String>,
    pub body: Option<String>,
    pub date: Option<String>,
}

/// The caller-facing summary of an update install.
pub struct AppUpdateInstallResult {
    pub installed: bool,
    pub version: Option<String>,
    pub message: String,
}

/// Summarizes what the update service found: the available update's details
/// when there is one, and the bare current version when there is none.
pub fn summarize_update_check(current_version: String, update: Option<UpdateInfo>) -> (r:
    AppUpdateCheckResult)
    ensures
        r.current_version@ == current_version@,
        update matches Some(u) ==> (r.has_update && (r.latest_version matches Some(v) && v@
            == u.version@) && r.body == u.body && r.date == u.date),
        update is None ==> (!r.has_update && r.latest_version is None && r.body is None && r.date
            is None),
{
    match update {
        Some(u) => AppUpdateCheckResult {
            has_update: true,
            current_version,
            latest_version: Some(u.version),
            body: u.body,
            date: u.date,
        },
        None => AppUpdateCheckResult {
            has_update: false,
            current_version,
            latest_version: None,
            body: None,
            date: None,
        },
    }
}

/// The install outcome when the service reports no update available.
pub fn install_outcome_no_update() -> (r: AppUpdateInstallResult)
    ensures
        !r.installed,
        r.version is None,
        r.message@ == "No update is currently available."@,
{
    AppUpdateInstallResult {
        installed: false,
        version: None,
        message: String::from_str("No update is currently available."),
    }
}

/// The install outcome after the service installed `version`.
pub fn install_outcome_installed(version: String) -> (r: AppUpdateInstallResult)
    ensures
        r.installed,
        r.version matches Some(v) && v@ == version@,
        r.message@ == "Update installed. Restart Paseo to finish applying it."@,
{
    AppUpdateInstallResult {
        installed: true,
        version: Some(version),
        message: String::from_str("Update installed. Restart Paseo to finish applying it."),
    }
}

} // verus!
