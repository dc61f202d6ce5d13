use vstd::prelude::*;

use crate::text::{dec_int, i32_dec_string, trim_ws, ws_trimmed};

verus! {

/// What a local-daemon version check reports back to the caller.
pub struct LocalDaemonVersionResult {
    pub version: Option<String>,
    pub error: Option<String>,
}

/// What a local-daemon update run reports back to the caller.
pub struct DaemonUpdateCommandResult {
    pub exit_code: i32,
    pub stdout: String,
    pub stderr: String,
}

/// The shell script the version check hands to the login shell.
pub fn daemon_version_script() -> (r: &'static str)
    ensures
        r@
            == "if command -v paseo >/dev/null 2>&1; then\n  paseo --version\nelse\n  echo \"paseo command not found in PATH\" >&2\n  exit 127\nfi"@,
{
    "if command -v paseo >/dev/null 2>&1; then\n  paseo --version\nelse\n  echo \"paseo command not found in PATH\" >&2\n  exit 127\nfi"
}

/// The shell script the update run hands to the login shell.
pub fn daemon_update_script() -> (r: &'static str)
    ensures
        r@
            == "if command -v paseo >/dev/null 2>&1; then\n  paseo daemon update\nelse\n  echo \"paseo command not found in PATH. Ensure Paseo CLI is installed for this user.\" >&2\n  exit 127\nfi"@,
{
    "if command -v paseo >/dev/null 2>&1; then\n  paseo daemon update\nelse\n  echo \"paseo command not found in PATH. Ensure Paseo CLI is installed for this user.\" >&2\n  exit 127\nfi"
}

/// The exit code reported for a finished process, `1` when the platform
/// reports none.
pub open spec fn code_or_one(exit_code: Option<i32>) -> i32 {
    match exit_code {
        Some(c) => c,
        None => 1,
    }
}

/// Turns a finished version-check process into the caller-facing result: the
/// trimmed standard output on success, and otherwise the trimmed standard
/// error, or a message naming the exit code when the process was silent.
pub fn interpret_daemon_version_output(
    success: bool,
    exit_code: Option<i32>,
    stdout: &str,
    stderr: &str,
) -> (r: LocalDaemonVersionResult)
    ensures
        success && ws_trimmed(stdout@).len() > 0 ==> ((r.version matches Some(v) && v@
            == ws_trimmed(stdout@)) && r.error is None),
        success && ws_trimmed(stdout@).len() == 0 ==> (r.version is None && (r.error matches Some(m)
            && m@ == "paseo --version returned empty output"@)),
        !success && ws_trimmed(stderr@).len() > 0 ==> (r.version is None && (r.error matches Some(m)
            && m@ == ws_trimmed(stderr@))),
        !success && ws_trimmed(stderr@).len() == 0 ==> (r.version is None && (r.error matches Some(
            m,
        ) && m@ == "paseo --version exited with code "@ + dec_int(code_or_one(exit_code) as int))),
{
    if success {
        let version = trim_ws(stdout);
        if version.unicode_len() == 0 {
            LocalDaemonVersionResult {
                version: None,
                error: Some(String::from_str("paseo --version returned empty output")),
            }
        } else {
            LocalDaemonVersionResult { version: Some(String::from_str(version)), error: None }
        }
    } else {
        let detail = trim_ws(stderr);
        if detail.unicode_len() == 0 {
            let code = match exit_code {
                Some(c) => c,
                None => 1,
            };
            let message = String::from_str("paseo --version exited with code ").concat(
                i32_dec_string(code).as_str(),
            );
            LocalDaemonVersionResult { version: None, error: Some(message) }
        } else {
            LocalDaemonVersionResult { version: None, error: Some(String::from_str(detail)) }
        }
    }
}

/// The version check's result when the shell could not be spawned at all.
pub fn daemon_version_spawn_failure(detail: &str) -> (r: LocalDaemonVersionResult)
    ensures
        r.version is None,
        r.error matches Some(m) && m@ == "Failed to run version check: "@ + detail@,
{
    LocalDaemonVersionResult {
        version: None,
        error: Some(String::from_str("Failed to run version check: ").concat(detail)),
    }
}

/// Turns a finished update process into the caller-facing result, passing
/// the captured output through and defaulting a missing exit code to `1`.
pub fn interpret_daemon_update_output(
    exit_code: Option<i32>,
    stdout: String,
    stderr: String,
) -> (r: DaemonUpdateCommandResult)
    ensures
        r.exit_code == code_or_one(exit_code),
        r.stdout@ == stdout@,
        r.stderr@ == stderr@,
{
    let code = match exit_code {
        Some(c) => c,
        None => 1,
    };
    DaemonUpdateCommandResult { exit_code: code, stdout, stderr }
}

/// The update run's result when the shell could not be spawned at all.
pub fn daemon_update_spawn_failure(detail: &str) -> (r: DaemonUpdateCommandResult)
    ensures
        r.exit_code == -1,
        r.stdout@.len() == 0,
        r.stderr@ == "Failed to run daemon update command: "@ + detail@,
{
    DaemonUpdateCommandResult {
        exit_code: -1,
        stdout: String::new(),
        stderr: String::from_str("Failed to run daemon update command: ").concat(detail),
    }
}

/// Picks the login shell: the environment's `SHELL` value, trimmed, when it
/// is non-empty; `/bin/zsh` otherwise.
pub fn choose_login_shell(env_shell: Option<String>) -> (r: String)
    ensures
        env_shell matches Some(v) ==> ((ws_trimmed(v@).len() > 0 ==> r@ == ws_trimmed(v@)) && (
        ws_trimmed(v@).len() == 0 ==> r@ == "/bin/zsh"@)),
        env_shell is None ==> r@ == "/bin/zsh"@,
{
    match &env_shell {
        Some(value) => {
            let trimmed = trim_ws(value.as_str());
            if trimmed.unicode_len() == 0 {
                String::from_str("/bin/zsh")
            } else {
                String::from_str(trimmed)
            }
        },
        None => String::from_str("/bin/zsh"),
    }
}

} // verus!
