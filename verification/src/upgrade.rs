//! `agent-browser upgrade`: re-running the release installer in place.

use vstd::prelude::*;
use crate::json::string_views;

verus! {

/// The installer of the latest GitHub Release.
pub const INSTALL_URL: &'static str = "https://raw.githubusercontent.com/leeguooooo/agent-browser-stealth/main/install.sh";

/// The environment variable that tells the installer where to install.
pub const BIN_DIR_VAR: &'static str = "AGENT_BROWSER_BIN_DIR";

/// The banner printed first, for the running version `version`.
pub open spec fn spec_upgrade_banner(version: Seq<char>) -> Seq<char> {
    "Upgrading agent-browser-stealth (currently v"@ + version
        + ") from the latest GitHub Release..."@
}

/// The banner for the running version `version`.
pub fn upgrade_banner(version: &str) -> (r: String)
    ensures
        r@ == spec_upgrade_banner(version@),
{
    let mut r = String::from_str("Upgrading agent-browser-stealth (currently v");
    r.append(version);
    r.append(") from the latest GitHub Release...");
    r
}

/// The shell command that fetches and runs the installer.
pub open spec fn spec_install_command() -> Seq<char> {
    "curl -fsSL "@ + INSTALL_URL@ + " | sh"@
}

/// The shell command that fetches and runs the installer.
pub fn install_command() -> (r: String)
    ensures
        r@ == spec_install_command(),
{
    let mut r = String::from_str("curl -fsSL ");
    r.append(INSTALL_URL);
    r.append(" | sh");
    r
}

/// A process to run: program, arguments, and an environment variable to set.
pub struct UpgradeCommand {
    pub program: String,
    pub args: Vec<String>,
    pub env: Option<(String, String)>,
}

/// What `upgrade` does on this platform.
pub enum UpgradePlan {
    /// No automatic upgrade: print these lines to standard error (the first
    /// after a warning mark) and exit with failure.
    Unsupported { lines: Vec<String> },
    /// Print `announce`, then run `command`.
    Run { announce: String, command: UpgradeCommand },
}

/// The lines that explain the manual upgrade on Windows.
pub open spec fn windows_notice() -> Seq<Seq<char>> {
    seq![
        "Automatic upgrade isn't supported on Windows."@,
        "  Download the latest agent-browser-win32-x64.tar.gz from:"@,
        "    https://github.com/leeguooooo/agent-browser-stealth/releases/latest"@,
        "  and replace agent-browser.exe on your PATH."@,
    ]
}

/// The upgrade plan: on Windows only a notice; elsewhere `sh -c` runs the
/// installer, told through the environment to install into `bin_dir`
/// (the running binary's directory) when that is known.
pub fn upgrade_plan(windows: bool, bin_dir: Option<&str>) -> (r: UpgradePlan)
    ensures
        windows ==> (r matches UpgradePlan::Unsupported { lines } && string_views(lines@)
            == windows_notice()),
        !windows ==> (r matches UpgradePlan::Run { announce, command } && announce@ == "Running: "@
            + spec_install_command() && command.program@ == "sh"@ && string_views(command.args@)
            == seq!["-c"@, spec_install_command()] && match bin_dir {
            Some(d) => command.env matches Some(kv) && kv.0@ == BIN_DIR_VAR@ && kv.1@ == d@,
            None => command.env is None,
        }),
{
    if windows {
        let lines = vec![
            String::from_str("Automatic upgrade isn't supported on Windows."),
            String::from_str("  Download the latest agent-browser-win32-x64.tar.gz from:"),
            String::from_str(
                "    https://github.com/leeguooooo/agent-browser-stealth/releases/latest",
            ),
            String::from_str("  and replace agent-browser.exe on your PATH."),
        ];
        assert(string_views(lines@) =~= windows_notice());
        UpgradePlan::Unsupported { lines }
    } else {
        let cmd = install_command();
        let mut announce = String::from_str("Running: ");
        announce.append(cmd.as_str());
        let args = vec![String::from_str("-c"), cmd];
        assert(string_views(args@) =~= seq!["-c"@, spec_install_command()]);
        let env = match bin_dir {
            Some(d) => Some((String::from_str(BIN_DIR_VAR), String::from_str(d))),
            None => None,
        };
        UpgradePlan::Run {
            announce,
            command: UpgradeCommand { program: String::from_str("sh"), args, env },
        }
    }
}

/// What is printed once the installer has run, and where.
pub struct UpgradeOutcome {
    /// The lines; the first follows a success or an error mark.
    pub lines: Vec<String>,
    pub to_stderr: bool,
    pub failed: bool,
}

/// The lines after the installer ran with success `ok`.
pub open spec fn outcome_lines(ok: bool) -> Seq<Seq<char>> {
    if ok {
        seq!["Upgrade complete — run `agent-browser-stealth --version` to confirm."@]
    } else {
        seq!["Upgrade failed. Install manually:"@, "  "@ + spec_install_command()]
    }
}

/// The report of the installer's run: a confirmation on success; on
/// failure the manual command, on standard error, and a failing exit.
pub fn upgrade_outcome(ok: bool) -> (r: UpgradeOutcome)
    ensures
        string_views(r.lines@) == outcome_lines(ok),
        r.to_stderr == !ok,
        r.failed == !ok,
{
    if ok {
        let lines = vec![
            String::from_str(
                "Upgrade complete — run `agent-browser-stealth --version` to confirm.",
            ),
        ];
        assert(string_views(lines@) =~= outcome_lines(ok));
        UpgradeOutcome { lines, to_stderr: false, failed: false }
    } else {
        let mut manual = String::from_str("  ");
        manual.append(install_command().as_str());
        let lines = vec![String::from_str("Upgrade failed. Install manually:"), manual];
        assert(string_views(lines@) =~= outcome_lines(ok));
        UpgradeOutcome { lines, to_stderr: true, failed: true }
    }
}

} // verus!
