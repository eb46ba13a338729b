use agent_browser::upgrade::{
    install_command, upgrade_banner, upgrade_outcome, upgrade_plan, UpgradePlan,
};

#[test]
fn banner_and_command() {
    assert_eq!(
        upgrade_banner("0.9.1"),
        "Upgrading agent-browser-stealth (currently v0.9.1) from the latest GitHub Release..."
    );
    assert_eq!(
        install_command(),
        "curl -fsSL https://raw.githubusercontent.com/leeguooooo/agent-browser-stealth/main/install.sh | sh"
    );
}

#[test]
fn plan_runs_installer_in_place() {
    match upgrade_plan(false, Some("/opt/bin")) {
        UpgradePlan::Run { announce, command } => {
            assert_eq!(announce, format!("Running: {}", install_command()));
            assert_eq!(command.program, "sh");
            assert_eq!(command.args, vec!["-c".to_string(), install_command()]);
            assert_eq!(
                command.env,
                Some(("AGENT_BROWSER_BIN_DIR".to_string(), "/opt/bin".to_string()))
            );
        }
        UpgradePlan::Unsupported { .. } => panic!("expected a run"),
    }
    match upgrade_plan(false, None) {
        UpgradePlan::Run { command, .. } => assert_eq!(command.env, None),
        UpgradePlan::Unsupported { .. } => panic!("expected a run"),
    }
}

#[test]
fn plan_on_windows_is_a_notice() {
    match upgrade_plan(true, Some("/x")) {
        UpgradePlan::Unsupported { lines } => {
            assert_eq!(lines.len(), 4);
            assert_eq!(lines[0], "Automatic upgrade isn't supported on Windows.");
            assert_eq!(
                lines[2],
                "    https://github.com/leeguooooo/agent-browser-stealth/releases/latest"
            );
        }
        UpgradePlan::Run { .. } => panic!("expected a notice"),
    }
}

#[test]
fn outcome_lines() {
    let ok = upgrade_outcome(true);
    assert_eq!(
        ok.lines,
        vec!["Upgrade complete — run `agent-browser-stealth --version` to confirm.".to_string()]
    );
    assert!(!ok.to_stderr && !ok.failed);
    let bad = upgrade_outcome(false);
    assert_eq!(bad.lines[0], "Upgrade failed. Install manually:");
    assert_eq!(bad.lines[1], format!("  {}", install_command()));
    assert!(bad.to_stderr && bad.failed);
}
