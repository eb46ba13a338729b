use agent_browser::connect::{
    browser_dirs, connect_action, host_manifest_file, host_manifest_path_for_chrome,
    native_messaging_dirs, ConnectAction, Platform, EXTENSION_ID, HOST_NAME,
};
use agent_browser::install::{
    agent_browser_dir, host_manifest_json, install_manifest_paths, launcher_path, launcher_script,
    HOST_DESCRIPTION,
};
use agent_browser::report::{
    install_failure_message, install_success_output, report, status_output, uninstall_message,
};

fn args(v: &[&str]) -> Vec<String> {
    v.iter().map(|s| s.to_string()).collect()
}

#[test]
fn action_defaults_to_status() {
    assert_eq!(connect_action(&args(&["connect"])), ConnectAction::Status);
    assert_eq!(connect_action(&args(&[])), ConnectAction::Status);
    assert_eq!(connect_action(&args(&["connect", "--json"])), ConnectAction::Status);
}

#[test]
fn action_install_flags() {
    assert_eq!(connect_action(&args(&["connect", "--install"])), ConnectAction::Install);
    assert_eq!(connect_action(&args(&["connect", "install"])), ConnectAction::Install);
    assert_eq!(connect_action(&args(&["connect", "--installx"])), ConnectAction::Status);
}

#[test]
fn action_uninstall_wins_over_install() {
    assert_eq!(connect_action(&args(&["connect", "uninstall"])), ConnectAction::Uninstall);
    assert_eq!(
        connect_action(&args(&["connect", "--install", "--uninstall"])),
        ConnectAction::Uninstall
    );
    assert_eq!(
        connect_action(&args(&["connect", "uninstall", "install"])),
        ConnectAction::Uninstall
    );
}

#[test]
fn dirs_on_linux() {
    let d = native_messaging_dirs(Some("/home/u/.config"), Platform::OtherUnix);
    assert_eq!(
        d,
        vec![
            "/home/u/.config/google-chrome/NativeMessagingHosts",
            "/home/u/.config/chromium/NativeMessagingHosts",
            "/home/u/.config/microsoft-edge/NativeMessagingHosts",
            "/home/u/.config/BraveSoftware/Brave-Browser/NativeMessagingHosts",
        ]
    );
    let b = browser_dirs(Some("/home/u/.config/"), Platform::OtherUnix);
    assert_eq!(b[0], "/home/u/.config/google-chrome");
}

#[test]
fn dirs_on_macos_and_elsewhere() {
    let d = native_messaging_dirs(Some("/Users/u/Library/Application Support"), Platform::MacOs);
    assert_eq!(d.len(), 6);
    assert_eq!(
        d[2],
        "/Users/u/Library/Application Support/Google/Chrome Canary/NativeMessagingHosts"
    );
    assert_eq!(
        d[5],
        "/Users/u/Library/Application Support/BraveSoftware/Brave-Browser/NativeMessagingHosts"
    );
    assert!(native_messaging_dirs(Some("/x"), Platform::Other).is_empty());
    assert!(native_messaging_dirs(None, Platform::MacOs).is_empty());
}

#[test]
fn manifest_file_and_choice() {
    assert_eq!(
        host_manifest_file("/c/chromium/NativeMessagingHosts"),
        "/c/chromium/NativeMessagingHosts/com.agent_browser.connect.json"
    );
    let c = vec![
        ("/a.json".to_string(), false),
        ("/b.json".to_string(), true),
        ("/c.json".to_string(), true),
    ];
    assert_eq!(host_manifest_path_for_chrome(&c), Some("/b.json".to_string()));
    let none_present = vec![("/a.json".to_string(), false), ("/b.json".to_string(), false)];
    assert_eq!(host_manifest_path_for_chrome(&none_present), Some("/a.json".to_string()));
    assert_eq!(host_manifest_path_for_chrome(&[]), None);
}

#[test]
fn launcher_layout() {
    assert_eq!(agent_browser_dir("/home/u"), "/home/u/.agent-browser");
    assert_eq!(launcher_path("/home/u"), "/home/u/.agent-browser/nm-host.sh");
    assert_eq!(
        launcher_script("/usr/local/bin/agent-browser"),
        "#!/bin/sh\n# agent-browser native-messaging host launcher (auto-generated)\nexec \"/usr/local/bin/agent-browser\" __nm-host \"$@\"\n"
    );
}

#[test]
fn manifest_json_matches_serde_pretty() {
    let path = "/home/u/.agent-browser/nm-host.sh";
    let mut m = serde_json::Map::new();
    m.insert("name".to_string(), serde_json::Value::from(HOST_NAME));
    m.insert("description".to_string(), serde_json::Value::from(HOST_DESCRIPTION));
    m.insert("path".to_string(), serde_json::Value::from(path));
    m.insert("type".to_string(), serde_json::Value::from("stdio"));
    m.insert(
        "allowed_origins".to_string(),
        serde_json::Value::from(vec![format!("chrome-extension://{EXTENSION_ID}/")]),
    );
    let expected = serde_json::to_string_pretty(&serde_json::Value::Object(m)).unwrap();
    assert_eq!(host_manifest_json(path), expected);
    assert!(host_manifest_json("/p\"q").contains("\"path\": \"/p\\\"q\""));
}

#[test]
fn manifest_json_exact() {
    assert_eq!(
        host_manifest_json("/h/nm-host.sh"),
        "{\n  \"allowed_origins\": [\n    \"chrome-extension://bdoiejojpjogcjojeladhioioijhgade/\"\n  ],\n  \"description\": \"agent-browser connect — native messaging host\",\n  \"name\": \"com.agent_browser.connect\",\n  \"path\": \"/h/nm-host.sh\",\n  \"type\": \"stdio\"\n}"
    );
}

#[test]
fn install_paths_only_for_present_browsers() {
    let dirs = vec![
        ("/c/google-chrome/NativeMessagingHosts".to_string(), false),
        ("/c/chromium/NativeMessagingHosts".to_string(), true),
    ];
    assert_eq!(
        install_manifest_paths(&dirs),
        Ok(vec!["/c/chromium/NativeMessagingHosts/com.agent_browser.connect.json".to_string()])
    );
    let none = vec![("/c/chromium/NativeMessagingHosts".to_string(), false)];
    assert_eq!(
        install_manifest_paths(&none),
        Err("no Chrome/Chromium NativeMessagingHosts directory found".to_string())
    );
    assert!(install_manifest_paths(&[]).is_err());
}

#[test]
fn report_text_and_json() {
    let r = report(false, true, "done");
    assert_eq!(r.text, "✓ done\n");
    assert!(!r.to_stderr && !r.failed);
    let r = report(false, false, "bad");
    assert_eq!(r.text, "✗ bad\n");
    assert!(r.to_stderr && r.failed);
    let r = report(true, true, "ok");
    assert_eq!(r.text, "{\"error\":null,\"message\":\"ok\",\"success\":true}\n");
    assert!(!r.to_stderr && !r.failed);
    let r = report(true, false, "a \"b\"\n\u{1}");
    assert_eq!(
        r.text,
        "{\"error\":\"a \\\"b\\\"\\n\\u0001\",\"message\":\"a \\\"b\\\"\\n\\u0001\",\"success\":false}\n"
    );
    assert!(!r.to_stderr && r.failed);
}

#[test]
fn report_json_matches_serde() {
    let msg = "install failed: \\ tab\t";
    let mut m = serde_json::Map::new();
    m.insert("success".to_string(), serde_json::Value::Bool(false));
    m.insert("error".to_string(), serde_json::Value::from(msg));
    m.insert("message".to_string(), serde_json::Value::from(msg));
    let expected = serde_json::to_string(&serde_json::Value::Object(m)).unwrap() + "\n";
    assert_eq!(report(true, false, msg).text, expected);
}

#[test]
fn messages() {
    assert_eq!(uninstall_message(0), "removed 0 native-host manifest(s)");
    assert_eq!(uninstall_message(12), "removed 12 native-host manifest(s)");
    assert_eq!(install_failure_message("no home dir"), "install failed: no home dir");
}

#[test]
fn install_output() {
    let paths = vec!["/a/x.json".to_string(), "/b/x.json".to_string()];
    assert_eq!(
        install_success_output(true, &paths),
        "{\"data\":{\"extensionId\":\"bdoiejojpjogcjojeladhioioijhgade\",\"installed\":[\"/a/x.json\",\"/b/x.json\"]},\"success\":true}\n"
    );
    assert_eq!(
        install_success_output(true, &vec![]),
        "{\"data\":{\"extensionId\":\"bdoiejojpjogcjojeladhioioijhgade\",\"installed\":[]},\"success\":true}\n"
    );
    assert_eq!(
        install_success_output(false, &paths),
        "✓ native-messaging host installed:\n  /a/x.json\n  /b/x.json\n\nNext: load the ab-connect extension in Chrome (chrome://extensions →\nDeveloper mode → Load unpacked → extensions/ab-connect), then this host\nis reachable with no token and no per-use confirmation.\n"
    );
}

#[test]
fn status_output_forms() {
    assert_eq!(
        status_output(true, Some("/m.json"), true),
        "{\"data\":{\"extensionId\":\"bdoiejojpjogcjojeladhioioijhgade\",\"installed\":true,\"manifest\":\"/m.json\"},\"success\":true}\n"
    );
    assert_eq!(
        status_output(true, None, false),
        "{\"data\":{\"extensionId\":\"bdoiejojpjogcjojeladhioioijhgade\",\"installed\":false,\"manifest\":null},\"success\":true}\n"
    );
    assert_eq!(
        status_output(false, Some("/m.json"), true),
        "✓ native-messaging host installed (com.agent_browser.connect).\n  Load the ab-connect extension and it connects automatically.\n"
    );
    assert_eq!(
        status_output(false, None, false),
        "✗ not installed. Run: agent-browser connect --install\n"
    );
}

#[test]
fn status_after_install_shows_first_installed() {
    let dirs = vec![
        ("/c/google-chrome/NativeMessagingHosts".to_string(), false),
        ("/c/chromium/NativeMessagingHosts".to_string(), true),
        ("/c/microsoft-edge/NativeMessagingHosts".to_string(), true),
    ];
    let paths = install_manifest_paths(&dirs).unwrap();
    let candidates: Vec<(String, bool)> =
        dirs.iter().map(|(d, present)| (host_manifest_file(d), *present)).collect();
    assert_eq!(host_manifest_path_for_chrome(&candidates), Some(paths[0].clone()));
    assert_eq!(paths[0], "/c/chromium/NativeMessagingHosts/com.agent_browser.connect.json");
}
