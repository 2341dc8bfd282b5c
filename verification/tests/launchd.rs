use termpop::launchd::{
    first_call, generate_plist, launchctl_args, launchctl_domain, next_call, plist_path,
    plist_path_under, resolve_binary_path_from, runs_from_app_bundle, LaunchctlCall,
};

#[test]
fn plist_path_ends_with_expected() {
    let path = plist_path();
    assert!(std::path::Path::new(&path).ends_with("Library/LaunchAgents/com.termpop.daemon.plist"));
}

#[test]
fn generate_plist_contains_label() {
    let plist = generate_plist("/usr/local/bin/termpop");
    assert!(plist.contains("<string>com.termpop.daemon</string>"));
}

#[test]
fn generate_plist_contains_binary_path() {
    let plist = generate_plist("/usr/local/bin/termpop");
    assert!(plist.contains("<string>/usr/local/bin/termpop</string>"));
}

#[test]
fn generate_plist_contains_app_bundle_path() {
    let app_path = "/Applications/TermPop.app/Contents/MacOS/termpop";
    let plist = generate_plist(app_path);
    assert!(plist.contains(&format!("<string>{}</string>", app_path)));
}

#[test]
fn generate_plist_contains_daemon_arg() {
    let plist = generate_plist("/usr/local/bin/termpop");
    assert!(plist.contains("<string>daemon</string>"));
}

#[test]
fn generate_plist_is_valid_xml_structure() {
    let plist = generate_plist("/usr/local/bin/termpop");
    assert!(plist.starts_with("<?xml version="));
    assert!(plist.contains("<plist version=\"1.0\">"));
    assert!(plist.contains("</plist>"));
}

#[test]
fn generate_plist_has_run_at_load() {
    let plist = generate_plist("/usr/local/bin/termpop");
    assert!(plist.contains("<key>RunAtLoad</key>"));
    assert!(plist.contains("<true/>"));
}

#[test]
fn generate_plist_whole_document() {
    let expected = r#"<?xml version="1.0" encoding="UTF-8"?>
<!DOCTYPE plist PUBLIC "-//Apple//DTD PLIST 1.0//EN" "http://www.apple.com/DTDs/PropertyList-1.0.dtd">
<plist version="1.0">
<dict>
    <key>Label</key>
    <string>com.termpop.daemon</string>
    <key>ProgramArguments</key>
    <array>
        <string>/opt/tp</string>
        <string>daemon</string>
    </array>
    <key>RunAtLoad</key>
    <true/>
    <key>KeepAlive</key>
    <false/>
    <key>StandardOutPath</key>
    <string>/tmp/termpop.out.log</string>
    <key>StandardErrorPath</key>
    <string>/tmp/termpop.err.log</string>
</dict>
</plist>
"#;
    assert_eq!(generate_plist("/opt/tp"), expected);
}

#[test]
fn plist_path_under_home() {
    assert_eq!(
        plist_path_under(Some("/Users/me".to_string())),
        "/Users/me/Library/LaunchAgents/com.termpop.daemon.plist"
    );
    assert_eq!(plist_path_under(None), "~/Library/LaunchAgents/com.termpop.daemon.plist");
}

#[test]
fn binary_inside_app_bundle_is_kept() {
    let exe = "/Users/me/Apps/TermPop.app/Contents/MacOS/termpop";
    assert!(runs_from_app_bundle(exe));
    assert_eq!(resolve_binary_path_from(exe, true), exe);
    assert_eq!(resolve_binary_path_from(exe, false), exe);
}

#[test]
fn installed_bundle_is_preferred_over_plain_binary() {
    let exe = "/Users/me/.cargo/bin/termpop";
    assert!(!runs_from_app_bundle(exe));
    assert_eq!(
        resolve_binary_path_from(exe, true),
        "/Applications/TermPop.app/Contents/MacOS/termpop"
    );
    assert_eq!(resolve_binary_path_from(exe, false), exe);
}

#[test]
fn launchctl_domain_is_gui_uid() {
    assert_eq!(launchctl_domain(501), "gui/501");
    assert_eq!(launchctl_domain(0), "gui/0");
    assert_eq!(launchctl_domain(4294967295), "gui/4294967295");
}

#[test]
fn launchctl_arguments() {
    assert_eq!(
        launchctl_args(LaunchctlCall::Bootstrap, "gui/501", "/p.plist"),
        vec!["bootstrap", "gui/501", "/p.plist"]
    );
    assert_eq!(launchctl_args(LaunchctlCall::Load, "gui/501", "/p.plist"), vec!["load", "/p.plist"]);
    assert_eq!(
        launchctl_args(LaunchctlCall::Bootout, "gui/501", "/p.plist"),
        vec!["bootout", "gui/501", "/p.plist"]
    );
    assert_eq!(
        launchctl_args(LaunchctlCall::Unload, "gui/501", "/p.plist"),
        vec!["unload", "/p.plist"]
    );
}

#[test]
fn launchctl_call_sequences() {
    assert_eq!(first_call(true), LaunchctlCall::Bootstrap);
    assert_eq!(next_call(LaunchctlCall::Bootstrap, true), None);
    assert_eq!(next_call(LaunchctlCall::Bootstrap, false), Some(LaunchctlCall::Load));
    assert_eq!(next_call(LaunchctlCall::Load, false), None);
    assert_eq!(first_call(false), LaunchctlCall::Bootout);
    assert_eq!(next_call(LaunchctlCall::Bootout, false), Some(LaunchctlCall::Unload));
    assert_eq!(next_call(LaunchctlCall::Bootout, true), Some(LaunchctlCall::Unload));
    assert_eq!(next_call(LaunchctlCall::Unload, true), None);
}
