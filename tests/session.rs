use mock_adb::session::{audit_line, command_start, config_path, invocation_string};
use mock_adb::{respond, ResponseEntry, ResponseTable};

fn args(words: &[&str]) -> Vec<String> {
    words.iter().map(|w| w.to_string()).collect()
}

fn entry(stdout: Option<&str>, stderr: Option<&str>, exit_code: Option<i32>, pattern: Option<&str>) -> ResponseEntry {
    ResponseEntry {
        stdout: stdout.map(|s| s.to_string()),
        stderr: stderr.map(|s| s.to_string()),
        exit_code,
        delay_ms: None,
        match_pattern: pattern.map(|s| s.to_string()),
    }
}

fn table(items: Vec<(&str, ResponseEntry)>) -> ResponseTable {
    let items: Vec<(String, ResponseEntry)> = items.into_iter().map(|(n, e)| (n.to_string(), e)).collect();
    match ResponseTable::new(items) {
        Ok(t) => t,
        Err(e) => panic!("table rejected at {}", e.name()),
    }
}

#[test]
fn scenario_listing_devices() {
    let t = table(vec![("devices", entry(Some("list of devices"), None, None, None))]);
    let rec = respond(&t, args(&["adb", "devices"]));
    assert_eq!(rec.invocation, "devices");
    assert_eq!(rec.response.stdout.as_deref(), Some("list of devices"));
    assert_eq!(rec.response.stderr, None);
    assert_eq!(rec.response.exit_code, None);
}

#[test]
fn scenario_configured_failure() {
    let t = table(vec![("fail", entry(None, Some("boom"), Some(1), None))]);
    let rec = respond(&t, args(&["adb", "fail"]));
    assert_eq!(rec.response.stderr.as_deref(), Some("boom"));
    assert_eq!(rec.response.exit_code, Some(1));
}

#[test]
fn scenario_pattern_match() {
    let t = table(vec![("shellRe", entry(Some("ok"), None, None, Some("^shell ")))]);
    let rec = respond(&t, args(&["adb", "shell", "ls", "/"]));
    assert_eq!(rec.invocation, "shell ls /");
    assert_eq!(rec.response.stdout.as_deref(), Some("ok"));
    assert_eq!(rec.response.exit_code, None);
}

#[test]
fn scenario_empty_config() {
    let t = table(vec![]);
    let rec = respond(&t, args(&["adb", "anything"]));
    assert_eq!(rec.response.stderr.as_deref(), Some("unrecognized command: anything"));
    assert_eq!(rec.response.exit_code, Some(1));
}

#[test]
fn scenario_empty_config_whole_command() {
    let t = table(vec![]);
    let r = t.resolve("adb anything");
    assert_eq!(r.stderr.as_deref(), Some("unrecognized command: adb anything"));
    assert_eq!(r.exit_code, Some(1));
}

#[test]
fn scenario_port_flag_is_skipped() {
    let t = table(vec![("devices", entry(Some("list of devices"), None, None, None))]);
    let raw = args(&["adb", "-P", "5037", "devices"]);
    let rec = respond(&t, raw.clone());
    assert_eq!(rec.invocation, "devices");
    assert_eq!(rec.args, raw);
    assert_eq!(rec.response.stdout.as_deref(), Some("list of devices"));
}

#[test]
fn command_start_counts_leading_arguments() {
    assert_eq!(command_start(&args(&[])), 0);
    assert_eq!(command_start(&args(&["adb"])), 1);
    assert_eq!(command_start(&args(&["adb", "devices"])), 1);
    assert_eq!(command_start(&args(&["adb", "-P"])), 2);
    assert_eq!(command_start(&args(&["adb", "-P", "5037"])), 3);
    assert_eq!(command_start(&args(&["adb", "-P", "5037", "shell", "ls"])), 3);
    assert_eq!(command_start(&args(&["adb", "shell", "-P"])), 1);
}

#[test]
fn invocation_string_joins_with_single_spaces() {
    assert_eq!(invocation_string(&args(&["adb", "shell", "ls", "-la", "/"])), "shell ls -la /");
    assert_eq!(invocation_string(&args(&["adb"])), "");
    assert_eq!(invocation_string(&args(&["adb", "-P", "5037"])), "");
    assert_eq!(invocation_string(&args(&["adb", "", "x"])), " x");
}

#[test]
fn audit_line_has_tag() {
    assert_eq!(audit_line("shell ls /"), "ADB shell ls /");
    assert_eq!(audit_line(""), "ADB ");
}

#[test]
fn config_path_prefers_override() {
    assert_eq!(config_path(Some("/etc/cfg.json".to_string()), "/bin/cfg.json".to_string()), "/etc/cfg.json");
    assert_eq!(config_path(None, "/bin/cfg.json".to_string()), "/bin/cfg.json");
}

#[test]
fn record_keeps_raw_arguments() {
    let t = table(vec![]);
    let raw = args(&["adb", "-P", "1", "x", "y"]);
    let rec = respond(&t, raw.clone());
    assert_eq!(rec.args, raw);
    assert_eq!(rec.invocation, "x y");
    assert_eq!(rec.response.stderr.as_deref(), Some("unrecognized command: x y"));
}
