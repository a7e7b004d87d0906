use auto_dark_mode::config::Scope;
use auto_dark_mode::run_strip_args;
use auto_dark_mode::run_value::{compose_launch_command, compose_run_value};

#[test]
fn strips_quotes_and_flags() {
    let v = "\"C:\\Users\\u\\AppData\\Roaming\\auto_dark_mode\\auto_dark_mode.exe\" --app-only";
    assert_eq!(
        run_strip_args(v),
        Some("C:\\Users\\u\\AppData\\Roaming\\auto_dark_mode\\auto_dark_mode.exe")
    );
}

#[test]
fn unquoted_value_is_returned_whole() {
    assert_eq!(run_strip_args("C:\\x\\y.exe"), Some("C:\\x\\y.exe"));
}

#[test]
fn empty_value_is_returned_whole() {
    assert_eq!(run_strip_args(""), Some(""));
}

#[test]
fn mismatched_quote_fails_to_parse() {
    assert_eq!(run_strip_args("\"C:\\x\\y.exe --app-only"), None);
}

#[test]
fn stops_at_first_closing_quote() {
    assert_eq!(run_strip_args("\"a\"b\"c"), Some("a"));
}

#[test]
fn composes_plain_run_value() {
    let v = compose_run_value("D:\\tools\\auto_dark_mode.exe", Scope::Both);
    assert_eq!(v.as_str(), "\"D:\\tools\\auto_dark_mode.exe\"");
}

#[test]
fn composes_app_only_run_value() {
    let v = compose_run_value("D:\\tools\\auto_dark_mode.exe", Scope::AppOnly);
    assert_eq!(v.as_str(), "\"D:\\tools\\auto_dark_mode.exe\" --app-only");
}

#[test]
fn composes_system_only_run_value() {
    let v = compose_run_value("D:\\tools\\auto_dark_mode.exe", Scope::SystemOnly);
    assert_eq!(v.as_str(), "\"D:\\tools\\auto_dark_mode.exe\" --system-only");
}

#[test]
fn composed_value_round_trips() {
    let target = "C:\\Users\\u\\AppData\\Roaming\\auto_dark_mode\\auto_dark_mode.exe";
    for scope in [Scope::Both, Scope::AppOnly, Scope::SystemOnly] {
        let v = compose_run_value(target, scope);
        assert_eq!(run_strip_args(v.as_str()), Some(target));
    }
}

#[test]
fn composes_launch_command() {
    let t = "D:\\tools\\auto_dark_mode.exe";
    assert_eq!(compose_launch_command(t, Scope::Both).as_str(), t);
    assert_eq!(
        compose_launch_command(t, Scope::SystemOnly).as_str(),
        "D:\\tools\\auto_dark_mode.exe --system-only"
    );
}
