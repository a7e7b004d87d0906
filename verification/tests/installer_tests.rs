use auto_dark_mode::config::{Action, Args, ConfigError, Scope};
use auto_dark_mode::installer::{InstallError, UninstallPlan};
use auto_dark_mode::paths::{join_path, parent_dir};
use auto_dark_mode::strutil::{find_char, str_eq};
use auto_dark_mode::{install, uninstall};

fn args(install: bool, install_dir: Option<&str>, uninstall: bool, app: bool, system: bool) -> Args {
    Args {
        install,
        install_dir: install_dir.map(|d| d.to_string()),
        uninstall,
        app_only: app,
        system_only: system,
    }
}

#[test]
fn conflicting_scope_is_rejected() {
    let a = args(false, None, false, true, true);
    assert_eq!(a.scope(), Err(ConfigError::ConflictingScope));
}

#[test]
fn scope_follows_flags() {
    assert_eq!(args(false, None, false, false, false).scope(), Ok(Scope::Both));
    assert_eq!(args(false, None, false, true, false).scope(), Ok(Scope::AppOnly));
    assert_eq!(args(false, None, false, false, true).scope(), Ok(Scope::SystemOnly));
}

#[test]
fn action_precedence_is_install_uninstall_run() {
    assert_eq!(args(true, None, true, false, false).action(), Action::Install);
    assert_eq!(args(false, None, true, false, false).action(), Action::Uninstall);
    assert_eq!(args(false, None, false, false, false).action(), Action::Run);
}

#[test]
fn install_into_given_directory() {
    let a = args(true, Some("D:\\tools"), false, false, false);
    let plan = install(
        &a.install_dir.clone(),
        &a,
        &None,
        &Some("C:\\downloads\\auto_dark_mode.exe".to_string()),
        &Some("C:\\Users\\u\\AppData\\Roaming".to_string()),
    )
    .unwrap();
    assert_eq!(plan.stop_and_remove, None);
    assert_eq!(plan.target_dir.as_str(), "D:\\tools");
    assert_eq!(plan.target_path.as_str(), "D:\\tools\\auto_dark_mode.exe");
    assert!(plan.copy_needed);
    assert_eq!(plan.run_value.as_str(), "\"D:\\tools\\auto_dark_mode.exe\"");
    assert_eq!(plan.launch_command.as_str(), "D:\\tools\\auto_dark_mode.exe");
}

#[test]
fn install_defaults_to_appdata_directory() {
    let a = args(true, None, false, true, false);
    let plan = install(
        &None,
        &a,
        &None,
        &Some("C:\\downloads\\auto_dark_mode.exe".to_string()),
        &Some("C:\\Users\\u\\AppData\\Roaming".to_string()),
    )
    .unwrap();
    assert_eq!(plan.target_dir.as_str(), "C:\\Users\\u\\AppData\\Roaming\\auto_dark_mode");
    assert_eq!(
        plan.target_path.as_str(),
        "C:\\Users\\u\\AppData\\Roaming\\auto_dark_mode\\auto_dark_mode.exe"
    );
    assert_eq!(
        plan.run_value.as_str(),
        "\"C:\\Users\\u\\AppData\\Roaming\\auto_dark_mode\\auto_dark_mode.exe\" --app-only"
    );
    assert_eq!(
        plan.launch_command.as_str(),
        "C:\\Users\\u\\AppData\\Roaming\\auto_dark_mode\\auto_dark_mode.exe --app-only"
    );
}

#[test]
fn install_without_appdata_or_directory_fails() {
    let a = args(true, None, false, false, false);
    let r = install(&None, &a, &None, &Some("C:\\x.exe".to_string()), &None);
    assert_eq!(r.unwrap_err(), InstallError::MissingAppData);
}

#[test]
fn install_without_current_exe_fails() {
    let a = args(true, Some("D:\\tools"), false, false, false);
    let r = install(&a.install_dir.clone(), &a, &None, &None, &None);
    assert_eq!(r.unwrap_err(), InstallError::MissingCurrentExe);
}

#[test]
fn install_replaces_prior_installation_elsewhere() {
    let a = args(true, Some("D:\\new"), false, false, false);
    let plan = install(
        &a.install_dir.clone(),
        &a,
        &Some("\"C:\\old\\auto_dark_mode.exe\" --system-only".to_string()),
        &Some("C:\\downloads\\auto_dark_mode.exe".to_string()),
        &None,
    )
    .unwrap();
    assert_eq!(plan.stop_and_remove.as_deref(), Some("C:\\old\\auto_dark_mode.exe"));
    assert_eq!(plan.target_path.as_str(), "D:\\new\\auto_dark_mode.exe");
    assert_eq!(plan.run_value.as_str(), "\"D:\\new\\auto_dark_mode.exe\"");
}

#[test]
fn install_skips_itself() {
    let a = args(true, Some("D:\\tools"), false, false, false);
    let exe = "D:\\tools\\auto_dark_mode.exe".to_string();
    let plan = install(
        &a.install_dir.clone(),
        &a,
        &Some("\"D:\\tools\\auto_dark_mode.exe\"".to_string()),
        &Some(exe),
        &None,
    )
    .unwrap();
    assert_eq!(plan.stop_and_remove, None);
    assert!(!plan.copy_needed);
    assert_eq!(plan.run_value.as_str(), "\"D:\\tools\\auto_dark_mode.exe\"");
}

#[test]
fn install_ignores_unparseable_prior_record() {
    let a = args(true, Some("D:\\tools"), false, false, false);
    let plan = install(
        &a.install_dir.clone(),
        &a,
        &Some("\"C:\\broken".to_string()),
        &Some("C:\\downloads\\auto_dark_mode.exe".to_string()),
        &None,
    )
    .unwrap();
    assert_eq!(plan.stop_and_remove, None);
}

#[test]
fn second_install_from_same_source_is_identical() {
    let a = args(true, Some("D:\\tools"), false, false, true);
    let exe = Some("C:\\downloads\\auto_dark_mode.exe".to_string());
    let first = install(&a.install_dir.clone(), &a, &None, &exe, &None).unwrap();
    let second = install(
        &a.install_dir.clone(),
        &a,
        &Some(first.run_value.clone()),
        &exe,
        &None,
    )
    .unwrap();
    assert_eq!(second.run_value, first.run_value);
    assert_eq!(second.target_path, first.target_path);
    assert_eq!(second.target_dir, first.target_dir);
    assert_eq!(second.launch_command, first.launch_command);
}

#[test]
fn uninstall_without_record_reports_not_installed() {
    assert!(matches!(uninstall(&None), UninstallPlan::NotInstalled));
}

#[test]
fn uninstall_removes_recorded_path() {
    let plan = uninstall(&Some("\"C:\\tools\\auto_dark_mode.exe\" --app-only".to_string()));
    match plan {
        UninstallPlan::Remove { path } => {
            assert_eq!(path.as_str(), "C:\\tools\\auto_dark_mode.exe");
            assert_eq!(parent_dir(path.as_str()), Some("C:\\tools"));
        },
        UninstallPlan::NotInstalled => panic!("expected a removal"),
    }
}

#[test]
fn uninstall_with_unparseable_record_reports_not_installed() {
    assert!(matches!(
        uninstall(&Some("\"C:\\broken".to_string())),
        UninstallPlan::NotInstalled
    ));
}

#[test]
fn join_and_parent_are_inverse() {
    let joined = join_path("C:\\a\\b", "c.exe");
    assert_eq!(joined.as_str(), "C:\\a\\b\\c.exe");
    assert_eq!(parent_dir(joined.as_str()), Some("C:\\a\\b"));
    assert_eq!(parent_dir("plain"), None);
}

#[test]
fn string_helpers_behave() {
    assert!(str_eq("abc", "abc"));
    assert!(!str_eq("abc", "abd"));
    assert!(!str_eq("abc", "ab"));
    assert_eq!(find_char("a\"b", '"', 0), Some(1));
    assert_eq!(find_char("a\"b", '"', 2), None);
}
