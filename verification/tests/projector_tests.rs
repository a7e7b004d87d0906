use auto_dark_mode::config::{Args, Scope};
use auto_dark_mode::projector::project;
use auto_dark_mode::update_theme;

fn args_with_scope(app_only: bool, system_only: bool) -> Args {
    Args { install: false, install_dir: None, uninstall: false, app_only, system_only }
}

fn dark_blob() -> Vec<u8> {
    let mut b = vec![0u8; 30];
    b[23] = 0x10;
    b[24] = 0x00;
    b
}

fn light_blob() -> Vec<u8> {
    let mut b = vec![0u8; 30];
    b[23] = 0x10;
    b[24] = 0x01;
    b
}

#[test]
fn both_dark_writes_zero_to_both() {
    let w = project(true, Scope::Both);
    assert_eq!(w.apps_use_light_theme, Some(0));
    assert_eq!(w.system_uses_light_theme, Some(0));
}

#[test]
fn both_light_writes_one_to_both() {
    let w = project(false, Scope::Both);
    assert_eq!(w.apps_use_light_theme, Some(1));
    assert_eq!(w.system_uses_light_theme, Some(1));
}

#[test]
fn app_only_leaves_system_untouched() {
    let w = project(true, Scope::AppOnly);
    assert_eq!(w.apps_use_light_theme, Some(0));
    assert_eq!(w.system_uses_light_theme, None);
    let w = project(false, Scope::AppOnly);
    assert_eq!(w.apps_use_light_theme, Some(1));
    assert_eq!(w.system_uses_light_theme, None);
}

#[test]
fn system_only_leaves_apps_untouched() {
    let w = project(true, Scope::SystemOnly);
    assert_eq!(w.apps_use_light_theme, None);
    assert_eq!(w.system_uses_light_theme, Some(0));
    let w = project(false, Scope::SystemOnly);
    assert_eq!(w.apps_use_light_theme, None);
    assert_eq!(w.system_uses_light_theme, Some(1));
}

#[test]
fn dark_blob_turns_both_values_dark() {
    let args = args_with_scope(false, false);
    let w = update_theme(&Some(dark_blob()), &args);
    assert_eq!(w.apps_use_light_theme, Some(0));
    assert_eq!(w.system_uses_light_theme, Some(0));
}

#[test]
fn light_blob_turns_both_values_light() {
    let args = args_with_scope(false, false);
    let w = update_theme(&Some(light_blob()), &args);
    assert_eq!(w.apps_use_light_theme, Some(1));
    assert_eq!(w.system_uses_light_theme, Some(1));
}

#[test]
fn truncated_blob_turns_both_values_light() {
    let args = args_with_scope(false, false);
    let w = update_theme(&Some(vec![0u8; 20]), &args);
    assert_eq!(w.apps_use_light_theme, Some(1));
    assert_eq!(w.system_uses_light_theme, Some(1));
}

#[test]
fn missing_blob_turns_both_values_light() {
    let args = args_with_scope(false, false);
    let w = update_theme(&None, &args);
    assert_eq!(w.apps_use_light_theme, Some(1));
    assert_eq!(w.system_uses_light_theme, Some(1));
}

#[test]
fn app_only_transition_dark_to_light() {
    let args = args_with_scope(true, false);
    let before = update_theme(&Some(dark_blob()), &args);
    assert_eq!(before.apps_use_light_theme, Some(0));
    assert_eq!(before.system_uses_light_theme, None);
    let after = update_theme(&Some(light_blob()), &args);
    assert_eq!(after.apps_use_light_theme, Some(1));
    assert_eq!(after.system_uses_light_theme, None);
}
