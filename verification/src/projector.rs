//! Appearance projector.
//!
//! Projects the decoded appearance onto the two per-user Personalize values,
//! `AppsUseLightTheme` and `SystemUsesLightTheme`. The projector itself only
//! decides: it returns, for each value, either the 32-bit integer to write or
//! nothing. The caller performs the registry writes and must write exactly
//! the fields that are present — never the absent ones.

use vstd::prelude::*;

use crate::config::Scope;

verus! {

/// Per-user registry path of the Personalize key that holds the two
/// appearance values.
pub const PERSONALIZE_KEY_PATH: &'static str =
    "SOFTWARE\\Microsoft\\Windows\\CurrentVersion\\Themes\\Personalize";

/// Name of the value that drives the default app appearance.
pub const APPS_VALUE_NAME: &'static str = "AppsUseLightTheme";

/// Name of the value that drives the default Windows appearance.
pub const SYSTEM_VALUE_NAME: &'static str = "SystemUsesLightTheme";

/// The integer written to a Personalize value: the values store "use light
/// theme", so dark writes 0 and light writes 1.
pub open spec fn light_theme_value(dark: bool) -> u32 {
    if dark {
        0u32
    } else {
        1u32
    }
}

/// Whether a scope permits writing `AppsUseLightTheme`.
pub open spec fn writes_apps(scope: Scope) -> bool {
    scope != Scope::SystemOnly
}

/// Whether a scope permits writing `SystemUsesLightTheme`.
pub open spec fn writes_system(scope: Scope) -> bool {
    scope != Scope::AppOnly
}

/// The writes one reconciliation performs: for each Personalize value,
/// `Some(v)` means write `v`, `None` means leave the value untouched.
#[derive(Debug, Clone, Copy, PartialEq, Eq, Structural)]
pub struct ThemeWrites {
    /// Value for `AppsUseLightTheme`, if it is to be written.
    pub apps_use_light_theme: Option<u32>,
    /// Value for `SystemUsesLightTheme`, if it is to be written.
    pub system_uses_light_theme: Option<u32>,
}

/// The writes mandated for a decoded appearance and a scope.
pub open spec fn project_spec(dark: bool, scope: Scope) -> ThemeWrites {
    ThemeWrites {
        apps_use_light_theme: if writes_apps(scope) {
            Some(light_theme_value(dark))
        } else {
            None
        },
        system_uses_light_theme: if writes_system(scope) {
            Some(light_theme_value(dark))
        } else {
            None
        },
    }
}

/// Project the decoded appearance: exactly the values the scope permits are
/// written, and both carry the same integer, 0 for dark and 1 for light.
pub fn project(dark: bool, scope: Scope) -> (w: ThemeWrites)
    ensures
        w == project_spec(dark, scope),
{
    let value: u32 = if dark {
        0
    } else {
        1
    };
    match scope {
        Scope::Both => ThemeWrites {
            apps_use_light_theme: Some(value),
            system_uses_light_theme: Some(value),
        },
        Scope::AppOnly => ThemeWrites {
            apps_use_light_theme: Some(value),
            system_uses_light_theme: None,
        },
        Scope::SystemOnly => ThemeWrites {
            apps_use_light_theme: None,
            system_uses_light_theme: Some(value),
        },
    }
}

/// The projector writes exactly the values its scope mandates, no others,
/// and the written integer is 0 exactly when the appearance is dark.
pub proof fn lemma_project_exact(dark: bool, scope: Scope)
    ensures
        project_spec(dark, scope).apps_use_light_theme is Some <==> scope != Scope::SystemOnly,
        project_spec(dark, scope).system_uses_light_theme is Some <==> scope != Scope::AppOnly,
        forall|v: u32|
            project_spec(dark, scope).apps_use_light_theme == Some(v) ==> (v == 0 <==> dark),
        forall|v: u32|
            project_spec(dark, scope).system_uses_light_theme == Some(v) ==> (v == 0 <==> dark),
{
}

} // verus!
