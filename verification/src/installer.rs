//! Install and uninstall planning.
//!
//! Installing and uninstalling touch the filesystem, the process table and
//! the logon Run value. Every decision those actions take is made here, from
//! the plain values the surrounding binary reads first: the current Run
//! value, the path of the executing binary, and the application-data
//! directory. The result is a plan; the surrounding binary carries it out in
//! order and owns the input/output errors that may arise along the way.

use vstd::prelude::*;

use crate::config::{Args, Scope};
use crate::paths::{join_path, join_path_spec};
use crate::run_value::{
    compose_launch_command, compose_run_value, compose_run_value_spec, launch_command_spec,
    run_strip_args, strip_run_value,
};
use crate::strutil::{opt_string_view, str_eq};

verus! {

/// Name of the agent's executable file.
pub const EXE_NAME: &'static str = "auto_dark_mode.exe";

/// Name of the default install directory under the application-data
/// directory.
pub const INSTALL_DIR_NAME: &'static str = "auto_dark_mode";

/// Per-user registry path of the logon Run key.
pub const RUN_KEY_PATH: &'static str = "SOFTWARE\\Microsoft\\Windows\\CurrentVersion\\Run";

/// Name of the agent's value under the Run key.
pub const RUN_VALUE_NAME: &'static str = "AutoDarkModeRs";

/// A fatal error planning an install; nothing has been done when one is
/// reported.
#[derive(Debug, Clone, Copy, PartialEq, Eq, Structural)]
pub enum InstallError {
    /// No install directory was given and the application-data directory is
    /// not defined.
    MissingAppData,
    /// The path of the executing binary cannot be determined.
    MissingCurrentExe,
}

/// An install plan. The surrounding binary carries it out in order: stop and
/// remove the prior installation, create the target directory, copy the
/// executing binary to the target path, write the Run value, launch the
/// target.
#[derive(Debug, Clone)]
pub struct InstallPlan {
    /// Path of a prior installed binary to terminate and remove, with its
    /// parent directory, before anything else. `None` when there is no prior
    /// installation, it cannot be identified, or it is the executing binary
    /// itself.
    pub stop_and_remove: Option<String>,
    /// Directory to create if missing.
    pub target_dir: String,
    /// Path the executing binary is installed at.
    pub target_path: String,
    /// Whether the executing binary must be copied to the target path; false
    /// exactly when it already is the target.
    pub copy_needed: bool,
    /// Value to write under the Run key.
    pub run_value: String,
    /// Command line to launch the installed binary with.
    pub launch_command: String,
}

/// The mathematical content of an install plan.
pub struct PlanModel {
    /// Prior binary to stop and remove, if any.
    pub stop_and_remove: Option<Seq<char>>,
    /// Directory to create.
    pub target_dir: Seq<char>,
    /// Installed path.
    pub target_path: Seq<char>,
    /// Whether the binary is copied.
    pub copy_needed: bool,
    /// Run value written.
    pub run_value: Seq<char>,
    /// Launch command line.
    pub launch_command: Seq<char>,
}

impl View for InstallPlan {
    type V = PlanModel;

    open spec fn view(&self) -> PlanModel {
        PlanModel {
            stop_and_remove: opt_string_view(self.stop_and_remove),
            target_dir: self.target_dir@,
            target_path: self.target_path@,
            copy_needed: self.copy_needed,
            run_value: self.run_value@,
            launch_command: self.launch_command@,
        }
    }
}

/// The directory the agent installs into: the one from the configuration if
/// present, else the default directory under the application-data directory.
pub open spec fn install_base_dir(
    directory: Option<Seq<char>>,
    appdata: Option<Seq<char>>,
) -> Option<Seq<char>> {
    match directory {
        Some(d) => Some(d),
        None => match appdata {
            Some(a) => Some(join_path_spec(a, INSTALL_DIR_NAME@)),
            None => None,
        },
    }
}

/// The prior binary an install stops and removes: the path parsed out of the
/// prior Run value, unless there is none, it does not parse, or it is the
/// executing binary itself.
pub open spec fn stop_target(prior: Option<Seq<char>>, exe: Seq<char>) -> Option<Seq<char>> {
    match prior {
        Some(v) => match strip_run_value(v) {
            Some(p) => if p != exe {
                Some(p)
            } else {
                None
            },
            None => None,
        },
        None => None,
    }
}

/// The plan an install produces, or the error that stops it: no executing
/// binary path stops it first, then a missing install directory.
pub open spec fn install_model(
    prior: Option<Seq<char>>,
    exe: Option<Seq<char>>,
    directory: Option<Seq<char>>,
    appdata: Option<Seq<char>>,
    scope: Scope,
) -> Result<PlanModel, InstallError> {
    match exe {
        None => Err(InstallError::MissingCurrentExe),
        Some(e) => match install_base_dir(directory, appdata) {
            None => Err(InstallError::MissingAppData),
            Some(base) => {
                let target = join_path_spec(base, EXE_NAME@);
                Ok(PlanModel {
                    stop_and_remove: stop_target(prior, e),
                    target_dir: base,
                    target_path: target,
                    copy_needed: target != e,
                    run_value: compose_run_value_spec(target, scope),
                    launch_command: launch_command_spec(target, scope),
                })
            },
        },
    }
}

/// Plan an install. `directory` is the optional install directory from the
/// configuration; `prior_run_value`, `current_exe` and `appdata` are the
/// values read beforehand: the agent's Run value if present, the path of the
/// executing binary if it can be determined, and the application-data
/// directory if defined.
pub fn install(
    directory: &Option<String>,
    args: &Args,
    prior_run_value: &Option<String>,
    current_exe: &Option<String>,
    appdata: &Option<String>,
) -> (r: Result<InstallPlan, InstallError>)
    requires
        args.wf(),
    ensures
        ({
            let m = install_model(
                opt_string_view(*prior_run_value),
                opt_string_view(*current_exe),
                opt_string_view(*directory),
                opt_string_view(*appdata),
                args.scope_spec(),
            );
            match (r, m) {
                (Ok(p), Ok(pm)) => p@ == pm,
                (Err(e), Err(em)) => e == em,
                _ => false,
            }
        }),
{
    let exe: &String = match current_exe {
        Some(e) => e,
        None => {
            return Err(InstallError::MissingCurrentExe);
        },
    };
    let base: String = match directory {
        Some(d) => d.clone(),
        None => match appdata {
            Some(a) => join_path(a.as_str(), INSTALL_DIR_NAME),
            None => {
                return Err(InstallError::MissingAppData);
            },
        },
    };
    let target = join_path(base.as_str(), EXE_NAME);

    let stop_and_remove: Option<String> = match prior_run_value {
        Some(v) => match run_strip_args(v.as_str()) {
            Some(p) => if !str_eq(p, exe.as_str()) {
                Some(p.to_owned())
            } else {
                None
            },
            None => None,
        },
        None => None,
    };

    let scope = args.selected_scope();
    let copy_needed = !str_eq(target.as_str(), exe.as_str());
    let run_value = compose_run_value(target.as_str(), scope);
    let launch_command = compose_launch_command(target.as_str(), scope);

    Ok(InstallPlan { stop_and_remove, target_dir: base, target_path: target, copy_needed, run_value, launch_command })
}

/// An uninstall plan.
#[derive(Debug, Clone)]
pub enum UninstallPlan {
    /// There is no identifiable installation: the Run value is absent or
    /// does not parse. Nothing is done, and the caller reports it
    /// non-fatally.
    NotInstalled,
    /// Terminate any running copy of the binary at `path`, remove the file
    /// and its parent directory, then delete the Run value.
    Remove {
        /// Path of the installed binary.
        path: String,
    },
}

/// The path an uninstall removes, parsed out of the Run value; `None` means
/// there is nothing to uninstall.
pub open spec fn uninstall_model(prior: Option<Seq<char>>) -> Option<Seq<char>> {
    match prior {
        Some(v) => strip_run_value(v),
        None => None,
    }
}

/// Plan an uninstall from the agent's current Run value, if present.
pub fn uninstall(prior_run_value: &Option<String>) -> (r: UninstallPlan)
    ensures
        ({
            let m = uninstall_model(opt_string_view(*prior_run_value));
            match r {
                UninstallPlan::Remove { path } => m == Some(path@),
                UninstallPlan::NotInstalled => m is None,
            }
        }),
{
    match prior_run_value {
        Some(v) => match run_strip_args(v.as_str()) {
            Some(p) => UninstallPlan::Remove { path: p.to_owned() },
            None => UninstallPlan::NotInstalled,
        },
        None => UninstallPlan::NotInstalled,
    }
}

} // verus!
