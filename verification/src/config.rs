//! The configuration record: the operator's intent for one invocation.
//!
//! The record is built once from the command line (parsed outside this
//! library) and never mutated. Its single invariant is that the two scope
//! flags are mutually exclusive; violating it is a fatal configuration error
//! reported before any side effect.

use vstd::prelude::*;

verus! {

/// Command-line configuration, as plain values.
#[derive(Debug, Clone)]
pub struct Args {
    /// Copy the executable and register it to run at logon.
    pub install: bool,
    /// Directory to copy the executable to on install.
    pub install_dir: Option<String>,
    /// Remove the program from the machine.
    pub uninstall: bool,
    /// Change the default app appearance only.
    pub app_only: bool,
    /// Change the default Windows appearance only.
    pub system_only: bool,
}

/// Which of the two appearance flags a reconciliation may write.
#[derive(Debug, Clone, Copy, PartialEq, Eq, Structural)]
pub enum Scope {
    /// Write both flags.
    Both,
    /// Write `AppsUseLightTheme` only.
    AppOnly,
    /// Write `SystemUsesLightTheme` only.
    SystemOnly,
}

/// The action one invocation performs.
#[derive(Debug, Clone, Copy, PartialEq, Eq, Structural)]
pub enum Action {
    /// Install the agent and exit.
    Install,
    /// Uninstall the agent and exit.
    Uninstall,
    /// Reconcile once, then watch for changes.
    Run,
}

/// A configuration error, reported before any side effect.
#[derive(Debug, Clone, Copy, PartialEq, Eq, Structural)]
pub enum ConfigError {
    /// Both scope flags were set at once.
    ConflictingScope,
}

impl Args {
    /// The configuration invariant: the two scope flags are mutually
    /// exclusive.
    pub open spec fn wf(self) -> bool {
        !(self.app_only && self.system_only)
    }

    /// The scope a well-formed configuration selects.
    pub open spec fn scope_spec(self) -> Scope {
        if self.app_only {
            Scope::AppOnly
        } else if self.system_only {
            Scope::SystemOnly
        } else {
            Scope::Both
        }
    }

    /// The action a configuration selects: install wins over uninstall,
    /// and with neither flag the agent runs.
    pub open spec fn action_spec(self) -> Action {
        if self.install {
            Action::Install
        } else if self.uninstall {
            Action::Uninstall
        } else {
            Action::Run
        }
    }

    /// Validate the scope flags. Rejects exactly the configurations that set
    /// both; every other configuration yields its scope.
    pub fn scope(&self) -> (r: Result<Scope, ConfigError>)
        ensures
            self.wf() <==> r is Ok,
            self.wf() ==> r == Ok::<Scope, ConfigError>(self.scope_spec()),
            !self.wf() ==> r == Err::<Scope, ConfigError>(ConfigError::ConflictingScope),
    {
        if self.app_only && self.system_only {
            Err(ConfigError::ConflictingScope)
        } else if self.app_only {
            Ok(Scope::AppOnly)
        } else if self.system_only {
            Ok(Scope::SystemOnly)
        } else {
            Ok(Scope::Both)
        }
    }

    /// The scope of a configuration already known to be well-formed.
    pub fn selected_scope(&self) -> (s: Scope)
        requires
            self.wf(),
        ensures
            s == self.scope_spec(),
    {
        if self.app_only {
            Scope::AppOnly
        } else if self.system_only {
            Scope::SystemOnly
        } else {
            Scope::Both
        }
    }

    /// The action this invocation performs, by the documented precedence.
    pub fn action(&self) -> (r: Action)
        ensures
            r == self.action_spec(),
    {
        if self.install {
            Action::Install
        } else if self.uninstall {
            Action::Uninstall
        } else {
            Action::Run
        }
    }
}

} // verus!
