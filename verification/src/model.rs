//! A model of the per-user state that install and uninstall act on: the
//! agent's Run value, the set of file paths present on disk, and the set of
//! directories present.
//!
//! The apply functions below say what carrying out a plan does to that
//! state, step by step, in the order the plans prescribe. The lemmas state
//! the two laws of the installer: an install followed by an uninstall leaves
//! no trace, and a repeated install with the same configuration from the
//! same binary changes nothing.

use vstd::prelude::*;

use crate::config::Scope;
use crate::installer::{
    install_base_dir, install_model, uninstall_model, PlanModel, EXE_NAME,
};
use crate::paths::{join_path_spec, lemma_parent_of_join, parent_of};
use crate::run_value::lemma_strip_compose;

verus! {

/// The state the installer touches: the agent's Run value, the files on
/// disk, and the directories on disk, each path a character sequence.
pub struct SystemModel {
    /// The value under the Run key, if present.
    pub run_value: Option<Seq<char>>,
    /// The paths of the files present.
    pub files: Set<Seq<char>>,
    /// The paths of the directories present.
    pub dirs: Set<Seq<char>>,
}

/// Stopping and removing a prior binary: when the file exists, it is
/// deleted together with its immediate parent directory; otherwise nothing
/// happens. (Terminating the running processes does not show in this state.)
pub open spec fn apply_stop_and_remove(m: SystemModel, path: Seq<char>) -> SystemModel {
    if m.files.contains(path) {
        SystemModel {
            run_value: m.run_value,
            files: m.files.remove(path),
            dirs: match parent_of(path) {
                Some(d) => m.dirs.remove(d),
                None => m.dirs,
            },
        }
    } else {
        m
    }
}

/// Carrying out an install plan: stop and remove the prior binary if the
/// plan names one, create the target directory, put the binary at the target
/// path, write the Run value.
pub open spec fn apply_install(m: SystemModel, p: PlanModel) -> SystemModel {
    let m1 = match p.stop_and_remove {
        Some(q) => apply_stop_and_remove(m, q),
        None => m,
    };
    SystemModel {
        run_value: Some(p.run_value),
        files: m1.files.insert(p.target_path),
        dirs: m1.dirs.insert(p.target_dir),
    }
}

/// Carrying out an uninstall of the binary at `path`: stop and remove it,
/// then delete the Run value.
pub open spec fn apply_uninstall(m: SystemModel, path: Seq<char>) -> SystemModel {
    let m1 = apply_stop_and_remove(m, path);
    SystemModel { run_value: None, files: m1.files, dirs: m1.dirs }
}

/// The executable name contains no quote and no separator.
proof fn lemma_exe_name_chars()
    ensures
        forall|i: int| 0 <= i < EXE_NAME@.len() ==> EXE_NAME@[i] != '"',
        forall|i: int| 0 <= i < EXE_NAME@.len() ==> EXE_NAME@[i] != '\\',
{
    reveal_strlit("auto_dark_mode.exe");
    assert(EXE_NAME@ == "auto_dark_mode.exe"@);
}

/// The target path of an install whose base directory holds no quote: it
/// holds no quote either, and its parent is the base directory.
proof fn lemma_target_path_shape(base: Seq<char>)
    requires
        forall|i: int| 0 <= i < base.len() ==> base[i] != '"',
    ensures
        forall|i: int|
            0 <= i < join_path_spec(base, EXE_NAME@).len()
                ==> join_path_spec(base, EXE_NAME@)[i] != '"',
        parent_of(join_path_spec(base, EXE_NAME@)) == Some(base),
{
    lemma_exe_name_chars();
    let target = join_path_spec(base, EXE_NAME@);
    assert forall|i: int| 0 <= i < target.len() implies target[i] != '"' by {
        if i < base.len() {
            assert(target[i] == base[i]);
        } else if i == base.len() {
            assert(target[i] == '\\');
        } else {
            assert(target[i] == EXE_NAME@[i - base.len() - 1]);
        }
    }
    lemma_parent_of_join(base, EXE_NAME@);
}

/// Law: an install followed by an uninstall on the resulting state removes
/// the Run value, the installed binary and the install directory. It holds
/// whenever the install directory itself holds no quote character (a quoted
/// path cannot be parsed back out of the Run value).
pub proof fn lemma_install_then_uninstall(
    m: SystemModel,
    exe: Seq<char>,
    directory: Option<Seq<char>>,
    appdata: Option<Seq<char>>,
    scope: Scope,
)
    requires
        install_base_dir(directory, appdata) is Some,
        forall|i: int|
            0 <= i < install_base_dir(directory, appdata)->0.len()
                ==> install_base_dir(directory, appdata)->0[i] != '"',
    ensures
        install_model(m.run_value, Some(exe), directory, appdata, scope) is Ok,
        ({
            let plan = install_model(m.run_value, Some(exe), directory, appdata, scope)->Ok_0;
            let m1 = apply_install(m, plan);
            &&& uninstall_model(m1.run_value) == Some(plan.target_path)
            &&& apply_uninstall(m1, plan.target_path).run_value is None
            &&& !apply_uninstall(m1, plan.target_path).files.contains(plan.target_path)
            &&& !apply_uninstall(m1, plan.target_path).dirs.contains(plan.target_dir)
        }),
{
    let base = install_base_dir(directory, appdata)->0;
    let target = join_path_spec(base, EXE_NAME@);
    lemma_target_path_shape(base);
    lemma_strip_compose(target, scope);
}

/// Law: installing twice in a row with the same configuration from the same
/// executing binary leaves the Run value, the files and the directories of
/// the first install unchanged. It holds whenever the install directory
/// holds no quote character.
pub proof fn lemma_install_idempotent(
    m: SystemModel,
    exe: Seq<char>,
    directory: Option<Seq<char>>,
    appdata: Option<Seq<char>>,
    scope: Scope,
)
    requires
        install_base_dir(directory, appdata) is Some,
        forall|i: int|
            0 <= i < install_base_dir(directory, appdata)->0.len()
                ==> install_base_dir(directory, appdata)->0[i] != '"',
    ensures
        ({
            let plan1 = install_model(m.run_value, Some(exe), directory, appdata, scope)->Ok_0;
            let m1 = apply_install(m, plan1);
            let second = install_model(m1.run_value, Some(exe), directory, appdata, scope);
            &&& second is Ok
            &&& ({
                let m2 = apply_install(m1, second->Ok_0);
                &&& m2.run_value == m1.run_value
                &&& m2.files == m1.files
                &&& m2.dirs == m1.dirs
            })
        }),
{
    let base = install_base_dir(directory, appdata)->0;
    let target = join_path_spec(base, EXE_NAME@);
    lemma_target_path_shape(base);
    lemma_strip_compose(target, scope);

    let plan1 = install_model(m.run_value, Some(exe), directory, appdata, scope)->Ok_0;
    let m1 = apply_install(m, plan1);
    let second = install_model(m1.run_value, Some(exe), directory, appdata, scope);
    let m2 = apply_install(m1, second->Ok_0);
    assert(m1.files.contains(target));
    assert(m1.dirs.contains(base));
    assert(m2.files =~= m1.files);
    assert(m2.dirs =~= m1.dirs);
}

} // verus!
