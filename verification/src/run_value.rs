//! The installed-agent record: the string stored under the logon Run value.
//!
//! The record is a quoted absolute path to the agent's executable, optionally
//! followed by a single scope flag. Composing a record and parsing the path
//! back out of one both live here, with a proof that they round-trip.

use vstd::prelude::*;
use vstd::string::StrSliceExecFns;
use vstd::string::StringExecFns;

use crate::config::Scope;
use crate::strutil::{find_char, find_char_from, lemma_find_char_hit, opt_str_view};

verus! {

/// The path carried by a Run value: the part between the leading quote and
/// the next quote, or the whole string when it does not start with a quote.
/// A leading quote without a closing one is a parse failure.
pub open spec fn strip_run_value(s: Seq<char>) -> Option<Seq<char>> {
    if s.len() == 0 || s[0] != '"' {
        Some(s)
    } else {
        match find_char_from(s, '"', 1) {
            Some(j) => Some(s.subrange(1, j)),
            None => None,
        }
    }
}

/// Strip the quotes and any trailing flags from a Run value, leaving the
/// executable path. `None` means the record could not be parsed and the
/// caller must proceed as if no prior installation existed.
pub fn run_strip_args(string: &str) -> (r: Option<&str>)
    ensures
        opt_str_view(r) == strip_run_value(string@),
{
    let len = string.unicode_len();
    if len == 0 || string.get_char(0) != '"' {
        return Some(string);
    }
    match find_char(string, '"', 1) {
        Some(j) => Some(string.substring_char(1, j)),
        None => None,
    }
}

/// The command-line suffix a scope adds to the Run value and to the launch
/// command line.
pub open spec fn scope_suffix(scope: Scope) -> Seq<char> {
    match scope {
        Scope::Both => Seq::<char>::empty(),
        Scope::AppOnly => " --app-only"@,
        Scope::SystemOnly => " --system-only"@,
    }
}

/// The Run value written on install: the target path in quotes, then the
/// scope flag, if any.
pub open spec fn compose_run_value_spec(target: Seq<char>, scope: Scope) -> Seq<char> {
    seq!['"'] + target + seq!['"'] + scope_suffix(scope)
}

/// The command line the installed agent is launched with: the target path,
/// then the scope flag, if any.
pub open spec fn launch_command_spec(target: Seq<char>, scope: Scope) -> Seq<char> {
    target + scope_suffix(scope)
}

/// Compose the Run value for a target path and a scope.
pub fn compose_run_value(target: &str, scope: Scope) -> (r: String)
    ensures
        r@ == compose_run_value_spec(target@, scope),
{
    let mut s = String::from_str("\"");
    proof {
        reveal_strlit("\"");
        assert(s@ =~= seq!['"']);
    }
    s.append(target);
    s.append("\"");
    match scope {
        Scope::AppOnly => s.append(" --app-only"),
        Scope::SystemOnly => s.append(" --system-only"),
        Scope::Both => (),
    }
    proof {
        assert(s@ =~= compose_run_value_spec(target@, scope));
    }
    s
}

/// Compose the launch command line for a target path and a scope.
pub fn compose_launch_command(target: &str, scope: Scope) -> (r: String)
    ensures
        r@ == launch_command_spec(target@, scope),
{
    let mut s = String::from_str(target);
    match scope {
        Scope::AppOnly => s.append(" --app-only"),
        Scope::SystemOnly => s.append(" --system-only"),
        Scope::Both => (),
    }
    proof {
        assert(s@ =~= launch_command_spec(target@, scope));
    }
    s
}

/// Parsing a composed Run value gives the target path back, as long as the
/// path itself holds no quote character.
pub proof fn lemma_strip_compose(target: Seq<char>, scope: Scope)
    requires
        forall|i: int| 0 <= i < target.len() ==> target[i] != '"',
    ensures
        strip_run_value(compose_run_value_spec(target, scope)) == Some(target),
{
    let s = compose_run_value_spec(target, scope);
    let j = target.len() as int + 1;
    assert(s[0] == '"');
    assert(s[j] == '"');
    assert forall|k: int| 1 <= k < j implies s[k] != '"' by {
        assert(s[k] == target[k - 1]);
    }
    lemma_find_char_hit(s, '"', 1, j);
    assert(s.subrange(1, j) =~= target);
}

} // verus!
