//! The launch strategy chain: the ordered ways to start a service's
//! process, tried in sequence until one spawns.

use vstd::prelude::*;
use vstd::string::StringExecFns;

use crate::service::ServiceDescriptor;

verus! {

/// Number of strategies in the chain for any service: the bundled
/// companion, two login shells, and two bare interpreter names.
pub const CHAIN_LENGTH: usize = 5;

/// One concrete method of starting a service's process. Stateless;
/// selected and discarded per attempt.
pub enum LaunchStrategy {
    /// A self-contained executable shipped alongside the shell, addressed
    /// by its logical name. No PATH or environment dependency.
    BundledCompanion { program: String },
    /// A login shell running a one-line script that probes candidate
    /// interpreter paths and replaces itself with the first working one.
    /// A login shell is used because a directly spawned subprocess does
    /// not inherit the user's interactively configured PATH, virtual
    /// environment, or version-manager shims.
    LoginShellInterpreter { shell: String, script: String },
    /// A bare interpreter name resolved on PATH, without shell
    /// indirection, for environments where the login-shell strategy is
    /// unavailable.
    BareInterpreter { program: String, args: Vec<String> },
}

/// Why no strategy of the chain produced a live handle.
#[derive(Clone, Copy, PartialEq, Eq, Structural, Debug)]
pub enum LaunchError {
    /// Every attempt failed because no interpreter or companion
    /// executable could be located.
    NoInterpreterFound,
    /// At least one located candidate failed in the spawn mechanism
    /// itself.
    SpawnFailed,
}

impl LaunchError {
    /// The text reported to the direct caller.
    pub open spec fn message_view(self) -> Seq<char> {
        match self {
            LaunchError::NoInterpreterFound => "Could not find python3 or python. Please install Python 3.11+."@,
            LaunchError::SpawnFailed => "Could not spawn a process for the service."@,
        }
    }

    /// Renders the text reported to the direct caller.
    pub fn message(&self) -> (r: String)
        ensures
            r@ == self.message_view(),
    {
        match self {
            LaunchError::NoInterpreterFound => String::from_str(
                "Could not find python3 or python. Please install Python 3.11+.",
            ),
            LaunchError::SpawnFailed => String::from_str(
                "Could not spawn a process for the service.",
            ),
        }
    }
}

/// The arguments handed to an interpreter: `-m`, the entry module, then
/// the service's configured arguments.
pub open spec fn interpreter_args_spec(d: &ServiceDescriptor, args: Seq<String>) -> bool {
    &&& args.len() == 2 + d.entry_args@.len()
    &&& args[0]@ == "-m"@
    &&& args[1] == d.entry_module
    &&& args.subrange(2, args.len() as int) == d.entry_args@
}

/// Builds the argument list an interpreter is invoked with.
pub fn interpreter_args(d: &ServiceDescriptor) -> (r: Vec<String>)
    ensures
        interpreter_args_spec(d, r@),
{
    let mut r: Vec<String> = Vec::new();
    r.push(String::from_str("-m"));
    r.push(d.entry_module.clone());
    let mut i: usize = 0;
    while i < d.entry_args.len()
        invariant
            i <= d.entry_args@.len(),
            r@.len() == 2 + i,
            r@[0]@ == "-m"@,
            r@[1] == d.entry_module,
            r@.subrange(2, r@.len() as int) == d.entry_args@.take(i as int),
        decreases d.entry_args@.len() - i,
    {
        r.push(d.entry_args[i].clone());
        proof {
            assert(r@.subrange(2, r@.len() as int) =~= d.entry_args@.take(i + 1));
        }
        i = i + 1;
    }
    proof {
        assert(d.entry_args@.take(d.entry_args@.len() as int) =~= d.entry_args@);
    }
    r
}

/// The space-prefixed rendering of the first `k` arguments, as they appear
/// after the entry module on the script's command line.
pub open spec fn trailing_args_view(args: Seq<String>, k: int) -> Seq<char>
    decreases k,
{
    if k <= 0 {
        Seq::empty()
    } else {
        trailing_args_view(args, k - 1) + " "@ + args[k - 1]@
    }
}

fn append_trailing_args(r: &mut String, args: &Vec<String>)
    ensures
        final(r)@ == old(r)@ + trailing_args_view(args@, args@.len() as int),
{
    let ghost r0 = r@;
    let mut i: usize = 0;
    while i < args.len()
        invariant
            i <= args@.len(),
            r@ == r0 + trailing_args_view(args@, i as int),
        decreases args@.len() - i,
    {
        r.append(" ");
        r.append(args[i].as_str());
        proof {
            assert(r@ =~= r0 + trailing_args_view(args@, i + 1));
        }
        i = i + 1;
    }
    proof {
        assert(r0 + trailing_args_view(args@, 0) =~= r0);
    }
}

/// One candidate's segment of the login-shell script: verify the candidate
/// interpreter actually has the entry module installed, and if so replace
/// the shell process with the candidate invoking the entry module.
pub open spec fn probe_segment_view(candidate: Seq<char>, d: &ServiceDescriptor) -> Seq<char> {
    "if "@ + candidate + " -c 'import "@ + d.entry_module@ + "' >/dev/null 2>&1; then exec "@
        + candidate + " -m "@ + d.entry_module@
        + trailing_args_view(d.entry_args@, d.entry_args@.len() as int) + "; fi; "@
}

/// The segments for the first `k` project-local interpreter candidates.
pub open spec fn candidate_segments_view(d: &ServiceDescriptor, k: int) -> Seq<char>
    decreases k,
{
    if k <= 0 {
        Seq::empty()
    } else {
        candidate_segments_view(d, k - 1) + probe_segment_view(d.venv_candidates@[k - 1]@, d)
    }
}

/// The whole one-line script run by a login shell: probe each project-local
/// candidate in order, then the bare interpreter name, and fail if none
/// works.
pub open spec fn login_shell_script_view(d: &ServiceDescriptor) -> Seq<char> {
    candidate_segments_view(d, d.venv_candidates@.len() as int) + probe_segment_view(
        "python3"@,
        d,
    ) + "exit 1"@
}

fn append_probe_segment(r: &mut String, candidate: &str, d: &ServiceDescriptor)
    ensures
        final(r)@ == old(r)@ + probe_segment_view(candidate@, d),
{
    let ghost r0 = r@;
    r.append("if ");
    r.append(candidate);
    r.append(" -c 'import ");
    r.append(d.entry_module.as_str());
    r.append("' >/dev/null 2>&1; then exec ");
    r.append(candidate);
    r.append(" -m ");
    r.append(d.entry_module.as_str());
    append_trailing_args(r, &d.entry_args);
    r.append("; fi; ");
    proof {
        assert(r@ =~= r0 + probe_segment_view(candidate@, d));
    }
}

/// Builds the script handed to a login shell for this service.
pub fn login_shell_script(d: &ServiceDescriptor) -> (r: String)
    ensures
        r@ == login_shell_script_view(d),
{
    let mut r = String::new();
    let ghost r0 = r@;
    let mut i: usize = 0;
    while i < d.venv_candidates.len()
        invariant
            i <= d.venv_candidates@.len(),
            r@ == candidate_segments_view(d, i as int),
        decreases d.venv_candidates@.len() - i,
    {
        append_probe_segment(&mut r, d.venv_candidates[i].as_str(), d);
        i = i + 1;
    }
    append_probe_segment(&mut r, "python3", d);
    r.append("exit 1");
    proof {
        assert(r@ =~= login_shell_script_view(d));
    }
    r
}

/// What the strategy at position `i` of the chain is, for any service:
/// first the bundled companion, then the login shell with a fallback
/// shell, then the bare interpreter names.
pub open spec fn strategy_at_spec(d: &ServiceDescriptor, i: int, s: LaunchStrategy) -> bool {
    if i == 0 {
        s matches LaunchStrategy::BundledCompanion { program } && program@ == d.companion@
    } else if i == 1 {
        s matches LaunchStrategy::LoginShellInterpreter { shell, script } && shell@ == "/bin/zsh"@
            && script@ == login_shell_script_view(d)
    } else if i == 2 {
        s matches LaunchStrategy::LoginShellInterpreter { shell, script } && shell@ == "/bin/bash"@
            && script@ == login_shell_script_view(d)
    } else if i == 3 {
        s matches LaunchStrategy::BareInterpreter { program, args } && program@ == "python3"@
            && interpreter_args_spec(d, args@)
    } else if i == 4 {
        s matches LaunchStrategy::BareInterpreter { program, args } && program@ == "python"@
            && interpreter_args_spec(d, args@)
    } else {
        false
    }
}

/// Builds the strategy at position `i` of the chain for this service.
pub fn strategy_at(d: &ServiceDescriptor, i: usize) -> (s: LaunchStrategy)
    requires
        i < CHAIN_LENGTH,
    ensures
        strategy_at_spec(d, i as int, s),
{
    if i == 0 {
        LaunchStrategy::BundledCompanion { program: d.companion.clone() }
    } else if i == 1 {
        LaunchStrategy::LoginShellInterpreter {
            shell: String::from_str("/bin/zsh"),
            script: login_shell_script(d),
        }
    } else if i == 2 {
        LaunchStrategy::LoginShellInterpreter {
            shell: String::from_str("/bin/bash"),
            script: login_shell_script(d),
        }
    } else if i == 3 {
        LaunchStrategy::BareInterpreter {
            program: String::from_str("python3"),
            args: interpreter_args(d),
        }
    } else {
        LaunchStrategy::BareInterpreter {
            program: String::from_str("python"),
            args: interpreter_args(d),
        }
    }
}

/// Builds the whole chain, in the priority order strategies are tried.
pub fn strategy_chain(d: &ServiceDescriptor) -> (r: Vec<LaunchStrategy>)
    ensures
        r@.len() == CHAIN_LENGTH,
        forall|i: int|
            0 <= i < r@.len() ==> #[trigger] strategy_at_spec(d, i, r@[i]),
{
    let mut r: Vec<LaunchStrategy> = Vec::new();
    let mut i: usize = 0;
    while i < CHAIN_LENGTH
        invariant
            i <= CHAIN_LENGTH,
            r@.len() == i,
            forall|j: int| 0 <= j < i ==> #[trigger] strategy_at_spec(d, j, r@[j]),
        decreases CHAIN_LENGTH - i,
    {
        r.push(strategy_at(d, i));
        i = i + 1;
    }
    r
}

/// The program and argument list a spawn attempt of this strategy runs.
pub fn into_command(s: LaunchStrategy) -> (r: (String, Vec<String>))
    ensures
        (match s {
            LaunchStrategy::BundledCompanion { program } => {
                &&& r.0 == program
                &&& r.1@.len() == 0
            },
            LaunchStrategy::LoginShellInterpreter { shell, script } => {
                &&& r.0 == shell
                &&& r.1@.len() == 2
                &&& r.1@[0]@ == "-lc"@
                &&& r.1@[1] == script
            },
            LaunchStrategy::BareInterpreter { program, args } => {
                &&& r.0 == program
                &&& r.1 == args
            },
        }),
{
    match s {
        LaunchStrategy::BundledCompanion { program } => {
            let args: Vec<String> = Vec::new();
            (program, args)
        },
        LaunchStrategy::LoginShellInterpreter { shell, script } => {
            let mut args: Vec<String> = Vec::new();
            args.push(String::from_str("-lc"));
            args.push(script);
            (shell, args)
        },
        LaunchStrategy::BareInterpreter { program, args } => (program, args),
    }
}

} // verus!
