//! Launch preparation: resolving the executable, checking that every
//! string can be carried into an exec call, and building the argument and
//! environment vectors the child is started with. The fork itself and the
//! descriptor plumbing are OS work performed by the host binary; what it
//! hands the OS is exactly what the functions here prepared.

use vstd::prelude::*;
use crate::XError;

verus! {

/// Whether a string holds a NUL character, which no exec-level string may.
pub open spec fn has_nul(s: Seq<char>) -> bool {
    exists|i: int| 0 <= i < s.len() && s[i] == '\0'
}

/// Whether any entry of a string vector holds a NUL character.
pub open spec fn any_has_nul(v: Seq<String>) -> bool {
    exists|i: int| 0 <= i < v.len() && has_nul(v[i]@)
}

/// Check one string for a NUL character.
pub fn str_has_nul(s: &str) -> (b: bool)
    ensures
        b == has_nul(s@),
{
    let n = s.unicode_len();
    let mut i: usize = 0;
    while i < n
        invariant
            i <= n,
            n == s@.len(),
            forall|j: int| 0 <= j < i ==> s@[j] != '\0',
        decreases n - i,
    {
        if s.get_char(i) == '\0' {
            return true;
        }
        i = i + 1;
    }
    false
}

/// Check every entry of a vector for a NUL character.
pub fn vec_has_nul(v: &Vec<String>) -> (b: bool)
    ensures
        b == any_has_nul(v@),
{
    let mut i: usize = 0;
    while i < v.len()
        invariant
            i <= v@.len(),
            forall|j: int| 0 <= j < i ==> !has_nul(v@[j]@),
        decreases v@.len() - i,
    {
        if str_has_nul(v[i].as_str()) {
            return true;
        }
        i = i + 1;
    }
    false
}

/// One environment entry as the child receives it: `KEY=VALUE`.
pub open spec fn env_entry(key: Seq<char>, value: Seq<char>) -> Seq<char> {
    key + seq!['='] + value
}

/// Format one environment pair as `KEY=VALUE`.
pub fn format_env_pair(key: &String, value: &String) -> (r: String)
    ensures
        r@ == env_entry(key@, value@),
{
    let r = key.clone().concat("=").concat(value.as_str());
    proof {
        reveal_strlit("=");
        assert(r@ =~= env_entry(key@, value@));
    }
    r
}

/// Format a snapshot of the parent environment, pair by pair, in order.
pub fn format_env(pairs: &Vec<(String, String)>) -> (r: Vec<String>)
    ensures
        r@.len() == pairs@.len(),
        forall|i: int| 0 <= i < r@.len() ==> r@[i]@ == env_entry(pairs@[i].0@, pairs@[i].1@),
{
    let mut r: Vec<String> = Vec::new();
    let mut i: usize = 0;
    while i < pairs.len()
        invariant
            i <= pairs@.len(),
            r@.len() == i,
            forall|j: int| 0 <= j < i ==> r@[j]@ == env_entry(pairs@[j].0@, pairs@[j].1@),
        decreases pairs@.len() - i,
    {
        let pair = &pairs[i];
        r.push(format_env_pair(&pair.0, &pair.1));
        i = i + 1;
    }
    r
}

/// What resolving a command name against the search path yielded: an
/// executable path, nothing, or a path that cannot be carried as a string.
#[derive(Debug)]
pub enum LookupOutcome {
    Found(String),
    NotFound,
    Unencodable,
}

/// Relies on which::which: searches the OS search path (or checks a given
/// path directly) for an executable and returns its path. Which outcome
/// comes back depends on the filesystem and the search path, so nothing is
/// promised of it; `build_spec` states what follows from each outcome.
#[verifier::external_body]
fn which_lookup(name: &String) -> (r: LookupOutcome) {
    match which::which(name.as_str()) {
        Ok(path) => match path.to_str() {
            Some(s) => LookupOutcome::Found(s.to_string()),
            None => LookupOutcome::Unencodable,
        },
        Err(_) => LookupOutcome::NotFound,
    }
}

/// Everything the child is started with: the resolved executable path,
/// the argument vector (whose head is that path), and the environment
/// entries. Immutable once built; consumed by the host's fork/exec step.
#[derive(Debug)]
pub struct CommandSpec {
    pub program: String,
    pub argv: Vec<String>,
    pub env: Vec<String>,
}

/// A well-formed launch specification: the argument vector starts with
/// the program path and no string anywhere in it carries a NUL, so every
/// string can be handed to an exec call.
pub open spec fn spec_wf(s: CommandSpec) -> bool {
    &&& s.argv@.len() >= 1
    &&& s.argv@[0]@ == s.program@
    &&& !has_nul(s.program@)
    &&& !any_has_nul(s.argv@)
    &&& !any_has_nul(s.env@)
}

/// Build the launch specification from a resolution outcome, the user
/// arguments, and the formatted environment.
///
/// A missing executable is `CommandNotFound`; an unrepresentable path or
/// any NUL-carrying argument or environment entry is `EncodingError`; and
/// otherwise the result is owed: a well-formed specification whose
/// argument vector is the resolved path followed by the user arguments
/// unchanged, and whose environment is the given one unchanged.
pub fn build_spec(resolved: LookupOutcome, args: &Vec<String>, env: &Vec<String>) -> (r: Result<
    CommandSpec,
    XError,
>)
    ensures
        resolved is NotFound ==> r == Err::<CommandSpec, XError>(XError::CommandNotFound),
        resolved is Unencodable ==> r == Err::<CommandSpec, XError>(XError::EncodingError),
        resolved matches LookupOutcome::Found(p) ==> {
            if has_nul(p@) || any_has_nul(args@) || any_has_nul(env@) {
                r == Err::<CommandSpec, XError>(XError::EncodingError)
            } else {
                r matches Ok(s) && spec_wf(s) && s.program@ == p@ && s.argv@.len() == 1
                    + args@.len() && s.argv@[0]@ == p@ && (forall|i: int|
                    1 <= i < s.argv@.len() ==> s.argv@[i]@ == args@[i - 1]@) && s.env@ == env@
            }
        },
{
    match resolved {
        LookupOutcome::NotFound => Err(XError::CommandNotFound),
        LookupOutcome::Unencodable => Err(XError::EncodingError),
        LookupOutcome::Found(p) => {
            if str_has_nul(p.as_str()) || vec_has_nul(args) || vec_has_nul(env) {
                return Err(XError::EncodingError);
            }
            let mut argv: Vec<String> = Vec::new();
            argv.push(p.clone());
            let mut i: usize = 0;
            while i < args.len()
                invariant
                    i <= args@.len(),
                    argv@.len() == 1 + i,
                    argv@[0]@ == p@,
                    forall|j: int| 1 <= j < argv@.len() ==> argv@[j]@ == args@[j - 1]@,
                    !has_nul(p@),
                    !any_has_nul(args@),
                decreases args@.len() - i,
            {
                argv.push(args[i].clone());
                i = i + 1;
            }
            proof {
                assert(!any_has_nul(argv@)) by {
                    assert(forall|j: int|
                        0 <= j < argv@.len() ==> !has_nul(#[trigger] argv@[j]@));
                }
            }
            Ok(CommandSpec { program: p, argv, env: env.clone() })
        },
    }
}

/// A command to be run behind a pair of pseudo-terminals: the name to
/// resolve, the user arguments, and a formatted snapshot of the parent
/// environment. Built fresh per launch.
#[derive(Debug)]
pub struct TTYCommand {
    pub command: String,
    pub args: Vec<String>,
    pub env: Vec<String>,
}

impl TTYCommand {
    /// Capture a command with the environment pairs the child is to
    /// inherit, formatted as `KEY=VALUE` entries in order.
    pub fn new(command: String, args: Vec<String>, env_pairs: &Vec<(String, String)>) -> (r:
        TTYCommand)
        ensures
            r.command@ == command@,
            r.args@ == args@,
            r.env@.len() == env_pairs@.len(),
            forall|i: int|
                0 <= i < r.env@.len() ==> r.env@[i]@ == env_entry(
                    env_pairs@[i].0@,
                    env_pairs@[i].1@,
                ),
    {
        let env = format_env(env_pairs);
        TTYCommand { command, args, env }
    }

    /// The pre-fork step of a launch: resolve the command name and build
    /// the launch specification.
    ///
    /// The resolution outcome depends on the filesystem, so success is
    /// not owed here; `build_spec` pins what each outcome produces. On
    /// success the specification is well-formed, carries the user
    /// arguments behind the resolved path, and carries the captured
    /// environment; on failure the error is one of the two pre-fork ones.
    pub fn prepare(&self) -> (r: Result<CommandSpec, XError>)
        ensures
            r matches Ok(s) ==> spec_wf(s) && s.argv@.len() == 1 + self.args@.len() && (forall|
                i: int,
            | 1 <= i < s.argv@.len() ==> s.argv@[i]@ == self.args@[i - 1]@) && s.env@ == self.env@,
            r matches Err(e) ==> e == XError::CommandNotFound || e == XError::EncodingError,
    {
        let resolved = which_lookup(&self.command);
        build_spec(resolved, &self.args, &self.env)
    }
}

/// Split a command vector into the name to launch and its arguments. An
/// empty vector is a usage error, reported before any process work.
pub fn split_command(command: &Vec<String>) -> (r: Result<(String, Vec<String>), XError>)
    ensures
        command@.len() == 0 ==> r == Err::<(String, Vec<String>), XError>(XError::EmptyCommand),
        command@.len() > 0 ==> (r matches Ok(p) && p.0@ == command@[0]@ && p.1@.len()
            == command@.len() - 1 && (forall|i: int|
            0 <= i < p.1@.len() ==> p.1@[i]@ == command@[i + 1]@)),
{
    if command.len() == 0 {
        return Err(XError::EmptyCommand);
    }
    let exec = command[0].clone();
    let mut rest: Vec<String> = Vec::new();
    let mut i: usize = 1;
    while i < command.len()
        invariant
            1 <= i <= command@.len(),
            rest@.len() == i - 1,
            forall|j: int| 0 <= j < rest@.len() ==> rest@[j]@ == command@[j + 1]@,
        decreases command@.len() - i,
    {
        rest.push(command[i].clone());
        i = i + 1;
    }
    Ok((exec, rest))
}

/// The parent-side capability for one launched child: its process
/// identifier and the read sides of the two pseudo-terminal pairs. The
/// host constructs it at fork time and the multiplexer alone closes the
/// two descriptors, exactly once.
#[derive(Debug)]
pub struct XChildHandle {
    pub pid: i32,
    pub stdout_fd: i32,
    pub stderr_fd: i32,
}

impl XChildHandle {
    /// Wrap the identifiers the fork produced.
    pub fn new(pid: i32, stdout_fd: i32, stderr_fd: i32) -> (r: Result<XChildHandle, XError>)
        ensures
            r matches Ok(h) && h.pid == pid && h.stdout_fd == stdout_fd && h.stderr_fd
                == stderr_fd,
    {
        Ok(XChildHandle { pid, stdout_fd, stderr_fd })
    }

    /// The child's process identifier.
    pub fn pid(&self) -> (r: i32)
        ensures
            r == self.pid,
    {
        self.pid
    }
}

/// The passthrough presentation object: a command vector whose captured
/// lines are handed on unchanged, stdout to stdout and stderr to stderr.
#[derive(Debug)]
pub struct SimpleCommand {
    pub command: Vec<String>,
}

impl SimpleCommand {
    /// Wrap a command vector.
    pub fn new(command: Vec<String>) -> (r: Result<SimpleCommand, XError>)
        ensures
            r matches Ok(c) && c.command@ == command@,
    {
        Ok(SimpleCommand { command })
    }

    /// The command vector this run will launch.
    pub fn command(&self) -> (r: &Vec<String>)
        ensures
            r@ == self.command@,
    {
        &self.command
    }
}

} // verus!
