//! The indenting presentation object: holds the command to run and one
//! indentation prefix per stream, and formats each captured line by
//! prefixing it with the prefix of its stream.

use vstd::prelude::*;
use crate::XError;
use crate::config::Config;

verus! {

/// `n` spaces.
pub open spec fn spaces(n: nat) -> Seq<char> {
    Seq::new(n, |i: int| ' ')
}

/// The prefix a (level, string) setting pair yields: the level, when set,
/// wins and means that many spaces; otherwise the custom string is used.
/// (Callers exclude the case where neither is set.)
pub open spec fn prefix_of(level: Option<usize>, string: Option<Seq<char>>) -> Seq<char> {
    if level is Some {
        spaces(level->0 as nat)
    } else if string is Some {
        string->0
    } else {
        Seq::empty()
    }
}

/// Build a string of `n` spaces.
fn make_spaces(n: usize) -> (r: String)
    ensures
        r@ == spaces(n as nat),
{
    let mut s = String::new();
    let mut i: usize = 0;
    while i < n
        invariant
            i <= n,
            s@ == spaces(i as nat),
        decreases n - i,
    {
        s.append(" ");
        i = i + 1;
        proof {
            reveal_strlit(" ");
            assert(s@ =~= spaces(i as nat));
        }
    }
    s
}

/// Mathematical image of an `App`.
pub struct AppV {
    pub stdout_ind: Seq<char>,
    pub stderr_ind: Seq<char>,
    pub command: Seq<Seq<char>>,
}

/// A configured run: the command vector and the two per-stream
/// indentation prefixes.
#[derive(Debug)]
pub struct App {
    stdout_ind: String,
    stderr_ind: String,
    command: Vec<String>,
}

impl View for App {
    type V = AppV;

    closed spec fn view(&self) -> AppV {
        AppV {
            stdout_ind: self.stdout_ind@,
            stderr_ind: self.stderr_ind@,
            command: self.command.deep_view(),
        }
    }
}

impl App {
    /// An `App` with the base indentation: two spaces for each stream.
    pub fn with_default_base(command: Vec<String>) -> (r: Result<App, XError>)
        ensures
            r matches Ok(app) && app@ == (AppV {
                stdout_ind: spaces(2),
                stderr_ind: spaces(2),
                command: command.deep_view(),
            }),
    {
        Ok(App { command, stdout_ind: make_spaces(2), stderr_ind: make_spaces(2) })
    }

    /// An `App` whose prefixes come from a configuration: for each stream
    /// the level, when set, means that many spaces, else the custom
    /// string is used. A configuration that sets neither member of a pair
    /// is excluded by the caller (the default configuration and argument
    /// application never produce one).
    pub fn from_config(config: &Config, command: Vec<String>) -> (r: Result<App, XError>)
        requires
            config@.level is Some || config@.string is Some,
            config@.err_level is Some || config@.err_string is Some,
        ensures
            r matches Ok(app) && app@ == (AppV {
                stdout_ind: prefix_of(config@.level, config@.string),
                stderr_ind: prefix_of(config@.err_level, config@.err_string),
                command: command.deep_view(),
            }),
    {
        let stdout_ind = match (&config.level, &config.string) {
            (Some(level), _) => make_spaces(*level),
            (None, Some(string)) => string.clone(),
            (None, None) => String::new(),
        };
        let stderr_ind = match (&config.err_level, &config.err_string) {
            (Some(err_level), _) => make_spaces(*err_level),
            (None, Some(err_string)) => err_string.clone(),
            (None, None) => String::new(),
        };
        Ok(App { command, stdout_ind, stderr_ind })
    }

    /// The command vector this run will launch.
    pub fn command(&self) -> (r: &Vec<String>)
        ensures
            r.deep_view() == self@.command,
    {
        &self.command
    }

    /// A stdout line as it is presented: the stdout prefix, then the line.
    pub fn stdout_line(&self, line: &str) -> (r: String)
        ensures
            r@ == self@.stdout_ind + line@,
    {
        self.stdout_ind.clone().concat(line)
    }

    /// A stderr line as it is presented: the stderr prefix, then the line.
    pub fn stderr_line(&self, line: &str) -> (r: String)
        ensures
            r@ == self@.stderr_ind + line@,
    {
        self.stderr_ind.clone().concat(line)
    }
}

} // verus!
