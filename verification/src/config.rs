//! Configuration for the indenting presentation layer: how far (or with
//! what string) each of the two output streams is indented, and how
//! command-line arguments override a loaded configuration.

use vstd::prelude::*;

verus! {

/// Indentation settings for the two streams. For each stream either a
/// level (that many spaces) or a custom string may be set; when both are
/// present the level wins, and the stderr settings, when absent, follow
/// the stdout ones once arguments have been applied.
#[derive(Debug)]
pub struct Config {
    pub level: Option<usize>,
    pub err_level: Option<usize>,
    pub string: Option<String>,
    pub err_string: Option<String>,
}

/// The command-line arguments that bear on a run: an alternate
/// configuration file, overrides for the four indentation settings, and
/// the command to run. The two stdout settings are mutually exclusive, as
/// are the two stderr ones; the host's argument parser enforces that.
#[derive(Debug)]
pub struct Args {
    pub config: Option<String>,
    pub level: Option<usize>,
    pub err_level: Option<usize>,
    pub string: Option<String>,
    pub err_string: Option<String>,
    pub command: Vec<String>,
}

/// Mathematical image of a `Config`: strings as character sequences.
pub struct ConfigV {
    pub level: Option<usize>,
    pub err_level: Option<usize>,
    pub string: Option<Seq<char>>,
    pub err_string: Option<Seq<char>>,
}

/// Mathematical image of `Args`.
pub struct ArgsV {
    pub config: Option<Seq<char>>,
    pub level: Option<usize>,
    pub err_level: Option<usize>,
    pub string: Option<Seq<char>>,
    pub err_string: Option<Seq<char>>,
    pub command: Seq<Seq<char>>,
}

pub open spec fn opt_str_view(o: Option<String>) -> Option<Seq<char>> {
    match o {
        Some(s) => Some(s@),
        None => None,
    }
}

impl View for Config {
    type V = ConfigV;

    open spec fn view(&self) -> ConfigV {
        ConfigV {
            level: self.level,
            err_level: self.err_level,
            string: opt_str_view(self.string),
            err_string: opt_str_view(self.err_string),
        }
    }
}

impl View for Args {
    type V = ArgsV;

    open spec fn view(&self) -> ArgsV {
        ArgsV {
            config: opt_str_view(self.config),
            level: self.level,
            err_level: self.err_level,
            string: opt_str_view(self.string),
            err_string: opt_str_view(self.err_string),
            command: self.command.deep_view(),
        }
    }
}

/// The configuration used when no file and no arguments say otherwise:
/// two spaces of stdout indentation; the stderr settings left unset so
/// that they can later follow the stdout ones.
pub open spec fn default_config() -> ConfigV {
    ConfigV { level: Some(2usize), err_level: None, string: None, err_string: None }
}

impl Default for Config {
    fn default() -> (r: Config)
        ensures
            r@ == default_config(),
    {
        Config { level: Some(2), err_level: None, string: None, err_string: None }
    }
}

/// How one (level, string) argument pair overrides the corresponding pair
/// of settings: a set argument installs itself and clears its rival.
pub open spec fn override_pair(
    cur_level: Option<usize>,
    cur_string: Option<Seq<char>>,
    arg_level: Option<usize>,
    arg_string: Option<Seq<char>>,
) -> (Option<usize>, Option<Seq<char>>) {
    if arg_level is Some {
        (arg_level, None)
    } else if arg_string is Some {
        (None, arg_string)
    } else {
        (cur_level, cur_string)
    }
}

/// The full effect of applying arguments to a configuration: both pairs
/// are overridden, and then, when the stderr pair is entirely unset, it
/// follows the stdout pair.
pub open spec fn apply_args_spec(c: ConfigV, a: ArgsV) -> ConfigV {
    let (level, string) = override_pair(c.level, c.string, a.level, a.string);
    let (err_level, err_string) = override_pair(c.err_level, c.err_string, a.err_level, a.err_string);
    if err_level is None && err_string is None {
        ConfigV {
            level,
            string,
            err_level: if level is Some { level } else { None },
            err_string: if string is Some { string } else { None },
        }
    } else {
        ConfigV { level, string, err_level, err_string }
    }
}

/// Overlay command-line arguments onto a configuration.
///
/// An argument that is set replaces the corresponding setting and clears
/// the mutually exclusive one; afterwards an entirely unset stderr pair
/// copies the stdout pair. The host's argument parser guarantees that the
/// two members of a pair are never both given, so that case is excluded
/// here rather than handled.
pub fn apply_args_to_config(config: &mut Config, args: &Args)
    requires
        !(args.level is Some && args.string is Some),
        !(args.err_level is Some && args.err_string is Some),
    ensures
        final(config)@ == apply_args_spec(old(config)@, args@),
{
    match (args.level, &args.string) {
        (Some(level), None) => {
            config.level = Some(level);
            config.string = None;
        },
        (None, Some(string)) => {
            config.string = Some(string.clone());
            config.level = None;
        },
        _ => {},
    }

    match (args.err_level, &args.err_string) {
        (Some(err_level), None) => {
            config.err_level = Some(err_level);
            config.err_string = None;
        },
        (None, Some(err_string)) => {
            config.err_string = Some(err_string.clone());
            config.err_level = None;
        },
        _ => {},
    }

    if config.err_level.is_none() && config.err_string.is_none() {
        if config.level.is_some() {
            config.err_level = config.level;
        }
        if config.string.is_some() {
            config.err_string = match &config.string {
                Some(s) => Some(s.clone()),
                None => None,
            };
        }
    }
}

} // verus!
