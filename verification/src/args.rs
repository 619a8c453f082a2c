//! The agent's resolved command-line configuration and its defaulting
//! rules, together with the fixed argument list handed to the external
//! reload tool.

use vstd::prelude::*;

verus! {

use crate::text::{lower_chars, str_eq_ignore_ascii_case};

/// Severity threshold for the agent's event log.
#[derive(Debug, Clone, Copy, PartialEq, Eq, Structural)]
pub enum LogLevel {
    Error,
    Warn,
    Info,
    Debug,
    Trace,
}

/// The configuration the agent runs with, as plain resolved values.
/// Only `sock_path` is mandatory; every getter supplies the documented
/// default when the optional value is absent.
pub struct Args {
    /// Bind path of the local socket (mandatory).
    pub sock_path: String,
    /// Log level name: error, warn, info, debug or trace.
    pub loglevel: Option<String>,
    /// Directory where received configurations are staged.
    pub outdir: Option<String>,
    /// Full path to the external validate-and-apply tool.
    pub reloader: Option<String>,
    /// Directory of the tool's own binaries.
    pub bindir: Option<String>,
    /// Directory where the tool writes temporary files.
    pub rundir: Option<String>,
    /// Directory of the router's configuration files.
    pub confdir: Option<String>,
    /// Control socket of the routing shell (unused at the moment).
    pub vtysock: Option<String>,
    /// Test-only: answer every non-keepalive request as successful.
    pub always_ok: bool,
    /// Test-only: artificial processing delay, in seconds.
    pub proc_time: Option<u64>,
}

/// The stored value when present, otherwise the default.
pub open spec fn spec_or_default(o: Option<String>, default: Seq<char>) -> Seq<char> {
    match o {
        Some(s) => s@,
        None => default,
    }
}

/// Parses a log level name, ASCII-case-insensitively.
pub open spec fn spec_parse_level(s: Seq<char>) -> Option<LogLevel> {
    let l = lower_chars(s);
    if l == "error"@ {
        Some(LogLevel::Error)
    } else if l == "warn"@ {
        Some(LogLevel::Warn)
    } else if l == "info"@ {
        Some(LogLevel::Info)
    } else if l == "debug"@ {
        Some(LogLevel::Debug)
    } else if l == "trace"@ {
        Some(LogLevel::Trace)
    } else {
        None
    }
}

/// Parses a log level name, ASCII-case-insensitively.
pub fn parse_loglevel(s: &str) -> (r: Option<LogLevel>)
    ensures
        r == spec_parse_level(s@),
{
    proof {
        lemma_level_names_are_lowercase();
    }
    if str_eq_ignore_ascii_case(s, "error") {
        Some(LogLevel::Error)
    } else if str_eq_ignore_ascii_case(s, "warn") {
        Some(LogLevel::Warn)
    } else if str_eq_ignore_ascii_case(s, "info") {
        Some(LogLevel::Info)
    } else if str_eq_ignore_ascii_case(s, "debug") {
        Some(LogLevel::Debug)
    } else if str_eq_ignore_ascii_case(s, "trace") {
        Some(LogLevel::Trace)
    } else {
        None
    }
}

/// The five level names are already lowercase, so folding them is the
/// identity.
proof fn lemma_level_names_are_lowercase()
    ensures
        lower_chars("error"@) == "error"@,
        lower_chars("warn"@) == "warn"@,
        lower_chars("info"@) == "info"@,
        lower_chars("debug"@) == "debug"@,
        lower_chars("trace"@) == "trace"@,
{
    reveal_strlit("error");
    reveal_strlit("warn");
    reveal_strlit("info");
    reveal_strlit("debug");
    reveal_strlit("trace");
    assert(lower_chars("error"@) =~= "error"@);
    assert(lower_chars("warn"@) =~= "warn"@);
    assert(lower_chars("info"@) =~= "info"@);
    assert(lower_chars("debug"@) =~= "debug"@);
    assert(lower_chars("trace"@) =~= "trace"@);
}

impl Args {
    /// Directory of the tool's binaries, defaulting to `/usr/local/bin`.
    pub fn binddir(&self) -> (r: &str)
        ensures
            r@ == spec_or_default(self.bindir, "/usr/local/bin"@),
    {
        match &self.bindir {
            Some(v) => v.as_str(),
            None => "/usr/local/bin",
        }
    }

    /// The tool's run directory, defaulting to `/var/run/frr`.
    pub fn rundir(&self) -> (r: &str)
        ensures
            r@ == spec_or_default(self.rundir, "/var/run/frr"@),
    {
        match &self.rundir {
            Some(v) => v.as_str(),
            None => "/var/run/frr",
        }
    }

    /// The router's configuration directory, defaulting to `/etc/frr`.
    pub fn confdir(&self) -> (r: &str)
        ensures
            r@ == spec_or_default(self.confdir, "/etc/frr"@),
    {
        match &self.confdir {
            Some(v) => v.as_str(),
            None => "/etc/frr",
        }
    }

    /// Path of the external tool, defaulting to `/hedgehog/frr-reload.py`.
    pub fn reloader(&self) -> (r: &str)
        ensures
            r@ == spec_or_default(self.reloader, "/hedgehog/frr-reload.py"@),
    {
        match &self.reloader {
            Some(v) => v.as_str(),
            None => "/hedgehog/frr-reload.py",
        }
    }

    /// Staging directory, defaulting to `/tmp/configs/hedgehog`.
    pub fn outdir(&self) -> (r: &str)
        ensures
            r@ == spec_or_default(self.outdir, "/tmp/configs/hedgehog"@),
    {
        match &self.outdir {
            Some(v) => v.as_str(),
            None => "/tmp/configs/hedgehog",
        }
    }

    /// The configured log level: the parsed name when one was given,
    /// `Debug` when none, and an error exactly when the name is unknown.
    pub fn loglevel(&self) -> (r: Result<LogLevel, ()>)
        ensures
            self.loglevel matches Some(l) ==> r == (match spec_parse_level(l@) {
                Some(v) => Ok::<LogLevel, ()>(v),
                None => Err::<LogLevel, ()>(()),
            }),
            self.loglevel is None ==> r == Ok::<LogLevel, ()>(LogLevel::Debug),
    {
        match &self.loglevel {
            Some(l) => match parse_loglevel(l.as_str()) {
                Some(v) => Ok(v),
                None => Err(()),
            },
            None => Ok(LogLevel::Debug),
        }
    }
}

/// The fixed argument vector handed to the external tool on every
/// invocation, after the mode flag: output capture and debug flags, then
/// the three directories, defaults filled in.
pub open spec fn spec_reload_args(args: Args) -> Seq<Seq<char>> {
    seq![
        "--stdout"@,
        "--debug"@,
        "--bindir"@,
        spec_or_default(args.bindir, "/usr/local/bin"@),
        "--rundir"@,
        spec_or_default(args.rundir, "/var/run/frr"@),
        "--confdir"@,
        spec_or_default(args.confdir, "/etc/frr"@),
    ]
}

/// Builds the tool's argument list from the configuration, so that the
/// exact parameters of every invocation are known and can be logged.
pub fn build_reload_args<'a>(args: &'a Args) -> (r: Vec<&'a str>)
    ensures
        r@.map_values(|s: &str| s@) == spec_reload_args(*args),
{
    let mut v: Vec<&str> = Vec::new();
    v.push("--stdout");
    v.push("--debug");
    v.push("--bindir");
    v.push(args.binddir());
    v.push("--rundir");
    v.push(args.rundir());
    v.push("--confdir");
    v.push(args.confdir());
    proof {
        assert(v@.map_values(|s: &str| s@) =~= spec_reload_args(*args));
    }
    v
}

} // verus!
