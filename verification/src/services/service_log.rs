//! Where a service's output is logged.

use vstd::prelude::*;
use vstd::string::*;

use crate::launchd_config::LaunchdConfig;
use crate::paths::{join_path, joined, parent_dir, parent_of};
use crate::text::opt_text;

verus! {

/// A formula's log override, as its configuration file states it.
#[derive(Debug, Clone)]
pub struct LogConfig {
    pub standard_out_path: Option<String>,
    pub standard_error_path: Option<String>,
}

/// The file that may override the log paths of `formula` for the user whose
/// home directory is `home`.
pub open spec fn log_config_path(home: Seq<char>, formula: Seq<char>) -> Seq<char> {
    joined(joined(joined(home, ".config"@), "flint"@), formula + ".json"@)
}

/// The log of standard output that a formula has by default.
pub open spec fn default_stdout_log(home: Seq<char>, formula: Seq<char>) -> Seq<char> {
    home + "/Library/Logs/Flint/"@ + formula + ".log"@
}

/// The log of standard error that a formula has by default.
pub open spec fn default_stderr_log(home: Seq<char>, formula: Seq<char>) -> Seq<char> {
    home + "/Library/Logs/Flint/"@ + formula + "_error.log"@
}

/// The path that a source names, and the empty path where it names none.
pub open spec fn path_or_empty(path: Option<Seq<char>>) -> Seq<char> {
    match path {
        Some(p) => p,
        None => Seq::empty(),
    }
}

/// The two log paths of a formula, standard output first. An override, where
/// the user has one, decides both; else the descriptor does, where it names
/// either; else both are the defaults under the user's log directory. A
/// deciding source that names only one of the two leaves the other empty.
pub open spec fn resolved_log_paths(
    home: Seq<char>,
    formula: Seq<char>,
    custom: Option<(Option<Seq<char>>, Option<Seq<char>>)>,
    descriptor: (Option<Seq<char>>, Option<Seq<char>>),
) -> (Seq<char>, Seq<char>) {
    match custom {
        Some(paths) => (path_or_empty(paths.0), path_or_empty(paths.1)),
        None => if descriptor.0 is Some || descriptor.1 is Some {
            (path_or_empty(descriptor.0), path_or_empty(descriptor.1))
        } else {
            (default_stdout_log(home, formula), default_stderr_log(home, formula))
        },
    }
}

/// The paths that an override names.
pub open spec fn custom_paths(custom: Option<LogConfig>) -> Option<
    (Option<Seq<char>>, Option<Seq<char>>),
> {
    match custom {
        Some(config) => Some(
            (opt_text(config.standard_out_path), opt_text(config.standard_error_path)),
        ),
        None => None,
    }
}

/// The view of an optional borrowed string.
pub open spec fn opt_str(value: Option<&str>) -> Option<Seq<char>> {
    match value {
        Some(s) => Some(s@),
        None => None,
    }
}

/// A service's log paths as mathematical values.
pub struct ServiceLogView {
    pub formula: Seq<char>,
    pub stdout_path: Seq<char>,
    pub stderr_path: Seq<char>,
}

/// The two log files of a service.
#[derive(Debug)]
pub struct ServiceLog {
    formula: String,
    stdout_path: String,
    stderr_path: String,
}

impl View for ServiceLog {
    type V = ServiceLogView;

    closed spec fn view(&self) -> ServiceLogView {
        ServiceLogView {
            formula: self.formula@,
            stdout_path: self.stdout_path@,
            stderr_path: self.stderr_path@,
        }
    }
}

impl ServiceLog {
    /// The file that may override the log paths of `formula`.
    pub fn config_path(home: &str, formula: &str) -> (path: String)
        ensures
            path@ == log_config_path(home@, formula@),
    {
        let config = join_path(home, ".config");
        let flint = join_path(config.as_str(), "flint");
        let mut name = String::from_str(formula);
        name.append(".json");
        join_path(flint.as_str(), name.as_str())
    }

    /// The log paths of `formula`. `home` is the user's home directory and
    /// `custom` the content of the user's override for the formula, `None`
    /// where there is no such file.
    pub fn new(
        formula: String,
        launchd_service: &LaunchdConfig,
        home: &str,
        custom: Option<LogConfig>,
    ) -> (log: Self)
        ensures
            log@.formula == formula@,
            (log@.stdout_path, log@.stderr_path) == resolved_log_paths(
                home@,
                formula@,
                custom_paths(custom),
                (launchd_service@.stdout_path, launchd_service@.stderr_path),
            ),
    {
        let mut service_log = ServiceLog {
            formula,
            stdout_path: String::new(),
            stderr_path: String::new(),
        };
        service_log.resolve_paths(
            home,
            custom,
            (launchd_service.stdout_path(), launchd_service.stderr_path()),
        );
        service_log
    }

    /// Sets the log paths from the user's override, the descriptor's paths,
    /// or the defaults, in this order of precedence.
    fn resolve_paths(
        &mut self,
        home: &str,
        custom: Option<LogConfig>,
        launchd_output_path: (Option<&str>, Option<&str>),
    )
        requires
            old(self)@.stdout_path.len() == 0,
            old(self)@.stderr_path.len() == 0,
        ensures
            final(self)@.formula == old(self)@.formula,
            (final(self)@.stdout_path, final(self)@.stderr_path) == resolved_log_paths(
                home@,
                old(self)@.formula,
                custom_paths(custom),
                (opt_str(launchd_output_path.0), opt_str(launchd_output_path.1)),
            ),
    {
        // An override, where there is one, decides alone.
        if let Some(config) = custom {
            if let Some(stdout) = config.standard_out_path {
                self.stdout_path = stdout;
            }
            if let Some(stderr) = config.standard_error_path {
                self.stderr_path = stderr;
            }
            return ;
        }
        // Else the descriptor's paths, where it names any.

        let stdout_plist = launchd_output_path.0;
        let stderr_plist = launchd_output_path.1;

        if stdout_plist.is_some() || stderr_plist.is_some() {
            if let Some(stdout) = stdout_plist {
                self.stdout_path = String::from_str(stdout);
            }
            if let Some(stderr) = stderr_plist {
                self.stderr_path = String::from_str(stderr);
            }
            return ;
        }
        // Else the defaults.

        let mut stdout = String::from_str(home);
        stdout.append("/Library/Logs/Flint/");
        stdout.append(self.formula.as_str());
        stdout.append(".log");
        let mut stderr = String::from_str(home);
        stderr.append("/Library/Logs/Flint/");
        stderr.append(self.formula.as_str());
        stderr.append("_error.log");
        self.stdout_path = stdout;
        self.stderr_path = stderr;
    }

    /// The directories that hold the two logs, that of standard output
    /// first: what has to be there before the logs can be opened. A log
    /// whose path has no last component has none.
    pub fn log_dirs(&self) -> (dirs: (Option<String>, Option<String>))
        ensures
            opt_text(dirs.0) == parent_of(self@.stdout_path),
            opt_text(dirs.1) == parent_of(self@.stderr_path),
    {
        (parent_dir(self.stdout_path.as_str()), parent_dir(self.stderr_path.as_str()))
    }

    /// Return current stdout path.
    pub fn stdout_path(&self) -> (path: &str)
        ensures
            path@ == self@.stdout_path,
    {
        self.stdout_path.as_str()
    }

    /// Return current stderr path.
    pub fn stderr_path(&self) -> (path: &str)
        ensures
            path@ == self@.stderr_path,
    {
        self.stderr_path.as_str()
    }
}

} // verus!
