//! Logging settings of the command line tool and the server.

use vstd::prelude::*;
use crate::text::copy_str;

verus! {

/// Logging settings.
#[derive(Debug, Clone)]
pub struct LogConfig {
    /// Level: `trace`, `debug`, `info`, `warn` or `error`.
    pub level: String,
    /// Folder of the log files.
    pub log_dir: String,
    /// Prefix of the log file names.
    pub file_prefix: String,
    /// Whether logs also go to the console.
    pub console: bool,
}

impl LogConfig {
    /// The default settings with logs in `log_dir`: level `info`, prefix
    /// `mdc`, console output on. (By default the folder is the one of the
    /// executable, which the caller finds.)
    pub fn defaults_in(log_dir: String) -> (r: Self)
        ensures
            r.level@ == "info"@,
            r.log_dir == log_dir,
            r.file_prefix@ == "mdc"@,
            r.console,
    {
        LogConfig {
            level: copy_str("info"),
            log_dir,
            file_prefix: copy_str("mdc"),
            console: true,
        }
    }

    /// The settings of the command line tool: `debug` or `info`, in the given
    /// folder or else in `default_dir`.
    pub fn for_cli(debug: bool, log_dir: Option<String>, default_dir: String) -> (r: Self)
        ensures
            r.level@ == (if debug { "debug"@ } else { "info"@ }),
            r.log_dir == (match log_dir {
                Some(d) => d,
                None => default_dir,
            }),
            r.file_prefix@ == "mdc"@,
            r.console,
    {
        let dir = match log_dir {
            Some(d) => d,
            None => default_dir,
        };
        let mut c = LogConfig::defaults_in(dir);
        c.level = if debug { copy_str("debug") } else { copy_str("info") };
        c
    }

    /// The settings of the server: as for the command line tool, with the
    /// prefix `mdc-server`.
    pub fn for_server(debug: bool, log_dir: Option<String>, default_dir: String) -> (r: Self)
        ensures
            r.level@ == (if debug { "debug"@ } else { "info"@ }),
            r.log_dir == (match log_dir {
                Some(d) => d,
                None => default_dir,
            }),
            r.file_prefix@ == "mdc-server"@,
            r.console,
    {
        let mut c = LogConfig::for_cli(debug, log_dir, default_dir);
        c.file_prefix = copy_str("mdc-server");
        c
    }
}

} // verus!
