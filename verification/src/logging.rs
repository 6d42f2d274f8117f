//! Logging configuration.
//!
//! The subscriber itself is installed by the surrounding binary; this module
//! fixes the configuration values and the filter directive it is built
//! from.

use vstd::prelude::*;
use vstd::string::StringExecFns;

verus! {

broadcast use vstd::string::group_string_axioms;

/// Logging configuration of one component.
#[derive(Debug)]
pub struct LogConfig {
    /// Log directory path.
    pub log_dir: String,
    /// Component name, used for log file naming.
    pub component: String,
    /// Default log level name.
    pub default_level: String,
    /// Mirror log lines to the console.
    pub console: bool,
    /// Write log files.
    pub file: bool,
    /// Use JSON formatting for file logs.
    pub json_format: bool,
}

impl Clone for LogConfig {
    /// An exact copy.
    fn clone(&self) -> (r: Self)
        ensures
            r.log_dir@ == self.log_dir@,
            r.component@ == self.component@,
            r.default_level@ == self.default_level@,
            r.console == self.console,
            r.file == self.file,
            r.json_format == self.json_format,
    {
        LogConfig {
            log_dir: self.log_dir.clone(),
            component: self.component.clone(),
            default_level: self.default_level.clone(),
            console: self.console,
            file: self.file,
            json_format: self.json_format,
        }
    }
}

impl Default for LogConfig {
    /// Logs under `data/logs` for the default component, console and file
    /// output at level `info`, human-readable files.
    fn default() -> (r: Self)
        ensures
            r.log_dir@ == "data/logs"@,
            r.component@ == "gda2025"@,
            r.default_level@ == "info"@,
            r.console,
            r.file,
            !r.json_format,
    {
        LogConfig {
            log_dir: <String as StringExecFns>::from_str("data/logs"),
            component: <String as StringExecFns>::from_str("gda2025"),
            default_level: <String as StringExecFns>::from_str("info"),
            console: true,
            file: true,
            json_format: false,
        }
    }
}

/// The logging configuration used when nothing is specified.
pub fn init_default() -> (r: LogConfig)
    ensures
        r.log_dir@ == "data/logs"@,
        r.component@ == "gda2025"@,
        r.default_level@ == "info"@,
        r.console,
        r.file,
        !r.json_format,
{
    LogConfig::default()
}

/// The logging configuration of one component, otherwise the defaults.
pub fn init_for_component(component: &str, log_dir: &str) -> (r: LogConfig)
    ensures
        r.log_dir@ == log_dir@,
        r.component@ == component@,
        r.default_level@ == "info"@,
        r.console,
        r.file,
        !r.json_format,
{
    let mut config = LogConfig::default();
    config.component = <String as StringExecFns>::from_str(component);
    config.log_dir = <String as StringExecFns>::from_str(log_dir);
    config
}

/// The environment filter directive the subscriber is built from: the
/// component, the shared crates and the scraper at the configured level,
/// with the noisy HTTP internals capped at `warn`.
pub fn env_filter_directive(component: &str, level: &str) -> (r: String)
    ensures
        r@ == component@ + "="@ + level@ + ",shared="@ + level@ + ",mal_scraper="@ + level@
            + ",hyper=warn,reqwest=warn,h2=warn"@,
{
    let mut s = <String as StringExecFns>::from_str(component);
    s.append("=");
    s.append(level);
    s.append(",shared=");
    s.append(level);
    s.append(",mal_scraper=");
    s.append(level);
    s.append(",hyper=warn,reqwest=warn,h2=warn");
    proof {
        assert(s@ =~= component@ + "="@ + level@ + ",shared="@ + level@ + ",mal_scraper="@ + level@
            + ",hyper=warn,reqwest=warn,h2=warn"@);
    }
    s
}

} // verus!
