use vstd::prelude::*;

use crate::bindings::opt_str_view;
use crate::config::LoggingConfig;
use crate::runtime_config::clone_opt_string;
use crate::text::owned;

verus! {

/// Whether logging was started, and the file it writes to.
#[derive(Debug, Clone, PartialEq, Eq)]
pub struct LoggingState {
    pub initialized: bool,
    pub current_file: Option<String>,
}

/// How log files are named.
#[derive(Debug, Clone, Copy, PartialEq, Eq, Structural)]
pub enum LogFileLayout {
    PrefixedDate,
}

/// The options the logger is started with.
#[derive(Debug, Clone, PartialEq, Eq)]
pub struct LoggingOptions {
    pub dir: Option<String>,
    pub file_name: String,
    pub stdout: bool,
    pub default_level: Option<String>,
    pub file_layout: LogFileLayout,
}

/// The logger options for the logging settings: the command line tool's log file, dated.
pub fn to_radroots_logging_options(config: &LoggingConfig) -> (r: LoggingOptions)
    ensures
        opt_str_view(r.dir) == opt_str_view(config.directory),
        r.file_name@ == "radroots-cli.log"@,
        r.stdout == config.stdout,
        opt_str_view(r.default_level) == Some(config.filter@),
        r.file_layout == LogFileLayout::PrefixedDate,
{
    LoggingOptions {
        dir: clone_opt_string(&config.directory),
        file_name: owned("radroots-cli.log"),
        stdout: config.stdout,
        default_level: Some(config.filter.clone()),
        file_layout: LogFileLayout::PrefixedDate,
    }
}

} // verus!
