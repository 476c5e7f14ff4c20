//! What is logged where, as the settings ask for it.

use crate::config::Config;
use crate::text::concat2;
use vstd::prelude::*;
use vstd::string::*;

verus! {

/// How one destination of the log writes its lines.
#[derive(Clone, Copy, Debug, PartialEq, Eq, Structural)]
pub struct LayerPlan {
    /// Whether the lines are coloured.
    pub ansi: bool,
    /// Whether a line names the source file.
    pub file: bool,
    /// Whether a line names its level.
    pub level: bool,
    /// Whether a line names the line of the source file.
    pub line_number: bool,
    /// Whether a line names its target.
    pub target: bool,
    /// Whether an entry is spread over several lines; else it is kept on
    /// one.
    pub pretty: bool,
}

/// The log files.
#[derive(Debug, PartialEq)]
pub struct FilePlan {
    /// How the lines are written.
    pub layer: LayerPlan,
    /// The directory of the files. A new file is begun every hour.
    pub dir: String,
    /// What the name of each file begins with.
    pub prefix: String,
}

/// What is logged where.
#[derive(Debug, PartialEq)]
pub struct TracingPlan {
    /// Whether this crate's own entries are kept from debug level on.
    /// Entries of all others are kept from info level on.
    pub crate_debug: bool,
    /// How the console is written.
    pub console: LayerPlan,
    /// The log files, where they are kept.
    pub files: Option<FilePlan>,
}

/// How a destination is written: files without colour and on one line, the
/// console with colour and spread out; source file and line only in debug
/// mode.
pub open spec fn layer_plan(to_console: bool, debug: bool) -> LayerPlan {
    LayerPlan {
        ansi: to_console,
        file: debug,
        level: true,
        line_number: debug,
        target: true,
        pretty: to_console,
    }
}

/// Lays out the logging for these settings and the crate of this name.
pub fn install_tracing(config: &Config, crate_name: &str) -> (plan: TracingPlan)
    ensures
        plan.crate_debug == config.logging().console_debug,
        plan.console == layer_plan(true, config.logging().console_debug),
        plan.files is Some == config.logging().logs_enabled,
        plan.files matches Some(files) ==> files.layer == layer_plan(
            false,
            config.logging().console_debug,
        ) && files.dir@ == config.logging().log_dir@ && files.prefix@ == crate_name@ + ".log"@,
{
    let debug = config.console_debug();
    let console = LayerPlan {
        ansi: true,
        file: debug,
        level: true,
        line_number: debug,
        target: true,
        pretty: true,
    };
    let files = if config.logs_enabled() {
        Some(
            FilePlan {
                layer: LayerPlan {
                    ansi: false,
                    file: debug,
                    level: true,
                    line_number: debug,
                    target: true,
                    pretty: false,
                },
                dir: config.log_dir().to_owned(),
                prefix: concat2(crate_name, ".log"),
            },
        )
    } else {
        None
    };
    TracingPlan { crate_debug: debug, console, files }
}

} // verus!
