use vstd::prelude::*;

use crate::logger::LevelFilter;

verus! {

/// Command-line options of the gateway process: the configuration file to
/// read, the port to serve on, and how verbose the logging should be.
///
/// Argument parsing itself happens outside the library; the parsed values are
/// handed over in this plain form.
pub struct Cmd {
    /// Path to the configuration file (.json).
    pub config_path: String,
    /// Port to serve on.
    pub port: u16,
    /// Level of verbosity.
    pub verbosity: LevelFilter,
}

} // verus!
