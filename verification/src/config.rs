//! Startup configuration: the API credential, the ordered list of city ids to
//! poll, and where and how partition files are written.
use vstd::prelude::*;

verus! {

/// Command-line input: the path of the configuration file to load.
pub struct Cli {
    pub config_file: String,
}

/// Output settings: base directory, field delimiter and file extension of the
/// partition files.
pub struct Output {
    pub directory: String,
    pub delimiter: char,
    pub extension: String,
}

/// The configuration consumed once at startup: credential, working set of
/// city ids, and output settings.
pub struct Config {
    pub api_key: String,
    pub city_ids: Vec<u32>,
    pub output: Output,
}

/// The delimiter used when the configuration file does not override it.
pub fn default_delimiter() -> (c: char)
    ensures
        c == ',',
{
    ','
}

/// The partition-file extension used when the configuration file does not
/// override it.
pub fn default_extension() -> (s: String)
    ensures
        s@ == "csv"@,
{
    String::from_str("csv")
}

} // verus!
