//! Where the editor keeps its files: fixed names, and the rule that a
//! portable directory beside the executable overrides the platform one.
use vstd::prelude::*;

verus! {

/// Name of the configuration file.
pub const CONFIG_FILE_NAME: &'static str = "config.toml";

/// Identifier the application registers under.
pub const APPLICATION_ID: &'static str = "org.crhowell3.tsu";

/// Where releases are published.
pub const RELEASE_WEBSITE: &'static str = "https://github.com/crhowell3/tsu/releases/latest";

/// Where the source lives.
pub const SOURCE_WEBSITE: &'static str = "https://github.com/crhowell3/tsu/";

/// The configuration directory: the portable directory beside the
/// executable when one holds a configuration file, else the platform's
/// configuration directory.
pub fn config_dir(portable: Option<String>, platform: String) -> (r: String)
    ensures
        match portable {
            Some(p) => r == p,
            None => r == platform,
        },
{
    match portable {
        Some(p) => p,
        None => platform,
    }
}

/// The data directory follows the same portable override.
pub fn data_dir(portable: Option<String>, platform: String) -> (r: String)
    ensures
        match portable {
            Some(p) => r == p,
            None => r == platform,
        },
{
    match portable {
        Some(p) => p,
        None => platform,
    }
}

} // verus!
