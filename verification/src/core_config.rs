//! The partial configuration required for early service setup.
//!
//! Loading and layering configuration sources is I/O and stays with the
//! caller; this is the validated value it produces, and the rule for which
//! per-stage file it is read from.

use vstd::prelude::*;
use vstd::string::StringExecFns;

verus! {

pub const DEFAULT_CONFIG_FILE: &'static str = "server_config.json";

pub const DEFAULT_DEV_CONFIG_FILE: &'static str = "server_config.dev.json";

pub const DEFAULT_LOCAL_CONFIG_FILE: &'static str = "temp/server_config.json";

/// Partial configuration required for early setup.
#[derive(Clone, Debug, PartialEq, Eq)]
pub struct CoreConfig {
    pub stage: String,
    pub version: String,
    pub layers: Vec<String>,
}

/// The per-stage configuration file name: `server_config.<stage>.json`.
pub fn stage_config_file(stage: &str) -> (r: String)
    ensures
        r@ == "server_config."@ + stage@ + ".json"@,
{
    let mut name = String::from_str("server_config.");
    name.append(stage);
    name.append(".json");
    proof {
        assert(name@ =~= "server_config."@ + stage@ + ".json"@);
    }
    name
}

} // verus!
