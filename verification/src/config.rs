//! Defaults for the configuration loader.
//!
//! The front-end reads the initial body set from a configuration file; when
//! no file is named on the command line this default path is used.

use vstd::prelude::*;
use vstd::string::StringExecFns;

verus! {

/// The configuration file read when none is named on the command line.
pub fn default_config_file() -> (r: String)
    ensures
        r@ == "examples/round_4.toml"@,
{
    String::from_str("examples/round_4.toml")
}

} // verus!
