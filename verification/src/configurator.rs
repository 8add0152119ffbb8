//! The older configuration entry point, kept for compatibility: it ignores
//! its tokens and yields the empty configuration.

use crate::config::Config;
use vstd::prelude::*;
use vstd::string::StringExecFns;

verus! {

broadcast use vstd::string::group_string_axioms;

/// Yields the empty configuration, whatever tokens it is handed.
pub fn get_config(_input: Option<&Vec<String>>) -> (c: Config)
    ensures
        c.source@ == Seq::<char>::empty(),
        c.destination@ == Seq::<char>::empty(),
        c.logfile is None,
        c.dry_run == false,
        c.copy == false,
{
    proof {
        reveal_strlit("");
        assert(("")@ =~= Seq::<char>::empty());
    }
    Config {
        source: String::from_str(""),
        destination: String::from_str(""),
        logfile: None,
        dry_run: false,
        copy: false,
    }
}

} // verus!
