//! The external agent tool as a profile uses it.

use vstd::prelude::*;
use vstd::string::*;

verus! {

/// The tool of a profile: where it is found, and the tool profile it runs
/// under.
#[derive(Debug)]
pub struct Openclaw {
    pub bin: String,
    pub profile: String,
}

/// The tool of a profile, from its two parts.
pub fn resolve(bin: String, profile: String) -> (r: Openclaw)
    ensures
        r.bin@ == bin@,
        r.profile@ == profile@,
{
    Openclaw { bin, profile }
}

/// The arguments that stand before every command of the tool: they name
/// the tool profile.
pub fn prefix_args(oc: &Openclaw) -> (r: Vec<String>)
    ensures
        r@.len() == 2,
        r@[0]@ == "--profile"@,
        r@[1]@ == oc.profile@,
{
    let mut args: Vec<String> = Vec::new();
    args.push(String::from_str("--profile"));
    args.push(oc.profile.clone());
    args
}

} // verus!
