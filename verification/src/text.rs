//! Building owned strings whose contents are known to the verifier.

use vstd::prelude::*;
use vstd::string::*;

verus! {

/// `prefix`, `middle` and `suffix` joined into one owned string.
pub fn join3(prefix: &str, middle: &str, suffix: &str) -> (joined: String)
    ensures
        joined@ == prefix@ + middle@ + suffix@,
{
    let mut joined = String::from_str(prefix);
    joined.append(middle);
    joined.append(suffix);
    joined
}

/// `prefix` and `suffix` joined into one owned string.
pub fn join2(prefix: &str, suffix: &str) -> (joined: String)
    ensures
        joined@ == prefix@ + suffix@,
{
    let mut joined = String::from_str(prefix);
    joined.append(suffix);
    joined
}

} // verus!
