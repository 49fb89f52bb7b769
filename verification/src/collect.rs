//! Arguments of the artifact-collection tool.

use vstd::prelude::*;

verus! {

/// The machines to collect built artifacts from, one sync per machine.
pub struct Args {
    pub machines: Vec<String>,
}

} // verus!
