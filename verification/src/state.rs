use vstd::prelude::*;

verus! {

/// What a probe of the sync endpoint found.
#[derive(Debug)]
pub struct DesktopState {
    pub endpoint: String,
    pub connected: bool,
}

} // verus!
