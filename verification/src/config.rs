use vstd::prelude::*;

verus! {

/// Settings of the desktop shell.
#[derive(Debug)]
pub struct DesktopConfig {
    pub api_base: String,
}

} // verus!
