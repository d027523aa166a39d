use vstd::prelude::*;

verus! {

/// Whether and where to warn when a canister's cycles fall below a threshold.
#[derive(Clone, Debug)]
pub struct NotifyCycles {
    pub is_enabled: bool,
    pub email: String,
    pub threshold: u32,
}

/// Whether and where to warn when a run fails.
#[derive(Clone, Debug)]
pub struct NotifyError {
    pub is_enabled: bool,
    pub email: String,
}

} // verus!
