//! Settings shared by the drivers.
use vstd::prelude::*;

verus! {

/// Which waveform (look-up table) set a refresh uses.
#[derive(Clone, Copy, Debug, PartialEq, Eq, Structural)]
pub enum RefreshLut {
    /// Full refresh: global clear waveform, best quality.
    Full,
    /// Quick refresh: differential update waveform, faster but with ghosting.
    Quick,
}

impl Default for RefreshLut {
    fn default() -> (r: RefreshLut)
        ensures
            r == RefreshLut::Full,
    {
        RefreshLut::Full
    }
}

} // verus!
