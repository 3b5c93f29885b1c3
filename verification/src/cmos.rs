use vstd::prelude::*;

verus! {

/// The CMOS memory and real-time clock chip; it keeps no state yet.
#[derive(Clone)]
pub struct CMOS {}

impl CMOS {
    pub fn default() -> (r: Self) {
        CMOS {}
    }
}

} // verus!
