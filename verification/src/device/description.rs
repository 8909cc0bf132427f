use vstd::prelude::*;

use super::DeviceDescription;

verus! {

/// The temperature and humidity monitor of the lounge.
#[derive(Clone, Copy, Debug)]
pub struct LoungeTempMonitor;

impl DeviceDescription for LoungeTempMonitor {
    open spec fn spec_name() -> Seq<char> {
        "Lounge Mi Temperature and Humidity Monitor 2"@
    }

    fn name() -> (name: &'static str) {
        "Lounge Mi Temperature and Humidity Monitor 2"
    }
}

} // verus!
