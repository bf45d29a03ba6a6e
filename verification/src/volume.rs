//! The shared volume setting.
//!
//! The volume is a scalar in the closed unit interval, written by the UI at
//! any time and read periodically by the volume synchronizer; staleness of a
//! poll interval is acceptable (last write wins). The engine stores it in
//! thousandths, so that the whole range is exact machine arithmetic; the
//! boundary that talks to an audio device converts to whatever scale the
//! device wants.

use vstd::prelude::*;

verus! {

/// One whole unit of gain, in thousandths: a `Volume` ranges over
/// `0 ..= VOLUME_UNIT` and stands for `units / VOLUME_UNIT` of full gain.
pub const VOLUME_UNIT: u32 = 1000;

/// An output gain in `[0, 1]`, held in thousandths of full gain.
#[derive(Clone, Copy, Debug, PartialEq, Eq, Structural)]
pub struct Volume {
    units: u32,
}

impl Volume {
    /// The gain in thousandths, for specifications.
    pub closed spec fn spec_units(self) -> u32 {
        self.units
    }

    /// A volume is within the unit interval.
    pub open spec fn wf(self) -> bool {
        self.spec_units() <= VOLUME_UNIT
    }

    /// Builds a volume from thousandths of full gain.
    pub fn new(units: u32) -> (v: Volume)
        requires
            units <= VOLUME_UNIT,
        ensures
            v.wf(),
            v.spec_units() == units,
    {
        Volume { units }
    }

    /// Full gain: the setting a fresh controller starts with.
    pub fn full() -> (v: Volume)
        ensures
            v.wf(),
            v.spec_units() == VOLUME_UNIT,
    {
        Volume { units: VOLUME_UNIT }
    }

    /// The gain in thousandths.
    pub fn units(&self) -> (u: u32)
        ensures
            u == self.spec_units(),
    {
        self.units
    }
}

} // verus!
