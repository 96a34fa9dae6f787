//! The valve that switches the instrument between the atmosphere line and the
//! vacuum line.

use vstd::prelude::*;

verus! {

#[derive(Clone, Copy, Debug, PartialEq, Eq, Structural)]
pub enum KlapanState {
    Atmosphere,
    Vacuum,
}

/// Level of the pin that drives the valve.
#[derive(Clone, Copy, Debug, PartialEq, Eq, Structural)]
pub enum PinLevel {
    Low,
    High,
}

impl KlapanState {
    /// The pin is low for the atmosphere line and high for the vacuum line.
    pub open spec fn level(self) -> PinLevel {
        match self {
            KlapanState::Atmosphere => PinLevel::Low,
            KlapanState::Vacuum => PinLevel::High,
        }
    }
}

/// The valve, holding the pin that the host drives.
pub struct Klapan<PIN> {
    pub pin: PIN,
}

impl<PIN> Klapan<PIN> {
    pub fn new(pin: PIN) -> (klapan: Self)
        ensures
            klapan.pin == pin,
    {
        Self { pin }
    }

    /// The level that the pin must take for the valve to be in `state`. The
    /// pin itself is left as it is: the host drives it.
    pub fn set_state(&mut self, state: KlapanState) -> (level: PinLevel)
        ensures
            level == state.level(),
            final(self).pin == old(self).pin,
    {
        match state {
            KlapanState::Atmosphere => PinLevel::Low,
            KlapanState::Vacuum => PinLevel::High,
        }
    }
}

} // verus!
