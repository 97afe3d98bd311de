//! Bus prescalers and the voltage scale.

use vstd::prelude::*;

verus! {

/// Divider between the system clock and the AHB bus clock.
#[derive(Clone, Copy, Debug, PartialEq, Eq, Structural)]
pub enum AhbPrescaler {
    Div1,
    Div2,
    Div4,
    Div8,
    Div16,
    Div64,
    Div128,
    Div256,
    Div512,
}

impl AhbPrescaler {
    pub open spec fn spec_divisor(self) -> u32 {
        match self {
            AhbPrescaler::Div1 => 1,
            AhbPrescaler::Div2 => 2,
            AhbPrescaler::Div4 => 4,
            AhbPrescaler::Div8 => 8,
            AhbPrescaler::Div16 => 16,
            AhbPrescaler::Div64 => 64,
            AhbPrescaler::Div128 => 128,
            AhbPrescaler::Div256 => 256,
            AhbPrescaler::Div512 => 512,
        }
    }

    /// The number the system clock is divided by.
    #[verifier::when_used_as_spec(spec_divisor)]
    pub fn divisor(self) -> (d: u32)
        ensures
            d == self.spec_divisor(),
    {
        match self {
            AhbPrescaler::Div1 => 1,
            AhbPrescaler::Div2 => 2,
            AhbPrescaler::Div4 => 4,
            AhbPrescaler::Div8 => 8,
            AhbPrescaler::Div16 => 16,
            AhbPrescaler::Div64 => 64,
            AhbPrescaler::Div128 => 128,
            AhbPrescaler::Div256 => 256,
            AhbPrescaler::Div512 => 512,
        }
    }
}

/// Divider between the AHB bus clock and one of the APB bus clocks.
#[derive(Clone, Copy, Debug, PartialEq, Eq, Structural)]
pub enum ApbPrescaler {
    Div1,
    Div2,
    Div4,
    Div8,
    Div16,
}

impl ApbPrescaler {
    pub open spec fn spec_divisor(self) -> u32 {
        match self {
            ApbPrescaler::Div1 => 1,
            ApbPrescaler::Div2 => 2,
            ApbPrescaler::Div4 => 4,
            ApbPrescaler::Div8 => 8,
            ApbPrescaler::Div16 => 16,
        }
    }

    /// The number the AHB clock is divided by.
    #[verifier::when_used_as_spec(spec_divisor)]
    pub fn divisor(self) -> (d: u32)
        ensures
            d == self.spec_divisor(),
    {
        match self {
            ApbPrescaler::Div1 => 1,
            ApbPrescaler::Div2 => 2,
            ApbPrescaler::Div4 => 4,
            ApbPrescaler::Div8 => 8,
            ApbPrescaler::Div16 => 16,
        }
    }
}

/// Core voltage level. A lower scale number is a higher voltage and allows
/// faster clocks.
#[derive(Clone, Copy, Debug, PartialEq, Eq, Structural)]
pub enum VoltageScale {
    Scale0,
    Scale1,
    Scale2,
    Scale3,
}

impl VoltageScale {
    pub open spec fn spec_max_hz(self) -> u32 {
        match self {
            VoltageScale::Scale0 => 250_000_000,
            VoltageScale::Scale1 => 200_000_000,
            VoltageScale::Scale2 => 150_000_000,
            VoltageScale::Scale3 => 100_000_000,
        }
    }

    /// The highest frequency, in hertz, that the system clock, a bus clock
    /// or a PLL output may have at this voltage.
    #[verifier::when_used_as_spec(spec_max_hz)]
    pub fn max_hz(self) -> (hz: u32)
        ensures
            hz == self.spec_max_hz(),
    {
        match self {
            VoltageScale::Scale0 => 250_000_000,
            VoltageScale::Scale1 => 200_000_000,
            VoltageScale::Scale2 => 150_000_000,
            VoltageScale::Scale3 => 100_000_000,
        }
    }
}

} // verus!
