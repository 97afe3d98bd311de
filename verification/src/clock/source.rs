//! The oscillators and the selectors that choose among them.

use vstd::prelude::*;

verus! {

/// Frequency of the high-speed internal oscillator, in hertz.
pub const HSI_HZ: u32 = 64_000_000;

/// Frequency of the low-power internal oscillator, in hertz.
pub const CSI_HZ: u32 = 4_000_000;

/// Lowest frequency accepted from the external oscillator, in hertz.
pub const HSE_MIN_HZ: u32 = 4_000_000;

/// Highest frequency accepted from the external oscillator, in hertz.
pub const HSE_MAX_HZ: u32 = 50_000_000;

/// Divider between the high-speed internal oscillator and the clock tree.
#[derive(Clone, Copy, Debug, PartialEq, Eq, Structural)]
pub enum HsiPrescaler {
    Div1,
    Div2,
    Div4,
    Div8,
}

impl HsiPrescaler {
    pub open spec fn spec_divisor(self) -> u32 {
        match self {
            HsiPrescaler::Div1 => 1,
            HsiPrescaler::Div2 => 2,
            HsiPrescaler::Div4 => 4,
            HsiPrescaler::Div8 => 8,
        }
    }

    /// The number the oscillator frequency is divided by.
    #[verifier::when_used_as_spec(spec_divisor)]
    pub fn divisor(self) -> (d: u32)
        ensures
            d == self.spec_divisor(),
    {
        match self {
            HsiPrescaler::Div1 => 1,
            HsiPrescaler::Div2 => 2,
            HsiPrescaler::Div4 => 4,
            HsiPrescaler::Div8 => 8,
        }
    }
}

/// How the external oscillator pads are driven.
#[derive(Clone, Copy, Debug, PartialEq, Eq, Structural)]
pub enum HseMode {
    /// A crystal or ceramic resonator across the pads.
    Oscillator,
    /// An external low-swing analog clock.
    Bypass,
    /// An external full-swing digital clock.
    BypassDigital,
}

/// The external high-speed oscillator.
#[derive(Clone, Copy, Debug, PartialEq, Eq, Structural)]
pub struct Hse {
    /// Frequency in hertz.
    pub freq: u32,
    pub mode: HseMode,
}

impl Hse {
    /// The frequency is one the pads accept.
    pub open spec fn spec_in_range(&self) -> bool {
        HSE_MIN_HZ <= self.freq <= HSE_MAX_HZ
    }

    /// Tells whether the frequency is one the pads accept.
    #[verifier::when_used_as_spec(spec_in_range)]
    pub fn in_range(&self) -> (ok: bool)
        ensures
            ok == self.spec_in_range(),
    {
        HSE_MIN_HZ <= self.freq && self.freq <= HSE_MAX_HZ
    }
}

/// An oscillator that can feed a PLL.
#[derive(Clone, Copy, Debug, PartialEq, Eq, Structural)]
pub enum PllSource {
    Hsi,
    Csi,
    Hse,
}

/// Where the system clock is taken from.
#[derive(Clone, Copy, Debug, PartialEq, Eq, Structural)]
pub enum Sysclk {
    Hsi,
    Csi,
    Hse,
    Pll1P,
}

/// Where the kernel clock of the analog converters is taken from.
#[derive(Clone, Copy, Debug, PartialEq, Eq, Structural)]
pub enum KernelClock {
    Hclk,
    Sys,
    Pll2R,
    Hse,
    Hsi,
    Csi,
}

} // verus!
