//! Names of the PLLs and their outputs, and the reasons for which a clock
//! plan is refused.

use vstd::prelude::*;

verus! {

/// One of the three PLLs of the clock unit.
#[derive(Clone, Copy, Debug, PartialEq, Eq, Structural)]
pub enum PllId {
    Pll1,
    Pll2,
    Pll3,
}

/// One of the three divided outputs of a PLL.
#[derive(Clone, Copy, Debug, PartialEq, Eq, Structural)]
pub enum PllTap {
    P,
    Q,
    R,
}

/// Why a clock plan was refused.
#[derive(Clone, Copy, Debug, PartialEq, Eq, Structural)]
pub enum ClockError {
    /// The external oscillator frequency is outside what the pads accept.
    HseOutOfRange,
    /// A PLL takes its input from an oscillator that the plan leaves off.
    PllSourceOff(PllId),
    /// The PLL input divider is outside `1..=62`.
    PllPredivOutOfRange(PllId),
    /// The PLL multiplier is outside `4..=512`.
    PllMulOutOfRange(PllId),
    /// An output divider of the PLL is outside `1..=128`.
    PllDivOutOfRange(PllId, PllTap),
    /// The divided input of the PLL is outside 1 MHz to 16 MHz.
    PllInputOutOfRange(PllId),
    /// The oscillator inside the PLL would run outside its locking range.
    PllVcoOutOfRange(PllId),
    /// The P divider of PLL1 is odd.
    Pll1OddDivp,
    /// An output of the PLL is faster than the voltage scale supports.
    PllOutputTooFast(PllId, PllTap),
    /// The system clock is taken from a source that the plan leaves off.
    SysclkSourceOff,
    /// The system clock is faster than the voltage scale supports.
    SysclkTooFast,
    /// The converter kernel clock is taken from a source that the plan leaves off.
    KernelClockSourceOff,
    /// The clock unit has been programmed since the last reset.
    AlreadyConfigured,
}

} // verus!
