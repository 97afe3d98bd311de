//! One PLL: its settings, the rules they have to keep, and the frequencies
//! they give.

use vstd::prelude::*;
use crate::clock::bus::VoltageScale;
use crate::clock::error::{ClockError, PllId, PllTap};
use crate::clock::source::PllSource;

verus! {

/// Largest input divider of a PLL.
pub const PLL_PREDIV_MAX: u8 = 62;

/// Smallest multiplier of a PLL.
pub const PLL_MUL_MIN: u16 = 4;

/// Largest multiplier of a PLL.
pub const PLL_MUL_MAX: u16 = 512;

/// Largest output divider of a PLL.
pub const PLL_DIV_MAX: u8 = 128;

/// Lowest divided input frequency a PLL locks on, in hertz.
pub const PLL_REF_MIN_HZ: u32 = 1_000_000;

/// Highest divided input frequency a PLL locks on, in hertz.
pub const PLL_REF_MAX_HZ: u32 = 16_000_000;

/// Lowest divided input frequency with which the wide oscillator range may
/// be selected, in hertz.
pub const PLL_REF_WIDE_MIN_HZ: u32 = 2_000_000;

/// Lower bound of the medium oscillator range, in hertz.
pub const VCO_MEDIUM_MIN_HZ: u32 = 150_000_000;

/// Upper bound of the medium oscillator range, in hertz.
pub const VCO_MEDIUM_MAX_HZ: u32 = 420_000_000;

/// Lower bound of the wide oscillator range, in hertz.
pub const VCO_WIDE_MIN_HZ: u32 = 128_000_000;

/// Upper bound of the wide oscillator range, in hertz.
pub const VCO_WIDE_MAX_HZ: u32 = 560_000_000;

/// Band of the divided input frequency, as the PLL has to be told.
#[derive(Clone, Copy, Debug, PartialEq, Eq, Structural)]
pub enum PllInputRange {
    /// 1 MHz up to 2 MHz.
    Range1,
    /// 2 MHz up to 4 MHz.
    Range2,
    /// 4 MHz up to 8 MHz.
    Range4,
    /// 8 MHz up to 16 MHz.
    Range8,
}

/// Range the oscillator inside the PLL is set to.
#[derive(Clone, Copy, Debug, PartialEq, Eq, Structural)]
pub enum VcoRange {
    Medium,
    Wide,
}

/// Requested settings of one PLL. The frequency of an output is
/// `input / prediv * mul / div`, each division rounding down.
#[derive(Clone, Copy, Debug, PartialEq, Eq)]
pub struct Pll {
    /// Oscillator the PLL is fed from.
    pub source: PllSource,
    /// Input divider, `1..=62`.
    pub prediv: u8,
    /// Multiplier, `4..=512`.
    pub mul: u16,
    /// Divider of the P output, `1..=128`; `None` leaves the output off.
    pub divp: Option<u8>,
    /// Divider of the Q output, `1..=128`; `None` leaves the output off.
    pub divq: Option<u8>,
    /// Divider of the R output, `1..=128`; `None` leaves the output off.
    pub divr: Option<u8>,
}

/// What a PLL produces once it has locked. Frequencies are in hertz.
#[derive(Clone, Copy, Debug, PartialEq, Eq)]
pub struct PllClocks {
    /// Input frequency after the input divider.
    pub reference: u32,
    pub input_range: PllInputRange,
    /// Frequency of the oscillator inside the PLL.
    pub vco: u32,
    pub vco_range: VcoRange,
    pub p: Option<u32>,
    pub q: Option<u32>,
    pub r: Option<u32>,
}

/// The dividers and the multiplier of a PLL as its registers hold them:
/// the input divider as it is, the multiplier and each output divider less
/// one.
#[derive(Clone, Copy, Debug, PartialEq, Eq)]
pub struct PllFields {
    pub divm: u8,
    pub divn: u16,
    pub divp: Option<u8>,
    pub divq: Option<u8>,
    pub divr: Option<u8>,
}

/// The band a divided input frequency falls in.
pub open spec fn input_range_of(reference: int) -> PllInputRange {
    if reference < PLL_REF_WIDE_MIN_HZ {
        PllInputRange::Range1
    } else if reference < 4_000_000 {
        PllInputRange::Range2
    } else if reference < 8_000_000 {
        PllInputRange::Range4
    } else {
        PllInputRange::Range8
    }
}

/// The oscillator range to select for a divided input frequency and an
/// oscillator frequency, if there is one. The medium range is preferred; the
/// wide range is open only to inputs of 2 MHz and more.
pub open spec fn vco_range_of(reference: int, vco: int) -> Option<VcoRange> {
    if VCO_MEDIUM_MIN_HZ <= vco <= VCO_MEDIUM_MAX_HZ {
        Some(VcoRange::Medium)
    } else if reference >= PLL_REF_WIDE_MIN_HZ && VCO_WIDE_MIN_HZ <= vco <= VCO_WIDE_MAX_HZ {
        Some(VcoRange::Wide)
    } else {
        None
    }
}

/// An output divider is off or within `1..=128`.
pub open spec fn div_in_range(div: Option<u8>) -> bool {
    div matches Some(d) ==> 1 <= d <= PLL_DIV_MAX
}

/// An output divider as its register field holds it.
pub open spec fn div_field(div: Option<u8>) -> Option<u8> {
    match div {
        Some(d) => Some((d - 1) as u8),
        None => None,
    }
}

/// Frequency of an output: the oscillator frequency over the divider.
pub open spec fn tap_hz(vco: int, div: Option<u8>) -> Option<int> {
    match div {
        Some(d) => Some(vco / (d as int)),
        None => None,
    }
}

/// A frequency as it is stored.
pub open spec fn stored_hz(hz: Option<int>) -> Option<u32> {
    match hz {
        Some(f) => Some(f as u32),
        None => None,
    }
}

/// A stored frequency and a computed one are both absent or are the same
/// number.
pub open spec fn same_hz(stored: Option<u32>, hz: Option<int>) -> bool {
    match (stored, hz) {
        (Some(a), Some(b)) => a == b,
        (None, None) => true,
        _ => false,
    }
}

/// An output is on and faster than `max`.
pub open spec fn over(hz: Option<u32>, max: u32) -> bool {
    hz matches Some(f) && f > max
}

impl Pll {
    /// The divider of the given output.
    pub open spec fn div(self, tap: PllTap) -> Option<u8> {
        match tap {
            PllTap::P => self.divp,
            PllTap::Q => self.divq,
            PllTap::R => self.divr,
        }
    }

    /// Frequency after the input divider.
    pub open spec fn ref_hz(self, input: int) -> int {
        input / (self.prediv as int)
    }

    /// Frequency of the oscillator inside the PLL.
    pub open spec fn vco_hz(self, input: int) -> int {
        self.ref_hz(input) * (self.mul as int)
    }

    /// Frequency of the given output, if it is on.
    pub open spec fn out_hz(self, tap: PllTap, input: int) -> Option<int> {
        tap_hz(self.vco_hz(input), self.div(tap))
    }

    /// The input divider is within `1..=62`.
    pub open spec fn prediv_in_range(self) -> bool {
        1 <= self.prediv <= PLL_PREDIV_MAX
    }

    /// The multiplier is within `4..=512`.
    pub open spec fn mul_in_range(self) -> bool {
        PLL_MUL_MIN <= self.mul <= PLL_MUL_MAX
    }

    /// Every divider and the multiplier is within its range.
    pub open spec fn fits(self) -> bool {
        &&& self.prediv_in_range()
        &&& self.mul_in_range()
        &&& div_in_range(self.divp)
        &&& div_in_range(self.divq)
        &&& div_in_range(self.divr)
    }

    /// The divided input is between 1 MHz and 16 MHz.
    pub open spec fn input_in_range(self, input: int) -> bool {
        PLL_REF_MIN_HZ <= self.ref_hz(input) <= PLL_REF_MAX_HZ
    }

    /// On PLL1 the P divider, where the output is on, is even.
    pub open spec fn divp_allowed(self, id: PllId) -> bool {
        id == PllId::Pll1 ==> (self.divp matches Some(d) ==> d % 2 == 0)
    }

    /// The settings can be programmed as PLL `id`, fed with `input` hertz
    /// (`None`: the source oscillator is off), and the PLL locks on them.
    pub open spec fn valid(self, id: PllId, input: Option<u32>) -> bool {
        &&& input matches Some(f)
        &&& self.fits()
        &&& self.input_in_range(f as int)
        &&& vco_range_of(self.ref_hz(f as int), self.vco_hz(f as int)) is Some
        &&& self.divp_allowed(id)
    }

    /// The first rule the settings break, in the order in which the rules
    /// are checked; `None` where they break none.
    pub open spec fn error(self, id: PllId, input: Option<u32>) -> Option<ClockError> {
        match input {
            None => Some(ClockError::PllSourceOff(id)),
            Some(f) => {
                if !self.prediv_in_range() {
                    Some(ClockError::PllPredivOutOfRange(id))
                } else if !self.mul_in_range() {
                    Some(ClockError::PllMulOutOfRange(id))
                } else if !div_in_range(self.divp) {
                    Some(ClockError::PllDivOutOfRange(id, PllTap::P))
                } else if !div_in_range(self.divq) {
                    Some(ClockError::PllDivOutOfRange(id, PllTap::Q))
                } else if !div_in_range(self.divr) {
                    Some(ClockError::PllDivOutOfRange(id, PllTap::R))
                } else if !self.input_in_range(f as int) {
                    Some(ClockError::PllInputOutOfRange(id))
                } else if vco_range_of(self.ref_hz(f as int), self.vco_hz(f as int)) is None {
                    Some(ClockError::PllVcoOutOfRange(id))
                } else if !self.divp_allowed(id) {
                    Some(ClockError::Pll1OddDivp)
                } else {
                    None
                }
            },
        }
    }

    /// What the PLL produces from `input` hertz. Meaningful where the
    /// settings are valid.
    pub open spec fn clocks(self, input: u32) -> PllClocks {
        let reference = self.ref_hz(input as int);
        let vco = self.vco_hz(input as int);
        PllClocks {
            reference: reference as u32,
            input_range: input_range_of(reference),
            vco: vco as u32,
            vco_range: vco_range_of(reference, vco).unwrap(),
            p: stored_hz(tap_hz(vco, self.divp)),
            q: stored_hz(tap_hz(vco, self.divq)),
            r: stored_hz(tap_hz(vco, self.divr)),
        }
    }

    /// The settings as the registers hold them. Meaningful where every
    /// divider and the multiplier is within its range.
    pub open spec fn fields(self) -> PllFields {
        PllFields {
            divm: self.prediv,
            divn: (self.mul - 1) as u16,
            divp: div_field(self.divp),
            divq: div_field(self.divq),
            divr: div_field(self.divr),
        }
    }

    /// Checks the settings as PLL `id`, fed with `input` hertz (`None`: the
    /// source oscillator is off), and computes what the PLL produces. The
    /// rules are checked in a fixed order and the first one broken is
    /// reported.
    pub fn derive(&self, id: PllId, input: Option<u32>) -> (r: Result<PllClocks, ClockError>)
        ensures
            match r {
                Ok(clocks) => self.error(id, input) is None && clocks == self.clocks(
                    input.unwrap(),
                ) && clocks.locks(),
                Err(e) => self.error(id, input) == Some(e),
            },
    {
        proof {
            if self.valid(id, input) {
                lemma_pll_clocks_exact(*self, id, input.unwrap());
            }
        }
        let f: u32 = match input {
            Some(f) => f,
            None => {
                return Err(ClockError::PllSourceOff(id));
            },
        };
        if self.prediv < 1 || self.prediv > PLL_PREDIV_MAX {
            return Err(ClockError::PllPredivOutOfRange(id));
        }
        if self.mul < PLL_MUL_MIN || self.mul > PLL_MUL_MAX {
            return Err(ClockError::PllMulOutOfRange(id));
        }
        if !check_div(self.divp) {
            return Err(ClockError::PllDivOutOfRange(id, PllTap::P));
        }
        if !check_div(self.divq) {
            return Err(ClockError::PllDivOutOfRange(id, PllTap::Q));
        }
        if !check_div(self.divr) {
            return Err(ClockError::PllDivOutOfRange(id, PllTap::R));
        }
        let reference: u32 = f / (self.prediv as u32);
        if reference < PLL_REF_MIN_HZ || reference > PLL_REF_MAX_HZ {
            return Err(ClockError::PllInputOutOfRange(id));
        }
        assert((reference as int) * (self.mul as int) <= 16_000_000 * 512) by (nonlinear_arith)
            requires
                0 <= reference <= 16_000_000,
                0 <= self.mul <= 512,
        ;
        let product: u64 = (reference as u64) * (self.mul as u64);
        let vco_range = if VCO_MEDIUM_MIN_HZ as u64 <= product && product <= VCO_MEDIUM_MAX_HZ as u64 {
            VcoRange::Medium
        } else if reference >= PLL_REF_WIDE_MIN_HZ && VCO_WIDE_MIN_HZ as u64 <= product && product
            <= VCO_WIDE_MAX_HZ as u64 {
            VcoRange::Wide
        } else {
            return Err(ClockError::PllVcoOutOfRange(id));
        };
        let vco: u32 = product as u32;
        if let PllId::Pll1 = id {
            if let Some(d) = self.divp {
                if d % 2 != 0 {
                    return Err(ClockError::Pll1OddDivp);
                }
            }
        }
        let input_range = if reference < PLL_REF_WIDE_MIN_HZ {
            PllInputRange::Range1
        } else if reference < 4_000_000 {
            PllInputRange::Range2
        } else if reference < 8_000_000 {
            PllInputRange::Range4
        } else {
            PllInputRange::Range8
        };
        Ok(
            PllClocks {
                reference,
                input_range,
                vco,
                vco_range,
                p: divide(vco, self.divp),
                q: divide(vco, self.divq),
                r: divide(vco, self.divr),
            },
        )
    }

    /// Encodes the settings for the registers; `None` where a divider or
    /// the multiplier is outside its range, so that no field could hold it.
    /// What is encoded fits its field: 6 bits for the input divider, 9 for
    /// the multiplier and 7 for each output divider.
    pub fn encode(&self) -> (fields: Option<PllFields>)
        ensures
            fields == if self.fits() {
                Some(self.fields())
            } else {
                None
            },
            fields matches Some(f) ==> {
                &&& 1 <= f.divm < 64
                &&& 3 <= f.divn < 512
                &&& f.divp matches Some(d) ==> d < 128
                &&& f.divq matches Some(d) ==> d < 128
                &&& f.divr matches Some(d) ==> d < 128
            },
    {
        if self.prediv < 1 || self.prediv > PLL_PREDIV_MAX {
            return None;
        }
        if self.mul < PLL_MUL_MIN || self.mul > PLL_MUL_MAX {
            return None;
        }
        if !check_div(self.divp) || !check_div(self.divq) || !check_div(self.divr) {
            return None;
        }
        Some(
            PllFields {
                divm: self.prediv,
                divn: self.mul - 1,
                divp: encode_div(self.divp),
                divq: encode_div(self.divq),
                divr: encode_div(self.divr),
            },
        )
    }
}

impl PllClocks {
    /// The frequencies are ones the PLL locks on: the divided input between
    /// 1 MHz and 16 MHz and in the band that is named, the oscillator
    /// inside the range that is selected, the wide range only with an input
    /// of 2 MHz or more, and no output faster than the oscillator.
    pub open spec fn locks(self) -> bool {
        &&& PLL_REF_MIN_HZ <= self.reference <= PLL_REF_MAX_HZ
        &&& self.input_range == input_range_of(self.reference as int)
        &&& match self.vco_range {
            VcoRange::Medium => VCO_MEDIUM_MIN_HZ <= self.vco <= VCO_MEDIUM_MAX_HZ,
            VcoRange::Wide => self.reference >= PLL_REF_WIDE_MIN_HZ && VCO_WIDE_MIN_HZ <= self.vco
                <= VCO_WIDE_MAX_HZ,
        }
        &&& self.p matches Some(f) ==> f <= self.vco
        &&& self.q matches Some(f) ==> f <= self.vco
        &&& self.r matches Some(f) ==> f <= self.vco
    }

    /// Every output that is on runs at 1 MHz at least.
    pub open spec fn runs(self) -> bool {
        &&& self.p matches Some(f) ==> f >= 1_000_000
        &&& self.q matches Some(f) ==> f >= 1_000_000
        &&& self.r matches Some(f) ==> f >= 1_000_000
    }

    /// The PLL locks and every output that is on is at or under the limit
    /// of voltage scale `vos`.
    pub open spec fn within(self, vos: VoltageScale) -> bool {
        &&& self.locks()
        &&& !over(self.p, vos.max_hz())
        &&& !over(self.q, vos.max_hz())
        &&& !over(self.r, vos.max_hz())
    }

    /// The first output, in the order P, Q, R, that is on and faster than
    /// `max`; `None` where there is none.
    pub open spec fn spec_first_over(&self, max: u32) -> Option<PllTap> {
        if over(self.p, max) {
            Some(PllTap::P)
        } else if over(self.q, max) {
            Some(PllTap::Q)
        } else if over(self.r, max) {
            Some(PllTap::R)
        } else {
            None
        }
    }

    /// Finds the first output, in the order P, Q, R, that is on and faster
    /// than `max`.
    #[verifier::when_used_as_spec(spec_first_over)]
    pub fn first_over(&self, max: u32) -> (tap: Option<PllTap>)
        ensures
            tap == self.spec_first_over(max),
    {
        if is_over(self.p, max) {
            Some(PllTap::P)
        } else if is_over(self.q, max) {
            Some(PllTap::Q)
        } else if is_over(self.r, max) {
            Some(PllTap::R)
        } else {
            None
        }
    }
}

/// Tells whether an output divider is off or within `1..=128`.
fn check_div(div: Option<u8>) -> (ok: bool)
    ensures
        ok == div_in_range(div),
{
    match div {
        Some(d) => 1 <= d && d <= PLL_DIV_MAX,
        None => true,
    }
}

/// An output divider, off or within range, as its register field holds it.
fn encode_div(div: Option<u8>) -> (field: Option<u8>)
    requires
        div_in_range(div),
    ensures
        field == div_field(div),
        field matches Some(f) ==> f < PLL_DIV_MAX,
{
    match div {
        Some(d) => Some(d - 1),
        None => None,
    }
}

/// Frequency of an output whose divider is off or within range.
fn divide(vco: u32, div: Option<u8>) -> (hz: Option<u32>)
    requires
        div_in_range(div),
    ensures
        hz == stored_hz(tap_hz(vco as int, div)),
{
    match div {
        Some(d) => Some(vco / (d as u32)),
        None => None,
    }
}

/// Tells whether an output is on and faster than `max`.
fn is_over(hz: Option<u32>, max: u32) -> (yes: bool)
    ensures
        yes == over(hz, max),
{
    match hz {
        Some(f) => f > max,
        None => false,
    }
}

/// A PLL breaks no rule exactly when its settings are valid, whatever the
/// order in which the rules are checked.
pub proof fn lemma_pll_error_iff_invalid(pll: Pll, id: PllId, input: Option<u32>)
    ensures
        pll.error(id, input) is None <==> pll.valid(id, input),
{
}

/// What a valid PLL produces is stored without loss, and the PLL locks on
/// it: each stored frequency is the one the formula gives.
pub proof fn lemma_pll_clocks_exact(pll: Pll, id: PllId, input: u32)
    requires
        pll.valid(id, Some(input)),
    ensures
        pll.clocks(input).locks(),
        pll.clocks(input).reference == pll.ref_hz(input as int),
        pll.clocks(input).vco == pll.vco_hz(input as int),
        same_hz(pll.clocks(input).p, pll.out_hz(PllTap::P, input as int)),
        same_hz(pll.clocks(input).q, pll.out_hz(PllTap::Q, input as int)),
        same_hz(pll.clocks(input).r, pll.out_hz(PllTap::R, input as int)),
{
    let vco = pll.vco_hz(input as int);
    assert(0 <= vco <= VCO_WIDE_MAX_HZ);
    lemma_tap_fits(vco, pll.divp);
    lemma_tap_fits(vco, pll.divq);
    lemma_tap_fits(vco, pll.divr);
}

/// Every output of a valid PLL runs at 1 MHz at least: the oscillator runs
/// at 128 MHz at least and no divider is above 128.
pub proof fn lemma_pll_clocks_run(pll: Pll, id: PllId, input: u32)
    requires
        pll.valid(id, Some(input)),
    ensures
        pll.clocks(input).runs(),
{
    let vco = pll.vco_hz(input as int);
    assert(VCO_WIDE_MIN_HZ <= vco <= VCO_WIDE_MAX_HZ);
    lemma_tap_runs(vco, pll.divp);
    lemma_tap_runs(vco, pll.divq);
    lemma_tap_runs(vco, pll.divr);
}

/// An output of an oscillator that runs at 128 MHz at least runs at 1 MHz
/// at least.
proof fn lemma_tap_runs(vco: int, div: Option<u8>)
    requires
        VCO_WIDE_MIN_HZ <= vco <= u32::MAX,
        div_in_range(div),
    ensures
        stored_hz(tap_hz(vco, div)) matches Some(f) ==> f >= 1_000_000,
{
    lemma_tap_fits(vco, div);
    if let Some(d) = div {
        assert(vco / (d as int) >= 1_000_000) by (nonlinear_arith)
            requires
                128_000_000 <= vco,
                1 <= d <= 128,
        ;
    }
}

/// An output of an oscillator whose frequency fits in 32 bits is no faster
/// than the oscillator and is stored without loss.
proof fn lemma_tap_fits(vco: int, div: Option<u8>)
    requires
        0 <= vco <= u32::MAX,
        div_in_range(div),
    ensures
        tap_hz(vco, div) matches Some(f) ==> 0 <= f <= vco,
        same_hz(stored_hz(tap_hz(vco, div)), tap_hz(vco, div)),
{
    if let Some(d) = div {
        assert(0 <= vco / (d as int) <= vco) by (nonlinear_arith)
            requires
                0 <= vco,
                1 <= d,
        ;
    }
}

} // verus!
