//! The board: its clock plan, its status LEDs and how it is brought up.

pub mod led;

use vstd::prelude::*;
use crate::clock::bus::{AhbPrescaler, ApbPrescaler, VoltageScale};
use crate::clock::error::ClockError;
use crate::clock::plan::{lemma_error_iff_invalid, ClockPlan};
use crate::clock::pll::Pll;
use crate::clock::source::{HsiPrescaler, KernelClock, PllSource, Sysclk};
use crate::clock::unit::ClockUnit;
use crate::pins::{
    claim_refusal,
    claimed_after,
    PinError,
    PinHandle,
    PinId,
    PinRegistry,
    PinRole,
    Port,
    Speed,
};

verus! {

/// A status LED of the board.
#[derive(Clone, Copy, Debug, PartialEq, Eq, Structural)]
pub enum Led {
    Green,
    Orange,
    Red,
}

impl Led {
    pub open spec fn spec_pin(self) -> PinId {
        match self {
            Led::Green => PinId { port: Port::B, pin: 0 },
            Led::Orange => PinId { port: Port::F, pin: 4 },
            Led::Red => PinId { port: Port::G, pin: 4 },
        }
    }

    /// The pin the LED is wired to.
    #[verifier::when_used_as_spec(spec_pin)]
    pub fn pin(self) -> (pin: PinId)
        ensures
            pin == self.spec_pin(),
    {
        match self {
            Led::Green => PinId { port: Port::B, pin: 0 },
            Led::Orange => PinId { port: Port::F, pin: 4 },
            Led::Red => PinId { port: Port::G, pin: 4 },
        }
    }

    pub open spec fn spec_role() -> PinRole {
        PinRole::Output(Speed::Low)
    }

    /// The role every LED pin is claimed for.
    #[verifier::when_used_as_spec(spec_role)]
    pub fn role() -> (role: PinRole)
        ensures
            role == Self::spec_role(),
    {
        PinRole::Output(Speed::Low)
    }
}

/// The clock plan of the board: both PLLs fed from the 64 MHz internal
/// oscillator divided by 4 and multiplied by 25, the system clock on the P
/// output of PLL1 divided by 2, the APB buses at half the AHB clock, and
/// the analog converters on the R output of PLL2.
pub open spec fn spec_clock_plan() -> ClockPlan {
    ClockPlan {
        hsi: Some(HsiPrescaler::Div1),
        hse: None,
        csi: true,
        sys: Sysclk::Pll1P,
        pll1: Some(
            Pll {
                source: PllSource::Hsi,
                prediv: 4,
                mul: 25,
                divp: Some(2u8),
                divq: Some(4u8),
                divr: None,
            },
        ),
        pll2: Some(
            Pll {
                source: PllSource::Hsi,
                prediv: 4,
                mul: 25,
                divp: None,
                divq: None,
                divr: Some(4u8),
            },
        ),
        pll3: None,
        ahb_pre: AhbPrescaler::Div1,
        apb1_pre: ApbPrescaler::Div2,
        apb2_pre: ApbPrescaler::Div2,
        apb3_pre: ApbPrescaler::Div2,
        voltage_scale: VoltageScale::Scale1,
        adcdac: KernelClock::Pll2R,
    }
}

/// The clock plan of the board.
#[verifier::when_used_as_spec(spec_clock_plan)]
pub fn clock_plan() -> (plan: ClockPlan)
    ensures
        plan == spec_clock_plan(),
{
    ClockPlan {
        hsi: Some(HsiPrescaler::Div1),
        hse: None,
        csi: true,
        sys: Sysclk::Pll1P,
        pll1: Some(
            Pll {
                source: PllSource::Hsi,
                prediv: 4,
                mul: 25,
                divp: Some(2),
                divq: Some(4),
                divr: None,
            },
        ),
        pll2: Some(
            Pll {
                source: PllSource::Hsi,
                prediv: 4,
                mul: 25,
                divp: None,
                divq: None,
                divr: Some(4),
            },
        ),
        pll3: None,
        ahb_pre: AhbPrescaler::Div1,
        apb1_pre: ApbPrescaler::Div2,
        apb2_pre: ApbPrescaler::Div2,
        apb3_pre: ApbPrescaler::Div2,
        voltage_scale: VoltageScale::Scale1,
        adcdac: KernelClock::Pll2R,
    }
}

/// The clock plan of the board is valid. It runs the oscillator of each
/// PLL at 400 MHz, the system clock and the AHB bus at 200 MHz, which is
/// the most its voltage scale supports, and the APB buses and the analog
/// converters at 100 MHz.
pub proof fn lemma_clock_plan_valid()
    ensures
        clock_plan().valid(),
        clock_plan().tree().pll1.unwrap().vco == 400_000_000,
        clock_plan().tree().pll1.unwrap().q == Some(100_000_000u32),
        clock_plan().tree().pll2.unwrap().vco == 400_000_000,
        clock_plan().tree().sys == 200_000_000,
        clock_plan().tree().sys == clock_plan().voltage_scale.max_hz(),
        clock_plan().tree().hclk == 200_000_000,
        clock_plan().tree().pclk1 == 100_000_000,
        clock_plan().tree().pclk2 == 100_000_000,
        clock_plan().tree().pclk3 == 100_000_000,
        clock_plan().tree().adcdac == 100_000_000,
{
    assert(HsiPrescaler::Div1.divisor() == 1);
}

/// The microcontroller, as far as bring-up works on it: its clock unit and
/// the record of who owns its pins.
///
/// The value stands for the hardware and is not copied: there is one for
/// each reset, and bring-up uses it up. What it has become lives on in the
/// board, so that nothing can be brought up on it a second time.
pub struct Mcu {
    pub clocks: ClockUnit,
    pub pins: PinRegistry,
}

impl Mcu {
    /// The microcontroller as it comes out of reset: the clock unit
    /// untouched and no pin owned.
    pub fn reset() -> (mcu: Mcu)
        ensures
            mcu.clocks@ is None,
            mcu.pins@ == Set::<PinId>::empty(),
    {
        Mcu { clocks: ClockUnit::new(), pins: PinRegistry::new() }
    }
}

/// Why the board was not brought up.
#[derive(Clone, Copy, Debug, PartialEq, Eq, Structural)]
pub enum ConfigError {
    /// The clock unit refused the plan.
    Clock(ClockError),
    /// The pin of an LED was refused.
    Pin(Led, PinError),
}

/// The board once it is up: the clock unit running its plan, one handle
/// for each status LED, and the record of who owns the pins, in which the
/// pins of the LEDs have their owners.
pub struct Board {
    pub led_green: PinHandle,
    pub led_orange: PinHandle,
    pub led_red: PinHandle,
    pub clocks: ClockUnit,
    pub pins: PinRegistry,
}

/// The pins in `claimed` together with the pins of the three LEDs.
pub open spec fn with_leds(claimed: Set<PinId>) -> Set<PinId> {
    claimed.insert(Led::Green.pin()).insert(Led::Orange.pin()).insert(Led::Red.pin())
}

/// The refusal that a claim of the pin of `led` meets, if any.
pub open spec fn led_refusal(claimed: Set<PinId>, led: Led) -> Option<ConfigError> {
    match claim_refusal(claimed, led.pin()) {
        Some(e) => Some(ConfigError::Pin(led, e)),
        None => None,
    }
}

/// Why bring-up with `plan` fails on a microcontroller whose clock unit
/// runs `running` and whose pins in `claimed` have owners; `None` where it
/// succeeds. The clock unit comes first: no pin is looked at before the
/// clocks are settled. Then come the LEDs, green, orange and red.
pub open spec fn bring_up_refusal(
    running: Option<ClockPlan>,
    claimed: Set<PinId>,
    plan: ClockPlan,
) -> Option<ConfigError> {
    if running is Some {
        Some(ConfigError::Clock(ClockError::AlreadyConfigured))
    } else if plan.error() is Some {
        Some(ConfigError::Clock(plan.error().unwrap()))
    } else if led_refusal(claimed, Led::Green) is Some {
        led_refusal(claimed, Led::Green)
    } else if led_refusal(claimed, Led::Orange) is Some {
        led_refusal(claimed, Led::Orange)
    } else {
        led_refusal(claimed, Led::Red)
    }
}

/// Claims the pin of `led` in the role of an LED.
fn claim_led(pins: &mut PinRegistry, led: Led) -> (r: Result<PinHandle, ConfigError>)
    ensures
        final(pins)@ == claimed_after(old(pins)@, led.pin()),
        match r {
            Ok(handle) => led_refusal(old(pins)@, led) is None && handle.id() == led.pin()
                && handle.role() == Led::role(),
            Err(e) => led_refusal(old(pins)@, led) == Some(e),
        },
{
    match pins.claim(led.pin(), Led::role()) {
        Ok(handle) => Ok(handle),
        Err(e) => Err(ConfigError::Pin(led, e)),
    }
}

impl Board {
    /// The board is up: its clock unit runs a plan, each handle is that of
    /// the pin of its LED, in the role of an LED, and each of these pins is
    /// on record as having an owner.
    pub open spec fn wf(&self) -> bool {
        &&& self.clocks@ is Some
        &&& self.led_green.id() == Led::Green.pin()
        &&& self.led_orange.id() == Led::Orange.pin()
        &&& self.led_red.id() == Led::Red.pin()
        &&& self.led_green.role() == Led::role()
        &&& self.led_orange.role() == Led::role()
        &&& self.led_red.role() == Led::role()
        &&& self.pins@.contains(Led::Green.pin())
        &&& self.pins@.contains(Led::Orange.pin())
        &&& self.pins@.contains(Led::Red.pin())
    }

    /// Brings the board up on `mcu` with `plan`: programs the clock unit,
    /// then claims the pin of each LED, then assembles the board.
    ///
    /// Bring-up succeeds where the clock unit is untouched since reset, the
    /// plan is valid and none of the three pins has an owner. The board
    /// then runs `plan` and keeps the record of the pins, with the three
    /// pins added to it. Otherwise the first obstacle met is returned and
    /// no board exists.
    pub fn bring_up(mcu: Mcu, plan: &ClockPlan) -> (r: Result<Board, ConfigError>)
        ensures
            match r {
                Ok(board) => bring_up_refusal(mcu.clocks@, mcu.pins@, *plan) is None && board.wf()
                    && board.clocks@ == Some(*plan) && board.pins@ == with_leds(mcu.pins@),
                Err(e) => bring_up_refusal(mcu.clocks@, mcu.pins@, *plan) == Some(e),
            },
    {
        let Mcu { mut clocks, mut pins } = mcu;
        match clocks.configure(plan) {
            Ok(()) => {},
            Err(e) => {
                return Err(ConfigError::Clock(e));
            },
        }
        let led_green = match claim_led(&mut pins, Led::Green) {
            Ok(handle) => handle,
            Err(e) => {
                return Err(e);
            },
        };
        let led_orange = match claim_led(&mut pins, Led::Orange) {
            Ok(handle) => handle,
            Err(e) => {
                return Err(e);
            },
        };
        let led_red = match claim_led(&mut pins, Led::Red) {
            Ok(handle) => handle,
            Err(e) => {
                return Err(e);
            },
        };
        Ok(Board { led_green, led_orange, led_red, clocks, pins })
    }

    /// Brings the board up on `mcu` with the board's own clock plan.
    ///
    /// On a microcontroller that comes out of reset this succeeds. On one
    /// whose clock unit runs a plan, or on which the pin of an LED has an
    /// owner, as on one that a board was brought up on before, it is
    /// refused, and no second handle of any pin comes into being.
    pub fn new(mcu: Mcu) -> (r: Result<Board, ConfigError>)
        ensures
            match r {
                Ok(board) => bring_up_refusal(mcu.clocks@, mcu.pins@, clock_plan()) is None
                    && board.wf() && board.clocks@ == Some(clock_plan()) && board.pins@
                    == with_leds(mcu.pins@),
                Err(e) => bring_up_refusal(mcu.clocks@, mcu.pins@, clock_plan()) == Some(e),
            },
    {
        let plan = clock_plan();
        Board::bring_up(mcu, &plan)
    }
}

/// On a microcontroller that comes out of reset, bring-up with the board's
/// own clock plan meets no obstacle.
pub proof fn lemma_bring_up_from_reset()
    ensures
        bring_up_refusal(None, Set::<PinId>::empty(), clock_plan()) is None,
{
    lemma_clock_plan_valid();
    lemma_error_iff_invalid(clock_plan());
}

/// A microcontroller that a board is up on takes no second bring-up,
/// whatever the plan: its clock unit runs a plan, which alone refuses it,
/// and the pin of each LED has an owner, so that a claim of it is refused.
pub proof fn lemma_second_bring_up_refused(board: Board, plan: ClockPlan, led: Led)
    requires
        board.wf(),
    ensures
        bring_up_refusal(board.clocks@, board.pins@, plan) == Some(
            ConfigError::Clock(ClockError::AlreadyConfigured),
        ),
        claim_refusal(board.pins@, led.pin()) == Some(PinError::AlreadyClaimed),
        led_refusal(board.pins@, led) == Some(ConfigError::Pin(led, PinError::AlreadyClaimed)),
{
}

} // verus!
