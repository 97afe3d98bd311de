//! Bring-up and periodic-activity logic for the multichannel temperature
//! controller board.
//!
//! The crate holds the decisions of the firmware as plain, verified
//! functions: which clock settings are acceptable and what frequencies they
//! give, which pins are owned by whom, what the board looks like once it is
//! up, and how the status LED task moves from one phase to the next. Touching
//! the hardware and waiting for time to pass is left to the caller.

pub mod clock;
pub mod pins;
pub mod timer;
pub mod nucleo;
pub mod tasks;

use vstd::prelude::*;
use crate::clock::unit::ClockUnit;
use crate::nucleo::led::{blink, BlinkState};
use crate::nucleo::{bring_up_refusal, clock_plan, with_leds, Board, ConfigError, Led, Mcu};
use crate::pins::{PinHandle, PinRegistry};
use crate::tasks::TaskPool;

verus! {

/// Seconds between two changes of the status LED.
pub const BLINK_DELAY_SEC: u64 = 2;

/// What the firmware holds once it has started: the clock unit running its
/// plan, the registered tasks, the LEDs that no task owns, and the record
/// of who owns the pins.
pub struct Firmware {
    pub clocks: ClockUnit,
    pub tasks: TaskPool,
    pub led_orange: PinHandle,
    pub led_red: PinHandle,
    pub pins: PinRegistry,
}

impl Firmware {
    /// Registers the initial tasks on a board that is up: one blink task,
    /// which owns the green LED and changes phase every `delay_sec`
    /// seconds. The clock unit, the other two LEDs and the record of the
    /// pins are carried over.
    pub fn start(board: Board, delay_sec: u64) -> (firmware: Firmware)
        ensures
            firmware.clocks == board.clocks,
            firmware.pins == board.pins,
            firmware.led_orange == board.led_orange,
            firmware.led_red == board.led_red,
            firmware.tasks@.len() == 1,
            firmware.tasks@[0].led() == board.led_green,
            firmware.tasks@[0].delay_sec() == delay_sec,
            firmware.tasks@[0].state() == BlinkState::OutputHigh,
    {
        let Board { led_green, led_orange, led_red, clocks, pins } = board;
        let mut tasks = TaskPool::new();
        match tasks.spawn(blink(led_green, delay_sec)) {
            Ok(_) => {},
            Err(_) => unreached(),
        }
        Firmware { clocks, tasks, led_orange, led_red, pins }
    }

    /// The firmware runs on a board that is up, with one blink task, which
    /// owns the green LED, is in phase `OutputHigh` and changes phase every
    /// `BLINK_DELAY_SEC` seconds.
    pub open spec fn started(&self) -> bool {
        &&& self.clocks@ == Some(clock_plan())
        &&& self.led_orange.id() == Led::Orange.pin()
        &&& self.led_orange.role() == Led::role()
        &&& self.led_red.id() == Led::Red.pin()
        &&& self.led_red.role() == Led::role()
        &&& self.tasks@.len() == 1
        &&& self.tasks@[0].led().id() == Led::Green.pin()
        &&& self.tasks@[0].led().role() == Led::role()
        &&& self.tasks@[0].delay_sec() == BLINK_DELAY_SEC
        &&& self.tasks@[0].state() == BlinkState::OutputHigh
    }
}

/// Starts the firmware on `mcu`: brings the board up with its own clock
/// plan, then registers the blink task of the green LED with a delay of
/// `BLINK_DELAY_SEC` seconds.
///
/// On a microcontroller that comes out of reset this succeeds. On one that
/// bring-up refuses, as on one that was started before, nothing is started
/// and the refusal is returned.
pub fn boot(mcu: Mcu) -> (r: Result<Firmware, ConfigError>)
    ensures
        match r {
            Ok(firmware) => bring_up_refusal(mcu.clocks@, mcu.pins@, clock_plan()) is None
                && firmware.started() && firmware.pins@ == with_leds(mcu.pins@),
            Err(e) => bring_up_refusal(mcu.clocks@, mcu.pins@, clock_plan()) == Some(e),
        },
{
    match Board::new(mcu) {
        Ok(board) => Ok(Firmware::start(board, BLINK_DELAY_SEC)),
        Err(e) => Err(e),
    }
}

} // verus!
