use spec_mtc::clock::error::ClockError;
use spec_mtc::clock::plan::ClockPlan;
use spec_mtc::clock::source::Sysclk;
use spec_mtc::nucleo::led::BlinkState;
use spec_mtc::nucleo::{clock_plan, Board, ConfigError, Led, Mcu};
use spec_mtc::pins::{PinError, PinId, PinRegistry, PinRole, Port, Speed};
use spec_mtc::{boot, Firmware, BLINK_DELAY_SEC};

#[test]
fn leds_are_on_their_pins() {
    assert_eq!(Led::Green.pin(), PinId { port: Port::B, pin: 0 });
    assert_eq!(Led::Orange.pin(), PinId { port: Port::F, pin: 4 });
    assert_eq!(Led::Red.pin(), PinId { port: Port::G, pin: 4 });
    assert_eq!(Led::role(), PinRole::Output(Speed::Low));
}

#[test]
fn board_comes_up_from_reset() {
    let board = Board::new(Mcu::reset()).ok().unwrap();
    assert_eq!(board.led_green.id(), PinId { port: Port::B, pin: 0 });
    assert_eq!(board.led_orange.id(), PinId { port: Port::F, pin: 4 });
    assert_eq!(board.led_red.id(), PinId { port: Port::G, pin: 4 });
    assert_eq!(board.led_green.role(), PinRole::Output(Speed::Low));
    assert_eq!(board.led_orange.role(), PinRole::Output(Speed::Low));
    assert_eq!(board.led_red.role(), PinRole::Output(Speed::Low));
    assert_eq!(board.clocks.plan(), Some(clock_plan()));
    let tree = board.clocks.clocks().unwrap();
    assert_eq!(tree.sys, 200_000_000);
    assert_eq!(tree.hclk, 200_000_000);
    assert_eq!(tree.pclk1, 100_000_000);
    assert_eq!(tree.pclk2, 100_000_000);
    assert_eq!(tree.pclk3, 100_000_000);
    assert_eq!(tree.adcdac, 100_000_000);
    for led in [Led::Green, Led::Orange, Led::Red] {
        assert!(board.pins.is_claimed(led.pin()));
    }
    assert!(!board.pins.is_claimed(PinId { port: Port::B, pin: 1 }));
}

#[test]
fn board_is_not_brought_up_twice_on_one_microcontroller() {
    let first = Board::new(Mcu::reset()).ok().unwrap();
    let (green, orange, red) = (first.led_green, first.led_orange, first.led_red);
    let again = Mcu { clocks: first.clocks, pins: first.pins };
    assert_eq!(
        Board::new(again).err(),
        Some(ConfigError::Clock(ClockError::AlreadyConfigured))
    );
    assert_eq!(green.id(), Led::Green.pin());
    assert_eq!(orange.id(), Led::Orange.pin());
    assert_eq!(red.id(), Led::Red.pin());
}

#[test]
fn board_is_not_brought_up_twice_with_another_plan_either() {
    let first = Board::new(Mcu::reset()).ok().unwrap();
    let again = Mcu { clocks: first.clocks, pins: first.pins };
    assert_eq!(
        Board::bring_up(again, &ClockPlan::default()).err(),
        Some(ConfigError::Clock(ClockError::AlreadyConfigured))
    );
}

#[test]
fn pins_of_a_board_that_is_up_are_not_granted_again() {
    let mut board = Board::new(Mcu::reset()).ok().unwrap();
    for led in [Led::Green, Led::Orange, Led::Red] {
        assert_eq!(board.pins.claim(led.pin(), Led::role()), Err(PinError::AlreadyClaimed));
        assert_eq!(
            board.pins.claim(led.pin(), PinRole::Output(Speed::VeryHigh)),
            Err(PinError::AlreadyClaimed)
        );
    }
    // Even on a clock unit that was reset, the pins keep their owners.
    let again = Mcu { clocks: spec_mtc::clock::unit::ClockUnit::new(), pins: board.pins };
    assert_eq!(
        Board::new(again).err(),
        Some(ConfigError::Pin(Led::Green, PinError::AlreadyClaimed))
    );
}

#[test]
fn pins_that_are_free_on_a_board_can_still_be_claimed_once() {
    let mut board = Board::new(Mcu::reset()).ok().unwrap();
    let pb1 = PinId { port: Port::B, pin: 1 };
    assert_eq!(board.pins.claim(pb1, PinRole::Output(Speed::High)).map(|h| h.id()), Ok(pb1));
    assert_eq!(board.pins.claim(pb1, PinRole::Output(Speed::High)), Err(PinError::AlreadyClaimed));
}

#[test]
fn pins_claimed_before_bring_up_stay_on_record() {
    let mut mcu = Mcu::reset();
    let pc7 = PinId { port: Port::C, pin: 7 };
    assert!(mcu.pins.claim(pc7, PinRole::Output(Speed::Medium)).is_ok());
    let board = Board::new(mcu).ok().unwrap();
    assert!(board.pins.is_claimed(pc7));
    assert!(board.pins.is_claimed(Led::Green.pin()));
    let fresh = PinRegistry::new();
    assert!(!fresh.is_claimed(pc7));
}

#[test]
fn board_comes_up_with_another_valid_plan() {
    let plan = ClockPlan::default();
    let board = Board::bring_up(Mcu::reset(), &plan).ok().unwrap();
    assert_eq!(board.clocks.plan(), Some(plan));
    assert_eq!(board.clocks.clocks().unwrap().sys, 64_000_000);
    assert_eq!(board.led_green.id(), Led::Green.pin());
    assert_eq!(board.led_orange.id(), Led::Orange.pin());
    assert_eq!(board.led_red.id(), Led::Red.pin());
}

#[test]
fn reset_leaves_nothing_configured_or_claimed() {
    let mcu = Mcu::reset();
    assert!(!mcu.clocks.is_configured());
    for led in [Led::Green, Led::Orange, Led::Red] {
        assert!(!mcu.pins.is_claimed(led.pin()));
    }
}

#[test]
fn board_does_not_come_up_with_an_invalid_plan() {
    let mut plan = clock_plan();
    plan.sys = Sysclk::Hse;
    assert_eq!(
        Board::bring_up(Mcu::reset(), &plan).err(),
        Some(ConfigError::Clock(ClockError::SysclkSourceOff))
    );
}

#[test]
fn board_does_not_come_up_twice_on_the_same_clock_unit() {
    let mut mcu = Mcu::reset();
    assert_eq!(mcu.clocks.configure(&clock_plan()), Ok(()));
    assert_eq!(
        Board::bring_up(mcu, &clock_plan()).err(),
        Some(ConfigError::Clock(ClockError::AlreadyConfigured))
    );
}

#[test]
fn board_does_not_come_up_when_an_led_pin_has_an_owner() {
    for led in [Led::Green, Led::Orange, Led::Red] {
        let mut mcu = Mcu::reset();
        assert!(mcu.pins.claim(led.pin(), PinRole::Output(Speed::High)).is_ok());
        assert_eq!(
            Board::bring_up(mcu, &clock_plan()).err(),
            Some(ConfigError::Pin(led, PinError::AlreadyClaimed))
        );
    }
    let mut mcu = Mcu::reset();
    assert!(mcu.pins.claim(Led::Red.pin(), Led::role()).is_ok());
    assert!(mcu.pins.claim(Led::Orange.pin(), Led::role()).is_ok());
    assert_eq!(
        Board::bring_up(mcu, &clock_plan()).err(),
        Some(ConfigError::Pin(Led::Orange, PinError::AlreadyClaimed))
    );
    let mut mcu = Mcu::reset();
    assert!(mcu.pins.claim(PinId { port: Port::B, pin: 1 }, Led::role()).is_ok());
    assert!(Board::bring_up(mcu, &clock_plan()).is_ok());
}

#[test]
fn clocks_are_settled_before_any_pin_is_looked_at() {
    let mut plan = clock_plan();
    plan.csi = false;
    plan.sys = Sysclk::Csi;
    let mut mcu = Mcu::reset();
    assert!(mcu.pins.claim(Led::Green.pin(), Led::role()).is_ok());
    assert_eq!(
        Board::bring_up(mcu, &plan).err(),
        Some(ConfigError::Clock(ClockError::SysclkSourceOff))
    );
    let mut mcu = Mcu::reset();
    assert!(mcu.pins.claim(Led::Green.pin(), Led::role()).is_ok());
    assert_eq!(mcu.clocks.configure(&clock_plan()), Ok(()));
    assert_eq!(
        Board::bring_up(mcu, &plan).err(),
        Some(ConfigError::Clock(ClockError::AlreadyConfigured))
    );
}

#[test]
fn firmware_boots_with_one_blink_task_on_the_green_led() {
    assert_eq!(BLINK_DELAY_SEC, 2);
    let firmware = boot(Mcu::reset()).ok().unwrap();
    assert_eq!(firmware.clocks.plan(), Some(clock_plan()));
    assert_eq!(firmware.clocks.clocks().unwrap().sys, 200_000_000);
    assert_eq!(firmware.led_orange.id(), Led::Orange.pin());
    assert_eq!(firmware.led_red.id(), Led::Red.pin());
    assert_eq!(firmware.tasks.len(), 1);
    let task = firmware.tasks.task(0).unwrap();
    assert_eq!(task.led().id(), Led::Green.pin());
    assert_eq!(task.led().role(), Led::role());
    assert_eq!(task.delay_sec(), 2);
    assert_eq!(task.state(), BlinkState::OutputHigh);
    assert!(firmware.tasks.task(1).is_none());
}

#[test]
fn firmware_starts_on_a_board_with_the_delay_it_is_given() {
    let firmware = Firmware::start(Board::new(Mcu::reset()).ok().unwrap(), 9);
    assert_eq!(firmware.tasks.len(), 1);
    let tasks = firmware.tasks.into_tasks();
    assert_eq!(tasks[0].delay_sec(), 9);
    assert_eq!(tasks[0].led().id(), Led::Green.pin());
    assert_eq!(firmware.led_orange.id(), Led::Orange.pin());
    assert_eq!(firmware.led_red.id(), Led::Red.pin());
    assert_eq!(firmware.clocks.plan(), Some(clock_plan()));
}

#[test]
fn firmware_does_not_boot_twice_on_one_microcontroller() {
    let first = boot(Mcu::reset()).ok().unwrap();
    assert_eq!(first.tasks.len(), 1);
    for led in [Led::Green, Led::Orange, Led::Red] {
        assert!(first.pins.is_claimed(led.pin()));
    }
    let again = Mcu { clocks: first.clocks, pins: first.pins };
    assert_eq!(boot(again).err(), Some(ConfigError::Clock(ClockError::AlreadyConfigured)));
}

#[test]
fn firmware_does_not_boot_where_bring_up_is_refused() {
    let mut mcu = Mcu::reset();
    assert!(mcu.pins.claim(Led::Red.pin(), Led::role()).is_ok());
    assert_eq!(boot(mcu).err(), Some(ConfigError::Pin(Led::Red, PinError::AlreadyClaimed)));
    let mut mcu = Mcu::reset();
    assert_eq!(mcu.clocks.configure(&ClockPlan::default()), Ok(()));
    assert_eq!(boot(mcu).err(), Some(ConfigError::Clock(ClockError::AlreadyConfigured)));
}
