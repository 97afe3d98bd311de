use spec_mtc::nucleo::led::{blink, BlinkAction, BlinkState, BlinkTask, Phase};
use spec_mtc::nucleo::Led;
use spec_mtc::pins::{Level, PinHandle, PinRegistry};
use spec_mtc::timer::TimerRequest;

fn green() -> PinHandle {
    PinRegistry::new().claim(Led::Green.pin(), Led::role()).unwrap()
}

fn task(delay_sec: u64) -> BlinkTask {
    blink(green(), delay_sec)
}

#[test]
fn task_starts_with_its_output_high() {
    let task = task(2);
    assert_eq!(task.state(), BlinkState::OutputHigh);
    assert_eq!(task.delay_sec(), 2);
    assert_eq!(task.led(), &green());
    assert_eq!(task.led().id(), Led::Green.pin());
    assert_eq!(
        task.action(),
        BlinkAction { level: Level::High, wait: TimerRequest { secs: 2 } }
    );
}

#[test]
fn task_toggles_each_time_its_timer_fires() {
    let mut task = task(7);
    let low = BlinkAction { level: Level::Low, wait: TimerRequest { secs: 7 } };
    let high = BlinkAction { level: Level::High, wait: TimerRequest { secs: 7 } };
    assert_eq!(task.on_timer(), low);
    assert_eq!(task.state(), BlinkState::OutputLow);
    assert_eq!(task.action(), low);
    assert_eq!(task.on_timer(), high);
    assert_eq!(task.state(), BlinkState::OutputHigh);
    assert_eq!(task.action(), high);
    assert_eq!(task.on_timer(), low);
    assert_eq!(task.delay_sec(), 7);
    assert_eq!(task.led().id(), Led::Green.pin());
}

#[test]
fn delay_of_two_gives_high_low_high_low_at_0_2_4_6() {
    // Driven the way the firmware drives it: act, wait for the timer, resume.
    let mut task = task(2);
    let mut now = 0;
    let mut action = task.action();
    let mut trace = Vec::new();
    for _ in 0..4 {
        trace.push((now, action.level));
        let deadline = action.wait.deadline(now).unwrap();
        assert!(!action.wait.is_due(now, deadline - 1));
        assert!(action.wait.is_due(now, deadline));
        now = deadline;
        action = task.on_timer();
    }
    assert_eq!(trace, vec![(0, Level::High), (2, Level::Low), (4, Level::High), (6, Level::Low)]);
}

#[test]
fn timeline_of_delay_two_is_high_low_high_low_at_0_2_4_6() {
    let task = task(2);
    let high = |start| Phase { start, level: Level::High, secs: 2 };
    let low = |start| Phase { start, level: Level::Low, secs: 2 };
    assert_eq!(task.timeline(0, 4), Some(vec![high(0), low(2), high(4), low(6)]));
    assert_eq!(task.state(), BlinkState::OutputHigh);
}

#[test]
fn timeline_starts_from_the_phase_the_task_is_in() {
    let mut task = task(3);
    task.on_timer();
    assert_eq!(
        task.timeline(10, 3),
        Some(vec![
            Phase { start: 10, level: Level::Low, secs: 3 },
            Phase { start: 13, level: Level::High, secs: 3 },
            Phase { start: 16, level: Level::Low, secs: 3 },
        ])
    );
    assert_eq!(task.timeline(10, 0), Some(vec![]));
    assert_eq!(task.state(), BlinkState::OutputLow);
}

#[test]
fn timeline_agrees_with_the_task_moved_on_step_by_step() {
    let mut task = task(5);
    let line = task.timeline(100, 9).unwrap();
    let mut now = 100;
    for phase in line {
        let action = task.action();
        assert_eq!(phase, Phase { start: now, level: action.level, secs: action.wait.secs });
        now = action.wait.deadline(now).unwrap();
        task.on_timer();
    }
    assert_eq!(now, 145);
}

#[test]
fn cycle_repeats_every_two_delays() {
    let line = task(4).timeline(1, 40).unwrap();
    for k in 0..38 {
        assert_eq!(line[k + 2].level, line[k].level);
        assert_eq!(line[k + 2].start, line[k].start + 8);
        assert_ne!(line[k + 1].level, line[k].level);
        assert_eq!(line[k + 1].start, line[k].start + line[k].secs);
    }
}

#[test]
fn full_cycles_are_high_and_low_for_the_same_time() {
    for cycles in [0usize, 1, 2, 7, 50] {
        let line = task(6).timeline(0, 2 * cycles).unwrap();
        let high: Vec<&Phase> = line.iter().filter(|p| p.level == Level::High).collect();
        let low: Vec<&Phase> = line.iter().filter(|p| p.level == Level::Low).collect();
        assert_eq!(high.len(), cycles);
        assert_eq!(low.len(), cycles);
        assert_eq!(high.iter().map(|p| p.secs).sum::<u64>(), 6 * cycles as u64);
        assert_eq!(low.iter().map(|p| p.secs).sum::<u64>(), 6 * cycles as u64);
        assert!(line.iter().all(|p| p.secs == 6));
        if cycles > 0 {
            assert_eq!(line[0].level, Level::High);
            assert_eq!(line[2 * cycles - 1].level, Level::Low);
        }
    }
}

#[test]
fn delay_of_zero_toggles_without_time_passing() {
    let mut task = task(0);
    assert_eq!(
        task.timeline(9, 3),
        Some(vec![
            Phase { start: 9, level: Level::High, secs: 0 },
            Phase { start: 9, level: Level::Low, secs: 0 },
            Phase { start: 9, level: Level::High, secs: 0 },
        ])
    );
    assert_eq!(task.timeline(u64::MAX, 2).map(|line| line.len()), Some(2));
    assert_eq!(
        task.on_timer(),
        BlinkAction { level: Level::Low, wait: TimerRequest { secs: 0 } }
    );
}

#[test]
fn timeline_that_runs_past_the_clock_is_not_laid_out() {
    let task = task(10);
    assert_eq!(task.timeline(u64::MAX - 29, 3), None);
    assert_eq!(task.timeline(u64::MAX - 29, 4), None);
    assert_eq!(
        task.timeline(u64::MAX - 30, 3).map(|line| line[2]),
        Some(Phase { start: u64::MAX - 10, level: Level::High, secs: 10 })
    );
    assert_eq!(task.timeline(u64::MAX, 1), None);
    assert_eq!(task.timeline(u64::MAX, 0), Some(vec![]));
    let forever = blink(green(), u64::MAX);
    assert_eq!(
        forever.timeline(0, 1),
        Some(vec![Phase { start: 0, level: Level::High, secs: u64::MAX }])
    );
    assert_eq!(forever.timeline(0, 2), None);
    assert_eq!(forever.timeline(1, 1), None);
}

#[test]
fn phases_follow_one_another() {
    assert_eq!(BlinkState::OutputHigh.next(), BlinkState::OutputLow);
    assert_eq!(BlinkState::OutputLow.next(), BlinkState::OutputHigh);
    assert_eq!(BlinkState::OutputHigh.level(), Level::High);
    assert_eq!(BlinkState::OutputLow.level(), Level::Low);
}

#[test]
fn output_sampled_at_each_boundary_is_high_low_high_low() {
    let task = task(2);
    assert_eq!(task.level_at(0, 0), Some(Level::High));
    assert_eq!(task.level_at(0, 2), Some(Level::Low));
    assert_eq!(task.level_at(0, 4), Some(Level::High));
    assert_eq!(task.level_at(0, 6), Some(Level::Low));
}

#[test]
fn output_holds_its_level_between_boundaries() {
    let task = task(3);
    let levels: Vec<Option<Level>> = (10..=22).map(|now| task.level_at(10, now)).collect();
    let (h, l) = (Some(Level::High), Some(Level::Low));
    assert_eq!(levels, vec![h, h, h, l, l, l, h, h, h, l, l, l, h]);
    assert_eq!(task.level_at(10, 9), None);
    assert_eq!(task.level_at(10, 0), None);
    assert_eq!(task.level_at(0, u64::MAX), Some(Level::Low));
    assert_eq!(task.level_at(u64::MAX, u64::MAX), Some(Level::High));
}

#[test]
fn sampling_agrees_with_the_timeline() {
    let mut task = task(4);
    task.on_timer();
    let line = task.timeline(7, 6).unwrap();
    for phase in line {
        for now in phase.start..phase.start + phase.secs {
            assert_eq!(task.level_at(7, now), Some(phase.level));
        }
    }
}

#[test]
fn output_of_a_task_without_delay_cannot_be_sampled() {
    let task = task(0);
    assert_eq!(task.level_at(0, 0), None);
    assert_eq!(task.level_at(0, 5), None);
    assert_eq!(task.level_at(5, 0), None);
}
