//! The status LED task: an output that is driven high and low in turn, each
//! for the same number of seconds, for as long as the firmware runs.

use vstd::prelude::*;
use vstd::arithmetic::div_mod::{lemma_fundamental_div_mod, lemma_fundamental_div_mod_converse};
use crate::pins::{Level, PinHandle};
use crate::timer::TimerRequest;

verus! {

/// Phase of the blink cycle.
#[derive(Clone, Copy, Debug, PartialEq, Eq, Structural)]
pub enum BlinkState {
    OutputHigh,
    OutputLow,
}

impl BlinkState {
    pub open spec fn spec_level(self) -> Level {
        match self {
            BlinkState::OutputHigh => Level::High,
            BlinkState::OutputLow => Level::Low,
        }
    }

    /// The level the output is driven to in this phase.
    #[verifier::when_used_as_spec(spec_level)]
    pub fn level(self) -> (level: Level)
        ensures
            level == self.spec_level(),
    {
        match self {
            BlinkState::OutputHigh => Level::High,
            BlinkState::OutputLow => Level::Low,
        }
    }

    pub open spec fn spec_next(self) -> BlinkState {
        match self {
            BlinkState::OutputHigh => BlinkState::OutputLow,
            BlinkState::OutputLow => BlinkState::OutputHigh,
        }
    }

    /// The phase that follows this one.
    #[verifier::when_used_as_spec(spec_next)]
    pub fn next(self) -> (next: BlinkState)
        ensures
            next == self.spec_next(),
    {
        match self {
            BlinkState::OutputHigh => BlinkState::OutputLow,
            BlinkState::OutputLow => BlinkState::OutputHigh,
        }
    }

    /// The phase reached from this one after `phases` changes of phase.
    pub open spec fn after(self, phases: nat) -> BlinkState {
        if phases % 2 == 0 {
            self
        } else {
            self.next()
        }
    }
}

/// What the task asks of its surroundings on entering a phase: drive the
/// output to `level`, then resume the task when `wait` has fired.
#[derive(Clone, Copy, Debug, PartialEq, Eq, Structural)]
pub struct BlinkAction {
    pub level: Level,
    pub wait: TimerRequest,
}

/// The action that goes with a phase of a task with the given delay.
pub open spec fn action_of(state: BlinkState, delay_sec: u64) -> BlinkAction {
    BlinkAction { level: state.level(), wait: TimerRequest { secs: delay_sec } }
}

/// The blink task: the LED it owns, its delay and the phase it is in.
#[derive(Debug, PartialEq, Eq)]
pub struct BlinkTask {
    led: PinHandle,
    delay_sec: u64,
    state: BlinkState,
}

/// Creates the blink task for the LED `led_p`, in phase `OutputHigh`, with
/// `delay_sec` seconds between two changes of phase.
pub fn blink(led_p: PinHandle, delay_sec: u64) -> (task: BlinkTask)
    ensures
        task.led() == led_p,
        task.delay_sec() == delay_sec,
        task.state() == BlinkState::OutputHigh,
{
    BlinkTask { led: led_p, delay_sec, state: BlinkState::OutputHigh }
}

impl BlinkTask {
    pub closed spec fn spec_led(&self) -> &PinHandle {
        &self.led
    }

    /// The LED the task owns.
    #[verifier::when_used_as_spec(spec_led)]
    pub fn led(&self) -> (led: &PinHandle)
        ensures
            led == self.spec_led(),
    {
        &self.led
    }

    pub closed spec fn spec_delay_sec(&self) -> u64 {
        self.delay_sec
    }

    /// Seconds between two changes of phase.
    #[verifier::when_used_as_spec(spec_delay_sec)]
    pub fn delay_sec(&self) -> (secs: u64)
        ensures
            secs == self.spec_delay_sec(),
    {
        self.delay_sec
    }

    pub closed spec fn spec_state(&self) -> BlinkState {
        self.state
    }

    /// The phase the task is in.
    #[verifier::when_used_as_spec(spec_state)]
    pub fn state(&self) -> (state: BlinkState)
        ensures
            state == self.spec_state(),
    {
        self.state
    }

    /// The action that goes with the phase the task is in. For a task that
    /// was just created it is what to do first.
    pub fn action(&self) -> (action: BlinkAction)
        ensures
            action == action_of(self.state(), self.delay_sec()),
    {
        BlinkAction { level: self.state.level(), wait: TimerRequest::after_secs(self.delay_sec) }
    }

    /// Moves the task on when its timer has fired: it enters the other
    /// phase and hands out the action that goes with it. The LED and the
    /// delay stay as they are.
    pub fn on_timer(&mut self) -> (action: BlinkAction)
        ensures
            final(self).state() == old(self).state().next(),
            final(self).delay_sec() == old(self).delay_sec(),
            final(self).led() == old(self).led(),
            action == action_of(final(self).state(), final(self).delay_sec()),
    {
        self.state = self.state.next();
        self.action()
    }
}

/// A stretch of time during which the output holds one level: from
/// `start`, for `secs` seconds.
#[derive(Clone, Copy, Debug, PartialEq, Eq, Structural)]
pub struct Phase {
    pub start: u64,
    pub level: Level,
    pub secs: u64,
}

/// Level of the output during phase `k`, counting from zero for the phase
/// the task is in when it is in `state`.
pub open spec fn phase_level(state: BlinkState, k: nat) -> Level {
    state.after(k).level()
}

/// Instant at which phase `k` begins when phase zero begins at `from` and
/// each phase lasts `delay_sec` seconds.
pub open spec fn phase_start(from: int, delay_sec: int, k: nat) -> int {
    from + k * delay_sec
}

/// The phase that holds at `now` when phase zero begins at `from` and each
/// phase lasts `delay_sec` seconds. Meaningful for a delay above zero and
/// from `from` on.
pub open spec fn phase_at(from: int, delay_sec: int, now: int) -> nat {
    ((now - from) / delay_sec) as nat
}

/// Number of phases among the first `phases` during which the output is
/// at `level`.
pub open spec fn phases_at(state: BlinkState, level: Level, phases: nat) -> nat
    decreases phases,
{
    if phases == 0 {
        0
    } else {
        let last: nat = if phase_level(state, (phases - 1) as nat) == level {
            1
        } else {
            0
        };
        phases_at(state, level, (phases - 1) as nat) + last
    }
}

/// Seconds among the first `phases` phases during which the output is at
/// `level`.
pub open spec fn secs_at(state: BlinkState, level: Level, delay_sec: nat, phases: nat) -> nat
    decreases phases,
{
    if phases == 0 {
        0
    } else {
        let last: nat = if phase_level(state, (phases - 1) as nat) == level {
            delay_sec
        } else {
            0
        };
        secs_at(state, level, delay_sec, (phases - 1) as nat) + last
    }
}

impl BlinkTask {
    /// The level of the output at `now`, for a task that entered the phase
    /// it is in at `from` and is moved on each time its timer fires.
    ///
    /// There is no such level, and the result is `None`, before `from`, and
    /// for a delay of zero, with which every phase begins at `from`.
    pub fn level_at(&self, from: u64, now: u64) -> (level: Option<Level>)
        ensures
            level == if from <= now && self.delay_sec() > 0 {
                Some(
                    phase_level(
                        self.state(),
                        phase_at(from as int, self.delay_sec() as int, now as int),
                    ),
                )
            } else {
                None
            },
    {
        if now < from || self.delay_sec == 0 {
            return None;
        }
        let phase: u64 = (now - from) / self.delay_sec;
        if phase % 2 == 0 {
            Some(self.state.level())
        } else {
            Some(self.state.next().level())
        }
    }

    /// Lays out the next `phases` phases of the task on a clock that reads
    /// `from` as the task enters the phase it is in. The task itself is not
    /// moved on.
    ///
    /// Phase `k` begins at `from + k * delay`, lasts `delay` seconds and
    /// holds the level of the phase reached after `k` changes. The result
    /// is `None` where the end of the last phase lies beyond what the clock
    /// can count.
    pub fn timeline(&self, from: u64, phases: usize) -> (out: Option<Vec<Phase>>)
        ensures
            match out {
                Some(line) => {
                    &&& phase_start(from as int, self.delay_sec() as int, phases as nat)
                        <= u64::MAX
                    &&& line@.len() == phases
                    &&& forall|k: int|
                        0 <= k < phases ==> {
                            &&& (#[trigger] line@[k]).start == phase_start(
                                from as int,
                                self.delay_sec() as int,
                                k as nat,
                            )
                            &&& line@[k].level == phase_level(self.state(), k as nat)
                            &&& line@[k].secs == self.delay_sec()
                        }
                },
                None => phase_start(from as int, self.delay_sec() as int, phases as nat)
                    > u64::MAX,
            },
    {
        let delay = self.delay_sec;
        let mut line: Vec<Phase> = Vec::new();
        let mut start: u64 = from;
        let mut state = self.state;
        let mut i: usize = 0;
        while i < phases
            invariant
                i <= phases,
                delay == self.delay_sec(),
                line@.len() == i,
                start == phase_start(from as int, delay as int, i as nat),
                state == self.state().after(i as nat),
                forall|k: int|
                    0 <= k < i ==> {
                        &&& (#[trigger] line@[k]).start == phase_start(
                            from as int,
                            delay as int,
                            k as nat,
                        )
                        &&& line@[k].level == phase_level(self.state(), k as nat)
                        &&& line@[k].secs == delay
                    },
            decreases phases - i,
        {
            proof {
                lemma_phase_start_grows(from as int, delay as int, (i + 1) as nat, phases as nat);
                lemma_phases_alternate(self.state(), from as int, delay as int, i as nat);
            }
            let end: u64 = match start.checked_add(delay) {
                Some(end) => end,
                None => {
                    return None;
                },
            };
            line.push(Phase { start, level: state.level(), secs: delay });
            start = end;
            state = state.next();
            i = i + 1;
        }
        Some(line)
    }
}

/// A task sees its delays pass in order: a later phase does not begin
/// before an earlier one.
pub proof fn lemma_phase_start_grows(from: int, delay_sec: int, j: nat, k: nat)
    requires
        0 <= delay_sec,
        j <= k,
    ensures
        phase_start(from, delay_sec, j) <= phase_start(from, delay_sec, k),
{
    assert(j * delay_sec <= k * delay_sec) by (nonlinear_arith)
        requires
            0 <= delay_sec,
            j <= k,
    ;
}

/// The phases alternate strictly and follow one another without a gap:
/// each phase holds the level opposite to the one before it, and begins
/// exactly one delay after it.
pub proof fn lemma_phases_alternate(state: BlinkState, from: int, delay_sec: int, k: nat)
    ensures
        state.after(k + 1) == state.after(k).next(),
        phase_level(state, k + 1) == phase_level(state, k).toggled(),
        phase_start(from, delay_sec, k + 1) == phase_start(from, delay_sec, k) + delay_sec,
{
    assert((k + 1) * delay_sec == k * delay_sec + delay_sec) by (nonlinear_arith);
}

/// From the instant phase `k` begins until phase `k + 1` begins, and at no
/// other time, the phase that holds is `k`.
pub proof fn lemma_phase_holds(from: int, delay_sec: int, k: nat, now: int)
    requires
        0 < delay_sec,
    ensures
        phase_start(from, delay_sec, k) <= now < phase_start(from, delay_sec, k + 1) <==> from
            <= now && phase_at(from, delay_sec, now) == k,
{
    let passed = now - from;
    assert((k + 1) * delay_sec == k * delay_sec + delay_sec) by (nonlinear_arith);
    if phase_start(from, delay_sec, k) <= now < phase_start(from, delay_sec, k + 1) {
        assert(0 <= k * delay_sec) by (nonlinear_arith)
            requires
                0 <= k,
                0 < delay_sec,
        ;
        lemma_fundamental_div_mod_converse(passed, delay_sec, k as int, passed - k * delay_sec);
    }
    if from <= now && phase_at(from, delay_sec, now) == k {
        lemma_fundamental_div_mod(passed, delay_sec);
        assert(0 <= passed % delay_sec < delay_sec) by (nonlinear_arith)
            requires
                0 < delay_sec,
        ;
        assert(0 <= passed / delay_sec) by (nonlinear_arith)
            requires
                0 <= passed,
                0 < delay_sec,
        ;
        assert(delay_sec * (passed / delay_sec) == k * delay_sec) by (nonlinear_arith)
            requires
                passed / delay_sec == k,
        ;
    }
}

/// The cycle is periodic with a period of two phases, that is of twice the
/// delay: two phases on, the output holds the same level again.
pub proof fn lemma_blink_periodic(state: BlinkState, from: int, delay_sec: int, k: nat)
    ensures
        state.after(k + 2) == state.after(k),
        phase_level(state, k + 2) == phase_level(state, k),
        phase_start(from, delay_sec, k + 2) == phase_start(from, delay_sec, k) + 2 * delay_sec,
{
    assert((k + 2) * delay_sec == k * delay_sec + 2 * delay_sec) by (nonlinear_arith);
}

/// A task that starts in phase `OutputHigh` starts with its output high,
/// and after any number of full cycles the output has been high for
/// exactly that many phases and low for exactly that many, each lasting
/// one delay.
pub proof fn lemma_full_cycles(delay_sec: nat, cycles: nat)
    ensures
        phase_level(BlinkState::OutputHigh, 0) == Level::High,
        phases_at(BlinkState::OutputHigh, Level::High, 2 * cycles) == cycles,
        phases_at(BlinkState::OutputHigh, Level::Low, 2 * cycles) == cycles,
        secs_at(BlinkState::OutputHigh, Level::High, delay_sec, 2 * cycles) == cycles * delay_sec,
        secs_at(BlinkState::OutputHigh, Level::Low, delay_sec, 2 * cycles) == cycles * delay_sec,
    decreases cycles,
{
    if cycles > 0 {
        let before = (cycles - 1) as nat;
        lemma_full_cycles(delay_sec, before);
        reveal_with_fuel(phases_at, 3);
        reveal_with_fuel(secs_at, 3);
        assert(2 * cycles - 1 == 2 * before + 1);
        assert(2 * cycles - 2 == 2 * before);
        assert(cycles * delay_sec == before * delay_sec + delay_sec) by (nonlinear_arith)
            requires
                cycles == before + 1,
        ;
    }
}

} // verus!
