//! Timer programs for the RK3588 PMU timer (24 MHz).
//!
//! `TimerDelay` is the busy-wait of a whole number of seconds on the timer:
//! it configures a one-shot count, then keeps reading the counter until the
//! count is reached.  The other functions are the arithmetic and the plans of
//! the timer tests.
use vstd::prelude::*;
use crate::gpio::Level;
use crate::led::{
    BLUE_LED_PIN, GPIO3_BANK, Pins, LedStep, apply_steps, driven_low, lemma_ends_driven_low, out,
};

verus! {

/// Base address of TIMER_PMU, the two-channel timer.
pub const TIMER_PMU_BASE: usize = 0xFD8F0000;

/// Channel of TIMER_PMU that the programs use.
pub const TIMER_CHANNEL: usize = 0;

/// Timer clock frequency in Hz.
pub const TIMER_FREQ: u64 = 24_000_000;

/// One second in timer ticks.
pub const ONE_SECOND_TICKS: u64 = 24_000_000;

/// Spins to wait when the counter has not moved since the delay began.
pub const SETTLE_SPINS: usize = 1000;

/// Number of blinks of the timer blink test.
pub const BLINK_COUNT: usize = 10;

/// Counting mode of a timer channel.
#[derive(Clone, Copy, Debug, PartialEq, Eq, Structural)]
pub enum TimerMode {
    /// Count once to the loaded value and stop.
    UserDefined,
    /// Count to the loaded value and start again.
    FreeRunning,
}

/// One operation on the timer channel (or a busy-wait).
#[derive(Clone, Copy, Debug, PartialEq, Eq, Structural)]
pub enum TimerOp {
    Disable,
    Enable,
    LoadCount(u64),
    SetMode(TimerMode),
    DisableInterrupt,
    /// Read the counter and hand the value to the program.
    ReadCounter,
    /// Busy-wait the given number of spins.
    Spin(usize),
}

/// The timer tests, by name.
#[derive(Clone, Copy, Debug, PartialEq, Eq, Structural)]
pub enum TimerTest {
    LedBlink,
    Accuracy,
    Interrupt,
    FreeRunning,
}

/// Ticks of a delay of `seconds` seconds.
pub open spec fn delay_target(seconds: u64) -> int {
    seconds * TIMER_FREQ
}

/// Where a timer delay stands.
#[derive(Clone, Copy, Debug, PartialEq, Eq, Structural)]
pub enum DelayPhase {
    /// Waiting for the counter value when the count starts.
    AwaitInitial,
    /// Waiting for a poll reading.
    AwaitReading,
    /// The reading equalled the starting value; waiting for a second reading
    /// to see whether the counter is moving.
    AwaitRecheck(u64),
    /// The delay is over.
    Done,
}

/// A delay on the timer: counts to `target` ticks in one-shot mode.
#[derive(Clone, Copy, Debug, PartialEq, Eq, Structural)]
pub struct TimerDelay {
    pub target: u64,
    pub initial: u64,
    pub phase: DelayPhase,
}

/// The delay in another phase.
pub open spec fn delay_in(m: TimerDelay, phase: DelayPhase) -> TimerDelay {
    TimerDelay { target: m.target, initial: m.initial, phase }
}

/// The judgement of a reading `c` that is not the unmoved starting value:
/// the delay is over once the counter has counted up to the target, or has
/// counted down to zero from a nonzero start; otherwise spin once and read
/// again.
pub open spec fn delay_judge(m: TimerDelay, c: u64) -> (TimerDelay, Seq<TimerOp>) {
    if c >= m.target || (c == 0 && m.initial != 0) {
        (delay_in(m, DelayPhase::Done), seq![TimerOp::Disable])
    } else {
        (delay_in(m, DelayPhase::AwaitReading), seq![TimerOp::Spin(1), TimerOp::ReadCounter])
    }
}

/// The delay after a counter reading, with the operations to perform next.
pub open spec fn delay_next(m: TimerDelay, value: u64) -> (TimerDelay, Seq<TimerOp>) {
    match m.phase {
        DelayPhase::AwaitInitial => (
            TimerDelay { target: m.target, initial: value, phase: DelayPhase::AwaitReading },
            seq![TimerOp::ReadCounter],
        ),
        DelayPhase::AwaitReading => if value == m.initial {
            (delay_in(m, DelayPhase::AwaitRecheck(value)), seq![TimerOp::ReadCounter])
        } else {
            delay_judge(m, value)
        },
        DelayPhase::AwaitRecheck(c) => if value == c {
            (
                delay_in(m, DelayPhase::AwaitReading),
                seq![TimerOp::Spin(SETTLE_SPINS), TimerOp::ReadCounter],
            )
        } else {
            delay_judge(m, c)
        },
        DelayPhase::Done => (m, seq![]),
    }
}

/// Configuration of a one-shot delay of `target` ticks, ending with the
/// read of the starting counter value.
pub open spec fn delay_setup(target: u64) -> Seq<TimerOp> {
    seq![
        TimerOp::Disable,
        TimerOp::LoadCount(target),
        TimerOp::SetMode(TimerMode::UserDefined),
        TimerOp::DisableInterrupt,
        TimerOp::Enable,
        TimerOp::ReadCounter,
    ]
}

impl TimerDelay {
    /// Starts a delay of `seconds` seconds; returns the delay and the
    /// operations that configure and start the count.
    pub fn new(seconds: u64) -> (r: (Self, Vec<TimerOp>))
        requires
            delay_target(seconds) <= u64::MAX,
        ensures
            r.0 == (TimerDelay {
                target: delay_target(seconds) as u64,
                initial: 0,
                phase: DelayPhase::AwaitInitial,
            }),
            r.1@ == delay_setup(delay_target(seconds) as u64),
    {
        let target = seconds * TIMER_FREQ;
        let ops = vec![
            TimerOp::Disable,
            TimerOp::LoadCount(target),
            TimerOp::SetMode(TimerMode::UserDefined),
            TimerOp::DisableInterrupt,
            TimerOp::Enable,
            TimerOp::ReadCounter,
        ];
        assert(ops@ =~= delay_setup(target));
        (TimerDelay { target, initial: 0, phase: DelayPhase::AwaitInitial }, ops)
    }

    /// Whether the delay is over.
    pub fn is_done(&self) -> (d: bool)
        ensures
            d <==> self.phase == DelayPhase::Done,
    {
        match self.phase {
            DelayPhase::Done => true,
            _ => false,
        }
    }

    /// Judges a reading that is not the unmoved starting value.
    fn judge(self, c: u64) -> (r: (Self, Vec<TimerOp>))
        ensures
            r.0 == delay_judge(self, c).0,
            r.1@ == delay_judge(self, c).1,
    {
        if c >= self.target || (c == 0 && self.initial != 0) {
            let ops = vec![TimerOp::Disable];
            assert(ops@ =~= seq![TimerOp::Disable]);
            (TimerDelay { target: self.target, initial: self.initial, phase: DelayPhase::Done }, ops)
        } else {
            let ops = vec![TimerOp::Spin(1), TimerOp::ReadCounter];
            assert(ops@ =~= seq![TimerOp::Spin(1), TimerOp::ReadCounter]);
            (
                TimerDelay {
                    target: self.target,
                    initial: self.initial,
                    phase: DelayPhase::AwaitReading,
                },
                ops,
            )
        }
    }

    /// Takes a counter reading; returns the delay and the operations to
    /// perform next (none once the delay is over).
    pub fn on_counter(self, value: u64) -> (r: (Self, Vec<TimerOp>))
        ensures
            r.0 == delay_next(self, value).0,
            r.1@ == delay_next(self, value).1,
            self.phase == DelayPhase::AwaitReading && value != self.initial && (value
                >= self.target || (value == 0 && self.initial != 0)) ==> r.0.phase
                == DelayPhase::Done && r.1@ == seq![TimerOp::Disable],
    {
        match self.phase {
            DelayPhase::AwaitInitial => {
                let ops = vec![TimerOp::ReadCounter];
                assert(ops@ =~= seq![TimerOp::ReadCounter]);
                (
                    TimerDelay {
                        target: self.target,
                        initial: value,
                        phase: DelayPhase::AwaitReading,
                    },
                    ops,
                )
            },
            DelayPhase::AwaitReading => {
                if value == self.initial {
                    let ops = vec![TimerOp::ReadCounter];
                    assert(ops@ =~= seq![TimerOp::ReadCounter]);
                    (
                        TimerDelay {
                            target: self.target,
                            initial: self.initial,
                            phase: DelayPhase::AwaitRecheck(value),
                        },
                        ops,
                    )
                } else {
                    self.judge(value)
                }
            },
            DelayPhase::AwaitRecheck(c) => {
                if value == c {
                    let ops = vec![TimerOp::Spin(SETTLE_SPINS), TimerOp::ReadCounter];
                    assert(ops@ =~= seq![TimerOp::Spin(SETTLE_SPINS), TimerOp::ReadCounter]);
                    (
                        TimerDelay {
                            target: self.target,
                            initial: self.initial,
                            phase: DelayPhase::AwaitReading,
                        },
                        ops,
                    )
                } else {
                    self.judge(c)
                }
            },
            DelayPhase::Done => {
                let ops: Vec<TimerOp> = Vec::new();
                assert(ops@ =~= Seq::<TimerOp>::empty());
                (self, ops)
            },
        }
    }
}

/// A delay ends only on a reading that has moved away from the starting
/// value and either reached the target or counted down to zero from a
/// nonzero start; a counter that keeps reading its starting value never ends
/// the delay; and the delay always disables the timer when it ends.
pub proof fn law_delay_ends_only_at_target(m: TimerDelay, value: u64)
    ensures
        !(m.phase is Done) && delay_next(m, value).0.phase is Done ==> {
            ||| (m.phase is AwaitReading && value != m.initial && (value >= m.target || (value == 0
                && m.initial != 0)))
            ||| (m.phase matches DelayPhase::AwaitRecheck(c) && value != c && (c >= m.target || (c
                == 0 && m.initial != 0)))
        },
        !(m.phase is Done) && delay_next(m, value).0.phase is Done ==> delay_next(m, value).1
            == seq![TimerOp::Disable],
        m.phase is AwaitReading && value == m.initial ==> !(delay_next(m, value).0.phase is Done),
        delay_next(m, value).0.target == m.target,
{
}

/// A delay always ends once it sees a reading that has moved away from the
/// starting value and has reached the target, or has counted down to zero
/// from a nonzero start: it is then done and disables the timer.  Likewise
/// when a recheck shows the counter moving and the first reading qualified.
/// A reading that has moved but does neither keeps the delay polling.
pub proof fn law_delay_ends_at_target(m: TimerDelay, value: u64)
    ensures
        m.phase == DelayPhase::AwaitReading && value != m.initial && (value >= m.target || (value
            == 0 && m.initial != 0)) ==> delay_next(m, value).0.phase == DelayPhase::Done
            && delay_next(m, value).1 == seq![TimerOp::Disable],
        forall|c: u64|
            m.phase == DelayPhase::AwaitRecheck(c) && value != c && (c >= m.target || (c == 0
                && m.initial != 0)) ==> #[trigger] delay_next(m, value).0.phase == DelayPhase::Done
                && delay_next(m, value).1 == seq![TimerOp::Disable],
        m.phase == DelayPhase::AwaitReading && value != m.initial && value < m.target && !(value
            == 0 && m.initial != 0) ==> delay_next(m, value).0.phase == DelayPhase::AwaitReading
            && delay_next(m, value).1 == seq![TimerOp::Spin(1), TimerOp::ReadCounter],
        delay_next(m, value).0.target == m.target,
        m.phase != DelayPhase::AwaitInitial ==> delay_next(m, value).0.initial == m.initial,
{
}

/// Ticks between two readings of a free-running counter, as the accuracy
/// test computes them: `end - start` when the counter moved forward, and
/// `(u64::MAX - start) + end` when it wrapped.
pub fn elapsed_ticks(start: u64, end: u64) -> (t: u64)
    ensures
        end > start ==> t == end - start,
        end <= start ==> t == (u64::MAX - start) + end,
{
    if end > start {
        end - start
    } else {
        (u64::MAX - start) + end
    }
}

/// Whole seconds in `ticks` timer ticks.
pub fn elapsed_seconds(ticks: u64) -> (s: u64)
    ensures
        s == ticks / TIMER_FREQ,
{
    ticks / TIMER_FREQ
}

/// A free-running counter has rolled over (wrapped or reloaded) when a
/// reading is below the previous one.
pub fn rolled_over(last: u64, current: u64) -> (r: bool)
    ensures
        r <==> current < last,
{
    current < last
}

/// LED level for a blink state.
pub fn blink_level(on: bool) -> (l: Level)
    ensures
        on ==> l == Level::High,
        !on ==> l == Level::Low,
{
    if on {
        Level::High
    } else {
        Level::Low
    }
}

/// Delays measured by the accuracy test, in seconds.
pub fn accuracy_durations() -> (d: Vec<u64>)
    ensures
        d@ == seq![1u64, 2u64, 5u64],
{
    let d = vec![1u64, 2u64, 5u64];
    assert(d@ =~= seq![1u64, 2u64, 5u64]);
    d
}

/// Configuration of a free-running count over the full range, from which the
/// accuracy test reads its start and end values.
pub fn free_running_setup() -> (ops: Vec<TimerOp>)
    ensures
        ops@ == seq![
            TimerOp::Disable,
            TimerOp::LoadCount(u64::MAX),
            TimerOp::SetMode(TimerMode::FreeRunning),
            TimerOp::Enable,
        ],
{
    let ops = vec![
        TimerOp::Disable,
        TimerOp::LoadCount(u64::MAX),
        TimerOp::SetMode(TimerMode::FreeRunning),
        TimerOp::Enable,
    ];
    assert(ops@ =~= seq![
        TimerOp::Disable,
        TimerOp::LoadCount(u64::MAX),
        TimerOp::SetMode(TimerMode::FreeRunning),
        TimerOp::Enable,
    ]);
    ops
}

/// One blink of the timer blink test: blue LED on, one second, off, one
/// second.
pub open spec fn timer_blink_round() -> Seq<LedStep> {
    seq![
        out(BLUE_LED_PIN, Level::High),
        LedStep::WaitSeconds(1),
        out(BLUE_LED_PIN, Level::Low),
        LedStep::WaitSeconds(1),
    ]
}

/// `n` blinks.
pub open spec fn timer_blinks(n: nat) -> Seq<LedStep>
    decreases n,
{
    if n == 0 {
        seq![]
    } else {
        timer_blinks((n - 1) as nat) + timer_blink_round()
    }
}

/// The timer blink test, once the timer is up: ten blinks, then the blue LED
/// off.
pub open spec fn timer_blink_script() -> Seq<LedStep> {
    timer_blinks(BLINK_COUNT as nat).push(out(BLUE_LED_PIN, Level::Low))
}

/// The timer blink test: ten one-second blinks of the blue LED timed by
/// the timer, then the LED off.  The runner brings the timer up first and
/// stops if that fails.
pub fn test_timer_led_blink() -> (s: Vec<LedStep>)
    ensures
        s@ == timer_blink_script(),
{
    let mut s: Vec<LedStep> = Vec::new();
    let mut i: usize = 0;
    while i < BLINK_COUNT
        invariant
            i <= BLINK_COUNT,
            s@ == timer_blinks(i as nat),
        decreases BLINK_COUNT - i,
    {
        s.push(LedStep::Output { bank: GPIO3_BANK, pin: BLUE_LED_PIN, level: Level::High });
        s.push(LedStep::WaitSeconds(1));
        s.push(LedStep::Output { bank: GPIO3_BANK, pin: BLUE_LED_PIN, level: Level::Low });
        s.push(LedStep::WaitSeconds(1));
        assert(s@ =~= timer_blinks((i + 1) as nat));
        i = i + 1;
    }
    s.push(LedStep::Output { bank: GPIO3_BANK, pin: BLUE_LED_PIN, level: Level::Low });
    s
}

/// The timer blink demo: the timer blink test.
pub fn timer_blink_demo() -> (s: Vec<LedStep>)
    ensures
        s@ == timer_blink_script(),
{
    test_timer_led_blink()
}

/// One operation of the timer interrupt test.
#[derive(Clone, Copy, Debug, PartialEq, Eq, Structural)]
pub enum InterruptTestOp {
    /// Start the timer: period in ticks, mode, interrupt enabled.
    Start(u64, TimerMode, bool),
    /// Read whether the timer's interrupt is pending.
    ReadInterruptStatus,
    /// Busy-wait the given number of spins.
    Spin(usize),
    /// Clear the pending interrupt.
    ClearInterrupt,
    /// Stop the timer.
    Stop,
}

/// The timer interrupt test, up to its decision: start the timer free
/// running with a one-second period and its interrupt enabled, read the
/// interrupt status, wait 10,000,000 spins, and read it again.
pub fn test_timer_interrupt() -> (ops: Vec<InterruptTestOp>)
    ensures
        ops@ == seq![
            InterruptTestOp::Start(ONE_SECOND_TICKS, TimerMode::FreeRunning, true),
            InterruptTestOp::ReadInterruptStatus,
            InterruptTestOp::Spin(10_000_000),
            InterruptTestOp::ReadInterruptStatus,
        ],
{
    let ops = vec![
        InterruptTestOp::Start(ONE_SECOND_TICKS, TimerMode::FreeRunning, true),
        InterruptTestOp::ReadInterruptStatus,
        InterruptTestOp::Spin(10_000_000),
        InterruptTestOp::ReadInterruptStatus,
    ];
    assert(ops@ =~= seq![
        InterruptTestOp::Start(ONE_SECOND_TICKS, TimerMode::FreeRunning, true),
        InterruptTestOp::ReadInterruptStatus,
        InterruptTestOp::Spin(10_000_000),
        InterruptTestOp::ReadInterruptStatus,
    ]);
    ops
}

/// The end of the timer interrupt test, given the last status read: clear
/// the interrupt if it is pending, then stop the timer.
pub fn finish_timer_interrupt(pending: bool) -> (ops: Vec<InterruptTestOp>)
    ensures
        pending ==> ops@ == seq![InterruptTestOp::ClearInterrupt, InterruptTestOp::Stop],
        !pending ==> ops@ == seq![InterruptTestOp::Stop],
{
    if pending {
        let ops = vec![InterruptTestOp::ClearInterrupt, InterruptTestOp::Stop];
        assert(ops@ =~= seq![InterruptTestOp::ClearInterrupt, InterruptTestOp::Stop]);
        ops
    } else {
        let ops = vec![InterruptTestOp::Stop];
        assert(ops@ =~= seq![InterruptTestOp::Stop]);
        ops
    }
}

/// All timer tests, in the order they run.
pub fn run_all_timer_tests() -> (t: Vec<TimerTest>)
    ensures
        t@ == seq![
            TimerTest::LedBlink,
            TimerTest::Accuracy,
            TimerTest::Interrupt,
            TimerTest::FreeRunning,
        ],
{
    let t = vec![TimerTest::LedBlink, TimerTest::Accuracy, TimerTest::Interrupt, TimerTest::FreeRunning];
    assert(t@ =~= seq![
        TimerTest::LedBlink,
        TimerTest::Accuracy,
        TimerTest::Interrupt,
        TimerTest::FreeRunning,
    ]);
    t
}

/// The timer blink test leaves the blue LED switched off, whatever state the
/// pins were in before.
pub proof fn law_timer_blink_leaves_led_off(pins: Pins)
    ensures
        driven_low(apply_steps(pins, timer_blink_script()), BLUE_LED_PIN),
{
    let b = timer_blinks(BLINK_COUNT as nat);
    assert(timer_blink_script() =~= b.push(out(BLUE_LED_PIN, Level::Low)) + seq![]);
    lemma_ends_driven_low(pins, b, seq![], BLUE_LED_PIN);
}


// ---------------------------------------------------------------------------
// Free-running blink
// ---------------------------------------------------------------------------

/// One operation of the free-running blink test.
#[derive(Clone, Copy, Debug, PartialEq, Eq, Structural)]
pub enum FreeRunOp {
    /// Start the timer in free-running mode with the given period, interrupt
    /// disabled.
    StartFreeRunning(u64),
    /// Read the counter and hand the value to the program.
    ReadCounter,
    /// Busy-wait the given number of spins.
    Spin(usize),
    /// `GpioController::set_output(bank, pin, level)`.
    SetOutput { bank: usize, pin: u8, level: Level },
    /// Stop the timer.
    Stop,
}

/// Where the free-running blink stands.
#[derive(Clone, Copy, Debug, PartialEq, Eq, Structural)]
pub enum FreeRunPhase {
    /// Waiting for the counter value right after the start.
    AwaitFirst,
    /// Polling for the counter to roll over.
    AwaitRollover,
    /// Waiting for the counter value right after a blink.
    AwaitAfterBlink,
    /// Ten blinks done, timer stopped, LED off.
    Done,
}

/// The free-running blink test: the timer runs free with a one-second
/// period; at each rollover (a reading below the previous one) the blue LED
/// changes state, ten times; then the timer stops and the LED is switched
/// off.
#[derive(Clone, Copy, Debug, PartialEq, Eq, Structural)]
pub struct FreeRunBlink {
    /// Previous counter reading.
    pub last: u64,
    /// Whether the LED is on.
    pub on: bool,
    /// Rollovers seen so far.
    pub blinks: usize,
    pub phase: FreeRunPhase,
}

/// Drive the blue LED.
pub open spec fn blue(level: Level) -> FreeRunOp {
    FreeRunOp::SetOutput { bank: GPIO3_BANK, pin: BLUE_LED_PIN, level }
}

/// The LED level for a blink state.
pub open spec fn level_for(on: bool) -> Level {
    if on {
        Level::High
    } else {
        Level::Low
    }
}

/// The blink is in a state it can reach: at most ten blinks, the LED on
/// after an odd number of them.
pub open spec fn freerun_wf(m: FreeRunBlink) -> bool {
    &&& m.blinks <= BLINK_COUNT
    &&& m.on == (m.blinks % 2 == 1)
    &&& match m.phase {
        FreeRunPhase::AwaitFirst => m.blinks == 0,
        FreeRunPhase::AwaitRollover => m.blinks < BLINK_COUNT,
        FreeRunPhase::AwaitAfterBlink => 1 <= m.blinks,
        FreeRunPhase::Done => m.blinks == BLINK_COUNT,
    }
}

/// The blink after a counter reading, with the operations to perform next.
pub open spec fn freerun_next(m: FreeRunBlink, value: u64) -> (FreeRunBlink, Seq<FreeRunOp>) {
    match m.phase {
        FreeRunPhase::AwaitFirst => (
            FreeRunBlink { last: value, on: m.on, blinks: m.blinks, phase: FreeRunPhase::AwaitRollover },
            seq![FreeRunOp::ReadCounter],
        ),
        FreeRunPhase::AwaitRollover => if value < m.last {
            (
                FreeRunBlink {
                    last: m.last,
                    on: !m.on,
                    blinks: (m.blinks + 1) as usize,
                    phase: FreeRunPhase::AwaitAfterBlink,
                },
                seq![blue(level_for(!m.on)), FreeRunOp::ReadCounter],
            )
        } else {
            (
                FreeRunBlink { last: value, on: m.on, blinks: m.blinks, phase: m.phase },
                seq![FreeRunOp::Spin(1), FreeRunOp::ReadCounter],
            )
        },
        FreeRunPhase::AwaitAfterBlink => if m.blinks >= BLINK_COUNT {
            (
                FreeRunBlink { last: value, on: m.on, blinks: m.blinks, phase: FreeRunPhase::Done },
                seq![FreeRunOp::Stop, blue(Level::Low)],
            )
        } else {
            (
                FreeRunBlink {
                    last: value,
                    on: m.on,
                    blinks: m.blinks,
                    phase: FreeRunPhase::AwaitRollover,
                },
                seq![FreeRunOp::ReadCounter],
            )
        },
        FreeRunPhase::Done => (m, seq![]),
    }
}

impl FreeRunBlink {
    /// Starts the free-running blink; returns it and the operations that
    /// start the timer and read the counter.
    pub fn new() -> (r: (Self, Vec<FreeRunOp>))
        ensures
            r.0 == (FreeRunBlink { last: 0, on: false, blinks: 0, phase: FreeRunPhase::AwaitFirst }),
            r.1@ == seq![FreeRunOp::StartFreeRunning(ONE_SECOND_TICKS), FreeRunOp::ReadCounter],
            freerun_wf(r.0),
    {
        let ops = vec![FreeRunOp::StartFreeRunning(ONE_SECOND_TICKS), FreeRunOp::ReadCounter];
        assert(ops@ =~= seq![FreeRunOp::StartFreeRunning(ONE_SECOND_TICKS), FreeRunOp::ReadCounter]);
        (FreeRunBlink { last: 0, on: false, blinks: 0, phase: FreeRunPhase::AwaitFirst }, ops)
    }

    /// Whether the test is over.
    pub fn is_done(&self) -> (d: bool)
        ensures
            d <==> self.phase == FreeRunPhase::Done,
    {
        match self.phase {
            FreeRunPhase::Done => true,
            _ => false,
        }
    }

    /// Takes a counter reading; returns the blink and the operations to
    /// perform next (none once the test is over).
    pub fn on_counter(self, value: u64) -> (r: (Self, Vec<FreeRunOp>))
        requires
            freerun_wf(self),
        ensures
            r.0 == freerun_next(self, value).0,
            r.1@ == freerun_next(self, value).1,
            freerun_wf(r.0),
            self.phase == FreeRunPhase::AwaitRollover ==> (r.0.blinks == self.blinks + 1 <==> value
                < self.last),
            self.phase != FreeRunPhase::Done && !(self.phase == FreeRunPhase::AwaitRollover && value
                < self.last) ==> r.0.last == value,
    {
        match self.phase {
            FreeRunPhase::AwaitFirst => {
                let ops = vec![FreeRunOp::ReadCounter];
                assert(ops@ =~= seq![FreeRunOp::ReadCounter]);
                (
                    FreeRunBlink {
                        last: value,
                        on: self.on,
                        blinks: self.blinks,
                        phase: FreeRunPhase::AwaitRollover,
                    },
                    ops,
                )
            },
            FreeRunPhase::AwaitRollover => {
                if rolled_over(self.last, value) {
                    let on = !self.on;
                    let ops = vec![
                        FreeRunOp::SetOutput {
                            bank: GPIO3_BANK,
                            pin: BLUE_LED_PIN,
                            level: blink_level(on),
                        },
                        FreeRunOp::ReadCounter,
                    ];
                    assert(ops@ =~= seq![blue(level_for(!self.on)), FreeRunOp::ReadCounter]);
                    (
                        FreeRunBlink {
                            last: self.last,
                            on,
                            blinks: self.blinks + 1,
                            phase: FreeRunPhase::AwaitAfterBlink,
                        },
                        ops,
                    )
                } else {
                    let ops = vec![FreeRunOp::Spin(1), FreeRunOp::ReadCounter];
                    assert(ops@ =~= seq![FreeRunOp::Spin(1), FreeRunOp::ReadCounter]);
                    (FreeRunBlink { last: value, on: self.on, blinks: self.blinks, phase: self.phase }, ops)
                }
            },
            FreeRunPhase::AwaitAfterBlink => {
                if self.blinks >= BLINK_COUNT {
                    let ops = vec![
                        FreeRunOp::Stop,
                        FreeRunOp::SetOutput { bank: GPIO3_BANK, pin: BLUE_LED_PIN, level: Level::Low },
                    ];
                    assert(ops@ =~= seq![FreeRunOp::Stop, blue(Level::Low)]);
                    (
                        FreeRunBlink {
                            last: value,
                            on: self.on,
                            blinks: self.blinks,
                            phase: FreeRunPhase::Done,
                        },
                        ops,
                    )
                } else {
                    let ops = vec![FreeRunOp::ReadCounter];
                    assert(ops@ =~= seq![FreeRunOp::ReadCounter]);
                    (
                        FreeRunBlink {
                            last: value,
                            on: self.on,
                            blinks: self.blinks,
                            phase: FreeRunPhase::AwaitRollover,
                        },
                        ops,
                    )
                }
            },
            FreeRunPhase::Done => {
                let ops: Vec<FreeRunOp> = Vec::new();
                assert(ops@ =~= Seq::<FreeRunOp>::empty());
                (self, ops)
            },
        }
    }
}

/// A blink happens exactly at a reading below the previous reading: in the
/// polling phase a reading blinks exactly when it is below the last one,
/// and every reading that does not blink becomes the last one; the reading
/// taken right after a blink becomes the last one too.  So after a blink at
/// reading `v`, the next reading `w` blinks again exactly when `w < v`.
pub proof fn law_freerun_blinks_at_rollover(m: FreeRunBlink, v: u64, w: u64)
    requires
        freerun_wf(m),
    ensures
        m.phase == FreeRunPhase::AwaitRollover ==> (freerun_next(m, v).0.blinks == m.blinks + 1
            <==> v < m.last),
        m.phase == FreeRunPhase::AwaitRollover && v >= m.last ==> freerun_next(m, v).0.last == v
            && freerun_next(m, v).0.blinks == m.blinks && freerun_next(m, v).0.on == m.on,
        m.phase == FreeRunPhase::AwaitFirst ==> freerun_next(m, v).0.last == v,
        m.phase == FreeRunPhase::AwaitAfterBlink ==> freerun_next(m, v).0.last == v,
        m.phase == FreeRunPhase::AwaitAfterBlink && m.blinks < BLINK_COUNT ==> (freerun_next(
            freerun_next(m, v).0,
            w,
        ).0.blinks == m.blinks + 1 <==> w < v),
{
}

/// The free-running blink test drives only the blue LED (GPIO3 pin 6), at
/// each rollover to the level that matches the new blink state, and
/// switches it off, after stopping the timer, exactly when it finishes
/// after its tenth blink; once finished it does nothing more.
pub proof fn law_freerun_drives_only_blue_and_ends_off(m: FreeRunBlink, value: u64)
    requires
        freerun_wf(m),
    ensures
        forall|i: int|
            0 <= i < freerun_next(m, value).1.len() ==> (#[trigger] freerun_next(m, value).1[i]
                matches FreeRunOp::SetOutput { bank, pin, .. } ==> bank == GPIO3_BANK && pin
                == BLUE_LED_PIN),
        m.phase != FreeRunPhase::Done && freerun_next(m, value).0.phase == FreeRunPhase::Done ==> (
        freerun_next(m, value).1 == seq![FreeRunOp::Stop, blue(Level::Low)]
            && freerun_next(m, value).0.blinks == BLINK_COUNT),
        m.phase == FreeRunPhase::Done ==> freerun_next(m, value).1.len() == 0,
{
}

/// Every GPIO operation of the timer tests drives the blue LED (GPIO3 pin
/// 6), and each test that drives it ends by switching it off: the blink
/// test's last step drives it `Low`, and so does the free-running test's
/// last operation (see `law_freerun_drives_only_blue_and_ends_off`).
pub proof fn law_timer_blink_drives_only_blue()
    ensures
        forall|i: int|
            0 <= i < timer_blink_script().len() ==> (#[trigger] timer_blink_script()[i] matches LedStep::Output { bank, pin, .. }
                && bank == GPIO3_BANK && pin == BLUE_LED_PIN) || timer_blink_script()[i]
                is WaitSeconds,
        timer_blink_script().last() == out(BLUE_LED_PIN, Level::Low),
{
    lemma_timer_blinks_blue(BLINK_COUNT as nat);
    let b = timer_blinks(BLINK_COUNT as nat);
    assert forall|i: int| 0 <= i < timer_blink_script().len() implies (#[trigger] timer_blink_script()[i] matches LedStep::Output { bank, pin, .. }
        && bank == GPIO3_BANK && pin == BLUE_LED_PIN) || timer_blink_script()[i]
        is WaitSeconds by {
        if i < b.len() {
            assert(timer_blink_script()[i] == b[i]);
        }
    }
}

proof fn lemma_timer_blinks_blue(n: nat)
    ensures
        forall|i: int|
            0 <= i < timer_blinks(n).len() ==> (#[trigger] timer_blinks(n)[i] matches LedStep::Output { bank, pin, .. }
                && bank == GPIO3_BANK && pin == BLUE_LED_PIN) || timer_blinks(n)[i] is WaitSeconds,
    decreases n,
{
    if n > 0 {
        lemma_timer_blinks_blue((n - 1) as nat);
        let a = timer_blinks((n - 1) as nat);
        let r = timer_blink_round();
        assert forall|i: int| 0 <= i < (a + r).len() implies (#[trigger] (a + r)[i] matches LedStep::Output { bank, pin, .. }
            && bank == GPIO3_BANK && pin == BLUE_LED_PIN) || (a + r)[i] is WaitSeconds by {
            if i < a.len() {
                assert((a + r)[i] == a[i]);
            } else {
                assert((a + r)[i] == r[i - a.len()]);
            }
        }
    }
}

} // verus!
