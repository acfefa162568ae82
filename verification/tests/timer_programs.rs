use rstiny::gpio::Level;
use rstiny::led::{LedStep, BLUE_LED_PIN, GPIO3_BANK};
use rstiny::timer::{
    accuracy_durations, blink_level, elapsed_seconds, elapsed_ticks, free_running_setup,
    rolled_over, run_all_timer_tests, test_timer_interrupt, finish_timer_interrupt, InterruptTestOp, FreeRunBlink, FreeRunOp, FreeRunPhase, test_timer_led_blink, timer_blink_demo, DelayPhase,
    TimerDelay, TimerMode, TimerOp, TimerTest, TIMER_FREQ,
};

/// Runs a delay against a scripted counter; returns the operations issued and
/// how many readings were taken.
fn run_delay(seconds: u64, readings: &[u64]) -> (Vec<TimerOp>, usize, bool) {
    let (mut d, ops) = TimerDelay::new(seconds);
    let mut all = ops.clone();
    let mut taken = 0;
    while !d.is_done() && taken < readings.len() {
        let (nd, ops) = d.on_counter(readings[taken]);
        taken += 1;
        all.extend(ops);
        d = nd;
    }
    (all, taken, d.is_done())
}

#[test]
fn delay_configures_a_one_shot_count() {
    let (d, ops) = TimerDelay::new(2);
    assert_eq!(d.target, 48_000_000);
    assert_eq!(d.phase, DelayPhase::AwaitInitial);
    assert_eq!(
        ops,
        vec![
            TimerOp::Disable,
            TimerOp::LoadCount(2 * TIMER_FREQ),
            TimerOp::SetMode(TimerMode::UserDefined),
            TimerOp::DisableInterrupt,
            TimerOp::Enable,
            TimerOp::ReadCounter,
        ]
    );
}

#[test]
fn delay_ends_when_counting_up_to_target() {
    // start 0, then 0 again twice (not moving: settle), then moving up.
    let (ops, taken, done) = run_delay(1, &[0, 0, 0, 5, 23_999_999, 24_000_000, 1]);
    assert!(done);
    assert_eq!(taken, 6);
    assert_eq!(ops.last(), Some(&TimerOp::Disable));
    assert!(ops.contains(&TimerOp::Spin(1000)));
}

#[test]
fn delay_ends_when_counting_down_to_zero() {
    let (_, taken, done) = run_delay(1, &[24_000_000, 12_000_000, 0]);
    assert!(done);
    assert_eq!(taken, 3);
}

#[test]
fn stuck_counter_never_ends_the_delay() {
    let (ops, taken, done) = run_delay(1, &[7; 50]);
    assert!(!done);
    assert_eq!(taken, 50);
    assert!(!ops[6..].contains(&TimerOp::Disable));
}

#[test]
fn recheck_that_moved_is_judged_on_first_reading() {
    // initial 5, reading 5 (unmoved), recheck 9: judged on 5, not done.
    let (d, _) = TimerDelay::new(1);
    let (d, _) = d.on_counter(5);
    let (d, ops) = d.on_counter(5);
    assert_eq!(d.phase, DelayPhase::AwaitRecheck(5));
    assert_eq!(ops, vec![TimerOp::ReadCounter]);
    let (d, ops) = d.on_counter(9);
    assert_eq!(d.phase, DelayPhase::AwaitReading);
    assert_eq!(ops, vec![TimerOp::Spin(1), TimerOp::ReadCounter]);
    let (done, ops) = d.on_counter(30_000_000);
    assert!(done.is_done());
    assert_eq!(ops, vec![TimerOp::Disable]);
    let (again, ops) = done.on_counter(0);
    assert_eq!(again, done);
    assert!(ops.is_empty());
}

#[test]
fn elapsed_ticks_forward_and_wrapped() {
    assert_eq!(elapsed_ticks(100, 24_000_100), 24_000_000);
    assert_eq!(elapsed_ticks(u64::MAX - 10, 5), 15);
    assert_eq!(elapsed_ticks(42, 42), u64::MAX);
    assert_eq!(elapsed_seconds(48_000_000), 2);
    assert_eq!(elapsed_seconds(23_999_999), 0);
}

#[test]
fn free_running_helpers() {
    assert!(rolled_over(10, 3));
    assert!(!rolled_over(3, 10));
    assert!(!rolled_over(3, 3));
    assert_eq!(blink_level(true), Level::High);
    assert_eq!(blink_level(false), Level::Low);
    assert_eq!(accuracy_durations(), vec![1, 2, 5]);
    assert_eq!(
        free_running_setup(),
        vec![
            TimerOp::Disable,
            TimerOp::LoadCount(u64::MAX),
            TimerOp::SetMode(TimerMode::FreeRunning),
            TimerOp::Enable
        ]
    );
}

#[test]
fn timer_blink_plan() {
    let s = timer_blink_demo();
    assert_eq!(s, test_timer_led_blink());
    assert_eq!(s.len(), 41);
    assert_eq!(s[0], LedStep::Output { bank: GPIO3_BANK, pin: BLUE_LED_PIN, level: Level::High });
    assert_eq!(s[1], LedStep::WaitSeconds(1));
    assert_eq!(s[40], LedStep::Output { bank: GPIO3_BANK, pin: BLUE_LED_PIN, level: Level::Low });
}

#[test]
fn timer_suite_order() {
    assert_eq!(
        run_all_timer_tests(),
        vec![TimerTest::LedBlink, TimerTest::Accuracy, TimerTest::Interrupt, TimerTest::FreeRunning]
    );
}

#[test]
fn free_running_blink_ten_rollovers_then_off() {
    let (mut m, ops) = FreeRunBlink::new();
    assert_eq!(ops, vec![FreeRunOp::StartFreeRunning(24_000_000), FreeRunOp::ReadCounter]);
    let mut all: Vec<FreeRunOp> = Vec::new();
    // counter climbs 0..=4 and wraps to 0, repeatedly.
    let mut v: u64 = 0;
    let mut reads = 0;
    while !m.is_done() && reads < 1000 {
        let (nm, ops) = m.on_counter(v);
        m = nm;
        all.extend(ops);
        v = (v + 1) % 5;
        reads += 1;
    }
    assert_eq!(m.phase, FreeRunPhase::Done);
    assert_eq!(m.blinks, 10);
    let leds: Vec<Level> = all
        .iter()
        .filter_map(|op| match op {
            FreeRunOp::SetOutput { bank, pin, level } => {
                assert_eq!((*bank, *pin), (GPIO3_BANK, BLUE_LED_PIN));
                Some(*level)
            }
            _ => None,
        })
        .collect();
    assert_eq!(leds.len(), 11);
    assert_eq!(leds[0], Level::High);
    assert_eq!(leds[1], Level::Low);
    assert_eq!(leds[9], Level::Low);
    assert_eq!(leds[10], Level::Low);
    assert_eq!(&all[all.len() - 2..], &[FreeRunOp::Stop, FreeRunOp::SetOutput { bank: 3, pin: 6, level: Level::Low }]);
    let (again, ops) = m.on_counter(7);
    assert_eq!(again, m);
    assert!(ops.is_empty());
}

#[test]
fn free_running_without_rollover_keeps_polling() {
    let (m, _) = FreeRunBlink::new();
    let (m, _) = m.on_counter(10);
    let (m, ops) = m.on_counter(11);
    assert_eq!(ops, vec![FreeRunOp::Spin(1), FreeRunOp::ReadCounter]);
    assert_eq!(m.last, 11);
    assert_eq!(m.blinks, 0);
}

#[test]
fn interrupt_test_plan() {
    assert_eq!(
        test_timer_interrupt(),
        vec![
            InterruptTestOp::Start(24_000_000, TimerMode::FreeRunning, true),
            InterruptTestOp::ReadInterruptStatus,
            InterruptTestOp::Spin(10_000_000),
            InterruptTestOp::ReadInterruptStatus,
        ]
    );
    assert_eq!(finish_timer_interrupt(true), vec![InterruptTestOp::ClearInterrupt, InterruptTestOp::Stop]);
    assert_eq!(finish_timer_interrupt(false), vec![InterruptTestOp::Stop]);
}
