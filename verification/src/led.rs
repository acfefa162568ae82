//! The board's LED exercise programs.
//!
//! The OrangePi 5 Plus carries a blue LED on GPIO3 pin 6 and a green LED on
//! GPIO3 pin 9.  Each program is a sequence of `LedStep`s that the runner
//! carries out in order through the GPIO controller.  The pin model at the end
//! of this file says what the controller's commands do to a pin, and the laws
//! show that every program leaves the LEDs it drives switched off.
use vstd::prelude::*;
use crate::gpio::{
    BankCommand, Direction, Level, PinOp, read_input_cmds, set_output_cmds, toggle_cmds,
    valid_bank,
};

verus! {

/// GPIO bank of both LEDs.
pub const GPIO3_BANK: usize = 3;
/// Pin of the blue LED in GPIO3.
pub const BLUE_LED_PIN: u8 = 6;
/// Pin of the green LED in GPIO3.
pub const GREEN_LED_PIN: u8 = 9;

/// One step of an LED program.
#[derive(Clone, Copy, Debug, PartialEq, Eq, Structural)]
pub enum LedStep {
    /// `GpioController::set_output(bank, pin, level)`.
    Output { bank: usize, pin: u8, level: Level },
    /// `GpioController::toggle(bank, pin)`.
    Toggle { bank: usize, pin: u8 },
    /// Read the pin back with `GpioController::read_input` and report whether
    /// the LED is off.
    ReadBack { bank: usize, pin: u8 },
    /// Busy-wait for the given number of spin iterations.
    Spin(usize),
    /// Wait the given number of seconds on the hardware timer.
    WaitSeconds(u64),
}

/// Drive an LED of GPIO3.
pub open spec fn out(pin: u8, level: Level) -> LedStep {
    LedStep::Output { bank: GPIO3_BANK, pin, level }
}

/// Toggle an LED of GPIO3.
pub open spec fn flip(pin: u8) -> LedStep {
    LedStep::Toggle { bank: GPIO3_BANK, pin }
}

/// Read an LED of GPIO3 back.
pub open spec fn read_back(pin: u8) -> LedStep {
    LedStep::ReadBack { bank: GPIO3_BANK, pin }
}

/// `n` copies of `block`, one after the other.
pub open spec fn repeat_steps(block: Seq<LedStep>, n: nat) -> Seq<LedStep>
    decreases n,
{
    if n == 0 {
        seq![]
    } else {
        repeat_steps(block, (n - 1) as nat) + block
    }
}

/// Blue LED on, wait, blue LED off, wait.
pub open spec fn gpio_output_script() -> Seq<LedStep> {
    seq![
        out(BLUE_LED_PIN, Level::High),
        LedStep::Spin(5_000_000),
        out(BLUE_LED_PIN, Level::Low),
        LedStep::Spin(5_000_000),
    ]
}

/// Five toggles of the green LED, then the green LED off.
pub open spec fn gpio_toggle_script() -> Seq<LedStep> {
    repeat_steps(seq![flip(GREEN_LED_PIN), LedStep::Spin(3_000_000)], 5) + seq![
        out(GREEN_LED_PIN, Level::Low),
    ]
}

/// One round of the alternating pattern.
pub open spec fn led_pattern_round() -> Seq<LedStep> {
    seq![
        out(BLUE_LED_PIN, Level::High),
        out(GREEN_LED_PIN, Level::Low),
        LedStep::Spin(2_000_000),
        out(BLUE_LED_PIN, Level::Low),
        out(GREEN_LED_PIN, Level::High),
        LedStep::Spin(2_000_000),
    ]
}

/// Both LEDs off.
pub open spec fn both_off() -> Seq<LedStep> {
    seq![out(BLUE_LED_PIN, Level::Low), out(GREEN_LED_PIN, Level::Low)]
}

/// Three rounds of the alternating pattern, then both LEDs off.
pub open spec fn led_pattern_script() -> Seq<LedStep> {
    repeat_steps(led_pattern_round(), 3) + both_off()
}

/// Both LEDs on, wait, both off.
pub open spec fn led_simultaneous_script() -> Seq<LedStep> {
    seq![
        out(BLUE_LED_PIN, Level::High),
        out(GREEN_LED_PIN, Level::High),
        LedStep::Spin(5_000_000),
    ] + both_off()
}

/// The four GPIO tests in order.
pub open spec fn all_gpio_tests_script() -> Seq<LedStep> {
    gpio_output_script() + gpio_toggle_script() + led_pattern_script() + led_simultaneous_script()
}

/// Ten toggles of the blue LED, then the blue LED off.
pub open spec fn led_blink_script() -> Seq<LedStep> {
    repeat_steps(seq![flip(BLUE_LED_PIN), LedStep::Spin(5_000_000)], 10) + seq![
        out(BLUE_LED_PIN, Level::Low),
    ]
}

/// Power-off check of one LED: read its state, switch it off, read it back
/// to verify it is off, and again to confirm it stays off.
pub open spec fn led_power_off_check(pin: u8) -> Seq<LedStep> {
    seq![
        read_back(pin),
        out(pin, Level::Low),
        LedStep::Spin(500_000),
        read_back(pin),
        LedStep::Spin(1_000_000),
        read_back(pin),
    ]
}

/// Power-off check of the blue LED, then of the green LED.
pub open spec fn power_off_led_script() -> Seq<LedStep> {
    led_power_off_check(BLUE_LED_PIN) + led_power_off_check(GREEN_LED_PIN)
}

/// Blue LED off, short wait, green LED off.
pub open spec fn quick_led_power_off_script() -> Seq<LedStep> {
    seq![out(BLUE_LED_PIN, Level::Low), LedStep::Spin(500_000), out(GREEN_LED_PIN, Level::Low)]
}

/// Appends `block` to `steps`.
fn append_steps(steps: &mut Vec<LedStep>, block: &Vec<LedStep>)
    ensures
        final(steps)@ == old(steps)@ + block@,
{
    let mut i: usize = 0;
    while i < block.len()
        invariant
            i <= block.len(),
            steps@ == old(steps)@ + block@.take(i as int),
        decreases block.len() - i,
    {
        steps.push(block[i]);
        assert(steps@ =~= old(steps)@ + block@.take(i + 1));
        i = i + 1;
    }
    assert(block@.take(block.len() as int) =~= block@);
}

/// Appends `n` copies of `block` to `steps`.
fn append_repeated(steps: &mut Vec<LedStep>, block: &Vec<LedStep>, n: usize)
    ensures
        final(steps)@ == old(steps)@ + repeat_steps(block@, n as nat),
{
    let mut i: usize = 0;
    assert(old(steps)@ + repeat_steps(block@, 0) =~= old(steps)@);
    while i < n
        invariant
            i <= n,
            steps@ == old(steps)@ + repeat_steps(block@, i as nat),
        decreases n - i,
    {
        append_steps(steps, block);
        assert(steps@ =~= old(steps)@ + repeat_steps(block@, (i + 1) as nat));
        i = i + 1;
    }
}

/// Drives `pin` of GPIO3 to `level`.
fn led(pin: u8, level: Level) -> (s: LedStep)
    ensures
        s == out(pin, level),
{
    LedStep::Output { bank: GPIO3_BANK, pin, level }
}

/// GPIO output test: the blue LED on, then off.
pub fn test_gpio_output() -> (s: Vec<LedStep>)
    ensures
        s@ == gpio_output_script(),
{
    let mut s: Vec<LedStep> = Vec::new();
    s.push(led(BLUE_LED_PIN, Level::High));
    s.push(LedStep::Spin(5_000_000));
    s.push(led(BLUE_LED_PIN, Level::Low));
    s.push(LedStep::Spin(5_000_000));
    assert(s@ =~= gpio_output_script());
    s
}

/// GPIO toggle test: the green LED toggled five times, then switched off.
pub fn test_gpio_toggle() -> (s: Vec<LedStep>)
    ensures
        s@ == gpio_toggle_script(),
{
    let mut block: Vec<LedStep> = Vec::new();
    block.push(LedStep::Toggle { bank: GPIO3_BANK, pin: GREEN_LED_PIN });
    block.push(LedStep::Spin(3_000_000));
    assert(block@ =~= seq![flip(GREEN_LED_PIN), LedStep::Spin(3_000_000)]);
    let mut s: Vec<LedStep> = Vec::new();
    append_repeated(&mut s, &block, 5);
    s.push(led(GREEN_LED_PIN, Level::Low));
    assert(s@ =~= gpio_toggle_script());
    s
}

/// LED pattern test: the two LEDs blink alternately three times, then both
/// are switched off.
pub fn test_led_pattern() -> (s: Vec<LedStep>)
    ensures
        s@ == led_pattern_script(),
{
    let mut round: Vec<LedStep> = Vec::new();
    round.push(led(BLUE_LED_PIN, Level::High));
    round.push(led(GREEN_LED_PIN, Level::Low));
    round.push(LedStep::Spin(2_000_000));
    round.push(led(BLUE_LED_PIN, Level::Low));
    round.push(led(GREEN_LED_PIN, Level::High));
    round.push(LedStep::Spin(2_000_000));
    assert(round@ =~= led_pattern_round());
    let mut s: Vec<LedStep> = Vec::new();
    append_repeated(&mut s, &round, 3);
    s.push(led(BLUE_LED_PIN, Level::Low));
    s.push(led(GREEN_LED_PIN, Level::Low));
    assert(s@ =~= led_pattern_script());
    s
}

/// Simultaneous test: both LEDs on, then both off.
pub fn test_led_simultaneous() -> (s: Vec<LedStep>)
    ensures
        s@ == led_simultaneous_script(),
{
    let mut s: Vec<LedStep> = Vec::new();
    s.push(led(BLUE_LED_PIN, Level::High));
    s.push(led(GREEN_LED_PIN, Level::High));
    s.push(LedStep::Spin(5_000_000));
    s.push(led(BLUE_LED_PIN, Level::Low));
    s.push(led(GREEN_LED_PIN, Level::Low));
    assert(s@ =~= led_simultaneous_script());
    s
}

/// All GPIO tests: output, toggle, pattern and simultaneous, in that order.
pub fn run_all_gpio_tests() -> (s: Vec<LedStep>)
    ensures
        s@ == all_gpio_tests_script(),
{
    let mut s = test_gpio_output();
    let t = test_gpio_toggle();
    append_steps(&mut s, &t);
    let p = test_led_pattern();
    append_steps(&mut s, &p);
    let m = test_led_simultaneous();
    append_steps(&mut s, &m);
    s
}

/// Blink demo: the blue LED toggled ten times, then switched off.
pub fn led_blink_demo() -> (s: Vec<LedStep>)
    ensures
        s@ == led_blink_script(),
{
    let mut block: Vec<LedStep> = Vec::new();
    block.push(LedStep::Toggle { bank: GPIO3_BANK, pin: BLUE_LED_PIN });
    block.push(LedStep::Spin(5_000_000));
    assert(block@ =~= seq![flip(BLUE_LED_PIN), LedStep::Spin(5_000_000)]);
    let mut s: Vec<LedStep> = Vec::new();
    append_repeated(&mut s, &block, 10);
    s.push(led(BLUE_LED_PIN, Level::Low));
    assert(s@ =~= led_blink_script());
    s
}

/// The power-off check of one LED.
fn power_off_check(pin: u8) -> (s: Vec<LedStep>)
    ensures
        s@ == led_power_off_check(pin),
{
    let mut s: Vec<LedStep> = Vec::new();
    s.push(LedStep::ReadBack { bank: GPIO3_BANK, pin });
    s.push(led(pin, Level::Low));
    s.push(LedStep::Spin(500_000));
    s.push(LedStep::ReadBack { bank: GPIO3_BANK, pin });
    s.push(LedStep::Spin(1_000_000));
    s.push(LedStep::ReadBack { bank: GPIO3_BANK, pin });
    assert(s@ =~= led_power_off_check(pin));
    s
}

/// LED power-off test, for the blue LED and then the green one: read the
/// LED's state, switch it off, verify that it reads off, and confirm that it
/// stays off.
pub fn test_power_off_led() -> (s: Vec<LedStep>)
    ensures
        s@ == power_off_led_script(),
{
    let mut s = power_off_check(BLUE_LED_PIN);
    let g = power_off_check(GREEN_LED_PIN);
    append_steps(&mut s, &g);
    s
}

/// Quick power-off demo: the blue LED off, then the green LED off.
pub fn quick_led_power_off() -> (s: Vec<LedStep>)
    ensures
        s@ == quick_led_power_off_script(),
{
    let mut s: Vec<LedStep> = Vec::new();
    s.push(led(BLUE_LED_PIN, Level::Low));
    s.push(LedStep::Spin(500_000));
    s.push(led(GREEN_LED_PIN, Level::Low));
    assert(s@ =~= quick_led_power_off_script());
    s
}

/// Cleanup: both LEDs off.
pub fn power_off_all_leds() -> (s: Vec<LedStep>)
    ensures
        s@ == both_off(),
{
    let mut s: Vec<LedStep> = Vec::new();
    s.push(led(BLUE_LED_PIN, Level::Low));
    s.push(led(GREEN_LED_PIN, Level::Low));
    assert(s@ =~= both_off());
    s
}

/// Verdict on a read-back: the LED is off when its pin reads `Low`.
pub fn led_is_off(level: Level) -> (off: bool)
    ensures
        off <==> level == Level::Low,
{
    match level {
        Level::Low => true,
        Level::High => false,
    }
}

// ---------------------------------------------------------------------------
// Pin model
// ---------------------------------------------------------------------------

/// Direction and output level of one pin.
pub struct PinState {
    pub direction: Direction,
    pub level: Level,
}

/// Pins of all banks, keyed by `(bank, pin)`.  A pin not in the map is in its
/// reset state: input, low.
pub type Pins = Map<(int, int), PinState>;

/// State of pin `(bank, pin)`.
pub open spec fn pin_state(pins: Pins, bank: int, pin: int) -> PinState {
    if pins.contains_key((bank, pin)) {
        pins[(bank, pin)]
    } else {
        PinState { direction: Direction::Input, level: Level::Low }
    }
}

/// The other level.
pub open spec fn inverted(level: Level) -> Level {
    match level {
        Level::Low => Level::High,
        Level::High => Level::Low,
    }
}

/// What one bank command does to the pins.
pub open spec fn apply_command(pins: Pins, c: BankCommand) -> Pins {
    let b = c.bank as int;
    match c.op {
        PinOp::SetDirection(p, d) => pins.insert(
            (b, p as int),
            PinState { direction: d, level: pin_state(pins, b, p as int).level },
        ),
        PinOp::SetValue(p, l) => pins.insert(
            (b, p as int),
            PinState { direction: pin_state(pins, b, p as int).direction, level: l },
        ),
        PinOp::Toggle(p) => pins.insert(
            (b, p as int),
            PinState {
                direction: pin_state(pins, b, p as int).direction,
                level: inverted(pin_state(pins, b, p as int).level),
            },
        ),
        PinOp::GetValue(_) => pins,
        PinOp::VersionId => pins,
    }
}

/// What a sequence of bank commands does to the pins, first to last.
pub open spec fn apply_commands(pins: Pins, cmds: Seq<BankCommand>) -> Pins
    decreases cmds.len(),
{
    if cmds.len() == 0 {
        pins
    } else {
        apply_command(apply_commands(pins, cmds.drop_last()), cmds.last())
    }
}

/// The bank commands that the controller issues for one step.
pub open spec fn step_commands(s: LedStep) -> Seq<BankCommand> {
    match s {
        LedStep::Output { bank, pin, level } => set_output_cmds(bank, pin, level),
        LedStep::Toggle { bank, pin } => toggle_cmds(bank, pin),
        LedStep::ReadBack { bank, pin } => if valid_bank(bank as int) {
            read_input_cmds(bank, pin)
        } else {
            seq![]
        },
        LedStep::Spin(_) => seq![],
        LedStep::WaitSeconds(_) => seq![],
    }
}

/// What one step does to the pins.
pub open spec fn apply_step(pins: Pins, s: LedStep) -> Pins {
    apply_commands(pins, step_commands(s))
}

/// What a program does to the pins, first step to last.
pub open spec fn apply_steps(pins: Pins, steps: Seq<LedStep>) -> Pins
    decreases steps.len(),
{
    if steps.len() == 0 {
        pins
    } else {
        apply_step(apply_steps(pins, steps.drop_last()), steps.last())
    }
}

/// An LED is driven low: its pin is an output at level `Low`.
pub open spec fn driven_low(pins: Pins, pin: u8) -> bool {
    pin_state(pins, GPIO3_BANK as int, pin as int) == PinState {
        direction: Direction::Output,
        level: Level::Low,
    }
}

/// An LED pin has been read back: it is an input whose output latch holds
/// `Low`, so the LED is not lit.
pub open spec fn released_low(pins: Pins, pin: u8) -> bool {
    pin_state(pins, GPIO3_BANK as int, pin as int) == PinState {
        direction: Direction::Input,
        level: Level::Low,
    }
}

proof fn lemma_apply_one(pins: Pins, c: BankCommand)
    ensures
        apply_commands(pins, seq![c]) == apply_command(pins, c),
{
    assert(seq![c].drop_last() =~= Seq::<BankCommand>::empty());
    assert(apply_commands(pins, Seq::<BankCommand>::empty()) == pins);
}

proof fn lemma_apply_two(pins: Pins, a: BankCommand, b: BankCommand)
    ensures
        apply_commands(pins, seq![a, b]) == apply_command(apply_command(pins, a), b),
{
    assert(seq![a, b].drop_last() =~= seq![a]);
    lemma_apply_one(pins, a);
}

proof fn lemma_apply_output(pins: Pins, bank: usize, pin: u8, level: Level)
    requires
        valid_bank(bank as int),
    ensures
        apply_step(pins, LedStep::Output { bank, pin, level }) == pins.insert(
            (bank as int, pin as int),
            PinState { direction: Direction::Output, level },
        ),
{
    let a = BankCommand { bank, op: PinOp::SetDirection(pin, Direction::Output) };
    let b = BankCommand { bank, op: PinOp::SetValue(pin, level) };
    lemma_apply_two(pins, a, b);
    assert(apply_step(pins, LedStep::Output { bank, pin, level }) =~= pins.insert(
        (bank as int, pin as int),
        PinState { direction: Direction::Output, level },
    ));
}

proof fn lemma_apply_read_back(pins: Pins, bank: usize, pin: u8)
    requires
        valid_bank(bank as int),
    ensures
        apply_step(pins, LedStep::ReadBack { bank, pin }) == pins.insert(
            (bank as int, pin as int),
            PinState {
                direction: Direction::Input,
                level: pin_state(pins, bank as int, pin as int).level,
            },
        ),
{
    let a = BankCommand { bank, op: PinOp::SetDirection(pin, Direction::Input) };
    let b = BankCommand { bank, op: PinOp::GetValue(pin) };
    lemma_apply_two(pins, a, b);
}

proof fn lemma_apply_toggle(pins: Pins, bank: usize, pin: u8)
    requires
        valid_bank(bank as int),
    ensures
        apply_step(pins, LedStep::Toggle { bank, pin }) == pins.insert(
            (bank as int, pin as int),
            PinState {
                direction: pin_state(pins, bank as int, pin as int).direction,
                level: inverted(pin_state(pins, bank as int, pin as int).level),
            },
        ),
{
    lemma_apply_one(pins, BankCommand { bank, op: PinOp::Toggle(pin) });
}

/// Running `a` and then `b` is running `a + b`.
proof fn lemma_apply_steps_concat(pins: Pins, a: Seq<LedStep>, b: Seq<LedStep>)
    ensures
        apply_steps(pins, a + b) == apply_steps(apply_steps(pins, a), b),
    decreases b.len(),
{
    if b.len() == 0 {
        assert(a + b =~= a);
    } else {
        assert((a + b).drop_last() =~= a + b.drop_last());
        assert((a + b).last() == b.last());
        lemma_apply_steps_concat(pins, a, b.drop_last());
    }
}

/// The step leaves pin `(GPIO3, pin)` as it was.
pub open spec fn step_spares(s: LedStep, pin: u8) -> bool {
    match s {
        LedStep::Output { bank, pin: p, .. } => bank == GPIO3_BANK && p != pin,
        LedStep::Toggle { bank, pin: p } => bank == GPIO3_BANK && p != pin,
        LedStep::ReadBack { bank, pin: p } => bank == GPIO3_BANK && p != pin,
        LedStep::Spin(_) => true,
        LedStep::WaitSeconds(_) => true,
    }
}

proof fn lemma_step_spares(pins: Pins, s: LedStep, pin: u8)
    requires
        step_spares(s, pin),
    ensures
        pin_state(apply_step(pins, s), GPIO3_BANK as int, pin as int) == pin_state(
            pins,
            GPIO3_BANK as int,
            pin as int,
        ),
{
    match s {
        LedStep::Output { bank, pin: p, level } => {
            lemma_apply_output(pins, bank, p, level);
        },
        LedStep::Toggle { bank, pin: p } => {
            lemma_apply_toggle(pins, bank, p);
        },
        LedStep::ReadBack { bank, pin: p } => {
            lemma_apply_read_back(pins, bank, p);
        },
        LedStep::Spin(_) => {
            assert(step_commands(s) =~= Seq::<BankCommand>::empty());
        },
        LedStep::WaitSeconds(_) => {
            assert(step_commands(s) =~= Seq::<BankCommand>::empty());
        },
    }
}

/// A program whose steps all spare the pin leaves it as it was.
proof fn lemma_steps_spare(pins: Pins, steps: Seq<LedStep>, pin: u8)
    requires
        forall|i: int| 0 <= i < steps.len() ==> step_spares(#[trigger] steps[i], pin),
    ensures
        pin_state(apply_steps(pins, steps), GPIO3_BANK as int, pin as int) == pin_state(
            pins,
            GPIO3_BANK as int,
            pin as int,
        ),
    decreases steps.len(),
{
    if steps.len() > 0 {
        lemma_steps_spare(pins, steps.drop_last(), pin);
        lemma_step_spares(apply_steps(pins, steps.drop_last()), steps.last(), pin);
    }
}

/// A program that ends by driving `pin` low and then only spares it.
pub(crate) proof fn lemma_ends_driven_low(pins: Pins, head: Seq<LedStep>, tail: Seq<LedStep>, pin: u8)
    requires
        forall|i: int| 0 <= i < tail.len() ==> step_spares(#[trigger] tail[i], pin),
    ensures
        driven_low(apply_steps(pins, head.push(out(pin, Level::Low)) + tail), pin),
{
    let mid = head.push(out(pin, Level::Low));
    lemma_apply_steps_concat(pins, mid, tail);
    assert(mid.drop_last() =~= head);
    lemma_apply_output(apply_steps(pins, head), GPIO3_BANK, pin, Level::Low);
    lemma_steps_spare(apply_steps(pins, mid), tail, pin);
}

/// Each of the GPIO tests, and all of them run in order, leave the LEDs they
/// drive switched off (pin in output mode, driven `Low`), whatever state the
/// pins were in before.
pub proof fn law_gpio_tests_leave_leds_off(pins: Pins)
    ensures
        driven_low(apply_steps(pins, gpio_output_script()), BLUE_LED_PIN),
        driven_low(apply_steps(pins, gpio_toggle_script()), GREEN_LED_PIN),
        driven_low(apply_steps(pins, led_pattern_script()), BLUE_LED_PIN),
        driven_low(apply_steps(pins, led_pattern_script()), GREEN_LED_PIN),
        driven_low(apply_steps(pins, led_simultaneous_script()), BLUE_LED_PIN),
        driven_low(apply_steps(pins, led_simultaneous_script()), GREEN_LED_PIN),
        driven_low(apply_steps(pins, all_gpio_tests_script()), BLUE_LED_PIN),
        driven_low(apply_steps(pins, all_gpio_tests_script()), GREEN_LED_PIN),
{
    let spin5 = LedStep::Spin(5_000_000);
    // output test
    let h = seq![out(BLUE_LED_PIN, Level::High), spin5];
    assert(gpio_output_script() =~= h.push(out(BLUE_LED_PIN, Level::Low)) + seq![spin5]);
    lemma_ends_driven_low(pins, h, seq![spin5], BLUE_LED_PIN);
    // toggle test
    let r = repeat_steps(seq![flip(GREEN_LED_PIN), LedStep::Spin(3_000_000)], 5);
    assert(gpio_toggle_script() =~= r.push(out(GREEN_LED_PIN, Level::Low)) + seq![]);
    lemma_ends_driven_low(pins, r, seq![], GREEN_LED_PIN);
    // pattern test
    let p = repeat_steps(led_pattern_round(), 3);
    assert(led_pattern_script() =~= p.push(out(BLUE_LED_PIN, Level::Low)) + seq![
        out(GREEN_LED_PIN, Level::Low),
    ]);
    lemma_ends_driven_low(pins, p, seq![out(GREEN_LED_PIN, Level::Low)], BLUE_LED_PIN);
    assert(led_pattern_script() =~= p.push(out(BLUE_LED_PIN, Level::Low)).push(
        out(GREEN_LED_PIN, Level::Low),
    ) + seq![]);
    lemma_ends_driven_low(pins, p.push(out(BLUE_LED_PIN, Level::Low)), seq![], GREEN_LED_PIN);
    // simultaneous test, alone and at the end of all tests
    let s = seq![out(BLUE_LED_PIN, Level::High), out(GREEN_LED_PIN, Level::High), spin5];
    assert(led_simultaneous_script() =~= s.push(out(BLUE_LED_PIN, Level::Low)) + seq![
        out(GREEN_LED_PIN, Level::Low),
    ]);
    lemma_ends_driven_low(pins, s, seq![out(GREEN_LED_PIN, Level::Low)], BLUE_LED_PIN);
    assert(led_simultaneous_script() =~= s.push(out(BLUE_LED_PIN, Level::Low)).push(
        out(GREEN_LED_PIN, Level::Low),
    ) + seq![]);
    lemma_ends_driven_low(pins, s.push(out(BLUE_LED_PIN, Level::Low)), seq![], GREEN_LED_PIN);
    let front = gpio_output_script() + gpio_toggle_script() + led_pattern_script();
    assert(all_gpio_tests_script() =~= (front + s).push(out(BLUE_LED_PIN, Level::Low)) + seq![
        out(GREEN_LED_PIN, Level::Low),
    ]);
    lemma_ends_driven_low(pins, front + s, seq![out(GREEN_LED_PIN, Level::Low)], BLUE_LED_PIN);
    assert(all_gpio_tests_script() =~= (front + s).push(out(BLUE_LED_PIN, Level::Low)).push(
        out(GREEN_LED_PIN, Level::Low),
    ) + seq![]);
    lemma_ends_driven_low(
        pins,
        (front + s).push(out(BLUE_LED_PIN, Level::Low)),
        seq![],
        GREEN_LED_PIN,
    );
}

/// An LED is driven high: its pin is an output at level `High`.
pub open spec fn driven_high(pins: Pins, pin: u8) -> bool {
    pin_state(pins, GPIO3_BANK as int, pin as int) == PinState {
        direction: Direction::Output,
        level: Level::High,
    }
}

/// In each round of the pattern the LEDs alternate: after its first half
/// blue is driven high and green low, after its second half blue is driven
/// low and green high, whatever state the pins were in before.
pub proof fn law_led_pattern_alternates(pins: Pins)
    ensures
        driven_high(apply_steps(pins, led_pattern_round().take(3)), BLUE_LED_PIN),
        driven_low(apply_steps(pins, led_pattern_round().take(3)), GREEN_LED_PIN),
        driven_low(apply_steps(pins, led_pattern_round()), BLUE_LED_PIN),
        driven_high(apply_steps(pins, led_pattern_round()), GREEN_LED_PIN),
{
    let r = led_pattern_round();
    let e = Seq::<LedStep>::empty();
    let s1 = seq![r[0]];
    let s2 = s1.push(r[1]);
    let s3 = s2.push(r[2]);
    let s4 = s3.push(r[3]);
    let s5 = s4.push(r[4]);
    assert(r.take(3) =~= s3);
    assert(r =~= s5.push(r[5]));
    assert(s1.drop_last() =~= e);
    assert(s2.drop_last() =~= s1);
    assert(s3.drop_last() =~= s2);
    assert(s4.drop_last() =~= s3);
    assert(s5.drop_last() =~= s4);
    assert(r.drop_last() =~= s5);
    assert(apply_steps(pins, e) == pins);
    let p1 = apply_steps(pins, s1);
    lemma_apply_output(pins, GPIO3_BANK, BLUE_LED_PIN, Level::High);
    assert(p1 == apply_step(pins, r[0]));
    let p2 = apply_steps(pins, s2);
    lemma_apply_output(p1, GPIO3_BANK, GREEN_LED_PIN, Level::Low);
    assert(p2 == apply_step(p1, r[1]));
    let p3 = apply_steps(pins, s3);
    assert(step_commands(r[2]) =~= Seq::<BankCommand>::empty());
    assert(p3 == apply_step(p2, r[2]));
    assert(p3 == p2);
    let p4 = apply_steps(pins, s4);
    lemma_apply_output(p3, GPIO3_BANK, BLUE_LED_PIN, Level::Low);
    assert(p4 == apply_step(p3, r[3]));
    let p5 = apply_steps(pins, s5);
    lemma_apply_output(p4, GPIO3_BANK, GREEN_LED_PIN, Level::High);
    assert(p5 == apply_step(p4, r[4]));
    assert(step_commands(r[5]) =~= Seq::<BankCommand>::empty());
    assert(apply_steps(pins, r) == apply_step(p5, r[5]));
}

proof fn lemma_pattern_rounds_len(n: nat)
    ensures
        repeat_steps(led_pattern_round(), n).len() == 6 * n,
    decreases n,
{
    if n > 0 {
        lemma_pattern_rounds_len((n - 1) as nat);
    }
}

/// The first `6 * j` steps of `n >= j` pattern rounds are `j` rounds.
proof fn lemma_pattern_rounds_prefix(n: nat, j: nat)
    requires
        j <= n,
    ensures
        repeat_steps(led_pattern_round(), n).take(6 * j as int) == repeat_steps(led_pattern_round(), j),
    decreases n,
{
    lemma_pattern_rounds_len(n);
    if j == n {
        assert(repeat_steps(led_pattern_round(), n).take(6 * j as int) =~= repeat_steps(
            led_pattern_round(),
            n,
        ));
    } else {
        let a = repeat_steps(led_pattern_round(), (n - 1) as nat);
        lemma_pattern_rounds_len((n - 1) as nat);
        lemma_pattern_rounds_prefix((n - 1) as nat, j);
        assert((a + led_pattern_round()).take(6 * j as int) =~= a.take(6 * j as int));
    }
}

/// In the pattern test the LEDs alternate in each of its three rounds: after
/// the first `6k + 3` steps (round `k`'s first half) blue is driven high and
/// green low; after the first `6k + 6` steps blue is driven low and green
/// high.
pub proof fn law_led_pattern_script_alternates(pins: Pins, k: nat)
    requires
        k < 3,
    ensures
        driven_high(apply_steps(pins, led_pattern_script().take(6 * k as int + 3)), BLUE_LED_PIN),
        driven_low(apply_steps(pins, led_pattern_script().take(6 * k as int + 3)), GREEN_LED_PIN),
        driven_low(apply_steps(pins, led_pattern_script().take(6 * k as int + 6)), BLUE_LED_PIN),
        driven_high(apply_steps(pins, led_pattern_script().take(6 * k as int + 6)), GREEN_LED_PIN),
{
    let r = led_pattern_round();
    let full = repeat_steps(r, 3);
    let pre = repeat_steps(r, k);
    lemma_pattern_rounds_len(3);
    lemma_pattern_rounds_len(k);
    lemma_pattern_rounds_prefix(3, k + 1);
    lemma_pattern_rounds_prefix(3, k);
    assert(repeat_steps(r, k + 1) == pre + r);
    assert(led_pattern_script().take(6 * k as int + 6) =~= full.take(6 * (k + 1) as int));
    assert(led_pattern_script().take(6 * k as int + 3) =~= pre + r.take(3)) by {
        assert(full.take(6 * (k + 1) as int) == pre + r);
        assert(led_pattern_script().take(6 * k as int + 3) =~= (pre + r).take(6 * k as int + 3));
        assert((pre + r).take(6 * k as int + 3) =~= pre + r.take(3));
    }
    lemma_apply_steps_concat(pins, pre, r);
    lemma_apply_steps_concat(pins, pre, r.take(3));
    law_led_pattern_alternates(apply_steps(pins, pre));
}

/// The blink demo, the quick power-off demo and the cleanup leave the LEDs
/// they drive switched off (outputs driven `Low`); the LED power-off test,
/// whose last step on each LED is a read-back, leaves each LED pin an input
/// whose output latch holds `Low`.
pub proof fn law_led_demos_leave_leds_off(pins: Pins)
    ensures
        driven_low(apply_steps(pins, led_blink_script()), BLUE_LED_PIN),
        driven_low(apply_steps(pins, quick_led_power_off_script()), BLUE_LED_PIN),
        driven_low(apply_steps(pins, quick_led_power_off_script()), GREEN_LED_PIN),
        driven_low(apply_steps(pins, both_off()), BLUE_LED_PIN),
        driven_low(apply_steps(pins, both_off()), GREEN_LED_PIN),
        released_low(apply_steps(pins, power_off_led_script()), BLUE_LED_PIN),
        released_low(apply_steps(pins, power_off_led_script()), GREEN_LED_PIN),
{
    let r = repeat_steps(seq![flip(BLUE_LED_PIN), LedStep::Spin(5_000_000)], 10);
    assert(led_blink_script() =~= r.push(out(BLUE_LED_PIN, Level::Low)) + seq![]);
    lemma_ends_driven_low(pins, r, seq![], BLUE_LED_PIN);
    let e = Seq::<LedStep>::empty();
    let q = seq![LedStep::Spin(500_000), out(GREEN_LED_PIN, Level::Low)];
    assert(quick_led_power_off_script() =~= e.push(out(BLUE_LED_PIN, Level::Low)) + q);
    lemma_ends_driven_low(pins, e, q, BLUE_LED_PIN);
    let q2 = seq![out(BLUE_LED_PIN, Level::Low), LedStep::Spin(500_000)];
    assert(quick_led_power_off_script() =~= q2.push(out(GREEN_LED_PIN, Level::Low)) + e);
    lemma_ends_driven_low(pins, q2, e, GREEN_LED_PIN);
    assert(both_off() =~= e.push(out(BLUE_LED_PIN, Level::Low)) + seq![
        out(GREEN_LED_PIN, Level::Low),
    ]);
    lemma_ends_driven_low(pins, e, seq![out(GREEN_LED_PIN, Level::Low)], BLUE_LED_PIN);
    assert(both_off() =~= seq![out(BLUE_LED_PIN, Level::Low)].push(
        out(GREEN_LED_PIN, Level::Low),
    ) + e);
    lemma_ends_driven_low(pins, seq![out(BLUE_LED_PIN, Level::Low)], e, GREEN_LED_PIN);
    lemma_power_off_led_released(pins);
}

/// After the power-off check of `pin`, the pin reads back as an input whose
/// latch holds `Low`.
proof fn lemma_check_releases_low(pins: Pins, pin: u8)
    ensures
        released_low(apply_steps(pins, led_power_off_check(pin)), pin),
{
    let head = seq![read_back(pin)];
    let mid = head.push(out(pin, Level::Low));
    let tail = seq![
        LedStep::Spin(500_000),
        read_back(pin),
        LedStep::Spin(1_000_000),
        read_back(pin),
    ];
    assert(led_power_off_check(pin) =~= mid + tail);
    lemma_apply_steps_concat(pins, mid, tail);
    assert(mid =~= mid + Seq::<LedStep>::empty());
    lemma_ends_driven_low(pins, head, Seq::<LedStep>::empty(), pin);
    let m = apply_steps(pins, mid);
    assert(driven_low(m, pin));
    let t1 = seq![LedStep::Spin(500_000)];
    let t2 = t1.push(read_back(pin));
    let t3 = t2.push(LedStep::Spin(1_000_000));
    assert(tail =~= t3.push(read_back(pin)));
    assert(t3.drop_last() =~= t2);
    assert(t2.drop_last() =~= t1);
    assert(t1.drop_last() =~= Seq::<LedStep>::empty());
    let e = Seq::<LedStep>::empty();
    assert(apply_steps(m, e) == m);
    assert(step_commands(LedStep::Spin(500_000)) =~= Seq::<BankCommand>::empty());
    let a1 = apply_steps(m, t1);
    assert(a1 == apply_step(apply_steps(m, e), LedStep::Spin(500_000)));
    assert(a1 == m);
    lemma_apply_read_back(a1, GPIO3_BANK, pin);
    let a2 = apply_steps(m, t2);
    assert(a2 == apply_step(a1, read_back(pin)));
    assert(released_low(a2, pin));
    assert(step_commands(LedStep::Spin(1_000_000)) =~= Seq::<BankCommand>::empty());
    let a3 = apply_steps(m, t3);
    assert(a3 == apply_step(a2, LedStep::Spin(1_000_000)));
    assert(a3 == a2);
    lemma_apply_read_back(a3, GPIO3_BANK, pin);
    assert(tail.drop_last() =~= t3);
    assert(apply_steps(m, tail) == apply_step(a3, read_back(pin)));
}

proof fn lemma_power_off_led_released(pins: Pins)
    ensures
        released_low(apply_steps(pins, power_off_led_script()), BLUE_LED_PIN),
        released_low(apply_steps(pins, power_off_led_script()), GREEN_LED_PIN),
{
    let b = led_power_off_check(BLUE_LED_PIN);
    let g = led_power_off_check(GREEN_LED_PIN);
    lemma_apply_steps_concat(pins, b, g);
    lemma_check_releases_low(pins, BLUE_LED_PIN);
    assert forall|i: int| 0 <= i < g.len() implies step_spares(#[trigger] g[i], BLUE_LED_PIN) by {}
    lemma_steps_spare(apply_steps(pins, b), g, BLUE_LED_PIN);
    lemma_check_releases_low(apply_steps(pins, b), GREEN_LED_PIN);
}

} // verus!
