use std::collections::HashMap;

use rstiny::gpio::{BankCommand, Direction, GpioController, InputRead, Level, PinOp};
use rstiny::led::{
    led_blink_demo, led_is_off, power_off_all_leds, quick_led_power_off, run_all_gpio_tests,
    test_gpio_output, test_gpio_toggle, test_led_pattern, test_led_simultaneous,
    test_power_off_led, LedStep, BLUE_LED_PIN, GPIO3_BANK, GREEN_LED_PIN,
};
use rstiny::timer::timer_blink_demo;

/// Pins of a simulated board: (direction, level), reset to input/low.
struct Board {
    pins: HashMap<(usize, u8), (Direction, Level)>,
}

impl Board {
    fn new() -> Self {
        Board { pins: HashMap::new() }
    }

    fn state(&self, bank: usize, pin: u8) -> (Direction, Level) {
        *self.pins.get(&(bank, pin)).unwrap_or(&(Direction::Input, Level::Low))
    }

    fn exec(&mut self, c: &BankCommand) -> Option<Level> {
        match c.op {
            PinOp::SetDirection(p, d) => {
                let (_, l) = self.state(c.bank, p);
                self.pins.insert((c.bank, p), (d, l));
                None
            }
            PinOp::SetValue(p, l) => {
                let (d, _) = self.state(c.bank, p);
                self.pins.insert((c.bank, p), (d, l));
                None
            }
            PinOp::Toggle(p) => {
                let (d, l) = self.state(c.bank, p);
                let n = if l == Level::Low { Level::High } else { Level::Low };
                self.pins.insert((c.bank, p), (d, n));
                None
            }
            PinOp::GetValue(p) => Some(self.state(c.bank, p).1),
            PinOp::VersionId => None,
        }
    }

    fn run(&mut self, steps: &[LedStep]) -> Vec<bool> {
        let ctrl = GpioController::new();
        let mut verdicts = Vec::new();
        for s in steps {
            match *s {
                LedStep::Output { bank, pin, level } => {
                    for c in ctrl.set_output(bank, pin, level) {
                        self.exec(&c);
                    }
                }
                LedStep::Toggle { bank, pin } => {
                    for c in ctrl.toggle(bank, pin) {
                        self.exec(&c);
                    }
                }
                LedStep::ReadBack { bank, pin } => {
                    let level = match ctrl.read_input(bank, pin) {
                        InputRead::Fixed(l) => l,
                        InputRead::Sample(cmds) => {
                            let mut last = Level::Low;
                            for c in &cmds {
                                if let Some(l) = self.exec(c) {
                                    last = l;
                                }
                            }
                            last
                        }
                    };
                    verdicts.push(led_is_off(level));
                }
                LedStep::Spin(_) | LedStep::WaitSeconds(_) => {}
            }
        }
        verdicts
    }
}

fn out(pin: u8, level: Level) -> LedStep {
    LedStep::Output { bank: GPIO3_BANK, pin, level }
}

#[test]
fn output_test_steps() {
    assert_eq!(
        test_gpio_output(),
        vec![
            out(BLUE_LED_PIN, Level::High),
            LedStep::Spin(5_000_000),
            out(BLUE_LED_PIN, Level::Low),
            LedStep::Spin(5_000_000),
        ]
    );
}

#[test]
fn toggle_test_steps() {
    let s = test_gpio_toggle();
    assert_eq!(s.len(), 11);
    assert_eq!(s[0], LedStep::Toggle { bank: 3, pin: 9 });
    assert_eq!(s[9], LedStep::Spin(3_000_000));
    assert_eq!(s[10], out(GREEN_LED_PIN, Level::Low));
}

#[test]
fn pattern_and_simultaneous_steps() {
    let p = test_led_pattern();
    assert_eq!(p.len(), 20);
    assert_eq!(p[4], out(GREEN_LED_PIN, Level::High));
    assert_eq!(&p[18..], &[out(BLUE_LED_PIN, Level::Low), out(GREEN_LED_PIN, Level::Low)]);
    let m = test_led_simultaneous();
    assert_eq!(m.len(), 5);
    assert_eq!(m[1], out(GREEN_LED_PIN, Level::High));
}

#[test]
fn all_gpio_tests_concatenate_in_order() {
    let mut expected = test_gpio_output();
    expected.extend(test_gpio_toggle());
    expected.extend(test_led_pattern());
    expected.extend(test_led_simultaneous());
    assert_eq!(run_all_gpio_tests(), expected);
    assert_eq!(expected.len(), 4 + 11 + 20 + 5);
}

#[test]
fn every_program_leaves_the_leds_off() {
    let off = (Direction::Output, Level::Low);
    for prog in [
        run_all_gpio_tests(),
        test_led_pattern(),
        test_led_simultaneous(),
        quick_led_power_off(),
        power_off_all_leds(),
    ] {
        let mut b = Board::new();
        b.pins.insert((3, 6), (Direction::Output, Level::High));
        b.pins.insert((3, 9), (Direction::Output, Level::High));
        b.run(&prog);
        assert_eq!(b.state(3, 6), off);
        assert_eq!(b.state(3, 9), off);
    }
    for prog in [test_gpio_output(), led_blink_demo(), timer_blink_demo()] {
        let mut b = Board::new();
        b.run(&prog);
        assert_eq!(b.state(3, 6), off);
    }
    let mut b = Board::new();
    b.run(&test_gpio_toggle());
    assert_eq!(b.state(3, 9), off);
}

#[test]
fn power_off_led_reads_first_and_ends_read_back_low() {
    let s = test_power_off_led();
    assert_eq!(s.len(), 12);
    assert_eq!(s[0], LedStep::ReadBack { bank: 3, pin: BLUE_LED_PIN });
    assert_eq!(s[1], out(BLUE_LED_PIN, Level::Low));
    assert_eq!(s[5], LedStep::ReadBack { bank: 3, pin: BLUE_LED_PIN });
    assert_eq!(s[6], LedStep::ReadBack { bank: 3, pin: GREEN_LED_PIN });
    let mut b = Board::new();
    b.pins.insert((3, 6), (Direction::Output, Level::High));
    let verdicts = b.run(&s);
    // blue read on first (not off), then off twice; green off three times.
    assert_eq!(verdicts, vec![false, true, true, true, true, true]);
    assert_eq!(b.state(3, 6), (Direction::Input, Level::Low));
    assert_eq!(b.state(3, 9), (Direction::Input, Level::Low));
}

#[test]
fn blink_demo_toggles_ten_times() {
    let s = led_blink_demo();
    let toggles = s.iter().filter(|x| matches!(x, LedStep::Toggle { .. })).count();
    assert_eq!(toggles, 10);
    assert_eq!(s.last(), Some(&out(BLUE_LED_PIN, Level::Low)));
}

#[test]
fn read_back_verdict() {
    assert!(led_is_off(Level::Low));
    assert!(!led_is_off(Level::High));
}
