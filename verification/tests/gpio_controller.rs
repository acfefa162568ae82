use rstiny::gpio::{
    init, BankCommand, Direction, GpioController, InputRead, Level, PinOp, GPIO0_BASE_PADDR,
    GPIO3_BASE_PADDR, GPIO4_BASE_PADDR, GPIO_VERSION_ID,
};

fn cmd(bank: usize, op: PinOp) -> BankCommand {
    BankCommand { bank, op }
}

#[test]
fn bank_bases_are_the_rk3588_addresses() {
    let c = GpioController::new();
    assert_eq!(c.bank_base(0), Some(GPIO0_BASE_PADDR));
    assert_eq!(c.bank_base(3), Some(0xFEC40000));
    assert_eq!(c.bank_base(3), Some(GPIO3_BASE_PADDR));
    assert_eq!(c.bank_base(4), Some(GPIO4_BASE_PADDR));
    assert_eq!(c.bank_base(5), None);
}

#[test]
fn set_output_configures_then_drives() {
    let c = GpioController::new();
    assert_eq!(
        c.set_output(3, 6, Level::High),
        vec![
            cmd(3, PinOp::SetDirection(6, Direction::Output)),
            cmd(3, PinOp::SetValue(6, Level::High)),
        ]
    );
}

#[test]
fn set_output_on_invalid_bank_does_nothing() {
    let c = GpioController::new();
    assert!(c.set_output(5, 6, Level::High).is_empty());
    assert!(c.set_output(usize::MAX, 0, Level::Low).is_empty());
}

#[test]
fn read_input_samples_valid_bank() {
    let c = GpioController::new();
    match c.read_input(1, 31) {
        InputRead::Sample(cmds) => assert_eq!(
            cmds,
            vec![
                cmd(1, PinOp::SetDirection(31, Direction::Input)),
                cmd(1, PinOp::GetValue(31)),
            ]
        ),
        InputRead::Fixed(_) => panic!("a valid bank must be sampled"),
    }
}

#[test]
fn read_input_on_invalid_bank_is_low() {
    let c = GpioController::new();
    assert!(matches!(c.read_input(7, 0), InputRead::Fixed(Level::Low)));
}

#[test]
fn toggle_valid_and_invalid() {
    let c = GpioController::new();
    assert_eq!(c.toggle(3, 9), vec![cmd(3, PinOp::Toggle(9))]);
    assert!(c.toggle(5, 9).is_empty());
}

#[test]
fn absolute_pins_split_into_bank_and_pin() {
    let c = GpioController::new();
    // GPIO3 pin 6 is absolute pin 3 * 32 + 6 = 102.
    assert_eq!(c.set_output_abs(102, Level::Low), c.set_output(3, 6, Level::Low));
    assert_eq!(
        c.set_output_abs(70, Level::High),
        vec![
            cmd(2, PinOp::SetDirection(6, Direction::Output)),
            cmd(2, PinOp::SetValue(6, Level::High)),
        ]
    );
    // 160 = bank 5: no such bank.
    assert!(c.set_output_abs(160, Level::High).is_empty());
    assert!(matches!(c.read_input_abs(160), InputRead::Fixed(Level::Low)));
    match c.read_input_abs(159) {
        InputRead::Sample(cmds) => assert_eq!(cmds[1], cmd(4, PinOp::GetValue(31))),
        InputRead::Fixed(_) => panic!("bank 4 exists"),
    }
}

#[test]
fn init_reads_every_version() {
    let expected: Vec<BankCommand> = (0..5).map(|b| cmd(b, PinOp::VersionId)).collect();
    assert_eq!(GpioController::new().init(), expected);
    assert_eq!(init(), expected);
}

#[test]
fn version_check_flags_unexpected_banks() {
    let c = GpioController::new();
    let all_good = vec![GPIO_VERSION_ID; 5];
    assert!(c.check_versions(&all_good).is_empty());
    let mixed = vec![GPIO_VERSION_ID, 0, GPIO_VERSION_ID, 0x0101157D, GPIO_VERSION_ID];
    assert_eq!(c.check_versions(&mixed), vec![1, 3]);
    assert_eq!(GPIO_VERSION_ID, 0x0101157C);
}
