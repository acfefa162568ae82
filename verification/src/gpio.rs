//! GPIO controller front end for the five RK3588 GPIO banks.
//!
//! A `GpioController` decides which bank-level operations a pin request turns
//! into; the board driver of each bank carries them out.  A request for a bank
//! outside 0..=4 is refused and produces no operation at all.
use vstd::prelude::*;

verus! {

/// Physical base address of GPIO bank 0.
pub const GPIO0_BASE_PADDR: usize = 0xFD8A0000;
/// Physical base address of GPIO bank 1.
pub const GPIO1_BASE_PADDR: usize = 0xFEC20000;
/// Physical base address of GPIO bank 2.
pub const GPIO2_BASE_PADDR: usize = 0xFEC30000;
/// Physical base address of GPIO bank 3.
pub const GPIO3_BASE_PADDR: usize = 0xFEC40000;
/// Physical base address of GPIO bank 4.
pub const GPIO4_BASE_PADDR: usize = 0xFEC50000;

/// Number of GPIO banks.
pub const GPIO_BANK_COUNT: usize = 5;

/// Number of pins in one bank.
pub const PINS_PER_BANK: u32 = 32;

/// Version ID that every RK3588 GPIO bank reports.
pub const GPIO_VERSION_ID: u32 = 0x0101157C;

/// Electrical level of a pin.
#[derive(Clone, Copy, Debug, PartialEq, Eq, Structural)]
pub enum Level {
    Low,
    High,
}

/// Direction of a pin.
#[derive(Clone, Copy, Debug, PartialEq, Eq, Structural)]
pub enum Direction {
    Input,
    Output,
}

/// One operation on the driver of a single bank.
#[derive(Clone, Copy, Debug, PartialEq, Eq, Structural)]
pub enum PinOp {
    /// Configure the direction of a pin.
    SetDirection(u8, Direction),
    /// Drive an output pin to a level.
    SetValue(u8, Level),
    /// Sample the level of a pin.
    GetValue(u8),
    /// Invert the output level of a pin.
    Toggle(u8),
    /// Read the bank's version register.
    VersionId,
}

/// An operation addressed to one bank.
#[derive(Clone, Copy, Debug, PartialEq, Eq, Structural)]
pub struct BankCommand {
    pub bank: usize,
    pub op: PinOp,
}

/// What reading a pin takes: either the answer is known without touching the
/// hardware, or the commands must run and the last one's sample is the answer.
#[derive(Debug)]
pub enum InputRead {
    Fixed(Level),
    Sample(Vec<BankCommand>),
}

/// Physical base address of bank `bank`.
pub open spec fn bank_paddr(bank: int) -> usize {
    if bank == 0 {
        GPIO0_BASE_PADDR
    } else if bank == 1 {
        GPIO1_BASE_PADDR
    } else if bank == 2 {
        GPIO2_BASE_PADDR
    } else if bank == 3 {
        GPIO3_BASE_PADDR
    } else {
        GPIO4_BASE_PADDR
    }
}

/// Whether `bank` names one of the five banks.
pub open spec fn valid_bank(bank: int) -> bool {
    0 <= bank < GPIO_BANK_COUNT
}

/// Commands that put `pin` of `bank` in output mode at `level`.
pub open spec fn set_output_cmds(bank: usize, pin: u8, level: Level) -> Seq<BankCommand> {
    if valid_bank(bank as int) {
        seq![
            BankCommand { bank, op: PinOp::SetDirection(pin, Direction::Output) },
            BankCommand { bank, op: PinOp::SetValue(pin, level) },
        ]
    } else {
        seq![]
    }
}

/// Commands that put `pin` of `bank` in input mode and sample it.
pub open spec fn read_input_cmds(bank: usize, pin: u8) -> Seq<BankCommand> {
    seq![
        BankCommand { bank, op: PinOp::SetDirection(pin, Direction::Input) },
        BankCommand { bank, op: PinOp::GetValue(pin) },
    ]
}

/// Commands that invert the output of `pin` of `bank`.
pub open spec fn toggle_cmds(bank: usize, pin: u8) -> Seq<BankCommand> {
    if valid_bank(bank as int) {
        seq![BankCommand { bank, op: PinOp::Toggle(pin) }]
    } else {
        seq![]
    }
}

/// Bank of an absolute pin number (`absolute_pin = bank * 32 + pin`).
pub open spec fn abs_bank(absolute_pin: u32) -> usize {
    (absolute_pin / PINS_PER_BANK) as usize
}

/// Pin within its bank of an absolute pin number.
pub open spec fn abs_pin(absolute_pin: u32) -> u8 {
    (absolute_pin % PINS_PER_BANK) as u8
}

/// The version reads that bring the controller up: one per bank, in bank order.
pub open spec fn init_cmds() -> Seq<BankCommand> {
    Seq::new(GPIO_BANK_COUNT as nat, |i: int| BankCommand { bank: i as usize, op: PinOp::VersionId })
}

/// Banks, in order, whose version reading in `versions` differs from the
/// expected RK3588 version.
pub open spec fn unexpected_banks(versions: Seq<u32>) -> Seq<usize>
    decreases versions.len(),
{
    if versions.len() == 0 {
        seq![]
    } else {
        let rest = unexpected_banks(versions.drop_last());
        if versions.last() != GPIO_VERSION_ID {
            rest.push((versions.len() - 1) as usize)
        } else {
            rest
        }
    }
}

/// A bank is flagged exactly when its version reading differs from the
/// RK3588 version, every bank included; flagged banks come in increasing
/// order and each is a valid position of the readings.
pub proof fn law_unexpected_banks_exact(versions: Seq<u32>)
    requires
        versions.len() <= usize::MAX,
    ensures
        forall|i: int|
            0 <= i < versions.len() ==> (unexpected_banks(versions).contains(i as usize) <==> #[trigger] versions[i]
                != GPIO_VERSION_ID),
        forall|k: int|
            0 <= k < unexpected_banks(versions).len() ==> #[trigger] unexpected_banks(versions)[k]
                < versions.len(),
        forall|k: int, l: int|
            0 <= k < l < unexpected_banks(versions).len() ==> unexpected_banks(versions)[k]
                < unexpected_banks(versions)[l],
    decreases versions.len(),
{
    if versions.len() > 0 {
        let rest = versions.drop_last();
        law_unexpected_banks_exact(rest);
        let n = (versions.len() - 1) as usize;
        let r = unexpected_banks(rest);
        assert forall|i: int| 0 <= i < versions.len() implies (unexpected_banks(
            versions,
        ).contains(i as usize) <==> #[trigger] versions[i] != GPIO_VERSION_ID) by {
            if i < n {
                assert(rest[i] == versions[i]);
                if versions.last() != GPIO_VERSION_ID {
                    assert(unexpected_banks(versions) == r.push(n));
                    if r.push(n).contains(i as usize) {
                        let k = choose|k: int| 0 <= k < r.push(n).len() && r.push(n)[k] == i as usize;
                        if k < r.len() {
                            assert(r[k] == i as usize);
                        }
                    }
                    if r.contains(i as usize) {
                        let k = choose|k: int| 0 <= k < r.len() && r[k] == i as usize;
                        assert(r.push(n)[k] == i as usize);
                    }
                }
            } else {
                if versions.last() != GPIO_VERSION_ID {
                    assert(unexpected_banks(versions) == r.push(n));
                    assert(r.push(n)[r.len() as int] == n);
                } else {
                    if r.contains(n) {
                        let k = choose|k: int| 0 <= k < r.len() && r[k] == n;
                        assert(r[k] < rest.len());
                    }
                }
            }
        }
    }
}

/// The GPIO controller: the five banks, known by their physical base addresses.
pub struct GpioController {
    banks: [usize; 5],
}

impl GpioController {
    /// Base address held for bank `bank`.
    pub closed spec fn base_of(&self, bank: int) -> usize {
        self.banks@[bank]
    }

    /// Every bank is held at its RK3588 base address.
    pub closed spec fn wf(&self) -> bool {
        forall|b: int| valid_bank(b) ==> #[trigger] self.banks@[b] == bank_paddr(b)
    }

    /// Creates the controller over the five banks.
    pub fn new() -> (c: Self)
        ensures
            c.wf(),
            forall|b: int| valid_bank(b) ==> #[trigger] c.base_of(b) == bank_paddr(b),
    {
        let c = GpioController {
            banks: [
                GPIO0_BASE_PADDR,
                GPIO1_BASE_PADDR,
                GPIO2_BASE_PADDR,
                GPIO3_BASE_PADDR,
                GPIO4_BASE_PADDR,
            ],
        };
        assert(forall|b: int| valid_bank(b) ==> #[trigger] c.banks@[b] == bank_paddr(b)) by {
            assert(c.banks@[0] == GPIO0_BASE_PADDR);
            assert(c.banks@[1] == GPIO1_BASE_PADDR);
            assert(c.banks@[2] == GPIO2_BASE_PADDR);
            assert(c.banks@[3] == GPIO3_BASE_PADDR);
            assert(c.banks@[4] == GPIO4_BASE_PADDR);
        }
        c
    }

    /// Physical base address of bank `bank`, or `None` for a bank that does
    /// not exist.
    pub fn bank_base(&self, bank: usize) -> (r: Option<usize>)
        requires
            self.wf(),
        ensures
            valid_bank(bank as int) ==> r == Some(bank_paddr(bank as int)),
            !valid_bank(bank as int) ==> r is None,
    {
        if bank >= GPIO_BANK_COUNT {
            None
        } else {
            Some(self.banks[bank])
        }
    }

    /// Sets `pin` of `bank` to output mode and drives it to `level`.
    /// Nothing is issued for a bank outside 0..=4.
    pub fn set_output(&self, bank: usize, pin: u8, level: Level) -> (cmds: Vec<BankCommand>)
        ensures
            cmds@ == set_output_cmds(bank, pin, level),
    {
        let mut cmds: Vec<BankCommand> = Vec::new();
        if bank >= GPIO_BANK_COUNT {
            return cmds;
        }
        cmds.push(BankCommand { bank, op: PinOp::SetDirection(pin, Direction::Output) });
        cmds.push(BankCommand { bank, op: PinOp::SetValue(pin, level) });
        cmds
    }

    /// Sets `pin` of `bank` to input mode and samples it.  A bank outside
    /// 0..=4 reads as `Low` without touching the hardware.
    pub fn read_input(&self, bank: usize, pin: u8) -> (r: InputRead)
        ensures
            !valid_bank(bank as int) ==> r == InputRead::Fixed(Level::Low),
            valid_bank(bank as int) ==> (r matches InputRead::Sample(c) && c@ == read_input_cmds(
                bank,
                pin,
            )),
    {
        if bank >= GPIO_BANK_COUNT {
            return InputRead::Fixed(Level::Low);
        }
        let mut cmds: Vec<BankCommand> = Vec::new();
        cmds.push(BankCommand { bank, op: PinOp::SetDirection(pin, Direction::Input) });
        cmds.push(BankCommand { bank, op: PinOp::GetValue(pin) });
        InputRead::Sample(cmds)
    }

    /// Inverts the output level of `pin` of `bank`; nothing for a bank outside
    /// 0..=4.
    pub fn toggle(&self, bank: usize, pin: u8) -> (cmds: Vec<BankCommand>)
        ensures
            cmds@ == toggle_cmds(bank, pin),
    {
        let mut cmds: Vec<BankCommand> = Vec::new();
        if bank >= GPIO_BANK_COUNT {
            return cmds;
        }
        cmds.push(BankCommand { bank, op: PinOp::Toggle(pin) });
        cmds
    }

    /// `set_output` by absolute pin number: `bank = absolute_pin / 32`,
    /// `pin = absolute_pin % 32`.
    pub fn set_output_abs(&self, absolute_pin: u32, level: Level) -> (cmds: Vec<BankCommand>)
        ensures
            cmds@ == set_output_cmds(abs_bank(absolute_pin), abs_pin(absolute_pin), level),
    {
        let bank = (absolute_pin / PINS_PER_BANK) as usize;
        let pin = (absolute_pin % PINS_PER_BANK) as u8;
        self.set_output(bank, pin, level)
    }

    /// `read_input` by absolute pin number.
    pub fn read_input_abs(&self, absolute_pin: u32) -> (r: InputRead)
        ensures
            !valid_bank(abs_bank(absolute_pin) as int) ==> r == InputRead::Fixed(Level::Low),
            valid_bank(abs_bank(absolute_pin) as int) ==> (r matches InputRead::Sample(c)
                && c@ == read_input_cmds(abs_bank(absolute_pin), abs_pin(absolute_pin))),
    {
        let bank = (absolute_pin / PINS_PER_BANK) as usize;
        let pin = (absolute_pin % PINS_PER_BANK) as u8;
        self.read_input(bank, pin)
    }

    /// The reads that bring the controller up: the version register of every
    /// bank, in bank order.
    pub fn init(&self) -> (cmds: Vec<BankCommand>)
        ensures
            cmds@ == init_cmds(),
    {
        let mut cmds: Vec<BankCommand> = Vec::new();
        let mut i: usize = 0;
        while i < GPIO_BANK_COUNT
            invariant
                i <= GPIO_BANK_COUNT,
                cmds@ == init_cmds().take(i as int),
            decreases GPIO_BANK_COUNT - i,
        {
            cmds.push(BankCommand { bank: i, op: PinOp::VersionId });
            assert(cmds@ =~= init_cmds().take(i + 1));
            i = i + 1;
        }
        assert(cmds@ =~= init_cmds());
        cmds
    }

    /// Judges the version readings of `init`: the banks whose version differs
    /// from the RK3588 one, in bank order.
    pub fn check_versions(&self, versions: &Vec<u32>) -> (bad: Vec<usize>)
        ensures
            bad@ == unexpected_banks(versions@),
            forall|i: int|
                0 <= i < versions@.len() ==> (bad@.contains(i as usize) <==> #[trigger] versions@[i]
                    != GPIO_VERSION_ID),
    {
        let mut bad: Vec<usize> = Vec::new();
        let mut i: usize = 0;
        while i < versions.len()
            invariant
                i <= versions.len(),
                bad@ == unexpected_banks(versions@.take(i as int)),
            decreases versions.len() - i,
        {
            let ghost prefix = versions@.take(i + 1);
            assert(prefix.drop_last() =~= versions@.take(i as int));
            if versions[i] != GPIO_VERSION_ID {
                bad.push(i);
            }
            i = i + 1;
        }
        assert(versions@.take(versions.len() as int) =~= versions@);
        proof {
            law_unexpected_banks_exact(versions@);
        }
        bad
    }
}

/// Brings up the board's GPIO controller: the version reads of every bank.
pub fn init() -> (cmds: Vec<BankCommand>)
    ensures
        cmds@ == init_cmds(),
{
    let c = GpioController::new();
    c.init()
}

/// Absolute pin numbering and per-bank addressing agree: the absolute pin
/// `bank * 32 + pin` of a pin `pin < 32` is decomposed back into `bank` and
/// `pin`, so `set_output_abs` and `read_input_abs` issue exactly what
/// `set_output` and `read_input` issue for that bank and pin.
pub proof fn law_absolute_pin_roundtrip(bank: u32, pin: u8, level: Level)
    requires
        pin < PINS_PER_BANK,
        bank * PINS_PER_BANK + pin <= u32::MAX,
    ensures
        abs_bank((bank * PINS_PER_BANK + pin) as u32) == bank as usize,
        abs_pin((bank * PINS_PER_BANK + pin) as u32) == pin,
        set_output_cmds(abs_bank((bank * PINS_PER_BANK + pin) as u32), abs_pin((bank * PINS_PER_BANK + pin) as u32), level)
            == set_output_cmds(bank as usize, pin, level),
        read_input_cmds(abs_bank((bank * PINS_PER_BANK + pin) as u32), abs_pin((bank * PINS_PER_BANK + pin) as u32))
            == read_input_cmds(bank as usize, pin),
{
    let a: u32 = (bank * PINS_PER_BANK + pin) as u32;
    assert(a / 32 == bank && a % 32 == pin) by (nonlinear_arith)
        requires
            a == bank * 32 + pin,
            pin < 32,
    ;
}

} // verus!
