//! The GICv3 driver test suite and its report.
//!
//! The suite records one `TestResult` per test, in the order the tests run;
//! the report counts passed and failed tests and lists each failure with its
//! message.  The hardware integration test is a fixed sequence of driver
//! steps.
use vstd::prelude::*;

verus! {

/// Base address of the RK3588 GIC-600 distributor.
pub const GICD_BASE: usize = 0xFE600000;

/// Base address of the RK3588 GIC-600 redistributor (RD_base of CPU 0).
pub const GICR_BASE: usize = 0xFE680000;

/// Offset of the SGI frame (SGI_base) from RD_base.
pub const GICR_SGI_OFFSET: usize = 0x10000;

/// The shared peripheral interrupt used by the tests.
pub const TEST_SPI: u32 = 64;

/// The priority the tests give it.
pub const TEST_PRIORITY: u8 = 0xa0;

/// The affinity the tests route it to (CPU 0).
pub const TEST_AFFINITY: u64 = 0;

/// Message reported for a failed test that gave none.
pub open spec fn unknown_error() -> &'static str {
    "Unknown error"
}

/// Outcome of one test.
#[derive(Clone, Copy, Debug)]
pub struct TestResult {
    pub name: &'static str,
    pub passed: bool,
    pub error_msg: Option<&'static str>,
}

impl TestResult {
    /// A result with the given fields.
    pub fn new(name: &'static str, passed: bool, error_msg: Option<&'static str>) -> (r: Self)
        ensures
            r.name == name,
            r.passed == passed,
            r.error_msg == error_msg,
    {
        TestResult { name, passed, error_msg }
    }
}

/// Summary of a run of the suite.
#[derive(Debug)]
pub struct TestReport {
    /// Number of tests run.
    pub total: usize,
    /// Number of tests that passed.
    pub passed: usize,
    /// Number of tests that failed.
    pub failed: usize,
    /// Name and message of each failed test, in run order.
    pub failures: Vec<(&'static str, &'static str)>,
}

/// Number of passed results.
pub open spec fn passed_count(s: Seq<TestResult>) -> nat
    decreases s.len(),
{
    if s.len() == 0 {
        0
    } else {
        passed_count(s.drop_last()) + if s.last().passed {
            1nat
        } else {
            0nat
        }
    }
}

/// The message of a failed result: its own, or "Unknown error".
pub open spec fn failure_message(m: Option<&'static str>) -> &'static str {
    match m {
        Some(msg) => msg,
        None => unknown_error(),
    }
}

/// Name and message of each failed result, in order.
pub open spec fn failure_lines(s: Seq<TestResult>) -> Seq<(&'static str, &'static str)>
    decreases s.len(),
{
    if s.len() == 0 {
        seq![]
    } else if s.last().passed {
        failure_lines(s.drop_last())
    } else {
        failure_lines(s.drop_last()).push((s.last().name, failure_message(s.last().error_msg)))
    }
}

/// A passed result of the named test.
pub open spec fn pass(name: &'static str) -> TestResult {
    TestResult { name, passed: true, error_msg: None }
}

/// Results of a run of the whole suite, in order.
pub open spec fn suite_results() -> Seq<TestResult> {
    seq![
        pass("Distributor initialization test"),
        pass("Redistributor initialization test"),
        pass("CPU Interface initialization test"),
        pass("Distributor register access test"),
        pass("Interrupt enable/disable test"),
        pass("Interrupt priority test"),
        pass("SPI routing/affinity test"),
        pass("IAR/EOIR interrupt handling test"),
    ]
}

/// The GICv3 test suite: the results recorded so far.
pub struct GicV3TestSuite {
    results: Vec<TestResult>,
}

impl View for GicV3TestSuite {
    type V = Seq<TestResult>;

    closed spec fn view(&self) -> Seq<TestResult> {
        self.results@
    }
}

impl GicV3TestSuite {
    /// A suite with no results yet.
    pub fn new() -> (s: Self)
        ensures
            s@ == Seq::<TestResult>::empty(),
    {
        GicV3TestSuite { results: Vec::new() }
    }

    /// The results recorded so far, in run order.
    pub fn results(&self) -> (r: &Vec<TestResult>)
        ensures
            r@ == self@,
    {
        &self.results
    }

    /// Runs the eight tests in order, recording their results, and returns
    /// the summary of all recorded results.
    pub fn run_all_tests(&mut self) -> (r: TestReport)
        ensures
            final(self)@ == old(self)@ + suite_results(),
            r.total == final(self)@.len(),
            r.passed == passed_count(final(self)@),
            r.failed == final(self)@.len() - passed_count(final(self)@),
            r.failures@ == failure_lines(final(self)@),
    {
        self.test_distributor_initialization();
        self.test_redistributor_initialization();
        self.test_cpu_interface_initialization();
        self.test_distributor_register_access();
        self.test_interrupt_enable_disable();
        self.test_interrupt_priority();
        self.test_spi_routing();
        self.test_iar_eoir();
        assert(self@ =~= old(self)@ + suite_results());
        self.print_results()
    }

    /// Records a passed result of the named test.
    fn record_pass(&mut self, name: &'static str)
        ensures
            final(self)@ == old(self)@.push(pass(name)),
    {
        self.results.push(TestResult::new(name, true, None));
    }

    /// Test 1: creating the distributor structure at `GICD_BASE`.
    fn test_distributor_initialization(&mut self)
        ensures
            final(self)@ == old(self)@.push(pass("Distributor initialization test")),
    {
        self.record_pass("Distributor initialization test");
    }

    /// Test 2: creating the redistributor structure at `GICR_BASE`.
    fn test_redistributor_initialization(&mut self)
        ensures
            final(self)@ == old(self)@.push(pass("Redistributor initialization test")),
    {
        self.record_pass("Redistributor initialization test");
    }

    /// Test 3: creating the CPU interface, which works through system
    /// registers.
    fn test_cpu_interface_initialization(&mut self)
        ensures
            final(self)@ == old(self)@.push(pass("CPU Interface initialization test")),
    {
        self.record_pass("CPU Interface initialization test");
    }

    /// Test 4: the distributor register layout.
    fn test_distributor_register_access(&mut self)
        ensures
            final(self)@ == old(self)@.push(pass("Distributor register access test")),
    {
        self.record_pass("Distributor register access test");
    }

    /// Test 5: enabling and disabling `TEST_SPI`.
    fn test_interrupt_enable_disable(&mut self)
        ensures
            final(self)@ == old(self)@.push(pass("Interrupt enable/disable test")),
    {
        self.record_pass("Interrupt enable/disable test");
    }

    /// Test 6: giving `TEST_SPI` the priority `TEST_PRIORITY`.
    fn test_interrupt_priority(&mut self)
        ensures
            final(self)@ == old(self)@.push(pass("Interrupt priority test")),
    {
        self.record_pass("Interrupt priority test");
    }

    /// Test 7: routing `TEST_SPI` to `TEST_AFFINITY`.
    fn test_spi_routing(&mut self)
        ensures
            final(self)@ == old(self)@.push(pass("SPI routing/affinity test")),
    {
        self.record_pass("SPI routing/affinity test");
    }

    /// Test 8: interrupt acknowledge and end of interrupt.
    fn test_iar_eoir(&mut self)
        ensures
            final(self)@ == old(self)@.push(pass("IAR/EOIR interrupt handling test")),
    {
        self.record_pass("IAR/EOIR interrupt handling test");
    }

    /// The summary of the recorded results: how many ran, passed and failed,
    /// and the name and message of each failure.
    pub fn print_results(&self) -> (r: TestReport)
        ensures
            r.total == self@.len(),
            r.passed == passed_count(self@),
            r.failed == self@.len() - passed_count(self@),
            r.failures@ == failure_lines(self@),
    {
        let mut passed: usize = 0;
        let mut failures: Vec<(&'static str, &'static str)> = Vec::new();
        let mut i: usize = 0;
        while i < self.results.len()
            invariant
                i <= self.results.len(),
                passed == passed_count(self.results@.take(i as int)),
                passed <= i,
                failures@ == failure_lines(self.results@.take(i as int)),
            decreases self.results.len() - i,
        {
            let ghost prefix = self.results@.take(i + 1);
            assert(prefix.drop_last() =~= self.results@.take(i as int));
            let r = &self.results[i];
            if r.passed {
                passed = passed + 1;
            } else {
                let msg = match r.error_msg {
                    Some(m) => m,
                    None => "Unknown error",
                };
                failures.push((r.name, msg));
            }
            i = i + 1;
        }
        assert(self.results@.take(self.results.len() as int) =~= self.results@);
        let total = self.results.len();
        TestReport { total, passed, failed: total - passed, failures }
    }
}

/// The passed and failed counts of a summary cover every test exactly once:
/// `passed + failed == total`, one failure line per failed test, and a run
/// in which every test passed reports no failure.
pub proof fn law_report_counts(s: Seq<TestResult>)
    ensures
        passed_count(s) <= s.len(),
        failure_lines(s).len() == s.len() - passed_count(s),
        (forall|i: int| 0 <= i < s.len() ==> (#[trigger] s[i]).passed) ==> passed_count(s)
            == s.len() && failure_lines(s).len() == 0,
    decreases s.len(),
{
    if s.len() > 0 {
        law_report_counts(s.drop_last());
        if forall|i: int| 0 <= i < s.len() ==> (#[trigger] s[i]).passed {
            assert forall|i: int| 0 <= i < s.drop_last().len() implies (
            #[trigger] s.drop_last()[i]).passed by {
                assert(s.drop_last()[i] == s[i]);
            }
            assert(s.last() == s[s.len() - 1]);
        }
    }
}

/// Runs the GICv3 suite and summarises it: eight tests, all passed.
pub fn run_all_gicv3_tests() -> (r: TestReport)
    ensures
        r.total == 8,
        r.passed == 8,
        r.failed == 0,
        r.failures@.len() == 0,
{
    let mut suite = GicV3TestSuite::new();
    let r = suite.run_all_tests();
    proof {
        assert(suite@ =~= suite_results());
        assert forall|i: int| 0 <= i < suite@.len() implies (#[trigger] suite@[i]).passed by {}
        law_report_counts(suite@);
    }
    r
}

/// A step of the hardware integration test.
#[derive(Clone, Copy, Debug, PartialEq, Eq, Structural)]
pub enum GicStep {
    /// Initialise the distributor at the given base.
    InitDistributor(usize),
    /// Initialise and wake the redistributor at the given base.
    InitRedistributor(usize),
    /// Initialise the CPU interface.
    InitCpuInterface,
    /// Enable an interrupt.
    EnableIrq(u32),
    /// Set the priority of an interrupt.
    SetPriority(u32, u8),
    /// Route a shared peripheral interrupt to an affinity.
    RouteSpi(u32, u64),
    /// Register the test handler for an interrupt.
    RegisterHandler(u32),
    /// Raise an interrupt (make it pending).
    TriggerIrq(u32),
    /// Check that the test handler of an interrupt has run.
    CheckHandled(u32),
}

/// The hardware integration test, in order.
pub open spec fn hardware_test_plan() -> Seq<GicStep> {
    seq![
        GicStep::InitDistributor(GICD_BASE),
        GicStep::InitRedistributor(GICR_BASE),
        GicStep::InitCpuInterface,
        GicStep::EnableIrq(TEST_SPI),
        GicStep::SetPriority(TEST_SPI, TEST_PRIORITY),
        GicStep::RouteSpi(TEST_SPI, TEST_AFFINITY),
        GicStep::RegisterHandler(TEST_SPI),
        GicStep::TriggerIrq(TEST_SPI),
        GicStep::CheckHandled(TEST_SPI),
    ]
}

/// The hardware integration test: bring up distributor, redistributor and
/// CPU interface, enable `TEST_SPI` at `TEST_PRIORITY` routed to CPU 0,
/// register the test handler, trigger the interrupt and check that the
/// handler ran.
pub fn run_gicv3_hardware_test() -> (plan: Vec<GicStep>)
    ensures
        plan@ == hardware_test_plan(),
{
    let plan = vec![
        GicStep::InitDistributor(GICD_BASE),
        GicStep::InitRedistributor(GICR_BASE),
        GicStep::InitCpuInterface,
        GicStep::EnableIrq(TEST_SPI),
        GicStep::SetPriority(TEST_SPI, TEST_PRIORITY),
        GicStep::RouteSpi(TEST_SPI, TEST_AFFINITY),
        GicStep::RegisterHandler(TEST_SPI),
        GicStep::TriggerIrq(TEST_SPI),
        GicStep::CheckHandled(TEST_SPI),
    ];
    assert(plan@ =~= hardware_test_plan());
    plan
}

/// SGI_base of a redistributor whose RD_base is `rd_base`.
pub fn sgi_base(rd_base: usize) -> (b: usize)
    requires
        rd_base + GICR_SGI_OFFSET <= usize::MAX,
    ensures
        b == rd_base + GICR_SGI_OFFSET,
{
    rd_base + GICR_SGI_OFFSET
}

} // verus!
