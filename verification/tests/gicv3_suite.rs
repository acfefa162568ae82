use rstiny::gicv3::{
    run_all_gicv3_tests, run_gicv3_hardware_test, sgi_base, GicStep, GicV3TestSuite,
    TestResult, GICD_BASE, GICR_BASE,
};

#[test]
fn test_result_new_keeps_its_fields() {
    let r = TestResult::new("probe", false, Some("broken"));
    assert_eq!(r.name, "probe");
    assert!(!r.passed);
    assert_eq!(r.error_msg, Some("broken"));
}

#[test]
fn empty_suite_reports_nothing() {
    let s = GicV3TestSuite::new();
    assert!(s.results().is_empty());
    let r = s.print_results();
    assert_eq!((r.total, r.passed, r.failed), (0, 0, 0));
    assert!(r.failures.is_empty());
}

#[test]
fn suite_runs_eight_tests_in_order() {
    let mut s = GicV3TestSuite::new();
    let first = s.run_all_tests();
    assert_eq!((first.total, first.passed, first.failed), (8, 8, 0));
    let names: Vec<&str> = s.results().iter().map(|r| r.name).collect();
    assert_eq!(
        names,
        vec![
            "Distributor initialization test",
            "Redistributor initialization test",
            "CPU Interface initialization test",
            "Distributor register access test",
            "Interrupt enable/disable test",
            "Interrupt priority test",
            "SPI routing/affinity test",
            "IAR/EOIR interrupt handling test",
        ]
    );
    assert!(s.results().iter().all(|r| r.passed && r.error_msg.is_none()));
    let second = s.run_all_tests();
    assert_eq!(second.total, 16);
    assert_eq!(s.print_results().total, 16);
}

#[test]
fn whole_suite_passes() {
    let r = run_all_gicv3_tests();
    assert_eq!((r.total, r.passed, r.failed), (8, 8, 0));
    assert!(r.failures.is_empty());
}

#[test]
fn hardware_test_plan() {
    assert_eq!(
        run_gicv3_hardware_test(),
        vec![
            GicStep::InitDistributor(0xFE600000),
            GicStep::InitRedistributor(0xFE680000),
            GicStep::InitCpuInterface,
            GicStep::EnableIrq(64),
            GicStep::SetPriority(64, 0xa0),
            GicStep::RouteSpi(64, 0),
            GicStep::RegisterHandler(64),
            GicStep::TriggerIrq(64),
            GicStep::CheckHandled(64),
        ]
    );
    assert_eq!(GICD_BASE, 0xFE600000);
    assert_eq!(sgi_base(GICR_BASE), 0xFE690000);
}
