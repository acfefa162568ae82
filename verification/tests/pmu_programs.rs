use rstiny::pmu::{
    critical_domain_list, domain_name, is_critical, pmu_power_off_demo, power_label,
    quick_power_off_demo, run_all_pmu_tests, run_all_power_off_tests, safe_test_domain_list,
    shutdown_domain_list, simple_power_off, spins_for_ms, system_shutdown_test,
    test_basic_power_off, test_biu_idle_handling, test_error_handling,
    test_idempotent_power_off, test_pmu_version, test_power_domain_status,
    test_power_off_audio, test_power_off_timeout, test_power_off_with_timeout,
    test_power_off_with_verification, test_power_state_transitions,
    test_sequential_power_off, test_system_power_off, transition_verdict, state_after, CheckPhase,
    CheckedPowerOff, PmuAction, PmuError, PmuEvent, PmuTest, PowerDomain, PowerOffOutcome,
    PowerOffTally, ShutdownPhase, SystemPowerOff, TransitionVerdict,
};
use rstiny::pmu::{
    group_domain_list, next_guarded, test_batch_power_off, test_batch_power_operations,
    test_power_cycle_audio, DomainGroup, GuardedStep,
};
use std::collections::HashMap;

/// Drives a checked power-off with scripted answers.
fn run_check(
    mut m: CheckedPowerOff,
    initial_on: bool,
    result: Result<(), PmuError>,
    still_on: bool,
) -> (PowerOffOutcome, Vec<PmuAction>) {
    let mut seen = Vec::new();
    while let Some(a) = m.pending() {
        seen.push(a);
        let ev = match a {
            PmuAction::QueryPower(_) => PmuEvent::PowerState(initial_on),
            PmuAction::PowerOff(_) => PmuEvent::Completed(result),
            PmuAction::SettleThenQuery(_, _) => PmuEvent::PowerState(still_on),
            _ => panic!("unexpected request"),
        };
        m = m.step(ev);
    }
    (m.outcome().unwrap(), seen)
}

#[test]
fn checked_power_off_skips_an_off_domain() {
    let (o, seen) = run_check(test_power_off_audio(), false, Ok(()), false);
    assert_eq!(o, PowerOffOutcome::AlreadyOff);
    assert_eq!(seen, vec![PmuAction::QueryPower(PowerDomain::AUDIO)]);
}

#[test]
fn checked_power_off_verifies_success() {
    let (o, seen) = run_check(test_power_off_audio(), true, Ok(()), false);
    assert_eq!(o, PowerOffOutcome::PoweredOff);
    assert_eq!(
        seen,
        vec![
            PmuAction::QueryPower(PowerDomain::AUDIO),
            PmuAction::PowerOff(PowerDomain::AUDIO),
            PmuAction::SettleThenQuery(PowerDomain::AUDIO, 1_000_000),
        ]
    );
}

#[test]
fn checked_power_off_reports_still_on_and_failures() {
    let (o, _) = run_check(test_basic_power_off(), true, Ok(()), true);
    assert_eq!(o, PowerOffOutcome::StillOn);
    let (o, seen) = run_check(test_basic_power_off(), true, Err(PmuError::Timeout), false);
    assert_eq!(o, PowerOffOutcome::Failed(PmuError::Timeout));
    assert_eq!(seen.len(), 2);
    let (o, _) = run_check(pmu_power_off_demo(), true, Err(PmuError::BiuIdleFailed), false);
    assert_eq!(o, PowerOffOutcome::Failed(PmuError::BiuIdleFailed));
    let (o, _) = run_check(pmu_power_off_demo(), true, Err(PmuError::Other), false);
    assert_eq!(o, PowerOffOutcome::Failed(PmuError::Other));
}

#[test]
fn quick_demo_acts_at_once() {
    let m = quick_power_off_demo();
    assert_eq!(m.pending(), Some(PmuAction::PowerOff(PowerDomain::AUDIO)));
    let (o, seen) = run_check(m, false, Ok(()), false);
    assert_eq!(o, PowerOffOutcome::PoweredOff);
    assert_eq!(seen[1], PmuAction::SettleThenQuery(PowerDomain::AUDIO, 500_000));
}

#[test]
fn wrong_answer_changes_nothing() {
    let m = test_power_off_audio();
    let m2 = m.step(PmuEvent::Waited);
    assert_eq!(m2, m);
    let done = m.step(PmuEvent::PowerState(false));
    assert_eq!(done.phase, CheckPhase::Finished(PowerOffOutcome::AlreadyOff));
    assert_eq!(done.step(PmuEvent::PowerState(true)), done);
    assert_eq!(done.pending(), None);
}

#[test]
fn verification_test_judges_before_and_after() {
    let (first, m) = test_power_off_with_verification();
    assert_eq!(first, PmuAction::QueryPower(PowerDomain::SDMMC));
    assert_eq!(m.pending(), Some(PmuAction::PowerOff(PowerDomain::SDMMC)));
    assert_eq!(transition_verdict(true, false), TransitionVerdict::TurnedOff);
    assert_eq!(transition_verdict(false, false), TransitionVerdict::WasOff);
    assert_eq!(transition_verdict(false, true), TransitionVerdict::WasOff);
    assert_eq!(transition_verdict(true, true), TransitionVerdict::Unchanged);
}

#[test]
fn sequential_test_covers_the_safe_domains() {
    let ms = test_sequential_power_off();
    assert_eq!(ms.len(), 2);
    assert_eq!(ms[0].domain, PowerDomain::AUDIO);
    assert_eq!(ms[1].domain, PowerDomain::SDMMC);
    assert_eq!(ms[1].settle_spins, 500_000);
    assert_eq!(ms[1].pending(), Some(PmuAction::QueryPower(PowerDomain::SDMMC)));
}

#[test]
fn tally_counts_each_outcome() {
    let mut t = PowerOffTally::new();
    t.record(PowerOffOutcome::PoweredOff);
    t.record(PowerOffOutcome::AlreadyOff);
    t.record(PowerOffOutcome::StillOn);
    t.record(PowerOffOutcome::Failed(PmuError::Timeout));
    t.record(PowerOffOutcome::PoweredOff);
    assert_eq!(t, PowerOffTally { success: 2, skipped: 1, failed: 2 });
}

/// Runs the system power-off sequence against a simulated PMU.
fn run_system(
    initially_on: &[PowerDomain],
    failing: &[PowerDomain],
    sticky: &[PowerDomain],
) -> (SystemPowerOff, Vec<PmuAction>) {
    let mut on: HashMap<PowerDomain, bool> = HashMap::new();
    for d in shutdown_domain_list() {
        on.insert(d, initially_on.contains(&d));
    }
    let mut s = system_shutdown_test();
    let mut seen = Vec::new();
    for _ in 0..100 {
        let a = s.pending().unwrap();
        seen.push(a);
        let ev = match a {
            PmuAction::QueryPower(d) | PmuAction::SettleThenQuery(d, _) => {
                PmuEvent::PowerState(on[&d])
            }
            PmuAction::PowerOff(d) => {
                if failing.contains(&d) {
                    PmuEvent::Completed(Err(PmuError::Timeout))
                } else {
                    if !sticky.contains(&d) {
                        on.insert(d, false);
                    }
                    PmuEvent::Completed(Ok(()))
                }
            }
            PmuAction::Spin(_) => PmuEvent::Waited,
            PmuAction::SystemOff => break,
            _ => panic!("unexpected request"),
        };
        s = s.step(ev);
    }
    (s, seen)
}

#[test]
fn system_power_off_all_on() {
    let all = shutdown_domain_list();
    let (s, seen) = run_system(&all, &[], &[]);
    assert_eq!(s.phase(), ShutdownPhase::Off);
    assert_eq!(s.active_domains(), 6);
    assert_eq!(s.tally(), PowerOffTally { success: 6, skipped: 0, failed: 0 });
    // 6 survey + pause + 6 * 3 + pause + 6 report + 2 pauses = 34 answers,
    // then the switch-off request.
    assert_eq!(seen.len(), 35);
    assert_eq!(seen[6], PmuAction::Spin(50_000_000));
    assert_eq!(seen[33], PmuAction::Spin(100_000_000));
    assert_eq!(seen[34], PmuAction::SystemOff);
    for a in &seen {
        if let PmuAction::PowerOff(d) = a {
            assert!(!is_critical(*d));
        }
    }
}

#[test]
fn system_power_off_mixed() {
    let (s, seen) = run_system(
        &[PowerDomain::AUDIO, PowerDomain::GMAC, PowerDomain::PCIE],
        &[PowerDomain::GMAC],
        &[PowerDomain::PCIE],
    );
    assert_eq!(s.phase(), ShutdownPhase::Off);
    assert_eq!(s.active_domains(), 3);
    assert_eq!(s.tally(), PowerOffTally { success: 1, skipped: 3, failed: 2 });
    let offs = seen.iter().filter(|a| matches!(a, PmuAction::PowerOff(_))).count();
    assert_eq!(offs, 3);
}

#[test]
fn system_power_off_starts_with_survey() {
    let s = test_system_power_off();
    assert_eq!(s.phase(), ShutdownPhase::Survey(0));
    assert_eq!(s.pending(), Some(PmuAction::QueryPower(PowerDomain::AUDIO)));
    let s2 = s.step(PmuEvent::Waited);
    assert_eq!(s2, s);
}

#[test]
fn domain_lists() {
    assert_eq!(
        critical_domain_list(),
        vec![
            PowerDomain::GPU,
            PowerDomain::VOP,
            PowerDomain::VO0,
            PowerDomain::VO1,
            PowerDomain::CENTER,
            PowerDomain::SECURE
        ]
    );
    assert_eq!(safe_test_domain_list(), vec![PowerDomain::AUDIO, PowerDomain::SDMMC]);
    for d in shutdown_domain_list() {
        assert!(!is_critical(d));
    }
    assert!(is_critical(PowerDomain::CENTER));
    assert!(!is_critical(PowerDomain::NPU));
    assert_eq!(domain_name(PowerDomain::VCODEC), "VCODEC");
    assert_eq!(power_label(true), "ON");
    assert_eq!(power_label(false), "OFF");
}

#[test]
fn plans_of_the_simple_tests() {
    assert_eq!(test_pmu_version(), vec![PmuAction::ReadVersion, PmuAction::ReadGlobalStatus]);
    let st = test_power_domain_status();
    assert_eq!(st.len(), 6);
    assert_eq!(st[3], PmuAction::QueryPower(PowerDomain::VCODEC));
    assert_eq!(simple_power_off(), vec![PmuAction::PowerOff(PowerDomain::GMAC)]);
    assert_eq!(test_power_off_timeout(), vec![PmuAction::PowerOff(PowerDomain::AUDIO)]);
    assert_eq!(test_power_off_with_timeout(), vec![PmuAction::PowerOff(PowerDomain::AUDIO)]);
    assert_eq!(
        test_biu_idle_handling(),
        vec![PmuAction::QueryPower(PowerDomain::GPU), PmuAction::PowerOff(PowerDomain::SDMMC)]
    );
    assert_eq!(test_error_handling().len(), 4);
    assert_eq!(
        test_idempotent_power_off(),
        vec![
            PmuAction::PowerOff(PowerDomain::AUDIO),
            PmuAction::Spin(500_000),
            PmuAction::PowerOff(PowerDomain::AUDIO)
        ]
    );
    let t = test_power_state_transitions();
    assert_eq!(t.len(), 13);
    assert_eq!(t[12], PmuAction::PowerOn(PowerDomain::AUDIO));
    assert_eq!(t[6], PmuAction::PowerOff(PowerDomain::AUDIO));
    assert_eq!(spins_for_ms(500), 50_000_000);
}

#[test]
fn suites_in_order() {
    let p = run_all_pmu_tests();
    assert_eq!(p.len(), 9);
    assert_eq!(p[0], PmuTest::Version);
    assert_eq!(p[8], PmuTest::ErrorHandling);
    let q = run_all_power_off_tests();
    assert_eq!(q.len(), 6);
    assert_eq!(q[2], PmuTest::SequentialPowerOff);
}

/// Runs a guarded program where group requests and the power-on answer
/// `power_result`; returns the requests made.
fn run_guarded(plan: &[GuardedStep], result: Result<(), PmuError>) -> Vec<PmuAction> {
    let mut seen = Vec::new();
    let mut i = 0;
    while i < plan.len() {
        let a = plan[i].action;
        seen.push(a);
        let ev = match a {
            PmuAction::QueryPower(_) | PmuAction::SettleThenQuery(_, _) => PmuEvent::PowerState(true),
            PmuAction::PowerOff(_) => PmuEvent::Completed(Ok(())),
            PmuAction::PowerOn(_) | PmuAction::PowerOffGroup(_) | PmuAction::PowerOnGroup(_) => {
                PmuEvent::Completed(result)
            }
            _ => PmuEvent::Waited,
        };
        i = next_guarded(i, plan[i], &ev);
    }
    seen
}

#[test]
fn guarded_steps_skip_after_failure() {
    let step = GuardedStep { action: PmuAction::PowerOn(PowerDomain::AUDIO), skip_on_error: 2 };
    assert_eq!(next_guarded(4, step, &PmuEvent::Completed(Err(PmuError::Timeout))), 7);
    assert_eq!(next_guarded(4, step, &PmuEvent::Completed(Ok(()))), 5);
    assert_eq!(next_guarded(4, step, &PmuEvent::Waited), 5);
}

#[test]
fn power_cycle_checks_only_after_successful_power_on() {
    let ok = run_guarded(&test_power_cycle_audio(), Ok(()));
    assert_eq!(ok.len(), 4);
    assert_eq!(ok[3], PmuAction::SettleThenQuery(PowerDomain::AUDIO, 2_000_000));
    let failed = run_guarded(&test_power_cycle_audio(), Err(PmuError::Other));
    assert_eq!(failed.len(), 3);
    assert_eq!(failed[2], PmuAction::PowerOn(PowerDomain::AUDIO));
}

#[test]
fn batch_programs() {
    assert_eq!(run_guarded(&test_batch_power_operations(), Ok(())).len(), 7);
    let failed = run_guarded(&test_batch_power_operations(), Err(PmuError::Timeout));
    assert_eq!(
        failed,
        vec![
            PmuAction::PowerOffGroup(DomainGroup::SafeTest),
            PmuAction::Spin(2_000_000),
            PmuAction::PowerOnGroup(DomainGroup::SafeTest),
        ]
    );
    assert_eq!(run_guarded(&test_batch_power_off(), Ok(())).len(), 4);
    assert_eq!(run_guarded(&test_batch_power_off(), Err(PmuError::Timeout)).len(), 1);
    assert_eq!(group_domain_list(DomainGroup::SafeTest), vec![PowerDomain::AUDIO, PowerDomain::SDMMC]);
}

#[test]
fn suites_switch_only_audio_and_sdmmc() {
    let safe = [PowerDomain::AUDIO, PowerDomain::SDMMC];
    let check = |plan: Vec<PmuAction>| {
        for a in plan {
            match a {
                PmuAction::PowerOff(d) | PmuAction::PowerOn(d) => assert!(safe.contains(&d)),
                _ => {}
            }
        }
    };
    check(test_biu_idle_handling());
    check(test_error_handling());
    check(test_power_state_transitions());
    check(test_idempotent_power_off());
    check(test_power_off_timeout());
    for g in [test_power_cycle_audio(), test_batch_power_operations(), test_batch_power_off()] {
        check(g.iter().map(|s| s.action).collect());
    }
}

#[test]
fn state_after_outcomes() {
    assert_eq!(state_after(PowerOffOutcome::StillOn), Some(true));
    assert_eq!(state_after(PowerOffOutcome::PoweredOff), Some(false));
    assert_eq!(state_after(PowerOffOutcome::AlreadyOff), Some(false));
    assert_eq!(state_after(PowerOffOutcome::Failed(PmuError::Timeout)), None);
}
