//! Power-domain exercise programs for the RK3588 PMU.
//!
//! The PMU driver switches power domains on and off and reports their state.
//! The programs here decide what to ask of it: `CheckedPowerOff` powers one
//! domain off, skipping a domain that is already off and checking the result
//! afterwards; `SystemPowerOff` runs the whole system power-off sequence over
//! the peripheral domains and counts what happened.  Each is a state machine:
//! `pending` is the request to make now, `step` takes the driver's answer.
use vstd::prelude::*;

verus! {

/// Spin iterations of one millisecond of busy-waiting.
pub const SPINS_PER_MS: usize = 100_000;

/// Number of on/off cycles of the power state transition test.
pub const POWER_TRANSITION_CYCLES: usize = 3;

/// Number of peripheral domains that the system power-off sequence handles.
pub const SHUTDOWN_DOMAIN_COUNT: usize = 6;

/// Wait after a power-off before checking it, in the system power-off
/// sequence (10 ms).
pub const SHUTDOWN_SETTLE_SPINS: usize = 1_000_000;

/// Pause between the phases of the system power-off sequence (500 ms).
pub const SHUTDOWN_PAUSE_SPINS: usize = 50_000_000;

/// Pause before the system is switched off (1000 ms).
pub const SHUTDOWN_FINAL_SPINS: usize = 100_000_000;

/// RK3588 power domains that the programs handle.
#[allow(non_camel_case_types)]
#[derive(Clone, Copy, Debug, PartialEq, Eq, Hash, Structural)]
pub enum PowerDomain {
    GPU,
    NPU,
    VOP,
    VCODEC,
    AUDIO,
    USB,
    SDMMC,
    SDIO,
    GMAC,
    PCIE,
    CRYPTO,
    VO0,
    VO1,
    CENTER,
    SECURE,
}

/// Why the PMU driver refused or failed a request.
#[derive(Clone, Copy, Debug, PartialEq, Eq, Structural)]
pub enum PmuError {
    /// The domain did not reach the requested state in time.
    Timeout,
    /// The bus interface of the domain did not go idle.
    BiuIdleFailed,
    /// Any other failure the driver reports.
    Other,
}

/// A named group of domains handled together.
#[derive(Clone, Copy, Debug, PartialEq, Eq, Structural)]
pub enum DomainGroup {
    /// The domains that are safe to power-cycle in tests.
    SafeTest,
}

/// A request to the PMU driver (or to the board), made by a program.
#[derive(Clone, Copy, Debug, PartialEq, Eq, Structural)]
pub enum PmuAction {
    /// Read the PMU version register.
    ReadVersion,
    /// Read the global power status register.
    ReadGlobalStatus,
    /// Ask whether a domain is powered; answered by `PmuEvent::PowerState`.
    QueryPower(PowerDomain),
    /// Power a domain off; answered by `PmuEvent::Completed`.
    PowerOff(PowerDomain),
    /// Power a domain on; answered by `PmuEvent::Completed`.
    PowerOn(PowerDomain),
    /// Power a group of domains off in one driver request; answered by
    /// `PmuEvent::Completed`.
    PowerOffGroup(DomainGroup),
    /// Power a group of domains on in one driver request; answered by
    /// `PmuEvent::Completed`.
    PowerOnGroup(DomainGroup),
    /// Busy-wait the given number of spins, then ask whether the domain is
    /// powered; answered by `PmuEvent::PowerState`.
    SettleThenQuery(PowerDomain, usize),
    /// Busy-wait the given number of spins; answered by `PmuEvent::Waited`.
    Spin(usize),
    /// Switch the whole system off.
    SystemOff,
}

/// The answer to a request.
#[derive(Debug)]
pub enum PmuEvent {
    /// Whether the queried domain is powered.
    PowerState(bool),
    /// The result of a power-off or power-on.
    Completed(Result<(), PmuError>),
    /// The wait is over.
    Waited,
}

/// How a checked power-off of one domain ended.
#[derive(Clone, Copy, Debug, PartialEq, Eq, Structural)]
pub enum PowerOffOutcome {
    /// The domain was already off; nothing was done.
    AlreadyOff,
    /// The domain was powered off and reads as off afterwards.
    PoweredOff,
    /// The power-off succeeded but the domain still reads as on.
    StillOn,
    /// The power-off failed.
    Failed(PmuError),
}

/// Name of a domain as the programs print it: the name of its variant.
pub open spec fn domain_name_spec(d: PowerDomain) -> &'static str {
    match d {
        PowerDomain::GPU => "GPU",
        PowerDomain::NPU => "NPU",
        PowerDomain::VOP => "VOP",
        PowerDomain::VCODEC => "VCODEC",
        PowerDomain::AUDIO => "AUDIO",
        PowerDomain::USB => "USB",
        PowerDomain::SDMMC => "SDMMC",
        PowerDomain::SDIO => "SDIO",
        PowerDomain::GMAC => "GMAC",
        PowerDomain::PCIE => "PCIE",
        PowerDomain::CRYPTO => "CRYPTO",
        PowerDomain::VO0 => "VO0",
        PowerDomain::VO1 => "VO1",
        PowerDomain::CENTER => "CENTER",
        PowerDomain::SECURE => "SECURE",
    }
}

/// Name of a domain as the programs print it.
pub fn domain_name(d: PowerDomain) -> (name: &'static str)
    ensures
        name == domain_name_spec(d),
{
    match d {
        PowerDomain::GPU => "GPU",
        PowerDomain::NPU => "NPU",
        PowerDomain::VOP => "VOP",
        PowerDomain::VCODEC => "VCODEC",
        PowerDomain::AUDIO => "AUDIO",
        PowerDomain::USB => "USB",
        PowerDomain::SDMMC => "SDMMC",
        PowerDomain::SDIO => "SDIO",
        PowerDomain::GMAC => "GMAC",
        PowerDomain::PCIE => "PCIE",
        PowerDomain::CRYPTO => "CRYPTO",
        PowerDomain::VO0 => "VO0",
        PowerDomain::VO1 => "VO1",
        PowerDomain::CENTER => "CENTER",
        PowerDomain::SECURE => "SECURE",
    }
}

/// Label of a power state: `"ON"` or `"OFF"`.
pub fn power_label(on: bool) -> (label: &'static str)
    ensures
        on ==> label == "ON",
        !on ==> label == "OFF",
{
    if on {
        "ON"
    } else {
        "OFF"
    }
}

/// Domains that must not be powered off while testing: display, video
/// output, interconnect and security.
pub open spec fn critical_domains() -> Seq<PowerDomain> {
    seq![
        PowerDomain::GPU,
        PowerDomain::VOP,
        PowerDomain::VO0,
        PowerDomain::VO1,
        PowerDomain::CENTER,
        PowerDomain::SECURE,
    ]
}

/// Domains that are safe to power-cycle in tests.
pub open spec fn safe_test_domains() -> Seq<PowerDomain> {
    seq![PowerDomain::AUDIO, PowerDomain::SDMMC]
}

/// Peripheral domains powered off before a system shutdown, in order.
pub open spec fn shutdown_domains() -> Seq<PowerDomain> {
    seq![
        PowerDomain::AUDIO,
        PowerDomain::SDMMC,
        PowerDomain::SDIO,
        PowerDomain::GMAC,
        PowerDomain::PCIE,
        PowerDomain::CRYPTO,
    ]
}

/// Domains whose state the status test reports, in order.
pub open spec fn status_domains() -> Seq<PowerDomain> {
    seq![
        PowerDomain::GPU,
        PowerDomain::NPU,
        PowerDomain::VOP,
        PowerDomain::VCODEC,
        PowerDomain::AUDIO,
        PowerDomain::USB,
    ]
}

/// `d` is a critical domain: display, video output, interconnect or
/// security.
pub open spec fn critical_domain(d: PowerDomain) -> bool {
    match d {
        PowerDomain::GPU | PowerDomain::VOP | PowerDomain::VO0 | PowerDomain::VO1
        | PowerDomain::CENTER | PowerDomain::SECURE => true,
        _ => false,
    }
}

/// The request does not switch off a critical domain.
pub open spec fn action_spares_critical(a: PmuAction) -> bool {
    match a {
        PmuAction::PowerOff(d) => !critical_domain(d),
        PmuAction::PowerOffGroup(g) => forall|i: int|
            0 <= i < group_domains(g).len() ==> !critical_domain(#[trigger] group_domains(g)[i]),
        _ => true,
    }
}

/// No request of the program switches off a critical domain.
pub open spec fn spares_critical(plan: Seq<PmuAction>) -> bool {
    forall|i: int| 0 <= i < plan.len() ==> action_spares_critical(#[trigger] plan[i])
}

/// The requests of a guarded program.
pub open spec fn guarded_actions(plan: Seq<GuardedStep>) -> Seq<PmuAction> {
    plan.map_values(|s: GuardedStep| s.action)
}

/// Whether `d` is one of the critical domains.
pub fn is_critical(d: PowerDomain) -> (c: bool)
    ensures
        c <==> critical_domains().contains(d),
        c == critical_domain(d),
{
    proof {
        if critical_domains().contains(d) {
            let i = choose|i: int| 0 <= i < critical_domains().len() && critical_domains()[i] == d;
            assert(0 <= i < 6);
        }
        assert(critical_domains()[0] == PowerDomain::GPU);
        assert(critical_domains()[1] == PowerDomain::VOP);
        assert(critical_domains()[2] == PowerDomain::VO0);
        assert(critical_domains()[3] == PowerDomain::VO1);
        assert(critical_domains()[4] == PowerDomain::CENTER);
        assert(critical_domains()[5] == PowerDomain::SECURE);
    }
    match d {
        PowerDomain::GPU | PowerDomain::VOP | PowerDomain::VO0 | PowerDomain::VO1
        | PowerDomain::CENTER | PowerDomain::SECURE => true,
        _ => false,
    }
}

/// The domain at position `i` of the system power-off list.
pub fn shutdown_domain(i: usize) -> (d: PowerDomain)
    requires
        i < SHUTDOWN_DOMAIN_COUNT,
    ensures
        d == shutdown_domains()[i as int],
{
    if i == 0 {
        PowerDomain::AUDIO
    } else if i == 1 {
        PowerDomain::SDMMC
    } else if i == 2 {
        PowerDomain::SDIO
    } else if i == 3 {
        PowerDomain::GMAC
    } else if i == 4 {
        PowerDomain::PCIE
    } else {
        PowerDomain::CRYPTO
    }
}

/// The critical domains, in order.
pub fn critical_domain_list() -> (v: Vec<PowerDomain>)
    ensures
        v@ == critical_domains(),
{
    let v = vec![
        PowerDomain::GPU,
        PowerDomain::VOP,
        PowerDomain::VO0,
        PowerDomain::VO1,
        PowerDomain::CENTER,
        PowerDomain::SECURE,
    ];
    assert(v@ =~= critical_domains());
    v
}

/// The safe test domains, in order.
pub fn safe_test_domain_list() -> (v: Vec<PowerDomain>)
    ensures
        v@ == safe_test_domains(),
{
    let v = vec![PowerDomain::AUDIO, PowerDomain::SDMMC];
    assert(v@ =~= safe_test_domains());
    v
}

/// The system power-off domains, in order.
pub fn shutdown_domain_list() -> (v: Vec<PowerDomain>)
    ensures
        v@ == shutdown_domains(),
{
    let v = vec![
        PowerDomain::AUDIO,
        PowerDomain::SDMMC,
        PowerDomain::SDIO,
        PowerDomain::GMAC,
        PowerDomain::PCIE,
        PowerDomain::CRYPTO,
    ];
    assert(v@ =~= shutdown_domains());
    v
}

/// Busy-wait length of `ms` milliseconds, in spin iterations.
pub fn spins_for_ms(ms: usize) -> (spins: usize)
    requires
        ms * SPINS_PER_MS <= usize::MAX,
    ensures
        spins == ms * SPINS_PER_MS,
{
    ms * SPINS_PER_MS
}

/// None of the domains that the system power-off sequence or the tests
/// switch off is critical, and the safe test domains are among the shutdown
/// domains.
pub proof fn law_no_critical_domain_is_switched_off()
    ensures
        forall|i: int|
            0 <= i < shutdown_domains().len() ==> !critical_domains().contains(
                #[trigger] shutdown_domains()[i],
            ),
        forall|i: int|
            0 <= i < safe_test_domains().len() ==> shutdown_domains().contains(
                #[trigger] safe_test_domains()[i],
            ),
        forall|i: int|
            0 <= i < group_domains(DomainGroup::SafeTest).len() ==> !critical_domains().contains(
                #[trigger] group_domains(DomainGroup::SafeTest)[i],
            ),
{
    assert forall|i: int| 0 <= i < shutdown_domains().len() implies !critical_domains().contains(
        #[trigger] shutdown_domains()[i],
    ) by {
        let d = shutdown_domains()[i];
        if critical_domains().contains(d) {
            let j = choose|j: int| 0 <= j < critical_domains().len() && critical_domains()[j] == d;
            assert(0 <= j < 6);
        }
    }
    assert forall|i: int| 0 <= i < safe_test_domains().len() implies shutdown_domains().contains(
        #[trigger] safe_test_domains()[i],
    ) by {
        assert(shutdown_domains()[0] == PowerDomain::AUDIO);
        assert(shutdown_domains()[1] == PowerDomain::SDMMC);
    }
    assert forall|i: int| 0 <= i < group_domains(DomainGroup::SafeTest).len() implies !critical_domains().contains(
        #[trigger] group_domains(DomainGroup::SafeTest)[i],
    ) by {
        let d = group_domains(DomainGroup::SafeTest)[i];
        if critical_domains().contains(d) {
            let j = choose|j: int| 0 <= j < critical_domains().len() && critical_domains()[j] == d;
            assert(0 <= j < 6);
        }
    }
}

/// Domains the system power-off sequence leaves untouched: the critical
/// domains, and NPU and VCODEC, which may be in use.
pub open spec fn shutdown_spared_domains() -> Seq<PowerDomain> {
    critical_domains() + seq![PowerDomain::NPU, PowerDomain::VCODEC]
}

/// The system power-off sequence's domains include none of the domains it
/// must leave untouched (GPU, VOP, VO0, VO1, CENTER, SECURE, NPU, VCODEC).
pub proof fn law_shutdown_spares_listed_domains()
    ensures
        forall|i: int|
            0 <= i < shutdown_domains().len() ==> !shutdown_spared_domains().contains(
                #[trigger] shutdown_domains()[i],
            ),
{
    assert forall|i: int| 0 <= i < shutdown_domains().len() implies !shutdown_spared_domains().contains(
        #[trigger] shutdown_domains()[i],
    ) by {
        let d = shutdown_domains()[i];
        if shutdown_spared_domains().contains(d) {
            let j = choose|j: int| 0 <= j < shutdown_spared_domains().len() && shutdown_spared_domains()[j] == d;
            assert(0 <= j < 8);
        }
    }
}

// ---------------------------------------------------------------------------
// Checked power-off of one domain
// ---------------------------------------------------------------------------

/// Where a checked power-off stands.
#[derive(Clone, Copy, Debug, PartialEq, Eq, Structural)]
pub enum CheckPhase {
    /// Waiting for the domain's state before acting.
    AwaitInitial,
    /// Waiting for the result of the power-off.
    AwaitOff,
    /// Waiting for the domain's state after the power-off.
    AwaitVerify,
    /// Done.
    Finished(PowerOffOutcome),
}

/// A checked power-off of one domain: unless told to act at once, it first
/// asks whether the domain is on and stops if it is not; otherwise it powers
/// the domain off, waits `settle_spins`, and checks that it reads as off.
#[derive(Clone, Copy, Debug, PartialEq, Eq, Structural)]
pub struct CheckedPowerOff {
    pub domain: PowerDomain,
    pub settle_spins: usize,
    pub phase: CheckPhase,
}

/// A checked power-off at its start.
pub open spec fn check_start(domain: PowerDomain, check_initial: bool, settle_spins: usize) -> CheckedPowerOff {
    CheckedPowerOff {
        domain,
        settle_spins,
        phase: if check_initial {
            CheckPhase::AwaitInitial
        } else {
            CheckPhase::AwaitOff
        },
    }
}

/// The request that a checked power-off makes in its present phase.
pub open spec fn check_pending(m: CheckedPowerOff) -> Option<PmuAction> {
    match m.phase {
        CheckPhase::AwaitInitial => Some(PmuAction::QueryPower(m.domain)),
        CheckPhase::AwaitOff => Some(PmuAction::PowerOff(m.domain)),
        CheckPhase::AwaitVerify => Some(PmuAction::SettleThenQuery(m.domain, m.settle_spins)),
        CheckPhase::Finished(_) => None,
    }
}

/// The same power-off in another phase.
pub open spec fn check_in(m: CheckedPowerOff, phase: CheckPhase) -> CheckedPowerOff {
    CheckedPowerOff { domain: m.domain, settle_spins: m.settle_spins, phase }
}

/// A checked power-off after an answer.  An answer of the wrong kind, or any
/// answer once finished, changes nothing.
pub open spec fn check_next(m: CheckedPowerOff, ev: PmuEvent) -> CheckedPowerOff {
    match m.phase {
        CheckPhase::AwaitInitial => match ev {
            PmuEvent::PowerState(on) => if on {
                check_in(m, CheckPhase::AwaitOff)
            } else {
                check_in(m, CheckPhase::Finished(PowerOffOutcome::AlreadyOff))
            },
            _ => m,
        },
        CheckPhase::AwaitOff => match ev {
            PmuEvent::Completed(r) => match r {
                Ok(_) => check_in(m, CheckPhase::AwaitVerify),
                Err(e) => check_in(m, CheckPhase::Finished(PowerOffOutcome::Failed(e))),
            },
            _ => m,
        },
        CheckPhase::AwaitVerify => match ev {
            PmuEvent::PowerState(on) => check_in(
                m,
                CheckPhase::Finished(
                    if on {
                        PowerOffOutcome::StillOn
                    } else {
                        PowerOffOutcome::PoweredOff
                    },
                ),
            ),
            _ => m,
        },
        CheckPhase::Finished(_) => m,
    }
}

/// The answers a checked power-off receives in a run where the domain first
/// reads `initial_on` (asked only when `check_initial`), the power-off
/// returns `result`, and the domain then reads `still_on`.
pub open spec fn check_events(
    check_initial: bool,
    initial_on: bool,
    result: Result<(), PmuError>,
    still_on: bool,
) -> Seq<PmuEvent> {
    (if check_initial {
        seq![PmuEvent::PowerState(initial_on)]
    } else {
        seq![]
    }) + seq![PmuEvent::Completed(result), PmuEvent::PowerState(still_on)]
}

/// A checked power-off after a sequence of answers.
pub open spec fn check_run(m: CheckedPowerOff, evs: Seq<PmuEvent>) -> CheckedPowerOff
    decreases evs.len(),
{
    if evs.len() == 0 {
        m
    } else {
        check_next(check_run(m, evs.drop_last()), evs.last())
    }
}

/// How such a run ends.
pub open spec fn checked_verdict(
    check_initial: bool,
    initial_on: bool,
    result: Result<(), PmuError>,
    still_on: bool,
) -> PowerOffOutcome {
    if check_initial && !initial_on {
        PowerOffOutcome::AlreadyOff
    } else {
        match result {
            Err(e) => PowerOffOutcome::Failed(e),
            Ok(_) => if still_on {
                PowerOffOutcome::StillOn
            } else {
                PowerOffOutcome::PoweredOff
            },
        }
    }
}

impl CheckedPowerOff {
    /// Starts a checked power-off of `domain`.  With `check_initial` the
    /// domain's state is asked first and an off domain is left alone.
    pub fn new(domain: PowerDomain, check_initial: bool, settle_spins: usize) -> (m: Self)
        ensures
            m == check_start(domain, check_initial, settle_spins),
    {
        CheckedPowerOff {
            domain,
            settle_spins,
            phase: if check_initial {
                CheckPhase::AwaitInitial
            } else {
                CheckPhase::AwaitOff
            },
        }
    }

    /// The request to make now, or `None` once finished.
    pub fn pending(&self) -> (a: Option<PmuAction>)
        ensures
            a == check_pending(*self),
    {
        match self.phase {
            CheckPhase::AwaitInitial => Some(PmuAction::QueryPower(self.domain)),
            CheckPhase::AwaitOff => Some(PmuAction::PowerOff(self.domain)),
            CheckPhase::AwaitVerify => Some(PmuAction::SettleThenQuery(self.domain, self.settle_spins)),
            CheckPhase::Finished(_) => None,
        }
    }

    /// The outcome, once finished.
    pub fn outcome(&self) -> (o: Option<PowerOffOutcome>)
        ensures
            self.phase matches CheckPhase::Finished(x) ==> o == Some(x),
            !(self.phase is Finished) ==> o is None,
    {
        match self.phase {
            CheckPhase::Finished(x) => Some(x),
            _ => None,
        }
    }

    /// Takes the answer to the pending request.
    pub fn step(self, ev: PmuEvent) -> (m: Self)
        ensures
            m == check_next(self, ev),
    {
        let d = self.domain;
        let s = self.settle_spins;
        match self.phase {
            CheckPhase::AwaitInitial => match ev {
                PmuEvent::PowerState(on) => if on {
                    CheckedPowerOff { domain: d, settle_spins: s, phase: CheckPhase::AwaitOff }
                } else {
                    CheckedPowerOff {
                        domain: d,
                        settle_spins: s,
                        phase: CheckPhase::Finished(PowerOffOutcome::AlreadyOff),
                    }
                },
                _ => self,
            },
            CheckPhase::AwaitOff => match ev {
                PmuEvent::Completed(r) => match r {
                    Ok(_) => CheckedPowerOff {
                        domain: d,
                        settle_spins: s,
                        phase: CheckPhase::AwaitVerify,
                    },
                    Err(e) => CheckedPowerOff {
                        domain: d,
                        settle_spins: s,
                        phase: CheckPhase::Finished(PowerOffOutcome::Failed(e)),
                    },
                },
                _ => self,
            },
            CheckPhase::AwaitVerify => match ev {
                PmuEvent::PowerState(on) => CheckedPowerOff {
                    domain: d,
                    settle_spins: s,
                    phase: CheckPhase::Finished(
                        if on {
                            PowerOffOutcome::StillOn
                        } else {
                            PowerOffOutcome::PoweredOff
                        },
                    ),
                },
                _ => self,
            },
            CheckPhase::Finished(_) => self,
        }
    }
}

/// A checked power-off driven by the answers of a run ends with the verdict
/// of that run: an off domain is left alone when its state is checked first,
/// a failed power-off is reported as failed, and otherwise the domain's state
/// afterwards decides between powered off and still on.  The domain is
/// powered off at most once, and only after it read as on (when asked).
pub proof fn law_checked_power_off_verdict(
    domain: PowerDomain,
    check_initial: bool,
    settle_spins: usize,
    initial_on: bool,
    result: Result<(), PmuError>,
    still_on: bool,
)
    ensures
        check_run(
            check_start(domain, check_initial, settle_spins),
            check_events(check_initial, initial_on, result, still_on),
        ).phase == CheckPhase::Finished(checked_verdict(check_initial, initial_on, result, still_on)),
{
    let m0 = check_start(domain, check_initial, settle_spins);
    let evs = check_events(check_initial, initial_on, result, still_on);
    let tail = seq![PmuEvent::Completed(result), PmuEvent::PowerState(still_on)];
    if check_initial {
        assert(evs =~= seq![PmuEvent::PowerState(initial_on), PmuEvent::Completed(result), PmuEvent::PowerState(still_on)]);
        assert(evs.drop_last() =~= seq![PmuEvent::PowerState(initial_on), PmuEvent::Completed(result)]);
        assert(evs.drop_last().drop_last() =~= seq![PmuEvent::PowerState(initial_on)]);
        assert(evs.drop_last().drop_last().drop_last() =~= Seq::<PmuEvent>::empty());
        let e1 = evs.drop_last().drop_last();
        assert(check_run(m0, e1.drop_last()) == m0);
        assert(e1.last() == PmuEvent::PowerState(initial_on));
        let m1 = check_run(m0, e1);
        assert(m1 == check_next(m0, PmuEvent::PowerState(initial_on)));
        let m2 = check_run(m0, evs.drop_last());
        assert(m2 == check_next(m1, PmuEvent::Completed(result)));
    } else {
        assert(evs =~= tail);
        assert(evs.drop_last() =~= seq![PmuEvent::Completed(result)]);
        assert(evs.drop_last().drop_last() =~= Seq::<PmuEvent>::empty());
        let e1 = evs.drop_last();
        assert(check_run(m0, e1.drop_last()) == m0);
        assert(e1.last() == PmuEvent::Completed(result));
        let m1 = check_run(m0, e1);
        assert(m1 == check_next(m0, PmuEvent::Completed(result)));
    }
}

/// A checked power-off only comes to request a power-off from a state that
/// already requested it, or from the first check after the domain read as
/// on: an off domain is never powered off.  It keeps its domain and wait,
/// and every request it makes is one of `check_requests`.
pub proof fn law_power_off_only_when_on(m: CheckedPowerOff, ev: PmuEvent)
    ensures
        check_next(m, ev).phase == CheckPhase::AwaitOff ==> (m.phase == CheckPhase::AwaitOff || (
        m.phase == CheckPhase::AwaitInitial && ev == PmuEvent::PowerState(true))),
        check_next(m, ev).domain == m.domain,
        check_next(m, ev).settle_spins == m.settle_spins,
        check_pending(m) matches Some(a) ==> check_requests(m).contains(a),
{
    if check_pending(m) is Some {
        let a = check_pending(m)->0;
        let r = check_requests(m);
        if m.phase is AwaitInitial {
            assert(r[0] == a);
        } else if m.phase is AwaitOff {
            assert(r[0] == a);
        } else {
            assert(r[1] == a);
        }
    }
}

/// Verdict of a power-off whose effect is judged from the state before and
/// after it.
#[derive(Clone, Copy, Debug, PartialEq, Eq, Structural)]
pub enum TransitionVerdict {
    /// The domain went from on to off.
    TurnedOff,
    /// The domain was already off.
    WasOff,
    /// The domain was on and still is.
    Unchanged,
}

/// The domain's state read after a checked power-off, where it was read:
/// on when still on, off when powered off or already off, unknown when the
/// power-off failed.
pub fn state_after(o: PowerOffOutcome) -> (on: Option<bool>)
    ensures
        o == PowerOffOutcome::StillOn ==> on == Some(true),
        o == PowerOffOutcome::PoweredOff || o == PowerOffOutcome::AlreadyOff ==> on == Some(false),
        o is Failed ==> on is None,
{
    match o {
        PowerOffOutcome::StillOn => Some(true),
        PowerOffOutcome::PoweredOff => Some(false),
        PowerOffOutcome::AlreadyOff => Some(false),
        PowerOffOutcome::Failed(_) => None,
    }
}

/// Judges a power-off from the domain's state before and after it.
pub fn transition_verdict(initial_on: bool, final_on: bool) -> (v: TransitionVerdict)
    ensures
        initial_on && !final_on ==> v == TransitionVerdict::TurnedOff,
        !initial_on ==> v == TransitionVerdict::WasOff,
        initial_on && final_on ==> v == TransitionVerdict::Unchanged,
{
    if initial_on && !final_on {
        TransitionVerdict::TurnedOff
    } else if !initial_on {
        TransitionVerdict::WasOff
    } else {
        TransitionVerdict::Unchanged
    }
}

// ---------------------------------------------------------------------------
// Counting outcomes
// ---------------------------------------------------------------------------

/// Counts of checked power-offs by how they ended.
#[derive(Clone, Copy, Debug, PartialEq, Eq, Structural)]
pub struct PowerOffTally {
    /// Powered off and verified off.
    pub success: usize,
    /// Already off, skipped.
    pub skipped: usize,
    /// Failed, or still on afterwards.
    pub failed: usize,
}

/// Number of outcomes counted.
pub open spec fn tally_total(t: PowerOffTally) -> int {
    t.success + t.skipped + t.failed
}

/// A tally with one more outcome counted.
pub open spec fn tally_add(t: PowerOffTally, o: PowerOffOutcome) -> PowerOffTally {
    match o {
        PowerOffOutcome::PoweredOff => PowerOffTally { success: (t.success + 1) as usize, ..t },
        PowerOffOutcome::AlreadyOff => PowerOffTally { skipped: (t.skipped + 1) as usize, ..t },
        _ => PowerOffTally { failed: (t.failed + 1) as usize, ..t },
    }
}

/// The empty tally.
pub open spec fn tally_zero() -> PowerOffTally {
    PowerOffTally { success: 0, skipped: 0, failed: 0 }
}

/// Counting an outcome adds exactly one to exactly one counter: to
/// `success` exactly for a verified power-off, to `skipped` exactly for a
/// domain that was already off, and to `failed` exactly for a domain still
/// on afterwards or a power-off that failed, whatever the error.
pub proof fn law_tally_counts_each_outcome(t: PowerOffTally, o: PowerOffOutcome)
    requires
        tally_total(t) < usize::MAX,
    ensures
        tally_add(t, o).success == t.success + 1 <==> o == PowerOffOutcome::PoweredOff,
        tally_add(t, o).skipped == t.skipped + 1 <==> o == PowerOffOutcome::AlreadyOff,
        tally_add(t, o).failed == t.failed + 1 <==> (o == PowerOffOutcome::StillOn
            || o is Failed),
        tally_add(t, o).success >= t.success,
        tally_add(t, o).skipped >= t.skipped,
        tally_add(t, o).failed >= t.failed,
        tally_total(tally_add(t, o)) == tally_total(t) + 1,
        forall|e: PmuError| tally_add(t, PowerOffOutcome::Failed(e)).failed == t.failed + 1,
{
}

impl PowerOffTally {
    /// An empty tally.
    pub fn new() -> (t: Self)
        ensures
            t == tally_zero(),
    {
        PowerOffTally { success: 0, skipped: 0, failed: 0 }
    }

    /// Counts one more outcome.
    pub fn record(&mut self, o: PowerOffOutcome)
        requires
            tally_total(*old(self)) < usize::MAX,
        ensures
            *final(self) == tally_add(*old(self), o),
            tally_total(*final(self)) == tally_total(*old(self)) + 1,
            final(self).success == old(self).success + if o == PowerOffOutcome::PoweredOff {
                1int
            } else {
                0int
            },
            final(self).skipped == old(self).skipped + if o == PowerOffOutcome::AlreadyOff {
                1int
            } else {
                0int
            },
            final(self).failed == old(self).failed + if o == PowerOffOutcome::StillOn
                || o is Failed {
                1int
            } else {
                0int
            },
    {
        match o {
            PowerOffOutcome::PoweredOff => {
                self.success = self.success + 1;
            },
            PowerOffOutcome::AlreadyOff => {
                self.skipped = self.skipped + 1;
            },
            _ => {
                self.failed = self.failed + 1;
            },
        }
    }
}

// ---------------------------------------------------------------------------
// System power-off sequence
// ---------------------------------------------------------------------------

/// Where the system power-off sequence stands.
#[derive(Clone, Copy, Debug, PartialEq, Eq, Structural)]
pub enum ShutdownPhase {
    /// Step 1: asking the state of shutdown domain `i`.
    Survey(usize),
    /// Pause after step 1.
    SurveyPause,
    /// Step 2: the checked power-off of shutdown domain `i`.
    PowerOff(usize, CheckedPowerOff),
    /// Pause after step 2.
    PowerOffPause,
    /// Step 3: asking the final state of shutdown domain `i`.
    Report(usize),
    /// Pause after step 3.
    ReportPause,
    /// Last pause before the system goes off.
    FinalPause,
    /// Step 4: the system is switched off.
    Off,
}

/// The system power-off sequence: survey which peripheral domains are on,
/// power each one off (skipping those already off and checking the others),
/// report the final states, and switch the system off.
#[derive(Clone, Copy, Debug, PartialEq, Eq, Structural)]
pub struct SystemPowerOff {
    /// Present phase.
    pub phase: ShutdownPhase,
    /// Domains found on in step 1 so far.
    pub active: usize,
    /// Outcomes of step 2 so far.
    pub tally: PowerOffTally,
}

/// The checked power-off of shutdown domain `i`.
pub open spec fn shutdown_check(i: int) -> CheckedPowerOff {
    check_start(shutdown_domains()[i], true, SHUTDOWN_SETTLE_SPINS)
}

impl SystemPowerOff {
    /// The sequence at its start.
    pub open spec fn start() -> SystemPowerOff {
        SystemPowerOff { phase: ShutdownPhase::Survey(0), active: 0, tally: tally_zero() }
    }

    /// The sequence is in a state it can reach: counters within the number of
    /// domains, the power-off in progress is that of its domain, and every
    /// domain handled so far is counted once.
    pub open spec fn wf(self) -> bool {
        match self.phase {
            ShutdownPhase::Survey(i) => i < SHUTDOWN_DOMAIN_COUNT && self.active <= i
                && self.tally == tally_zero(),
            ShutdownPhase::SurveyPause => self.active <= SHUTDOWN_DOMAIN_COUNT && self.tally
                == tally_zero(),
            ShutdownPhase::PowerOff(i, c) => i < SHUTDOWN_DOMAIN_COUNT && self.active
                <= SHUTDOWN_DOMAIN_COUNT && c.domain == shutdown_domains()[i as int]
                && c.settle_spins == SHUTDOWN_SETTLE_SPINS && !(c.phase is Finished)
                && tally_total(self.tally) == i,
            ShutdownPhase::Report(i) => i < SHUTDOWN_DOMAIN_COUNT && self.active
                <= SHUTDOWN_DOMAIN_COUNT && tally_total(self.tally) == SHUTDOWN_DOMAIN_COUNT,
            _ => self.active <= SHUTDOWN_DOMAIN_COUNT && tally_total(self.tally)
                == SHUTDOWN_DOMAIN_COUNT,
        }
    }

    /// The request the sequence makes in its present phase.
    pub open spec fn pending_spec(self) -> Option<PmuAction> {
        match self.phase {
            ShutdownPhase::Survey(i) => Some(PmuAction::QueryPower(shutdown_domains()[i as int])),
            ShutdownPhase::SurveyPause => Some(PmuAction::Spin(SHUTDOWN_PAUSE_SPINS)),
            ShutdownPhase::PowerOff(_, c) => check_pending(c),
            ShutdownPhase::PowerOffPause => Some(PmuAction::Spin(SHUTDOWN_PAUSE_SPINS)),
            ShutdownPhase::Report(i) => Some(PmuAction::QueryPower(shutdown_domains()[i as int])),
            ShutdownPhase::ReportPause => Some(PmuAction::Spin(SHUTDOWN_PAUSE_SPINS)),
            ShutdownPhase::FinalPause => Some(PmuAction::Spin(SHUTDOWN_FINAL_SPINS)),
            ShutdownPhase::Off => Some(PmuAction::SystemOff),
        }
    }

    /// The sequence in another phase with the same counters.
    pub open spec fn in_phase(self, phase: ShutdownPhase) -> SystemPowerOff {
        SystemPowerOff { phase, active: self.active, tally: self.tally }
    }

    /// The sequence after an answer.  An answer of the wrong kind changes
    /// nothing.
    pub open spec fn next_spec(self, ev: PmuEvent) -> SystemPowerOff {
        match self.phase {
            ShutdownPhase::Survey(i) => match ev {
                PmuEvent::PowerState(on) => {
                    let active = if on {
                        (self.active + 1) as usize
                    } else {
                        self.active
                    };
                    SystemPowerOff {
                        phase: if i + 1 < SHUTDOWN_DOMAIN_COUNT {
                            ShutdownPhase::Survey((i + 1) as usize)
                        } else {
                            ShutdownPhase::SurveyPause
                        },
                        active,
                        tally: self.tally,
                    }
                },
                _ => self,
            },
            ShutdownPhase::SurveyPause => match ev {
                PmuEvent::Waited => self.in_phase(ShutdownPhase::PowerOff(0, shutdown_check(0))),
                _ => self,
            },
            ShutdownPhase::PowerOff(i, c) => {
                let c2 = check_next(c, ev);
                match c2.phase {
                    CheckPhase::Finished(o) => SystemPowerOff {
                        phase: if i + 1 < SHUTDOWN_DOMAIN_COUNT {
                            ShutdownPhase::PowerOff(
                                (i + 1) as usize,
                                shutdown_check(i + 1),
                            )
                        } else {
                            ShutdownPhase::PowerOffPause
                        },
                        active: self.active,
                        tally: tally_add(self.tally, o),
                    },
                    _ => self.in_phase(ShutdownPhase::PowerOff(i, c2)),
                }
            },
            ShutdownPhase::PowerOffPause => match ev {
                PmuEvent::Waited => self.in_phase(ShutdownPhase::Report(0)),
                _ => self,
            },
            ShutdownPhase::Report(i) => match ev {
                PmuEvent::PowerState(_) => self.in_phase(
                    if i + 1 < SHUTDOWN_DOMAIN_COUNT {
                        ShutdownPhase::Report((i + 1) as usize)
                    } else {
                        ShutdownPhase::ReportPause
                    },
                ),
                _ => self,
            },
            ShutdownPhase::ReportPause => match ev {
                PmuEvent::Waited => self.in_phase(ShutdownPhase::FinalPause),
                _ => self,
            },
            ShutdownPhase::FinalPause => match ev {
                PmuEvent::Waited => self.in_phase(ShutdownPhase::Off),
                _ => self,
            },
            ShutdownPhase::Off => self,
        }
    }

    /// Starts the system power-off sequence.
    pub fn new() -> (s: Self)
        ensures
            s == Self::start(),
            s.wf(),
    {
        SystemPowerOff { phase: ShutdownPhase::Survey(0), active: 0, tally: PowerOffTally::new() }
    }

    /// Present phase.
    pub fn phase(&self) -> (p: ShutdownPhase)
        ensures
            p == self.phase,
    {
        self.phase
    }

    /// Number of domains found on in step 1.
    pub fn active_domains(&self) -> (n: usize)
        ensures
            n == self.active,
    {
        self.active
    }

    /// Outcomes of step 2 so far.
    pub fn tally(&self) -> (t: PowerOffTally)
        ensures
            t == self.tally,
    {
        self.tally
    }

    /// The request to make now.
    pub fn pending(&self) -> (a: Option<PmuAction>)
        requires
            self.wf(),
        ensures
            a == self.pending_spec(),
    {
        match self.phase {
            ShutdownPhase::Survey(i) => Some(PmuAction::QueryPower(shutdown_domain(i))),
            ShutdownPhase::SurveyPause => Some(PmuAction::Spin(SHUTDOWN_PAUSE_SPINS)),
            ShutdownPhase::PowerOff(_, c) => c.pending(),
            ShutdownPhase::PowerOffPause => Some(PmuAction::Spin(SHUTDOWN_PAUSE_SPINS)),
            ShutdownPhase::Report(i) => Some(PmuAction::QueryPower(shutdown_domain(i))),
            ShutdownPhase::ReportPause => Some(PmuAction::Spin(SHUTDOWN_PAUSE_SPINS)),
            ShutdownPhase::FinalPause => Some(PmuAction::Spin(SHUTDOWN_FINAL_SPINS)),
            ShutdownPhase::Off => Some(PmuAction::SystemOff),
        }
    }

    /// Takes the answer to the pending request.
    pub fn step(self, ev: PmuEvent) -> (s: Self)
        requires
            self.wf(),
        ensures
            s == self.next_spec(ev),
            s.wf(),
    {
        proof {
            law_no_critical_domain_is_switched_off();
        }
        match self.phase {
            ShutdownPhase::Survey(i) => match ev {
                PmuEvent::PowerState(on) => {
                    let active = if on {
                        self.active + 1
                    } else {
                        self.active
                    };
                    let phase = if i + 1 < SHUTDOWN_DOMAIN_COUNT {
                        ShutdownPhase::Survey(i + 1)
                    } else {
                        ShutdownPhase::SurveyPause
                    };
                    SystemPowerOff { phase, active, tally: self.tally }
                },
                _ => self,
            },
            ShutdownPhase::SurveyPause => match ev {
                PmuEvent::Waited => SystemPowerOff {
                    phase: ShutdownPhase::PowerOff(
                        0,
                        CheckedPowerOff::new(shutdown_domain(0), true, SHUTDOWN_SETTLE_SPINS),
                    ),
                    active: self.active,
                    tally: self.tally,
                },
                _ => self,
            },
            ShutdownPhase::PowerOff(i, c) => {
                let c2 = c.step(ev);
                match c2.phase {
                    CheckPhase::Finished(o) => {
                        let mut tally = self.tally;
                        tally.record(o);
                        let phase = if i + 1 < SHUTDOWN_DOMAIN_COUNT {
                            ShutdownPhase::PowerOff(
                                i + 1,
                                CheckedPowerOff::new(
                                    shutdown_domain(i + 1),
                                    true,
                                    SHUTDOWN_SETTLE_SPINS,
                                ),
                            )
                        } else {
                            ShutdownPhase::PowerOffPause
                        };
                        SystemPowerOff { phase, active: self.active, tally }
                    },
                    _ => SystemPowerOff {
                        phase: ShutdownPhase::PowerOff(i, c2),
                        active: self.active,
                        tally: self.tally,
                    },
                }
            },
            ShutdownPhase::PowerOffPause => match ev {
                PmuEvent::Waited => SystemPowerOff {
                    phase: ShutdownPhase::Report(0),
                    active: self.active,
                    tally: self.tally,
                },
                _ => self,
            },
            ShutdownPhase::Report(i) => match ev {
                PmuEvent::PowerState(_) => {
                    let phase = if i + 1 < SHUTDOWN_DOMAIN_COUNT {
                        ShutdownPhase::Report(i + 1)
                    } else {
                        ShutdownPhase::ReportPause
                    };
                    SystemPowerOff { phase, active: self.active, tally: self.tally }
                },
                _ => self,
            },
            ShutdownPhase::ReportPause => match ev {
                PmuEvent::Waited => SystemPowerOff {
                    phase: ShutdownPhase::FinalPause,
                    active: self.active,
                    tally: self.tally,
                },
                _ => self,
            },
            ShutdownPhase::FinalPause => match ev {
                PmuEvent::Waited => SystemPowerOff {
                    phase: ShutdownPhase::Off,
                    active: self.active,
                    tally: self.tally,
                },
                _ => self,
            },
            ShutdownPhase::Off => self,
        }
    }
}

/// Every state the system power-off sequence reaches is well formed, and in
/// such a state: the sequence asks to power off only peripheral domains,
/// never a critical one; once the system is switched off, each of the six
/// domains has been counted exactly once as powered off, skipped or failed;
/// and the number of domains found on never exceeds six.
pub proof fn law_system_power_off_safe(s: SystemPowerOff, ev: PmuEvent)
    requires
        s.wf(),
    ensures
        SystemPowerOff::start().wf(),
        s.next_spec(ev).wf(),
        s.pending_spec() matches Some(PmuAction::PowerOff(d)) ==> !critical_domains().contains(d),
        s.phase == ShutdownPhase::Off ==> tally_total(s.tally) == SHUTDOWN_DOMAIN_COUNT,
        s.active <= SHUTDOWN_DOMAIN_COUNT,
        s.pending_spec() matches Some(PmuAction::PowerOff(d)) ==> !shutdown_spared_domains().contains(d),
{
    law_no_critical_domain_is_switched_off();
    law_shutdown_spares_listed_domains();
}

/// Whether `ev` is an answer of the kind that request `a` expects.
pub open spec fn answers(a: PmuAction, ev: PmuEvent) -> bool {
    match a {
        PmuAction::QueryPower(_) => ev is PowerState,
        PmuAction::SettleThenQuery(_, _) => ev is PowerState,
        PmuAction::PowerOff(_) => ev is Completed,
        PmuAction::PowerOn(_) => ev is Completed,
        PmuAction::PowerOffGroup(_) => ev is Completed,
        PmuAction::PowerOnGroup(_) => ev is Completed,
        PmuAction::Spin(_) => ev is Waited,
        _ => false,
    }
}

/// Answers a checked power-off still needs at most.
pub open spec fn check_remaining(c: CheckedPowerOff) -> int {
    match c.phase {
        CheckPhase::AwaitInitial => 3,
        CheckPhase::AwaitOff => 2,
        CheckPhase::AwaitVerify => 1,
        CheckPhase::Finished(_) => 0,
    }
}

/// Answers the system power-off sequence still needs at most before the
/// system is switched off.
pub open spec fn shutdown_remaining(s: SystemPowerOff) -> int {
    match s.phase {
        ShutdownPhase::Survey(i) => (SHUTDOWN_DOMAIN_COUNT - i) + 28,
        ShutdownPhase::SurveyPause => 28,
        ShutdownPhase::PowerOff(i, c) => check_remaining(c) + 3 * (SHUTDOWN_DOMAIN_COUNT - 1 - i) + 9,
        ShutdownPhase::PowerOffPause => 9,
        ShutdownPhase::Report(i) => (SHUTDOWN_DOMAIN_COUNT - i) + 2,
        ShutdownPhase::ReportPause => 2,
        ShutdownPhase::FinalPause => 1,
        ShutdownPhase::Off => 0,
    }
}

/// The system power-off sequence always gets to switching the system off:
/// every answer of the expected kind brings it strictly closer, from at most
/// 34 answers at the start, and only the switched-off state needs none.
pub proof fn law_system_power_off_terminates(s: SystemPowerOff, ev: PmuEvent)
    requires
        s.wf(),
    ensures
        shutdown_remaining(SystemPowerOff::start()) == 34,
        shutdown_remaining(s) >= 0,
        shutdown_remaining(s) == 0 <==> s.phase == ShutdownPhase::Off,
        s.phase != ShutdownPhase::Off && (s.pending_spec() matches Some(a) && answers(a, ev))
            ==> shutdown_remaining(s.next_spec(ev)) < shutdown_remaining(s),
{
}

// ---------------------------------------------------------------------------
// The PMU test programs
// ---------------------------------------------------------------------------

/// The PMU tests, by name.
#[derive(Clone, Copy, Debug, PartialEq, Eq, Structural)]
pub enum PmuTest {
    Version,
    DomainStatus,
    PowerOffAudio,
    PowerCycleAudio,
    BatchPowerOperations,
    PowerOffWithTimeout,
    BiuIdleHandling,
    PowerStateTransitions,
    ErrorHandling,
    BasicPowerOff,
    PowerOffWithVerification,
    SequentialPowerOff,
    PowerOffTimeout,
    IdempotentPowerOff,
    BatchPowerOff,
}

/// Requests of the version test.
pub open spec fn version_plan() -> Seq<PmuAction> {
    seq![PmuAction::ReadVersion, PmuAction::ReadGlobalStatus]
}

/// Requests of the status test: the state of each status domain, in order.
pub open spec fn status_plan() -> Seq<PmuAction> {
    status_domains().map_values(|d: PowerDomain| PmuAction::QueryPower(d))
}

/// A single power-off of AUDIO.
pub open spec fn audio_power_off_plan() -> Seq<PmuAction> {
    seq![PmuAction::PowerOff(PowerDomain::AUDIO)]
}

/// Requests of the error handling test.
pub open spec fn error_handling_plan() -> Seq<PmuAction> {
    seq![
        PmuAction::PowerOff(PowerDomain::AUDIO),
        PmuAction::PowerOff(PowerDomain::AUDIO),
        PmuAction::PowerOn(PowerDomain::AUDIO),
        PmuAction::PowerOn(PowerDomain::AUDIO),
    ]
}

/// Requests of the idempotent power-off test.
pub open spec fn idempotent_plan() -> Seq<PmuAction> {
    seq![
        PmuAction::PowerOff(PowerDomain::AUDIO),
        PmuAction::Spin(500_000),
        PmuAction::PowerOff(PowerDomain::AUDIO),
    ]
}

/// Requests of the BIU idle handling test.
pub open spec fn biu_idle_plan() -> Seq<PmuAction> {
    seq![PmuAction::QueryPower(PowerDomain::GPU), PmuAction::PowerOff(PowerDomain::SDMMC)]
}

/// The domains that the PMU tests may switch on or off: AUDIO and SDMMC.
pub open spec fn safe_write_domain(d: PowerDomain) -> bool {
    d == PowerDomain::AUDIO || d == PowerDomain::SDMMC
}

/// The request switches power only of safe test domains.
pub open spec fn action_writes_safe(a: PmuAction) -> bool {
    match a {
        PmuAction::PowerOff(d) => safe_write_domain(d),
        PmuAction::PowerOn(d) => safe_write_domain(d),
        PmuAction::PowerOffGroup(g) => forall|i: int|
            0 <= i < group_domains(g).len() ==> safe_write_domain(#[trigger] group_domains(g)[i]),
        PmuAction::PowerOnGroup(g) => forall|i: int|
            0 <= i < group_domains(g).len() ==> safe_write_domain(#[trigger] group_domains(g)[i]),
        _ => true,
    }
}

/// Every request of the program switches power only of safe test domains.
pub open spec fn writes_only_safe(plan: Seq<PmuAction>) -> bool {
    forall|i: int| 0 <= i < plan.len() ==> action_writes_safe(#[trigger] plan[i])
}

/// Every request a checked power-off can still make: the first check only
/// while it is waiting for it.
pub open spec fn check_requests(m: CheckedPowerOff) -> Seq<PmuAction> {
    if m.phase == CheckPhase::AwaitInitial {
        seq![
            PmuAction::QueryPower(m.domain),
            PmuAction::PowerOff(m.domain),
            PmuAction::SettleThenQuery(m.domain, m.settle_spins),
        ]
    } else {
        seq![PmuAction::PowerOff(m.domain), PmuAction::SettleThenQuery(m.domain, m.settle_spins)]
    }
}

/// Every request a PMU test can make, in order of first use.
pub open spec fn pmu_test_requests(t: PmuTest) -> Seq<PmuAction> {
    match t {
        PmuTest::Version => version_plan(),
        PmuTest::DomainStatus => status_plan(),
        PmuTest::PowerOffAudio => check_requests(check_start(PowerDomain::AUDIO, true, 1_000_000)),
        PmuTest::PowerCycleAudio => guarded_actions(power_cycle_plan()),
        PmuTest::BatchPowerOperations => guarded_actions(batch_operations_plan()),
        PmuTest::PowerOffWithTimeout => audio_power_off_plan(),
        PmuTest::BiuIdleHandling => biu_idle_plan(),
        PmuTest::PowerStateTransitions => transition_cycles(POWER_TRANSITION_CYCLES as nat).push(
            PmuAction::PowerOn(PowerDomain::AUDIO),
        ),
        PmuTest::ErrorHandling => error_handling_plan(),
        PmuTest::BasicPowerOff => check_requests(check_start(PowerDomain::AUDIO, true, 1_000_000)),
        PmuTest::PowerOffWithVerification => seq![PmuAction::QueryPower(PowerDomain::SDMMC)]
            + check_requests(check_start(PowerDomain::SDMMC, false, 500_000)),
        PmuTest::SequentialPowerOff => check_requests(check_start(PowerDomain::AUDIO, true, 500_000))
            + check_requests(check_start(PowerDomain::SDMMC, true, 500_000)),
        PmuTest::PowerOffTimeout => audio_power_off_plan(),
        PmuTest::IdempotentPowerOff => idempotent_plan(),
        PmuTest::BatchPowerOff => guarded_actions(batch_power_off_plan()),
    }
}

/// Version test: read the version register and the global power status.
pub fn test_pmu_version() -> (plan: Vec<PmuAction>)
    ensures
        plan@ == version_plan(),
{
    let plan = vec![PmuAction::ReadVersion, PmuAction::ReadGlobalStatus];
    assert(plan@ =~= version_plan());
    plan
}

/// Status test: ask the state of each status domain, in order.
pub fn test_power_domain_status() -> (plan: Vec<PmuAction>)
    ensures
        plan@ == status_plan(),
{
    let plan = vec![
        PmuAction::QueryPower(PowerDomain::GPU),
        PmuAction::QueryPower(PowerDomain::NPU),
        PmuAction::QueryPower(PowerDomain::VOP),
        PmuAction::QueryPower(PowerDomain::VCODEC),
        PmuAction::QueryPower(PowerDomain::AUDIO),
        PmuAction::QueryPower(PowerDomain::USB),
    ];
    assert(plan@ =~= status_plan());
    plan
}

/// Power off AUDIO unless it is already off, and check it after 1,000,000
/// spins.
pub fn test_power_off_audio() -> (m: CheckedPowerOff)
    ensures
        m == check_start(PowerDomain::AUDIO, true, 1_000_000),
{
    CheckedPowerOff::new(PowerDomain::AUDIO, true, 1_000_000)
}

/// The power-off demo: the same checked power-off of AUDIO.
pub fn pmu_power_off_demo() -> (m: CheckedPowerOff)
    ensures
        m == check_start(PowerDomain::AUDIO, true, 1_000_000),
{
    CheckedPowerOff::new(PowerDomain::AUDIO, true, 1_000_000)
}

/// Basic power-off test: AUDIO, unless already off, checked after 10 ms.
pub fn test_basic_power_off() -> (m: CheckedPowerOff)
    ensures
        m == check_start(PowerDomain::AUDIO, true, 1_000_000),
{
    CheckedPowerOff::new(PowerDomain::AUDIO, true, spins_for_ms(10))
}

/// Quick power-off demo: AUDIO at once, checked after 5 ms.
pub fn quick_power_off_demo() -> (m: CheckedPowerOff)
    ensures
        m == check_start(PowerDomain::AUDIO, false, 500_000),
{
    CheckedPowerOff::new(PowerDomain::AUDIO, false, spins_for_ms(5))
}

/// Power-off with state verification: SDMMC is powered off at once and
/// checked after 5 ms; `transition_verdict` judges the run from the state
/// read before (the first request of this program) and after.
pub fn test_power_off_with_verification() -> (r: (PmuAction, CheckedPowerOff))
    ensures
        r.0 == PmuAction::QueryPower(PowerDomain::SDMMC),
        r.1 == check_start(PowerDomain::SDMMC, false, 500_000),
{
    (
        PmuAction::QueryPower(PowerDomain::SDMMC),
        CheckedPowerOff::new(PowerDomain::SDMMC, false, spins_for_ms(5)),
    )
}

/// Sequential power-off: each safe test domain in turn, unless already off,
/// checked after 5 ms.
pub fn test_sequential_power_off() -> (ms: Vec<CheckedPowerOff>)
    ensures
        ms@ == safe_test_domains().map_values(
            |d: PowerDomain| check_start(d, true, 500_000),
        ),
{
    let spins = spins_for_ms(5);
    let ms = vec![
        CheckedPowerOff::new(PowerDomain::AUDIO, true, spins),
        CheckedPowerOff::new(PowerDomain::SDMMC, true, spins),
    ];
    assert(ms@ =~= safe_test_domains().map_values(
        |d: PowerDomain| check_start(d, true, 500_000),
    ));
    ms
}

/// Simple power-off: GMAC off.
pub fn simple_power_off() -> (plan: Vec<PmuAction>)
    ensures
        spares_critical(plan@),
        plan@ == seq![PmuAction::PowerOff(PowerDomain::GMAC)],
{
    let plan = vec![PmuAction::PowerOff(PowerDomain::GMAC)];
    assert(plan@ =~= seq![PmuAction::PowerOff(PowerDomain::GMAC)]);
    plan
}

/// Power-off with timeout detection: AUDIO off; a `PmuError::Timeout` or
/// `PmuError::BiuIdleFailed` answer is reported by its kind.
pub fn test_power_off_timeout() -> (plan: Vec<PmuAction>)
    ensures
        spares_critical(plan@),
        plan@ == audio_power_off_plan(),
{
    let plan = vec![PmuAction::PowerOff(PowerDomain::AUDIO)];
    assert(plan@ =~= audio_power_off_plan());
    plan
}

/// Power-off with timeout protection: AUDIO off; a `PmuError::Timeout`
/// answer is reported as a timeout.
pub fn test_power_off_with_timeout() -> (plan: Vec<PmuAction>)
    ensures
        spares_critical(plan@),
        plan@ == audio_power_off_plan(),
{
    let plan = vec![PmuAction::PowerOff(PowerDomain::AUDIO)];
    assert(plan@ =~= audio_power_off_plan());
    plan
}

/// The domains of a group, in order.
pub open spec fn group_domains(g: DomainGroup) -> Seq<PowerDomain> {
    match g {
        DomainGroup::SafeTest => safe_test_domains(),
    }
}

/// The domains of a group, in order.
pub fn group_domain_list(g: DomainGroup) -> (v: Vec<PowerDomain>)
    ensures
        v@ == group_domains(g),
{
    match g {
        DomainGroup::SafeTest => safe_test_domain_list(),
    }
}

/// A request of a test program together with the number of following
/// requests that only make sense if it succeeds: when its answer is a failed
/// `Completed`, those are skipped.
#[derive(Clone, Copy, Debug, PartialEq, Eq, Structural)]
pub struct GuardedStep {
    pub action: PmuAction,
    pub skip_on_error: usize,
}

/// Position of the next request after request `i`, answered with `ev`.
pub open spec fn guarded_next(i: int, step: GuardedStep, ev: PmuEvent) -> int {
    match ev {
        PmuEvent::Completed(Err(_)) => i + 1 + step.skip_on_error,
        _ => i + 1,
    }
}

/// Position of the next request after request `i` of a guarded program,
/// answered with `ev`: the requests that `step` guards are skipped when it
/// failed.
pub fn next_guarded(i: usize, step: GuardedStep, ev: &PmuEvent) -> (n: usize)
    requires
        i + 1 + step.skip_on_error <= usize::MAX,
    ensures
        n == guarded_next(i as int, step, *ev),
{
    match ev {
        PmuEvent::Completed(Err(_)) => i + 1 + step.skip_on_error,
        _ => i + 1,
    }
}

/// A request that guards nothing.
pub open spec fn always(a: PmuAction) -> GuardedStep {
    GuardedStep { action: a, skip_on_error: 0 }
}

/// Power cycle of AUDIO: power it off (a failure is only reported), wait,
/// power it on and, if that succeeded, check it after a wait.
pub open spec fn power_cycle_plan() -> Seq<GuardedStep> {
    seq![
        always(PmuAction::PowerOff(PowerDomain::AUDIO)),
        always(PmuAction::Spin(2_000_000)),
        GuardedStep { action: PmuAction::PowerOn(PowerDomain::AUDIO), skip_on_error: 1 },
        always(PmuAction::SettleThenQuery(PowerDomain::AUDIO, 2_000_000)),
    ]
}

/// Batch operations: the safe test domains off together and, if that
/// succeeded, each one's state; a wait; then all on together and, if that
/// succeeded, each one's state.
pub open spec fn batch_operations_plan() -> Seq<GuardedStep> {
    seq![
        GuardedStep { action: PmuAction::PowerOffGroup(DomainGroup::SafeTest), skip_on_error: 2 },
        always(PmuAction::QueryPower(PowerDomain::AUDIO)),
        always(PmuAction::QueryPower(PowerDomain::SDMMC)),
        always(PmuAction::Spin(2_000_000)),
        GuardedStep { action: PmuAction::PowerOnGroup(DomainGroup::SafeTest), skip_on_error: 2 },
        always(PmuAction::QueryPower(PowerDomain::AUDIO)),
        always(PmuAction::QueryPower(PowerDomain::SDMMC)),
    ]
}

/// Batch power-off: the safe test domains off together and, if that
/// succeeded, after 10 ms, each one's state.
pub open spec fn batch_power_off_plan() -> Seq<GuardedStep> {
    seq![
        GuardedStep { action: PmuAction::PowerOffGroup(DomainGroup::SafeTest), skip_on_error: 3 },
        always(PmuAction::Spin(1_000_000)),
        always(PmuAction::QueryPower(PowerDomain::AUDIO)),
        always(PmuAction::QueryPower(PowerDomain::SDMMC)),
    ]
}

/// Power cycle test of AUDIO.
pub fn test_power_cycle_audio() -> (plan: Vec<GuardedStep>)
    ensures
        spares_critical(guarded_actions(plan@)),
        plan@ == power_cycle_plan(),
{
    let plan = vec![
        GuardedStep { action: PmuAction::PowerOff(PowerDomain::AUDIO), skip_on_error: 0 },
        GuardedStep { action: PmuAction::Spin(2_000_000), skip_on_error: 0 },
        GuardedStep { action: PmuAction::PowerOn(PowerDomain::AUDIO), skip_on_error: 1 },
        GuardedStep {
            action: PmuAction::SettleThenQuery(PowerDomain::AUDIO, 2_000_000),
            skip_on_error: 0,
        },
    ];
    assert(plan@ =~= power_cycle_plan());
    plan
}

/// Batch power operations test.
pub fn test_batch_power_operations() -> (plan: Vec<GuardedStep>)
    ensures
        spares_critical(guarded_actions(plan@)),
        plan@ == batch_operations_plan(),
{
    let plan = vec![
        GuardedStep { action: PmuAction::PowerOffGroup(DomainGroup::SafeTest), skip_on_error: 2 },
        GuardedStep { action: PmuAction::QueryPower(PowerDomain::AUDIO), skip_on_error: 0 },
        GuardedStep { action: PmuAction::QueryPower(PowerDomain::SDMMC), skip_on_error: 0 },
        GuardedStep { action: PmuAction::Spin(2_000_000), skip_on_error: 0 },
        GuardedStep { action: PmuAction::PowerOnGroup(DomainGroup::SafeTest), skip_on_error: 2 },
        GuardedStep { action: PmuAction::QueryPower(PowerDomain::AUDIO), skip_on_error: 0 },
        GuardedStep { action: PmuAction::QueryPower(PowerDomain::SDMMC), skip_on_error: 0 },
    ];
    assert(plan@ =~= batch_operations_plan());
    plan
}

/// Batch power-off test.
pub fn test_batch_power_off() -> (plan: Vec<GuardedStep>)
    ensures
        spares_critical(guarded_actions(plan@)),
        plan@ == batch_power_off_plan(),
{
    let plan = vec![
        GuardedStep { action: PmuAction::PowerOffGroup(DomainGroup::SafeTest), skip_on_error: 3 },
        GuardedStep { action: PmuAction::Spin(spins_for_ms(10)), skip_on_error: 0 },
        GuardedStep { action: PmuAction::QueryPower(PowerDomain::AUDIO), skip_on_error: 0 },
        GuardedStep { action: PmuAction::QueryPower(PowerDomain::SDMMC), skip_on_error: 0 },
    ];
    assert(plan@ =~= batch_power_off_plan());
    plan
}

/// One on/off cycle of AUDIO.
pub open spec fn transition_cycle() -> Seq<PmuAction> {
    seq![
        PmuAction::PowerOn(PowerDomain::AUDIO),
        PmuAction::Spin(1_000_000),
        PmuAction::PowerOff(PowerDomain::AUDIO),
        PmuAction::Spin(1_000_000),
    ]
}

/// `n` on/off cycles of AUDIO.
pub open spec fn transition_cycles(n: nat) -> Seq<PmuAction>
    decreases n,
{
    if n == 0 {
        seq![]
    } else {
        transition_cycles((n - 1) as nat) + transition_cycle()
    }
}

/// Power state transitions: three on/off cycles of AUDIO, then AUDIO on
/// again.
pub fn test_power_state_transitions() -> (plan: Vec<PmuAction>)
    ensures
        spares_critical(plan@),
        plan@ == transition_cycles(POWER_TRANSITION_CYCLES as nat).push(
            PmuAction::PowerOn(PowerDomain::AUDIO),
        ),
{
    let mut plan: Vec<PmuAction> = Vec::new();
    let mut i: usize = 0;
    while i < POWER_TRANSITION_CYCLES
        invariant
            i <= POWER_TRANSITION_CYCLES,
            plan@ == transition_cycles(i as nat),
            spares_critical(plan@),
        decreases POWER_TRANSITION_CYCLES - i,
    {
        plan.push(PmuAction::PowerOn(PowerDomain::AUDIO));
        plan.push(PmuAction::Spin(1_000_000));
        plan.push(PmuAction::PowerOff(PowerDomain::AUDIO));
        plan.push(PmuAction::Spin(1_000_000));
        assert(plan@ =~= transition_cycles((i + 1) as nat));
        i = i + 1;
    }
    plan.push(PmuAction::PowerOn(PowerDomain::AUDIO));
    plan
}

/// Error handling: AUDIO powered off twice, then powered on twice.
pub fn test_error_handling() -> (plan: Vec<PmuAction>)
    ensures
        spares_critical(plan@),
        plan@ == error_handling_plan(),
{
    let plan = vec![
        PmuAction::PowerOff(PowerDomain::AUDIO),
        PmuAction::PowerOff(PowerDomain::AUDIO),
        PmuAction::PowerOn(PowerDomain::AUDIO),
        PmuAction::PowerOn(PowerDomain::AUDIO),
    ];
    assert(plan@ =~= error_handling_plan());
    plan
}

/// Idempotent power-off: AUDIO powered off, 5 ms, powered off again.
pub fn test_idempotent_power_off() -> (plan: Vec<PmuAction>)
    ensures
        spares_critical(plan@),
        plan@ == idempotent_plan(),
{
    let plan = vec![
        PmuAction::PowerOff(PowerDomain::AUDIO),
        PmuAction::Spin(spins_for_ms(5)),
        PmuAction::PowerOff(PowerDomain::AUDIO),
    ];
    assert(plan@ =~= idempotent_plan());
    plan
}

/// BIU idle handling: ask the state of GPU (which has a bus interface, and is
/// left alone), then power off SDMMC, one of the safe test domains.
pub fn test_biu_idle_handling() -> (plan: Vec<PmuAction>)
    ensures
        spares_critical(plan@),
        plan@ == biu_idle_plan(),
{
    let plan = vec![PmuAction::QueryPower(PowerDomain::GPU), PmuAction::PowerOff(PowerDomain::SDMMC)];
    assert(plan@ =~= biu_idle_plan());
    plan
}

/// The PMU test suite, in order.
pub open spec fn pmu_suite() -> Seq<PmuTest> {
    seq![
        PmuTest::Version,
        PmuTest::DomainStatus,
        PmuTest::PowerOffAudio,
        PmuTest::PowerCycleAudio,
        PmuTest::BatchPowerOperations,
        PmuTest::PowerOffWithTimeout,
        PmuTest::BiuIdleHandling,
        PmuTest::PowerStateTransitions,
        PmuTest::ErrorHandling,
    ]
}

/// The power-off test suite, in order.
pub open spec fn power_off_suite() -> Seq<PmuTest> {
    seq![
        PmuTest::BasicPowerOff,
        PmuTest::PowerOffWithVerification,
        PmuTest::SequentialPowerOff,
        PmuTest::PowerOffTimeout,
        PmuTest::IdempotentPowerOff,
        PmuTest::BatchPowerOff,
    ]
}

proof fn lemma_transition_cycles_safe(n: nat)
    ensures
        writes_only_safe(transition_cycles(n)),
    decreases n,
{
    if n > 0 {
        lemma_transition_cycles_safe((n - 1) as nat);
        let a = transition_cycles((n - 1) as nat);
        let b = transition_cycle();
        assert forall|i: int| 0 <= i < (a + b).len() implies action_writes_safe(
            #[trigger] (a + b)[i],
        ) by {
            if i < a.len() {
                assert((a + b)[i] == a[i]);
            } else {
                assert((a + b)[i] == b[i - a.len()]);
            }
        }
    }
}

/// Every PMU test switches power only of AUDIO and SDMMC, the safe test
/// domains: no request of any test of either suite powers on or off another
/// domain (others may only be read).
pub proof fn law_pmu_tests_write_only_safe_domains(t: PmuTest)
    ensures
        writes_only_safe(pmu_test_requests(t)),
{
    match t {
        PmuTest::DomainStatus => {
            assert forall|i: int| 0 <= i < status_plan().len() implies action_writes_safe(
                #[trigger] status_plan()[i],
            ) by {}
        },
        PmuTest::PowerStateTransitions => {
            let a = transition_cycles(POWER_TRANSITION_CYCLES as nat);
            lemma_transition_cycles_safe(POWER_TRANSITION_CYCLES as nat);
            let p = a.push(PmuAction::PowerOn(PowerDomain::AUDIO));
            assert forall|i: int| 0 <= i < p.len() implies action_writes_safe(#[trigger] p[i]) by {
                if i < a.len() {
                    assert(p[i] == a[i]);
                }
            }
        },
        PmuTest::PowerOffWithVerification => {
            let p = pmu_test_requests(t);
            assert forall|i: int| 0 <= i < p.len() implies action_writes_safe(#[trigger] p[i]) by {
                assert(p =~= seq![
                    PmuAction::QueryPower(PowerDomain::SDMMC),
                    PmuAction::PowerOff(PowerDomain::SDMMC),
                    PmuAction::SettleThenQuery(PowerDomain::SDMMC, 500_000),
                ]);
            }
        },
        PmuTest::SequentialPowerOff => {
            let p = pmu_test_requests(t);
            assert forall|i: int| 0 <= i < p.len() implies action_writes_safe(#[trigger] p[i]) by {
                assert(p =~= seq![
                    PmuAction::QueryPower(PowerDomain::AUDIO),
                    PmuAction::PowerOff(PowerDomain::AUDIO),
                    PmuAction::SettleThenQuery(PowerDomain::AUDIO, 500_000),
                    PmuAction::QueryPower(PowerDomain::SDMMC),
                    PmuAction::PowerOff(PowerDomain::SDMMC),
                    PmuAction::SettleThenQuery(PowerDomain::SDMMC, 500_000),
                ]);
            }
        },
        _ => {
            let p = pmu_test_requests(t);
            assert forall|i: int| 0 <= i < p.len() implies action_writes_safe(#[trigger] p[i]) by {}
        },
    }
}

/// All PMU tests, in the order they run.
pub fn run_all_pmu_tests() -> (tests: Vec<PmuTest>)
    ensures
        tests@ == pmu_suite(),
        forall|i: int|
            0 <= i < tests@.len() ==> writes_only_safe(pmu_test_requests(#[trigger] tests@[i])),
{
    let tests = vec![
        PmuTest::Version,
        PmuTest::DomainStatus,
        PmuTest::PowerOffAudio,
        PmuTest::PowerCycleAudio,
        PmuTest::BatchPowerOperations,
        PmuTest::PowerOffWithTimeout,
        PmuTest::BiuIdleHandling,
        PmuTest::PowerStateTransitions,
        PmuTest::ErrorHandling,
    ];
    assert(tests@ =~= pmu_suite());
    proof {
        assert forall|i: int| 0 <= i < tests@.len() implies writes_only_safe(
            pmu_test_requests(#[trigger] tests@[i]),
        ) by {
            law_pmu_tests_write_only_safe_domains(tests@[i]);
        }
    }
    tests
}

/// All power-off tests, in the order they run.
pub fn run_all_power_off_tests() -> (tests: Vec<PmuTest>)
    ensures
        tests@ == power_off_suite(),
        forall|i: int|
            0 <= i < tests@.len() ==> writes_only_safe(pmu_test_requests(#[trigger] tests@[i])),
{
    let tests = vec![
        PmuTest::BasicPowerOff,
        PmuTest::PowerOffWithVerification,
        PmuTest::SequentialPowerOff,
        PmuTest::PowerOffTimeout,
        PmuTest::IdempotentPowerOff,
        PmuTest::BatchPowerOff,
    ];
    assert(tests@ =~= power_off_suite());
    proof {
        assert forall|i: int| 0 <= i < tests@.len() implies writes_only_safe(
            pmu_test_requests(#[trigger] tests@[i]),
        ) by {
            law_pmu_tests_write_only_safe_domains(tests@[i]);
        }
    }
    tests
}

/// Step 1 of the system power-off test.
pub fn test_system_power_off() -> (s: SystemPowerOff)
    ensures
        s == SystemPowerOff::start(),
{
    SystemPowerOff::new()
}

/// The system shutdown test: the system power-off sequence.
pub fn system_shutdown_test() -> (s: SystemPowerOff)
    ensures
        s == SystemPowerOff::start(),
{
    test_system_power_off()
}


// ---------------------------------------------------------------------------
// Whole runs of the system power-off sequence
// ---------------------------------------------------------------------------

/// The sequence after a series of answers.
pub open spec fn shutdown_run(s: SystemPowerOff, evs: Seq<PmuEvent>) -> SystemPowerOff
    decreases evs.len(),
{
    if evs.len() == 0 {
        s
    } else {
        shutdown_run(s, evs.drop_last()).next_spec(evs.last())
    }
}

/// The request pending in a state (`SystemOff` stands for none).
pub open spec fn request_of(s: SystemPowerOff) -> PmuAction {
    match s.pending_spec() {
        Some(a) => a,
        None => PmuAction::SystemOff,
    }
}

/// The requests answered by a series of answers, in order.
pub open spec fn shutdown_requests(s: SystemPowerOff, evs: Seq<PmuEvent>) -> Seq<PmuAction>
    decreases evs.len(),
{
    if evs.len() == 0 {
        seq![]
    } else {
        shutdown_requests(s, evs.drop_last()).push(request_of(shutdown_run(s, evs.drop_last())))
    }
}

/// The domains powered off by a series of requests, in order.
pub open spec fn power_offs(reqs: Seq<PmuAction>) -> Seq<PowerDomain>
    decreases reqs.len(),
{
    if reqs.len() == 0 {
        seq![]
    } else {
        match reqs.last() {
            PmuAction::PowerOff(d) => power_offs(reqs.drop_last()).push(d),
            _ => power_offs(reqs.drop_last()),
        }
    }
}

/// Answers that report the given power states, in order.
pub open spec fn readings_events(r: Seq<bool>) -> Seq<PmuEvent> {
    r.map_values(|b: bool| PmuEvent::PowerState(b))
}

/// Number of `true` readings.
pub open spec fn count_on(r: Seq<bool>) -> nat
    decreases r.len(),
{
    if r.len() == 0 {
        0
    } else {
        count_on(r.drop_last()) + if r.last() {
            1nat
        } else {
            0nat
        }
    }
}

/// The answers of the checked power-off of one domain in step 2: the domain
/// reads `on`; if it is on, the power-off returns `result` and, if that
/// succeeded, the domain then reads `still_on`.
pub open spec fn domain_events(on: bool, result: Result<(), PmuError>, still_on: bool) -> Seq<PmuEvent> {
    if !on {
        seq![PmuEvent::PowerState(false)]
    } else {
        match result {
            Err(_) => seq![PmuEvent::PowerState(true), PmuEvent::Completed(result)],
            Ok(_) => seq![
                PmuEvent::PowerState(true),
                PmuEvent::Completed(result),
                PmuEvent::PowerState(still_on),
            ],
        }
    }
}

/// The answers of step 2 for the first `k` domains.
pub open spec fn power_off_events(
    on: Seq<bool>,
    results: Seq<Result<(), PmuError>>,
    still_on: Seq<bool>,
    k: nat,
) -> Seq<PmuEvent>
    decreases k,
{
    if k == 0 {
        seq![]
    } else {
        power_off_events(on, results, still_on, (k - 1) as nat) + domain_events(
            on[k - 1],
            results[k - 1],
            still_on[k - 1],
        )
    }
}

/// The tally of step 2 for the first `k` domains.
pub open spec fn expected_tally(
    on: Seq<bool>,
    results: Seq<Result<(), PmuError>>,
    still_on: Seq<bool>,
    k: nat,
) -> PowerOffTally
    decreases k,
{
    if k == 0 {
        tally_zero()
    } else {
        tally_add(
            expected_tally(on, results, still_on, (k - 1) as nat),
            checked_verdict(true, on[k - 1], results[k - 1], still_on[k - 1]),
        )
    }
}

/// The domains, among the first `k`, that read on in step 2, in order.
pub open spec fn expected_offs(on: Seq<bool>, k: nat) -> Seq<PowerDomain>
    decreases k,
{
    if k == 0 {
        seq![]
    } else if on[k - 1] {
        expected_offs(on, (k - 1) as nat).push(shutdown_domains()[k - 1])
    } else {
        expected_offs(on, (k - 1) as nat)
    }
}

/// All the answers of a whole run: the survey readings, the first pause,
/// step 2, the second pause, the report readings, and the last two pauses.
pub open spec fn shutdown_events(
    survey: Seq<bool>,
    on: Seq<bool>,
    results: Seq<Result<(), PmuError>>,
    still_on: Seq<bool>,
    report: Seq<bool>,
) -> Seq<PmuEvent> {
    readings_events(survey) + seq![PmuEvent::Waited] + power_off_events(
        on,
        results,
        still_on,
        SHUTDOWN_DOMAIN_COUNT as nat,
    ) + seq![PmuEvent::Waited] + readings_events(report) + seq![
        PmuEvent::Waited,
        PmuEvent::Waited,
    ]
}

proof fn lemma_run_concat(s: SystemPowerOff, a: Seq<PmuEvent>, b: Seq<PmuEvent>)
    ensures
        shutdown_run(s, a + b) == shutdown_run(shutdown_run(s, a), b),
        shutdown_requests(s, a + b) == shutdown_requests(s, a) + shutdown_requests(
            shutdown_run(s, a),
            b,
        ),
    decreases b.len(),
{
    if b.len() == 0 {
        assert(a + b =~= a);
        assert(shutdown_requests(s, a) + Seq::<PmuAction>::empty() =~= shutdown_requests(s, a));
    } else {
        assert((a + b).drop_last() =~= a + b.drop_last());
        assert((a + b).last() == b.last());
        lemma_run_concat(s, a, b.drop_last());
        let m = shutdown_run(s, a);
        assert(shutdown_requests(s, a) + shutdown_requests(m, b) =~= (shutdown_requests(s, a)
            + shutdown_requests(m, b.drop_last())).push(request_of(shutdown_run(m, b.drop_last()))));
    }
}

proof fn lemma_offs_concat(x: Seq<PmuAction>, y: Seq<PmuAction>)
    ensures
        power_offs(x + y) == power_offs(x) + power_offs(y),
    decreases y.len(),
{
    if y.len() == 0 {
        assert(x + y =~= x);
        assert(power_offs(x) + Seq::<PowerDomain>::empty() =~= power_offs(x));
    } else {
        assert((x + y).drop_last() =~= x + y.drop_last());
        assert((x + y).last() == y.last());
        lemma_offs_concat(x, y.drop_last());
        match y.last() {
            PmuAction::PowerOff(d) => {
                assert(power_offs(x) + power_offs(y) =~= (power_offs(x) + power_offs(
                    y.drop_last(),
                )).push(d));
            },
            _ => {},
        }
    }
}

/// One answer: the state after it and the request it answers.
proof fn lemma_run_one(s: SystemPowerOff, ev: PmuEvent)
    ensures
        shutdown_run(s, seq![ev]) == s.next_spec(ev),
        shutdown_requests(s, seq![ev]) == seq![request_of(s)],
{
    let e = seq![ev];
    assert(e.drop_last() =~= Seq::<PmuEvent>::empty());
    assert(shutdown_run(s, e.drop_last()) == s);
    assert(shutdown_requests(s, e.drop_last()) == Seq::<PmuAction>::empty());
    assert(Seq::<PmuAction>::empty().push(request_of(s)) =~= seq![request_of(s)]);
}

/// A series of answers, one after the other.
proof fn lemma_run_push(s: SystemPowerOff, a: Seq<PmuEvent>, ev: PmuEvent)
    ensures
        shutdown_run(s, a.push(ev)) == shutdown_run(s, a).next_spec(ev),
        shutdown_requests(s, a.push(ev)) == shutdown_requests(s, a).push(
            request_of(shutdown_run(s, a)),
        ),
{
    assert(a.push(ev).drop_last() =~= a);
}

proof fn lemma_offs_push(x: Seq<PmuAction>, a: PmuAction)
    ensures
        power_offs(x.push(a)) == match a {
            PmuAction::PowerOff(d) => power_offs(x).push(d),
            _ => power_offs(x),
        },
{
    assert(x.push(a).drop_last() =~= x);
}

/// Step 1: from the start, the survey readings of the first `k` domains.
proof fn lemma_survey(survey: Seq<bool>, k: nat)
    requires
        survey.len() == SHUTDOWN_DOMAIN_COUNT,
        k <= SHUTDOWN_DOMAIN_COUNT,
    ensures
        shutdown_run(SystemPowerOff::start(), readings_events(survey.take(k as int))).phase == (
        if k < SHUTDOWN_DOMAIN_COUNT {
            ShutdownPhase::Survey(k as usize)
        } else {
            ShutdownPhase::SurveyPause
        }),
        shutdown_run(SystemPowerOff::start(), readings_events(survey.take(k as int))).active
            == count_on(survey.take(k as int)),
        shutdown_run(SystemPowerOff::start(), readings_events(survey.take(k as int))).tally
            == tally_zero(),
        power_offs(shutdown_requests(SystemPowerOff::start(), readings_events(survey.take(k as int))))
            == Seq::<PowerDomain>::empty(),
    decreases k,
{
    let st = SystemPowerOff::start();
    if k == 0 {
        assert(readings_events(survey.take(0)) =~= Seq::<PmuEvent>::empty());
        assert(survey.take(0) =~= Seq::<bool>::empty());
        assert(count_on(survey.take(0)) == 0);
    } else {
        lemma_survey(survey, (k - 1) as nat);
        let prev = readings_events(survey.take(k - 1));
        assert(readings_events(survey.take(k as int)) =~= prev.push(
            PmuEvent::PowerState(survey[k - 1]),
        ));
        assert(survey.take(k as int).drop_last() =~= survey.take(k - 1));
        assert(survey.take(k as int).last() == survey[k - 1]);
        lemma_run_push(st, prev, PmuEvent::PowerState(survey[k - 1]));
        let m = shutdown_run(st, prev);
        lemma_offs_push(shutdown_requests(st, prev), request_of(m));
        assert(count_on(survey.take(k as int)) == count_on(survey.take(k - 1)) + if survey[k - 1] {
            1nat
        } else {
            0nat
        });
        assert(m.active == count_on(survey.take(k - 1)));
        assert(m.active <= k - 1) by {
            lemma_count_on_bound(survey.take(k - 1));
        }
    }
}

/// Step 2, one domain: from the checked power-off of domain `i`, its
/// answers lead to the next domain (or the pause after step 2), count its
/// verdict, and power the domain off exactly when it read on.
proof fn lemma_one_domain(
    s: SystemPowerOff,
    i: nat,
    on: bool,
    result: Result<(), PmuError>,
    still_on: bool,
)
    requires
        i < SHUTDOWN_DOMAIN_COUNT,
        s.phase == ShutdownPhase::PowerOff(i as usize, shutdown_check(i as int)),
    ensures
        shutdown_run(s, domain_events(on, result, still_on)).phase == (if i + 1
            < SHUTDOWN_DOMAIN_COUNT {
            ShutdownPhase::PowerOff((i + 1) as usize, shutdown_check(i + 1 as int))
        } else {
            ShutdownPhase::PowerOffPause
        }),
        shutdown_run(s, domain_events(on, result, still_on)).active == s.active,
        shutdown_run(s, domain_events(on, result, still_on)).tally == tally_add(
            s.tally,
            checked_verdict(true, on, result, still_on),
        ),
        power_offs(shutdown_requests(s, domain_events(on, result, still_on))) == (if on {
            seq![shutdown_domains()[i as int]]
        } else {
            Seq::<PowerDomain>::empty()
        }),
{
    let d = shutdown_domains()[i as int];
    let e0 = Seq::<PmuEvent>::empty();
    let e1 = e0.push(PmuEvent::PowerState(on));
    lemma_run_push(s, e0, PmuEvent::PowerState(on));
    assert(shutdown_run(s, e0) == s);
    assert(shutdown_requests(s, e0) == Seq::<PmuAction>::empty());
    lemma_offs_push(Seq::<PmuAction>::empty(), request_of(s));
    assert(power_offs(Seq::<PmuAction>::empty()) == Seq::<PowerDomain>::empty());
    assert(request_of(s) == PmuAction::QueryPower(d));
    if !on {
        assert(domain_events(on, result, still_on) =~= e1);
    } else {
        let s1 = shutdown_run(s, e1);
        let e2 = e1.push(PmuEvent::Completed(result));
        lemma_run_push(s, e1, PmuEvent::Completed(result));
        assert(request_of(s1) == PmuAction::PowerOff(d));
        lemma_offs_push(shutdown_requests(s, e1), request_of(s1));
        assert(Seq::<PowerDomain>::empty().push(d) =~= seq![d]);
        match result {
            Err(_) => {
                assert(domain_events(on, result, still_on) =~= e2);
            },
            Ok(_) => {
                let s2 = shutdown_run(s, e2);
                let e3 = e2.push(PmuEvent::PowerState(still_on));
                assert(domain_events(on, result, still_on) =~= e3);
                lemma_run_push(s, e2, PmuEvent::PowerState(still_on));
                assert(request_of(s2) == PmuAction::SettleThenQuery(d, SHUTDOWN_SETTLE_SPINS));
                lemma_offs_push(shutdown_requests(s, e2), request_of(s2));
            },
        }
    }
}

/// Step 2: from the checked power-off of the first domain, the answers of
/// the first `k` domains.
proof fn lemma_power_off_steps(
    s: SystemPowerOff,
    on: Seq<bool>,
    results: Seq<Result<(), PmuError>>,
    still_on: Seq<bool>,
    k: nat,
)
    requires
        on.len() == SHUTDOWN_DOMAIN_COUNT,
        results.len() == SHUTDOWN_DOMAIN_COUNT,
        still_on.len() == SHUTDOWN_DOMAIN_COUNT,
        k <= SHUTDOWN_DOMAIN_COUNT,
        s.phase == ShutdownPhase::PowerOff(0, shutdown_check(0)),
        s.tally == tally_zero(),
    ensures
        shutdown_run(s, power_off_events(on, results, still_on, k)).phase == (if k
            < SHUTDOWN_DOMAIN_COUNT {
            ShutdownPhase::PowerOff(k as usize, shutdown_check(k as int))
        } else {
            ShutdownPhase::PowerOffPause
        }),
        shutdown_run(s, power_off_events(on, results, still_on, k)).active == s.active,
        shutdown_run(s, power_off_events(on, results, still_on, k)).tally == expected_tally(
            on,
            results,
            still_on,
            k,
        ),
        power_offs(shutdown_requests(s, power_off_events(on, results, still_on, k)))
            == expected_offs(on, k),
    decreases k,
{
    if k == 0 {
        assert(power_off_events(on, results, still_on, 0) =~= Seq::<PmuEvent>::empty());
    } else {
        let j = (k - 1) as nat;
        lemma_power_off_steps(s, on, results, still_on, j);
        let a = power_off_events(on, results, still_on, j);
        let b = domain_events(on[j as int], results[j as int], still_on[j as int]);
        lemma_run_concat(s, a, b);
        let m = shutdown_run(s, a);
        lemma_one_domain(m, j, on[j as int], results[j as int], still_on[j as int]);
        lemma_offs_concat(shutdown_requests(s, a), shutdown_requests(m, b));
        if on[j as int] {
            assert(expected_offs(on, j) + seq![shutdown_domains()[j as int]] =~= expected_offs(
                on,
                j,
            ).push(shutdown_domains()[j as int]));
        } else {
            assert(expected_offs(on, j) + Seq::<PowerDomain>::empty() =~= expected_offs(on, j));
        }
    }
}

/// Step 3: from the first report query, the report readings of the first
/// `k` domains.
proof fn lemma_report(s: SystemPowerOff, report: Seq<bool>, k: nat)
    requires
        report.len() == SHUTDOWN_DOMAIN_COUNT,
        k <= SHUTDOWN_DOMAIN_COUNT,
        s.phase == ShutdownPhase::Report(0),
    ensures
        shutdown_run(s, readings_events(report.take(k as int))).phase == (if k
            < SHUTDOWN_DOMAIN_COUNT {
            ShutdownPhase::Report(k as usize)
        } else {
            ShutdownPhase::ReportPause
        }),
        shutdown_run(s, readings_events(report.take(k as int))).active == s.active,
        shutdown_run(s, readings_events(report.take(k as int))).tally == s.tally,
        power_offs(shutdown_requests(s, readings_events(report.take(k as int))))
            == Seq::<PowerDomain>::empty(),
    decreases k,
{
    if k == 0 {
        assert(readings_events(report.take(0)) =~= Seq::<PmuEvent>::empty());
    } else {
        lemma_report(s, report, (k - 1) as nat);
        let prev = readings_events(report.take(k - 1));
        assert(readings_events(report.take(k as int)) =~= prev.push(
            PmuEvent::PowerState(report[k - 1]),
        ));
        lemma_run_push(s, prev, PmuEvent::PowerState(report[k - 1]));
        lemma_offs_push(shutdown_requests(s, prev), request_of(shutdown_run(s, prev)));
    }
}

/// A whole run of the system power-off sequence, from its start to the
/// system being switched off, with any readings and driver results:
/// it ends switched off; the number of active domains is the number of
/// domains that read on in the survey; a domain is powered off exactly once
/// if it reads on at its step-2 check and never otherwise, in list order;
/// and the tally counts each domain's verdict (skipped when it read off,
/// failed when its power-off failed or it still reads on, powered off
/// otherwise), so the counts add up to six.
pub proof fn law_system_power_off_run(
    survey: Seq<bool>,
    on: Seq<bool>,
    results: Seq<Result<(), PmuError>>,
    still_on: Seq<bool>,
    report: Seq<bool>,
)
    requires
        survey.len() == SHUTDOWN_DOMAIN_COUNT,
        on.len() == SHUTDOWN_DOMAIN_COUNT,
        results.len() == SHUTDOWN_DOMAIN_COUNT,
        still_on.len() == SHUTDOWN_DOMAIN_COUNT,
        report.len() == SHUTDOWN_DOMAIN_COUNT,
    ensures
        shutdown_run(
            SystemPowerOff::start(),
            shutdown_events(survey, on, results, still_on, report),
        ).phase == ShutdownPhase::Off,
        shutdown_run(
            SystemPowerOff::start(),
            shutdown_events(survey, on, results, still_on, report),
        ).active == count_on(survey),
        shutdown_run(
            SystemPowerOff::start(),
            shutdown_events(survey, on, results, still_on, report),
        ).tally == expected_tally(on, results, still_on, SHUTDOWN_DOMAIN_COUNT as nat),
        tally_total(expected_tally(on, results, still_on, SHUTDOWN_DOMAIN_COUNT as nat))
            == SHUTDOWN_DOMAIN_COUNT,
        power_offs(
            shutdown_requests(
                SystemPowerOff::start(),
                shutdown_events(survey, on, results, still_on, report),
            ),
        ) == expected_offs(on, SHUTDOWN_DOMAIN_COUNT as nat),
{
    let st = SystemPowerOff::start();
    let a = readings_events(survey);
    let b = seq![PmuEvent::Waited];
    let c = power_off_events(on, results, still_on, SHUTDOWN_DOMAIN_COUNT as nat);
    let f = readings_events(report);
    let g = seq![PmuEvent::Waited, PmuEvent::Waited];
    // step 1
    assert(survey.take(6) =~= survey);
    lemma_survey(survey, 6);
    let s1 = shutdown_run(st, a);
    // first pause
    lemma_run_concat(st, a, b);
    lemma_run_one(s1, PmuEvent::Waited);
    let s2 = shutdown_run(st, a + b);
    assert(request_of(s1) == PmuAction::Spin(SHUTDOWN_PAUSE_SPINS));
    lemma_offs_concat(shutdown_requests(st, a), shutdown_requests(s1, b));
    lemma_offs_push(Seq::<PmuAction>::empty(), request_of(s1));
    assert(seq![request_of(s1)] =~= Seq::<PmuAction>::empty().push(request_of(s1)));
    assert(power_offs(Seq::<PmuAction>::empty()) == Seq::<PowerDomain>::empty());
    // step 2
    lemma_power_off_steps(s2, on, results, still_on, SHUTDOWN_DOMAIN_COUNT as nat);
    lemma_run_concat(st, a + b, c);
    let s3 = shutdown_run(st, a + b + c);
    lemma_offs_concat(shutdown_requests(st, a + b), shutdown_requests(s2, c));
    // second pause
    lemma_run_concat(st, a + b + c, b);
    lemma_run_one(s3, PmuEvent::Waited);
    let s4 = shutdown_run(st, a + b + c + b);
    assert(request_of(s3) == PmuAction::Spin(SHUTDOWN_PAUSE_SPINS));
    lemma_offs_concat(shutdown_requests(st, a + b + c), shutdown_requests(s3, b));
    lemma_offs_push(Seq::<PmuAction>::empty(), request_of(s3));
    assert(seq![request_of(s3)] =~= Seq::<PmuAction>::empty().push(request_of(s3)));
    // step 3
    assert(report.take(6) =~= report);
    lemma_report(s4, report, 6);
    lemma_run_concat(st, a + b + c + b, f);
    let s5 = shutdown_run(st, a + b + c + b + f);
    lemma_offs_concat(shutdown_requests(st, a + b + c + b), shutdown_requests(s4, f));
    // last two pauses
    lemma_run_concat(st, a + b + c + b + f, g);
    let e0 = Seq::<PmuEvent>::empty();
    assert(g =~= e0.push(PmuEvent::Waited).push(PmuEvent::Waited));
    lemma_run_push(s5, e0, PmuEvent::Waited);
    lemma_run_push(s5, e0.push(PmuEvent::Waited), PmuEvent::Waited);
    assert(shutdown_run(s5, e0) == s5);
    assert(shutdown_requests(s5, e0) == Seq::<PmuAction>::empty());
    let s6 = shutdown_run(s5, e0.push(PmuEvent::Waited));
    assert(request_of(s5) == PmuAction::Spin(SHUTDOWN_PAUSE_SPINS));
    assert(request_of(s6) == PmuAction::Spin(SHUTDOWN_FINAL_SPINS));
    lemma_offs_push(Seq::<PmuAction>::empty(), request_of(s5));
    lemma_offs_push(Seq::<PmuAction>::empty().push(request_of(s5)), request_of(s6));
    lemma_offs_concat(shutdown_requests(st, a + b + c + b + f), shutdown_requests(s5, g));
    assert(shutdown_events(survey, on, results, still_on, report) == a + b + c + b + f + g);
    lemma_tally_total(on, results, still_on, SHUTDOWN_DOMAIN_COUNT as nat);
    assert(Seq::<PowerDomain>::empty() + expected_offs(on, 6) =~= expected_offs(on, 6));
    assert(expected_offs(on, 6) + Seq::<PowerDomain>::empty() =~= expected_offs(on, 6));
}

proof fn lemma_count_on_bound(r: Seq<bool>)
    ensures
        count_on(r) <= r.len(),
    decreases r.len(),
{
    if r.len() > 0 {
        lemma_count_on_bound(r.drop_last());
    }
}

proof fn lemma_tally_total(
    on: Seq<bool>,
    results: Seq<Result<(), PmuError>>,
    still_on: Seq<bool>,
    k: nat,
)
    requires
        k <= SHUTDOWN_DOMAIN_COUNT,
    ensures
        tally_total(expected_tally(on, results, still_on, k)) == k,
        expected_tally(on, results, still_on, k).success <= k,
        expected_tally(on, results, still_on, k).skipped <= k,
        expected_tally(on, results, still_on, k).failed <= k,
    decreases k,
{
    if k > 0 {
        lemma_tally_total(on, results, still_on, (k - 1) as nat);
    }
}

} // verus!
