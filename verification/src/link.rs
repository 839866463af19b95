//! Wireless-connectivity state machine.
//!
//! The manager drives the radio through start, scan, connect, monitor and
//! retry. Every failure — radio start, association, authentication or a
//! lost link — is transient: the machine waits a fixed delay and tries
//! again, without bound. The surrounding task performs the returned
//! [`LinkAction`] (radio calls, sleeps) and feeds the resulting
//! [`LinkEvent`] back in.

use vstd::prelude::*;

verus! {

/// Phase of the wireless link.
#[derive(Clone, Copy, Debug, PartialEq, Eq, Structural)]
pub enum LinkPhase {
    Disconnected,
    Starting,
    Scanning,
    Connecting,
    Connected,
}

/// What the radio and the surrounding task report to the manager.
#[derive(Clone, Copy, Debug, PartialEq, Eq, Structural)]
pub enum LinkEvent {
    /// Ready to proceed: boot, or a retry delay that elapsed.
    Run,
    /// The radio started with the client configuration applied.
    StartOk,
    /// The radio failed to start.
    StartFailed,
    /// The bounded access-point scan finished; its findings are purely
    /// observational and never change the route taken.
    ScanDone,
    /// The connect request succeeded and an address was acquired.
    ConnectOk,
    /// The connect request failed; authentication, association and
    /// address-assignment failures are treated alike.
    ConnectFailed,
    /// The established link dropped.
    LinkLost,
}

/// What the surrounding task must do after a step.
#[derive(Clone, Copy, Debug, PartialEq, Eq, Structural)]
pub enum LinkAction {
    /// Apply the client configuration and start the radio.
    StartRadio,
    /// Enumerate nearby access points, up to [`SCAN_MAX`].
    Scan,
    /// Issue the connect request, then poll for the address.
    Connect,
    /// Publish the acquired address and suspend until a disconnection
    /// is signalled.
    AwaitDisconnect,
    /// Sleep [`RETRY_DELAY_MS`], then report [`LinkEvent::Run`].
    DelayRetry,
    /// The event does not apply to the phase; keep waiting.
    Ignore,
}

/// Fixed delay before any retry, in milliseconds.
pub const RETRY_DELAY_MS: u32 = 5000;

/// Most access points one scan reports.
pub const SCAN_MAX: u32 = 10;

/// Interval between address polls, in milliseconds.
pub const ADDRESS_POLL_MS: u32 = 500;

/// Whether an event reports a transient failure.
pub open spec fn is_failure(e: LinkEvent) -> bool {
    e == LinkEvent::StartFailed || e == LinkEvent::ConnectFailed || e == LinkEvent::LinkLost
}

/// The transition table. Events that do not apply to the current phase
/// leave it unchanged.
pub open spec fn spec_step(p: LinkPhase, e: LinkEvent) -> (LinkPhase, LinkAction) {
    match (p, e) {
        (LinkPhase::Disconnected, LinkEvent::Run) => (LinkPhase::Starting, LinkAction::StartRadio),
        (LinkPhase::Starting, LinkEvent::Run) => (LinkPhase::Starting, LinkAction::StartRadio),
        (LinkPhase::Starting, LinkEvent::StartOk) => (LinkPhase::Scanning, LinkAction::Scan),
        (LinkPhase::Starting, LinkEvent::StartFailed) => (
            LinkPhase::Disconnected,
            LinkAction::DelayRetry,
        ),
        (LinkPhase::Scanning, LinkEvent::ScanDone) => (LinkPhase::Connecting, LinkAction::Connect),
        (LinkPhase::Connecting, LinkEvent::ConnectOk) => (
            LinkPhase::Connected,
            LinkAction::AwaitDisconnect,
        ),
        (LinkPhase::Connecting, LinkEvent::ConnectFailed) => (
            LinkPhase::Starting,
            LinkAction::DelayRetry,
        ),
        (LinkPhase::Connected, LinkEvent::LinkLost) => (LinkPhase::Starting, LinkAction::DelayRetry),
        _ => (p, LinkAction::Ignore),
    }
}

/// Drives the wireless link. Owns its phase, the count of transient
/// failures seen, and the last-known link-up flag.
pub struct ConnectivityManager {
    phase: LinkPhase,
    retries: u32,
    link_up: bool,
}

impl ConnectivityManager {
    /// The current phase.
    pub closed spec fn phase(&self) -> LinkPhase {
        self.phase
    }

    /// How many transient failures the manager has acted on (saturating).
    pub closed spec fn retries(&self) -> u32 {
        self.retries
    }

    /// Last-known link state.
    pub closed spec fn link_up(&self) -> bool {
        self.link_up
    }

    /// The link-up flag tracks the phase.
    pub closed spec fn wf(&self) -> bool {
        self.link_up <==> self.phase == LinkPhase::Connected
    }

    /// A manager at boot: radio not started, no failures seen.
    pub fn new() -> (r: ConnectivityManager)
        ensures
            r.wf(),
            r.phase() == LinkPhase::Disconnected,
            r.retries() == 0,
            !r.link_up(),
    {
        ConnectivityManager { phase: LinkPhase::Disconnected, retries: 0, link_up: false }
    }

    /// Feed one event into the machine; the returned action is what the
    /// surrounding task performs next.
    pub fn step(&mut self, e: LinkEvent) -> (a: LinkAction)
        requires
            old(self).wf(),
        ensures
            final (self).wf(),
            final (self).phase() == spec_step(old(self).phase(), e).0,
            a == spec_step(old(self).phase(), e).1,
            final (self).link_up() <==> spec_step(old(self).phase(), e).0 == LinkPhase::Connected,
            final (self).retries() == if is_failure(e) && a != LinkAction::Ignore {
                if old(self).retries() < u32::MAX {
                    (old(self).retries() + 1) as u32
                } else {
                    old(self).retries()
                }
            } else {
                old(self).retries()
            },
    {
        let p = self.phase;
        let (next, action): (LinkPhase, LinkAction) = match (p, e) {
            (LinkPhase::Disconnected, LinkEvent::Run) => (
                LinkPhase::Starting,
                LinkAction::StartRadio,
            ),
            (LinkPhase::Starting, LinkEvent::Run) => (LinkPhase::Starting, LinkAction::StartRadio),
            (LinkPhase::Starting, LinkEvent::StartOk) => (LinkPhase::Scanning, LinkAction::Scan),
            (LinkPhase::Starting, LinkEvent::StartFailed) => (
                LinkPhase::Disconnected,
                LinkAction::DelayRetry,
            ),
            (LinkPhase::Scanning, LinkEvent::ScanDone) => (
                LinkPhase::Connecting,
                LinkAction::Connect,
            ),
            (LinkPhase::Connecting, LinkEvent::ConnectOk) => (
                LinkPhase::Connected,
                LinkAction::AwaitDisconnect,
            ),
            (LinkPhase::Connecting, LinkEvent::ConnectFailed) => (
                LinkPhase::Starting,
                LinkAction::DelayRetry,
            ),
            (LinkPhase::Connected, LinkEvent::LinkLost) => (
                LinkPhase::Starting,
                LinkAction::DelayRetry,
            ),
            (_, _) => (p, LinkAction::Ignore),
        };
        self.phase = next;
        self.link_up = next == LinkPhase::Connected;
        let failed = match e {
            LinkEvent::StartFailed => true,
            LinkEvent::ConnectFailed => true,
            LinkEvent::LinkLost => true,
            _ => false,
        };
        if failed && !(action == LinkAction::Ignore) && self.retries < u32::MAX {
            self.retries = self.retries + 1;
        }
        action
    }
}

/// The phase reached after a sequence of events.
pub open spec fn run_phase(p: LinkPhase, evs: Seq<LinkEvent>) -> LinkPhase
    decreases evs.len(),
{
    if evs.len() == 0 {
        p
    } else {
        run_phase(spec_step(p, evs[0]).0, evs.skip(1))
    }
}

/// How many steps of a run issue the connect request.
pub open spec fn connect_attempts(p: LinkPhase, evs: Seq<LinkEvent>) -> nat
    decreases evs.len(),
{
    if evs.len() == 0 {
        0nat
    } else {
        (if spec_step(p, evs[0]).1 == LinkAction::Connect {
            1nat
        } else {
            0nat
        }) + connect_attempts(spec_step(p, evs[0]).0, evs.skip(1))
    }
}

/// One full retry round in which the connect attempt fails.
pub open spec fn failure_round() -> Seq<LinkEvent> {
    seq![LinkEvent::Run, LinkEvent::StartOk, LinkEvent::ScanDone, LinkEvent::ConnectFailed]
}

/// Any number of failing rounds, back to back.
pub open spec fn repeated_failure_rounds(k: nat) -> Seq<LinkEvent>
    decreases k,
{
    if k == 0 {
        Seq::empty()
    } else {
        failure_round() + repeated_failure_rounds((k - 1) as nat)
    }
}

/// A run splits at any point: the tail continues from where the head
/// ended, and connect attempts add up.
pub proof fn lemma_run_append(p: LinkPhase, a: Seq<LinkEvent>, b: Seq<LinkEvent>)
    ensures
        run_phase(p, a + b) == run_phase(run_phase(p, a), b),
        connect_attempts(p, a + b) == connect_attempts(p, a) + connect_attempts(
            run_phase(p, a),
            b,
        ),
    decreases a.len(),
{
    if a.len() == 0 {
        assert(a + b =~= b);
    } else {
        assert((a + b).skip(1) =~= a.skip(1) + b);
        lemma_run_append(spec_step(p, a[0]).0, a.skip(1), b);
    }
}

/// One failing round leads from `Starting` back to `Starting` and issues
/// exactly one connect request.
pub proof fn lemma_failure_round()
    ensures
        run_phase(LinkPhase::Starting, failure_round()) == LinkPhase::Starting,
        connect_attempts(LinkPhase::Starting, failure_round()) == 1,
{
    reveal_with_fuel(run_phase, 6);
    reveal_with_fuel(connect_attempts, 6);
    let r = failure_round();
    let r1 = seq![LinkEvent::StartOk, LinkEvent::ScanDone, LinkEvent::ConnectFailed];
    let r2 = seq![LinkEvent::ScanDone, LinkEvent::ConnectFailed];
    let r3 = seq![LinkEvent::ConnectFailed];
    assert(r.skip(1) =~= r1);
    assert(r1.skip(1) =~= r2);
    assert(r2.skip(1) =~= r3);
    assert(r3.skip(1) =~= Seq::<LinkEvent>::empty());
    assert(run_phase(LinkPhase::Starting, r) == run_phase(LinkPhase::Starting, r1));
    assert(run_phase(LinkPhase::Starting, r1) == run_phase(LinkPhase::Scanning, r2));
    assert(run_phase(LinkPhase::Scanning, r2) == run_phase(LinkPhase::Connecting, r3));
    assert(run_phase(LinkPhase::Connecting, r3) == LinkPhase::Starting);
}

/// Law: the retry loop never terminates. However many times in a row the
/// connect request fails, the manager stands in `Starting` again and has
/// attempted to connect exactly once per round — it re-attempts
/// indefinitely rather than giving up.
pub proof fn lemma_retry_forever(k: nat)
    ensures
        run_phase(LinkPhase::Starting, repeated_failure_rounds(k)) == LinkPhase::Starting,
        connect_attempts(LinkPhase::Starting, repeated_failure_rounds(k)) == k,
    decreases k,
{
    if k != 0 {
        lemma_retry_forever((k - 1) as nat);
        lemma_failure_round();
        lemma_run_append(
            LinkPhase::Starting,
            failure_round(),
            repeated_failure_rounds((k - 1) as nat),
        );
    }
}

/// Decision taken on each poll while waiting for address assignment: when
/// the stack reports an address the wait ends, otherwise the task sleeps
/// one interval and polls again. There is deliberately no bound: eventual
/// connectivity is preferred to giving up.
#[derive(Clone, Copy, Debug, PartialEq, Eq, Structural)]
pub enum PollDecision {
    /// The awaited condition holds; continue.
    Proceed,
    /// Sleep [`ADDRESS_POLL_MS`] and poll again.
    PollAgain,
}

/// One address-poll (or link-up-poll) decision.
pub fn address_poll(ready: bool) -> (d: PollDecision)
    ensures
        d == if ready {
            PollDecision::Proceed
        } else {
            PollDecision::PollAgain
        },
{
    if ready {
        PollDecision::Proceed
    } else {
        PollDecision::PollAgain
    }
}

} // verus!
