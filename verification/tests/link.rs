//! The connectivity state machine: transitions, unbounded retry, and the
//! address poll.

use gonk::link::ConnectivityManager;
use gonk::link::LinkAction;
use gonk::link::LinkEvent;
use gonk::link::PollDecision;
use gonk::link::address_poll;

#[test]
fn happy_path_reaches_connected() {
    let mut m = ConnectivityManager::new();
    assert_eq!(m.step(LinkEvent::Run), LinkAction::StartRadio);
    assert_eq!(m.step(LinkEvent::StartOk), LinkAction::Scan);
    assert_eq!(m.step(LinkEvent::ScanDone), LinkAction::Connect);
    assert_eq!(m.step(LinkEvent::ConnectOk), LinkAction::AwaitDisconnect);
}

#[test]
fn scan_outcome_never_changes_the_route() {
    // the scan is observational: whatever it found, the machine connects
    let mut m = ConnectivityManager::new();
    m.step(LinkEvent::Run);
    m.step(LinkEvent::StartOk);
    assert_eq!(m.step(LinkEvent::ScanDone), LinkAction::Connect);
}

#[test]
fn start_failure_reenters_disconnected_and_retries() {
    let mut m = ConnectivityManager::new();
    m.step(LinkEvent::Run);
    assert_eq!(m.step(LinkEvent::StartFailed), LinkAction::DelayRetry);
    // after the delay the task reports Run and the radio is started again
    assert_eq!(m.step(LinkEvent::Run), LinkAction::StartRadio);
}

#[test]
fn connect_failure_returns_to_starting() {
    let mut m = ConnectivityManager::new();
    m.step(LinkEvent::Run);
    m.step(LinkEvent::StartOk);
    m.step(LinkEvent::ScanDone);
    assert_eq!(m.step(LinkEvent::ConnectFailed), LinkAction::DelayRetry);
    assert_eq!(m.step(LinkEvent::Run), LinkAction::StartRadio);
}

#[test]
fn link_loss_restarts_the_loop_after_a_delay() {
    let mut m = ConnectivityManager::new();
    m.step(LinkEvent::Run);
    m.step(LinkEvent::StartOk);
    m.step(LinkEvent::ScanDone);
    m.step(LinkEvent::ConnectOk);
    assert_eq!(m.step(LinkEvent::LinkLost), LinkAction::DelayRetry);
    assert_eq!(m.step(LinkEvent::Run), LinkAction::StartRadio);
}

#[test]
fn repeated_connect_failures_never_end_the_loop() {
    // a thousand failing rounds: every one issues a fresh connect attempt
    let mut m = ConnectivityManager::new();
    m.step(LinkEvent::Run);
    let mut attempts: u32 = 0;
    for _ in 0..1000 {
        assert_eq!(m.step(LinkEvent::Run), LinkAction::StartRadio);
        assert_eq!(m.step(LinkEvent::StartOk), LinkAction::Scan);
        if m.step(LinkEvent::ScanDone) == LinkAction::Connect {
            attempts += 1;
        }
        assert_eq!(m.step(LinkEvent::ConnectFailed), LinkAction::DelayRetry);
    }
    assert_eq!(attempts, 1000);
    // and the machine is still going
    assert_eq!(m.step(LinkEvent::Run), LinkAction::StartRadio);
}

#[test]
fn inapplicable_events_are_ignored() {
    let mut m = ConnectivityManager::new();
    assert_eq!(m.step(LinkEvent::ConnectOk), LinkAction::Ignore);
    assert_eq!(m.step(LinkEvent::LinkLost), LinkAction::Ignore);
    // still at the beginning
    assert_eq!(m.step(LinkEvent::Run), LinkAction::StartRadio);
}

#[test]
fn address_poll_waits_until_ready() {
    assert_eq!(address_poll(false), PollDecision::PollAgain);
    assert_eq!(address_poll(true), PollDecision::Proceed);
}
