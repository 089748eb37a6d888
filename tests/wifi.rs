use fieldnode::mailbox::Mailbox;
use fieldnode::wifi::{
    address_text, http_should_request, WifiOutcome, WifiPhase, WifiStatus, WifiSupervisor,
    DISPLAY_TEXT_MAX,
};

#[test]
fn connect_then_disassociate_scenario() {
    let mut sup = WifiSupervisor::new();
    let mut status: Mailbox<WifiStatus> = Mailbox::new();
    let mut seen = Vec::new();
    let mut requests = 0;
    let script = [
        (WifiPhase::CheckAssociation, WifiOutcome::No),
        (WifiPhase::CheckStarted, WifiOutcome::No),
        (WifiPhase::ApplyConfiguration, WifiOutcome::Yes),
        (WifiPhase::StartController, WifiOutcome::Yes),
        (WifiPhase::Connect, WifiOutcome::Yes),
        (WifiPhase::AwaitNetworkConfig, WifiOutcome::Yes),
        (WifiPhase::ReadAddress, WifiOutcome::Yes),
        (WifiPhase::AnnounceAddress, WifiOutcome::Yes),
        (WifiPhase::PollConnection, WifiOutcome::Yes),
        (WifiPhase::PollPause, WifiOutcome::Yes),
        (WifiPhase::PollConnection, WifiOutcome::No),
    ];
    for (phase, outcome) in script {
        assert_eq!(sup.phase(), phase);
        sup.step(outcome, &mut status);
        if status.has_pending() {
            let s = status.wait();
            if http_should_request(s) {
                requests += 1;
            }
            seen.push(s);
        }
    }
    assert_eq!(seen, vec![WifiStatus::Connected, WifiStatus::Disconnected]);
    assert_eq!(requests, 1);
    assert_eq!(sup.phase(), WifiPhase::CheckAssociation);
}

#[test]
fn associated_controller_waits_for_disassociation() {
    let mut sup = WifiSupervisor::new();
    let mut status = Mailbox::new();
    sup.step(WifiOutcome::Yes, &mut status);
    assert_eq!(sup.phase(), WifiPhase::WaitForDisassociation);
    sup.step(WifiOutcome::Yes, &mut status);
    assert_eq!(sup.phase(), WifiPhase::CheckAssociation);
    assert!(!status.has_pending());
}

#[test]
fn failed_connect_backs_off_and_retries() {
    let mut sup = WifiSupervisor::new();
    let mut status = Mailbox::new();
    sup.step(WifiOutcome::No, &mut status);
    sup.step(WifiOutcome::Yes, &mut status);
    assert_eq!(sup.phase(), WifiPhase::Connect);
    sup.step(WifiOutcome::Failed, &mut status);
    assert_eq!(sup.phase(), WifiPhase::RetryBackoff);
    sup.step(WifiOutcome::Yes, &mut status);
    assert_eq!(sup.phase(), WifiPhase::CheckAssociation);
    assert!(!status.has_pending());
}

#[test]
fn failed_start_starts_over() {
    let mut sup = WifiSupervisor::new();
    let mut status = Mailbox::new();
    sup.step(WifiOutcome::No, &mut status);
    sup.step(WifiOutcome::No, &mut status);
    sup.step(WifiOutcome::Failed, &mut status);
    assert_eq!(sup.phase(), WifiPhase::RetryBackoff);
    sup.step(WifiOutcome::Yes, &mut status);
    assert_eq!(sup.phase(), WifiPhase::CheckAssociation);
    sup.step(WifiOutcome::No, &mut status);
    sup.step(WifiOutcome::Failed, &mut status);
    assert_eq!(sup.phase(), WifiPhase::ApplyConfiguration);
    sup.step(WifiOutcome::Yes, &mut status);
    sup.step(WifiOutcome::Failed, &mut status);
    assert_eq!(sup.phase(), WifiPhase::RetryBackoff);
}

#[test]
fn failed_liveness_check_publishes_disconnected_after_backoff() {
    let mut sup = WifiSupervisor::new();
    let mut status = Mailbox::new();
    for o in [WifiOutcome::No, WifiOutcome::Yes, WifiOutcome::Yes, WifiOutcome::Yes, WifiOutcome::No] {
        sup.step(o, &mut status);
    }
    assert_eq!(sup.phase(), WifiPhase::PollConnection);
    assert_eq!(status.try_take(), Some(WifiStatus::Connected));
    sup.step(WifiOutcome::Failed, &mut status);
    assert_eq!(sup.phase(), WifiPhase::PollErrorBackoff);
    assert!(!status.has_pending());
    sup.step(WifiOutcome::Yes, &mut status);
    assert_eq!(status.try_take(), Some(WifiStatus::Disconnected));
    assert_eq!(sup.phase(), WifiPhase::CheckAssociation);
}

#[test]
fn http_skips_disconnected() {
    assert!(http_should_request(WifiStatus::Connected));
    assert!(!http_should_request(WifiStatus::Disconnected));
}

#[test]
fn address_text_formats_ipv4_with_prefix() {
    use_text(address_text([192, 168, 1, 5], 24), "IP: 192.168.1.5/24");
    use_text(address_text([0, 0, 0, 0], 0), "IP: 0.0.0.0/0");
    use_text(address_text([10, 99, 100, 9], 8), "IP: 10.99.100.9/8");
}

#[test]
fn longest_address_text_fits_display() {
    let t = address_text([255, 255, 255, 255], 32);
    use_text(t.clone(), "IP: 255.255.255.255/32");
    assert!(t.len() <= DISPLAY_TEXT_MAX);
}

fn use_text(bytes: Vec<u8>, expected: &str) {
    assert_eq!(String::from_utf8(bytes).unwrap(), expected);
}
