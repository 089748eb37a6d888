use fieldnode::p2p::{
    p2p_next, p2p_payload, rssi_passes_gate, P2PErrors, P2pStep, TX_PAYLOAD_LEN,
};

fn walk(start: P2pStep, oks: &[bool]) -> Vec<(P2pStep, Option<P2PErrors>)> {
    let mut s = start;
    let mut out = Vec::new();
    for &ok in oks {
        let t = p2p_next(s, ok);
        out.push((t.next, t.error));
        s = t.next;
    }
    out
}

#[test]
fn tx_prepare_failure_terminates() {
    let out = walk(P2pStep::PrepareTx, &[false, true, true, true]);
    assert_eq!(out[0], (P2pStep::Halted, Some(P2PErrors::PrepareForTx)));
    assert!(out[1..].iter().all(|&(s, e)| s == P2pStep::Halted && e.is_none()));
}

#[test]
fn tx_failure_terminates() {
    let out = walk(P2pStep::PrepareTx, &[true, false]);
    assert_eq!(out, vec![(P2pStep::Transmit, None), (P2pStep::Halted, Some(P2PErrors::Tx))]);
}

#[test]
fn rx_prepare_failure_starts_next_cycle() {
    let out = walk(P2pStep::PrepareRx, &[false, true]);
    assert_eq!(
        out,
        vec![(P2pStep::PrepareTx, Some(P2PErrors::PrepareForRx)), (P2pStep::Transmit, None)]
    );
}

#[test]
fn rx_failure_starts_next_cycle() {
    let out = walk(P2pStep::Receive, &[false]);
    assert_eq!(out, vec![(P2pStep::PrepareTx, Some(P2PErrors::Rx))]);
}

#[test]
fn setup_failure_is_fatal() {
    assert_eq!(walk(P2pStep::Setup, &[false]), vec![(P2pStep::Halted, None)]);
}

#[test]
fn full_cycle_order() {
    let out = walk(P2pStep::Setup, &[true; 8]);
    let steps: Vec<P2pStep> = out.iter().map(|&(s, _)| s).collect();
    assert_eq!(
        steps,
        vec![
            P2pStep::PrepareTx,
            P2pStep::Transmit,
            P2pStep::PauseBeforeRx,
            P2pStep::PrepareRx,
            P2pStep::Receive,
            P2pStep::PauseAfterRx,
            P2pStep::PrepareTx,
            P2pStep::Transmit,
        ]
    );
    assert!(out.iter().all(|&(_, e)| e.is_none()));
}

#[test]
fn pauses_cannot_fail() {
    assert_eq!(walk(P2pStep::PauseBeforeRx, &[false]), vec![(P2pStep::PrepareRx, None)]);
    assert_eq!(walk(P2pStep::PauseAfterRx, &[false]), vec![(P2pStep::PrepareTx, None)]);
}

#[test]
fn payload_counts_up() {
    let p = p2p_payload();
    assert_eq!(p.len(), TX_PAYLOAD_LEN);
    assert_eq!(p[0], 0);
    assert_eq!(p[51], 51);
    assert!(p.iter().enumerate().all(|(i, &b)| b as usize == i));
}

#[test]
fn rssi_gate() {
    assert!(!rssi_passes_gate(-120));
    assert!(!rssi_passes_gate(49));
    assert!(rssi_passes_gate(50));
    assert!(rssi_passes_gate(80));
}

#[test]
fn error_messages() {
    assert_eq!(P2PErrors::PrepareForTx.message(), "Failed to prepare for transmission");
    assert_eq!(P2PErrors::Tx.message(), "Transmission failed");
    assert_eq!(P2PErrors::PrepareForRx.message(), "Failed to prepare for reception");
    assert_eq!(P2PErrors::Rx.message(), "Reception failed");
}
