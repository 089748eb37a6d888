//! The point-to-point radio cycle: transmit, pause, receive, pause, forever.
//!
//! Each phase of the cycle is a step; the caller performs the step against the
//! radio and reports whether it succeeded. Transmit failures halt the cycle;
//! receive failures are reported and the next cycle starts.

use vstd::prelude::*;

verus! {

/// Carrier frequency of the link, in hertz.
pub const P2P_FREQUENCY_HZ: u32 = 904_000_000;

/// Preamble length, in symbols, for both directions.
pub const PREAMBLE_LENGTH: u16 = 12;

/// Length of the frame sent in every cycle.
pub const TX_PAYLOAD_LEN: usize = 52;

/// Largest frame accepted on receive.
pub const RX_BUFFER_LEN: usize = 255;

/// Timeout budget of the single-shot receive window, in radio time units.
pub const RX_WINDOW_TIMEOUT: u16 = 512;

/// Transmit power handed to the radio when preparing a frame, in dBm.
pub const TX_OUTPUT_POWER_DBM: i32 = 20;

/// Pause between the phases of the cycle, in milliseconds.
pub const P2P_PAUSE_MS: u64 = 1000;

/// Received frames whose RSSI reaches this value have their bytes reported.
pub const RSSI_REPORT_GATE: i16 = 50;

/// Why a phase of the cycle failed.
#[derive(Clone, Copy, Debug, PartialEq, Eq, Structural)]
pub enum P2PErrors {
    PrepareForTx,
    Tx,
    PrepareForRx,
    Rx,
}

impl P2PErrors {
    /// A sentence describing the failure, for the log.
    pub fn message(&self) -> (r: &'static str)
        ensures
            r@ == p2p_error_message(*self),
    {
        match self {
            P2PErrors::PrepareForTx => "Failed to prepare for transmission",
            P2PErrors::Tx => "Transmission failed",
            P2PErrors::PrepareForRx => "Failed to prepare for reception",
            P2PErrors::Rx => "Reception failed",
        }
    }
}

pub open spec fn p2p_error_message(e: P2PErrors) -> Seq<char> {
    match e {
        P2PErrors::PrepareForTx => "Failed to prepare for transmission"@,
        P2PErrors::Tx => "Transmission failed"@,
        P2PErrors::PrepareForRx => "Failed to prepare for reception"@,
        P2PErrors::Rx => "Reception failed"@,
    }
}

/// The radio work that the cycle asks for next.
#[derive(Clone, Copy, Debug, PartialEq, Eq, Structural)]
pub enum P2pStep {
    /// Derive modulation and packet parameters (once, at start).
    Setup,
    /// Load the outgoing frame into the radio.
    PrepareTx,
    /// Send the loaded frame.
    Transmit,
    /// Wait `P2P_PAUSE_MS` before receiving.
    PauseBeforeRx,
    /// Open a single-shot receive window of `RX_WINDOW_TIMEOUT`.
    PrepareRx,
    /// Receive one frame into the buffer.
    Receive,
    /// Wait `P2P_PAUSE_MS` before the next cycle.
    PauseAfterRx,
    /// The cycle has stopped for good.
    Halted,
}

/// Where the cycle goes after a step, and the failure to report, if any.
#[derive(Clone, Copy, Debug)]
pub struct P2pTransition {
    pub next: P2pStep,
    pub error: Option<P2PErrors>,
}

/// The step that follows `s` when it succeeds.
pub open spec fn p2p_successor(s: P2pStep) -> P2pStep {
    match s {
        P2pStep::Setup => P2pStep::PrepareTx,
        P2pStep::PrepareTx => P2pStep::Transmit,
        P2pStep::Transmit => P2pStep::PauseBeforeRx,
        P2pStep::PauseBeforeRx => P2pStep::PrepareRx,
        P2pStep::PrepareRx => P2pStep::Receive,
        P2pStep::Receive => P2pStep::PauseAfterRx,
        P2pStep::PauseAfterRx => P2pStep::PrepareTx,
        P2pStep::Halted => P2pStep::Halted,
    }
}

/// A step whose failure stops the cycle: setup and both transmit phases.
pub open spec fn p2p_failure_is_fatal(s: P2pStep) -> bool {
    s is Setup || s is PrepareTx || s is Transmit
}

/// The failure tag of a radio step (none for setup, pauses and the halted state).
pub open spec fn p2p_error_of(s: P2pStep) -> Option<P2PErrors> {
    match s {
        P2pStep::PrepareTx => Some(P2PErrors::PrepareForTx),
        P2pStep::Transmit => Some(P2PErrors::Tx),
        P2pStep::PrepareRx => Some(P2PErrors::PrepareForRx),
        P2pStep::Receive => Some(P2PErrors::Rx),
        _ => None,
    }
}

/// A pause is a timer wait: it cannot fail.
pub open spec fn p2p_step_can_fail(s: P2pStep) -> bool {
    !(s is PauseBeforeRx || s is PauseAfterRx || s is Halted)
}

/// The transition taken from `s` when the step reported `ok`.
pub open spec fn p2p_after(s: P2pStep, ok: bool) -> P2pTransition {
    if ok || !p2p_step_can_fail(s) {
        P2pTransition { next: p2p_successor(s), error: None }
    } else if p2p_failure_is_fatal(s) {
        P2pTransition { next: P2pStep::Halted, error: p2p_error_of(s) }
    } else {
        P2pTransition { next: P2pStep::PrepareTx, error: p2p_error_of(s) }
    }
}

/// Decides where the cycle goes after step `s` reported `ok`.
///
/// A success moves to the next phase. A failed setup or transmit phase halts
/// the cycle; a failed receive phase is reported and the cycle starts over
/// with a new transmission. Pauses cannot fail, and a halted cycle stays halted.
pub fn p2p_next(s: P2pStep, ok: bool) -> (r: P2pTransition)
    ensures
        r == p2p_after(s, ok),
        s is Halted ==> r.next is Halted && r.error is None,
        ok ==> r.next == p2p_successor(s) && r.error is None,
        !ok && (s is PrepareTx || s is Transmit) ==> r.next is Halted && r.error == p2p_error_of(s),
        !ok && s is Setup ==> r.next is Halted && r.error is None,
        !ok && (s is PrepareRx || s is Receive) ==> r.next is PrepareTx && r.error == p2p_error_of(s),
{
    match s {
        P2pStep::Setup => if ok {
            P2pTransition { next: P2pStep::PrepareTx, error: None }
        } else {
            P2pTransition { next: P2pStep::Halted, error: None }
        },
        P2pStep::PrepareTx => if ok {
            P2pTransition { next: P2pStep::Transmit, error: None }
        } else {
            P2pTransition { next: P2pStep::Halted, error: Some(P2PErrors::PrepareForTx) }
        },
        P2pStep::Transmit => if ok {
            P2pTransition { next: P2pStep::PauseBeforeRx, error: None }
        } else {
            P2pTransition { next: P2pStep::Halted, error: Some(P2PErrors::Tx) }
        },
        P2pStep::PauseBeforeRx => P2pTransition { next: P2pStep::PrepareRx, error: None },
        P2pStep::PrepareRx => if ok {
            P2pTransition { next: P2pStep::Receive, error: None }
        } else {
            P2pTransition { next: P2pStep::PrepareTx, error: Some(P2PErrors::PrepareForRx) }
        },
        P2pStep::Receive => if ok {
            P2pTransition { next: P2pStep::PauseAfterRx, error: None }
        } else {
            P2pTransition { next: P2pStep::PrepareTx, error: Some(P2PErrors::Rx) }
        },
        P2pStep::PauseAfterRx => P2pTransition { next: P2pStep::PrepareTx, error: None },
        P2pStep::Halted => P2pTransition { next: P2pStep::Halted, error: None },
    }
}

/// The steps visited when the outcomes `oks` are reported one after another,
/// starting at `s`: entry `i` is the step reached after outcome `i`.
pub open spec fn p2p_trace(s: P2pStep, oks: Seq<bool>) -> Seq<P2pStep>
    decreases oks.len(),
{
    if oks.len() == 0 {
        Seq::empty()
    } else {
        let n = p2p_after(s, oks[0]).next;
        seq![n] + p2p_trace(n, oks.drop_first())
    }
}

proof fn lemma_halted_stays(oks: Seq<bool>)
    ensures
        p2p_trace(P2pStep::Halted, oks).len() == oks.len(),
        forall|i: int| 0 <= i < oks.len() ==> #[trigger] p2p_trace(P2pStep::Halted, oks)[i] is Halted,
    decreases oks.len(),
{
    if oks.len() > 0 {
        lemma_halted_stays(oks.drop_first());
        let t = p2p_trace(P2pStep::Halted, oks);
        let rest = p2p_trace(P2pStep::Halted, oks.drop_first());
        assert forall|i: int| 0 <= i < oks.len() implies #[trigger] t[i] is Halted by {
            if i > 0 {
                assert(t[i] == rest[i - 1]);
            }
        }
    }
}

/// A failed transmit preparation ends the task: whatever is reported after
/// it, the cycle never transmits, never opens a receive window and never
/// receives again.
pub proof fn lemma_tx_prepare_failure_halts(oks: Seq<bool>)
    requires
        oks.len() > 0,
        !oks[0],
    ensures
        p2p_after(P2pStep::PrepareTx, false).error == Some(P2PErrors::PrepareForTx),
        forall|i: int| 0 <= i < oks.len() ==> #[trigger] p2p_trace(P2pStep::PrepareTx, oks)[i] is Halted,
        forall|i: int|
            0 <= i < oks.len() ==> !(#[trigger] p2p_trace(P2pStep::PrepareTx, oks)[i] is Transmit
                || p2p_trace(P2pStep::PrepareTx, oks)[i] is PrepareRx
                || p2p_trace(P2pStep::PrepareTx, oks)[i] is Receive),
{
    lemma_halted_stays(oks.drop_first());
    let t = p2p_trace(P2pStep::PrepareTx, oks);
    let rest = p2p_trace(P2pStep::Halted, oks.drop_first());
    assert forall|i: int| 0 <= i < oks.len() implies #[trigger] t[i] is Halted by {
        if i > 0 {
            assert(t[i] == rest[i - 1]);
        }
    }
}

/// A failed receive preparation is reported and the cycle goes on: the next
/// step is a new transmission, and a successful one is followed by the
/// transmit itself.
pub proof fn lemma_rx_prepare_failure_continues()
    ensures
        p2p_after(P2pStep::PrepareRx, false).error == Some(P2PErrors::PrepareForRx),
        p2p_after(P2pStep::PrepareRx, false).next is PrepareTx,
        p2p_trace(P2pStep::PrepareRx, seq![false, true]) == seq![P2pStep::PrepareTx, P2pStep::Transmit],
{
    let oks = seq![false, true];
    assert(oks.drop_first() =~= seq![true]);
    assert(seq![true].drop_first() =~= Seq::<bool>::empty());
    assert(p2p_trace(P2pStep::Transmit, Seq::<bool>::empty()) =~= Seq::<P2pStep>::empty());
    assert(p2p_trace(P2pStep::PrepareTx, seq![true]) =~= seq![P2pStep::Transmit]);
    assert(p2p_trace(P2pStep::PrepareRx, oks) =~= seq![P2pStep::PrepareTx, P2pStep::Transmit]);
}

/// The frame sent in every cycle: the bytes 0, 1, ..., 51.
pub fn p2p_payload() -> (r: Vec<u8>)
    ensures
        r@.len() == TX_PAYLOAD_LEN,
        forall|i: int| 0 <= i < r@.len() ==> r@[i] == i as u8,
{
    let mut tx: Vec<u8> = Vec::new();
    let mut i: usize = 0;
    while i < TX_PAYLOAD_LEN
        invariant
            i <= TX_PAYLOAD_LEN,
            tx@.len() == i,
            forall|j: int| 0 <= j < i ==> tx@[j] == j as u8,
        decreases TX_PAYLOAD_LEN - i,
    {
        tx.push(i as u8);
        i = i + 1;
    }
    tx
}

/// Whether the bytes of a received frame with this RSSI are reported, beyond
/// its length.
pub fn rssi_passes_gate(rssi: i16) -> (r: bool)
    ensures
        r == (rssi >= RSSI_REPORT_GATE),
{
    rssi >= RSSI_REPORT_GATE
}

} // verus!
