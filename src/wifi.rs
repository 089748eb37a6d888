//! The WiFi connection supervisor and the HTTP task's decision.
//!
//! The supervisor's phase names the work it asks the caller to do next against
//! the WiFi controller or the network stack; the caller does it and reports
//! the outcome. Connectivity changes are published on a `Mailbox`.

use crate::mailbox::Mailbox;
use vstd::prelude::*;

verus! {

/// Pause after a failed connect, or a failed liveness check, in milliseconds.
pub const WIFI_RETRY_BACKOFF_MS: u64 = 1000;

/// Interval between liveness checks of an established link, in milliseconds.
pub const WIFI_POLL_INTERVAL_MS: u64 = 500;

/// Connectivity as published to the tasks that depend on the link.
#[derive(Clone, Copy, Debug, PartialEq, Eq, Structural)]
pub enum WifiStatus {
    Disconnected,
    Connected,
}

/// The work the supervisor asks for next.
#[derive(Clone, Copy, Debug, PartialEq, Eq, Structural)]
pub enum WifiPhase {
    /// Ask whether the controller is associated with an access point.
    CheckAssociation,
    /// Wait for the controller's disassociation event.
    WaitForDisassociation,
    /// Ask whether the controller has been started.
    CheckStarted,
    /// Apply the client configuration (SSID and password).
    ApplyConfiguration,
    /// Start the controller.
    StartController,
    /// Connect to the access point.
    Connect,
    /// Sleep `WIFI_RETRY_BACKOFF_MS` after a failed configuration, start or
    /// connect, before starting over.
    RetryBackoff,
    /// Wait until the network layer is configured.
    AwaitNetworkConfig,
    /// Ask for the IPv4 address of the link.
    ReadAddress,
    /// Publish the address on the display mailbox.
    AnnounceAddress,
    /// Ask whether the link is still connected.
    PollConnection,
    /// Sleep `WIFI_POLL_INTERVAL_MS` before the next liveness check.
    PollPause,
    /// Sleep `WIFI_RETRY_BACKOFF_MS` after a failed liveness check.
    PollErrorBackoff,
}

/// What the caller reports after doing the work of a phase. A wait or a sleep
/// reports `Yes`; a question reports its answer; an operation reports `Yes`
/// on success and `Failed` otherwise.
#[derive(Clone, Copy, Debug, PartialEq, Eq, Structural)]
pub enum WifiOutcome {
    Yes,
    No,
    Failed,
}

/// The phase that follows `p` when its work reported `o`.
pub open spec fn wifi_next_phase(p: WifiPhase, o: WifiOutcome) -> WifiPhase {
    match p {
        WifiPhase::CheckAssociation => if o is Yes {
            WifiPhase::WaitForDisassociation
        } else {
            WifiPhase::CheckStarted
        },
        WifiPhase::WaitForDisassociation => WifiPhase::CheckAssociation,
        WifiPhase::CheckStarted => if o is Yes {
            WifiPhase::Connect
        } else {
            WifiPhase::ApplyConfiguration
        },
        WifiPhase::ApplyConfiguration => if o is Failed {
            WifiPhase::RetryBackoff
        } else {
            WifiPhase::StartController
        },
        WifiPhase::StartController => if o is Failed {
            WifiPhase::RetryBackoff
        } else {
            WifiPhase::Connect
        },
        WifiPhase::Connect => if o is Failed {
            WifiPhase::RetryBackoff
        } else {
            WifiPhase::AwaitNetworkConfig
        },
        WifiPhase::RetryBackoff => WifiPhase::CheckAssociation,
        WifiPhase::AwaitNetworkConfig => WifiPhase::ReadAddress,
        WifiPhase::ReadAddress => if o is Yes {
            WifiPhase::AnnounceAddress
        } else {
            WifiPhase::PollConnection
        },
        WifiPhase::AnnounceAddress => WifiPhase::PollConnection,
        WifiPhase::PollConnection => match o {
            WifiOutcome::Yes => WifiPhase::PollPause,
            WifiOutcome::No => WifiPhase::CheckAssociation,
            WifiOutcome::Failed => WifiPhase::PollErrorBackoff,
        },
        WifiPhase::PollPause => WifiPhase::PollConnection,
        WifiPhase::PollErrorBackoff => WifiPhase::CheckAssociation,
    }
}

/// The status published when `p` reports `o`: `Connected` once the network
/// layer is up after a connect, `Disconnected` when the link is found down.
pub open spec fn wifi_published(p: WifiPhase, o: WifiOutcome) -> Option<WifiStatus> {
    match p {
        WifiPhase::AwaitNetworkConfig => Some(WifiStatus::Connected),
        WifiPhase::PollConnection => if o is No {
            Some(WifiStatus::Disconnected)
        } else {
            None
        },
        WifiPhase::PollErrorBackoff => Some(WifiStatus::Disconnected),
        _ => None,
    }
}

/// Whether the work of phase `p` suspends the supervisor (a wait, a sleep,
/// or an asynchronous controller operation), letting other tasks run.
pub open spec fn wifi_phase_suspends(p: WifiPhase) -> bool {
    match p {
        WifiPhase::CheckAssociation | WifiPhase::CheckStarted | WifiPhase::ApplyConfiguration
        | WifiPhase::ReadAddress | WifiPhase::AnnounceAddress | WifiPhase::PollConnection => false,
        _ => true,
    }
}

/// Position of a phase that does not suspend in the order that such phases
/// can follow one another.
pub open spec fn wifi_busy_rank(p: WifiPhase) -> nat {
    match p {
        WifiPhase::ReadAddress => 0,
        WifiPhase::AnnounceAddress => 1,
        WifiPhase::PollConnection => 2,
        WifiPhase::CheckAssociation => 3,
        WifiPhase::CheckStarted => 4,
        WifiPhase::ApplyConfiguration => 5,
        _ => 6,
    }
}

/// No busy loop: whatever the outcomes, one phase that does not suspend is
/// followed either by a phase that suspends or by one of higher rank. So at
/// most six phases in a row run without suspending, and every round of the
/// supervisor passes a suspension point.
pub proof fn lemma_no_busy_cycle(p: WifiPhase, o: WifiOutcome)
    requires
        !wifi_phase_suspends(p),
    ensures
        wifi_phase_suspends(wifi_next_phase(p, o)) || wifi_busy_rank(wifi_next_phase(p, o))
            > wifi_busy_rank(p),
        wifi_busy_rank(p) < 6,
{
}

/// Drives the controller towards an established link and watches it.
pub struct WifiSupervisor {
    phase: WifiPhase,
}

impl View for WifiSupervisor {
    type V = WifiPhase;

    closed spec fn view(&self) -> WifiPhase {
        self.phase
    }
}

impl WifiSupervisor {
    /// A supervisor that starts by asking whether the controller is associated.
    pub fn new() -> (r: Self)
        ensures
            r@ is CheckAssociation,
    {
        WifiSupervisor { phase: WifiPhase::CheckAssociation }
    }

    /// The work asked for next.
    pub fn phase(&self) -> (r: WifiPhase)
        ensures
            r == self@,
    {
        self.phase
    }

    /// Takes the outcome of the current phase's work, publishes a
    /// connectivity change on `status` where one happened, and moves on.
    ///
    /// An associated controller is left alone until it disassociates. An
    /// unstarted one is configured and started. A failed configuration,
    /// start or connect is retried after a backoff. Once the network
    /// layer is up `Connected` is published and the address, if any, is
    /// announced; the link is then checked every `WIFI_POLL_INTERVAL_MS`
    /// until it is found down, when `Disconnected` is published.
    pub fn step(&mut self, outcome: WifiOutcome, status: &mut Mailbox<WifiStatus>)
        ensures
            final(self)@ == wifi_next_phase(old(self)@, outcome),
            wifi_published(old(self)@, outcome) is Some ==> final(status)@ == wifi_published(
                old(self)@,
                outcome,
            ),
            wifi_published(old(self)@, outcome) is None ==> final(status)@ == old(status)@,
    {
        let next = match self.phase {
            WifiPhase::CheckAssociation => match outcome {
                WifiOutcome::Yes => WifiPhase::WaitForDisassociation,
                _ => WifiPhase::CheckStarted,
            },
            WifiPhase::WaitForDisassociation => WifiPhase::CheckAssociation,
            WifiPhase::CheckStarted => match outcome {
                WifiOutcome::Yes => WifiPhase::Connect,
                _ => WifiPhase::ApplyConfiguration,
            },
            WifiPhase::ApplyConfiguration => match outcome {
                WifiOutcome::Failed => WifiPhase::RetryBackoff,
                _ => WifiPhase::StartController,
            },
            WifiPhase::StartController => match outcome {
                WifiOutcome::Failed => WifiPhase::RetryBackoff,
                _ => WifiPhase::Connect,
            },
            WifiPhase::Connect => match outcome {
                WifiOutcome::Failed => WifiPhase::RetryBackoff,
                _ => WifiPhase::AwaitNetworkConfig,
            },
            WifiPhase::RetryBackoff => WifiPhase::CheckAssociation,
            WifiPhase::AwaitNetworkConfig => {
                status.publish(WifiStatus::Connected);
                WifiPhase::ReadAddress
            },
            WifiPhase::ReadAddress => match outcome {
                WifiOutcome::Yes => WifiPhase::AnnounceAddress,
                _ => WifiPhase::PollConnection,
            },
            WifiPhase::AnnounceAddress => WifiPhase::PollConnection,
            WifiPhase::PollConnection => match outcome {
                WifiOutcome::Yes => WifiPhase::PollPause,
                WifiOutcome::No => {
                    status.publish(WifiStatus::Disconnected);
                    WifiPhase::CheckAssociation
                },
                WifiOutcome::Failed => WifiPhase::PollErrorBackoff,
            },
            WifiPhase::PollPause => WifiPhase::PollConnection,
            WifiPhase::PollErrorBackoff => {
                status.publish(WifiStatus::Disconnected);
                WifiPhase::CheckAssociation
            },
        };
        self.phase = next;
    }
}

/// Whether the HTTP task makes a request on receiving `status`: only when the
/// link has come up.
pub fn http_should_request(status: WifiStatus) -> (r: bool)
    ensures
        r == (status is Connected),
{
    match status {
        WifiStatus::Connected => true,
        WifiStatus::Disconnected => false,
    }
}

/// Longest text the display mailbox carries.
pub const DISPLAY_TEXT_MAX: usize = 64;

/// ASCII decimal digits of `n`, without leading zeros.
pub open spec fn decimal(n: nat) -> Seq<u8>
    decreases n,
{
    if n < 10 {
        seq![(48 + n) as u8]
    } else {
        decimal(n / 10).push((48 + n % 10) as u8)
    }
}

/// The display text for an IPv4 address with its prefix length, in ASCII:
/// `IP: a.b.c.d/p`.
pub open spec fn address_text_spec(octets: Seq<u8>, prefix_len: u8) -> Seq<u8> {
    seq![73u8, 80u8, 58u8, 32u8] + decimal(octets[0] as nat) + seq![46u8] + decimal(
        octets[1] as nat,
    ) + seq![46u8] + decimal(octets[2] as nat) + seq![46u8] + decimal(octets[3] as nat) + seq![
        47u8,
    ] + decimal(prefix_len as nat)
}

fn push_decimal(out: &mut Vec<u8>, n: u8)
    ensures
        final(out)@ == old(out)@ + decimal(n as nat),
        decimal(n as nat).len() <= 3,
{
    let ghost start = out@;
    if n >= 100 {
        out.push(48 + n / 100);
        out.push(48 + (n / 10) % 10);
        out.push(48 + n % 10);
        assert(decimal((n / 100) as nat) == seq![(48 + n / 100) as u8]);
        assert(decimal((n / 10) as nat) == decimal((n / 100) as nat).push((48 + (n / 10) % 10) as u8));
        assert(decimal(n as nat) == decimal((n / 10) as nat).push((48 + n % 10) as u8));
    } else if n >= 10 {
        out.push(48 + n / 10);
        out.push(48 + n % 10);
        assert(decimal((n / 10) as nat) == seq![(48 + n / 10) as u8]);
        assert(decimal(n as nat) == decimal((n / 10) as nat).push((48 + n % 10) as u8));
    } else {
        out.push(48 + n);
    }
    assert(out@ =~= start + decimal(n as nat));
}

/// The text announcing the link's address on the display, `IP: a.b.c.d/p`
/// in ASCII; it always fits the display mailbox.
pub fn address_text(octets: [u8; 4], prefix_len: u8) -> (r: Vec<u8>)
    ensures
        r@ == address_text_spec(octets@, prefix_len),
        r@.len() <= DISPLAY_TEXT_MAX,
{
    let mut out: Vec<u8> = Vec::new();
    out.push(73);
    out.push(80);
    out.push(58);
    out.push(32);
    push_decimal(&mut out, octets[0]);
    out.push(46);
    push_decimal(&mut out, octets[1]);
    out.push(46);
    push_decimal(&mut out, octets[2]);
    out.push(46);
    push_decimal(&mut out, octets[3]);
    out.push(47);
    push_decimal(&mut out, prefix_len);
    assert(out@ =~= address_text_spec(octets@, prefix_len));
    out
}

} // verus!
