//! The LED coordinator: adopts requested states and re-asserts the current one.

use crate::mailbox::Mailbox;
use vstd::prelude::*;

verus! {

/// Period of the coordinator's loop, in milliseconds.
pub const LED_REFRESH_MS: u64 = 50;

/// The requested light of the LED.
#[derive(Clone, Copy, Debug, PartialEq, Eq, Structural)]
pub enum LedState {
    On,
    Off,
}

/// The coordinator's authoritative LED state.
pub struct Led {
    state: LedState,
}

impl View for Led {
    type V = LedState;

    closed spec fn view(&self) -> LedState {
        self.state
    }
}

impl Led {
    /// A coordinator whose LED is off.
    pub fn new() -> (r: Self)
        ensures
            r@ is Off,
    {
        Led { state: LedState::Off }
    }

    /// Adopts `state`.
    pub fn set(&mut self, state: LedState)
        ensures
            final(self)@ == state,
    {
        self.state = state;
    }

    /// The current state.
    pub fn state(&self) -> (r: LedState)
        ensures
            r == self@,
    {
        self.state
    }

    /// Whether the output line is to be driven high for the current state.
    pub fn output_high(&self) -> (r: bool)
        ensures
            r == (self@ is On),
    {
        match self.state {
            LedState::On => true,
            LedState::Off => false,
        }
    }

    /// One iteration of the coordinator, once the timer or a request has
    /// woken it: a pending request is taken and adopted, and the state to
    /// assert on the output, new or not, is returned.
    pub fn refresh(&mut self, requests: &mut Mailbox<LedState>) -> (r: LedState)
        ensures
            final(requests)@ is None,
            old(requests)@ matches Some(s) ==> final(self)@ == s,
            old(requests)@ is None ==> final(self)@ == old(self)@,
            r == final(self)@,
    {
        if let Some(s) = requests.try_take() {
            self.set(s);
        }
        self.state
    }
}

} // verus!
