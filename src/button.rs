//! The button debounce state machine, sampled once per `DEBOUNCE_MS`.

use crate::mailbox::Mailbox;
use vstd::prelude::*;

verus! {

/// Sampling interval of the button, in milliseconds.
pub const DEBOUNCE_MS: u64 = 50;

/// A press held for longer than this, in milliseconds, is a long press.
pub const LONG_PRESS_MS: u64 = 1000;

/// A gesture of the user button.
#[derive(Clone, Copy, Debug, PartialEq, Eq, Structural)]
pub enum ButtonState {
    Pressed,
    Released,
    LongPressed,
}

/// The debounce state of the button.
pub struct Button {
    state: ButtonState,
    press_duration_ms: u64,
    long_press_sent: bool,
}

/// The button's state in mathematical terms.
pub ghost struct ButtonModel {
    pub state: ButtonState,
    /// Time held since the press was reported, in milliseconds.
    pub press_duration: nat,
    /// Whether the current press has been reported as long.
    pub long_press_sent: bool,
}

impl View for Button {
    type V = ButtonModel;

    closed spec fn view(&self) -> ButtonModel {
        ButtonModel {
            state: self.state,
            press_duration: self.press_duration_ms as nat,
            long_press_sent: self.long_press_sent,
        }
    }
}

/// The held time after one more tick; it stops growing at the largest `u64`.
pub open spec fn held_longer(d: nat) -> nat {
    if d + DEBOUNCE_MS <= u64::MAX {
        (d + DEBOUNCE_MS) as nat
    } else {
        u64::MAX as nat
    }
}

/// One tick of the state machine: the new state, and the gesture reported, if any.
pub open spec fn button_step(m: ButtonModel, pressed: bool) -> (ButtonModel, Option<ButtonState>) {
    if !pressed {
        if m.state is Released {
            (ButtonModel { press_duration: 0, ..m }, None)
        } else {
            (
                ButtonModel { state: ButtonState::Released, press_duration: 0, ..m },
                Some(ButtonState::Released),
            )
        }
    } else if m.state is Released {
        (
            ButtonModel { state: ButtonState::Pressed, long_press_sent: false, ..m },
            Some(ButtonState::Pressed),
        )
    } else {
        let d = held_longer(m.press_duration);
        if d > LONG_PRESS_MS && !m.long_press_sent {
            (
                ButtonModel {
                    state: ButtonState::LongPressed,
                    press_duration: d,
                    long_press_sent: true,
                },
                Some(ButtonState::LongPressed),
            )
        } else {
            (ButtonModel { press_duration: d, ..m }, None)
        }
    }
}

/// The state after the samples `inputs`, and what each tick reported: each
/// sample is one call of `Button::tick`, whose contract is `button_step`.
pub open spec fn button_run(m: ButtonModel, inputs: Seq<bool>) -> (
    ButtonModel,
    Seq<Option<ButtonState>>,
)
    decreases inputs.len(),
{
    if inputs.len() == 0 {
        (m, Seq::empty())
    } else {
        let (m1, out) = button_run(m, inputs.drop_last());
        let (m2, e) = button_step(m1, inputs.last());
        (m2, out.push(e))
    }
}

/// The samples of a press: `low` ticks released, `held` ticks pressed, then
/// one tick released.
pub open spec fn press_pattern(low: nat, held: nat) -> Seq<bool> {
    Seq::new(low + held + 1, |i: int| low <= i < low + held)
}

/// Whether the `k`-th tick after a press is the first one held for longer
/// than `LONG_PRESS_MS`.
pub open spec fn first_long_tick(k: int) -> bool {
    k * DEBOUNCE_MS > LONG_PRESS_MS && (k - 1) * DEBOUNCE_MS <= LONG_PRESS_MS
}

spec fn held_after(j: nat) -> nat {
    if j * DEBOUNCE_MS <= u64::MAX {
        (j * DEBOUNCE_MS) as nat
    } else {
        u64::MAX as nat
    }
}

spec fn held_model(j: nat) -> ButtonModel {
    ButtonModel {
        state: if held_after(j) > LONG_PRESS_MS {
            ButtonState::LongPressed
        } else {
            ButtonState::Pressed
        },
        press_duration: held_after(j),
        long_press_sent: held_after(j) > LONG_PRESS_MS,
    }
}

proof fn lemma_press_prefix(m0: ButtonModel, low: nat, held: nat, n: nat)
    requires
        low >= 1,
        held >= 1,
        n <= low + held + 1,
    ensures
        button_run(m0, press_pattern(low, held).take(n as int)).1.len() == n,
        n >= 1 ==> (button_run(m0, press_pattern(low, held).take(n as int)).1[0] is None
            || button_run(m0, press_pattern(low, held).take(n as int)).1[0] == Some(
            ButtonState::Released,
        )),
        forall|i: int|
            1 <= i < n && i < low ==> #[trigger] button_run(
                m0,
                press_pattern(low, held).take(n as int),
            ).1[i] is None,
        low < n ==> button_run(m0, press_pattern(low, held).take(n as int)).1[low as int] == Some(
            ButtonState::Pressed,
        ),
        forall|i: int|
            low < i < n && i < low + held ==> #[trigger] button_run(
                m0,
                press_pattern(low, held).take(n as int),
            ).1[i] == if first_long_tick(i - low) {
                Some(ButtonState::LongPressed)
            } else {
                None
            },
        n == low + held + 1 ==> button_run(m0, press_pattern(low, held).take(n as int)).1[(low
            + held) as int] == Some(ButtonState::Released),
        1 <= n <= low ==> button_run(m0, press_pattern(low, held).take(n as int)).0.state is Released
            && button_run(m0, press_pattern(low, held).take(n as int)).0.press_duration == 0,
        low < n <= low + held ==> button_run(m0, press_pattern(low, held).take(n as int)).0
            == held_model((n - low - 1) as nat),
    decreases n,
{
    let p = press_pattern(low, held);
    if n == 0 {
        assert(p.take(0) =~= Seq::<bool>::empty());
    } else {
        let k = (n - 1) as nat;
        lemma_press_prefix(m0, low, held, k);
        assert(p.take(n as int).drop_last() =~= p.take(k as int));
        assert(p.take(n as int).last() == p[k as int]);
        let prev = button_run(m0, p.take(k as int));
        let cur = button_run(m0, p.take(n as int));
        assert(cur.1 == prev.1.push(button_step(prev.0, p[k as int]).1));
        assert(cur.0 == button_step(prev.0, p[k as int]).0);
        if low < n <= low + held && k > low {
            let j = (k - low - 1) as nat;
            assert(held_longer(held_after(j)) == held_after(j + 1));
            assert(held_after(j) > LONG_PRESS_MS ==> j * DEBOUNCE_MS > LONG_PRESS_MS);
            assert(held_after(j + 1) > LONG_PRESS_MS <==> (j + 1) * DEBOUNCE_MS > LONG_PRESS_MS);
            assert(held_after(j) > LONG_PRESS_MS <==> j * DEBOUNCE_MS > LONG_PRESS_MS);
        }
        assert forall|i: int|
            low < i < n && i < low + held implies #[trigger] cur.1[i] == if first_long_tick(
                i - low,
            ) {
                Some(ButtonState::LongPressed)
            } else {
                None
            } by {
            if i < k {
                assert(cur.1[i] == prev.1[i]);
            } else {
                let j = (k - low - 1) as nat;
                assert(held_after(j + 1) > LONG_PRESS_MS <==> (j + 1) * DEBOUNCE_MS > LONG_PRESS_MS);
                assert(held_after(j) > LONG_PRESS_MS <==> j * DEBOUNCE_MS > LONG_PRESS_MS);
            }
        }
        assert forall|i: int| 1 <= i < n && i < low implies #[trigger] cur.1[i] is None by {
            if i < k {
                assert(cur.1[i] == prev.1[i]);
            }
        }
        if k >= 1 {
            assert(cur.1[0] == prev.1[0]);
        }
        if low < k {
            assert(cur.1[low as int] == prev.1[low as int]);
        }
    }
}

/// A press seen through the debounce: after at least one released tick, a
/// press held for `held` ticks and then released is reported exactly once as
/// pressed (at its first tick), exactly once as long (at the first tick held
/// for longer than `LONG_PRESS_MS`, if it lasts that long) and exactly once as
/// released (at the release); nothing else is reported after the first tick.
pub proof fn lemma_press_reports(m0: ButtonModel, low: nat, held: nat)
    requires
        low >= 1,
        held >= 1,
    ensures
        ({
            let out = button_run(m0, press_pattern(low, held)).1;
            &&& out.len() == low + held + 1
            &&& out[0] is None || out[0] == Some(ButtonState::Released)
            &&& forall|i: int| 1 <= i < low ==> #[trigger] out[i] is None
            &&& out[low as int] == Some(ButtonState::Pressed)
            &&& forall|i: int|
                low < i < low + held ==> #[trigger] out[i] == if first_long_tick(i - low) {
                    Some(ButtonState::LongPressed)
                } else {
                    None
                }
            &&& out[(low + held) as int] == Some(ButtonState::Released)
        }),
{
    let p = press_pattern(low, held);
    lemma_press_prefix(m0, low, held, low + held + 1);
    assert(p.take((low + held + 1) as int) =~= p);
}

/// Only one tick of a press is the first one held for longer than
/// `LONG_PRESS_MS`: the long press is reported at a single tick.
pub proof fn lemma_long_press_tick_unique(k1: int, k2: int)
    requires
        first_long_tick(k1),
        first_long_tick(k2),
    ensures
        k1 == k2,
{
    assert(k1 * DEBOUNCE_MS > LONG_PRESS_MS && (k2 - 1) * DEBOUNCE_MS <= LONG_PRESS_MS);
    assert(k2 * DEBOUNCE_MS > LONG_PRESS_MS && (k1 - 1) * DEBOUNCE_MS <= LONG_PRESS_MS);
}

impl Button {
    /// A released button that has not been held.
    pub fn new() -> (r: Self)
        ensures
            r@.state is Released,
            r@.press_duration == 0,
            !r@.long_press_sent,
    {
        Button { state: ButtonState::Released, press_duration_ms: 0, long_press_sent: false }
    }

    /// The gesture last reported.
    pub fn state(&self) -> (r: ButtonState)
        ensures
            r == self@.state,
    {
        self.state
    }

    /// Time held since the press was reported, in milliseconds.
    pub fn press_duration_ms(&self) -> (r: u64)
        ensures
            r == self@.press_duration,
    {
        self.press_duration_ms
    }

    /// Records `state` and publishes it to the button's observers.
    pub fn update(&mut self, state: ButtonState, events: &mut Mailbox<ButtonState>)
        ensures
            final(self)@ == (ButtonModel { state, ..old(self)@ }),
            final(events)@ == Some(state),
    {
        self.state = state;
        events.publish(state);
    }

    /// One debounce tick with the sampled level (`pressed` when the input is
    /// active). A release is reported once and clears the held time; a press
    /// is reported at its first tick; a press held for longer than
    /// `LONG_PRESS_MS` is reported once more, as long. Every report is
    /// published on `events`, and returned.
    pub fn tick(&mut self, pressed: bool, events: &mut Mailbox<ButtonState>) -> (r: Option<
        ButtonState,
    >)
        ensures
            (final(self)@, r) == button_step(old(self)@, pressed),
            r is Some ==> final(events)@ == r,
            r is None ==> final(events)@ == old(events)@,
    {
        if !pressed {
            self.press_duration_ms = 0;
            match self.state {
                ButtonState::Released => None,
                _ => {
                    self.update(ButtonState::Released, events);
                    Some(ButtonState::Released)
                },
            }
        } else {
            match self.state {
                ButtonState::Released => {
                    self.long_press_sent = false;
                    self.update(ButtonState::Pressed, events);
                    Some(ButtonState::Pressed)
                },
                _ => {
                    self.press_duration_ms = self.press_duration_ms.saturating_add(DEBOUNCE_MS);
                    if self.press_duration_ms > LONG_PRESS_MS && !self.long_press_sent {
                        self.update(ButtonState::LongPressed, events);
                        self.long_press_sent = true;
                        Some(ButtonState::LongPressed)
                    } else {
                        None
                    }
                },
            }
        }
    }
}

} // verus!
