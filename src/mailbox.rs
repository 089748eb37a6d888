//! A single-slot, latest-wins channel between tasks.
//!
//! The slot changes only through `&mut self`, so each call's effect on it is
//! stated over its value before and after. A channel that changes behind a
//! shared reference (as embassy-sync's `Signal` does) has no such before and
//! after for a contract to relate; tasks share a `Mailbox` through a lock.

use vstd::prelude::*;

verus! {

/// Holds at most one pending value. Publishing never blocks and overwrites an
/// unread value; taking empties the slot.
pub struct Mailbox<T> {
    slot: Option<T>,
}

impl<T> View for Mailbox<T> {
    type V = Option<T>;

    /// The pending value, if any.
    closed spec fn view(&self) -> Option<T> {
        self.slot
    }
}

/// The slot after `v` is published on a slot holding `m`: latest wins.
pub open spec fn mailbox_publish<T>(m: Option<T>, v: T) -> Option<T> {
    Some(v)
}

/// Taking from a slot holding `m`: what is received, and the slot afterwards.
pub open spec fn mailbox_take<T>(m: Option<T>) -> (Option<T>, Option<T>) {
    (m, None)
}

/// The slot after `values` are published, in order, on a slot holding `m`.
pub open spec fn mailbox_after_publishes<T>(m: Option<T>, values: Seq<T>) -> Option<T>
    decreases values.len(),
{
    if values.len() == 0 {
        m
    } else {
        mailbox_after_publishes(mailbox_publish(m, values[0]), values.drop_first())
    }
}

impl<T> Mailbox<T> {
    /// An empty mailbox.
    pub fn new() -> (r: Self)
        ensures
            r@ is None,
    {
        Mailbox { slot: None }
    }

    /// Stores `value`, replacing whatever was pending.
    pub fn publish(&mut self, value: T)
        ensures
            final(self)@ == mailbox_publish(old(self)@, value),
            final(self)@ == Some(value),
    {
        self.slot = Some(value);
    }

    /// Takes the pending value without waiting: `None` when nothing is pending.
    pub fn try_take(&mut self) -> (r: Option<T>)
        ensures
            (r, final(self)@) == mailbox_take(old(self)@),
            r == old(self)@,
            final(self)@ is None,
    {
        let mut taken: Option<T> = None;
        std::mem::swap(&mut taken, &mut self.slot);
        taken
    }

    /// Receives the pending value and clears the slot. A waiting task is
    /// resumed only once a value is pending, so this is called with one there.
    pub fn wait(&mut self) -> (r: T)
        requires
            old(self)@ is Some,
        ensures
            (Some(r), final(self)@) == mailbox_take(old(self)@),
            old(self)@ == Some(r),
            final(self)@ is None,
    {
        self.try_take().unwrap()
    }

    /// Whether a value is pending, that is, whether `wait` would return at once.
    pub fn has_pending(&self) -> (r: bool)
        ensures
            r == self@ is Some,
    {
        self.slot.is_some()
    }
}

/// Last write wins: after any nonempty run of publishes, a single wait
/// receives the last value published, and leaves the slot empty.
pub proof fn lemma_last_publish_wins<T>(m: Option<T>, values: Seq<T>)
    requires
        values.len() > 0,
    ensures
        mailbox_after_publishes(m, values) == Some(values.last()),
        mailbox_take(mailbox_after_publishes(m, values)) == (
            Some(values.last()),
            None::<T>,
        ),
    decreases values.len(),
{
    if values.len() > 1 {
        lemma_last_publish_wins(Some(values[0]), values.drop_first());
        assert(values.drop_first().last() == values.last());
    } else {
        assert(values.drop_first().len() == 0);
        assert(mailbox_after_publishes(Some(values[0]), values.drop_first()) == Some(values[0]));
    }
}

/// Two takes in a row after a publish: the first receives the value, the
/// second finds the slot empty.
pub proof fn lemma_take_twice<T>(m: Option<T>, v: T)
    ensures
        mailbox_take(mailbox_publish(m, v)).0 == Some(v),
        mailbox_take(mailbox_take(mailbox_publish(m, v)).1).0 is None,
{
}

} // verus!
