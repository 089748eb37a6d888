//! The SX1276 interface variant: reset line, the two interrupt lines and the
//! optional RF switch that routes the antenna to the receiver or the
//! transmitter.

use vstd::prelude::*;

verus! {

/// lora-phy's `RadioError`, carried opaquely as the error type of
/// `InterfaceSx1276::new`, which is what lora-phy's drivers expect.
#[verifier::external_type_specification]
#[verifier::external_body]
pub struct ExRadioError(lora_phy::mod_params::RadioError);

/// Time the chip is held in reset, and given after release, in milliseconds.
pub const RESET_SETTLE_MS: u32 = 10;

/// How long one interrupt wait lasts before the caller re-checks, in milliseconds.
pub const IRQ_WAIT_TIMEOUT_MS: u64 = 100;

/// The writes made on a line, oldest first: the level asked for (`true` for
/// high) and whether driving the line to it succeeded.
pub type WriteLog = Seq<(bool, bool)>;

/// A digital output line as the driver uses it.
pub trait OutputLine {
    /// Every write made on the line so far. A specification item: it is
    /// never called when the program runs.
    spec fn writes(&self) -> WriteLog;

    /// Drives the line to `high`; reports whether that succeeded.
    fn set_level(&mut self, high: bool) -> (ok: bool)
        ensures
            final(self).writes() == old(self).writes().push((high, ok)),
    ;
}

/// The writes made on an optional line (none when it is absent).
pub open spec fn line_log<CTRL: OutputLine>(line: Option<CTRL>) -> Seq<(bool, bool)> {
    match line {
        Some(l) => l.writes(),
        None => Seq::empty(),
    }
}

/// Whether the writes of `log` after its first `from` leave the line high: a
/// line is low until a write succeeds, and a failed write leaves it as it was.
pub open spec fn driven_high(log: Seq<(bool, bool)>, from: int) -> bool
    decreases log.len(),
{
    if log.len() <= from || log.len() == 0 {
        false
    } else if log.last().1 {
        log.last().0
    } else {
        driven_high(log.drop_last(), from)
    }
}

/// What an operation did to one optional line: it is still there or still
/// absent, and, when it is wired and `reached`, it got exactly one more write,
/// of level `high`; otherwise it was not written.
pub open spec fn line_part<CTRL: OutputLine>(
    before: Option<CTRL>,
    after: Option<CTRL>,
    high: bool,
    reached: bool,
) -> bool {
    &&& (after is Some <==> before is Some)
    &&& if reached && before is Some {
        &&& line_log(after).len() == line_log(before).len() + 1
        &&& line_log(after).drop_last() == line_log(before)
        &&& line_log(after).last().0 == high
    } else {
        after == before
    }
}

/// Whether a line's part of an operation succeeded: its last write did, or
/// it is absent.
pub open spec fn line_ok<CTRL: OutputLine>(line: Option<CTRL>) -> bool {
    line is None || line_log(line).last().1
}

proof fn lemma_driven_after_write(log: Seq<(bool, bool)>, from: int, w: (bool, bool))
    requires
        0 <= from <= log.len(),
    ensures
        driven_high(log.push(w), from) == if w.1 {
            w.0
        } else {
            driven_high(log, from)
        },
{
    assert(log.push(w).drop_last() =~= log);
}

/// Which pin operation failed.
#[derive(Clone, Copy, Debug, PartialEq, Eq, Structural)]
pub enum RadioInterfaceError {
    Reset,
    RfSwitchRx,
    RfSwitchTx,
    Irq,
}

/// How one bounded wait on the two interrupt lines ended.
#[derive(Clone, Copy, Debug, PartialEq, Eq, Structural)]
pub enum IrqWait {
    /// DIO0 went high first; `false` when waiting on it failed.
    Dio0(bool),
    /// DIO1 went high first; `false` when waiting on it failed.
    Dio1(bool),
    /// Neither line went high within `IRQ_WAIT_TIMEOUT_MS`.
    TimedOut,
}

/// Drives `line`, if wired, to `high`; reports whether that succeeded (an
/// absent line needs nothing and succeeds).
fn drive_line<CTRL: OutputLine>(line: Option<CTRL>, high: bool) -> (r: (Option<CTRL>, bool))
    ensures
        line_part(line, r.0, high, true),
        r.1 == line_ok(r.0),
{
    match line {
        Some(mut l) => {
            let ok = l.set_level(high);
            proof {
                assert(l.writes().drop_last() =~= line_log(line));
            }
            (Some(l), ok)
        },
        None => (None, true),
    }
}

/// The two lines of the RF switch, each optional. Both are taken to be low
/// when the switch is made; their levels afterwards follow from the writes
/// made on them since.
pub struct RfSwitch<CTRL: OutputLine> {
    rx: Option<CTRL>,
    tx: Option<CTRL>,
    rx_from: Ghost<int>,
    tx_from: Ghost<int>,
}

impl<CTRL: OutputLine> RfSwitch<CTRL> {
    #[verifier::type_invariant]
    spec fn one_direction(&self) -> bool {
        &&& 0 <= self.rx_from@ <= line_log(self.rx).len()
        &&& 0 <= self.tx_from@ <= line_log(self.tx).len()
        &&& !(driven_high(line_log(self.rx), self.rx_from@) && driven_high(
            line_log(self.tx),
            self.tx_from@,
        ))
    }

    /// The receive-path line.
    pub closed spec fn rx_line(&self) -> Option<CTRL> {
        self.rx
    }

    /// The transmit-path line.
    pub closed spec fn tx_line(&self) -> Option<CTRL> {
        self.tx
    }

    /// Whether the receive-path line is high.
    pub closed spec fn rx_asserted(&self) -> bool {
        driven_high(line_log(self.rx), self.rx_from@)
    }

    /// Whether the transmit-path line is high.
    pub closed spec fn tx_asserted(&self) -> bool {
        driven_high(line_log(self.tx), self.tx_from@)
    }

    /// Whether a receive-path line is wired.
    pub open spec fn has_rx(&self) -> bool {
        self.rx_line() is Some
    }

    /// Whether a transmit-path line is wired.
    pub open spec fn has_tx(&self) -> bool {
        self.tx_line() is Some
    }

    /// At most one direction is high, and a line that is not wired is never
    /// high. This holds of every value of the type.
    pub open spec fn exclusive(&self) -> bool {
        &&& !(self.rx_asserted() && self.tx_asserted())
        &&& (!self.has_rx() ==> !self.rx_asserted())
        &&& (!self.has_tx() ==> !self.tx_asserted())
    }

    /// A switch over the given lines, both taken to be low.
    pub fn new(rx: Option<CTRL>, tx: Option<CTRL>) -> (r: Self)
        ensures
            r.rx_line() == rx,
            r.tx_line() == tx,
            !r.rx_asserted(),
            !r.tx_asserted(),
    {
        let ghost rf = line_log(rx).len() as int;
        let ghost tf = line_log(tx).len() as int;
        RfSwitch { rx, tx, rx_from: Ghost(rf), tx_from: Ghost(tf) }
    }

    /// Routes the antenna to the receiver: the transmit line is driven low
    /// first, and the receive line is driven high only if that succeeded.
    /// A line that is not wired is skipped.
    pub fn enable_rx(&mut self) -> (r: Result<(), RadioInterfaceError>)
        ensures
            line_part(old(self).tx_line(), final(self).tx_line(), false, true),
            line_part(
                old(self).rx_line(),
                final(self).rx_line(),
                true,
                line_ok(final(self).tx_line()),
            ),
            !line_ok(final(self).tx_line()) ==> r == Err::<(), RadioInterfaceError>(
                RadioInterfaceError::RfSwitchTx,
            ),
            line_ok(final(self).tx_line()) ==> (r is Ok <==> line_ok(final(self).rx_line())),
            line_ok(final(self).tx_line()) && r is Err ==> r == Err::<(), RadioInterfaceError>(
                RadioInterfaceError::RfSwitchRx,
            ),
            final(self).exclusive(),
            r is Ok ==> !final(self).tx_asserted() && final(self).rx_asserted() == old(
                self,
            ).has_rx(),
    {
        proof {
            use_type_invariant(&*self);
        }
        let mut cur = RfSwitch::new(None, None);
        std::mem::swap(self, &mut cur);
        let RfSwitch { rx, tx, rx_from, tx_from } = cur;
        let ghost (rx0, tx0) = (rx, tx);
        let (tx, t) = drive_line(tx, false);
        proof {
            if tx0 is Some {
                assert(line_log(tx) =~= line_log(tx0).push((false, t)));
                lemma_driven_after_write(line_log(tx0), tx_from@, (false, t));
            }
        }
        if !t {
            *self = RfSwitch { rx, tx, rx_from, tx_from };
            proof {
                use_type_invariant(&*self);
            }
            return Err(RadioInterfaceError::RfSwitchTx);
        }
        let (rx, x) = drive_line(rx, true);
        proof {
            if rx0 is Some {
                assert(line_log(rx) =~= line_log(rx0).push((true, x)));
                lemma_driven_after_write(line_log(rx0), rx_from@, (true, x));
            }
        }
        *self = RfSwitch { rx, tx, rx_from, tx_from };
        proof {
            use_type_invariant(&*self);
        }
        if x {
            Ok(())
        } else {
            Err(RadioInterfaceError::RfSwitchRx)
        }
    }

    /// Routes the antenna to the transmitter: the receive line is driven low
    /// first, and the transmit line is driven high only if that succeeded.
    /// A line that is not wired is skipped.
    pub fn enable_tx(&mut self) -> (r: Result<(), RadioInterfaceError>)
        ensures
            line_part(old(self).rx_line(), final(self).rx_line(), false, true),
            line_part(
                old(self).tx_line(),
                final(self).tx_line(),
                true,
                line_ok(final(self).rx_line()),
            ),
            !line_ok(final(self).rx_line()) ==> r == Err::<(), RadioInterfaceError>(
                RadioInterfaceError::RfSwitchRx,
            ),
            line_ok(final(self).rx_line()) ==> (r is Ok <==> line_ok(final(self).tx_line())),
            line_ok(final(self).rx_line()) && r is Err ==> r == Err::<(), RadioInterfaceError>(
                RadioInterfaceError::RfSwitchTx,
            ),
            final(self).exclusive(),
            r is Ok ==> !final(self).rx_asserted() && final(self).tx_asserted() == old(
                self,
            ).has_tx(),
    {
        proof {
            use_type_invariant(&*self);
        }
        let mut cur = RfSwitch::new(None, None);
        std::mem::swap(self, &mut cur);
        let RfSwitch { rx, tx, rx_from, tx_from } = cur;
        let ghost (rx0, tx0) = (rx, tx);
        let (rx, x) = drive_line(rx, false);
        proof {
            if rx0 is Some {
                assert(line_log(rx) =~= line_log(rx0).push((false, x)));
                lemma_driven_after_write(line_log(rx0), rx_from@, (false, x));
            }
        }
        if !x {
            *self = RfSwitch { rx, tx, rx_from, tx_from };
            proof {
                use_type_invariant(&*self);
            }
            return Err(RadioInterfaceError::RfSwitchRx);
        }
        let (tx, t) = drive_line(tx, true);
        proof {
            if tx0 is Some {
                assert(line_log(tx) =~= line_log(tx0).push((true, t)));
                lemma_driven_after_write(line_log(tx0), tx_from@, (true, t));
            }
        }
        *self = RfSwitch { rx, tx, rx_from, tx_from };
        proof {
            use_type_invariant(&*self);
        }
        if t {
            Ok(())
        } else {
            Err(RadioInterfaceError::RfSwitchTx)
        }
    }

    /// Drives both lines low (idle, low power): receive first, then
    /// transmit only if that succeeded. A line that is not wired is skipped.
    pub fn disable(&mut self) -> (r: Result<(), RadioInterfaceError>)
        ensures
            line_part(old(self).rx_line(), final(self).rx_line(), false, true),
            line_part(
                old(self).tx_line(),
                final(self).tx_line(),
                false,
                line_ok(final(self).rx_line()),
            ),
            !line_ok(final(self).rx_line()) ==> r == Err::<(), RadioInterfaceError>(
                RadioInterfaceError::RfSwitchRx,
            ),
            line_ok(final(self).rx_line()) ==> (r is Ok <==> line_ok(final(self).tx_line())),
            line_ok(final(self).rx_line()) && r is Err ==> r == Err::<(), RadioInterfaceError>(
                RadioInterfaceError::RfSwitchTx,
            ),
            final(self).exclusive(),
            r is Ok ==> !final(self).rx_asserted() && !final(self).tx_asserted(),
    {
        proof {
            use_type_invariant(&*self);
        }
        let mut cur = RfSwitch::new(None, None);
        std::mem::swap(self, &mut cur);
        let RfSwitch { rx, tx, rx_from, tx_from } = cur;
        let ghost (rx0, tx0) = (rx, tx);
        let (rx, x) = drive_line(rx, false);
        proof {
            if rx0 is Some {
                assert(line_log(rx) =~= line_log(rx0).push((false, x)));
                lemma_driven_after_write(line_log(rx0), rx_from@, (false, x));
            }
        }
        if !x {
            *self = RfSwitch { rx, tx, rx_from, tx_from };
            proof {
                use_type_invariant(&*self);
            }
            return Err(RadioInterfaceError::RfSwitchRx);
        }
        let (tx, t) = drive_line(tx, false);
        proof {
            if tx0 is Some {
                assert(line_log(tx) =~= line_log(tx0).push((false, t)));
                lemma_driven_after_write(line_log(tx0), tx_from@, (false, t));
            }
        }
        *self = RfSwitch { rx, tx, rx_from, tx_from };
        proof {
            use_type_invariant(&*self);
        }
        if t {
            Ok(())
        } else {
            Err(RadioInterfaceError::RfSwitchTx)
        }
    }
}

/// The result of one bounded interrupt wait. A timeout is no error: it means
/// no interrupt yet, and the caller waits again. Only a failing line wait is.
pub fn irq_result(w: IrqWait) -> (r: Result<(), RadioInterfaceError>)
    ensures
        r is Err <==> (w == IrqWait::Dio0(false) || w == IrqWait::Dio1(false)),
        r is Err ==> r == Err::<(), RadioInterfaceError>(RadioInterfaceError::Irq),
{
    match w {
        IrqWait::Dio0(ok) => if ok {
            Ok(())
        } else {
            Err(RadioInterfaceError::Irq)
        },
        IrqWait::Dio1(ok) => if ok {
            Ok(())
        } else {
            Err(RadioInterfaceError::Irq)
        },
        IrqWait::TimedOut => Ok(()),
    }
}

/// SX1276 interface with RX/TX switching.
pub struct InterfaceSx1276<CTRL: OutputLine, WAIT> {
    dio0: WAIT,
    dio1: WAIT,
    reset: CTRL,
    rf_switch: RfSwitch<CTRL>,
}

impl<CTRL: OutputLine, WAIT> InterfaceSx1276<CTRL, WAIT> {
    /// The DIO0 interrupt line.
    pub closed spec fn dio0(&self) -> WAIT {
        self.dio0
    }

    /// The DIO1 interrupt line.
    pub closed spec fn dio1(&self) -> WAIT {
        self.dio1
    }

    /// The reset line.
    pub closed spec fn reset_line(&self) -> CTRL {
        self.reset
    }

    /// The RF switch and its lines.
    pub closed spec fn switch(&self) -> RfSwitch<CTRL> {
        self.rf_switch
    }

    /// Create a new SX1276 interface over the given lines; no line is
    /// written. The switch lines are taken to be low.
    pub fn new(
        dio0: WAIT,
        dio1: WAIT,
        reset: CTRL,
        rf_switch_rx: Option<CTRL>,
        rf_switch_tx: Option<CTRL>,
    ) -> (r: Result<Self, lora_phy::mod_params::RadioError>)
        ensures
            r is Ok,
            r matches Ok(iv) ==> {
                &&& iv.dio0() == dio0
                &&& iv.dio1() == dio1
                &&& iv.reset_line() == reset
                &&& iv.switch().rx_line() == rf_switch_rx
                &&& iv.switch().tx_line() == rf_switch_tx
                &&& !iv.switch().rx_asserted()
                &&& !iv.switch().tx_asserted()
            },
    {
        Ok(
            InterfaceSx1276 {
                dio0,
                dio1,
                reset,
                rf_switch: RfSwitch::new(rf_switch_rx, rf_switch_tx),
            },
        )
    }

    /// The two interrupt lines, DIO0 and DIO1, for the caller to wait on.
    pub fn irq_lines(&mut self) -> (r: (&mut WAIT, &mut WAIT))
        ensures
            *r.0 == old(self).dio0(),
            *r.1 == old(self).dio1(),
            final(self).dio0() == *final(r.0),
            final(self).dio1() == *final(r.1),
            final(self).reset_line() == old(self).reset_line(),
            final(self).switch() == old(self).switch(),
    {
        (&mut self.dio0, &mut self.dio1)
    }

    /// This chip has no busy line: there is never anything to wait for.
    pub fn wait_on_busy(&mut self) -> (r: Result<(), RadioInterfaceError>)
        ensures
            r is Ok,
            *final(self) == *old(self),
    {
        Ok(())
    }

    /// Drives the reset line to `high`; the chip is reset by driving it low,
    /// waiting `RESET_SETTLE_MS`, driving it high and waiting again, stopping
    /// at the first failure.
    pub fn set_reset_line(&mut self, high: bool) -> (r: Result<(), RadioInterfaceError>)
        ensures
            final(self).reset_line().writes() == old(self).reset_line().writes().push(
                (high, r is Ok),
            ),
            r is Err ==> r == Err::<(), RadioInterfaceError>(RadioInterfaceError::Reset),
            final(self).switch() == old(self).switch(),
            final(self).dio0() == old(self).dio0(),
            final(self).dio1() == old(self).dio1(),
    {
        if self.reset.set_level(high) {
            Ok(())
        } else {
            Err(RadioInterfaceError::Reset)
        }
    }

    /// Routes the antenna to the receiver: see `RfSwitch::enable_rx`.
    pub fn enable_rf_switch_rx(&mut self) -> (r: Result<(), RadioInterfaceError>)
        ensures
            ({
                let (o, f) = (old(self).switch(), final(self).switch());
                &&& line_part(o.tx_line(), f.tx_line(), false, true)
                &&& line_part(o.rx_line(), f.rx_line(), true, line_ok(f.tx_line()))
                &&& !line_ok(f.tx_line()) ==> r == Err::<(), RadioInterfaceError>(
                    RadioInterfaceError::RfSwitchTx,
                )
                &&& line_ok(f.tx_line()) ==> (r is Ok <==> line_ok(f.rx_line()))
                &&& line_ok(f.tx_line()) && r is Err ==> r == Err::<(), RadioInterfaceError>(
                    RadioInterfaceError::RfSwitchRx,
                )
                &&& f.exclusive()
                &&& r is Ok ==> !f.tx_asserted() && f.rx_asserted() == o.has_rx()
            }),
            final(self).reset_line() == old(self).reset_line(),
            final(self).dio0() == old(self).dio0(),
            final(self).dio1() == old(self).dio1(),
    {
        self.rf_switch.enable_rx()
    }

    /// Routes the antenna to the transmitter: see `RfSwitch::enable_tx`.
    pub fn enable_rf_switch_tx(&mut self) -> (r: Result<(), RadioInterfaceError>)
        ensures
            ({
                let (o, f) = (old(self).switch(), final(self).switch());
                &&& line_part(o.rx_line(), f.rx_line(), false, true)
                &&& line_part(o.tx_line(), f.tx_line(), true, line_ok(f.rx_line()))
                &&& !line_ok(f.rx_line()) ==> r == Err::<(), RadioInterfaceError>(
                    RadioInterfaceError::RfSwitchRx,
                )
                &&& line_ok(f.rx_line()) ==> (r is Ok <==> line_ok(f.tx_line()))
                &&& line_ok(f.rx_line()) && r is Err ==> r == Err::<(), RadioInterfaceError>(
                    RadioInterfaceError::RfSwitchTx,
                )
                &&& f.exclusive()
                &&& r is Ok ==> !f.rx_asserted() && f.tx_asserted() == o.has_tx()
            }),
            final(self).reset_line() == old(self).reset_line(),
            final(self).dio0() == old(self).dio0(),
            final(self).dio1() == old(self).dio1(),
    {
        self.rf_switch.enable_tx()
    }

    /// Drives both switch lines low: see `RfSwitch::disable`.
    pub fn disable_rf_switch(&mut self) -> (r: Result<(), RadioInterfaceError>)
        ensures
            ({
                let (o, f) = (old(self).switch(), final(self).switch());
                &&& line_part(o.rx_line(), f.rx_line(), false, true)
                &&& line_part(o.tx_line(), f.tx_line(), false, line_ok(f.rx_line()))
                &&& !line_ok(f.rx_line()) ==> r == Err::<(), RadioInterfaceError>(
                    RadioInterfaceError::RfSwitchRx,
                )
                &&& line_ok(f.rx_line()) ==> (r is Ok <==> line_ok(f.tx_line()))
                &&& line_ok(f.rx_line()) && r is Err ==> r == Err::<(), RadioInterfaceError>(
                    RadioInterfaceError::RfSwitchTx,
                )
                &&& f.exclusive()
                &&& r is Ok ==> !f.rx_asserted() && !f.tx_asserted()
            }),
            final(self).reset_line() == old(self).reset_line(),
            final(self).dio0() == old(self).dio0(),
            final(self).dio1() == old(self).dio1(),
    {
        self.rf_switch.disable()
    }
}

} // verus!
