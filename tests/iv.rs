use fieldnode::iv::{
    irq_result, InterfaceSx1276, IrqWait, OutputLine, RadioInterfaceError, RfSwitch, WriteLog,
};
use std::cell::Cell;
use std::rc::Rc;

#[derive(Clone)]
struct TestLine {
    level: Rc<Cell<bool>>,
    failing: Rc<Cell<bool>>,
    writes: Rc<Cell<u32>>,
}

impl TestLine {
    fn new() -> Self {
        TestLine {
            level: Rc::new(Cell::new(false)),
            failing: Rc::new(Cell::new(false)),
            writes: Rc::new(Cell::new(0)),
        }
    }
}

impl OutputLine for TestLine {
    fn writes(&self) -> WriteLog {
        unreachable!()
    }

    fn set_level(&mut self, high: bool) -> bool {
        self.writes.set(self.writes.get() + 1);
        if self.failing.get() {
            return false;
        }
        self.level.set(high);
        true
    }
}

fn wired() -> (InterfaceSx1276<TestLine, ()>, TestLine, TestLine, TestLine) {
    let (reset, rx, tx) = (TestLine::new(), TestLine::new(), TestLine::new());
    let iv = InterfaceSx1276::new((), (), reset.clone(), Some(rx.clone()), Some(tx.clone())).unwrap();
    (iv, reset, rx, tx)
}

#[test]
fn switch_directions_are_exclusive() {
    let (mut iv, _reset, rx, tx) = wired();
    assert_eq!(iv.enable_rf_switch_rx(), Ok(()));
    assert!(rx.level.get() && !tx.level.get());
    assert_eq!(iv.enable_rf_switch_tx(), Ok(()));
    assert!(!rx.level.get() && tx.level.get());
    assert_eq!(iv.enable_rf_switch_rx(), Ok(()));
    assert!(rx.level.get() && !tx.level.get());
    assert_eq!(iv.disable_rf_switch(), Ok(()));
    assert!(!rx.level.get() && !tx.level.get());
}

#[test]
fn failed_deassert_keeps_other_line_low() {
    let (mut iv, _reset, rx, tx) = wired();
    assert_eq!(iv.enable_rf_switch_tx(), Ok(()));
    tx.failing.set(true);
    let writes_to_rx = rx.writes.get();
    assert_eq!(iv.enable_rf_switch_rx(), Err(RadioInterfaceError::RfSwitchTx));
    assert_eq!(rx.writes.get(), writes_to_rx);
    assert!(!rx.level.get());
}

#[test]
fn failed_rx_line_reports_rf_switch_rx() {
    let (mut iv, _reset, rx, _tx) = wired();
    rx.failing.set(true);
    assert_eq!(iv.enable_rf_switch_tx(), Err(RadioInterfaceError::RfSwitchRx));
    assert_eq!(iv.disable_rf_switch(), Err(RadioInterfaceError::RfSwitchRx));
}

#[test]
fn absent_switch_lines_are_no_ops() {
    let reset = TestLine::new();
    let mut iv: InterfaceSx1276<TestLine, ()> =
        InterfaceSx1276::new((), (), reset.clone(), None, None).unwrap();
    assert_eq!(iv.enable_rf_switch_rx(), Ok(()));
    assert_eq!(iv.enable_rf_switch_tx(), Ok(()));
    assert_eq!(iv.disable_rf_switch(), Ok(()));
    assert_eq!(reset.writes.get(), 0);
}

#[test]
fn reset_line_failure_is_reset_error() {
    let (mut iv, reset, _rx, _tx) = wired();
    assert_eq!(iv.set_reset_line(false), Ok(()));
    assert!(!reset.level.get());
    assert_eq!(iv.set_reset_line(true), Ok(()));
    assert!(reset.level.get());
    reset.failing.set(true);
    assert_eq!(iv.set_reset_line(false), Err(RadioInterfaceError::Reset));
}

#[test]
fn busy_wait_always_succeeds() {
    let (mut iv, _reset, _rx, _tx) = wired();
    assert_eq!(iv.wait_on_busy(), Ok(()));
}

#[test]
fn irq_timeout_is_not_an_error() {
    assert_eq!(irq_result(IrqWait::TimedOut), Ok(()));
    assert_eq!(irq_result(IrqWait::Dio0(true)), Ok(()));
    assert_eq!(irq_result(IrqWait::Dio1(true)), Ok(()));
    assert_eq!(irq_result(IrqWait::Dio0(false)), Err(RadioInterfaceError::Irq));
    assert_eq!(irq_result(IrqWait::Dio1(false)), Err(RadioInterfaceError::Irq));
}

#[test]
fn irq_lines_are_handed_out() {
    let rx = TestLine::new();
    let mut iv: InterfaceSx1276<TestLine, u8> =
        InterfaceSx1276::new(4, 9, TestLine::new(), Some(rx), None).unwrap();
    let (d0, d1) = iv.irq_lines();
    assert_eq!((*d0, *d1), (4, 9));
}

#[test]
fn switch_alone_alternates_directions() {
    let (rx, tx) = (TestLine::new(), TestLine::new());
    let mut sw = RfSwitch::new(Some(rx.clone()), Some(tx.clone()));
    for _ in 0..3 {
        assert_eq!(sw.enable_tx(), Ok(()));
        assert!(tx.level.get() && !rx.level.get());
        assert_eq!(sw.enable_rx(), Ok(()));
        assert!(rx.level.get() && !tx.level.get());
    }
    assert_eq!(sw.disable(), Ok(()));
    assert!(!rx.level.get() && !tx.level.get());
}
