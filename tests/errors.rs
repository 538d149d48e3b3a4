use cansat::errors::{BMEError, Bme280Fault, DisplayError, ErrorChain, ErrorKind, MpuError, TerminalFault};

#[test]
fn every_sensor_fault_has_its_kind() {
    let table = [
        (Bme280Fault::CompensationFailed, BMEError::DataErr),
        (Bme280Fault::Bus, BMEError::InterfaceError),
        (Bme280Fault::InvalidData, BMEError::DataErr),
        (Bme280Fault::NoCalibrationData, BMEError::InitialisationError),
        (Bme280Fault::UnsupportedChip, BMEError::InitialisationError),
        (Bme280Fault::Delay, BMEError::DelayError),
    ];
    for (fault, kind) in table {
        assert_eq!(BMEError::from(fault), kind);
    }
}

#[test]
fn every_terminal_fault_has_its_kind() {
    assert_eq!(DisplayError::from(TerminalFault::InterfaceError), DisplayError::InterfaceError);
    assert_eq!(DisplayError::from(TerminalFault::Uninitialized), DisplayError::Uninitialised);
    assert_eq!(DisplayError::from(TerminalFault::OutOfBounds), DisplayError::OutOfBounds);
    assert_eq!(DisplayError::from(core::fmt::Error), DisplayError::FormatError);
}

#[test]
fn chaining_puts_added_kind_outermost() {
    let a = ErrorKind::Mpu(MpuError::ReadoutFailed);
    let b = ErrorKind::Display(DisplayError::ClearError);
    let e = ErrorChain::new(a).chain(b);
    assert_eq!(e.kinds(), vec![b, a]);
    assert_eq!(e.outermost(), b);
    assert_eq!(e.origin(), a);
}

#[test]
fn chaining_twice_keeps_every_kind_in_order() {
    let a = ErrorKind::Bme(BMEError::InterfaceError);
    let b = ErrorKind::Bme(BMEError::TimeoutError);
    let c = ErrorKind::Cansat(cansat::errors::CansatError::I2C);
    let e = ErrorChain::new(a).chain(b).chain(c);
    assert_eq!(e.kinds(), vec![c, b, a]);
}

#[test]
fn extending_appends_the_whole_cause() {
    let w = ErrorKind::Display(DisplayError::WriteError);
    let i = ErrorKind::Display(DisplayError::InterfaceError);
    let c = ErrorKind::Display(DisplayError::ClearError);
    let cause = ErrorChain::new(i).chain(c);
    let e = ErrorChain::new(w).extend(&cause);
    assert_eq!(e.kinds(), vec![w, c, i]);
    assert_eq!(cause.kinds(), vec![c, i]);
}
