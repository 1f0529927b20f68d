use aaronia_rtsa::{Device, DeviceInfo, DeviceState, DeviceStatus, Error};

fn fresh_device() -> Device {
    Device::new(&DeviceInfo::new())
}

#[test]
fn full_tour_follows_the_table() {
    let mut d = fresh_device();
    assert_eq!(d.status, DeviceStatus::Uninit);
    assert_eq!(d.open(0), Ok(()));
    assert_eq!(d.status, DeviceStatus::Opened);
    assert_eq!(d.connect(0), Ok(()));
    assert_eq!(d.status, DeviceStatus::Connected);
    assert_eq!(d.start(0), Ok(()));
    assert_eq!(d.status, DeviceStatus::Started);
    assert_eq!(d.stop(0), Ok(()));
    assert_eq!(d.status, DeviceStatus::Connected);
    assert_eq!(d.disconnect(0), Ok(()));
    assert_eq!(d.status, DeviceStatus::Opened);
    assert_eq!(d.close(0), Ok(()));
    assert_eq!(d.status, DeviceStatus::Uninit);
}

#[test]
fn failing_transition_keeps_the_state() {
    let mut d = fresh_device();
    assert_eq!(d.open(0x80000003), Err(Error::ErrorBusy));
    assert_eq!(d.status, DeviceStatus::Uninit);
    assert_eq!(d.open(0), Ok(()));
    assert_eq!(d.connect(0x80000005), Err(Error::ErrorNotConnected));
    assert_eq!(d.status, DeviceStatus::Opened);
}

#[test]
fn unwind_from_started_reaches_uninit() {
    let mut d = fresh_device();
    d.open(0).unwrap();
    d.connect(0).unwrap();
    d.start(0).unwrap();
    d.unwind(0, 0, 0);
    assert_eq!(d.status, DeviceStatus::Uninit);
}

#[test]
fn unwind_swallows_a_failing_substep() {
    // A failing stop halts the chain; the caller still observes no error.
    let mut d = fresh_device();
    d.open(0).unwrap();
    d.connect(0).unwrap();
    d.start(0).unwrap();
    d.unwind(0x80000000, 0, 0);
    assert_eq!(d.status, DeviceStatus::Started);

    // A failing close after a good stop and disconnect.
    let mut d2 = fresh_device();
    d2.open(0).unwrap();
    d2.connect(0).unwrap();
    d2.start(0).unwrap();
    d2.unwind(0, 0, 0x80000004);
    assert_eq!(d2.status, DeviceStatus::Opened);
}

#[test]
fn unwind_from_each_state() {
    let mut a = fresh_device();
    a.unwind(0, 0, 0);
    assert_eq!(a.status, DeviceStatus::Uninit);

    let mut b = fresh_device();
    b.open(0).unwrap();
    b.unwind(0, 0, 0);
    assert_eq!(b.status, DeviceStatus::Uninit);

    let mut c = fresh_device();
    c.open(0).unwrap();
    c.connect(0).unwrap();
    c.unwind(0, 0, 0);
    assert_eq!(c.status, DeviceStatus::Uninit);
}

#[test]
fn state_query_reports_through_the_error_channel() {
    assert_eq!(aaronia_rtsa::lifecycle::state_of_code(0x10000000), Ok(DeviceState::Idle));
    assert_eq!(aaronia_rtsa::lifecycle::state_of_code(0x10000004), Ok(DeviceState::Running));
    assert_eq!(
        aaronia_rtsa::lifecycle::state_of_code(0x10000006),
        Ok(DeviceState::Disconnecting)
    );
    // A plain success from the state query is itself anomalous.
    assert_eq!(aaronia_rtsa::lifecycle::state_of_code(0), Err(Error::Error));
    // A non-state error passes through.
    assert_eq!(
        aaronia_rtsa::lifecycle::state_of_code(0x80000002),
        Err(Error::ErrorNotFound)
    );
}

#[test]
fn error_to_state_conversion() {
    assert_eq!(Error::Running.try_into_state(), Ok(DeviceState::Running));
    assert_eq!(Error::Stopping.try_into_state(), Ok(DeviceState::Stopping));
    assert_eq!(Error::Empty.try_into_state(), Err(Error::Empty));
    assert_eq!(Error::ErrorBusy.try_into_state(), Err(Error::ErrorBusy));
}
