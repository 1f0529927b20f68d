use aaronia_rtsa::discovery::{collect_devices, first_device, rescan_outcome};
use aaronia_rtsa::{DeviceInfo, EnumResponse, Error};

fn wide(s: &str) -> Vec<u32> {
    s.chars().map(|c| c as u32).collect()
}

fn found(serial: &str) -> EnumResponse {
    EnumResponse {
        code: 0,
        info: DeviceInfo {
            serial_raw: wide(serial),
            ready: true,
            boost: false,
            superspeed: true,
            active: false,
        },
    }
}

fn status(code: u32) -> EnumResponse {
    EnumResponse { code, info: DeviceInfo::new() }
}

#[test]
fn enumeration_collects_until_empty() {
    let responses = vec![found("one"), found("two"), status(1)];
    let devs = collect_devices(&responses).unwrap();
    assert_eq!(devs.len(), 2);
    assert_eq!(devs[0].serial(), "one");
    assert_eq!(devs[1].serial(), "two");
}

#[test]
fn enumeration_with_no_device_terminates_at_once() {
    let responses = vec![status(1)];
    let devs = collect_devices(&responses).unwrap();
    assert!(devs.is_empty());
}

#[test]
fn enumeration_surfaces_other_errors() {
    let responses = vec![found("one"), status(0x80000000)];
    assert_eq!(collect_devices(&responses), Err(Error::Error));
}

#[test]
fn rescan_retries_until_a_final_answer() {
    assert_eq!(rescan_outcome(&vec![2, 2, 2, 0]), Ok(()));
    assert_eq!(rescan_outcome(&vec![0]), Ok(()));
    assert_eq!(rescan_outcome(&vec![2, 0x80000003]), Err(Error::ErrorBusy));
}

#[test]
fn first_device_picks_the_head_or_reports_empty() {
    assert_eq!(first_device(&Vec::new()), Err(Error::Empty));
    let devs = vec![
        DeviceInfo { serial_raw: wide("head"), ready: true, boost: true, superspeed: false, active: true },
        DeviceInfo { serial_raw: wide("tail"), ready: false, boost: false, superspeed: false, active: false },
    ];
    let d = first_device(&devs).unwrap();
    assert_eq!(d.serial(), "head");
    assert!(d.ready() && d.boost() && !d.superspeed() && d.active());
}

#[test]
fn serial_decodes_and_truncates_at_the_first_nul() {
    let mut raw = wide("ABC");
    raw.extend([0u32; 5]);
    let info = DeviceInfo { serial_raw: raw, ready: false, boost: false, superspeed: false, active: false };
    assert_eq!(info.serial(), "ABC");

    let info2 = DeviceInfo {
        serial_raw: vec![65, 0, 66],
        ready: false,
        boost: false,
        superspeed: false,
        active: false,
    };
    assert_eq!(info2.serial(), "A");
}

// `collect_devices` is required to hand descriptors through unchanged; a
// response list whose only success carries specific flags must come back
// with exactly those flags.
#[test]
fn enumeration_preserves_descriptor_contents() {
    let responses = vec![
        EnumResponse {
            code: 0,
            info: DeviceInfo {
                serial_raw: wide("flags"),
                ready: false,
                boost: true,
                superspeed: false,
                active: true,
            },
        },
        status(1),
    ];
    let devs = collect_devices(&responses).unwrap();
    assert_eq!(devs.len(), 1);
    assert!(!devs[0].ready() && devs[0].boost());
    assert!(!devs[0].superspeed() && devs[0].active());
}
