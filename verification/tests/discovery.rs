use hercules::{
    discovery_candidates, find_supported_sensor, looks_like_motion_sensor, supported_sensors,
    DeviceId, HidDeviceInfo, SensorError,
};

fn device(vendor_id: u16, product_id: u16, product: Option<&str>, maker: Option<&str>) -> HidDeviceInfo {
    HidDeviceInfo {
        vendor_id,
        product_id,
        product_string: product.map(str::to_string),
        manufacturer_string: maker.map(str::to_string),
    }
}

fn id(vendor_id: u16, product_id: u16) -> DeviceId {
    DeviceId { vendor_id, product_id }
}

fn table() -> Vec<DeviceId> {
    vec![
        id(0x16c0, 0x0486),
        id(0x2341, 0x8036),
        id(0x1b4f, 0x9206),
        id(0x054c, 0x09cc),
        id(0x057e, 0x2009),
    ]
}

fn all_but(open: &[DeviceId], candidates: &[DeviceId]) -> Vec<DeviceId> {
    candidates.iter().copied().filter(|c| !open.contains(c)).collect()
}

#[test]
fn supported_table_in_priority_order() {
    let sensors = supported_sensors();
    let ids: Vec<DeviceId> = sensors.iter().map(|s| s.id).collect();
    assert_eq!(ids, table());
    let names: Vec<&str> = sensors.iter().map(|s| s.description).collect();
    assert_eq!(
        names,
        vec![
            "MPU-6050",
            "Arduino Leonardo",
            "SparkFun 9DoF",
            "Sony DualShock 4",
            "Nintendo Switch Pro Controller"
        ]
    );
}

#[test]
fn nothing_attached_still_tries_the_table() {
    let devices = Vec::new();
    assert_eq!(discovery_candidates(&devices), table());
    assert_eq!(find_supported_sensor(&devices, &Vec::new()).unwrap(), id(0x16c0, 0x0486));
}

#[test]
fn first_table_entry_wins_whatever_the_enumeration_order() {
    let sony = device(0x054c, 0x09cc, Some("Wireless Controller"), Some("Sony"));
    let arduino = device(0x2341, 0x8036, Some("Arduino Leonardo"), Some("Arduino LLC"));
    let present = [id(0x054c, 0x09cc), id(0x2341, 0x8036)];
    let forward = vec![sony, arduino];
    let sony = device(0x054c, 0x09cc, Some("Wireless Controller"), Some("Sony"));
    let arduino = device(0x2341, 0x8036, Some("Arduino Leonardo"), Some("Arduino LLC"));
    let backward = vec![arduino, sony];
    for devices in [forward, backward] {
        let mut refused = Vec::new();
        let found = loop {
            let next = find_supported_sensor(&devices, &refused).unwrap();
            if present.contains(&next) {
                break next;
            }
            refused.push(next);
        };
        assert_eq!(found, id(0x2341, 0x8036));
        assert_eq!(refused, vec![id(0x16c0, 0x0486)]);
    }
}

#[test]
fn refused_table_entries_are_skipped_in_order() {
    let devices = Vec::new();
    let mut refused = Vec::new();
    for expected in table() {
        assert_eq!(find_supported_sensor(&devices, &refused).unwrap(), expected);
        refused.push(expected);
    }
    match find_supported_sensor(&devices, &refused) {
        Err(SensorError::NotFound) => {}
        other => panic!("unexpected outcome: {:?}", other),
    }
}

#[test]
fn name_search_comes_after_the_table() {
    let devices = vec![
        device(0x1111, 0x0001, Some("USB Keyboard"), Some("Acme")),
        device(0x2222, 0x0002, Some("6-axis IMU board"), Some("Acme")),
        device(0x3333, 0x0003, Some("Gyro Mouse"), None),
    ];
    let mut expected = table();
    expected.push(id(0x2222, 0x0002));
    expected.push(id(0x3333, 0x0003));
    assert_eq!(discovery_candidates(&devices), expected);
    let refused = table();
    assert_eq!(find_supported_sensor(&devices, &refused).unwrap(), id(0x2222, 0x0002));
    let open = [id(0x3333, 0x0003)];
    let refused = all_but(&open, &expected);
    assert_eq!(find_supported_sensor(&devices, &refused).unwrap(), id(0x3333, 0x0003));
}

#[test]
fn not_found_when_every_candidate_was_refused() {
    let devices = vec![device(0x2222, 0x0002, Some("Motion Tracker"), None)];
    let refused = discovery_candidates(&devices);
    match find_supported_sensor(&devices, &refused) {
        Err(SensorError::NotFound) => {}
        other => panic!("unexpected outcome: {:?}", other),
    }
}

#[test]
fn discovery_is_idempotent() {
    let devices = vec![device(0x2222, 0x0002, Some("accelerometer"), None)];
    let refused = table();
    let first = find_supported_sensor(&devices, &refused).unwrap();
    let second = find_supported_sensor(&devices, &refused).unwrap();
    assert_eq!(first, second);
    assert_eq!(first, id(0x2222, 0x0002));
}

#[test]
fn keywords_match_in_product_string() {
    for name in ["gyro", "My Gyroscope", "accel", "Accelerometer 3000", "imu", "X-IMU3", "motion", "Leap Motion"] {
        assert!(looks_like_motion_sensor(&device(1, 2, Some(name), None)), "{}", name);
    }
}

#[test]
fn keywords_match_in_manufacturer_string() {
    for name in ["GyroWorks", "ACCEL Labs", "Imu Systems", "Motion Devices Inc"] {
        assert!(looks_like_motion_sensor(&device(1, 2, Some("Sensor"), Some(name))), "{}", name);
        assert!(looks_like_motion_sensor(&device(1, 2, None, Some(name))), "{}", name);
    }
}

#[test]
fn matching_ignores_case() {
    assert!(looks_like_motion_sensor(&device(1, 2, Some("GYRO"), None)));
    assert!(looks_like_motion_sensor(&device(1, 2, Some("AcCeL"), None)));
    assert!(looks_like_motion_sensor(&device(1, 2, Some("MOTION SENSOR"), None)));
}

#[test]
fn unrelated_names_do_not_match() {
    assert!(!looks_like_motion_sensor(&device(1, 2, None, None)));
    assert!(!looks_like_motion_sensor(&device(1, 2, Some(""), Some(""))));
    assert!(!looks_like_motion_sensor(&device(1, 2, Some("USB Keyboard"), Some("Logitech"))));
    assert!(!looks_like_motion_sensor(&device(1, 2, Some("gyr o"), Some("acce l"))));
    assert!(!looks_like_motion_sensor(&device(1, 2, Some("mot"), Some("ion"))));
}

#[test]
fn device_id_of_an_enumerated_device() {
    assert_eq!(device(0xabcd, 0x1234, None, None).id(), id(0xabcd, 0x1234));
}
