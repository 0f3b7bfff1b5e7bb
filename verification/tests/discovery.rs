use yured::error::Error;
use yured::iio::discovery::{axis_from_id, discover_best_device, find_axis_channels};
use yured::iio::types::{AxisSet, ChannelInfo, DeviceInfo, DiscoveredDevice};

fn channel(id: &str, scan: bool) -> ChannelInfo {
    ChannelInfo { id: Some(id.to_string()), is_input: true, is_scan_element: scan }
}

fn sensor(prefix: &str, scan: bool) -> Vec<ChannelInfo> {
    vec![
        channel(&format!("{prefix}_x"), scan),
        channel(&format!("{prefix}_y"), scan),
        channel(&format!("{prefix}_z"), scan),
    ]
}

fn device(gyro: bool, timestamp: bool) -> DeviceInfo {
    let mut channels = sensor("accel", true);
    if gyro {
        channels.extend(sensor("anglvel", true));
    }
    let timestamp = if timestamp {
        channels.push(channel("timestamp", true));
        Some(channels.len() - 1)
    } else {
        None
    };
    DeviceInfo { is_trigger: false, is_buffer_capable: true, channels, timestamp }
}

fn chosen(devices: &Vec<DeviceInfo>) -> usize {
    discover_best_device(devices).unwrap().dev
}

#[test]
fn axis_from_id_reads_each_axis() {
    let prefixes = ["accel", "in_accel"];
    assert_eq!(axis_from_id("accel_x", &prefixes), Some(0));
    assert_eq!(axis_from_id("accel_y", &prefixes), Some(1));
    assert_eq!(axis_from_id("in_accel_z", &prefixes), Some(2));
}

#[test]
fn axis_from_id_rejects_other_ids() {
    let prefixes = ["accel", "in_accel"];
    assert_eq!(axis_from_id("anglvel_x", &prefixes), None);
    assert_eq!(axis_from_id("accel_w", &prefixes), None);
    assert_eq!(axis_from_id("accel", &prefixes), None);
    assert_eq!(axis_from_id("accel_x_raw", &prefixes), None);
    assert_eq!(axis_from_id("", &prefixes), None);
    assert_eq!(axis_from_id("accel_x", &[]), None);
}

#[test]
fn axis_from_id_first_matching_prefix_decides() {
    // "in" matches first and leaves "_accel_x", which names no axis.
    assert_eq!(axis_from_id("in_accel_x", &["in", "in_accel"]), None);
    assert_eq!(axis_from_id("in_accel_x", &["in_accel", "in"]), Some(0));
}

#[test]
fn find_axis_channels_needs_all_three_axes() {
    let mut dev = device(false, false);
    dev.channels.remove(1);
    assert_eq!(find_axis_channels(&dev, &["accel", "in_accel"]), None);
}

#[test]
fn find_axis_channels_gives_positions() {
    let dev = device(true, false);
    assert_eq!(
        find_axis_channels(&dev, &["accel", "in_accel"]),
        Some(AxisSet { x: 0, y: 1, z: 2 })
    );
    assert_eq!(
        find_axis_channels(&dev, &["anglvel", "in_anglvel"]),
        Some(AxisSet { x: 3, y: 4, z: 5 })
    );
}

#[test]
fn find_axis_channels_prefers_scan_elements() {
    let dev = DeviceInfo {
        is_trigger: false,
        is_buffer_capable: true,
        channels: vec![
            channel("accel_x", false),
            channel("accel_x", true),
            channel("accel_x", true),
            channel("accel_y", true),
            channel("accel_y", false),
            channel("accel_z", false),
            channel("accel_z", false),
        ],
        timestamp: None,
    };
    assert_eq!(
        find_axis_channels(&dev, &["accel", "in_accel"]),
        Some(AxisSet { x: 1, y: 3, z: 5 })
    );
}

#[test]
fn find_axis_channels_skips_outputs_and_nameless_channels() {
    let dev = DeviceInfo {
        is_trigger: false,
        is_buffer_capable: true,
        channels: vec![
            ChannelInfo { id: Some("accel_x".to_string()), is_input: false, is_scan_element: true },
            ChannelInfo { id: None, is_input: true, is_scan_element: true },
            channel("accel_x", true),
            channel("accel_y", true),
            channel("accel_z", true),
        ],
        timestamp: None,
    };
    assert_eq!(
        find_axis_channels(&dev, &["accel", "in_accel"]),
        Some(AxisSet { x: 2, y: 3, z: 4 })
    );
}

#[test]
fn discovery_prefers_gyro_and_timestamp_in_any_order() {
    let full = device(true, true);
    let gyro = device(true, false);
    let plain = device(false, false);
    assert_eq!(chosen(&vec![full.clone(), gyro.clone(), plain.clone()]), 0);
    assert_eq!(chosen(&vec![plain.clone(), gyro.clone(), full.clone()]), 2);
    assert_eq!(chosen(&vec![gyro.clone(), full.clone(), plain.clone()]), 1);
    assert_eq!(chosen(&vec![plain.clone(), full.clone(), gyro.clone()]), 1);
}

#[test]
fn discovery_prefers_gyro_to_accel_alone() {
    let gyro = device(true, false);
    let plain = device(false, false);
    let stamped = device(false, true);
    assert_eq!(chosen(&vec![plain.clone(), gyro.clone()]), 1);
    assert_eq!(chosen(&vec![gyro.clone(), plain.clone()]), 0);
    assert_eq!(chosen(&vec![stamped.clone(), gyro.clone()]), 1);
}

#[test]
fn discovery_keeps_the_first_among_equals() {
    let gyro = device(true, false);
    let plain = device(false, false);
    assert_eq!(chosen(&vec![plain.clone(), plain.clone()]), 0);
    assert_eq!(chosen(&vec![plain.clone(), gyro.clone(), gyro.clone()]), 1);
}

#[test]
fn discovery_is_stable() {
    let devices = vec![device(false, false), device(true, false), device(true, true)];
    let first = discover_best_device(&devices);
    let second = discover_best_device(&devices);
    assert_eq!(first, second);
}

#[test]
fn discovery_returns_the_channels() {
    let devices = vec![device(true, true)];
    assert_eq!(
        discover_best_device(&devices),
        Ok(DiscoveredDevice {
            dev: 0,
            accel: AxisSet { x: 0, y: 1, z: 2 },
            gyro: Some(AxisSet { x: 3, y: 4, z: 5 }),
            timestamp: Some(6),
        })
    );
}

#[test]
fn discovery_skips_triggers() {
    let mut trigger = device(true, true);
    trigger.is_trigger = true;
    assert_eq!(chosen(&vec![trigger.clone(), device(false, false)]), 1);
    assert_eq!(discover_best_device(&vec![trigger]), Err(Error::SensorNotFound));
}

#[test]
fn discovery_without_devices_finds_no_sensor() {
    assert_eq!(discover_best_device(&Vec::new()), Err(Error::SensorNotFound));
}

#[test]
fn discovery_without_accelerometer_finds_no_sensor() {
    let dev = DeviceInfo {
        is_trigger: false,
        is_buffer_capable: true,
        channels: sensor("anglvel", true),
        timestamp: None,
    };
    assert_eq!(discover_best_device(&vec![dev]), Err(Error::SensorNotFound));
}

#[test]
fn discovery_reports_accelerometer_without_scan_elements() {
    let dev = DeviceInfo {
        is_trigger: false,
        is_buffer_capable: true,
        channels: sensor("accel", false),
        timestamp: None,
    };
    assert_eq!(
        discover_best_device(&vec![dev]),
        Err(Error::InvalidState(
            "accel device found, but scan-elements/buffer are not available".to_string()
        ))
    );
}

#[test]
fn discovery_reports_accelerometer_without_buffer() {
    let mut dev = device(true, true);
    dev.is_buffer_capable = false;
    assert_eq!(
        discover_best_device(&vec![dev]),
        Err(Error::InvalidState(
            "accel device found, but scan-elements/buffer are not available".to_string()
        ))
    );
}

#[test]
fn discovery_passes_over_unusable_accelerometer() {
    let broken = DeviceInfo {
        is_trigger: false,
        is_buffer_capable: true,
        channels: sensor("accel", false),
        timestamp: None,
    };
    assert_eq!(chosen(&vec![broken, device(false, false)]), 1);
}
