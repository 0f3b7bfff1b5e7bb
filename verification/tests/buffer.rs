use nix::errno::Errno;
use yured::double::DoubleBits;
use yured::error::{DeviceError, Error};
use yured::iio::buffer::{
    after_buffer_attempt, buffer_attempted, check_enabled_channels, BufferDecision, BufferDetails,
    BufferPoller, BufferReading, DeviceProbe, FirePlan, ImuSample, SampleInterval,
    BUFFER_CAPACITY,
};
use yured::iio::channel::{
    ChannelConfig, ChannelProbe, RawSample, SampleType, ScaledSample, StorageFormat,
};
use yured::iio::types::AxisSet;
use yured::iio::{IioPoller, OpenDecision};

fn bits_of(value: f64) -> DoubleBits {
    DoubleBits { bits: value.to_bits() }
}

fn axis_probe(chan: usize, scale: f64) -> ChannelProbe {
    ChannelProbe {
        chan,
        is_scan_element: true,
        format_scale: bits_of(scale),
        storage: StorageFormat { bits: 16, signed: true },
        scale_attr: None,
        offset_attr: None,
    }
}

fn stamp_probe(chan: usize, scan: bool) -> ChannelProbe {
    ChannelProbe {
        chan,
        is_scan_element: scan,
        format_scale: bits_of(0.0),
        storage: StorageFormat { bits: 64, signed: true },
        scale_attr: None,
        offset_attr: None,
    }
}

fn full_device() -> DeviceProbe {
    DeviceProbe {
        is_buffer_capable: true,
        accel: AxisSet { x: axis_probe(0, 0.01), y: axis_probe(1, 0.01), z: axis_probe(2, 0.01) },
        gyro: Some(AxisSet {
            x: axis_probe(3, 0.001),
            y: axis_probe(4, 0.001),
            z: axis_probe(5, 0.001),
        }),
        timestamp: Some(stamp_probe(6, true)),
    }
}

fn triple(x: i16, y: i16, z: i16) -> AxisSet<Option<RawSample>> {
    AxisSet { x: Some(RawSample::I16(x)), y: Some(RawSample::I16(y)), z: Some(RawSample::I16(z)) }
}

fn reading(timestamp: i64) -> BufferReading {
    BufferReading {
        refill: Ok(()),
        device_id: Some("iio:device0".to_string()),
        device_name: Some("imu".to_string()),
        timestamp: Some(RawSample::I64(timestamp)),
        accel: triple(1, 2, 981),
        gyro: triple(-1, 0, 1),
    }
}

fn failed_reading(fault: DeviceError) -> BufferReading {
    BufferReading { refill: Err(fault), ..reading(0) }
}

fn details() -> BufferDetails {
    BufferDetails {
        device_id: Some("iio:device0".to_string()),
        device_name: None,
        trigger_name: Some("trig0".to_string()),
        enabled_scan_inputs: 7,
        sample_size: Some(24),
    }
}

fn sums(values: [ScaledSample; 3]) -> [i64; 3] {
    [values[0].sum, values[1].sum, values[2].sum]
}

#[test]
fn poller_needs_a_buffer() {
    let mut dev = full_device();
    dev.is_buffer_capable = false;
    assert_eq!(
        BufferPoller::new(&dev, 100),
        Err(Error::InvalidState("device is not buffer capable".to_string()))
    );
}

#[test]
fn poller_calibrates_all_channels() {
    let poller = BufferPoller::new(&full_device(), 100).unwrap();
    assert_eq!(poller.accel.x.scale, bits_of(0.01));
    assert_eq!(poller.accel.z.chan, 2);
    assert_eq!(poller.gyro.as_ref().unwrap().y.scale, bits_of(0.001));
    assert_eq!(
        poller.timestamp,
        Some(ChannelConfig {
            chan: 6,
            scale: bits_of(1.0),
            offset: 0,
            sample_type: Some(SampleType::I64),
        })
    );
    assert!(!poller.sysfs_trigger);
    assert_eq!(poller.sysfs_trigger_last_fire, None);
}

#[test]
fn poller_period_is_a_second_over_the_rate() {
    let period = |rate| BufferPoller::new(&full_device(), rate).unwrap().sysfs_trigger_period;
    assert_eq!(period(100), 10_000_000);
    assert_eq!(period(1), 1_000_000_000);
    assert_eq!(period(3), 333_333_333);
    assert_eq!(period(1_000_000_000), 1);
    assert_eq!(period(u32::MAX), 1);
}

#[test]
fn poller_ignores_a_timestamp_that_is_no_scan_element() {
    let mut dev = full_device();
    dev.timestamp = Some(stamp_probe(6, false));
    let poller = BufferPoller::new(&dev, 100).unwrap();
    assert_eq!(poller.timestamp, None);
    assert_eq!(poller.enabled_channels(), vec![0, 1, 2, 3, 4, 5]);
}

#[test]
fn poller_reports_the_first_calibration_failure() {
    let mut dev = full_device();
    dev.gyro.as_mut().unwrap().y.storage = StorageFormat { bits: 24, signed: true };
    dev.timestamp.as_mut().unwrap().storage = StorageFormat { bits: 48, signed: true };
    assert_eq!(
        BufferPoller::new(&dev, 100),
        Err(Error::InvalidState("unsupported channel sample type".to_string()))
    );
    let mut dev = full_device();
    dev.accel.x.format_scale = bits_of(0.0);
    assert_eq!(
        BufferPoller::new(&dev, 100),
        Err(Error::InvalidState("channel missing scale".to_string()))
    );
}

#[test]
fn enabled_channels_in_order() {
    let poller = BufferPoller::new(&full_device(), 100).unwrap();
    assert_eq!(poller.enabled_channels(), vec![0, 1, 2, 3, 4, 5, 6]);
    let mut dev = full_device();
    dev.gyro = None;
    assert_eq!(BufferPoller::new(&dev, 100).unwrap().enabled_channels(), vec![0, 1, 2, 6]);
    dev.timestamp = None;
    assert_eq!(BufferPoller::new(&dev, 100).unwrap().enabled_channels(), vec![0, 1, 2]);
}

#[test]
fn hardware_trigger_is_not_fired_by_hand() {
    let poller = BufferPoller::new(&full_device(), 100).unwrap();
    assert_eq!(poller.maybe_fire_sysfs_trigger(0), FirePlan::Skip);
}

#[test]
fn software_trigger_fires_once_a_period() {
    let mut poller = BufferPoller::new(&full_device(), 100).unwrap();
    poller.sysfs_trigger = true;
    assert!(poller.sysfs_trigger);
    assert_eq!(poller.maybe_fire_sysfs_trigger(5), FirePlan::Fire { wait: 0 });
    poller.fired(1_000);
    assert_eq!(poller.sysfs_trigger_last_fire, Some(1_000));
    assert_eq!(poller.maybe_fire_sysfs_trigger(1_000), FirePlan::Fire { wait: 10_000_000 });
    assert_eq!(poller.maybe_fire_sysfs_trigger(4_001_000), FirePlan::Fire { wait: 6_000_000 });
    assert_eq!(poller.maybe_fire_sysfs_trigger(10_000_999), FirePlan::Fire { wait: 1 });
    assert_eq!(poller.maybe_fire_sysfs_trigger(10_001_000), FirePlan::Fire { wait: 0 });
    assert_eq!(poller.maybe_fire_sysfs_trigger(u64::MAX), FirePlan::Fire { wait: 0 });
    assert_eq!(poller.maybe_fire_sysfs_trigger(0), FirePlan::Fire { wait: 10_000_000 });
}

#[test]
fn first_sample_has_the_nominal_interval() {
    let poller = BufferPoller::new(&full_device(), 100).unwrap();
    let mut last = None;
    let sample = poller.read_sample(&reading(5_000), 100, &mut last).unwrap();
    assert_eq!(sample.dt, SampleInterval::Nominal);
    assert_eq!(last, Some(5_000));
    assert_eq!(sums(sample.accel_mps2), [1, 2, 981]);
    assert_eq!(sample.accel_mps2[2].scale, bits_of(0.01));
    assert_eq!(sums(sample.gyro.unwrap()), [-1, 0, 1]);
}

#[test]
fn later_samples_measure_the_interval() {
    let poller = BufferPoller::new(&full_device(), 100).unwrap();
    let mut last = Some(5_000);
    let sample = poller.read_sample(&reading(10_005_000), 100, &mut last).unwrap();
    assert_eq!(sample.dt, SampleInterval::Measured(10_000_000));
    assert_eq!(last, Some(10_005_000));
}

#[test]
fn timestamps_that_do_not_advance_give_the_nominal_interval() {
    let poller = BufferPoller::new(&full_device(), 100).unwrap();
    let mut last = Some(5_000);
    assert_eq!(
        poller.read_sample(&reading(5_000), 100, &mut last).unwrap().dt,
        SampleInterval::Nominal
    );
    assert_eq!(
        poller.read_sample(&reading(4_000), 100, &mut last).unwrap().dt,
        SampleInterval::Nominal
    );
    assert_eq!(last, Some(4_000));
    let mut last = Some(i64::MIN);
    assert_eq!(
        poller.read_sample(&reading(i64::MAX), 100, &mut last).unwrap().dt,
        SampleInterval::Nominal
    );
    assert_eq!(last, Some(i64::MAX));
    let mut last = Some(-1);
    assert_eq!(
        poller.read_sample(&reading(i64::MAX - 1), 100, &mut last).unwrap().dt,
        SampleInterval::Measured(i64::MAX as u64)
    );
}

#[test]
fn without_timestamp_channel_the_interval_is_nominal() {
    let mut dev = full_device();
    dev.timestamp = None;
    dev.gyro = None;
    let poller = BufferPoller::new(&dev, 100).unwrap();
    let mut last = Some(5);
    let sample = poller.read_sample(&reading(99), 100, &mut last).unwrap();
    assert_eq!(sample.dt, SampleInterval::Nominal);
    assert_eq!(sample.gyro, None);
    assert_eq!(last, Some(5));
}

#[test]
fn refill_timeout_is_described() {
    let mut poller = BufferPoller::new(&full_device(), 100).unwrap();
    let timeout = DeviceError {
        os_code: Some(Errno::ETIMEDOUT as i32),
        message: "Connection timed out".to_string(),
    };
    let mut last = Some(7);
    assert_eq!(
        poller.read_sample(&failed_reading(timeout.clone()), 100, &mut last),
        Err(Error::InvalidState(
            "iio buffer refill timed out (device=Some(\"iio:device0\") name=Some(\"imu\") \
             sysfs_trigger_now=false rate_hz=100)"
                .to_string()
        ))
    );
    assert_eq!(last, Some(7));
    poller.sysfs_trigger = true;
    let mut nameless = failed_reading(timeout);
    nameless.device_id = None;
    nameless.device_name = None;
    assert_eq!(
        poller.read_sample(&nameless, 4_000_000_000, &mut last),
        Err(Error::InvalidState(
            "iio buffer refill timed out (device=None name=None sysfs_trigger_now=true \
             rate_hz=4000000000)"
                .to_string()
        ))
    );
}

#[test]
fn other_refill_failures_are_passed_on() {
    let poller = BufferPoller::new(&full_device(), 100).unwrap();
    let fault = DeviceError { os_code: Some(Errno::EIO as i32), message: "I/O error".to_string() };
    let mut last = None;
    assert_eq!(
        poller.read_sample(&failed_reading(fault.clone()), 100, &mut last),
        Err(Error::Iio(fault.clone()))
    );
    assert_eq!(
        poller.sample_from(&failed_reading(fault), true, 7, &mut last),
        Err(Error::InvalidState(
            "iio buffer refill timed out (device=Some(\"iio:device0\") name=Some(\"imu\") \
             sysfs_trigger_now=false rate_hz=7)"
                .to_string()
        ))
    );
}

#[test]
fn a_missing_sample_fails_the_reading() {
    let poller = BufferPoller::new(&full_device(), 100).unwrap();
    let mut last = Some(1);
    let mut no_accel = reading(9);
    no_accel.accel.y = None;
    assert_eq!(
        poller.read_sample(&no_accel, 100, &mut last),
        Err(Error::InvalidState("missing sample".to_string()))
    );
    // the timestamp was read before the accelerometer failed
    assert_eq!(last, Some(9));
    let mut no_stamp = reading(9);
    no_stamp.timestamp = None;
    let mut last = Some(1);
    assert_eq!(
        poller.read_sample(&no_stamp, 100, &mut last),
        Err(Error::InvalidState("missing sample".to_string()))
    );
    assert_eq!(last, Some(1));
}

#[test]
fn a_timestamp_beyond_63_bits_fails_the_reading() {
    let mut dev = full_device();
    dev.timestamp.as_mut().unwrap().storage = StorageFormat { bits: 64, signed: false };
    let poller = BufferPoller::new(&dev, 100).unwrap();
    let mut wide = reading(0);
    wide.timestamp = Some(RawSample::U64(u64::MAX));
    let mut last = None;
    assert_eq!(
        poller.read_sample(&wide, 100, &mut last),
        Err(Error::InvalidState("invalid sample value".to_string()))
    );
}

#[test]
fn buffer_holds_one_record() {
    assert_eq!(BUFFER_CAPACITY, 1);
}

#[test]
fn buffer_needs_enabled_channels() {
    assert_eq!(check_enabled_channels(1), Ok(()));
    assert_eq!(
        check_enabled_channels(0),
        Err(Error::InvalidState(
            "no scan element channels enabled; cannot create iio buffer".to_string()
        ))
    );
}

#[test]
fn buffer_creation_retries_a_busy_device_once() {
    let busy = DeviceError { os_code: Some(Errno::EBUSY as i32), message: "busy".to_string() };
    assert_eq!(
        after_buffer_attempt(false, Some(busy.clone()), &details()),
        BufferDecision::DisableAndRetry
    );
    assert_eq!(
        after_buffer_attempt(true, Some(busy.clone()), &details()),
        BufferDecision::Fail(Error::Iio(busy))
    );
    assert_eq!(after_buffer_attempt(false, None, &details()), BufferDecision::Created);
    assert_eq!(after_buffer_attempt(true, None, &details()), BufferDecision::Created);
}

#[test]
fn buffer_creation_failure_is_described() {
    let fault = DeviceError { os_code: Some(Errno::EINVAL as i32), message: "invalid".to_string() };
    let expected = BufferDecision::Fail(Error::InvalidState(
        "failed to create iio buffer: invalid (device=Some(\"iio:device0\") name=None \
         trigger=Some(\"trig0\") enabled_scan_inputs=7 sample_size=Some(24))"
            .to_string(),
    ));
    assert_eq!(after_buffer_attempt(false, Some(fault.clone()), &details()), expected);
    assert_eq!(after_buffer_attempt(true, Some(fault.clone()), &details()), expected);
    let mut unknown = details();
    unknown.sample_size = None;
    unknown.enabled_scan_inputs = 0;
    assert_eq!(
        buffer_attempted(true, Some(fault), false, &unknown),
        BufferDecision::Fail(Error::InvalidState(
            "failed to create iio buffer: invalid (device=Some(\"iio:device0\") name=None \
             trigger=Some(\"trig0\") enabled_scan_inputs=0 sample_size=None)"
                .to_string()
        ))
    );
}

#[test]
fn opening_retries_once_without_trigger() {
    assert_eq!(
        IioPoller::open_best(Error::IioTriggerNotFound, false),
        OpenDecision::CreateTriggerAndRetry
    );
    assert_eq!(
        IioPoller::open_best(Error::IioTriggerNotFound, true),
        OpenDecision::Fail(Error::InvalidState(
            "no iio trigger devices found after attempting auto-creation".to_string()
        ))
    );
    assert_eq!(
        IioPoller::open_best(Error::SensorNotFound, false),
        OpenDecision::Fail(Error::SensorNotFound)
    );
    assert_eq!(
        IioPoller::open_best(Error::SensorNotFound, true),
        OpenDecision::Fail(Error::SensorNotFound)
    );
}

#[test]
fn opened_poller_remembers_the_timestamp() {
    let poller = BufferPoller::new(&full_device(), 100).unwrap();
    let mut opened = IioPoller::open_best_in_context(poller, 100, None);
    assert_eq!(opened.last_timestamp_ns, None);
    assert_eq!(opened.rate_hz, 100);
    let first: ImuSample = opened.read_sample(&reading(1_000)).unwrap();
    assert_eq!(first.dt, SampleInterval::Nominal);
    let second = opened.read_sample(&reading(3_500)).unwrap();
    assert_eq!(second.dt, SampleInterval::Measured(2_500));
    assert_eq!(opened.last_timestamp_ns, Some(3_500));
}
