use ahrs::{Ahrs, Madgwick};
use nalgebra::Vector3;
use serde_json::{Number, Value};
use yured::double::DoubleBits;
use yured::fusion::{Algorithm, DotBand, FusionEngine, GravitySign};
use yured::iio::buffer::{BufferPoller, BufferReading, DeviceProbe, SampleInterval};
use yured::iio::channel::{ChannelProbe, RawSample, StorageFormat};
use yured::iio::types::AxisSet;
use yured::queue::{MotionSample, SampleQueue};
use yured::yure::{outgoing_sample, StreamBatcher};

const STANDARD_GRAVITY: f64 = 9.806_65;

fn encoded(value: f64) -> DoubleBits {
    DoubleBits { bits: value.to_bits() }
}

fn accel_probe(chan: usize) -> ChannelProbe {
    ChannelProbe {
        chan,
        is_scan_element: true,
        format_scale: encoded(STANDARD_GRAVITY / 1000.0),
        storage: StorageFormat { bits: 16, signed: true },
        scale_attr: None,
        offset_attr: None,
    }
}

fn stationary_reading() -> BufferReading {
    BufferReading {
        refill: Ok(()),
        device_id: None,
        device_name: None,
        timestamp: None,
        accel: AxisSet {
            x: Some(RawSample::I16(0)),
            y: Some(RawSample::I16(0)),
            z: Some(RawSample::I16(1000)),
        },
        gyro: AxisSet { x: None, y: None, z: None },
    }
}

fn band_of(dot: f64) -> DotBand {
    let gg = STANDARD_GRAVITY * STANDARD_GRAVITY;
    if dot.is_nan() {
        DotBand::Undefined
    } else if dot.abs() < 0.2 * gg {
        DotBand::Ambiguous
    } else if dot < -0.8 * gg {
        DotBand::StrongNegative
    } else if dot > 0.8 * gg {
        DotBand::StrongPositive
    } else if dot >= 0.0 {
        DotBand::Positive
    } else {
        DotBand::Negative
    }
}

fn field(object: &Value, name: &str) -> f64 {
    object[name].as_f64().unwrap()
}

#[test]
fn two_stationary_samples_give_one_batch_near_zero() {
    let rate_hz = 100;
    let device = DeviceProbe {
        is_buffer_capable: true,
        accel: AxisSet { x: accel_probe(0), y: accel_probe(1), z: accel_probe(2) },
        gyro: None,
        timestamp: None,
    };
    let poller = BufferPoller::new(&device, rate_hz).unwrap();
    let mut last_timestamp = None;
    let mut filter = Madgwick::new(1.0 / f64::from(rate_hz), 0.1);
    let mut engine = FusionEngine::new(Algorithm::Madgwick);
    let mut queue = SampleQueue::new(2);
    let mut batcher = StreamBatcher::new(2);
    let mut batches = Vec::new();

    for step in 0..2 {
        let sample = poller.read_sample(&stationary_reading(), rate_hz, &mut last_timestamp).unwrap();
        assert_eq!(sample.dt, SampleInterval::Nominal);
        let accel = sample.accel_mps2.map(|axis| axis.sum as f64 * f64::from_bits(axis.scale.bits));
        assert!((accel[2] - STANDARD_GRAVITY).abs() < 1e-9);

        let gyro = Vector3::new(0.0, 0.0, 0.0);
        let measured = Vector3::new(accel[0], accel[1], accel[2]);
        if filter.update_imu(&gyro, &measured).is_err() {
            let _ = filter.update_gyro(&gyro);
        }
        let estimate = filter.quat.inverse_transform_vector(&Vector3::new(0.0, 0.0, STANDARD_GRAVITY));
        let norm = (accel[0].powi(2) + accel[1].powi(2) + accel[2].powi(2)).sqrt();
        let near_static = (0.5 * STANDARD_GRAVITY..=1.5 * STANDARD_GRAVITY).contains(&norm);
        let dot = accel[0] * estimate.x + accel[1] * estimate.y + accel[2] * estimate.z;
        let factor = f64::from(engine.update(near_static, band_of(dot)));
        assert_eq!(engine.gravity_sign, GravitySign::Positive);

        let gravity = [estimate.x * factor, estimate.y * factor, estimate.z * factor];
        assert!((gravity[2] - STANDARD_GRAVITY).abs() < 1e-6);
        queue.push_drop_old(MotionSample {
            accel_linear: [
                encoded(accel[0] - gravity[0]),
                encoded(accel[1] - gravity[1]),
                encoded(accel[2] - gravity[2]),
            ],
            t_ms: encoded(1_700_000_000_000.0 + 10.0 * f64::from(step)),
        });
    }

    while let Some(motion) = queue.pop() {
        let sample = outgoing_sample(&motion, "YUREyureYUR", "agent");
        let mut object = serde_json::Map::new();
        object.insert("yureId".to_string(), Value::String(sample.yure_id.to_string()));
        object.insert("userAgent".to_string(), Value::String(sample.user_agent.to_string()));
        for (name, value) in [("x", sample.x), ("y", sample.y), ("z", sample.z), ("t", sample.t)] {
            let number = Number::from_f64(f64::from_bits(value.bits)).unwrap();
            object.insert(name.to_string(), Value::Number(number));
        }
        let text = serde_json::to_string(&Value::Object(object)).unwrap();
        if let Some(batch) = batcher.push_sample(text) {
            batches.push(batch);
        }
    }

    assert_eq!(batches.len(), 1);
    let parsed: Value = serde_json::from_str(&batches[0]).unwrap();
    let entries = parsed.as_array().unwrap();
    assert_eq!(entries.len(), 2);
    for (at, entry) in entries.iter().enumerate() {
        assert!(field(entry, "x").abs() < 1e-6);
        assert!(field(entry, "y").abs() < 1e-6);
        assert!(field(entry, "z").abs() < 1e-6);
        assert_eq!(field(entry, "t"), 1_700_000_000_000.0 + 10.0 * at as f64);
        assert_eq!(entry["yureId"].as_str(), Some("YUREyureYUR"));
    }
    assert_eq!(batcher.len(), 0);
}
