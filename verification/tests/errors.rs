use yured::config::Config;
use yured::double::DoubleBits;
use yured::error::{DeviceError, Error};
use yured::fusion::Algorithm;
use yured::iio::types::AxisSet;
use yured::text::{bool_string, count_debug, decimal, strip_prefix};

#[test]
fn error_messages() {
    let fault = DeviceError { os_code: Some(16), message: "Device or resource busy".to_string() };
    let cases = [
        (Error::InvalidState("bad".to_string()), "invalid state: bad"),
        (Error::Time("clock went backwards".to_string()), "time error: clock went backwards"),
        (Error::Url("empty host".to_string()), "url parse error: empty host"),
        (Error::Json("key must be a string".to_string()), "json error: key must be a string"),
        (Error::Iio(fault), "iio error: Device or resource busy"),
        (Error::Ws("connection reset".to_string()), "websocket error: connection reset"),
        (Error::SensorNotFound, "iio sensor not found"),
        (Error::IioTriggerNotFound, "iio trigger not found"),
    ];
    for (error, line) in cases {
        assert_eq!(error.message(), line);
    }
}

#[test]
fn invalid_state_carries_the_message() {
    assert_eq!(Error::invalid_state("oops"), Error::InvalidState("oops".to_string()));
    assert_eq!(Error::invalid_state(""), Error::InvalidState(String::new()));
}

#[test]
fn device_error_duplicates() {
    let fault = DeviceError { os_code: None, message: "gone".to_string() };
    assert_eq!(fault.duplicate(), fault);
}

#[test]
fn default_config() {
    let config = Config::default();
    assert_eq!(
        config,
        Config { batch: 30, rate: 100, algorithm: Algorithm::Madgwick, verbose: false }
    );
    assert!(config.is_valid());
}

#[test]
fn config_needs_batch_and_rate() {
    let config = Config::default();
    assert!(!Config { batch: 0, ..config }.is_valid());
    assert!(!Config { rate: 0, ..config }.is_valid());
    assert!(Config { batch: 1, rate: 1, ..config }.is_valid());
}

#[test]
fn axis_set_as_array() {
    let set = AxisSet { x: 1, y: 2, z: 3 };
    assert_eq!(set.as_array_ref(), [&1, &2, &3]);
}

#[test]
fn zero_has_two_encodings() {
    assert!(DoubleBits { bits: 0.0f64.to_bits() }.zero());
    assert!(DoubleBits { bits: (-0.0f64).to_bits() }.zero());
    assert!(!DoubleBits { bits: f64::MIN_POSITIVE.to_bits() }.zero());
    assert!(!DoubleBits { bits: 1 }.zero());
    assert!(!DoubleBits { bits: f64::NAN.to_bits() }.zero());
    assert!(!DoubleBits { bits: (-1.5f64).to_bits() }.zero());
}

#[test]
fn one_is_one() {
    assert_eq!(f64::from_bits(DoubleBits::unit().bits), 1.0);
}

#[test]
fn texts_of_values() {
    assert_eq!(bool_string(true), "true");
    assert_eq!(bool_string(false), "false");
    assert_eq!(count_debug(None), format!("{:?}", None::<usize>));
    assert_eq!(count_debug(Some(0)), format!("{:?}", Some(0usize)));
    assert_eq!(count_debug(Some(1234567890)), format!("{:?}", Some(1234567890usize)));
}

#[test]
fn decimal_of_numbers() {
    assert_eq!(decimal(0), "0");
    assert_eq!(decimal(9), "9");
    assert_eq!(decimal(10), "10");
    assert_eq!(decimal(1_234_567_890), "1234567890");
    assert_eq!(decimal(u64::MAX), "18446744073709551615");
    for n in [7u64, 42, 100, 909, 65_535, 4_294_967_295] {
        assert_eq!(decimal(n), format!("{n}"));
    }
}

#[test]
fn prefix_is_stripped() {
    assert_eq!(strip_prefix("in_accel_x", "in_accel"), Some("_x"));
    assert_eq!(strip_prefix("accel", "accel"), Some(""));
    assert_eq!(strip_prefix("accel_x", ""), Some("accel_x"));
    assert_eq!(strip_prefix("", ""), Some(""));
    assert_eq!(strip_prefix("größe_x", "größe"), Some("_x"));
}

#[test]
fn other_prefix_is_not_stripped() {
    assert_eq!(strip_prefix("accel_x", "in_accel"), None);
    assert_eq!(strip_prefix("acc", "accel"), None);
    assert_eq!(strip_prefix("", "a"), None);
    assert_eq!(strip_prefix("Accel_x", "accel"), None);
}
