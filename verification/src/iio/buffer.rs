//! The acquisition buffer: its setup and the making of one sample from
//! what a refill of the buffer gave.

use crate::double::DoubleBits;
use crate::error::{outcome, DeviceError, DeviceErrorView, Error, ErrorView};
use crate::iio::channel::{
    axis_config_of, axis_config_with_sample_type, axis_scaled_of, channel_sample_type,
    first_sample_of, read_axis_scaled, read_first_sample_as_i64, sample_type_of, ChannelConfig,
    ChannelProbe, RawSample, ScaledSample,
};
use crate::iio::trigger::{fault_class, fault_of, FaultClass};
use crate::iio::types::AxisSet;
use crate::text::{
    bool_string, bool_text, count_debug, count_debug_text, debug_option, debug_text, decimal,
    decimal_text, option_view,
};
use vstd::prelude::*;
use vstd::string::StringExecFns;

verus! {

/// Nanoseconds in a second.
pub const NANOS_PER_SEC: u64 = 1_000_000_000;

/// What the setup of the buffer reads of the selected device.
#[derive(Debug, Clone, PartialEq, Eq)]
pub struct DeviceProbe {
    pub is_buffer_capable: bool,
    pub accel: AxisSet<ChannelProbe>,
    pub gyro: Option<AxisSet<ChannelProbe>>,
    pub timestamp: Option<ChannelProbe>,
}

/// The time between two samples.
#[derive(Debug, Clone, Copy, PartialEq, Eq, Structural)]
pub enum SampleInterval {
    /// The difference of two hardware timestamps, in nanoseconds.
    Measured(u64),
    /// One period of the configured sampling rate.
    Nominal,
}

/// One sample of the inertial measurement unit.
#[derive(Debug, Clone, Copy, PartialEq, Eq)]
pub struct ImuSample {
    /// Acceleration on the three axes.
    pub accel_mps2: [ScaledSample; 3],
    /// Angular velocity on the three axes, where the device has a gyroscope.
    pub gyro: Option<[ScaledSample; 3]>,
    /// Time since the sample before.
    pub dt: SampleInterval,
}

/// What one refill of the buffer gave.
#[derive(Debug, PartialEq, Eq)]
pub struct BufferReading {
    /// Whether the refill succeeded.
    pub refill: Result<(), DeviceError>,
    /// Identifier and name of the buffer's device.
    pub device_id: Option<String>,
    pub device_name: Option<String>,
    /// The first sample of each channel, `None` where the buffer held none.
    pub timestamp: Option<RawSample>,
    pub accel: AxisSet<Option<RawSample>>,
    pub gyro: AxisSet<Option<RawSample>>,
}

/// Whether to fire the trigger by hand before a refill.
#[derive(Debug, Clone, Copy, PartialEq, Eq, Structural)]
pub enum FirePlan {
    /// The hardware fires the trigger.
    Skip,
    /// Wait for so many nanoseconds, then fire.
    Fire { wait: u64 },
}

/// The calibrated channels of the buffer, and the pacing of a trigger that
/// is fired by hand. Times are nanoseconds on a clock that never runs
/// backwards.
#[derive(Debug, Clone, PartialEq, Eq)]
pub struct BufferPoller {
    pub accel: AxisSet<ChannelConfig>,
    pub gyro: Option<AxisSet<ChannelConfig>>,
    pub timestamp: Option<ChannelConfig>,
    /// Whether the trigger is fired by hand.
    pub sysfs_trigger: bool,
    /// The least time between two firings.
    pub sysfs_trigger_period: u64,
    /// When the trigger was last fired.
    pub sysfs_trigger_last_fire: Option<u64>,
}

/// The sampling period in nanoseconds, at least one.
pub open spec fn period_of(rate_hz: u32) -> u64 {
    if NANOS_PER_SEC / (rate_hz as u64) >= 1 {
        NANOS_PER_SEC / (rate_hz as u64)
    } else {
        1
    }
}

/// The calibration of the timestamp channel, which is used only where it is
/// a scan element: scale one, offset zero.
pub open spec fn timestamp_config_of(timestamp: Option<ChannelProbe>) -> Result<
    Option<ChannelConfig>,
    ErrorView,
> {
    match timestamp {
        None => Ok(None),
        Some(probe) => {
            if !probe.is_scan_element {
                Ok(None)
            } else {
                match sample_type_of(probe) {
                    Err(e) => Err(e),
                    Ok(t) => Ok(
                        Some(
                            ChannelConfig {
                                chan: probe.chan,
                                scale: DoubleBits::one(),
                                offset: 0,
                                sample_type: Some(t),
                            },
                        ),
                    ),
                }
            }
        },
    }
}

/// The calibration of the gyroscope, where the device has one.
pub open spec fn gyro_config_of(gyro: Option<AxisSet<ChannelProbe>>) -> Result<
    Option<AxisSet<ChannelConfig>>,
    ErrorView,
> {
    match gyro {
        None => Ok(None),
        Some(axis) => match axis_config_of(axis) {
            Err(e) => Err(e),
            Ok(config) => Ok(Some(config)),
        },
    }
}

/// The poller for a device: it must support buffers, and accelerometer,
/// gyroscope and timestamp must calibrate, the first failure in that order.
pub open spec fn poller_of(discovered: DeviceProbe, rate_hz: u32) -> Result<
    BufferPoller,
    ErrorView,
> {
    if !discovered.is_buffer_capable {
        Err(ErrorView::InvalidState("device is not buffer capable"@))
    } else {
        match axis_config_of(discovered.accel) {
            Err(e) => Err(e),
            Ok(accel) => match gyro_config_of(discovered.gyro) {
                Err(e) => Err(e),
                Ok(gyro) => match timestamp_config_of(discovered.timestamp) {
                    Err(e) => Err(e),
                    Ok(timestamp) => Ok(
                        BufferPoller {
                            accel,
                            gyro,
                            timestamp,
                            sysfs_trigger: false,
                            sysfs_trigger_period: period_of(rate_hz),
                            sysfs_trigger_last_fire: None,
                        },
                    ),
                },
            },
        }
    }
}

/// The time to wait before the trigger may be fired at `now`: what is left
/// of the period since it was last fired.
pub open spec fn fire_wait(period: u64, last_fire: Option<u64>, now: u64) -> u64 {
    match last_fire {
        None => 0,
        Some(last) => {
            let elapsed = if now >= last {
                now - last
            } else {
                0
            };
            if period > elapsed {
                (period - elapsed) as u64
            } else {
                0
            }
        },
    }
}

/// The time between the sample stamped `ts` and the one before: measured
/// where the stamp before is known and lies before `ts`, else nominal.
pub open spec fn interval_of(last: Option<i64>, ts: Option<i64>) -> SampleInterval {
    match (last, ts) {
        (Some(prev), Some(ts)) => {
            if 0 < ts - prev <= i64::MAX {
                SampleInterval::Measured((ts - prev) as u64)
            } else {
                SampleInterval::Nominal
            }
        },
        _ => SampleInterval::Nominal,
    }
}

/// The message for a refill that timed out.
pub open spec fn refill_timeout_message(
    device_id: Option<Seq<char>>,
    device_name: Option<Seq<char>>,
    sysfs_trigger: bool,
    rate_hz: u32,
) -> Seq<char> {
    "iio buffer refill timed out (device="@ + debug_text(device_id) + " name="@ + debug_text(
        device_name,
    ) + " sysfs_trigger_now="@ + bool_text(sysfs_trigger) + " rate_hz="@ + decimal_text(
        rate_hz as nat,
    ) + ")"@
}

/// The timestamp of a reading, where the poller has a timestamp channel.
pub open spec fn timestamp_of(poller: BufferPoller, reading: BufferReading) -> Result<
    Option<i64>,
    ErrorView,
> {
    match poller.timestamp {
        None => Ok(None),
        Some(cfg) => match first_sample_of(reading.timestamp, cfg) {
            Err(e) => Err(e),
            Ok(ts) => Ok(Some(ts)),
        },
    }
}

/// The timestamp that is remembered after a reading: that of the reading
/// where it has one, else the one before.
pub open spec fn last_timestamp_after(
    poller: BufferPoller,
    reading: BufferReading,
    last: Option<i64>,
) -> Option<i64> {
    if reading.refill is Err {
        last
    } else {
        match timestamp_of(poller, reading) {
            Ok(Some(ts)) => Some(ts),
            _ => last,
        }
    }
}

/// What a sample holds, with its arrays as sequences.
pub struct ImuSampleView {
    pub accel_mps2: Seq<ScaledSample>,
    pub gyro: Option<Seq<ScaledSample>>,
    pub dt: SampleInterval,
}

impl View for ImuSample {
    type V = ImuSampleView;

    open spec fn view(&self) -> ImuSampleView {
        ImuSampleView {
            accel_mps2: self.accel_mps2@,
            gyro: match self.gyro {
                Some(g) => Some(g@),
                None => None,
            },
            dt: self.dt,
        }
    }
}

/// The sample that a reading makes. `timed_out` says whether the failure of
/// the refill, if it failed, is a timeout. The first failure wins, in the
/// order refill, timestamp, accelerometer, gyroscope.
pub open spec fn sample_of(
    poller: BufferPoller,
    reading: BufferReading,
    timed_out: bool,
    rate_hz: u32,
    last: Option<i64>,
) -> Result<ImuSampleView, ErrorView> {
    match reading.refill {
        Err(e) => {
            if timed_out {
                Err(
                    ErrorView::InvalidState(
                        refill_timeout_message(
                            option_view(reading.device_id),
                            option_view(reading.device_name),
                            poller.sysfs_trigger,
                            rate_hz,
                        ),
                    ),
                )
            } else {
                Err(ErrorView::Iio(e@))
            }
        },
        Ok(_) => match timestamp_of(poller, reading) {
            Err(e) => Err(e),
            Ok(ts) => match axis_scaled_of(reading.accel, poller.accel) {
                Err(e) => Err(e),
                Ok(accel) => match poller.gyro {
                    None => Ok(
                        ImuSampleView { accel_mps2: accel, gyro: None, dt: interval_of(last, ts) },
                    ),
                    Some(gyro_cfg) => match axis_scaled_of(reading.gyro, gyro_cfg) {
                        Err(e) => Err(e),
                        Ok(gyro) => Ok(
                            ImuSampleView {
                                accel_mps2: accel,
                                gyro: Some(gyro),
                                dt: interval_of(last, ts),
                            },
                        ),
                    },
                },
            },
        },
    }
}

/// Whether the refill of a reading failed with a timeout.
pub open spec fn refill_timed_out(reading: BufferReading) -> bool {
    reading.refill matches Err(e) && fault_of(e.os_code) is TimedOut
}

/// A sample or an error by their mathematical values.
pub open spec fn sample_view(r: Result<ImuSample, Error>) -> Result<ImuSampleView, ErrorView> {
    match r {
        Ok(s) => Ok(s@),
        Err(e) => Err(e@),
    }
}

fn timestamp_config(timestamp: &Option<ChannelProbe>) -> (config: Result<
    Option<ChannelConfig>,
    Error,
>)
    ensures
        outcome(config) == timestamp_config_of(*timestamp),
{
    match timestamp {
        None => Ok(None),
        Some(probe) => {
            if !probe.is_scan_element {
                return Ok(None);
            }
            match channel_sample_type(probe) {
                Err(e) => Err(e),
                Ok(t) => Ok(
                    Some(
                        ChannelConfig {
                            chan: probe.chan,
                            scale: DoubleBits::unit(),
                            offset: 0,
                            sample_type: Some(t),
                        },
                    ),
                ),
            }
        },
    }
}

fn sampling_period(rate_hz: u32) -> (period: u64)
    requires
        rate_hz >= 1,
    ensures
        period == period_of(rate_hz),
        period >= 1,
{
    let period = NANOS_PER_SEC / (rate_hz as u64);
    if period >= 1 {
        period
    } else {
        1
    }
}

impl BufferPoller {
    /// The positions of the channels that the buffer is to carry, in the
    /// order in which they are enabled: accelerometer, gyroscope, timestamp.
    pub open spec fn enabled(&self) -> Seq<usize> {
        seq![self.accel.x.chan, self.accel.y.chan, self.accel.z.chan] + (match self.gyro {
            Some(g) => seq![g.x.chan, g.y.chan, g.z.chan],
            None => Seq::empty(),
        }) + (match self.timestamp {
            Some(t) => seq![t.chan],
            None => Seq::empty(),
        })
    }

    /// Calibrates the channels of the selected device for buffered reads at
    /// `rate_hz` samples a second. This is the first decision of the setup;
    /// whether the trigger is fired by hand is recorded at its end, by
    /// [`crate::iio::setup::setup_step`].
    pub fn new(discovered: &DeviceProbe, rate_hz: u32) -> (poller: Result<BufferPoller, Error>)
        requires
            rate_hz >= 1,
        ensures
            outcome(poller) == poller_of(*discovered, rate_hz),
            poller matches Ok(p) ==> p.sysfs_trigger_period >= 1,
    {
        if !discovered.is_buffer_capable {
            return Err(Error::invalid_state("device is not buffer capable"));
        }
        let accel = match axis_config_with_sample_type(&discovered.accel) {
            Ok(c) => c,
            Err(e) => {
                return Err(e);
            },
        };
        let gyro = match &discovered.gyro {
            None => None,
            Some(axis) => match axis_config_with_sample_type(axis) {
                Ok(c) => Some(c),
                Err(e) => {
                    return Err(e);
                },
            },
        };
        let timestamp = match timestamp_config(&discovered.timestamp) {
            Ok(c) => c,
            Err(e) => {
                return Err(e);
            },
        };
        Ok(
            BufferPoller {
                accel,
                gyro,
                timestamp,
                sysfs_trigger: false,
                sysfs_trigger_period: sampling_period(rate_hz),
                sysfs_trigger_last_fire: None,
            },
        )
    }

    /// The positions of the channels to enable, in order.
    pub fn enabled_channels(&self) -> (channels: Vec<usize>)
        ensures
            channels@ == self.enabled(),
    {
        let mut channels: Vec<usize> = Vec::new();
        channels.push(self.accel.x.chan);
        channels.push(self.accel.y.chan);
        channels.push(self.accel.z.chan);
        match &self.gyro {
            Some(g) => {
                channels.push(g.x.chan);
                channels.push(g.y.chan);
                channels.push(g.z.chan);
            },
            None => {},
        }
        match &self.timestamp {
            Some(t) => {
                channels.push(t.chan);
            },
            None => {},
        }
        assert(channels@ =~= self.enabled());
        channels
    }

    /// Decides at time `now` whether to fire the trigger by hand, and how
    /// long to wait before, so that it fires no more often than once a
    /// period.
    pub fn maybe_fire_sysfs_trigger(&self, now: u64) -> (plan: FirePlan)
        ensures
            plan == if self.sysfs_trigger {
                FirePlan::Fire {
                    wait: fire_wait(self.sysfs_trigger_period, self.sysfs_trigger_last_fire, now),
                }
            } else {
                FirePlan::Skip
            },
            plan matches FirePlan::Fire { wait } ==> wait <= self.sysfs_trigger_period,
    {
        if !self.sysfs_trigger {
            return FirePlan::Skip;
        }
        let wait = match self.sysfs_trigger_last_fire {
            None => 0,
            Some(last) => {
                let elapsed = if now >= last {
                    now - last
                } else {
                    0
                };
                if self.sysfs_trigger_period > elapsed {
                    self.sysfs_trigger_period - elapsed
                } else {
                    0
                }
            },
        };
        FirePlan::Fire { wait }
    }

    /// Records that the trigger was fired at time `now`.
    pub fn fired(&mut self, now: u64)
        ensures
            *final(self) == (BufferPoller { sysfs_trigger_last_fire: Some(now), ..*old(self) }),
    {
        self.sysfs_trigger_last_fire = Some(now);
    }

    /// Makes a sample from what a refill gave, given whether the failure of
    /// the refill, if it failed, is a timeout. `last_timestamp_ns` holds the
    /// hardware timestamp of the sample before and takes that of this one.
    pub fn sample_from(
        &self,
        reading: &BufferReading,
        timed_out: bool,
        rate_hz: u32,
        last_timestamp_ns: &mut Option<i64>,
    ) -> (sample: Result<ImuSample, Error>)
        ensures
            sample_view(sample) == sample_of(
                *self,
                *reading,
                timed_out,
                rate_hz,
                *old(last_timestamp_ns),
            ),
            *final(last_timestamp_ns) == last_timestamp_after(
                *self,
                *reading,
                *old(last_timestamp_ns),
            ),
            sample matches Ok(s) ==> (s.dt matches SampleInterval::Measured(ns) ==> ns > 0),
    {
        match &reading.refill {
            Err(e) => {
                if timed_out {
                    let mut message = "iio buffer refill timed out (device=".to_owned();
                    message.append(debug_option(&reading.device_id).as_str());
                    message.append(" name=");
                    message.append(debug_option(&reading.device_name).as_str());
                    message.append(" sysfs_trigger_now=");
                    message.append(bool_string(self.sysfs_trigger).as_str());
                    message.append(" rate_hz=");
                    message.append(decimal(rate_hz as u64).as_str());
                    message.append(")");
                    return Err(Error::InvalidState(message));
                } else {
                    return Err(Error::Iio(e.duplicate()));
                }
            },
            Ok(_) => {},
        }
        let timestamp_ns: Option<i64> = match &self.timestamp {
            None => None,
            Some(cfg) => match read_first_sample_as_i64(&reading.timestamp, cfg) {
                Ok(ts) => Some(ts),
                Err(e) => {
                    return Err(e);
                },
            },
        };
        let dt = match timestamp_ns {
            Some(ts) => {
                let before = *last_timestamp_ns;
                *last_timestamp_ns = Some(ts);
                match before {
                    Some(prev) => match ts.checked_sub(prev) {
                        Some(dt_ns) => {
                            if dt_ns > 0 {
                                SampleInterval::Measured(dt_ns as u64)
                            } else {
                                SampleInterval::Nominal
                            }
                        },
                        None => SampleInterval::Nominal,
                    },
                    None => SampleInterval::Nominal,
                }
            },
            None => SampleInterval::Nominal,
        };
        let accel_mps2 = match read_axis_scaled(&reading.accel, &self.accel) {
            Ok(v) => v,
            Err(e) => {
                return Err(e);
            },
        };
        let gyro = match &self.gyro {
            None => None,
            Some(cfg) => match read_axis_scaled(&reading.gyro, cfg) {
                Ok(v) => Some(v),
                Err(e) => {
                    return Err(e);
                },
            },
        };
        Ok(ImuSample { accel_mps2, gyro, dt })
    }

    /// Makes a sample from what a refill gave: the result is that of
    /// [`BufferPoller::sample_from`], with a failed refill taken as a
    /// timeout where its failure is of that class.
    pub fn read_sample(
        &self,
        reading: &BufferReading,
        rate_hz: u32,
        last_timestamp_ns: &mut Option<i64>,
    ) -> (sample: Result<ImuSample, Error>)
        ensures
            sample_view(sample) == sample_of(
                *self,
                *reading,
                refill_timed_out(*reading),
                rate_hz,
                *old(last_timestamp_ns),
            ),
            *final(last_timestamp_ns) == last_timestamp_after(
                *self,
                *reading,
                *old(last_timestamp_ns),
            ),
            sample matches Ok(s) ==> (s.dt matches SampleInterval::Measured(ns) ==> ns > 0),
    {
        let timed_out = match &reading.refill {
            Ok(_) => false,
            Err(e) => match fault_class(e) {
                FaultClass::TimedOut => true,
                _ => false,
            },
        };
        self.sample_from(reading, timed_out, rate_hz, last_timestamp_ns)
    }
}

/// What a failure to create the buffer is reported with.
#[derive(Debug, Clone, PartialEq, Eq)]
pub struct BufferDetails {
    pub device_id: Option<String>,
    pub device_name: Option<String>,
    pub trigger_name: Option<String>,
    /// How many scan element channels are enabled.
    pub enabled_scan_inputs: usize,
    /// The size of one record of the buffer, where the device tells it.
    pub sample_size: Option<usize>,
}

/// What a failure to create the buffer is reported with, by mathematical
/// values.
pub struct BufferDetailsView {
    pub device_id: Option<Seq<char>>,
    pub device_name: Option<Seq<char>>,
    pub trigger_name: Option<Seq<char>>,
    pub enabled_scan_inputs: usize,
    pub sample_size: Option<usize>,
}

impl View for BufferDetails {
    type V = BufferDetailsView;

    open spec fn view(&self) -> BufferDetailsView {
        BufferDetailsView {
            device_id: option_view(self.device_id),
            device_name: option_view(self.device_name),
            trigger_name: option_view(self.trigger_name),
            enabled_scan_inputs: self.enabled_scan_inputs,
            sample_size: self.sample_size,
        }
    }
}

/// What follows an attempt to create the buffer.
#[derive(Debug, Clone, PartialEq, Eq)]
pub enum BufferDecision {
    /// The buffer exists.
    Created,
    /// Disable the device's buffer, then attempt once more.
    DisableAndRetry,
    /// The failure is final.
    Fail(Error),
}

/// What follows an attempt to create the buffer, by mathematical values.
pub enum BufferDecisionView {
    Created,
    DisableAndRetry,
    Fail(ErrorView),
}

impl View for BufferDecision {
    type V = BufferDecisionView;

    open spec fn view(&self) -> BufferDecisionView {
        match self {
            BufferDecision::Created => BufferDecisionView::Created,
            BufferDecision::DisableAndRetry => BufferDecisionView::DisableAndRetry,
            BufferDecision::Fail(e) => BufferDecisionView::Fail(e@),
        }
    }
}

/// The number of records that the buffer holds: one, so that a read always
/// gives the latest record.
pub const BUFFER_CAPACITY: usize = 1;

/// The message for a buffer that could not be created.
pub open spec fn buffer_failure_message(cause: Seq<char>, details: BufferDetailsView) -> Seq<
    char,
> {
    "failed to create iio buffer: "@ + cause + " (device="@ + debug_text(details.device_id)
        + " name="@ + debug_text(details.device_name) + " trigger="@ + debug_text(
        details.trigger_name,
    ) + " enabled_scan_inputs="@ + decimal_text(details.enabled_scan_inputs as nat)
        + " sample_size="@ + count_debug_text(details.sample_size) + ")"@
}

/// The policy for creating the buffer. A busy device has its buffer
/// disabled and the creation attempted once more; a device that is busy
/// again fails with that failure as it is; any other failure is reported
/// with the details.
pub open spec fn buffer_decision(
    retried: bool,
    failure: Option<DeviceErrorView>,
    busy: bool,
    details: BufferDetailsView,
) -> BufferDecisionView {
    match failure {
        None => BufferDecisionView::Created,
        Some(e) => {
            if busy {
                if retried {
                    BufferDecisionView::Fail(ErrorView::Iio(e))
                } else {
                    BufferDecisionView::DisableAndRetry
                }
            } else {
                BufferDecisionView::Fail(
                    ErrorView::InvalidState(buffer_failure_message(e.message, details)),
                )
            }
        },
    }
}

/// The failure of an attempt by its mathematical value, `None` where the
/// attempt succeeded.
pub open spec fn attempt_failure(attempt: Option<DeviceError>) -> Option<DeviceErrorView> {
    match attempt {
        None => None,
        Some(e) => Some(e@),
    }
}

/// Checks that a buffer can be created at all: at least one scan element
/// channel must be enabled.
pub fn check_enabled_channels(enabled_scan_inputs: usize) -> (checked: Result<(), Error>)
    ensures
        enabled_scan_inputs > 0 ==> checked is Ok,
        enabled_scan_inputs == 0 ==> (checked matches Err(e) && e@ == ErrorView::InvalidState(
            "no scan element channels enabled; cannot create iio buffer"@,
        )),
{
    if enabled_scan_inputs == 0 {
        Err(Error::invalid_state("no scan element channels enabled; cannot create iio buffer"))
    } else {
        Ok(())
    }
}

/// Decides what follows an attempt to create the buffer. `failure` is that
/// of the attempt, `busy` whether it says that the device is busy, and
/// `retried` whether the attempt was the second.
pub fn buffer_attempted(
    retried: bool,
    failure: Option<DeviceError>,
    busy: bool,
    details: &BufferDetails,
) -> (decision: BufferDecision)
    ensures
        decision@ == buffer_decision(retried, attempt_failure(failure), busy, details@),
{
    match failure {
        None => BufferDecision::Created,
        Some(e) => {
            if busy {
                if retried {
                    BufferDecision::Fail(Error::Iio(e))
                } else {
                    BufferDecision::DisableAndRetry
                }
            } else {
                let mut message = "failed to create iio buffer: ".to_owned();
                message.append(e.message.as_str());
                message.append(" (device=");
                message.append(debug_option(&details.device_id).as_str());
                message.append(" name=");
                message.append(debug_option(&details.device_name).as_str());
                message.append(" trigger=");
                message.append(debug_option(&details.trigger_name).as_str());
                message.append(" enabled_scan_inputs=");
                message.append(decimal(details.enabled_scan_inputs as u64).as_str());
                message.append(" sample_size=");
                message.append(count_debug(details.sample_size).as_str());
                message.append(")");
                BufferDecision::Fail(Error::InvalidState(message))
            }
        },
    }
}

/// Whether an attempt failed with a failure that says the device is busy.
pub open spec fn attempt_busy(attempt: Option<DeviceError>) -> bool {
    attempt matches Some(e) && fault_of(e.os_code) is Busy
}

/// Decides what follows an attempt to create the buffer: the decision is
/// that of [`buffer_attempted`] for the class of the failure, and a success
/// creates the buffer.
pub fn after_buffer_attempt(retried: bool, failure: Option<DeviceError>, details: &BufferDetails) -> (decision:
    BufferDecision)
    ensures
        decision@ == buffer_decision(
            retried,
            attempt_failure(failure),
            attempt_busy(failure),
            details@,
        ),
        failure is None ==> decision@ == BufferDecisionView::Created,
{
    let busy = match &failure {
        None => false,
        Some(e) => match fault_class(e) {
            FaultClass::Busy => true,
            _ => false,
        },
    };
    buffer_attempted(retried, failure, busy, details)
}

} // verus!
