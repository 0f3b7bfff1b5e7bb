//! Calibration of a channel: its scale, its offset and the type of its
//! samples, and the reading of one sample.
//!
//! A raw sample is converted per its type, must fit a signed 32-bit integer,
//! and stands for `(raw + offset) * scale`. The library forms the sum; the
//! product is left to the caller, who has the arithmetic for it.

use crate::double::DoubleBits;
use crate::error::{outcome, DeviceError, Error, ErrorView};
use crate::iio::types::AxisSet;
use vstd::prelude::*;

verus! {

/// The integer type that holds one sample of a channel.
#[derive(Debug, Clone, Copy, PartialEq, Eq, Structural)]
pub enum SampleType {
    I8,
    I16,
    I32,
    I64,
    U8,
    U16,
    U32,
    U64,
}

/// How a channel stores one sample: its width in bits and whether it is
/// signed.
#[derive(Debug, Clone, Copy, PartialEq, Eq, Structural)]
pub struct StorageFormat {
    pub bits: u32,
    pub signed: bool,
}

impl SampleType {
    /// The width of the type in bits.
    pub open spec fn width(self) -> nat {
        match self {
            SampleType::I8 | SampleType::U8 => 8,
            SampleType::I16 | SampleType::U16 => 16,
            SampleType::I32 | SampleType::U32 => 32,
            SampleType::I64 | SampleType::U64 => 64,
        }
    }

    /// Whether the type is signed.
    pub open spec fn is_signed(self) -> bool {
        match self {
            SampleType::I8 | SampleType::I16 | SampleType::I32 | SampleType::I64 => true,
            _ => false,
        }
    }

    /// The type for a storage format: the one of that width and sign, where
    /// the width is 8, 16, 32 or 64 bits.
    pub open spec fn of_storage(format: StorageFormat) -> Option<SampleType> {
        if format.signed {
            if format.bits == 8 {
                Some(SampleType::I8)
            } else if format.bits == 16 {
                Some(SampleType::I16)
            } else if format.bits == 32 {
                Some(SampleType::I32)
            } else if format.bits == 64 {
                Some(SampleType::I64)
            } else {
                None
            }
        } else {
            if format.bits == 8 {
                Some(SampleType::U8)
            } else if format.bits == 16 {
                Some(SampleType::U16)
            } else if format.bits == 32 {
                Some(SampleType::U32)
            } else if format.bits == 64 {
                Some(SampleType::U64)
            } else {
                None
            }
        }
    }

    /// The type that holds a sample stored as `type_id` says, or `None`
    /// where no integer type has that width.
    pub fn from_type_id(type_id: StorageFormat) -> (t: Option<SampleType>)
        ensures
            t == Self::of_storage(type_id),
            t matches Some(st) ==> st.width() == type_id.bits && st.is_signed() == type_id.signed,
            t is None <==> type_id.bits != 8 && type_id.bits != 16 && type_id.bits != 32
                && type_id.bits != 64,
    {
        if type_id.signed {
            if type_id.bits == 8 {
                Some(SampleType::I8)
            } else if type_id.bits == 16 {
                Some(SampleType::I16)
            } else if type_id.bits == 32 {
                Some(SampleType::I32)
            } else if type_id.bits == 64 {
                Some(SampleType::I64)
            } else {
                None
            }
        } else {
            if type_id.bits == 8 {
                Some(SampleType::U8)
            } else if type_id.bits == 16 {
                Some(SampleType::U16)
            } else if type_id.bits == 32 {
                Some(SampleType::U32)
            } else if type_id.bits == 64 {
                Some(SampleType::U64)
            } else {
                None
            }
        }
    }
}

/// What calibration reads of a channel.
#[derive(Debug, Clone, PartialEq, Eq)]
pub struct ChannelProbe {
    /// Position of the channel in its device's list.
    pub chan: usize,
    /// Whether the channel can take part in a buffered read.
    pub is_scan_element: bool,
    /// The scale that the channel's buffered format carries.
    pub format_scale: DoubleBits,
    /// How the channel stores one sample.
    pub storage: StorageFormat,
    /// The attribute `scale`: `None` where the channel has none, else what
    /// reading it gave.
    pub scale_attr: Option<Result<DoubleBits, DeviceError>>,
    /// The attribute `offset`: `None` where the channel has none, else what
    /// reading it gave.
    pub offset_attr: Option<Result<i64, DeviceError>>,
}

/// A channel with its calibration.
#[derive(Debug, Clone, PartialEq, Eq)]
pub struct ChannelConfig {
    /// Position of the channel in its device's list.
    pub chan: usize,
    pub scale: DoubleBits,
    pub offset: i32,
    pub sample_type: Option<SampleType>,
}

/// The scale of a channel: that of the buffered format where the channel is
/// a scan element and the format's scale is not zero, else the attribute.
pub open spec fn scale_of(probe: ChannelProbe) -> Result<DoubleBits, ErrorView> {
    if probe.is_scan_element && !probe.format_scale.is_zero() {
        Ok(probe.format_scale)
    } else {
        match probe.scale_attr {
            None => Err(ErrorView::InvalidState("channel missing scale"@)),
            Some(Ok(scale)) => Ok(scale),
            Some(Err(e)) => Err(ErrorView::Iio(e@)),
        }
    }
}

/// The offset of a channel: the attribute where there is one, else zero.
pub open spec fn offset_of(probe: ChannelProbe) -> Result<i32, ErrorView> {
    match probe.offset_attr {
        None => Ok(0i32),
        Some(Err(e)) => Err(ErrorView::Iio(e@)),
        Some(Ok(offset)) => {
            if i32::MIN <= offset <= i32::MAX {
                Ok(offset as i32)
            } else {
                Err(ErrorView::InvalidState("channel offset does not fit into i32"@))
            }
        },
    }
}

/// The sample type of a channel.
pub open spec fn sample_type_of(probe: ChannelProbe) -> Result<SampleType, ErrorView> {
    match SampleType::of_storage(probe.storage) {
        Some(t) => Ok(t),
        None => Err(ErrorView::InvalidState("unsupported channel sample type"@)),
    }
}

/// The calibration of a channel: scale, offset and sample type, the first
/// failure among them in that order.
pub open spec fn config_of(probe: ChannelProbe) -> Result<ChannelConfig, ErrorView> {
    match scale_of(probe) {
        Err(e) => Err(e),
        Ok(scale) => match offset_of(probe) {
            Err(e) => Err(e),
            Ok(offset) => match sample_type_of(probe) {
                Err(e) => Err(e),
                Ok(t) => Ok(
                    ChannelConfig { chan: probe.chan, scale, offset, sample_type: Some(t) },
                ),
            },
        },
    }
}

/// The calibration of the three channels of a sensor, the first failure
/// among them in the order x, y, z.
pub open spec fn axis_config_of(axis: AxisSet<ChannelProbe>) -> Result<
    AxisSet<ChannelConfig>,
    ErrorView,
> {
    match config_of(axis.x) {
        Err(e) => Err(e),
        Ok(x) => match config_of(axis.y) {
            Err(e) => Err(e),
            Ok(y) => match config_of(axis.z) {
                Err(e) => Err(e),
                Ok(z) => Ok(AxisSet { x, y, z }),
            },
        },
    }
}

/// Resolves the scale of a channel.
pub fn channel_scale(chan: &ChannelProbe) -> (scale: Result<DoubleBits, Error>)
    ensures
        outcome(scale) == scale_of(*chan),
{
    if chan.is_scan_element && !chan.format_scale.zero() {
        return Ok(chan.format_scale);
    }
    match &chan.scale_attr {
        None => Err(Error::invalid_state("channel missing scale")),
        Some(Ok(scale)) => Ok(*scale),
        Some(Err(e)) => Err(Error::Iio(e.duplicate())),
    }
}

/// Resolves the offset of a channel.
pub fn channel_offset(chan: &ChannelProbe) -> (offset: Result<i32, Error>)
    ensures
        outcome(offset) == offset_of(*chan),
{
    match &chan.offset_attr {
        None => Ok(0),
        Some(Err(e)) => Err(Error::Iio(e.duplicate())),
        Some(Ok(offset)) => {
            let offset: i64 = *offset;
            if -0x8000_0000 <= offset && offset <= 0x7fff_ffff {
                Ok(offset as i32)
            } else {
                Err(Error::invalid_state("channel offset does not fit into i32"))
            }
        },
    }
}

/// Resolves the sample type of a channel.
pub fn channel_sample_type(chan: &ChannelProbe) -> (sample_type: Result<SampleType, Error>)
    ensures
        outcome(sample_type) == sample_type_of(*chan),
{
    match SampleType::from_type_id(chan.storage) {
        Some(t) => Ok(t),
        None => Err(Error::invalid_state("unsupported channel sample type")),
    }
}

fn channel_config(chan: &ChannelProbe) -> (config: Result<ChannelConfig, Error>)
    ensures
        outcome(config) == config_of(*chan),
{
    let scale = match channel_scale(chan) {
        Ok(scale) => scale,
        Err(e) => {
            return Err(e);
        },
    };
    let offset = match channel_offset(chan) {
        Ok(offset) => offset,
        Err(e) => {
            return Err(e);
        },
    };
    let sample_type = match channel_sample_type(chan) {
        Ok(t) => t,
        Err(e) => {
            return Err(e);
        },
    };
    Ok(ChannelConfig { chan: chan.chan, scale, offset, sample_type: Some(sample_type) })
}

/// Resolves the calibration of the three channels of a sensor.
pub fn axis_config_with_sample_type(axis: &AxisSet<ChannelProbe>) -> (config: Result<
    AxisSet<ChannelConfig>,
    Error,
>)
    ensures
        outcome(config) == axis_config_of(*axis),
{
    let x = match channel_config(&axis.x) {
        Ok(c) => c,
        Err(e) => {
            return Err(e);
        },
    };
    let y = match channel_config(&axis.y) {
        Ok(c) => c,
        Err(e) => {
            return Err(e);
        },
    };
    let z = match channel_config(&axis.z) {
        Ok(c) => c,
        Err(e) => {
            return Err(e);
        },
    };
    Ok(AxisSet { x, y, z })
}

/// One sample as it comes out of the buffer, converted to the host's byte
/// order, in the integer type of its channel.
#[derive(Debug, Clone, Copy, PartialEq, Eq, Structural)]
pub enum RawSample {
    I8(i8),
    I16(i16),
    I32(i32),
    I64(i64),
    U8(u8),
    U16(u16),
    U32(u32),
    U64(u64),
}

impl RawSample {
    /// The number that the sample holds.
    pub open spec fn value(self) -> int {
        match self {
            RawSample::I8(v) => v as int,
            RawSample::I16(v) => v as int,
            RawSample::I32(v) => v as int,
            RawSample::I64(v) => v as int,
            RawSample::U8(v) => v as int,
            RawSample::U16(v) => v as int,
            RawSample::U32(v) => v as int,
            RawSample::U64(v) => v as int,
        }
    }
}

/// A calibrated reading: it stands for the product of `sum` and `scale`.
#[derive(Debug, Clone, Copy, PartialEq, Eq, Structural)]
pub struct ScaledSample {
    /// Raw sample plus offset.
    pub sum: i64,
    pub scale: DoubleBits,
}

/// The first sample of a channel as a 64-bit integer. `first` is what the
/// buffer held for the channel, `None` where it held nothing.
pub open spec fn first_sample_of(first: Option<RawSample>, cfg: ChannelConfig) -> Result<
    i64,
    ErrorView,
> {
    if cfg.sample_type is None {
        Err(ErrorView::InvalidState("missing sample type"@))
    } else {
        match first {
            None => Err(ErrorView::InvalidState("missing sample"@)),
            Some(sample) => {
                if sample.value() <= i64::MAX {
                    Ok(sample.value() as i64)
                } else {
                    Err(ErrorView::InvalidState("invalid sample value"@))
                }
            },
        }
    }
}

/// The first sample of a channel with its calibration applied: the sample
/// must fit a signed 32-bit integer.
pub open spec fn first_scaled_of(first: Option<RawSample>, cfg: ChannelConfig) -> Result<
    ScaledSample,
    ErrorView,
> {
    match first_sample_of(first, cfg) {
        Err(e) => Err(e),
        Ok(raw) => {
            if i32::MIN <= raw <= i32::MAX {
                Ok(ScaledSample { sum: (raw + cfg.offset) as i64, scale: cfg.scale })
            } else {
                Err(ErrorView::InvalidState("sample does not fit into i32"@))
            }
        },
    }
}

/// The calibrated readings of the three channels of a sensor, the first
/// failure among them in the order x, y, z.
pub open spec fn axis_scaled_of(
    first: AxisSet<Option<RawSample>>,
    axis: AxisSet<ChannelConfig>,
) -> Result<Seq<ScaledSample>, ErrorView> {
    match first_scaled_of(first.x, axis.x) {
        Err(e) => Err(e),
        Ok(x) => match first_scaled_of(first.y, axis.y) {
            Err(e) => Err(e),
            Ok(y) => match first_scaled_of(first.z, axis.z) {
                Err(e) => Err(e),
                Ok(z) => Ok(seq![x, y, z]),
            },
        },
    }
}

/// Applies a channel's calibration to a raw sample: the result stands for
/// `(raw + offset) * scale`, with the sum formed exactly.
pub fn apply_scale_offset(raw: i32, offset: i32, scale: DoubleBits) -> (scaled: ScaledSample)
    ensures
        scaled.sum == raw + offset,
        scaled.scale == scale,
{
    let wide_raw: i64 = raw as i64;
    let wide_offset: i64 = offset as i64;
    ScaledSample { sum: wide_raw + wide_offset, scale }
}

/// Reads the first sample of a channel as a 64-bit integer.
pub fn read_first_sample_as_i64(first: &Option<RawSample>, cfg: &ChannelConfig) -> (raw: Result<
    i64,
    Error,
>)
    ensures
        outcome(raw) == first_sample_of(*first, *cfg),
{
    if cfg.sample_type.is_none() {
        return Err(Error::invalid_state("missing sample type"));
    }
    match first {
        None => Err(Error::invalid_state("missing sample")),
        Some(RawSample::I8(v)) => Ok(*v as i64),
        Some(RawSample::I16(v)) => Ok(*v as i64),
        Some(RawSample::I32(v)) => Ok(*v as i64),
        Some(RawSample::I64(v)) => Ok(*v),
        Some(RawSample::U8(v)) => Ok(*v as i64),
        Some(RawSample::U16(v)) => Ok(*v as i64),
        Some(RawSample::U32(v)) => Ok(*v as i64),
        Some(RawSample::U64(v)) => {
            if *v <= 0x7fff_ffff_ffff_ffff {
                Ok(*v as i64)
            } else {
                Err(Error::invalid_state("invalid sample value"))
            }
        },
    }
}

/// Reads the first sample of a channel and applies the calibration.
pub fn read_first_scaled(first: &Option<RawSample>, cfg: &ChannelConfig) -> (scaled: Result<
    ScaledSample,
    Error,
>)
    ensures
        outcome(scaled) == first_scaled_of(*first, *cfg),
{
    let raw = match read_first_sample_as_i64(first, cfg) {
        Ok(raw) => raw,
        Err(e) => {
            return Err(e);
        },
    };
    if -0x8000_0000 <= raw && raw <= 0x7fff_ffff {
        Ok(apply_scale_offset(raw as i32, cfg.offset, cfg.scale))
    } else {
        Err(Error::invalid_state("sample does not fit into i32"))
    }
}

/// Reads the first sample of each channel of a sensor and applies the
/// calibration.
pub fn read_axis_scaled(first: &AxisSet<Option<RawSample>>, axis: &AxisSet<ChannelConfig>) -> (scaled:
    Result<[ScaledSample; 3], Error>)
    ensures
        match scaled {
            Ok(values) => axis_scaled_of(*first, *axis) == Ok::<_, ErrorView>(values@),
            Err(e) => axis_scaled_of(*first, *axis) == Err::<Seq<ScaledSample>, _>(e@),
        },
{
    let x = match read_first_scaled(&first.x, &axis.x) {
        Ok(v) => v,
        Err(e) => {
            return Err(e);
        },
    };
    let y = match read_first_scaled(&first.y, &axis.y) {
        Ok(v) => v,
        Err(e) => {
            return Err(e);
        },
    };
    let z = match read_first_scaled(&first.z, &axis.z) {
        Ok(v) => v,
        Err(e) => {
            return Err(e);
        },
    };
    let values = [x, y, z];
    assert(values@ =~= seq![x, y, z]);
    Ok(values)
}

} // verus!
