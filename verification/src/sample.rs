//! Sample formats and the bridge between the device's native sample
//! representation and the pipeline's internal one.
//!
//! A raw sample travels through the pipeline as the little-endian bit
//! pattern of its native encoding, widened to 64 bits; the equilibrium
//! (digital silence) value of every supported format has an all-zero bit
//! pattern, so underrun handling needs no per-format case split.

use vstd::prelude::*;

verus! {

/// The sample formats the pipeline supports end to end: each has a defined
/// mapping between the device-native and the decoder-side representation.
#[derive(Clone, Copy, Debug, PartialEq, Eq, Structural)]
pub enum SampleFormat {
    F32,
    F64,
    I16,
    I32,
    I64,
    U8,
}

/// Every sample representation a host device may report, including exotic
/// ones for which the pipeline defines no mapping.
#[derive(Clone, Copy, Debug, PartialEq, Eq, Structural)]
pub enum HostSampleFormat {
    I8,
    I16,
    I32,
    I64,
    U8,
    U16,
    U32,
    U64,
    F32,
    F64,
}

/// The device-native formats with a defined pipeline mapping.
pub open spec fn spec_bridge_format(host: HostSampleFormat) -> Option<SampleFormat> {
    match host {
        HostSampleFormat::F32 => Some(SampleFormat::F32),
        HostSampleFormat::F64 => Some(SampleFormat::F64),
        HostSampleFormat::I16 => Some(SampleFormat::I16),
        HostSampleFormat::I32 => Some(SampleFormat::I32),
        HostSampleFormat::I64 => Some(SampleFormat::I64),
        HostSampleFormat::U8 => Some(SampleFormat::U8),
        _ => None,
    }
}

/// Maps the device's native sample representation to the pipeline's
/// internal one; an exotic format has no mapping and yields `None`, which
/// callers must treat as a hard error, never as a best-effort guess.
pub fn bridge_format(host: HostSampleFormat) -> (r: Option<SampleFormat>)
    ensures
        r == spec_bridge_format(host),
{
    match host {
        HostSampleFormat::F32 => Some(SampleFormat::F32),
        HostSampleFormat::F64 => Some(SampleFormat::F64),
        HostSampleFormat::I16 => Some(SampleFormat::I16),
        HostSampleFormat::I32 => Some(SampleFormat::I32),
        HostSampleFormat::I64 => Some(SampleFormat::I64),
        HostSampleFormat::U8 => Some(SampleFormat::U8),
        _ => None,
    }
}

/// Width in bytes of one sample of the given format.
pub open spec fn spec_bytes_per_sample(f: SampleFormat) -> nat {
    match f {
        SampleFormat::F32 => 4,
        SampleFormat::F64 => 8,
        SampleFormat::I16 => 2,
        SampleFormat::I32 => 4,
        SampleFormat::I64 => 8,
        SampleFormat::U8 => 1,
    }
}

pub fn bytes_per_sample(f: SampleFormat) -> (n: usize)
    ensures
        n == spec_bytes_per_sample(f),
        1 <= n <= 8,
{
    match f {
        SampleFormat::F32 => 4,
        SampleFormat::F64 => 8,
        SampleFormat::I16 => 2,
        SampleFormat::I32 => 4,
        SampleFormat::I64 => 8,
        SampleFormat::U8 => 1,
    }
}

/// The output configuration negotiated with the device at engine start;
/// immutable for the lifetime of the output stream.
#[derive(Clone, Copy, Debug, PartialEq, Eq, Structural)]
pub struct DeviceConfig {
    pub sample_rate: u32,
    pub channel_count: u16,
    pub sample_format: SampleFormat,
}

/// The digital-silence value of a format, as the raw bit pattern of its
/// native encoding: 0 for the integer formats and 0.0 for the floating
/// point ones, whose encodings are all zero bits.
pub open spec fn spec_equilibrium(f: SampleFormat) -> u64 {
    0
}

pub fn equilibrium(f: SampleFormat) -> (s: u64)
    ensures
        s == spec_equilibrium(f),
{
    0
}

} // verus!
