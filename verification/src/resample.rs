//! The resampler: conversion policy between a source stream's decoded
//! format and the negotiated device configuration.
//!
//! The arithmetic of rate conversion is an outside collaborator; this
//! module owns everything around it: whether a conversion is needed at
//! all (identical configurations pass through as the identity), which
//! target formats have a defined mapping, and the validation of every
//! converted frame — planar output is a hard fault, since downstream
//! sample extraction assumes one contiguous interleaved slice.

use vstd::prelude::*;

use crate::frame::{DecodedFrame, ResampledFrame};
use crate::sample::{bridge_format, spec_bridge_format, DeviceConfig, HostSampleFormat, SampleFormat};

verus! {

/// Failure to convert decoded frames to the device configuration; fatal
/// for the context, not for the engine.
#[derive(Clone, Copy, Debug, PartialEq, Eq, Structural)]
pub enum ResampleError {
    /// The target format has no defined mapping: a hard error, not a
    /// silent best-effort guess.
    UnsupportedConversion,
    /// The converter produced planar output where packed was required.
    UnpackedOutput,
}

/// The decoded format of a source stream, fixed when its context opens.
#[derive(Clone, Copy, Debug, PartialEq, Eq, Structural)]
pub struct SourceConfig {
    pub sample_rate: u32,
    pub channel_count: u16,
    pub sample_format: SampleFormat,
}

/// The outcome of submitting one decoded frame.
#[derive(Clone, Debug)]
pub enum ConvertStep {
    /// The frame already matches the device configuration and passes
    /// through unchanged; no external conversion runs.
    Ready(ResampledFrame),
    /// The frame needs the outside rate converter: hand it over, then pass
    /// the converter's output back through `accept_converted`.
    External(DecodedFrame),
}

/// Conversion policy from one source stream to the negotiated device
/// configuration.
pub struct Resampler {
    source: SourceConfig,
    target: DeviceConfig,
}

impl Resampler {
    pub closed spec fn spec_source(&self) -> SourceConfig {
        self.source
    }

    pub closed spec fn spec_target(&self) -> DeviceConfig {
        self.target
    }

    /// Whether source and target configurations are identical, making the
    /// conversion the identity transform.
    pub open spec fn spec_is_identity(&self) -> bool {
        &&& self.spec_source().sample_rate == self.spec_target().sample_rate
        &&& self.spec_source().channel_count == self.spec_target().channel_count
        &&& self.spec_source().sample_format == self.spec_target().sample_format
    }

    /// Whether a frame matches the negotiated device configuration.
    pub open spec fn spec_matches_target(&self, frame: DecodedFrame) -> bool {
        &&& frame.sample_rate == self.spec_target().sample_rate
        &&& frame.channel_count == self.spec_target().channel_count
        &&& frame.sample_format == self.spec_target().sample_format
    }

    /// Builds the conversion policy for one source stream and the device's
    /// reported target. Fails with `UnsupportedConversion` when the
    /// device-native format has no defined pipeline mapping.
    pub fn new(
        source: SourceConfig,
        target_rate: u32,
        target_channel_count: u16,
        target_format: HostSampleFormat,
    ) -> (r: Result<Resampler, ResampleError>)
        ensures
            match r {
                Ok(rs) => {
                    &&& spec_bridge_format(target_format) is Some
                    &&& rs.spec_source() == source
                    &&& rs.spec_target() == (DeviceConfig {
                        sample_rate: target_rate,
                        channel_count: target_channel_count,
                        sample_format: spec_bridge_format(target_format)->Some_0,
                    })
                },
                Err(e) => e == ResampleError::UnsupportedConversion && spec_bridge_format(
                    target_format,
                ) is None,
            },
    {
        match bridge_format(target_format) {
            Some(sample_format) => Ok(
                Resampler {
                    source,
                    target: DeviceConfig {
                        sample_rate: target_rate,
                        channel_count: target_channel_count,
                        sample_format,
                    },
                },
            ),
            None => Err(ResampleError::UnsupportedConversion),
        }
    }

    pub fn is_identity(&self) -> (r: bool)
        ensures
            r == self.spec_is_identity(),
    {
        self.source.sample_rate == self.target.sample_rate && self.source.channel_count
            == self.target.channel_count && self.source.sample_format == self.target.sample_format
    }

    /// Submits one decoded frame. When source and target configurations
    /// are identical the conversion is the identity transform: the output
    /// carries exactly the input's samples and no delay. Otherwise the
    /// frame is handed back for the outside converter. A planar frame on
    /// the identity path is the `UnpackedOutput` fault: the pass-through
    /// would otherwise emit planar output.
    pub fn convert(&self, frame: DecodedFrame) -> (r: Result<ConvertStep, ResampleError>)
        ensures
            match r {
                Ok(step) => match step {
                    ConvertStep::Ready(out) => {
                        &&& self.spec_is_identity()
                        &&& frame.packed
                        &&& out.data == frame.data
                        &&& out.sample_rate == frame.sample_rate
                        &&& out.channel_count == frame.channel_count
                        &&& out.sample_format == frame.sample_format
                        &&& out.sample_count == frame.sample_count
                        &&& out.pending_delay_ms is None
                        &&& out.spec_samples() == frame.spec_samples()
                    },
                    ConvertStep::External(f) => !self.spec_is_identity() && f == frame,
                },
                Err(e) => e == ResampleError::UnpackedOutput && self.spec_is_identity()
                    && !frame.packed,
            },
    {
        if !self.is_identity() {
            return Ok(ConvertStep::External(frame));
        }
        if !frame.packed {
            return Err(ResampleError::UnpackedOutput);
        }
        Ok(
            ConvertStep::Ready(
                ResampledFrame {
                    data: frame.data,
                    channel_count: frame.channel_count,
                    sample_format: frame.sample_format,
                    sample_rate: frame.sample_rate,
                    sample_count: frame.sample_count,
                    pending_delay_ms: None,
                },
            ),
        )
    }

    /// Validates what the outside converter produced for this policy's
    /// target, carrying along the delay it reported, if any. Planar output
    /// is the `UnpackedOutput` fault; output that does not match the
    /// negotiated configuration means the conversion that ran is not the
    /// defined mapping, surfaced as `UnsupportedConversion`.
    pub fn accept_converted(&self, converted: DecodedFrame, delay_ms: Option<u64>) -> (r: Result<
        ResampledFrame,
        ResampleError,
    >)
        ensures
            match r {
                Ok(out) => {
                    &&& converted.packed
                    &&& self.spec_matches_target(converted)
                    &&& out.data == converted.data
                    &&& out.sample_rate == self.spec_target().sample_rate
                    &&& out.channel_count == self.spec_target().channel_count
                    &&& out.sample_format == self.spec_target().sample_format
                    &&& out.sample_count == converted.sample_count
                    &&& out.pending_delay_ms == delay_ms
                    &&& out.spec_samples() == converted.spec_samples()
                    &&& out.well_formed() == converted.well_formed()
                },
                Err(ResampleError::UnpackedOutput) => !converted.packed,
                Err(ResampleError::UnsupportedConversion) => converted.packed
                    && !self.spec_matches_target(converted),
            },
    {
        if !converted.packed {
            return Err(ResampleError::UnpackedOutput);
        }
        if !(converted.sample_rate == self.target.sample_rate && converted.channel_count
            == self.target.channel_count && converted.sample_format == self.target.sample_format) {
            return Err(ResampleError::UnsupportedConversion);
        }
        Ok(
            ResampledFrame {
                data: converted.data,
                channel_count: converted.channel_count,
                sample_format: converted.sample_format,
                sample_rate: converted.sample_rate,
                sample_count: converted.sample_count,
                pending_delay_ms: delay_ms,
            },
        )
    }
}

} // verus!
