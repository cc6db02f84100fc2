//! The audio engine: device negotiation, playback-context lifecycle, the
//! worker's decision points, and the engine state machine.
//!
//! The engine never touches hardware itself: the surrounding application
//! enumerates devices, builds streams and runs threads, and hands the
//! engine plain values. Every transition — negotiation, `play_file`,
//! end-of-stream draining, cooperative stop, per-context aborts and
//! engine-fatal device faults — is decided and recorded here.

use vstd::prelude::*;

use crate::buffer::{spec_transfer_capacity, TransferBuffer};
use crate::decode::{Decoder, OpenError, StreamInfo};
use crate::resample::{Resampler, SourceConfig};
use crate::sample::{bridge_format, spec_bridge_format, DeviceConfig, HostSampleFormat};

verus! {

/// Engine-fatal device failures: any of these moves the engine to
/// `Faulted` and requires a fresh negotiation cycle.
#[derive(Clone, Copy, Debug, PartialEq, Eq, Structural)]
pub enum DeviceError {
    /// No output device is available.
    NoDevice,
    /// The device reports no configuration the pipeline can use.
    UnsupportedConfig,
    /// Building the output stream failed.
    StreamBuildFailed,
    /// Writing to the running output stream failed.
    StreamWriteFailed,
}

/// One output configuration the device reports supporting.
#[derive(Clone, Copy, Debug, PartialEq, Eq, Structural)]
pub struct ReportedConfig {
    pub min_sample_rate: u32,
    pub max_sample_rate: u32,
    pub channel_count: u16,
    pub sample_format: HostSampleFormat,
}

/// The configuration picked at negotiation: a reported configuration taken
/// at its maximum supported sample rate, before format bridging.
#[derive(Clone, Copy, Debug, PartialEq, Eq, Structural)]
pub struct NegotiatedConfig {
    pub sample_rate: u32,
    pub channel_count: u16,
    pub sample_format: HostSampleFormat,
}

/// The candidate a reported configuration contributes: itself, at its
/// maximum supported sample rate.
pub open spec fn spec_candidate(r: ReportedConfig) -> NegotiatedConfig {
    NegotiatedConfig {
        sample_rate: r.max_sample_rate,
        channel_count: r.channel_count,
        sample_format: r.sample_format,
    }
}

/// `c` is the candidate at position `i`, no reported configuration
/// supports a higher rate, and every earlier one supports strictly less:
/// the maximum-rate choice with ties broken by report order.
pub open spec fn is_choice_at(reported: Seq<ReportedConfig>, c: NegotiatedConfig, i: int) -> bool {
    &&& 0 <= i < reported.len()
    &&& c == spec_candidate(reported[i])
    &&& forall|j: int| 0 <= j < reported.len() ==> reported[j].max_sample_rate <= c.sample_rate
    &&& forall|j: int| 0 <= j < i ==> reported[j].max_sample_rate < c.sample_rate
}

/// `c` is the configuration negotiation must pick from the reported list.
pub open spec fn is_negotiated_choice(reported: Seq<ReportedConfig>, c: NegotiatedConfig) -> bool {
    exists|i: int| is_choice_at(reported, c, i)
}

/// Picks the output configuration: the one with the device's maximum
/// supported sample rate, tie-break to the first reported. An empty
/// report is `UnsupportedConfig`.
pub fn negotiate_config(reported: &Vec<ReportedConfig>) -> (r: Result<
    NegotiatedConfig,
    DeviceError,
>)
    ensures
        match r {
            Ok(c) => is_negotiated_choice(reported@, c),
            Err(e) => e == DeviceError::UnsupportedConfig && reported@.len() == 0,
        },
{
    let n = reported.len();
    if n == 0 {
        return Err(DeviceError::UnsupportedConfig);
    }
    let first = reported[0];
    let mut best = NegotiatedConfig {
        sample_rate: first.max_sample_rate,
        channel_count: first.channel_count,
        sample_format: first.sample_format,
    };
    let ghost mut bi: int = 0;
    let mut i: usize = 1;
    while i < n
        invariant
            n == reported@.len(),
            1 <= i <= n,
            0 <= bi < i,
            best == spec_candidate(reported@[bi]),
            forall|j: int| 0 <= j < i ==> reported@[j].max_sample_rate <= best.sample_rate,
            forall|j: int| 0 <= j < bi ==> reported@[j].max_sample_rate < best.sample_rate,
        decreases n - i,
    {
        let candidate = reported[i];
        if candidate.max_sample_rate > best.sample_rate {
            best = NegotiatedConfig {
                sample_rate: candidate.max_sample_rate,
                channel_count: candidate.channel_count,
                sample_format: candidate.sample_format,
            };
            proof {
                bi = i as int;
            }
        }
        i = i + 1;
    }
    proof {
        assert(is_choice_at(reported@, best, bi));
    }
    Ok(best)
}

/// The engine's lifecycle states.
#[derive(Clone, Copy, Debug, PartialEq, Eq, Structural)]
pub enum EngineState {
    /// Created; nothing negotiated yet.
    Idle,
    /// Enumerating the device's supported configurations.
    Negotiating,
    /// Configuration fixed, transfer buffer sized; accepting `play_file`.
    Ready,
    /// A context is decoding and the worker is filling the buffer.
    Playing,
    /// End of stream reached; the buffer empties naturally.
    Draining,
    /// Explicit shutdown; buffer contents discarded.
    Stopped,
    /// Unrecoverable device failure; a fresh negotiation is required.
    Faulted,
}

/// Per-file aggregate owned by the worker: the decode state machine and
/// the conversion policy for that file's stream.
pub struct PlaybackContext {
    pub decoder: Decoder,
    pub resampler: Resampler,
}

/// The engine: a single owned instance per player session, created by an
/// explicit `new` and torn down by an explicit stop.
pub struct AudioEngine {
    state: EngineState,
    negotiated: Option<NegotiatedConfig>,
    config: Option<DeviceConfig>,
    buffer: Option<TransferBuffer>,
    contexts: Vec<PlaybackContext>,
    stop_requested: bool,
}

impl AudioEngine {
    pub closed spec fn spec_state(&self) -> EngineState {
        self.state
    }

    /// The raw device-native configuration picked at negotiation.
    pub closed spec fn spec_negotiated(&self) -> Option<NegotiatedConfig> {
        self.negotiated
    }

    /// The bridged configuration the pipeline converts to.
    pub closed spec fn spec_config(&self) -> Option<DeviceConfig> {
        self.config
    }

    /// The samples currently queued for the hardware callback.
    pub closed spec fn buffered(&self) -> Seq<u64> {
        self.buffer->Some_0.contents()
    }

    pub closed spec fn spec_contexts(&self) -> Seq<PlaybackContext> {
        self.contexts@
    }

    pub closed spec fn spec_stop_requested(&self) -> bool {
        self.stop_requested
    }

    /// Whether the engine holds a sized transfer buffer and a fixed
    /// configuration (the states between negotiation and teardown).
    pub open spec fn has_stream(&self) -> bool {
        self.spec_state() is Ready || self.spec_state() is Playing || self.spec_state()
            is Draining
    }

    /// Structural invariant tying state, configuration, buffer and
    /// contexts together.
    pub closed spec fn wf(&self) -> bool {
        &&& self.has_stream() ==> {
            &&& self.negotiated is Some
            &&& self.config is Some
            &&& self.buffer is Some
            &&& self.buffer->Some_0.wf()
            &&& self.buffer->Some_0.spec_capacity() == spec_transfer_capacity()
            &&& self.buffer->Some_0.spec_format() == self.config->Some_0.sample_format
            &&& self.config->Some_0.sample_rate == self.negotiated->Some_0.sample_rate
            &&& self.config->Some_0.channel_count == self.negotiated->Some_0.channel_count
            &&& spec_bridge_format(self.negotiated->Some_0.sample_format) == Some(
                self.config->Some_0.sample_format,
            )
        }
        &&& (self.spec_state() is Playing || self.spec_state() is Draining)
            ==> self.contexts@.len() == 1
        &&& !(self.spec_state() is Playing || self.spec_state() is Draining)
            ==> self.contexts@.len() == 0
        &&& (self.spec_state() is Playing || self.spec_state() is Draining)
            ==> self.contexts@[0].resampler.spec_target() == self.config->Some_0
    }

    /// A fresh engine: idle, with nothing negotiated.
    pub fn new() -> (e: AudioEngine)
        ensures
            e.wf(),
            e.spec_state() is Idle,
            e.spec_config() is None,
            e.spec_negotiated() is None,
            !e.spec_stop_requested(),
    {
        AudioEngine {
            state: EngineState::Idle,
            negotiated: None,
            config: None,
            buffer: None,
            contexts: Vec::new(),
            stop_requested: false,
        }
    }

    pub fn state(&self) -> (s: EngineState)
        ensures
            s == self.spec_state(),
    {
        self.state
    }

    pub fn stop_requested(&self) -> (r: bool)
        ensures
            r == self.spec_stop_requested(),
    {
        self.stop_requested
    }

    /// The negotiated configuration, once the engine has one.
    pub fn device_config(&self) -> (c: Option<DeviceConfig>)
        ensures
            c == self.spec_config(),
    {
        self.config
    }

    /// Starts (or restarts, after a stop or a fault) a negotiation cycle.
    pub fn begin_negotiation(&mut self)
        requires
            old(self).wf(),
            old(self).spec_state() is Idle || old(self).spec_state() is Stopped || old(
                self,
            ).spec_state() is Faulted,
        ensures
            final(self).wf(),
            final(self).spec_state() is Negotiating,
            final(self).spec_config() is None,
            !final(self).spec_stop_requested(),
    {
        self.state = EngineState::Negotiating;
        self.negotiated = None;
        self.config = None;
        self.buffer = None;
        self.contexts = Vec::new();
        self.stop_requested = false;
    }

    /// Finishes negotiation over what the device reported: picks the
    /// maximum-rate configuration (first reported wins a tie), bridges its
    /// native format, sizes the transfer buffer, and becomes `Ready`. An
    /// empty report or an unmappable native format is `UnsupportedConfig`
    /// and faults the engine.
    pub fn complete_negotiation(&mut self, reported: &Vec<ReportedConfig>) -> (r: Result<
        DeviceConfig,
        DeviceError,
    >)
        requires
            old(self).wf(),
            old(self).spec_state() is Negotiating,
        ensures
            final(self).wf(),
            match r {
                Ok(c) => {
                    &&& final(self).spec_state() is Ready
                    &&& final(self).spec_config() == Some(c)
                    &&& final(self).spec_negotiated() matches Some(nc)
                        && is_negotiated_choice(reported@, nc)
                        && c.sample_rate == nc.sample_rate
                        && c.channel_count == nc.channel_count
                        && spec_bridge_format(nc.sample_format) == Some(c.sample_format)
                    &&& final(self).buffered() =~= Seq::<u64>::empty()
                },
                Err(e) => {
                    &&& final(self).spec_state() is Faulted
                    &&& e == DeviceError::UnsupportedConfig
                    &&& reported@.len() == 0 || (exists|c: NegotiatedConfig|
                        is_negotiated_choice(reported@, c) && spec_bridge_format(c.sample_format)
                            is None)
                },
            },
    {
        let nc = match negotiate_config(reported) {
            Ok(nc) => nc,
            Err(e) => {
                self.state = EngineState::Faulted;
                self.negotiated = None;
                self.config = None;
                self.buffer = None;
                return Err(e);
            },
        };
        let sample_format = match bridge_format(nc.sample_format) {
            Some(f) => f,
            None => {
                self.state = EngineState::Faulted;
                self.negotiated = None;
                self.config = None;
                self.buffer = None;
                return Err(DeviceError::UnsupportedConfig);
            },
        };
        let config = DeviceConfig {
            sample_rate: nc.sample_rate,
            channel_count: nc.channel_count,
            sample_format,
        };
        self.buffer = Some(TransferBuffer::with_config(&config));
        self.negotiated = Some(nc);
        self.config = Some(config);
        self.state = EngineState::Ready;
        Ok(config)
    }

    /// Accepts a parsed container (or its absence) for playback. `None`
    /// means the file could not be opened or parsed: `ContainerOpenError`.
    /// A container without an audio stream is `NoAudioStream`. Either way
    /// the engine stays `Ready`, with configuration and buffer untouched.
    /// On success a playback context is opened over the first audio
    /// stream, conversion policy fixed to the negotiated configuration,
    /// and the engine is `Playing`.
    pub fn play_file(&mut self, container: Option<Vec<StreamInfo>>) -> (r: Result<(), OpenError>)
        requires
            old(self).wf(),
            old(self).spec_state() is Ready,
        ensures
            final(self).wf(),
            final(self).spec_config() == old(self).spec_config(),
            final(self).buffered() == old(self).buffered(),
            match r {
                Ok(()) => {
                    &&& final(self).spec_state() is Playing
                    &&& container matches Some(streams)
                    &&& final(self).spec_contexts().len() == 1
                    &&& final(self).spec_contexts()[0].decoder.spec_phase()
                        is Demuxing
                    &&& {
                        let d = final(self).spec_contexts()[0].decoder;
                        let streams = container->Some_0;
                        &&& d.spec_stream_index() < streams@.len()
                        &&& streams@[d.spec_stream_index() as int].kind is Audio
                        &&& (forall|j: int|
                            0 <= j < d.spec_stream_index() ==> !(streams@[j].kind is Audio))
                    }
                    &&& final(self).spec_contexts()[0].resampler.spec_target() == old(
                        self,
                    ).spec_config()->Some_0
                },
                Err(e) => {
                    &&& *final(self) == *old(self)
                    &&& final(self).spec_state() is Ready
                    &&& (e == OpenError::ContainerOpenError <==> container is None)
                    &&& (e == OpenError::NoAudioStream ==> (container matches Some(streams)
                        && (forall|j: int|
                        0 <= j < streams@.len() ==> !(streams@[j].kind is Audio))))
                },
            },
    {
        let streams = match container {
            Some(streams) => streams,
            None => {
                return Err(OpenError::ContainerOpenError);
            },
        };
        let decoder = match Decoder::open(&streams) {
            Ok(d) => d,
            Err(e) => {
                return Err(e);
            },
        };
        let info = streams[decoder.stream_index()];
        let source = SourceConfig {
            sample_rate: info.sample_rate,
            channel_count: info.channel_count,
            sample_format: info.sample_format,
        };
        let (rate, channels, host_format) = match &self.negotiated {
            Some(nc) => (nc.sample_rate, nc.channel_count, nc.sample_format),
            None => {
                // A ready engine always holds its negotiated configuration.
                proof {
                    assert(false);
                }
                return Err(OpenError::ContainerOpenError);
            },
        };
        let resampler = match Resampler::new(source, rate, channels, host_format) {
            Ok(rs) => rs,
            Err(_) => {
                // Negotiation already proved the native format bridgeable.
                proof {
                    assert(false);
                }
                return Err(OpenError::ContainerOpenError);
            },
        };
        self.contexts.push(PlaybackContext { decoder, resampler });
        self.state = EngineState::Playing;
        Ok(())
    }

    /// Producer-side decision point: offers a converted frame's samples to
    /// the transfer buffer. Accepted whole when they fit the free space;
    /// otherwise nothing changes and the worker must back off
    /// (`PUSH_BACKOFF_MS`) and retry — backpressure, never truncation.
    pub fn push_samples(&mut self, samples: &Vec<u64>) -> (accepted: bool)
        requires
            old(self).wf(),
            old(self).spec_state() is Playing,
        ensures
            final(self).wf(),
            final(self).spec_state() == old(self).spec_state(),
            final(self).spec_config() == old(self).spec_config(),
            final(self).spec_contexts() == old(self).spec_contexts(),
            accepted <==> samples@.len() <= spec_transfer_capacity() - old(
                self,
            ).buffered().len(),
            accepted ==> final(self).buffered() =~= old(self).buffered() + samples@,
            !accepted ==> *final(self) == *old(self),
    {
        match &mut self.buffer {
            Some(b) => b.try_push(samples),
            None => false,
        }
    }

    /// Consumer-side callback run: fills the device's output block from
    /// the buffer, oldest samples first, degrading to digital silence from
    /// the first underrun on. Never blocks, never fails.
    pub fn fill_block(&mut self, block: &mut Vec<u64>)
        requires
            old(self).wf(),
            old(self).has_stream(),
        ensures
            final(self).wf(),
            final(self).spec_state() == old(self).spec_state(),
            final(self).spec_config() == old(self).spec_config(),
            final(self).spec_contexts() == old(self).spec_contexts(),
            final(block)@.len() == old(block)@.len(),
            forall|i: int|
                0 <= i < final(block)@.len() ==> final(block)@[i] == (if i < old(
                    self,
                ).buffered().len() {
                    old(self).buffered()[i]
                } else {
                    crate::sample::spec_equilibrium(
                        old(self).spec_config()->Some_0.sample_format,
                    )
                }),
            final(self).buffered() =~= (if final(block)@.len() < old(self).buffered().len() {
                old(self).buffered().skip(final(block)@.len() as int)
            } else {
                Seq::<u64>::empty()
            }),
    {
        match &mut self.buffer {
            Some(b) => b.fill_block(block),
            None => {},
        }
    }

    /// The current playback context's decode state machine, for the
    /// worker's drive loop.
    pub fn context_decoder(&mut self) -> (d: &mut Decoder)
        requires
            old(self).wf(),
            old(self).spec_state() is Playing,
        ensures
            *d == old(self).spec_contexts()[0].decoder,
            final(self).spec_contexts() == old(self).spec_contexts().update(
                0,
                PlaybackContext {
                    decoder: *final(d),
                    resampler: old(self).spec_contexts()[0].resampler,
                },
            ),
            final(self).spec_state() == old(self).spec_state(),
            final(self).spec_config() == old(self).spec_config(),
            final(self).spec_negotiated() == old(self).spec_negotiated(),
            final(self).buffered() == old(self).buffered(),
            final(self).spec_stop_requested() == old(self).spec_stop_requested(),
            final(self).spec_contexts()[0].decoder.spec_stream_index() == old(
                self,
            ).spec_contexts()[0].decoder.spec_stream_index() ==> final(self).wf(),
    {
        &mut self.contexts[0].decoder
    }

    /// The current playback context's conversion policy, for the worker's
    /// drive loop.
    pub fn context_resampler(&self) -> (r: &Resampler)
        requires
            self.wf(),
            self.spec_state() is Playing || self.spec_state() is Draining,
        ensures
            *r == self.spec_contexts()[0].resampler,
            r.spec_target() == self.spec_config()->Some_0,
    {
        &self.contexts[0].resampler
    }

    /// Signals the worker to stop: a cooperative flag the worker checks
    /// between frames, since an in-flight decode or convert call cannot
    /// be interrupted mid-call.
    pub fn request_stop(&mut self)
        requires
            old(self).wf(),
        ensures
            final(self).wf(),
            final(self).spec_stop_requested(),
            final(self).spec_state() == old(self).spec_state(),
            final(self).spec_config() == old(self).spec_config(),
            final(self).buffered() == old(self).buffered(),
            final(self).spec_contexts() == old(self).spec_contexts(),
    {
        self.stop_requested = true;
    }

    /// The worker's cancellation checkpoint, hit between frames. When a
    /// stop was requested the context is dropped, the buffer contents are
    /// discarded and the engine is `Stopped`; the worker exits. Shutdown
    /// latency is therefore bounded by the worker's per-frame checkpoint
    /// granularity plus one backoff interval.
    pub fn worker_checkpoint(&mut self) -> (exit: bool)
        requires
            old(self).wf(),
        ensures
            final(self).wf(),
            exit == old(self).spec_stop_requested(),
            exit ==> final(self).spec_state() is Stopped && final(self).spec_contexts().len()
                == 0,
            !exit ==> *final(self) == *old(self),
    {
        if self.stop_requested {
            self.state = EngineState::Stopped;
            self.buffer = None;
            self.negotiated = None;
            self.config = None;
            self.contexts = Vec::new();
            true
        } else {
            false
        }
    }

    /// End of stream reached: the worker stops producing, and the buffer
    /// is left to empty naturally through the callback before the context
    /// is discarded.
    pub fn on_end_of_stream(&mut self)
        requires
            old(self).wf(),
            old(self).spec_state() is Playing,
        ensures
            final(self).wf(),
            final(self).spec_state() is Draining,
            final(self).spec_config() == old(self).spec_config(),
            final(self).buffered() == old(self).buffered(),
            final(self).spec_contexts() == old(self).spec_contexts(),
    {
        self.state = EngineState::Draining;
    }

    /// One drain poll: once the buffer has emptied, the finished context
    /// is discarded and the engine is `Ready` for the next `play_file`.
    pub fn drain_tick(&mut self) -> (done: bool)
        requires
            old(self).wf(),
            old(self).spec_state() is Draining,
        ensures
            final(self).wf(),
            done == (old(self).buffered().len() == 0),
            done ==> final(self).spec_state() is Ready && final(self).spec_contexts().len() == 0
                && final(self).spec_config() == old(self).spec_config(),
            !done ==> *final(self) == *old(self),
    {
        let empty = match &self.buffer {
            Some(b) => b.is_empty(),
            None => true,
        };
        if empty {
            self.contexts = Vec::new();
            self.state = EngineState::Ready;
            true
        } else {
            false
        }
    }

    /// A per-context failure (codec initialization, a corrupt frame, a
    /// codec fault or a conversion fault): the context is discarded and
    /// the engine becomes `Ready` for the next request, with the device
    /// stream, configuration and buffer contents untouched.
    pub fn abort_context(&mut self)
        requires
            old(self).wf(),
            old(self).spec_state() is Playing || old(self).spec_state() is Draining,
        ensures
            final(self).wf(),
            final(self).spec_state() is Ready,
            final(self).spec_contexts().len() == 0,
            final(self).spec_config() == old(self).spec_config(),
            final(self).buffered() == old(self).buffered(),
    {
        self.contexts = Vec::new();
        self.state = EngineState::Ready;
    }

    /// An engine-fatal device failure: build, start or write failed, or no
    /// device is available. The engine reports `Faulted` and requires a
    /// fresh negotiation cycle; no partial recovery is attempted, since
    /// the hardware contract may be invalid.
    pub fn device_failed(&mut self, error: DeviceError) -> (e: DeviceError)
        requires
            old(self).wf(),
        ensures
            final(self).wf(),
            final(self).spec_state() is Faulted,
            final(self).spec_contexts().len() == 0,
            e == error,
    {
        self.state = EngineState::Faulted;
        self.negotiated = None;
        self.config = None;
        self.buffer = None;
        self.contexts = Vec::new();
        error
    }
}

} // verus!
