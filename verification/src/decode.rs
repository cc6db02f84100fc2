//! The decoder: stream selection and the per-context decode state machine.
//!
//! The codec itself is an outside collaborator; this module owns every
//! decision around it: which container stream feeds the codec, when to
//! request the next packet, when to run the final flush pass, and how a
//! corrupt frame or codec fault poisons the context so that it can never
//! yield another frame.

use vstd::prelude::*;

use crate::frame::DecodedFrame;
use crate::sample::SampleFormat;

verus! {

/// Failure to open a container and locate an audio stream in it.
#[derive(Clone, Copy, Debug, PartialEq, Eq, Structural)]
pub enum OpenError {
    /// The file could not be opened or parsed as a media container.
    ContainerOpenError,
    /// The container holds no audio stream.
    NoAudioStream,
}

/// Failure to initialize a codec from the selected stream's parameters.
#[derive(Clone, Copy, Debug, PartialEq, Eq, Structural)]
pub struct CodecInitError;

/// Failure while decoding; fatal for the context, not for the engine.
#[derive(Clone, Copy, Debug, PartialEq, Eq, Structural)]
pub enum DecodeError {
    /// The codec flagged the current frame as corrupt.
    CorruptFrame,
    /// The codec itself failed.
    CodecFault,
}

/// The media kind of one container stream.
#[derive(Clone, Copy, Debug, PartialEq, Eq, Structural)]
pub enum MediaKind {
    Audio,
    Video,
    Subtitle,
    Other,
}

/// What the demuxer reports about one container stream.
#[derive(Clone, Copy, Debug, PartialEq, Eq, Structural)]
pub struct StreamInfo {
    /// The stream's index within the container.
    pub index: usize,
    pub kind: MediaKind,
    /// Sample rate of the stream, if it is audio.
    pub sample_rate: u32,
    /// Channel count of the stream, if it is audio.
    pub channel_count: u16,
    /// The decoded sample format the stream's codec emits, if audio.
    pub sample_format: SampleFormat,
}

/// Picks the audio stream a new context will decode: the first audio
/// stream the container reports.
pub fn select_audio_stream(streams: &Vec<StreamInfo>) -> (r: Result<usize, OpenError>)
    ensures
        match r {
            Ok(i) => i < streams@.len() && streams@[i as int].kind is Audio && (forall|j: int|
                0 <= j < i ==> !(streams@[j].kind is Audio)),
            Err(e) => e == OpenError::NoAudioStream && (forall|j: int|
                0 <= j < streams@.len() ==> !(streams@[j].kind is Audio)),
        },
{
    let n = streams.len();
    let mut i: usize = 0;
    while i < n
        invariant
            n == streams@.len(),
            i <= n,
            forall|j: int| 0 <= j < i ==> !(streams@[j].kind is Audio),
        decreases n - i,
    {
        match streams[i].kind {
            MediaKind::Audio => {
                return Ok(i);
            },
            _ => {},
        }
        i = i + 1;
    }
    Err(OpenError::NoAudioStream)
}

/// Where a decode context stands in its forward-only life.
#[derive(Clone, Copy, Debug, PartialEq, Eq, Structural)]
pub enum DecoderPhase {
    /// Feeding compressed packets and draining every frame the codec is
    /// ready to emit.
    Demuxing,
    /// End of input packets reached; the flush pass drains what the codec
    /// still buffers.
    Flushing,
    /// The flush pass drained everything: the frame sequence has ended.
    Finished,
    /// A corrupt frame or codec fault ended the context; it yields nothing
    /// further.
    Poisoned,
}

/// What the codec reported for one receive call.
#[derive(Clone, Debug)]
pub enum CodecResponse {
    /// A decoded frame is ready.
    Frame(DecodedFrame),
    /// The codec needs more input before it can emit a frame.
    NeedInput,
    /// The codec has drained everything after the terminating packet.
    Flushed,
    /// The codec failed.
    Fault,
}

/// What one decode step yields.
#[derive(Clone, Debug)]
pub enum DecodeStep {
    /// A frame to hand downstream.
    Frame(DecodedFrame),
    /// Feed the next packet (or the terminating one, per `next_action`).
    NeedInput,
    /// The frame sequence ended normally.
    End,
    /// The context is dead; the error aborts it and nothing else.
    Error(DecodeError),
}

/// What the drive loop should do next for this context.
#[derive(Clone, Copy, Debug, PartialEq, Eq, Structural)]
pub enum DecoderAction {
    /// Feed the next compressed packet of the selected stream.
    SendPacket,
    /// Feed the empty terminating packet to start the flush pass.
    SendFlush,
    /// Nothing further: the context is finished or poisoned.
    Stop,
}

/// The per-context decode state machine.
pub struct Decoder {
    stream_index: usize,
    phase: DecoderPhase,
}

impl Decoder {
    /// The index of the container stream this context decodes.
    pub closed spec fn spec_stream_index(&self) -> usize {
        self.stream_index
    }

    pub closed spec fn spec_phase(&self) -> DecoderPhase {
        self.phase
    }

    /// The index of the container stream this context decodes.
    pub fn stream_index(&self) -> (i: usize)
        ensures
            i == self.spec_stream_index(),
    {
        self.stream_index
    }

    /// Whether the context may still yield frames.
    pub open spec fn can_yield(&self) -> bool {
        self.spec_phase() is Demuxing || self.spec_phase() is Flushing
    }

    /// Opens a context over the streams a parsed container reports:
    /// selects the audio stream to decode, or fails with `NoAudioStream`.
    pub fn open(streams: &Vec<StreamInfo>) -> (r: Result<Decoder, OpenError>)
        ensures
            match r {
                Ok(d) => {
                    &&& d.spec_phase() is Demuxing
                    &&& d.spec_stream_index() < streams@.len()
                    &&& streams@[d.spec_stream_index() as int].kind is Audio
                    &&& forall|j: int|
                        0 <= j < d.spec_stream_index() ==> !(streams@[j].kind is Audio)
                },
                Err(e) => e == OpenError::NoAudioStream && (forall|j: int|
                    0 <= j < streams@.len() ==> !(streams@[j].kind is Audio)),
            },
    {
        let index = select_audio_stream(streams)?;
        Ok(Decoder { stream_index: index, phase: DecoderPhase::Demuxing })
    }

    /// Whether a demuxed packet belongs to this context: only packets of
    /// the selected audio stream are fed to the codec, and only while the
    /// context is demuxing.
    pub fn wants_packet(&self, packet_stream_index: usize) -> (r: bool)
        ensures
            r == (packet_stream_index == self.spec_stream_index() && self.spec_phase()
                is Demuxing),
    {
        match self.phase {
            DecoderPhase::Demuxing => packet_stream_index == self.stream_index,
            _ => false,
        }
    }

    /// What the drive loop should do next.
    pub fn next_action(&self) -> (a: DecoderAction)
        ensures
            a == (match self.spec_phase() {
                DecoderPhase::Demuxing => DecoderAction::SendPacket,
                DecoderPhase::Flushing => DecoderAction::SendFlush,
                DecoderPhase::Finished => DecoderAction::Stop,
                DecoderPhase::Poisoned => DecoderAction::Stop,
            }),
    {
        match self.phase {
            DecoderPhase::Demuxing => DecoderAction::SendPacket,
            DecoderPhase::Flushing => DecoderAction::SendFlush,
            DecoderPhase::Finished => DecoderAction::Stop,
            DecoderPhase::Poisoned => DecoderAction::Stop,
        }
    }

    /// Input packets ran out: switch to the flush pass that drains what
    /// the codec still buffers.
    pub fn on_end_of_input(&mut self)
        requires
            old(self).spec_phase() is Demuxing,
        ensures
            final(self).spec_phase() is Flushing,
            final(self).spec_stream_index() == old(self).spec_stream_index(),
    {
        self.phase = DecoderPhase::Flushing;
    }

    /// One decode step: interprets what the codec reported for a receive
    /// call. A corrupt frame surfaces as `CorruptFrame` and poisons the
    /// context — it must not yield further frames; a codec failure does
    /// the same as `CodecFault`; a sound frame passes through unchanged.
    pub fn on_response(&mut self, response: CodecResponse) -> (step: DecodeStep)
        requires
            old(self).can_yield(),
        ensures
            final(self).spec_stream_index() == old(self).spec_stream_index(),
            match response {
                CodecResponse::Frame(f) => if f.is_corrupt {
                    step == DecodeStep::Error(DecodeError::CorruptFrame)
                        && final(self).spec_phase() is Poisoned
                } else {
                    step == DecodeStep::Frame(f) && *final(self) == *old(self)
                },
                CodecResponse::NeedInput => step == DecodeStep::NeedInput
                    && *final(self) == *old(self),
                CodecResponse::Flushed => step == DecodeStep::End && final(self).spec_phase()
                    is Finished,
                CodecResponse::Fault => step == DecodeStep::Error(DecodeError::CodecFault)
                    && final(self).spec_phase() is Poisoned,
            },
    {
        match response {
            CodecResponse::Frame(f) => {
                if f.is_corrupt {
                    self.phase = DecoderPhase::Poisoned;
                    DecodeStep::Error(DecodeError::CorruptFrame)
                } else {
                    DecodeStep::Frame(f)
                }
            },
            CodecResponse::NeedInput => DecodeStep::NeedInput,
            CodecResponse::Flushed => {
                self.phase = DecoderPhase::Finished;
                DecodeStep::End
            },
            CodecResponse::Fault => {
                self.phase = DecoderPhase::Poisoned;
                DecodeStep::Error(DecodeError::CodecFault)
            },
        }
    }
}

/// Corruption law: a poisoned context — one that surfaced a corrupt
/// frame or a codec fault — can never yield another frame: every
/// frame-yielding step requires `can_yield`, which a poisoned context
/// fails for good.
pub proof fn lemma_poisoned_yields_nothing(d: Decoder)
    requires
        d.spec_phase() is Poisoned,
    ensures
        !d.can_yield(),
{
}

/// The frames a run over the given codec responses yields: every sound
/// frame up to (not including) the first corrupt frame, codec fault or
/// flush acknowledgement.
pub open spec fn script_frames(responses: Seq<CodecResponse>) -> Seq<DecodedFrame>
    decreases responses.len(),
{
    if responses.len() == 0 {
        Seq::empty()
    } else {
        match responses[0] {
            CodecResponse::Frame(f) => if f.is_corrupt {
                Seq::empty()
            } else {
                seq![f] + script_frames(responses.drop_first())
            },
            CodecResponse::NeedInput => script_frames(responses.drop_first()),
            CodecResponse::Flushed => Seq::empty(),
            CodecResponse::Fault => Seq::empty(),
        }
    }
}

/// The error, if any, that ends a run over the given codec responses.
pub open spec fn script_error(responses: Seq<CodecResponse>) -> Option<DecodeError>
    decreases responses.len(),
{
    if responses.len() == 0 {
        None
    } else {
        match responses[0] {
            CodecResponse::Frame(f) => if f.is_corrupt {
                Some(DecodeError::CorruptFrame)
            } else {
                script_error(responses.drop_first())
            },
            CodecResponse::NeedInput => script_error(responses.drop_first()),
            CodecResponse::Flushed => None,
            CodecResponse::Fault => Some(DecodeError::CodecFault),
        }
    }
}

/// Runs a context over a whole sequence of codec responses and collects
/// the yielded frames: exactly the sound frames before the first corrupt
/// frame or fault, in order, together with the error that ended the run,
/// if any. Once an error surfaces, no further response yields a frame.
pub fn collect_frames(decoder: &mut Decoder, responses: Vec<CodecResponse>) -> (out: (
    Vec<DecodedFrame>,
    Option<DecodeError>,
))
    requires
        old(decoder).can_yield(),
    ensures
        out.0@ == script_frames(responses@),
        out.1 == script_error(responses@),
        final(decoder).spec_stream_index() == old(decoder).spec_stream_index(),
        script_error(responses@) is Some ==> final(decoder).spec_phase() is Poisoned,
{
    let mut frames: Vec<DecodedFrame> = Vec::new();
    let ghost rs = responses@;
    let mut rest = responses;
    let mut stopped: bool = false;
    let mut error: Option<DecodeError> = None;
    while !stopped && rest.len() > 0
        invariant
            decoder.spec_stream_index() == old(decoder).spec_stream_index(),
            !stopped ==> decoder.can_yield(),
            !stopped ==> error is None,
            !stopped ==> script_frames(rs) == frames@ + script_frames(rest@),
            !stopped ==> script_error(rs) == script_error(rest@),
            stopped ==> frames@ == script_frames(rs),
            stopped ==> error == script_error(rs),
            stopped && script_error(rs) is Some ==> decoder.spec_phase() is Poisoned,
        decreases rest@.len() + (if stopped { 0int } else { 1int }),
    {
        let ghost cur = rest@;
        let response = rest.remove(0);
        proof {
            assert(cur.remove(0) =~= cur.drop_first());
        }
        let ghost pre_frames = frames@;
        let step = decoder.on_response(response);
        match step {
            DecodeStep::Frame(f) => {
                frames.push(f);
                proof {
                    assert(pre_frames + (seq![f] + script_frames(rest@)) =~= frames@
                        + script_frames(rest@));
                }
            },
            DecodeStep::NeedInput => {},
            DecodeStep::End => {
                stopped = true;
            },
            DecodeStep::Error(e) => {
                error = Some(e);
                stopped = true;
            },
        }
    }
    if !stopped {
        proof {
            assert(script_frames(rest@) =~= Seq::<DecodedFrame>::empty());
        }
    }
    (frames, error)
}

} // verus!
