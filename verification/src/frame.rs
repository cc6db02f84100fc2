//! Decoded and resampled audio frames, and the validated view that turns a
//! frame's raw byte buffer into sample words.
//!
//! The view replaces pointer reinterpretation with a checked conversion:
//! it refuses a frame whose declared format, channel count and sample count
//! do not match the buffer it carries, instead of exposing ill-typed memory.

use vstd::prelude::*;

use crate::sample::{bytes_per_sample, spec_bytes_per_sample, SampleFormat};

verus! {

/// The value of a little-endian byte string.
pub open spec fn le_value(bytes: Seq<u8>) -> nat
    decreases bytes.len(),
{
    if bytes.len() == 0 {
        0
    } else {
        (bytes[0] as nat) + 256 * le_value(bytes.drop_first())
    }
}

/// 256 to the power `n`: the number of values a byte string of length `n`
/// can take.
pub open spec fn pow256(n: nat) -> nat
    decreases n,
{
    if n == 0 {
        1
    } else {
        256 * pow256((n - 1) as nat)
    }
}

proof fn lemma_pow256_monotone(m: nat, n: nat)
    requires
        m <= n,
    ensures
        pow256(m) <= pow256(n),
    decreases n,
{
    if m < n {
        lemma_pow256_monotone(m, (n - 1) as nat);
    }
}

proof fn lemma_le_value_bound(bytes: Seq<u8>)
    ensures
        le_value(bytes) < pow256(bytes.len()),
    decreases bytes.len(),
{
    if bytes.len() > 0 {
        lemma_le_value_bound(bytes.drop_first());
    }
}

/// The packed sample words of a byte buffer: consecutive groups of `w`
/// bytes, each read as a little-endian value.
pub open spec fn words_of(data: Seq<u8>, w: nat) -> Seq<u64>
    recommends
        1 <= w <= 8,
{
    Seq::new(data.len() / w, |i: int| le_value(data.subrange(i * w, i * w + w)) as u64)
}

/// Reads a byte buffer as packed little-endian sample words of width `w`.
pub fn packed_words(data: &Vec<u8>, w: usize) -> (out: Vec<u64>)
    requires
        1 <= w <= 8,
    ensures
        out@ == words_of(data@, w as nat),
        out@.len() == data@.len() / (w as nat),
{
    let dn = data.len();
    let mut out: Vec<u64> = Vec::new();
    let mut pos: usize = 0;
    proof {
        assert(pos == out@.len() * w) by (nonlinear_arith)
            requires
                pos == 0,
                out@.len() == 0,
        ;
    }
    while w <= data.len() - pos
        invariant
            1 <= w <= 8,
            dn == data@.len(),
            pos == out@.len() * w,
            pos <= data@.len(),
            forall|j: int|
                0 <= j < out@.len() ==> out@[j] == le_value(
                    data@.subrange(j * (w as int), j * (w as int) + w),
                ) as u64,
        decreases data@.len() - pos,
    {
        let ghost prev_out = out@;
        let mut word: u64 = 0;
        let mut k: usize = w;
        while k > 0
            invariant
                1 <= w <= 8,
                k <= w,
                dn == data@.len(),
                pos + w <= dn,
                word == le_value(data@.subrange(pos + k, pos + w)) as u64,
                word < pow256((w - k) as nat),
            decreases k,
        {
            proof {
                lemma_pow256_monotone((w - k) as nat, 7);
                reveal_with_fuel(pow256, 9);
            }
            k = k - 1;
            let b = data[pos + k];
            word = word * 256 + (b as u64);
            proof {
                let s = data@.subrange(pos + k, pos + w);
                assert(s.drop_first() =~= data@.subrange(pos + k + 1, pos + w));
                lemma_le_value_bound(s);
            }
        }
        out.push(word);
        proof {
            let l = prev_out.len() as int;
            assert(out@[l] == word);
            assert(l * w == pos);
            assert((l + 1) * w == l * w + w) by (nonlinear_arith);
            assert(forall|j: int| 0 <= j < l ==> out@[j] == prev_out[j]);
        }
        pos = pos + w;
    }
    proof {
        assert(data@.len() / (w as nat) == out@.len()) by (nonlinear_arith)
            requires
                pos == out@.len() * w,
                pos <= data@.len(),
                data@.len() < pos + w,
                1 <= w <= 8,
        ;
        assert(out@ =~= words_of(data@, w as nat));
    }
    out
}

/// One decoded frame of raw PCM, as the codec produced it. Owned
/// exclusively by the decode worker between the decode and resample steps.
#[derive(Clone, Debug)]
pub struct DecodedFrame {
    /// The contiguous sample buffer.
    pub data: Vec<u8>,
    pub channel_count: u16,
    pub sample_format: SampleFormat,
    pub sample_rate: u32,
    /// Samples per channel.
    pub sample_count: usize,
    /// Whether the buffer is interleaved (packed) rather than planar.
    pub packed: bool,
    /// Whether the codec flagged this frame as corrupt.
    pub is_corrupt: bool,
}

impl DecodedFrame {
    /// Total number of raw samples across all channels.
    pub open spec fn spec_total_samples(&self) -> nat {
        (self.sample_count * self.channel_count) as nat
    }

    /// The declared geometry matches the byte buffer the frame carries.
    pub open spec fn well_formed(&self) -> bool {
        self.data@.len() == self.spec_total_samples() * spec_bytes_per_sample(self.sample_format)
    }

    /// The frame's sample words, when read as packed little-endian values.
    pub open spec fn spec_samples(&self) -> Seq<u64> {
        words_of(self.data@, spec_bytes_per_sample(self.sample_format))
    }

    /// Validated sample view: yields the interleaved sample words only when
    /// the frame is packed and its declared layout matches the buffer;
    /// anything else is refused instead of being reinterpreted.
    pub fn packed_samples(&self) -> (r: Option<Vec<u64>>)
        ensures
            match r {
                Some(v) => self.packed && self.well_formed() && v@ == self.spec_samples()
                    && v@.len() == self.spec_total_samples(),
                None => !(self.packed && self.well_formed()),
            },
    {
        if !self.packed {
            return None;
        }
        let dlen = self.data.len();
        let bps = bytes_per_sample(self.sample_format);
        let total = match self.sample_count.checked_mul(self.channel_count as usize) {
            Some(t) => t,
            None => {
                proof {
                    assert(!self.well_formed()) by (nonlinear_arith)
                        requires
                            self.sample_count * self.channel_count > usize::MAX,
                            self.data@.len() == dlen,
                            dlen <= usize::MAX,
                            spec_bytes_per_sample(self.sample_format) >= 1,
                            self.well_formed() ==> self.data@.len() == (self.sample_count
                                * self.channel_count) * spec_bytes_per_sample(self.sample_format),
                    ;
                }
                return None;
            },
        };
        let bytes = match total.checked_mul(bps) {
            Some(b) => b,
            None => {
                proof {
                    assert(!self.well_formed()) by (nonlinear_arith)
                        requires
                            total == self.sample_count * self.channel_count,
                            total * spec_bytes_per_sample(self.sample_format) > usize::MAX,
                            self.data@.len() == dlen,
                            dlen <= usize::MAX,
                            self.well_formed() ==> self.data@.len() == (self.sample_count
                                * self.channel_count) * spec_bytes_per_sample(self.sample_format),
                    ;
                }
                return None;
            },
        };
        if bytes != self.data.len() {
            return None;
        }
        let v = packed_words(&self.data, bps);
        proof {
            assert(v@.len() == self.spec_total_samples()) by (nonlinear_arith)
                requires
                    v@.len() == self.data@.len() / (spec_bytes_per_sample(self.sample_format)),
                    self.data@.len() == self.spec_total_samples() * spec_bytes_per_sample(
                        self.sample_format,
                    ),
                    1 <= spec_bytes_per_sample(self.sample_format) <= 8,
            ;
        }
        Some(v)
    }
}

/// A frame after conversion: guaranteed to match the negotiated device
/// configuration and to be packed, with an optional delay the converter
/// reported when it could not drain its internal state this call.
#[derive(Clone, Debug)]
pub struct ResampledFrame {
    /// The contiguous interleaved sample buffer.
    pub data: Vec<u8>,
    pub channel_count: u16,
    pub sample_format: SampleFormat,
    pub sample_rate: u32,
    /// Samples per channel.
    pub sample_count: usize,
    /// Internal processing delay reported by the converter, if any.
    pub pending_delay_ms: Option<u64>,
}

impl ResampledFrame {
    /// Total number of raw samples across all channels.
    pub open spec fn spec_total_samples(&self) -> nat {
        (self.sample_count * self.channel_count) as nat
    }

    /// The declared geometry matches the byte buffer the frame carries.
    pub open spec fn well_formed(&self) -> bool {
        self.data@.len() == self.spec_total_samples() * spec_bytes_per_sample(self.sample_format)
    }

    /// The frame's interleaved sample words.
    pub open spec fn spec_samples(&self) -> Seq<u64> {
        words_of(self.data@, spec_bytes_per_sample(self.sample_format))
    }

    /// The interleaved sample words, ready for the transfer buffer.
    pub fn samples(&self) -> (v: Vec<u64>)
        requires
            self.well_formed(),
        ensures
            v@ == self.spec_samples(),
            v@.len() == self.spec_total_samples(),
    {
        let bps = bytes_per_sample(self.sample_format);
        let v = packed_words(&self.data, bps);
        proof {
            assert(v@.len() == self.spec_total_samples()) by (nonlinear_arith)
                requires
                    v@.len() == self.data@.len() / (spec_bytes_per_sample(self.sample_format)),
                    self.data@.len() == self.spec_total_samples() * spec_bytes_per_sample(
                        self.sample_format,
                    ),
                    1 <= spec_bytes_per_sample(self.sample_format) <= 8,
            ;
        }
        v
    }
}

} // verus!
