//! What is to be done to captured audio before it is transcribed: how many
//! frames it has, whether its channels are mixed down, and how its rate is
//! changed. The arithmetic on the samples themselves is not done here.

use vstd::prelude::*;

verus! {

/// The rate, in samples per second, that the transcriber takes.
pub const TARGET_RATE: u32 = 16000;

/// The number of frames from which the rate is changed block by block.
pub const BLOCK_FRAMES: usize = 1024;

/// How the rate of the audio is changed.
#[derive(Debug, Clone, Copy, PartialEq, Eq, Structural)]
pub enum RateChange {
    /// The audio has the target rate already.
    Keep,
    /// Each output sample lies between two neighbouring input samples.
    Interpolate,
    /// The whole audio is taken through a block resampler.
    Blocks,
}

/// What is to be done to one buffer of captured audio.
#[derive(Debug, Clone, Copy, PartialEq, Eq, Structural)]
pub struct ResamplePlan {
    /// The number of frames of the audio, one sample per frame once mixed down.
    pub frames: usize,
    /// Whether each frame is the mean of the samples of its channels.
    pub downmix: bool,
    /// How the rate is changed after that.
    pub rate_change: RateChange,
}

/// The plan for a buffer of `len` samples at `from_rate` with `channels`
/// interleaved channels. An empty buffer has none: it stays empty.
pub open spec fn spec_plan_resample(len: nat, from_rate: u32, channels: u16) -> Option<ResamplePlan> {
    if len == 0 {
        None
    } else {
        let frames = if channels > 1 {
            len / (channels as nat)
        } else {
            len
        };
        Some(
            ResamplePlan {
                frames: frames as usize,
                downmix: channels > 1,
                rate_change: if from_rate == TARGET_RATE {
                    RateChange::Keep
                } else if frames < BLOCK_FRAMES {
                    RateChange::Interpolate
                } else {
                    RateChange::Blocks
                },
            },
        )
    }
}

/// The plan for a buffer of `len` samples at `from_rate` with `channels`
/// interleaved channels: with more than one channel the frames are mixed
/// down, and samples beyond the last whole frame are dropped; audio at the
/// target rate is kept as it is; shorter audio is interpolated, longer audio
/// goes through the block resampler.
pub fn plan_resample(len: usize, from_rate: u32, channels: u16) -> (plan: Option<ResamplePlan>)
    ensures
        plan == spec_plan_resample(len as nat, from_rate, channels),
        plan matches Some(p) ==> p.frames <= len,
{
    if len == 0 {
        return None;
    }
    let downmix = channels > 1;
    let frames = if downmix {
        len / (channels as usize)
    } else {
        len
    };
    let rate_change = if from_rate == TARGET_RATE {
        RateChange::Keep
    } else if frames < BLOCK_FRAMES {
        RateChange::Interpolate
    } else {
        RateChange::Blocks
    };
    Some(ResamplePlan { frames, downmix, rate_change })
}

/// Where the samples of frame `frame` begin in an interleaved buffer of
/// `len` samples with `channels` channels, for a frame that the buffer holds
/// in full. All samples of the frame lie inside the buffer.
pub fn frame_offset(frame: usize, channels: u16, len: usize) -> (offset: usize)
    requires
        channels > 0,
        frame < len / (channels as usize),
    ensures
        offset == frame * channels,
        offset + channels <= len,
{
    proof {
        let c = channels as int;
        let f = (len as int) / c;
        assert(f * c <= len as int) by (nonlinear_arith)
            requires
                f == (len as int) / c,
                c > 0,
        ;
        assert((frame as int + 1) * c <= f * c) by (nonlinear_arith)
            requires
                frame < f,
                c > 0,
        ;
        assert((frame as int + 1) * c == frame * c + c) by (nonlinear_arith);
        assert(0 <= frame * c) by (nonlinear_arith)
            requires
                c > 0,
        ;
    }
    frame * (channels as usize)
}

} // verus!
