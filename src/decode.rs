//! Checks at the decode boundary: what a decoder hands over must be one
//! track, from its start, in stereo 32-bit float blocks at one sample rate.
use vstd::prelude::*;

verus! {

/// The sample format of a decoded block.
#[derive(Clone, Copy, Debug, PartialEq, Eq, Structural)]
pub enum SampleFormat {
    U8,
    U16,
    U24,
    U32,
    S8,
    S16,
    S24,
    S32,
    F32,
    F64,
}

/// Why decoded audio cannot become a sound buffer.
#[derive(Clone, Copy, Debug, PartialEq, Eq, Structural)]
pub enum DecodeError {
    /// The file holds no decodable track.
    NoTrack,
    /// The file holds this many tracks, not one.
    MultipleTracks(usize),
    /// The track does not start at timestamp 0 but at this one.
    NotAtStart(u64),
    /// A block is not in interleaved 32-bit float.
    UnsupportedSampleFormat(SampleFormat),
    /// A block's channels (a mask of channel flags) are not front left and
    /// front right.
    UnsupportedChannelLayout(u32),
    /// A block's sample rate differs from the first block's.
    SampleRateChanged { expected: u32, found: u32 },
    /// No block was decoded and the track declares no sample rate.
    NoSpec,
}

/// The channel mask of stereo: front left and front right.
pub const STEREO_MASK: u32 = 0x3;

/// What is known of one decoded block.
#[derive(Clone, Copy, Debug, PartialEq, Eq, Structural)]
pub struct BlockSpec {
    pub format: SampleFormat,
    pub channels: u32,
    pub rate: u32,
    pub frames: usize,
}

/// Exactly one track is accepted.
pub fn check_tracks(count: usize) -> (r: Result<(), DecodeError>)
    ensures
        r == if count == 0 {
            Err(DecodeError::NoTrack)
        } else if count > 1 {
            Err(DecodeError::MultipleTracks(count))
        } else {
            Ok(())
        },
{
    if count == 0 {
        Err(DecodeError::NoTrack)
    } else if count > 1 {
        Err(DecodeError::MultipleTracks(count))
    } else {
        Ok(())
    }
}

/// The track must start at timestamp 0.
pub fn check_start(start_ts: u64) -> (r: Result<(), DecodeError>)
    ensures
        r == if start_ts == 0 {
            Ok(())
        } else {
            Err(DecodeError::NotAtStart(start_ts))
        },
{
    if start_ts == 0 {
        Ok(())
    } else {
        Err(DecodeError::NotAtStart(start_ts))
    }
}

/// The verdict on a block, given the sample rate of the first block if one
/// came before: `Ok(true)` to append its frames, `Ok(false)` for a block of
/// no frames, which adds nothing.
pub open spec fn block_verdict(first_rate: Option<u32>, b: BlockSpec) -> Result<bool, DecodeError> {
    if first_rate is Some && b.rate != first_rate->0 {
        Err(DecodeError::SampleRateChanged { expected: first_rate->0, found: b.rate })
    } else if b.frames == 0 {
        Ok(false)
    } else if b.format != SampleFormat::F32 {
        Err(DecodeError::UnsupportedSampleFormat(b.format))
    } else if b.channels != STEREO_MASK {
        Err(DecodeError::UnsupportedChannelLayout(b.channels))
    } else {
        Ok(true)
    }
}

/// The checks that run across the blocks of one track: it remembers the
/// sample rate of the first block and how many frames were accepted.
#[derive(Clone, Copy, Debug, PartialEq, Eq, Structural)]
pub struct BlockCheck {
    pub rate: Option<u32>,
    pub frames: usize,
}

impl BlockCheck {
    pub fn new() -> (r: Self)
        ensures
            r.rate is None,
            r.frames == 0,
    {
        BlockCheck { rate: None, frames: 0 }
    }

    /// Checks the next block. The first block fixes the sample rate, whatever
    /// its verdict; the frames of an appended block are counted, up to the
    /// largest `usize`.
    pub fn accept(&mut self, block: BlockSpec) -> (r: Result<bool, DecodeError>)
        ensures
            r == block_verdict(old(self).rate, block),
            final(self).rate == if old(self).rate is Some {
                old(self).rate
            } else {
                Some(block.rate)
            },
            final(self).frames == if r == Ok::<bool, DecodeError>(true) {
                if old(self).frames + block.frames > usize::MAX {
                    usize::MAX as int
                } else {
                    old(self).frames + block.frames
                }
            } else {
                old(self).frames as int
            },
    {
        let verdict = match self.rate {
            Some(rate) if block.rate != rate => Err(
                DecodeError::SampleRateChanged { expected: rate, found: block.rate },
            ),
            _ => {
                if block.frames == 0 {
                    Ok(false)
                } else if block.format != SampleFormat::F32 {
                    Err(DecodeError::UnsupportedSampleFormat(block.format))
                } else if block.channels != STEREO_MASK {
                    Err(DecodeError::UnsupportedChannelLayout(block.channels))
                } else {
                    Ok(true)
                }
            },
        };
        if self.rate.is_none() {
            self.rate = Some(block.rate);
        }
        if let Ok(true) = verdict {
            self.frames = self.frames.saturating_add(block.frames);
        }
        verdict
    }

    /// The sample rate of the decoded sound, once every block is in: the
    /// rate of the first block, or, when no block came at all, the rate that
    /// the track declares. Empty decoded output is no error: it gives a sound
    /// of no frames. Only when neither a block nor the track gives a rate is
    /// the sound's spec unknown.
    pub fn finish(&self, declared: Option<u32>) -> (r: Result<u32, DecodeError>)
        ensures
            r == match (self.rate, declared) {
                (Some(rate), _) => Ok::<u32, DecodeError>(rate),
                (None, Some(rate)) => Ok::<u32, DecodeError>(rate),
                (None, None) => Err(DecodeError::NoSpec),
            },
    {
        match (self.rate, declared) {
            (Some(rate), _) => Ok(rate),
            (None, Some(rate)) => Ok(rate),
            (None, None) => Err(DecodeError::NoSpec),
        }
    }
}

} // verus!
