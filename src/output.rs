//! The caller-facing side of the output: errors, and the check that decides
//! whether a sound may be triggered.
use vstd::prelude::*;

verus! {

/// Why the output could not be opened, or a trigger or shutdown failed.
#[derive(Clone, Debug, PartialEq, Eq)]
pub enum OutputError {
    /// The audio server refused the stream's sample spec.
    InvalidSpec,
    /// A channel flag of the stream's layout has no position on the server.
    UnknownChannel(u32),
    /// The device could not be opened; the server's message.
    OpenSink(String),
    /// The mixing thread could not be started; the system's message.
    SpawnThread(String),
    /// A sound's sample rate is not the output's: no resampling is done.
    SampleRateMismatch { expected: u32, found: u32 },
    /// The mixing thread is gone, so the trigger channel is closed.
    ChannelClosed,
    /// The mixing thread panicked; its message.
    ThreadPanicked(String),
}

/// A sound may be played only at the output's own sample rate.
pub fn check_sample_rate(expected: u32, found: u32) -> (r: Result<(), OutputError>)
    ensures
        r == if expected == found {
            Ok(())
        } else {
            Err(OutputError::SampleRateMismatch { expected, found })
        },
{
    if expected == found {
        Ok(())
    } else {
        Err(OutputError::SampleRateMismatch { expected, found })
    }
}

} // verus!
