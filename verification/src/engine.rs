//! The edge to the transcription engine: what it is given, what is made of
//! what it returns, and how its failures are worded.
//!
//! The engine itself is called by the caller.

use vstd::prelude::*;
use vstd::string::*;
use crate::text::{decimal, push_decimal};

verus! {

/// The sample rate that the engine takes, in samples per second.
pub const ENGINE_SAMPLE_RATE: u32 = 16000;

/// Whether audio of the sample rate `sample_rate` is to be resampled before
/// the engine takes it.
pub fn needs_resample(sample_rate: u32) -> (needed: bool)
    ensures
        needed == (sample_rate != ENGINE_SAMPLE_RATE),
{
    sample_rate != ENGINE_SAMPLE_RATE
}

/// The texts of the first `n` segments, one after the other.
pub open spec fn joined(segments: Seq<String>, n: int) -> Seq<char>
    decreases n,
{
    if n <= 0 {
        Seq::empty()
    } else {
        joined(segments, n - 1) + segments[n - 1]@
    }
}

/// Puts the segments of a transcription together, in order and with nothing
/// in between.
pub fn join_segments(segments: &Vec<String>) -> (text: String)
    ensures
        text@ == joined(segments@, segments@.len() as int),
{
    let mut text = String::new();
    let mut i: usize = 0;
    while i < segments.len()
        invariant
            i <= segments.len(),
            text@ == joined(segments@, i as int),
        decreases segments.len() - i,
    {
        text.append(segments[i].as_str());
        i = i + 1;
    }
    text
}

/// The step at which the engine failed.
#[derive(Clone, Copy, Debug, PartialEq, Eq, Structural)]
pub enum EngineStep {
    /// Loading the model.
    LoadModel,
    /// Creating the state for one transcription.
    CreateState,
    /// Running the transcription.
    Run,
    /// Asking for the number of segments.
    CountSegments,
    /// Asking for the text of the segment with this index.
    Segment(u32),
}

/// The message for a failure of the engine at the step `step`, of which the
/// engine says `cause`.
pub open spec fn engine_error_message(step: EngineStep, cause: Seq<char>) -> Seq<char> {
    match step {
        EngineStep::LoadModel => "Failed to load Whisper model: "@ + cause,
        EngineStep::CreateState => "Failed to create Whisper state: "@ + cause,
        EngineStep::Run => "Transcription failed: "@ + cause,
        EngineStep::CountSegments => "Failed to get segments: "@ + cause,
        EngineStep::Segment(index) => "Failed to get segment "@ + decimal(index as nat) + ": "@
            + cause,
    }
}

/// Words a failure of the engine.
pub fn engine_error(step: EngineStep, cause: &str) -> (message: String)
    ensures
        message@ == engine_error_message(step, cause@),
{
    let mut message = String::new();
    match step {
        EngineStep::LoadModel => {
            message.append("Failed to load Whisper model: ");
        },
        EngineStep::CreateState => {
            message.append("Failed to create Whisper state: ");
        },
        EngineStep::Run => {
            message.append("Transcription failed: ");
        },
        EngineStep::CountSegments => {
            message.append("Failed to get segments: ");
        },
        EngineStep::Segment(index) => {
            message.append("Failed to get segment ");
            push_decimal(&mut message, index as u64);
            message.append(": ");
        },
    }
    message.append(cause);
    proof {
        assert(message@ =~= engine_error_message(step, cause@));
    }
    message
}

} // verus!
