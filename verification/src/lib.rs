//! Offline speech-to-text core: the audio-capture lifecycle and the
//! recognition session that turns captured samples into text.
//!
//! The crate verifies the logic that decides and accounts: the capture
//! state machine with its sample buffer, the fixed stream configuration,
//! the recognition options, and the transcription worker that serializes
//! requests. The audio subsystem and the inference backend are external
//! collaborators; a thin unverified driver performs their calls and hands
//! the outcomes back to the verified state machines.

use vstd::prelude::*;

pub mod recognition;
pub mod recording;
pub mod worker;

verus! {

/// Path of the model file used when the caller names none.
pub fn default_model() -> (m: String)
    ensures
        m@ == "/usr/share/whisper.cpp-model-base.en/base.en.bin"@,
{
    "/usr/share/whisper.cpp-model-base.en/base.en.bin".to_owned()
}

} // verus!
