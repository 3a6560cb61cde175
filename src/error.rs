use vstd::prelude::*;

verus! {

/// Every way in which one run of the client can fail.
#[derive(Debug, Clone)]
pub enum VVSpeechError {
    /// No speaker of the catalog has a style with this id.
    InvalidId(u32),
    /// No speaker of the catalog has this name.
    InvalidSpeakerName(String),
    /// The named speaker exists but has no style with this id.
    InvalidSpeakerNameIdPair(String, u32),
    /// The synthesized audio could not be played.
    PlayAudioFailed,
    /// The speaker catalog could not be fetched from the engine at this URL.
    DetectEngineFailed(String),
    /// The engine gave no usable audio query.
    GetAudioQueryFailed,
    /// The engine gave no usable audio.
    GetAudioFailed,
    /// The engine gave no usable accent phrases.
    GetAccentPhrasesFailed,
}

} // verus!
