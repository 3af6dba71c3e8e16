//! Errors of the text-to-speech surface. The synthesizer itself is an
//! external collaborator; only its error shape lives here.

use vstd::prelude::*;
use vstd::string::StringExecFns;

verus! {

/// Why a speech synthesis request failed.
#[derive(Debug)]
pub enum TtsError {
    /// The synthesizer rejected the request, with its own message.
    SynthesisFailed(String),
    /// The synthesizer answered with unusable audio data.
    InvalidAudio,
}

impl TtsError {
    /// The human-readable message of the error.
    pub fn message(&self) -> (r: String)
        ensures
            match self {
                TtsError::SynthesisFailed(s) => r@ == "Polly synthesis failed: "@ + s@,
                TtsError::InvalidAudio => r@ == "Invalid audio data"@,
            },
    {
        match self {
            TtsError::SynthesisFailed(s) => {
                let mut m: String = "Polly synthesis failed: ".to_owned();
                m.append(s.as_str());
                m
            },
            TtsError::InvalidAudio => "Invalid audio data".to_owned(),
        }
    }
}

} // verus!
