use second_brain::tts::TtsError;

#[test]
fn tts_error_messages() {
    let failed = TtsError::SynthesisFailed("voice unavailable".to_string());
    assert_eq!(failed.message(), "Polly synthesis failed: voice unavailable");

    let invalid = TtsError::InvalidAudio;
    assert_eq!(invalid.message(), "Invalid audio data");
}
