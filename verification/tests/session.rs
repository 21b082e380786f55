//! Tests for handles, models, the log-level encoding, and the streaming
//! recognizer session protocol.
use vosk::{
    c_string_safe, check_load_path, grammar_to_json, waveform_len_to_native,
    word_symbol_from_native, AcceptWaveformError, DecodingState, LoadError, LogLevel, Model,
    NativeHandle, Recognizer, SessionPhase,
};

// A stand-in address for a native handle; the session model never
// dereferences it.
const ADDR: usize = 0x1000;

fn handle() -> NativeHandle {
    NativeHandle::new(ADDR).expect("a non-null address yields a handle")
}

#[test]
fn null_addresses_yield_no_handle() {
    assert!(NativeHandle::new(0).is_none());
    assert_eq!(NativeHandle::new(7).unwrap().addr(), 7);
}

#[test]
fn model_acquisition_reports_null_uniformly() {
    match Model::from_raw(0) {
        Err(LoadError::Acquisition) => {}
        _ => panic!("a null model handle must be an acquisition error"),
    }
    assert_eq!(Model::from_raw(ADDR).unwrap().addr(), ADDR);
}

#[test]
fn paths_with_embedded_terminators_are_detected() {
    assert!(c_string_safe("model/en-us"));
    assert!(c_string_safe(""));
    assert!(!c_string_safe("model\0en-us"));
    assert!(!c_string_safe("\0"));
    assert_eq!(check_load_path("model/en-us"), Ok(()));
    assert_eq!(check_load_path("model\0en-us"), Err(LoadError::Encoding));
}

#[test]
fn word_symbols_follow_the_native_convention() {
    assert_eq!(word_symbol_from_native(-1), None);
    assert_eq!(word_symbol_from_native(0), Some(0));
    assert_eq!(word_symbol_from_native(42), Some(42));
    assert_eq!(word_symbol_from_native(65535), Some(65535));
    assert_eq!(word_symbol_from_native(65536 + 5), Some(5));
    assert_eq!(word_symbol_from_native(-2), Some(65534));
}

#[test]
fn log_levels_encode_as_documented() {
    assert_eq!(LogLevel::Info.to_c_int(), 0);
    assert_eq!(LogLevel::Warn.to_c_int(), -1);
    assert_eq!(LogLevel::Error.to_c_int(), -2);
    assert_eq!(LogLevel::default(), LogLevel::Info);
}

#[test]
fn decoding_states_follow_the_fixed_mapping() {
    assert_eq!(DecodingState::from_c_int(1), DecodingState::Finalized);
    assert_eq!(DecodingState::from_c_int(0), DecodingState::Running);
    assert_eq!(DecodingState::from_c_int(-1), DecodingState::Failed);
    assert_eq!(DecodingState::from_c_int(5), DecodingState::Failed);
}

#[test]
fn buffer_length_boundary() {
    assert_eq!(waveform_len_to_native(0), Ok(0));
    assert_eq!(waveform_len_to_native(100), Ok(100));
    assert_eq!(waveform_len_to_native(i32::MAX as usize), Ok(i32::MAX));
    assert_eq!(
        waveform_len_to_native(i32::MAX as usize + 1),
        Err(AcceptWaveformError::BufferTooLong(i32::MAX as usize + 1))
    );
}

#[test]
fn fresh_sessions_carry_the_default_configuration() {
    let r = Recognizer::new(handle());
    let c = r.config();
    assert_eq!(c.max_alternatives, 0);
    assert!(!c.words && !c.partial_words && !c.nlsml && !c.speaker);
    assert_eq!(r.phase(), SessionPhase::Idle);
}

#[test]
fn setters_change_exactly_their_field() {
    let mut r = Recognizer::new(handle());
    r.set_max_alternatives(10);
    r.set_words(true);
    r.set_partial_words(true);
    r.set_nlsml(true);
    r.set_speaker_model();
    let c = r.config();
    assert_eq!(c.max_alternatives, 10);
    assert!(c.words && c.partial_words && c.nlsml && c.speaker);
    r.set_max_alternatives(0);
    assert_eq!(r.config().max_alternatives, 0);
    assert!(r.config().words);
}

#[test]
fn feeding_audio_never_changes_the_configuration() {
    let mut r = Recognizer::new(handle());
    r.set_max_alternatives(3);
    r.set_words(true);
    let before = r.config();
    // An empty chunk is valid: its length converts to 0.
    assert_eq!(r.accept_waveform_len(0), Ok(0));
    assert_eq!(r.record_decode_status(0), DecodingState::Running);
    assert_eq!(r.config(), before);
    assert_eq!(r.accept_waveform_len(4000), Ok(4000));
    assert_eq!(r.record_decode_status(1), DecodingState::Finalized);
    assert_eq!(r.config(), before);
    assert_eq!(r.record_decode_status(-1), DecodingState::Failed);
    assert_eq!(r.config(), before);
}

#[test]
fn oversized_chunks_are_rejected_before_submission() {
    let r = Recognizer::new(handle());
    let too_long = i32::MAX as usize + 1;
    assert_eq!(
        r.accept_waveform_len(too_long),
        Err(AcceptWaveformError::BufferTooLong(too_long))
    );
}

#[test]
fn statuses_drive_the_session_phase() {
    let mut r = Recognizer::new(handle());
    assert_eq!(r.phase(), SessionPhase::Idle);
    r.record_decode_status(0);
    assert_eq!(r.phase(), SessionPhase::Running);
    r.record_decode_status(1);
    assert_eq!(r.phase(), SessionPhase::Finalized);
    r.record_decode_status(7);
    assert_eq!(r.phase(), SessionPhase::Failed);
    // A failure is not fatal: the next chunk is still accepted.
    assert_eq!(r.accept_waveform_len(100), Ok(100));
    r.record_decode_status(0);
    assert_eq!(r.phase(), SessionPhase::Running);
}

#[test]
fn reset_is_idempotent() {
    let mut r = Recognizer::new(handle());
    r.set_max_alternatives(2);
    r.record_decode_status(1);
    r.reset();
    let phase_once = r.phase();
    let config_once = r.config();
    r.reset();
    assert_eq!(r.phase(), phase_once);
    assert_eq!(r.config(), config_once);
    assert_eq!(r.phase(), SessionPhase::Idle);
}

#[test]
fn grammars_serialize_as_a_json_array_of_strings() {
    let phrases = vec![
        "oh one two three four five six seven eight nine zero".to_string(),
        "[unk]".to_string(),
    ];
    assert_eq!(
        grammar_to_json(&phrases),
        "[\"oh one two three four five six seven eight nine zero\",\"[unk]\"]"
    );
    assert_eq!(grammar_to_json(&Vec::new()), "[]");
}
