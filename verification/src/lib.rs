//! Verified core of a safe binding layer for the Vosk speech-recognition
//! engine.
//!
//! The native engine is reached through a fixed C function table that the
//! embedding layer (outside this crate's verified code) calls; everything
//! that can be decided without crossing that boundary is decided here, with
//! contracts: validation of handles and buffers, the streaming-recognizer
//! session protocol, and decoding of the engine's JSON result payloads into
//! typed values.
pub mod batch;
pub mod errors;
pub mod handle;
pub mod json;
pub mod log;
pub mod models;
pub mod recognition;
pub mod results;

pub use batch::{pending_chunks_from_native, BatchRecognizer};
pub use errors::{AcceptWaveformError, LoadError};
pub use handle::NativeHandle;
pub use json::JsonValue;
pub use log::LogLevel;
pub use models::{
    c_string_safe, check_load_path, word_symbol_from_native, BatchModel, Model, SpeakerModel,
};
pub use recognition::{
    grammar_to_json, waveform_len_to_native, DecodingState, Recognizer, RecognizerConfig,
    SessionPhase,
};
pub use results::{
    decode_complete, decode_partial, decode_word, encode_partial_value, Alternative,
    CompleteResult, CompleteResultMultiple, CompleteResultSingle, PartialResult, SpeakerInfo,
    Word, WordInAlternative,
};
