//! The streaming-recognizer session protocol.
//!
//! A recognizer is a mutable streaming session bound to one model.  The
//! native engine owns the decode state; what can be decided on this side of
//! the boundary is decided here with contracts: the configuration a session
//! carries, the length validation every audio chunk must pass before it may
//! cross the native boundary, the fixed mapping from native status codes to
//! [`DecodingState`], and the session phase those statuses drive.
//!
//! Feeding one chunk is a two-step exchange with the embedding layer that
//! performs the native call: [`Recognizer::accept_waveform_len`] validates
//! the chunk length and yields the native length argument, and
//! [`Recognizer::record_decode_status`] interprets the status the native
//! call returned.  Neither step touches the configuration, so feeding audio
//! never changes it.
use crate::errors::AcceptWaveformError;
use crate::handle::NativeHandle;
use vstd::prelude::*;

verus! {

/// State of the decodification after processing a chunk of data.
#[derive(Debug, Clone, Copy, PartialEq, Eq, Structural)]
pub enum DecodingState {
    /// Silence has occured and you can retrieve a new utterance with the
    /// result method.
    Finalized,
    /// Decoding still continues.
    Running,
    /// Decoding failed in some way.
    Failed,
}

/// The fixed mapping from a native status code to a decoding state: `1`
/// means an utterance boundary was found, `0` means decoding continues, and
/// every other value (the native layer documents no further codes) means
/// failure.
pub open spec fn spec_decoding_state(value: int) -> DecodingState {
    if value == 1 {
        DecodingState::Finalized
    } else if value == 0 {
        DecodingState::Running
    } else {
        DecodingState::Failed
    }
}

impl DecodingState {
    /// Returns the variant that corresponds to `value` in C.
    pub fn from_c_int(value: i32) -> (r: Self)
        ensures
            r == spec_decoding_state(value as int),
    {
        match value {
            1 => Self::Finalized,
            0 => Self::Running,
            _ => Self::Failed,
        }
    }
}

/// Converts an audio chunk length to the 32-bit signed length field the
/// native ingestion calls take.  Fails with [`AcceptWaveformError`] exactly
/// when the count does not fit that field; nothing is submitted in that
/// case.
pub fn waveform_len_to_native(len: usize) -> (r: Result<i32, AcceptWaveformError>)
    ensures
        len <= i32::MAX <==> r is Ok,
        r matches Ok(n) ==> n == len,
        r matches Err(e) ==> e == AcceptWaveformError::BufferTooLong(len),
{
    if len <= i32::MAX as usize {
        Ok(len as i32)
    } else {
        Err(AcceptWaveformError::BufferTooLong(len))
    }
}

/// The phase of a recognizer session, as observed through the statuses of
/// the chunks fed so far: freshly constructed (or reset) sessions are idle,
/// and each processed chunk moves the session to the phase its decoding
/// state names.
#[derive(Debug, Clone, Copy, PartialEq, Eq, Structural)]
pub enum SessionPhase {
    /// No chunk has been processed since construction or the last reset.
    Idle,
    /// The last chunk left decoding in progress.
    Running,
    /// The last chunk completed an utterance.
    Finalized,
    /// The last chunk failed to decode.  Not fatal: the session still
    /// accepts further chunks and may recover.
    Failed,
}

/// The configuration a recognizer session carries.  Setters take effect
/// immediately and affect the next result retrieval, never results already
/// computed.
#[derive(Debug, Clone, Copy, PartialEq, Eq, Structural)]
pub struct RecognizerConfig {
    /// How many ranked alternative transcripts results carry: `0` selects
    /// single-result output, any larger value selects multi-alternative
    /// output with at most that many alternatives.
    pub max_alternatives: u16,
    /// Whether complete results carry per-word timing.
    pub words: bool,
    /// Whether partial results carry per-word timing.
    pub partial_words: bool,
    /// Whether results are emitted as NLSML markup instead of JSON.
    pub nlsml: bool,
    /// Whether a speaker model is bound to the session, so that finalized
    /// single results carry speaker information.
    pub speaker: bool,
}

/// The configuration of a freshly constructed recognizer.
pub open spec fn spec_default_config() -> RecognizerConfig {
    RecognizerConfig {
        max_alternatives: 0,
        words: false,
        partial_words: false,
        nlsml: false,
        speaker: false,
    }
}

/// The main object which processes data.  A streaming session bound to
/// exactly one model (and optionally one speaker model) for its whole life;
/// it holds the validated native handle, the session configuration, and the
/// observed session phase.
///
/// Concurrent use of one session must be externally serialized: every
/// mutating operation takes exclusive access.  Distinct sessions bound to
/// one shared model are independent.
#[derive(Debug)]
pub struct Recognizer {
    handle: NativeHandle,
    config: RecognizerConfig,
    phase: SessionPhase,
}

impl Recognizer {
    /// The address of the wrapped native handle.
    pub closed spec fn addr_spec(&self) -> usize {
        self.handle.addr_spec()
    }

    /// The configuration the session currently carries.
    pub closed spec fn config_spec(&self) -> RecognizerConfig {
        self.config
    }

    /// The phase the session is currently in.
    pub closed spec fn phase_spec(&self) -> SessionPhase {
        self.phase
    }

    /// The session after a reset: same handle, same configuration, idle
    /// again.
    pub closed spec fn spec_reset(self) -> Recognizer {
        Recognizer { phase: SessionPhase::Idle, ..self }
    }

    /// Wraps the validated handle of a freshly created native recognizer.
    /// The new session is idle and carries the default configuration.
    pub fn new(handle: NativeHandle) -> (r: Recognizer)
        ensures
            r.addr_spec() == handle.addr_spec(),
            r.config_spec() == spec_default_config(),
            r.phase_spec() == SessionPhase::Idle,
    {
        Recognizer { handle, config: RecognizerConfig::default(), phase: SessionPhase::Idle }
    }

    /// The wrapped address, always non-null.
    pub fn addr(&self) -> (r: usize)
        ensures
            r == self.addr_spec(),
            r != 0,
    {
        self.handle.addr()
    }

    /// The configuration the session currently carries.
    pub fn config(&self) -> (c: RecognizerConfig)
        ensures
            c == self.config_spec(),
    {
        self.config
    }

    /// The phase the session is currently in.
    pub fn phase(&self) -> (p: SessionPhase)
        ensures
            p == self.phase_spec(),
    {
        self.phase
    }

    /// Configures the session to produce at most `max_alternatives` ranked
    /// transcripts per result; `0` restores single-result output.
    pub fn set_max_alternatives(&mut self, max_alternatives: u16)
        ensures
            final(self).config_spec() == (RecognizerConfig {
                max_alternatives,
                ..old(self).config_spec()
            }),
            final(self).phase_spec() == old(self).phase_spec(),
            final(self).addr_spec() == old(self).addr_spec(),
    {
        self.config.max_alternatives = max_alternatives;
    }

    /// Enables or disables word timing in complete results.
    pub fn set_words(&mut self, enable: bool)
        ensures
            final(self).config_spec() == (RecognizerConfig {
                words: enable,
                ..old(self).config_spec()
            }),
            final(self).phase_spec() == old(self).phase_spec(),
            final(self).addr_spec() == old(self).addr_spec(),
    {
        self.config.words = enable;
    }

    /// Enables or disables word timing in partial results.
    pub fn set_partial_words(&mut self, enable: bool)
        ensures
            final(self).config_spec() == (RecognizerConfig {
                partial_words: enable,
                ..old(self).config_spec()
            }),
            final(self).phase_spec() == old(self).phase_spec(),
            final(self).addr_spec() == old(self).addr_spec(),
    {
        self.config.partial_words = enable;
    }

    /// Enables or disables NLSML markup output.
    pub fn set_nlsml(&mut self, enable: bool)
        ensures
            final(self).config_spec() == (RecognizerConfig {
                nlsml: enable,
                ..old(self).config_spec()
            }),
            final(self).phase_spec() == old(self).phase_spec(),
            final(self).addr_spec() == old(self).addr_spec(),
    {
        self.config.nlsml = enable;
    }

    /// Records that a speaker model has been bound to the session (either
    /// at construction or attached later); finalized single results will
    /// carry speaker information from now on.
    pub fn set_speaker_model(&mut self)
        ensures
            final(self).config_spec() == (RecognizerConfig {
                speaker: true,
                ..old(self).config_spec()
            }),
            final(self).phase_spec() == old(self).phase_spec(),
            final(self).addr_spec() == old(self).addr_spec(),
    {
        self.config.speaker = true;
    }

    /// The validation half of feeding one chunk: converts the chunk's
    /// element count to the native length field, failing exactly when the
    /// count does not fit it.  Nothing about the session changes; on
    /// failure, nothing may be submitted to the engine.
    pub fn accept_waveform_len(&self, len: usize) -> (r: Result<i32, AcceptWaveformError>)
        ensures
            len <= i32::MAX <==> r is Ok,
            r matches Ok(n) ==> n == len,
            r matches Err(e) ==> e == AcceptWaveformError::BufferTooLong(len),
    {
        waveform_len_to_native(len)
    }

    /// The bookkeeping half of feeding one chunk: interprets the status the
    /// native ingestion call returned and moves the session to the phase
    /// that decoding state names.  The configuration never changes here.
    pub fn record_decode_status(&mut self, status: i32) -> (d: DecodingState)
        ensures
            d == spec_decoding_state(status as int),
            final(self).config_spec() == old(self).config_spec(),
            final(self).addr_spec() == old(self).addr_spec(),
            final(self).phase_spec() == (match d {
                DecodingState::Finalized => SessionPhase::Finalized,
                DecodingState::Running => SessionPhase::Running,
                DecodingState::Failed => SessionPhase::Failed,
            }),
    {
        let d = DecodingState::from_c_int(status);
        self.phase = match d {
            DecodingState::Finalized => SessionPhase::Finalized,
            DecodingState::Running => SessionPhase::Running,
            DecodingState::Failed => SessionPhase::Failed,
        };
        d
    }

    /// Discards accumulated utterance state: the session behaves as if
    /// freshly constructed with the same bound model and configuration.
    pub fn reset(&mut self)
        ensures
            *final(self) == old(self).spec_reset(),
            final(self).config_spec() == old(self).config_spec(),
            final(self).addr_spec() == old(self).addr_spec(),
            final(self).phase_spec() == SessionPhase::Idle,
    {
        self.phase = SessionPhase::Idle;
    }
}

/// Resetting is idempotent: a second reset leaves the session in exactly
/// the state the first one produced.
pub proof fn lemma_reset_idempotent(r: Recognizer)
    ensures
        r.spec_reset().spec_reset() == r.spec_reset(),
{
}

/// What serializing a phrase list as a JSON array of strings yields.
pub uninterp spec fn spec_grammar_json(phrases: Seq<Seq<char>>) -> Seq<char>;

/// Relies on serde_json::to_string: serializes a phrase list as the JSON
/// array of strings a restricted-vocabulary recognizer is constructed with
/// (the reserved phrase `[unk]` is the engine's fallback token for
/// unmatched speech).  Serializing a vector of strings cannot fail, so the
/// fallback arm is unreachable.
#[verifier::external_body]
pub fn grammar_to_json(phrases: &Vec<String>) -> (r: String)
    ensures
        r@ == spec_grammar_json(phrases.deep_view()),
{
    match serde_json::to_string(phrases) {
        Ok(s) => s,
        Err(_) => String::new(),
    }
}

impl Default for RecognizerConfig {
    /// The configuration of a freshly constructed recognizer.
    fn default() -> (c: Self)
        ensures
            c == spec_default_config(),
    {
        RecognizerConfig {
            max_alternatives: 0,
            words: false,
            partial_words: false,
            nlsml: false,
            speaker: false,
        }
    }
}

} // verus!
