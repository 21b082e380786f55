//! Results of a recognition.
//!
//! The engine reports results as JSON text whose shape depends on the
//! session configuration: single-result output (optionally with per-word
//! timing and speaker information), multi-alternative output, and partial
//! hypotheses.  The wire format carries no discriminator, so the complete
//! result is decoded by structural trial: the single-result schema is
//! attempted first and the multi-alternative schema second, exactly as
//! which required members are present decides.  Absent optional members
//! fall back to their documented defaults; unknown members are ignored.
//!
//! Confidences and times are carried as the decimal text of the number the
//! engine wrote (this layer does no arithmetic on them); see the note on
//! numbers in [`crate::json`].
use crate::json::{
    get_field, parse_json, parse_u16, parsed_json, spec_field, spec_u16_of_digits, JsonValue,
};
use vstd::prelude::*;

verus! {

broadcast use vstd::string::group_string_axioms;

/// A single word in a [`CompleteResultSingle`] and metadata about it.
///
/// Unlike in [`WordInAlternative`], the confidence is part of each word,
/// rather than part of an [`Alternative`].
#[derive(Debug, Clone, PartialEq)]
pub struct Word {
    /// Confidence the engine assigned to this word, as decimal number text.
    pub conf: String,
    /// Time in seconds when the word starts, as decimal number text.
    pub start: String,
    /// Time in seconds when the word ends, as decimal number text.
    pub end: String,
    /// The transcribed word.
    pub word: String,
}

/// The mathematical content of a [`Word`].
pub struct WordView {
    /// Confidence number text.
    pub conf: Seq<char>,
    /// Start-time number text.
    pub start: Seq<char>,
    /// End-time number text.
    pub end: Seq<char>,
    /// The transcribed word.
    pub word: Seq<char>,
}

impl DeepView for Word {
    type V = WordView;

    open spec fn deep_view(&self) -> WordView {
        WordView { conf: self.conf@, start: self.start@, end: self.end@, word: self.word@ }
    }
}

/// A single word in an [`Alternative`] and metadata about it.
///
/// Unlike [`Word`], it does not contain the confidence, as that is part of
/// the [`Alternative`] itself.
#[derive(Debug, Clone, PartialEq)]
pub struct WordInAlternative {
    /// Time in seconds when the word starts, as decimal number text.
    pub start: String,
    /// Time in seconds when the word ends, as decimal number text.
    pub end: String,
    /// The transcribed word.
    pub word: String,
}

/// The mathematical content of a [`WordInAlternative`].
pub struct WordInAlternativeView {
    /// Start-time number text.
    pub start: Seq<char>,
    /// End-time number text.
    pub end: Seq<char>,
    /// The transcribed word.
    pub word: Seq<char>,
}

impl DeepView for WordInAlternative {
    type V = WordInAlternativeView;

    open spec fn deep_view(&self) -> WordInAlternativeView {
        WordInAlternativeView { start: self.start@, end: self.end@, word: self.word@ }
    }
}

/// An alternative transcript in a [`CompleteResultMultiple`].
#[derive(Debug, Clone, PartialEq)]
pub struct Alternative {
    /// Confidence the engine assigned to this transcript, as decimal
    /// number text.
    pub confidence: String,
    /// Words in `text` with metadata about them; empty unless word timing
    /// was enabled.
    pub result: Vec<WordInAlternative>,
    /// Full transcript text.
    pub text: String,
}

/// The mathematical content of an [`Alternative`].
pub struct AlternativeView {
    /// Confidence number text.
    pub confidence: Seq<char>,
    /// Word metadata.
    pub result: Seq<WordInAlternativeView>,
    /// Full transcript text.
    pub text: Seq<char>,
}

impl DeepView for Alternative {
    type V = AlternativeView;

    open spec fn deep_view(&self) -> AlternativeView {
        AlternativeView {
            confidence: self.confidence@,
            result: self.result.deep_view(),
            text: self.text@,
        }
    }
}

/// Recognition result when a non-zero alternatives count is configured:
/// the possible transcripts, ordered from most to least likely.
#[derive(Debug, Clone, PartialEq)]
pub struct CompleteResultMultiple {
    /// All the possible results of the transcription.
    pub alternatives: Vec<Alternative>,
}

/// The mathematical content of a [`CompleteResultMultiple`].
pub struct CompleteResultMultipleView {
    /// All the possible results of the transcription.
    pub alternatives: Seq<AlternativeView>,
}

impl DeepView for CompleteResultMultiple {
    type V = CompleteResultMultipleView;

    open spec fn deep_view(&self) -> CompleteResultMultipleView {
        CompleteResultMultipleView { alternatives: self.alternatives.deep_view() }
    }
}

/// Data useful for speaker identification.
#[derive(Debug, Clone, PartialEq)]
pub struct SpeakerInfo {
    /// Speaker vector used for speaker identification, each component as
    /// decimal number text.
    pub vector: Vec<String>,
    /// Data frames in which the speaker was not in silence.
    pub frames: u16,
}

/// The mathematical content of a [`SpeakerInfo`].
pub struct SpeakerInfoView {
    /// Speaker vector components as number texts.
    pub vector: Seq<Seq<char>>,
    /// Non-silence frame count.
    pub frames: u16,
}

impl DeepView for SpeakerInfo {
    type V = SpeakerInfoView;

    open spec fn deep_view(&self) -> SpeakerInfoView {
        SpeakerInfoView { vector: self.vector.deep_view(), frames: self.frames }
    }
}

/// Recognition result when the alternatives count is zero (the default).
#[derive(Debug, Clone, PartialEq)]
pub struct CompleteResultSingle {
    /// Speaker information; present exactly when a speaker model was bound
    /// when recognition finalized the utterance.
    pub speaker_info: Option<SpeakerInfo>,
    /// Words in `text` with metadata about them; empty unless word timing
    /// was enabled.
    pub result: Vec<Word>,
    /// Full text of the transcript.
    pub text: String,
}

/// The mathematical content of a [`CompleteResultSingle`].
pub struct CompleteResultSingleView {
    /// Speaker information, if any.
    pub speaker_info: Option<SpeakerInfoView>,
    /// Word metadata.
    pub result: Seq<WordView>,
    /// Full text of the transcript.
    pub text: Seq<char>,
}

impl DeepView for CompleteResultSingle {
    type V = CompleteResultSingleView;

    open spec fn deep_view(&self) -> CompleteResultSingleView {
        CompleteResultSingleView {
            speaker_info: self.speaker_info.deep_view(),
            result: self.result.deep_view(),
            text: self.text@,
        }
    }
}

/// Different results that can be returned from complete-result retrieval:
/// single-result output or multi-alternative output, as the configured
/// alternatives count selects.
#[derive(Debug, Clone, PartialEq)]
pub enum CompleteResult {
    /// Result when the configured alternatives count is zero (the default).
    Single(CompleteResultSingle),
    /// Result when a non-zero alternatives count is configured.
    Multiple(CompleteResultMultiple),
}

/// The mathematical content of a [`CompleteResult`].
pub enum CompleteResultView {
    /// Single-result output.
    Single(CompleteResultSingleView),
    /// Multi-alternative output.
    Multiple(CompleteResultMultipleView),
}

impl DeepView for CompleteResult {
    type V = CompleteResultView;

    open spec fn deep_view(&self) -> CompleteResultView {
        match self {
            CompleteResult::Single(x) => CompleteResultView::Single(x.deep_view()),
            CompleteResult::Multiple(x) => CompleteResultView::Multiple(x.deep_view()),
        }
    }
}

impl CompleteResult {
    /// Returns the inner [`CompleteResultSingle`] if `self` was single-result
    /// output, and [`None`] otherwise.
    pub fn single(self) -> (r: Option<CompleteResultSingle>)
        ensures
            r.deep_view() == (match self.deep_view() {
                CompleteResultView::Single(x) => Some(x),
                CompleteResultView::Multiple(_) => None::<CompleteResultSingleView>,
            }),
    {
        match self {
            Self::Single(x) => Some(x),
            Self::Multiple(_) => None,
        }
    }

    /// Returns the inner [`CompleteResultMultiple`] if `self` was
    /// multi-alternative output, and [`None`] otherwise.
    pub fn multiple(self) -> (r: Option<CompleteResultMultiple>)
        ensures
            r.deep_view() == (match self.deep_view() {
                CompleteResultView::Single(_) => None::<CompleteResultMultipleView>,
                CompleteResultView::Multiple(x) => Some(x),
            }),
    {
        match self {
            Self::Single(_) => None,
            Self::Multiple(x) => Some(x),
        }
    }
}

/// Result returned when querying the current, not yet finalized hypothesis.
/// It may change after processing more data as decoding is not yet complete.
#[derive(Debug, Clone, PartialEq)]
pub struct PartialResult {
    /// Full text of the partial transcript.  The engine omits this member
    /// while nothing is running, in which case it defaults to empty.
    pub partial: String,
    /// Words in `partial` with metadata about them; empty unless partial
    /// word timing was enabled.
    pub partial_result: Vec<Word>,
}

/// The mathematical content of a [`PartialResult`].
pub struct PartialResultView {
    /// Full text of the partial transcript.
    pub partial: Seq<char>,
    /// Word metadata.
    pub partial_result: Seq<WordView>,
}

impl DeepView for PartialResult {
    type V = PartialResultView;

    open spec fn deep_view(&self) -> PartialResultView {
        PartialResultView {
            partial: self.partial@,
            partial_result: self.partial_result.deep_view(),
        }
    }
}

/// The all-default partial result: what the engine's minimal payload, an
/// empty object, decodes to.
pub open spec fn spec_default_partial() -> PartialResultView {
    PartialResultView { partial: Seq::empty(), partial_result: Seq::empty() }
}

impl Default for PartialResult {
    /// The all-default partial result.
    fn default() -> (r: Self)
        ensures
            r.deep_view() == spec_default_partial(),
    {
        let r = PartialResult { partial: String::new(), partial_result: Vec::new() };
        proof {
            assert(r.partial_result.deep_view() =~= Seq::<WordView>::empty());
        }
        r
    }
}

// ---------------------------------------------------------------------------
// The decoding relation: which typed value a JSON tree denotes.
// ---------------------------------------------------------------------------

/// What a JSON tree denotes as a [`Word`]: an object carrying number
/// members `conf`, `start` and `end` and a string member `word`, all
/// required.
pub open spec fn spec_decode_word(v: JsonValue) -> Option<WordView> {
    match v {
        JsonValue::Object(fields) => match (
            spec_field(fields@, "conf"@),
            spec_field(fields@, "start"@),
            spec_field(fields@, "end"@),
            spec_field(fields@, "word"@),
        ) {
            (
                Some(JsonValue::Number(c)),
                Some(JsonValue::Number(s)),
                Some(JsonValue::Number(e)),
                Some(JsonValue::Text(w)),
            ) => Some(WordView { conf: c@, start: s@, end: e@, word: w@ }),
            _ => None,
        },
        _ => None,
    }
}

/// What an array denotes as a word list: every element must denote a word.
pub open spec fn spec_decode_words(elems: Seq<JsonValue>) -> Option<Seq<WordView>>
    decreases elems.len(),
{
    if elems.len() == 0 {
        Some(Seq::empty())
    } else {
        match (spec_decode_words(elems.drop_last()), spec_decode_word(elems.last())) {
            (Some(ws), Some(w)) => Some(ws.push(w)),
            _ => None,
        }
    }
}

/// What a JSON tree denotes as a [`PartialResult`]: an object whose
/// `partial` member (a string) and `partial_result` member (a word array)
/// both default when absent.
pub open spec fn spec_decode_partial(v: JsonValue) -> Option<PartialResultView> {
    match v {
        JsonValue::Object(fields) => {
            let partial = match spec_field(fields@, "partial"@) {
                None => Some(Seq::<char>::empty()),
                Some(JsonValue::Text(s)) => Some(s@),
                Some(_) => None,
            };
            let words = match spec_field(fields@, "partial_result"@) {
                None => Some(Seq::<WordView>::empty()),
                Some(JsonValue::Array(a)) => spec_decode_words(a@),
                Some(_) => None,
            };
            match (partial, words) {
                (Some(p), Some(ws)) => Some(
                    PartialResultView { partial: p, partial_result: ws },
                ),
                _ => None,
            }
        },
        _ => None,
    }
}

proof fn lemma_decode_words_failure(elems: Seq<JsonValue>, i: int)
    requires
        0 <= i < elems.len(),
        spec_decode_word(elems[i]) is None,
    ensures
        spec_decode_words(elems) is None,
    decreases elems.len(),
{
    if i < elems.len() - 1 {
        assert(elems.drop_last()[i] == elems[i]);
        lemma_decode_words_failure(elems.drop_last(), i);
    }
}

/// Decodes one element of a result's word list.
pub fn decode_word_value(v: &JsonValue) -> (r: Option<Word>)
    ensures
        r.deep_view() == spec_decode_word(*v),
{
    let fields = match v {
        JsonValue::Object(fields) => fields,
        _ => {
            return None;
        },
    };
    let conf = match get_field(fields, "conf") {
        Some(JsonValue::Number(s)) => s.clone(),
        _ => {
            return None;
        },
    };
    let start = match get_field(fields, "start") {
        Some(JsonValue::Number(s)) => s.clone(),
        _ => {
            return None;
        },
    };
    let end = match get_field(fields, "end") {
        Some(JsonValue::Number(s)) => s.clone(),
        _ => {
            return None;
        },
    };
    let word = match get_field(fields, "word") {
        Some(JsonValue::Text(s)) => s.clone(),
        _ => {
            return None;
        },
    };
    Some(Word { conf, start, end, word })
}

/// Decodes a word list: every element of the array must decode.
pub fn decode_words(elems: &Vec<JsonValue>) -> (r: Option<Vec<Word>>)
    ensures
        r.deep_view() == spec_decode_words(elems@),
{
    let n = elems.len();
    let mut out: Vec<Word> = Vec::new();
    proof {
        assert(elems@.take(0) =~= Seq::<JsonValue>::empty());
        assert(out.deep_view() =~= Seq::<WordView>::empty());
    }
    let mut i: usize = 0;
    while i < n
        invariant
            n == elems@.len(),
            0 <= i <= n,
            spec_decode_words(elems@.take(i as int)) == Some(out.deep_view()),
        decreases n - i,
    {
        match decode_word_value(&elems[i]) {
            Some(w) => {
                let ghost prev = out.deep_view();
                let ghost wv = w.deep_view();
                out.push(w);
                proof {
                    assert(out.deep_view() =~= prev.push(wv));
                    assert(elems@.take(i as int + 1).drop_last() =~= elems@.take(i as int));
                    assert(elems@.take(i as int + 1).last() == elems@[i as int]);
                }
            },
            None => {
                proof {
                    lemma_decode_words_failure(elems@, i as int);
                }
                return None;
            },
        }
        i += 1;
    }
    proof {
        assert(elems@.take(n as int) =~= elems@);
    }
    Some(out)
}

/// Decodes a partial-hypothesis payload.
pub fn decode_partial_value(v: &JsonValue) -> (r: Option<PartialResult>)
    ensures
        r.deep_view() == spec_decode_partial(*v),
{
    let fields = match v {
        JsonValue::Object(fields) => fields,
        _ => {
            return None;
        },
    };
    let partial: String = match get_field(fields, "partial") {
        None => String::new(),
        Some(JsonValue::Text(s)) => s.clone(),
        Some(_) => {
            return None;
        },
    };
    let words: Vec<Word> = match get_field(fields, "partial_result") {
        None => {
            let w: Vec<Word> = Vec::new();
            proof {
                assert(w.deep_view() =~= Seq::<WordView>::empty());
            }
            w
        },
        Some(JsonValue::Array(a)) => {
            match decode_words(a) {
                Some(ws) => ws,
                None => {
                    return None;
                },
            }
        },
        Some(_) => {
            return None;
        },
    };
    Some(PartialResult { partial, partial_result: words })
}

/// What a JSON tree denotes as a [`WordInAlternative`]: an object carrying
/// number members `start` and `end` and a string member `word`, all
/// required.
pub open spec fn spec_decode_word_alt(v: JsonValue) -> Option<WordInAlternativeView> {
    match v {
        JsonValue::Object(fields) => match (
            spec_field(fields@, "start"@),
            spec_field(fields@, "end"@),
            spec_field(fields@, "word"@),
        ) {
            (
                Some(JsonValue::Number(s)),
                Some(JsonValue::Number(e)),
                Some(JsonValue::Text(w)),
            ) => Some(WordInAlternativeView { start: s@, end: e@, word: w@ }),
            _ => None,
        },
        _ => None,
    }
}

/// What an array denotes as an alternative's word list.
pub open spec fn spec_decode_words_alt(elems: Seq<JsonValue>) -> Option<
    Seq<WordInAlternativeView>,
>
    decreases elems.len(),
{
    if elems.len() == 0 {
        Some(Seq::empty())
    } else {
        match (spec_decode_words_alt(elems.drop_last()), spec_decode_word_alt(elems.last())) {
            (Some(ws), Some(w)) => Some(ws.push(w)),
            _ => None,
        }
    }
}

/// What a JSON tree denotes as an [`Alternative`]: an object with a
/// required number member `confidence`, a required string member `text`,
/// and a word array `result` that defaults to empty when absent.
pub open spec fn spec_decode_alternative(v: JsonValue) -> Option<AlternativeView> {
    match v {
        JsonValue::Object(fields) => {
            let words = match spec_field(fields@, "result"@) {
                None => Some(Seq::<WordInAlternativeView>::empty()),
                Some(JsonValue::Array(a)) => spec_decode_words_alt(a@),
                Some(_) => None,
            };
            match (spec_field(fields@, "confidence"@), spec_field(fields@, "text"@), words) {
                (Some(JsonValue::Number(c)), Some(JsonValue::Text(t)), Some(ws)) => Some(
                    AlternativeView { confidence: c@, result: ws, text: t@ },
                ),
                _ => None,
            }
        },
        _ => None,
    }
}

/// What an array denotes as a list of alternatives.
pub open spec fn spec_decode_alternatives(elems: Seq<JsonValue>) -> Option<Seq<AlternativeView>>
    decreases elems.len(),
{
    if elems.len() == 0 {
        Some(Seq::empty())
    } else {
        match (
            spec_decode_alternatives(elems.drop_last()),
            spec_decode_alternative(elems.last()),
        ) {
            (Some(alts), Some(a)) => Some(alts.push(a)),
            _ => None,
        }
    }
}

/// What a JSON tree denotes as a [`CompleteResultMultiple`]: an object with
/// a required member `alternatives` holding an array of alternatives.
pub open spec fn spec_decode_multiple(v: JsonValue) -> Option<CompleteResultMultipleView> {
    match v {
        JsonValue::Object(fields) => match spec_field(fields@, "alternatives"@) {
            Some(JsonValue::Array(a)) => match spec_decode_alternatives(a@) {
                Some(alts) => Some(CompleteResultMultipleView { alternatives: alts }),
                None => None,
            },
            _ => None,
        },
        _ => None,
    }
}

/// What an array denotes as a list of number texts: every element must be
/// a number.
pub open spec fn spec_number_texts(elems: Seq<JsonValue>) -> Option<Seq<Seq<char>>>
    decreases elems.len(),
{
    if elems.len() == 0 {
        Some(Seq::empty())
    } else {
        match (spec_number_texts(elems.drop_last()), elems.last()) {
            (Some(ts), JsonValue::Number(t)) => Some(ts.push(t@)),
            _ => None,
        }
    }
}

/// What an object's members denote as speaker information: present exactly
/// when the member `spk` holds an array of numbers and the member
/// `spk_frames` holds a non-negative integer that fits 16 bits; anything
/// else, including absence, means no speaker information, never a failure.
pub open spec fn spec_decode_speaker(fields: Seq<(String, JsonValue)>) -> Option<SpeakerInfoView> {
    match (spec_field(fields, "spk"@), spec_field(fields, "spk_frames"@)) {
        (Some(JsonValue::Array(a)), Some(JsonValue::Number(t))) => match (
            spec_number_texts(a@),
            spec_u16_of_digits(t@),
        ) {
            (Some(vector), Some(frames)) => Some(SpeakerInfoView { vector, frames }),
            _ => None,
        },
        _ => None,
    }
}

/// What a JSON tree denotes as a [`CompleteResultSingle`]: an object with a
/// required string member `text`, a word array `result` that defaults to
/// empty when absent, and optional speaker information.
pub open spec fn spec_decode_single(v: JsonValue) -> Option<CompleteResultSingleView> {
    match v {
        JsonValue::Object(fields) => {
            let words = match spec_field(fields@, "result"@) {
                None => Some(Seq::<WordView>::empty()),
                Some(JsonValue::Array(a)) => spec_decode_words(a@),
                Some(_) => None,
            };
            match (spec_field(fields@, "text"@), words) {
                (Some(JsonValue::Text(t)), Some(ws)) => Some(
                    CompleteResultSingleView {
                        speaker_info: spec_decode_speaker(fields@),
                        result: ws,
                        text: t@,
                    },
                ),
                _ => None,
            }
        },
        _ => None,
    }
}

/// What a JSON tree denotes as a [`CompleteResult`].  The wire format
/// carries no discriminator, so the choice is structural: the single-result
/// schema is attempted first, the multi-alternative schema second.
pub open spec fn spec_decode_complete(v: JsonValue) -> Option<CompleteResultView> {
    if spec_decode_single(v) is Some {
        Some(CompleteResultView::Single(spec_decode_single(v)->Some_0))
    } else {
        match spec_decode_multiple(v) {
            Some(m) => Some(CompleteResultView::Multiple(m)),
            None => None,
        }
    }
}

proof fn lemma_decode_words_alt_failure(elems: Seq<JsonValue>, i: int)
    requires
        0 <= i < elems.len(),
        spec_decode_word_alt(elems[i]) is None,
    ensures
        spec_decode_words_alt(elems) is None,
    decreases elems.len(),
{
    if i < elems.len() - 1 {
        assert(elems.drop_last()[i] == elems[i]);
        lemma_decode_words_alt_failure(elems.drop_last(), i);
    }
}

proof fn lemma_decode_alternatives_failure(elems: Seq<JsonValue>, i: int)
    requires
        0 <= i < elems.len(),
        spec_decode_alternative(elems[i]) is None,
    ensures
        spec_decode_alternatives(elems) is None,
    decreases elems.len(),
{
    if i < elems.len() - 1 {
        assert(elems.drop_last()[i] == elems[i]);
        lemma_decode_alternatives_failure(elems.drop_last(), i);
    }
}

proof fn lemma_number_texts_failure(elems: Seq<JsonValue>, i: int)
    requires
        0 <= i < elems.len(),
        !(elems[i] is Number),
    ensures
        spec_number_texts(elems) is None,
    decreases elems.len(),
{
    if i < elems.len() - 1 {
        assert(elems.drop_last()[i] == elems[i]);
        lemma_number_texts_failure(elems.drop_last(), i);
    }
}

/// Decodes one element of an alternative's word list.
pub fn decode_word_alt_value(v: &JsonValue) -> (r: Option<WordInAlternative>)
    ensures
        r.deep_view() == spec_decode_word_alt(*v),
{
    let fields = match v {
        JsonValue::Object(fields) => fields,
        _ => {
            return None;
        },
    };
    let start = match get_field(fields, "start") {
        Some(JsonValue::Number(s)) => s.clone(),
        _ => {
            return None;
        },
    };
    let end = match get_field(fields, "end") {
        Some(JsonValue::Number(s)) => s.clone(),
        _ => {
            return None;
        },
    };
    let word = match get_field(fields, "word") {
        Some(JsonValue::Text(s)) => s.clone(),
        _ => {
            return None;
        },
    };
    Some(WordInAlternative { start, end, word })
}

/// Decodes an alternative's word list.
pub fn decode_words_alt(elems: &Vec<JsonValue>) -> (r: Option<Vec<WordInAlternative>>)
    ensures
        r.deep_view() == spec_decode_words_alt(elems@),
{
    let n = elems.len();
    let mut out: Vec<WordInAlternative> = Vec::new();
    proof {
        assert(elems@.take(0) =~= Seq::<JsonValue>::empty());
        assert(out.deep_view() =~= Seq::<WordInAlternativeView>::empty());
    }
    let mut i: usize = 0;
    while i < n
        invariant
            n == elems@.len(),
            0 <= i <= n,
            spec_decode_words_alt(elems@.take(i as int)) == Some(out.deep_view()),
        decreases n - i,
    {
        match decode_word_alt_value(&elems[i]) {
            Some(w) => {
                let ghost prev = out.deep_view();
                let ghost wv = w.deep_view();
                out.push(w);
                proof {
                    assert(out.deep_view() =~= prev.push(wv));
                    assert(elems@.take(i as int + 1).drop_last() =~= elems@.take(i as int));
                    assert(elems@.take(i as int + 1).last() == elems@[i as int]);
                }
            },
            None => {
                proof {
                    lemma_decode_words_alt_failure(elems@, i as int);
                }
                return None;
            },
        }
        i += 1;
    }
    proof {
        assert(elems@.take(n as int) =~= elems@);
    }
    Some(out)
}

/// Decodes one alternative transcript.
pub fn decode_alternative_value(v: &JsonValue) -> (r: Option<Alternative>)
    ensures
        r.deep_view() == spec_decode_alternative(*v),
{
    let fields = match v {
        JsonValue::Object(fields) => fields,
        _ => {
            return None;
        },
    };
    let confidence = match get_field(fields, "confidence") {
        Some(JsonValue::Number(s)) => s.clone(),
        _ => {
            return None;
        },
    };
    let text = match get_field(fields, "text") {
        Some(JsonValue::Text(s)) => s.clone(),
        _ => {
            return None;
        },
    };
    let words: Vec<WordInAlternative> = match get_field(fields, "result") {
        None => {
            let w: Vec<WordInAlternative> = Vec::new();
            proof {
                assert(w.deep_view() =~= Seq::<WordInAlternativeView>::empty());
            }
            w
        },
        Some(JsonValue::Array(a)) => {
            match decode_words_alt(a) {
                Some(ws) => ws,
                None => {
                    return None;
                },
            }
        },
        Some(_) => {
            return None;
        },
    };
    Some(Alternative { confidence, result: words, text })
}

/// Decodes the alternatives array of a multi-alternative result.
pub fn decode_alternatives(elems: &Vec<JsonValue>) -> (r: Option<Vec<Alternative>>)
    ensures
        r.deep_view() == spec_decode_alternatives(elems@),
{
    let n = elems.len();
    let mut out: Vec<Alternative> = Vec::new();
    proof {
        assert(elems@.take(0) =~= Seq::<JsonValue>::empty());
        assert(out.deep_view() =~= Seq::<AlternativeView>::empty());
    }
    let mut i: usize = 0;
    while i < n
        invariant
            n == elems@.len(),
            0 <= i <= n,
            spec_decode_alternatives(elems@.take(i as int)) == Some(out.deep_view()),
        decreases n - i,
    {
        match decode_alternative_value(&elems[i]) {
            Some(a) => {
                let ghost prev = out.deep_view();
                let ghost av = a.deep_view();
                out.push(a);
                proof {
                    assert(out.deep_view() =~= prev.push(av));
                    assert(elems@.take(i as int + 1).drop_last() =~= elems@.take(i as int));
                    assert(elems@.take(i as int + 1).last() == elems@[i as int]);
                }
            },
            None => {
                proof {
                    lemma_decode_alternatives_failure(elems@, i as int);
                }
                return None;
            },
        }
        i += 1;
    }
    proof {
        assert(elems@.take(n as int) =~= elems@);
    }
    Some(out)
}

/// Decodes a multi-alternative result payload.
pub fn decode_multiple_value(v: &JsonValue) -> (r: Option<CompleteResultMultiple>)
    ensures
        r.deep_view() == spec_decode_multiple(*v),
{
    let fields = match v {
        JsonValue::Object(fields) => fields,
        _ => {
            return None;
        },
    };
    match get_field(fields, "alternatives") {
        Some(JsonValue::Array(a)) => {
            match decode_alternatives(a) {
                Some(alternatives) => Some(CompleteResultMultiple { alternatives }),
                None => None,
            }
        },
        _ => None,
    }
}

/// Decodes an array of numbers into their texts.
pub fn decode_number_texts(elems: &Vec<JsonValue>) -> (r: Option<Vec<String>>)
    ensures
        r.deep_view() == spec_number_texts(elems@),
{
    let n = elems.len();
    let mut out: Vec<String> = Vec::new();
    proof {
        assert(elems@.take(0) =~= Seq::<JsonValue>::empty());
        assert(out.deep_view() =~= Seq::<Seq<char>>::empty());
    }
    let mut i: usize = 0;
    while i < n
        invariant
            n == elems@.len(),
            0 <= i <= n,
            spec_number_texts(elems@.take(i as int)) == Some(out.deep_view()),
        decreases n - i,
    {
        match &elems[i] {
            JsonValue::Number(t) => {
                let ghost prev = out.deep_view();
                let tc = t.clone();
                let ghost tv = tc@;
                out.push(tc);
                proof {
                    assert(out.deep_view() =~= prev.push(tv));
                    assert(elems@.take(i as int + 1).drop_last() =~= elems@.take(i as int));
                    assert(elems@.take(i as int + 1).last() == elems@[i as int]);
                }
            },
            _ => {
                proof {
                    lemma_number_texts_failure(elems@, i as int);
                }
                return None;
            },
        }
        i += 1;
    }
    proof {
        assert(elems@.take(n as int) =~= elems@);
    }
    Some(out)
}

/// Extracts the speaker information of a single-result payload's members,
/// if both speaker members are present and well-formed; anything else
/// yields no speaker information, never a failure.
pub fn decode_speaker_value(fields: &Vec<(String, JsonValue)>) -> (r: Option<SpeakerInfo>)
    ensures
        r.deep_view() == spec_decode_speaker(fields@),
{
    let vector = match get_field(fields, "spk") {
        Some(JsonValue::Array(a)) => {
            match decode_number_texts(a) {
                Some(ts) => ts,
                None => {
                    return None;
                },
            }
        },
        _ => {
            return None;
        },
    };
    let frames = match get_field(fields, "spk_frames") {
        Some(JsonValue::Number(t)) => {
            match parse_u16(t.as_str()) {
                Some(f) => f,
                None => {
                    return None;
                },
            }
        },
        _ => {
            return None;
        },
    };
    Some(SpeakerInfo { vector, frames })
}

/// Decodes a single-result payload.
pub fn decode_single_value(v: &JsonValue) -> (r: Option<CompleteResultSingle>)
    ensures
        r.deep_view() == spec_decode_single(*v),
{
    let fields = match v {
        JsonValue::Object(fields) => fields,
        _ => {
            return None;
        },
    };
    let text = match get_field(fields, "text") {
        Some(JsonValue::Text(s)) => s.clone(),
        _ => {
            return None;
        },
    };
    let words: Vec<Word> = match get_field(fields, "result") {
        None => {
            let w: Vec<Word> = Vec::new();
            proof {
                assert(w.deep_view() =~= Seq::<WordView>::empty());
            }
            w
        },
        Some(JsonValue::Array(a)) => {
            match decode_words(a) {
                Some(ws) => ws,
                None => {
                    return None;
                },
            }
        },
        Some(_) => {
            return None;
        },
    };
    let speaker_info = decode_speaker_value(fields);
    Some(CompleteResultSingle { speaker_info, result: words, text })
}

/// Decodes a complete-result payload by structural trial: single-result
/// schema first, multi-alternative schema second.
pub fn decode_complete_value(v: &JsonValue) -> (r: Option<CompleteResult>)
    ensures
        r.deep_view() == spec_decode_complete(*v),
{
    match decode_single_value(v) {
        Some(s) => Some(CompleteResult::Single(s)),
        None => {
            match decode_multiple_value(v) {
                Some(m) => Some(CompleteResult::Multiple(m)),
                None => None,
            }
        },
    }
}

/// Decodes a complete-result payload from the engine's JSON text.
pub fn decode_complete(text: &str) -> (r: Option<CompleteResult>)
    ensures
        r.deep_view() == (match parsed_json(text@) {
            Some(v) => spec_decode_complete(v),
            None => None::<CompleteResultView>,
        }),
{
    match parse_json(text) {
        Some(v) => decode_complete_value(&v),
        None => None,
    }
}

/// Decodes a partial-hypothesis payload from the engine's JSON text.
pub fn decode_partial(text: &str) -> (r: Option<PartialResult>)
    ensures
        r.deep_view() == (match parsed_json(text@) {
            Some(v) => spec_decode_partial(v),
            None => None::<PartialResultView>,
        }),
{
    match parse_json(text) {
        Some(v) => decode_partial_value(&v),
        None => None,
    }
}

/// Decodes one word payload from JSON text: the shape of a queued batch
/// result, which carries a single word with its metadata.
pub fn decode_word(text: &str) -> (r: Option<Word>)
    ensures
        r.deep_view() == (match parsed_json(text@) {
            Some(v) => spec_decode_word(v),
            None => None::<WordView>,
        }),
{
    match parse_json(text) {
        Some(v) => decode_word_value(&v),
        None => None,
    }
}

proof fn lemma_spec_field_unfold(fs: Seq<(String, JsonValue)>, key: Seq<char>)
    requires
        fs.len() > 0,
    ensures
        spec_field(fs, key) == (if fs[0].0@ == key {
            Some(fs[0].1)
        } else {
            spec_field(fs.drop_first(), key)
        }),
{
}

/// Encodes a word as the payload [`spec_decode_word`] describes; decoding
/// the result gives back exactly the word that went in.
pub fn encode_word_value(w: &Word) -> (r: JsonValue)
    ensures
        spec_decode_word(r) == Some(w.deep_view()),
{
    let mut fields: Vec<(String, JsonValue)> = Vec::new();
    fields.push((String::from_str("conf"), JsonValue::Number(w.conf.clone())));
    fields.push((String::from_str("start"), JsonValue::Number(w.start.clone())));
    fields.push((String::from_str("end"), JsonValue::Number(w.end.clone())));
    fields.push((String::from_str("word"), JsonValue::Text(w.word.clone())));
    let r = JsonValue::Object(fields);
    proof {
        reveal_strlit("conf");
        reveal_strlit("start");
        reveal_strlit("end");
        reveal_strlit("word");
        let fs = r->Object_0@;
        let s1 = fs.drop_first();
        let s2 = s1.drop_first();
        let s3 = s2.drop_first();
        assert(s1[0] == fs[1]);
        assert(s2[0] == fs[2]);
        assert(s3[0] == fs[3]);
        assert("conf"@[0] == 'c' && "start"@[0] == 's' && "end"@[0] == 'e' && "word"@[0]
            == 'w');
        lemma_spec_field_unfold(fs, "conf"@);
        lemma_spec_field_unfold(fs, "start"@);
        lemma_spec_field_unfold(s1, "start"@);
        lemma_spec_field_unfold(fs, "end"@);
        lemma_spec_field_unfold(s1, "end"@);
        lemma_spec_field_unfold(s2, "end"@);
        lemma_spec_field_unfold(fs, "word"@);
        lemma_spec_field_unfold(s1, "word"@);
        lemma_spec_field_unfold(s2, "word"@);
        lemma_spec_field_unfold(s3, "word"@);
    }
    r
}

/// Encodes a word list as the array [`spec_decode_words`] describes.
pub fn encode_words(ws: &Vec<Word>) -> (r: Vec<JsonValue>)
    ensures
        spec_decode_words(r@) == Some(ws.deep_view()),
{
    let n = ws.len();
    let mut out: Vec<JsonValue> = Vec::new();
    proof {
        assert(out@ =~= Seq::<JsonValue>::empty());
        assert(ws.deep_view().take(0) =~= Seq::<WordView>::empty());
    }
    let mut i: usize = 0;
    while i < n
        invariant
            n == ws@.len(),
            0 <= i <= n,
            spec_decode_words(out@) == Some(ws.deep_view().take(i as int)),
        decreases n - i,
    {
        let ghost prev = out@;
        let v = encode_word_value(&ws[i]);
        out.push(v);
        proof {
            assert(out@.drop_last() =~= prev);
            assert(out@.last() == v);
            assert(ws.deep_view().take(i as int + 1) =~= ws.deep_view().take(i as int).push(
                ws[i as int].deep_view(),
            ));
        }
        i += 1;
    }
    proof {
        assert(ws.deep_view().take(n as int) =~= ws.deep_view());
    }
    out
}

/// Encodes a partial result as the payload [`spec_decode_partial`]
/// describes.  Decoding the result gives back exactly the value that went
/// in: together with [`decode_partial_value`] this is the round trip
/// through the wire format, for every partial result.
pub fn encode_partial_value(p: &PartialResult) -> (r: JsonValue)
    ensures
        spec_decode_partial(r) == Some(p.deep_view()),
{
    let mut fields: Vec<(String, JsonValue)> = Vec::new();
    fields.push((String::from_str("partial"), JsonValue::Text(p.partial.clone())));
    fields.push((String::from_str("partial_result"), JsonValue::Array(encode_words(
        &p.partial_result,
    ))));
    let r = JsonValue::Object(fields);
    proof {
        reveal_strlit("partial");
        reveal_strlit("partial_result");
        let fs = r->Object_0@;
        let s1 = fs.drop_first();
        assert(s1[0] == fs[1]);
        assert("partial"@.len() != "partial_result"@.len());
        lemma_spec_field_unfold(fs, "partial"@);
        lemma_spec_field_unfold(fs, "partial_result"@);
        lemma_spec_field_unfold(s1, "partial_result"@);
    }
    r
}

/// The default-filling law: an object payload that carries neither partial
/// member decodes to the all-default partial result.  The engine's minimal
/// payload, the empty object, is such a payload.
pub proof fn lemma_partial_defaults(v: JsonValue)
    requires
        v is Object,
        spec_field(v->Object_0@, "partial"@) is None,
        spec_field(v->Object_0@, "partial_result"@) is None,
    ensures
        spec_decode_partial(v) == Some(spec_default_partial()),
{
}

/// The structural-selection law: a payload that matches the single-result
/// schema always decodes to single-result output, and only a payload that
/// does not match it can decode to multi-alternative output.
pub proof fn lemma_complete_selection(v: JsonValue)
    ensures
        spec_decode_single(v) is Some ==> spec_decode_complete(v) == Some(
            CompleteResultView::Single(spec_decode_single(v)->Some_0),
        ),
        spec_decode_single(v) is None ==> spec_decode_complete(v) == (
        match spec_decode_multiple(v) {
            Some(m) => Some(CompleteResultView::Multiple(m)),
            None => None,
        }),
{
}

} // verus!
