//! Tests for the result-payload decoders.
use vosk::results::{decode_partial_value, encode_partial_value};
use vosk::{
    decode_complete, decode_partial, decode_word, CompleteResult, NativeHandle, PartialResult,
    Recognizer, Word,
};

fn word(conf: &str, start: &str, end: &str, text: &str) -> Word {
    Word {
        conf: conf.to_string(),
        start: start.to_string(),
        end: end.to_string(),
        word: text.to_string(),
    }
}

#[test]
fn minimal_payload_decodes_to_default_partial() {
    let decoded = decode_partial("{}").expect("the empty object is a valid partial payload");
    assert_eq!(decoded, PartialResult::default());
    assert_eq!(decoded.partial, "");
    assert!(decoded.partial_result.is_empty());
}

#[test]
fn encoded_default_partial_equals_decoded_minimal_payload() {
    let encoded = encode_partial_value(&PartialResult::default());
    let round_tripped = decode_partial_value(&encoded).expect("encoded payloads decode");
    assert_eq!(round_tripped, decode_partial("{}").unwrap());
}

#[test]
fn partial_round_trip_keeps_words() {
    let original = PartialResult {
        partial: "cyril one eight zero".to_string(),
        partial_result: vec![
            word("1", "0.87", "1.11", "cyril"),
            word("0.5", "1.11", "1.53", "one"),
        ],
    };
    let encoded = encode_partial_value(&original);
    assert_eq!(decode_partial_value(&encoded).unwrap(), original);
}

#[test]
fn partial_text_is_taken_from_payload() {
    let decoded = decode_partial("{\"partial\": \"cyril one eight zero\"}").unwrap();
    assert_eq!(decoded.partial, "cyril one eight zero");
    assert!(decoded.partial_result.is_empty());
}

#[test]
fn partial_words_are_decoded() {
    let decoded = decode_partial(
        "{\"partial\": \"what\", \"partial_result\": [\
         {\"conf\": 1.0, \"end\": 1.11, \"start\": 0.87, \"word\": \"what\"}]}",
    )
    .unwrap();
    assert_eq!(decoded.partial, "what");
    assert_eq!(decoded.partial_result, vec![word("1.0", "0.87", "1.11", "what")]);
}

#[test]
fn mistyped_partial_member_is_rejected() {
    assert_eq!(decode_partial("{\"partial\": 5}"), None);
    assert_eq!(decode_partial("{\"partial_result\": \"no\"}"), None);
    assert_eq!(decode_partial("[]"), None);
}

#[test]
fn malformed_text_is_rejected() {
    assert_eq!(decode_partial("not json"), None);
    assert_eq!(decode_complete(""), None);
}

#[test]
fn empty_speech_decodes_to_single_with_empty_text() {
    let decoded = decode_complete("{\"text\": \"\"}").unwrap();
    match decoded {
        CompleteResult::Single(single) => {
            assert_eq!(single.text, "");
            assert!(single.result.is_empty());
            assert_eq!(single.speaker_info, None);
        }
        CompleteResult::Multiple(_) => panic!("a text payload must decode as single"),
    }
}

#[test]
fn single_with_words_keeps_order_and_number_texts() {
    let decoded = decode_complete(
        "{\"result\": [\
         {\"conf\": 1.0, \"end\": 1.11, \"start\": 0.87, \"word\": \"what\"}, \
         {\"conf\": 0.97, \"end\": 1.53, \"start\": 1.11, \"word\": \"zero\"}], \
         \"text\": \"what zero\"}",
    )
    .unwrap();
    let single = decoded.single().expect("single-result payload");
    assert_eq!(single.text, "what zero");
    assert_eq!(
        single.result,
        vec![word("1.0", "0.87", "1.11", "what"), word("0.97", "1.11", "1.53", "zero")]
    );
}

#[test]
fn alternatives_payload_decodes_to_multiple() {
    let decoded = decode_complete(
        "{\"alternatives\": [\
         {\"confidence\": 0.97, \"text\": \"one two three four five\"}, \
         {\"confidence\": 0.03, \"result\": [\
          {\"end\": 0.5, \"start\": 0.0, \"word\": \"one\"}], \
          \"text\": \"one two three for five\"}]}",
    )
    .unwrap();
    let multiple = decoded.multiple().expect("alternatives payload");
    assert_eq!(multiple.alternatives.len(), 2);
    assert_eq!(multiple.alternatives[0].confidence, "0.97");
    assert_eq!(multiple.alternatives[0].text, "one two three four five");
    assert!(multiple.alternatives[0].result.is_empty());
    assert_eq!(multiple.alternatives[1].result.len(), 1);
    assert_eq!(multiple.alternatives[1].result[0].word, "one");
}

#[test]
fn empty_alternatives_list_is_multiple() {
    let decoded = decode_complete("{\"alternatives\": []}").unwrap();
    let multiple = decoded.multiple().expect("alternatives payload");
    assert!(multiple.alternatives.is_empty());
}

#[test]
fn text_payload_wins_over_alternatives() {
    // The single schema is attempted first, so a payload carrying both
    // members decodes as single; the unknown member is ignored.
    let decoded = decode_complete("{\"text\": \"a\", \"alternatives\": []}").unwrap();
    assert!(decoded.single().is_some());
}

#[test]
fn result_tag_alternates_with_the_configured_alternatives() {
    // The engine's payload shape follows the configured alternatives
    // count: a zero count produces text-shaped payloads, a positive count
    // produces alternatives-shaped payloads.  Alternating the
    // configuration and decoding the payload each shape produces must
    // alternate the result tag accordingly.
    let mut session = Recognizer::new(NativeHandle::new(0x3000).unwrap());
    let single_payload = "{\"text\": \"one\"}";
    let multiple_payload = "{\"alternatives\": [{\"confidence\": 1.0, \"text\": \"one\"}]}";

    assert_eq!(session.config().max_alternatives, 0);
    assert!(decode_complete(single_payload).unwrap().single().is_some());

    session.set_max_alternatives(3);
    assert_eq!(session.config().max_alternatives, 3);
    assert!(decode_complete(multiple_payload).unwrap().multiple().is_some());

    session.set_max_alternatives(0);
    assert_eq!(session.config().max_alternatives, 0);
    assert!(decode_complete(single_payload).unwrap().single().is_some());
}

#[test]
fn speaker_info_is_decoded_when_both_members_are_present() {
    let decoded = decode_complete(
        "{\"spk\": [1.0, -0.5, 3], \"spk_frames\": 40, \"text\": \"hello\"}",
    )
    .unwrap();
    let single = decoded.single().unwrap();
    let speaker = single.speaker_info.expect("both speaker members are present");
    assert_eq!(speaker.vector, vec!["1.0".to_string(), "-0.5".to_string(), "3".to_string()]);
    assert_eq!(speaker.frames, 40);
}

#[test]
fn speaker_info_frames_boundary() {
    let decoded = decode_complete("{\"spk\": [], \"spk_frames\": 65535, \"text\": \"\"}")
        .unwrap();
    assert_eq!(decoded.single().unwrap().speaker_info.unwrap().frames, 65535);

    // A frame count that does not fit 16 bits means no speaker
    // information, not a failed decode.
    let decoded = decode_complete("{\"spk\": [], \"spk_frames\": 65536, \"text\": \"\"}")
        .unwrap();
    assert_eq!(decoded.single().unwrap().speaker_info, None);
}

#[test]
fn lone_speaker_member_means_no_speaker_info() {
    let decoded = decode_complete("{\"spk\": [1.5], \"text\": \"\"}").unwrap();
    assert_eq!(decoded.single().unwrap().speaker_info, None);
    let decoded = decode_complete("{\"spk_frames\": 7, \"text\": \"\"}").unwrap();
    assert_eq!(decoded.single().unwrap().speaker_info, None);
}

#[test]
fn unknown_members_are_ignored() {
    let decoded = decode_complete("{\"text\": \"a\", \"surprise\": {\"deep\": [null]}}")
        .unwrap();
    assert_eq!(decoded.single().unwrap().text, "a");
}

#[test]
fn escapes_in_strings_are_resolved_by_the_parser() {
    let decoded = decode_complete("{\"text\": \"a\\nb \\\"q\\\"\"}").unwrap();
    assert_eq!(decoded.single().unwrap().text, "a\nb \"q\"");
}

#[test]
fn batch_word_payload_decodes() {
    let decoded = decode_word(
        "{\"conf\": 1.0, \"end\": 1.11, \"start\": 0.87, \"word\": \"what\"}",
    )
    .unwrap();
    assert_eq!(decoded, word("1.0", "0.87", "1.11", "what"));
}

#[test]
fn incomplete_word_payload_is_rejected() {
    assert_eq!(decode_word("{\"conf\": 1.0, \"end\": 1.11, \"word\": \"what\"}"), None);
    assert_eq!(
        decode_word("{\"conf\": \"1.0\", \"end\": 1.1, \"start\": 0.8, \"word\": \"w\"}"),
        None
    );
}
