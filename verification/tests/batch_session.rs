//! Tests for the batch-recognizer queue protocol.
use vosk::{
    pending_chunks_from_native, AcceptWaveformError, BatchModel, BatchRecognizer, NativeHandle,
};

const ADDR: usize = 0x2000;

fn recognizer() -> BatchRecognizer {
    BatchRecognizer::new(NativeHandle::new(ADDR).unwrap())
}

#[test]
fn batch_model_acquisition_checks_for_null() {
    assert!(BatchModel::from_raw(0).is_err());
    assert_eq!(BatchModel::from_raw(ADDR).unwrap().addr(), ADDR);
}

#[test]
fn fresh_batch_sessions_have_nothing_queued() {
    let r = recognizer();
    assert_eq!(r.unconsumed(), 0);
}

#[test]
fn draining_the_queue_after_n_chunks_leaves_nothing_unconsumed() {
    let n: u64 = 5;
    let mut r = recognizer();
    for _ in 0..n {
        assert_eq!(r.accept_waveform_len(8000), Ok(8000));
    }
    r.finish_stream();
    assert_eq!(r.unconsumed(), n);
    for left in (0..n).rev() {
        // The embedding layer peeks the front result here, then discards it.
        r.pop();
        assert_eq!(r.unconsumed(), left);
    }
    assert_eq!(r.unconsumed(), 0);
}

#[test]
fn rejected_chunks_are_not_counted_as_submitted() {
    let mut r = recognizer();
    let too_long = i32::MAX as usize + 1;
    assert_eq!(
        r.accept_waveform_len(too_long),
        Err(AcceptWaveformError::BufferTooLong(too_long))
    );
    assert_eq!(r.unconsumed(), 0);
    assert_eq!(r.accept_waveform_len(i32::MAX as usize), Ok(i32::MAX));
    assert_eq!(r.unconsumed(), 1);
}

#[test]
fn nlsml_flag_does_not_touch_the_queue() {
    let mut r = recognizer();
    r.accept_waveform_len(16).unwrap();
    r.set_nlsml(true);
    assert_eq!(r.unconsumed(), 1);
}

#[test]
fn pending_counts_are_never_negative() {
    assert_eq!(pending_chunks_from_native(0), Some(0));
    assert_eq!(pending_chunks_from_native(5), Some(5));
    assert_eq!(pending_chunks_from_native(i32::MAX), Some(i32::MAX as u32));
    assert_eq!(pending_chunks_from_native(-1), None);
}
