use op_bindings::generic_path::{ArgKind, OkEncoding, ReturnPlan};
use op_bindings::marshal::{
    complete, decode_arg, decode_u32_mut_slice, decode_u8_ptr, decode_u8_slice, encode_bytes,
    encode_text, fits, promise_id, settle, start_async, AsyncStart, CallContext, Completion,
    Decoded, DecodeError, HostValue, Outcome, Region, ReturnAction,
};

fn text_of(d: Decoded) -> String {
    match d {
        Decoded::Text(s) => s,
        other => panic!("no text: {:?}", other),
    }
}

#[test]
fn plain_buffer_is_seen_whole() {
    let value = HostValue::Buffer(vec![1, 2, 3, 4, 5]);
    assert_eq!(decode_u8_slice(&value, 0), Ok(Region { start: 0, len: 5 }));
    assert_eq!(decode_u8_slice(&HostValue::Buffer(Vec::new()), 0), Ok(Region { start: 0, len: 0 }));
}

#[test]
fn offset_view_is_seen_from_its_offset() {
    let value = HostValue::View { buffer: Some(vec![0; 16]), offset: 4, length: 8 };
    assert_eq!(decode_u8_slice(&value, 1), Ok(Region { start: 4, len: 8 }));
    let whole = HostValue::View { buffer: Some(vec![0; 16]), offset: 0, length: 16 };
    assert_eq!(decode_u8_slice(&whole, 1), Ok(Region { start: 0, len: 16 }));
    let end = HostValue::View { buffer: Some(vec![0; 16]), offset: 16, length: 0 };
    assert_eq!(decode_u8_slice(&end, 1), Ok(Region { start: 16, len: 0 }));
    let words = HostValue::WordView { buffer: Some(vec![0; 16]), offset: 8, length: 8 };
    assert_eq!(decode_u8_slice(&words, 1), Ok(Region { start: 8, len: 8 }));
}

#[test]
fn view_outside_its_buffer_is_refused() {
    let err = Err(DecodeError::ExpectedBufferView { position: 2 });
    let long = HostValue::View { buffer: Some(vec![0; 16]), offset: 12, length: 8 };
    assert_eq!(decode_u8_slice(&long, 2), err);
    let huge = HostValue::View { buffer: Some(vec![0; 16]), offset: usize::MAX, length: 2 };
    assert_eq!(decode_u8_slice(&huge, 2), err);
    let detached = HostValue::View { buffer: None, offset: 0, length: 0 };
    assert_eq!(decode_u8_slice(&detached, 2), err);
    assert_eq!(decode_u8_slice(&HostValue::Text("abc".to_string()), 2), err);
    assert_eq!(decode_u8_slice(&HostValue::Other, 2), err);
    assert!(fits(&vec![0; 4], 4, 0));
    assert!(!fits(&vec![0; 4], 4, 1));
}

#[test]
fn word_slice_takes_only_a_view_of_words() {
    let words = HostValue::WordView { buffer: Some(vec![0; 32]), offset: 8, length: 16 };
    assert_eq!(decode_u32_mut_slice(&words, 0), Ok(Region { start: 8, len: 4 }));
    let odd = HostValue::WordView { buffer: Some(vec![0; 32]), offset: 0, length: 7 };
    assert_eq!(decode_u32_mut_slice(&odd, 0), Ok(Region { start: 0, len: 1 }));
    let err = Err(DecodeError::ExpectedWordView { position: 3 });
    let bytes = HostValue::View { buffer: Some(vec![0; 32]), offset: 8, length: 16 };
    assert_eq!(decode_u32_mut_slice(&bytes, 3), err);
    assert_eq!(decode_u32_mut_slice(&HostValue::Buffer(vec![0; 32]), 3), err);
    let outside = HostValue::WordView { buffer: Some(vec![0; 8]), offset: 8, length: 4 };
    assert_eq!(decode_u32_mut_slice(&outside, 3), err);
    let detached = HostValue::WordView { buffer: None, offset: 0, length: 4 };
    assert_eq!(decode_u32_mut_slice(&detached, 3), err);
}

#[test]
fn pointer_points_at_the_view() {
    assert_eq!(decode_u8_ptr(&HostValue::Buffer(vec![9; 3]), 0), Ok(0));
    let view = HostValue::View { buffer: Some(vec![0; 16]), offset: 5, length: 2 };
    assert_eq!(decode_u8_ptr(&view, 0), Ok(5));
    assert_eq!(
        decode_u8_ptr(&HostValue::Integer(1), 4),
        Err(DecodeError::ExpectedBufferView { position: 4 })
    );
}

#[test]
fn strings_are_decoded_as_they_are() {
    for kind in [ArgKind::OwnedString, ArgKind::BorrowedString, ArgKind::CowString] {
        let got = decode_arg(kind, &HostValue::Text("héllo".to_string()), 0).unwrap();
        assert_eq!(text_of(got), "héllo");
        assert_eq!(
            decode_arg(kind, &HostValue::Integer(3), 7).unwrap_err(),
            DecodeError::ExpectedString { position: 7 }
        );
    }
}

#[test]
fn optional_string_is_absent_for_other_values() {
    match decode_arg(ArgKind::OptionalString, &HostValue::Text("x".to_string()), 0).unwrap() {
        Decoded::OptionalText(Some(s)) => assert_eq!(s, "x"),
        other => panic!("no text: {:?}", other),
    }
    match decode_arg(ArgKind::OptionalString, &HostValue::Other, 0).unwrap() {
        Decoded::OptionalText(None) => {}
        other => panic!("not absent: {:?}", other),
    }
}

#[test]
fn other_kinds_decode_without_looking() {
    assert!(matches!(decode_arg(ArgKind::AbsentOption, &HostValue::Other, 0), Ok(Decoded::Absent)));
    assert!(matches!(decode_arg(ArgKind::Ignored, &HostValue::Integer(1), 0), Ok(Decoded::Unit)));
    assert!(matches!(decode_arg(ArgKind::Generic, &HostValue::Integer(1), 0), Ok(Decoded::Value)));
    assert!(matches!(
        decode_arg(ArgKind::WordSlice, &HostValue::Other, 5),
        Err(DecodeError::ExpectedWordView { position: 5 })
    ));
    assert!(matches!(
        decode_arg(ArgKind::BytePointer, &HostValue::Buffer(vec![1]), 5),
        Ok(Decoded::Pointer { offset: 0 })
    ));
}

#[test]
fn round_trip_preserves_text_and_bytes() {
    let text = encode_text("naïve ✓");
    assert_eq!(text_of(decode_arg(ArgKind::OwnedString, &text, 0).unwrap()), "naïve ✓");
    let bytes = vec![0u8, 255, 7, 7, 1];
    let value = encode_bytes(bytes.clone());
    for mutable in [false, true] {
        match decode_arg(ArgKind::ByteSlice { mutable }, &value, 0).unwrap() {
            Decoded::Bytes(r) => match &value {
                HostValue::Buffer(b) => assert_eq!(&b[r.start..r.start + r.len], &bytes[..]),
                other => panic!("no buffer: {:?}", other),
            },
            other => panic!("no bytes: {:?}", other),
        }
    }
}

#[test]
fn unit_result_leaves_or_throws() {
    let plan = ReturnPlan { ok: OkEncoding::Nothing, raises: true };
    assert_eq!(settle(plan, Outcome::Value(7)), ReturnAction::Leave);
    assert_eq!(settle(plan, Outcome::Failure), ReturnAction::Throw);
}

#[test]
fn numeric_result_sets_the_number_or_throws() {
    let plan = ReturnPlan { ok: OkEncoding::FastNumber, raises: true };
    assert_eq!(settle(plan, Outcome::Value(7)), ReturnAction::SetNumber(7));
    assert_eq!(settle(plan, Outcome::Value(u32::MAX)), ReturnAction::SetNumber(u32::MAX));
    assert_eq!(settle(plan, Outcome::Failure), ReturnAction::Throw);
    let generic = ReturnPlan { ok: OkEncoding::Generic, raises: false };
    assert_eq!(settle(generic, Outcome::Value(1)), ReturnAction::Encode);
}

#[test]
fn fast_error_is_raised_by_the_next_generic_call() {
    let mut ctx = CallContext::new(12);
    assert_eq!(ctx.begin_sync(true), None);
    ctx.stash("boom".to_string());
    assert_eq!(ctx.begin_sync(false), None);
    assert_eq!(ctx.last_fast_op_error, Some("boom".to_string()));
    assert_eq!(ctx.begin_sync(true), Some("boom".to_string()));
    assert_eq!(ctx.last_fast_op_error, None);
    assert_eq!(ctx.begin_sync(true), None);
    assert_eq!(ctx.op_id, 12);
}

#[test]
fn promise_id_must_be_an_integer() {
    assert_eq!(promise_id(&HostValue::Integer(41)), Ok(41));
    assert_eq!(promise_id(&HostValue::Integer(-1)), Ok(-1));
    assert_eq!(promise_id(&HostValue::Text("41".to_string())), Err(DecodeError::InvalidPromiseId));
    assert_eq!(promise_id(&HostValue::Other), Err(DecodeError::InvalidPromiseId));
}

#[test]
fn delivery_reports_the_ids_of_its_call() {
    let ctx = CallContext::new(5);
    assert_eq!(
        start_async(&HostValue::Integer(9), &ctx, true, false, false),
        Ok(AsyncStart::Scheduled { promise_id: 9, op_id: 5, deferred: true })
    );
    assert_eq!(
        start_async(&HostValue::Integer(9), &ctx, false, true, true),
        Ok(AsyncStart::Settled(Completion { promise_id: 9, op_id: 5, failed: true }))
    );
    assert_eq!(
        start_async(&HostValue::Integer(9), &ctx, false, false, true),
        Ok(AsyncStart::Scheduled { promise_id: 9, op_id: 5, deferred: false })
    );
    assert_eq!(
        start_async(&HostValue::Integer(10), &ctx, false, true, false),
        Ok(AsyncStart::Scheduled { promise_id: 10, op_id: 5, deferred: false })
    );
    assert_eq!(
        start_async(&HostValue::Other, &ctx, false, true, true),
        Err(DecodeError::InvalidPromiseId)
    );
    assert_eq!(complete(9, 5, false), Completion { promise_id: 9, op_id: 5, failed: false });
}

#[test]
fn each_call_of_a_sequence_delivers_under_its_own_id() {
    let ctx = CallContext::new(4);
    let issued = [3, 9, 3, -1, 0];
    let failed = [false, true, false, true, false];
    let mut delivered = Vec::new();
    for (pid, failed_early) in issued.iter().zip(failed) {
        match start_async(&HostValue::Integer(*pid), &ctx, false, true, failed_early).unwrap() {
            AsyncStart::Settled(c) => {
                assert!(failed_early && c.failed);
                assert_eq!(c.op_id, 4);
                delivered.push(c.promise_id);
            }
            AsyncStart::Scheduled { promise_id, op_id, deferred } => {
                assert!(!failed_early && !deferred);
                delivered.push(complete(promise_id, op_id, false).promise_id);
            }
        }
    }
    assert_eq!(delivered, issued);
}
