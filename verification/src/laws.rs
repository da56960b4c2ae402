use vstd::prelude::*;
use crate::attrs::Attributes;
use crate::binding::{describes, spec_gen_error, BindingDescriptor};
use crate::classify::{
    lemma_occurs_in_tail, spec_is_result, spec_is_u32_rv_result, spec_is_unit_result,
};
use crate::generic_path::{
    leading_specials, lemma_special_run_len, spec_classify, spec_sync_ret, ArgKind, OkEncoding,
    ReturnPlan, SpecialArg,
};
use crate::text::{has_infix, has_prefix, occurs_at, skip_repeats};
use crate::marshal::{
    region_bytes, slot_after_fast, spec_begin_sync, spec_decode_arg, spec_decode_u8_slice,
    spec_settle, spec_start_async, AsyncStart, Decoded, DecodeError, HostValue, Outcome, Region,
    ReturnAction,
};
use crate::optimizer::{any_qualified, spec_bailout, spec_fast_compatible, BailoutReason};
use crate::signature::SignatureView;

verus! {

/// A byte-slice parameter sees all of a plain buffer: the view starts at
/// its first byte, is as long as the buffer, and holds its bytes.
pub proof fn lemma_plain_buffer_seen_whole(bytes: Vec<u8>, idx: usize)
    ensures
        spec_decode_u8_slice(HostValue::Buffer(bytes), idx) == Ok::<Region, DecodeError>(
            Region { start: 0, len: bytes.len() },
        ),
        region_bytes(bytes@, Region { start: 0, len: bytes.len() }) == bytes@,
{
    assert(bytes@.subrange(0, bytes@.len() as int) =~= bytes@);
}

/// A byte-slice parameter sees of a view inside its buffer the bytes from
/// the view's offset on, as many as the view is long, and no others.
pub proof fn lemma_offset_view_exact(buffer: Vec<u8>, offset: usize, length: usize, idx: usize)
    requires
        offset + length <= buffer@.len(),
    ensures
        spec_decode_u8_slice(HostValue::View { buffer: Some(buffer), offset, length }, idx) == Ok::<
            Region,
            DecodeError,
        >(Region { start: offset, len: length }),
        region_bytes(buffer@, Region { start: offset, len: length }).len() == length,
        forall|k: int|
            0 <= k < length ==> region_bytes(buffer@, Region { start: offset, len: length })[k]
                == buffer@[offset + k],
{
}

/// A view that reaches past the end of its buffer is not decoded.
pub proof fn lemma_view_outside_buffer_refused(
    buffer: Vec<u8>,
    offset: usize,
    length: usize,
    idx: usize,
)
    requires
        offset + length > buffer@.len(),
    ensures
        spec_decode_u8_slice(HostValue::View { buffer: Some(buffer), offset, length }, idx) == Err::<
            Region,
            DecodeError,
        >(DecodeError::ExpectedBufferView { position: idx }),
{
}

/// The ids under which an async call was started.
pub open spec fn started_ids(start: AsyncStart) -> (i32, usize) {
    match start {
        AsyncStart::Settled(c) => (c.promise_id, c.op_id),
        AsyncStart::Scheduled { promise_id, op_id, .. } => (promise_id, op_id),
    }
}

/// An async call that was given a promise id is started, and whatever it
/// delivers carries that promise id and the id of its function.
pub proof fn lemma_completion_reports_ids(
    promise_id: i32,
    op_id: usize,
    deferred: bool,
    early_failure: bool,
    failed_early: bool,
)
    ensures
        spec_start_async(
            HostValue::Integer(promise_id),
            op_id,
            deferred,
            early_failure,
            failed_early,
        ) matches Ok(start) && started_ids(start) == (promise_id, op_id),
{
}

/// Two async calls deliver under one promise id only where they were given
/// the same one.
pub proof fn lemma_deliveries_share_no_id(
    first: HostValue,
    second: HostValue,
    op_id: usize,
    deferred: bool,
    early_failure: bool,
    failed_early: bool,
)
    requires
        spec_start_async(first, op_id, deferred, early_failure, failed_early) is Ok,
        spec_start_async(second, op_id, deferred, early_failure, failed_early) is Ok,
        first != second,
    ensures
        started_ids(
            spec_start_async(first, op_id, deferred, early_failure, failed_early).unwrap(),
        ).0 != started_ids(
            spec_start_async(second, op_id, deferred, early_failure, failed_early).unwrap(),
        ).0,
{
}

/// What a sequence of async calls starts, one entry for each call.
pub open spec fn started_all(
    promises: Seq<HostValue>,
    op_id: usize,
    deferred: bool,
    early_failure: bool,
    failed_early: Seq<bool>,
) -> Seq<Result<AsyncStart, DecodeError>> {
    Seq::new(
        promises.len(),
        |i: int| spec_start_async(promises[i], op_id, deferred, early_failure, failed_early[i]),
    )
}

/// The promise ids under which a sequence of started calls delivers.
pub open spec fn delivered_ids(starts: Seq<Result<AsyncStart, DecodeError>>) -> Seq<i32> {
    Seq::new(starts.len(), |i: int| started_ids(starts[i].unwrap()).0)
}

/// A sequence of async calls, each given a promise id, starts one delivery
/// for each call, under the promise id and the function id of that call.
/// The promise ids delivered are the promise ids given, each as often as
/// it was given.
pub proof fn lemma_one_delivery_per_call(
    pids: Seq<i32>,
    op_id: usize,
    deferred: bool,
    early_failure: bool,
    failed_early: Seq<bool>,
)
    requires
        failed_early.len() == pids.len(),
    ensures
        ({
            let starts = started_all(
                pids.map_values(|p: i32| HostValue::Integer(p)),
                op_id,
                deferred,
                early_failure,
                failed_early,
            );
            &&& starts.len() == pids.len()
            &&& forall|i: int|
                0 <= i < pids.len() ==> (#[trigger] starts[i]) is Ok && started_ids(
                    starts[i].unwrap(),
                ) == (pids[i], op_id)
            &&& delivered_ids(starts) == pids
            &&& delivered_ids(starts).to_multiset() == pids.to_multiset()
        }),
{
    let starts = started_all(
        pids.map_values(|p: i32| HostValue::Integer(p)),
        op_id,
        deferred,
        early_failure,
        failed_early,
    );
    assert(delivered_ids(starts) =~= pids);
}

/// A function with a parameter whose type is a qualified path makes the
/// analysis give up for that reason, whatever else holds of it, and a
/// binding of it has no fast entry point. It is still bound, with its
/// generic entry point, unless a fast entry point is required or it is
/// an async function that asks for exclusive access to the state.
pub proof fn lemma_qualified_path_bails(
    d: BindingDescriptor,
    f: SignatureView,
    attrs: Attributes,
    is_async: bool,
)
    requires
        any_qualified(f.inputs),
    ensures
        spec_bailout(f, attrs, is_async) == Some(BailoutReason::MustBeSingleSegment),
        !spec_fast_compatible(f, attrs, is_async),
        describes(d, f, attrs, is_async) ==> d.fast is None,
        spec_gen_error(f, attrs, is_async) is None <==> !attrs.must_be_fast && !(is_async
            && leading_specials(f.inputs, attrs.is_v8, true).contains(
            SpecialArg::RejectedExclusiveState,
        )),
{
}

/// A function none of whose parameter types is a qualified path, and one of
/// whose visible parameters is an optional string, makes the analysis give
/// up because of that parameter's kind.
pub proof fn lemma_optional_string_bails(
    f: SignatureView,
    attrs: Attributes,
    is_async: bool,
    i: int,
)
    requires
        !any_qualified(f.inputs),
        leading_specials(f.inputs, attrs.is_v8, is_async).len() <= i < f.inputs.len(),
        spec_classify(f.inputs[i]) == ArgKind::OptionalString,
    ensures
        spec_bailout(f, attrs, is_async) == Some(BailoutReason::FastUnsupportedParamType),
        !spec_fast_compatible(f, attrs, is_async),
{
}

/// A fallible function without a value encodes nothing when it succeeds
/// and raises when it fails.
pub proof fn lemma_unit_result_paths(output: Seq<char>, n: u32)
    requires
        spec_is_unit_result(output),
    ensures
        spec_sync_ret(output) == (ReturnPlan { ok: OkEncoding::Nothing, raises: true }),
        spec_settle(spec_sync_ret(output), Outcome::Value(n)) == ReturnAction::Leave,
        spec_settle(spec_sync_ret(output), Outcome::Failure) == ReturnAction::Throw,
{
}

/// A fallible function whose value is a small number sets that number
/// directly when it succeeds and raises when it fails.
pub proof fn lemma_numeric_result_paths(output: Seq<char>, n: u32)
    requires
        spec_is_u32_rv_result(output),
        !spec_is_unit_result(output),
    ensures
        spec_sync_ret(output) == (ReturnPlan { ok: OkEncoding::FastNumber, raises: true }),
        spec_settle(spec_sync_ret(output), Outcome::Value(n)) == ReturnAction::SetNumber(n),
        spec_settle(spec_sync_ret(output), Outcome::Failure) == ReturnAction::Throw,
{
}

/// An output that begins with an arrow and `head`, where `head` begins
/// with `Result <`, is a fallible wrapper that holds `head`.
pub proof fn lemma_arrow_result(output: Seq<char>, head: Seq<char>)
    requires
        has_prefix(output, "-> "@ + head),
        has_prefix(head, "Result <"@),
    ensures
        spec_is_result(output),
        has_infix(output, head),
{
    reveal_strlit("-> ");
    reveal_strlit("Result <");
    let arrow = "-> "@;
    assert(output.subrange(0, 3 + head.len() as int) == arrow + head);
    assert(head.subrange(0, 8) == "Result <"@);
    assert forall|k: int| 0 <= k < 3 + head.len() implies output[k] == (arrow + head)[k] by {
        assert(output.subrange(0, 3 + head.len() as int)[k] == output[k]);
    }
    assert forall|k: int| 0 <= k < 8 implies head[k] == "Result <"@[k] by {
        assert(head.subrange(0, 8)[k] == head[k]);
    }
    assert(output.subrange(0, 3) =~= arrow);
    assert(occurs_at(output, arrow, 0));
    assert(output[3] == 'R');
    assert(output.subrange(3, 6)[0] == 'R');
    assert(!occurs_at(output, arrow, 3));
    reveal_with_fuel(skip_repeats, 3);
    assert(skip_repeats(output, arrow, 0) == 3);
    assert(output.subrange(3, 3 + head.len() as int) =~= head);
    assert(occurs_at(output, head, 3));
    assert(output.subrange(3, 11) =~= "Result <"@);
    assert(occurs_at(output, "Result <"@, 3));
    lemma_occurs_in_tail(output, "Result <"@, 3);
}

/// The output `-> Result < () , E >`, whatever the error type `E`, is
/// that of a fallible function without a value: nothing is encoded when
/// it succeeds, and its error is raised.
pub proof fn lemma_result_of_unit(error: Seq<char>, n: u32)
    ensures
        ({
            let output = "-> Result < () , "@ + error + " >"@;
            &&& spec_sync_ret(output) == (ReturnPlan { ok: OkEncoding::Nothing, raises: true })
            &&& spec_settle(spec_sync_ret(output), Outcome::Value(n)) == ReturnAction::Leave
            &&& spec_settle(spec_sync_ret(output), Outcome::Failure) == ReturnAction::Throw
        }),
{
    let output = "-> Result < () , "@ + error + " >"@;
    let head = "Result < ()"@;
    reveal_strlit("-> Result < () , ");
    reveal_strlit("Result < ()");
    reveal_strlit("Result <");
    reveal_strlit("-> ");
    assert(output.subrange(0, 14) =~= "-> "@ + head);
    assert(head.subrange(0, 8) =~= "Result <"@);
    lemma_arrow_result(output, head);
    lemma_unit_result_paths(output, n);
}

/// The output `-> Result < u32 , E >`, where no `Result < ()` stands in
/// it, is that of a fallible function with a small number: the number is
/// set directly when it succeeds, and its error is raised.
pub proof fn lemma_result_of_u32(error: Seq<char>, n: u32)
    requires
        !has_infix("-> Result < u32 , "@ + error + " >"@, "Result < ()"@),
    ensures
        ({
            let output = "-> Result < u32 , "@ + error + " >"@;
            &&& spec_sync_ret(output) == (ReturnPlan {
                ok: OkEncoding::FastNumber,
                raises: true,
            })
            &&& spec_settle(spec_sync_ret(output), Outcome::Value(n)) == ReturnAction::SetNumber(n)
            &&& spec_settle(spec_sync_ret(output), Outcome::Failure) == ReturnAction::Throw
        }),
{
    let output = "-> Result < u32 , "@ + error + " >"@;
    let head = "Result < u32"@;
    reveal_strlit("-> Result < u32 , ");
    reveal_strlit("Result < u32");
    reveal_strlit("Result <");
    reveal_strlit("-> ");
    assert(output.subrange(0, 15) =~= "-> "@ + head);
    assert(head.subrange(0, 8) =~= "Result <"@);
    lemma_arrow_result(output, head);
    lemma_numeric_result_paths(output, n);
}

/// The error of a failed fast call is raised by the next generic call of
/// a function with a fallible fast entry point, and is then gone from the
/// context.
pub proof fn lemma_fast_error_surfaces_once(error: String)
    ensures
        spec_begin_sync(slot_after_fast(None, Some(error)), true) == (Some(error), None::<String>),
        spec_begin_sync(spec_begin_sync(slot_after_fast(None, Some(error)), true).1, true).0
            is None,
{
}

/// The arity of a binding and the number of leading special parameters
/// add up to the number of parameters, with or without a fast entry point.
pub proof fn lemma_arity_counts_visible_parameters(
    d: BindingDescriptor,
    f: SignatureView,
    attrs: Attributes,
    is_async: bool,
)
    requires
        describes(d, f, attrs, is_async),
    ensures
        d.argc + leading_specials(f.inputs, attrs.is_v8, is_async).len() == f.inputs.len(),
        d.argc <= f.inputs.len(),
{
    lemma_special_run_len(f.inputs, attrs.is_v8, is_async, 0);
}

/// A string handed to the runtime comes back unchanged through each of the
/// string kinds.
pub proof fn lemma_text_round_trip(text: String, idx: usize)
    ensures
        spec_decode_arg(ArgKind::OwnedString, HostValue::Text(text), idx) == Ok::<
            Decoded,
            DecodeError,
        >(Decoded::Text(text)),
        spec_decode_arg(ArgKind::BorrowedString, HostValue::Text(text), idx) == Ok::<
            Decoded,
            DecodeError,
        >(Decoded::Text(text)),
        spec_decode_arg(ArgKind::CowString, HostValue::Text(text), idx) == Ok::<
            Decoded,
            DecodeError,
        >(Decoded::Text(text)),
        spec_decode_arg(ArgKind::OptionalString, HostValue::Text(text), idx) == Ok::<
            Decoded,
            DecodeError,
        >(Decoded::OptionalText(Some(text))),
{
}

/// Bytes handed to the runtime as a plain buffer come back unchanged
/// through a byte-slice parameter, mutable or not.
pub proof fn lemma_bytes_round_trip(bytes: Vec<u8>, mutable: bool, idx: usize)
    ensures
        spec_decode_arg(ArgKind::ByteSlice { mutable }, HostValue::Buffer(bytes), idx) matches Ok(
            Decoded::Bytes(r),
        ) && region_bytes(bytes@, r) == bytes@,
{
    lemma_plain_buffer_seen_whole(bytes, idx);
}

} // verus!
