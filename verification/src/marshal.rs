use vstd::prelude::*;
use vstd::string::*;
use crate::fast_call::FastPlan;
use crate::generic_path::{ArgKind, ArgPlan, AsyncPlan, OkEncoding, ReturnPlan, SyncPlan};
use crate::optimizer::FastReturn;
use crate::text::{decimal, to_decimal};

verus! {

/// A value of the runtime, as far as decoding looks at it.
#[derive(Debug)]
pub enum HostValue {
    Text(String),
    Integer(i32),
    /// A plain buffer: its backing bytes, none where it has no store.
    Buffer(Vec<u8>),
    /// A view of `length` bytes at `offset` into a buffer, if it has one.
    View { buffer: Option<Vec<u8>>, offset: usize, length: usize },
    /// A view of 32-bit words: `length` bytes at `offset` into a buffer.
    WordView { buffer: Option<Vec<u8>>, offset: usize, length: usize },
    Other,
}

/// Part of a buffer: `len` elements from byte `start` on.
#[derive(Clone, Copy, Debug, PartialEq, Eq, Structural)]
pub struct Region {
    pub start: usize,
    pub len: usize,
}

/// What decoding one argument gives.
#[derive(Debug)]
pub enum Decoded {
    /// An optional extra that the generic path never has.
    Absent,
    /// Nothing: the parameter is ignored.
    Unit,
    Text(String),
    OptionalText(Option<String>),
    /// Bytes of the argument's buffer.
    Bytes(Region),
    /// 32-bit words of the argument's buffer, from a byte offset on.
    Words(Region),
    /// The address `offset` bytes into the argument's buffer.
    Pointer { offset: usize },
    /// Left to the general value decoder.
    Value,
}

/// Why an argument was not decoded; the position is the argument's index.
#[derive(Clone, Copy, Debug, PartialEq, Eq, Structural)]
pub enum DecodeError {
    ExpectedString { position: usize },
    ExpectedBufferView { position: usize },
    ExpectedWordView { position: usize },
    InvalidPromiseId,
}

/// What is said of an argument that was not decoded.
pub open spec fn spec_message(e: DecodeError) -> Seq<char> {
    match e {
        DecodeError::ExpectedString { position } => "Expected string at position "@ + decimal(
            position as nat,
        ),
        DecodeError::ExpectedBufferView { position } => "Expected ArrayBufferView at position "@
            + decimal(position as nat),
        DecodeError::ExpectedWordView { position } => "Expected Uint32Array at position "@
            + decimal(position as nat),
        DecodeError::InvalidPromiseId => "invalid promise id"@,
    }
}

impl DecodeError {
    /// What is said of an argument that was not decoded.
    pub fn message(&self) -> (r: String)
        ensures
            r@ == spec_message(*self),
    {
        match self {
            DecodeError::ExpectedString { position } => String::from_str(
                "Expected string at position ",
            ).concat(to_decimal(*position).as_str()),
            DecodeError::ExpectedBufferView { position } => String::from_str(
                "Expected ArrayBufferView at position ",
            ).concat(to_decimal(*position).as_str()),
            DecodeError::ExpectedWordView { position } => String::from_str(
                "Expected Uint32Array at position ",
            ).concat(to_decimal(*position).as_str()),
            DecodeError::InvalidPromiseId => String::from_str("invalid promise id"),
        }
    }
}

/// What is said when the general decoder refuses the argument at
/// `position` for `reason`.
pub fn parse_error_message(position: usize, reason: &str) -> (r: String)
    ensures
        r@ == "Error parsing args at position "@ + decimal(position as nat) + ": "@ + reason@,
{
    String::from_str("Error parsing args at position ").concat(
        to_decimal(position).as_str(),
    ).concat(": ").concat(reason)
}

/// What is said when the general encoder refuses the value that the
/// function returned. The function has run by then.
pub fn return_error_message(reason: &str) -> (r: String)
    ensures
        r@ == "Error serializing return: "@ + reason@,
{
    String::from_str("Error serializing return: ").concat(reason)
}

/// The buffer behind a value, where it has one.
pub open spec fn backing(value: HostValue) -> Option<Seq<u8>> {
    match value {
        HostValue::Buffer(b) => Some(b@),
        HostValue::View { buffer: Some(b), .. } => Some(b@),
        HostValue::WordView { buffer: Some(b), .. } => Some(b@),
        _ => None,
    }
}

/// The bytes of `buffer` that a region covers.
pub open spec fn region_bytes(buffer: Seq<u8>, r: Region) -> Seq<u8>
    recommends
        r.start + r.len <= buffer.len(),
{
    buffer.subrange(r.start as int, r.start + r.len)
}

/// A view lies inside its buffer.
pub open spec fn view_fits(buffer: Seq<u8>, offset: usize, length: usize) -> bool {
    offset + length <= buffer.len()
}

/// The bytes that a byte-slice parameter sees: all of a plain buffer, or
/// what a view that lies inside its buffer covers.
pub open spec fn spec_decode_u8_slice(value: HostValue, idx: usize) -> Result<Region, DecodeError> {
    match value {
        HostValue::Buffer(b) => Ok(Region { start: 0, len: b@.len() as usize }),
        HostValue::View { buffer: Some(b), offset, length } => if view_fits(b@, offset, length) {
            Ok(Region { start: offset, len: length })
        } else {
            Err(DecodeError::ExpectedBufferView { position: idx })
        },
        HostValue::WordView { buffer: Some(b), offset, length } => if view_fits(
            b@,
            offset,
            length,
        ) {
            Ok(Region { start: offset, len: length })
        } else {
            Err(DecodeError::ExpectedBufferView { position: idx })
        },
        _ => Err(DecodeError::ExpectedBufferView { position: idx }),
    }
}

/// The offset at which a byte-pointer parameter points into its buffer.
pub open spec fn spec_decode_u8_ptr(value: HostValue, idx: usize) -> Result<usize, DecodeError> {
    match spec_decode_u8_slice(value, idx) {
        Ok(r) => Ok(r.start),
        Err(e) => Err(e),
    }
}

/// The words that a word-slice parameter sees: only a view of words that
/// lies inside its buffer is taken, and it covers a quarter as many words
/// as it has bytes.
pub open spec fn spec_decode_u32_mut_slice(value: HostValue, idx: usize) -> Result<
    Region,
    DecodeError,
> {
    match value {
        HostValue::WordView { buffer: Some(b), offset, length } => if view_fits(
            b@,
            offset,
            length,
        ) {
            Ok(Region { start: offset, len: length / 4 })
        } else {
            Err(DecodeError::ExpectedWordView { position: idx })
        },
        _ => Err(DecodeError::ExpectedWordView { position: idx }),
    }
}

/// What decoding a value as a parameter of the given kind gives.
pub open spec fn spec_decode_arg(kind: ArgKind, value: HostValue, idx: usize) -> Result<
    Decoded,
    DecodeError,
> {
    match kind {
        ArgKind::AbsentOption => Ok(Decoded::Absent),
        ArgKind::Ignored => Ok(Decoded::Unit),
        ArgKind::OwnedString | ArgKind::BorrowedString | ArgKind::CowString => match value {
            HostValue::Text(s) => Ok(Decoded::Text(s)),
            _ => Err(DecodeError::ExpectedString { position: idx }),
        },
        ArgKind::OptionalString => match value {
            HostValue::Text(s) => Ok(Decoded::OptionalText(Some(s))),
            _ => Ok(Decoded::OptionalText(None)),
        },
        ArgKind::ByteSlice { mutable } => match spec_decode_u8_slice(value, idx) {
            Ok(r) => Ok(Decoded::Bytes(r)),
            Err(e) => Err(e),
        },
        ArgKind::WordSlice => match spec_decode_u32_mut_slice(value, idx) {
            Ok(r) => Ok(Decoded::Words(r)),
            Err(e) => Err(e),
        },
        ArgKind::BytePointer => match spec_decode_u8_ptr(value, idx) {
            Ok(offset) => Ok(Decoded::Pointer { offset }),
            Err(e) => Err(e),
        },
        ArgKind::Generic => Ok(Decoded::Value),
    }
}

/// Whether a view of `length` bytes at `offset` lies inside `buffer`.
pub fn fits(buffer: &Vec<u8>, offset: usize, length: usize) -> (r: bool)
    ensures
        r == view_fits(buffer@, offset, length),
{
    length <= buffer.len() && offset <= buffer.len() - length
}

/// Takes the bytes that a byte-slice parameter sees.
pub fn decode_u8_slice(value: &HostValue, idx: usize) -> (r: Result<Region, DecodeError>)
    ensures
        r == spec_decode_u8_slice(*value, idx),
        r matches Ok(region) ==> backing(*value) matches Some(b) && region.start + region.len
            <= b.len(),
{
    match value {
        HostValue::Buffer(b) => Ok(Region { start: 0, len: b.len() }),
        HostValue::View { buffer: Some(b), offset, length } => {
            if fits(b, *offset, *length) {
                Ok(Region { start: *offset, len: *length })
            } else {
                Err(DecodeError::ExpectedBufferView { position: idx })
            }
        },
        HostValue::WordView { buffer: Some(b), offset, length } => {
            if fits(b, *offset, *length) {
                Ok(Region { start: *offset, len: *length })
            } else {
                Err(DecodeError::ExpectedBufferView { position: idx })
            }
        },
        _ => Err(DecodeError::ExpectedBufferView { position: idx }),
    }
}

/// Takes the offset at which a byte-pointer parameter points.
pub fn decode_u8_ptr(value: &HostValue, idx: usize) -> (r: Result<usize, DecodeError>)
    ensures
        r == spec_decode_u8_ptr(*value, idx),
{
    match decode_u8_slice(value, idx) {
        Ok(r) => Ok(r.start),
        Err(e) => Err(e),
    }
}

/// Takes the words that a word-slice parameter sees.
pub fn decode_u32_mut_slice(value: &HostValue, idx: usize) -> (r: Result<Region, DecodeError>)
    ensures
        r == spec_decode_u32_mut_slice(*value, idx),
{
    match value {
        HostValue::WordView { buffer: Some(b), offset, length } => {
            if fits(b, *offset, *length) {
                Ok(Region { start: *offset, len: *length / 4 })
            } else {
                Err(DecodeError::ExpectedWordView { position: idx })
            }
        },
        _ => Err(DecodeError::ExpectedWordView { position: idx }),
    }
}

/// Decodes the argument at index `idx` as a parameter of the given kind.
/// No native code has run when this fails.
pub fn decode_arg(kind: ArgKind, value: &HostValue, idx: usize) -> (r: Result<
    Decoded,
    DecodeError,
>)
    ensures
        r == spec_decode_arg(kind, *value, idx),
{
    match kind {
        ArgKind::AbsentOption => Ok(Decoded::Absent),
        ArgKind::Ignored => Ok(Decoded::Unit),
        ArgKind::OwnedString | ArgKind::BorrowedString | ArgKind::CowString => match value {
            HostValue::Text(s) => Ok(Decoded::Text(s.clone())),
            _ => Err(DecodeError::ExpectedString { position: idx }),
        },
        ArgKind::OptionalString => match value {
            HostValue::Text(s) => Ok(Decoded::OptionalText(Some(s.clone()))),
            _ => Ok(Decoded::OptionalText(None)),
        },
        ArgKind::ByteSlice { mutable } => match decode_u8_slice(value, idx) {
            Ok(r) => Ok(Decoded::Bytes(r)),
            Err(e) => Err(e),
        },
        ArgKind::WordSlice => match decode_u32_mut_slice(value, idx) {
            Ok(r) => Ok(Decoded::Words(r)),
            Err(e) => Err(e),
        },
        ArgKind::BytePointer => match decode_u8_ptr(value, idx) {
            Ok(offset) => Ok(Decoded::Pointer { offset }),
            Err(e) => Err(e),
        },
        ArgKind::Generic => Ok(Decoded::Value),
    }
}

/// The argument at `index`: past the end of the arguments there is only a
/// value that is nothing in particular.
pub open spec fn arg_at(args: Seq<HostValue>, index: int) -> HostValue {
    if 0 <= index < args.len() {
        args[index]
    } else {
        HostValue::Other
    }
}

/// What decoding all arguments gives: every one decoded, in order, or the
/// error of the first that is not.
pub open spec fn spec_decode_args(plans: Seq<ArgPlan>, args: Seq<HostValue>) -> Result<
    Seq<Decoded>,
    DecodeError,
>
    decreases plans.len(),
{
    if plans.len() == 0 {
        Ok(Seq::empty())
    } else {
        match spec_decode_args(plans.drop_last(), args) {
            Err(e) => Err(e),
            Ok(done) => match spec_decode_arg(
                plans.last().kind,
                arg_at(args, plans.last().index as int),
                plans.last().index,
            ) {
                Ok(d) => Ok(done.push(d)),
                Err(e) => Err(e),
            },
        }
    }
}

/// An error among the first arguments is the error of the whole.
pub proof fn lemma_first_error_stays(plans: Seq<ArgPlan>, args: Seq<HostValue>, upto: int)
    requires
        0 <= upto <= plans.len(),
        spec_decode_args(plans.subrange(0, upto), args) is Err,
    ensures
        spec_decode_args(plans, args) == spec_decode_args(plans.subrange(0, upto), args),
    decreases plans.len(),
{
    if upto == plans.len() {
        assert(plans.subrange(0, upto) =~= plans);
    } else {
        assert(plans.drop_last().subrange(0, upto) =~= plans.subrange(0, upto));
        lemma_first_error_stays(plans.drop_last(), args, upto);
    }
}

/// Decodes all arguments of a call, in order. The first that cannot be
/// decoded ends the call before any native code runs.
pub fn decode_args(plans: &Vec<ArgPlan>, args: &Vec<HostValue>) -> (r: Result<
    Vec<Decoded>,
    DecodeError,
>)
    ensures
        match spec_decode_args(plans@, args@) {
            Ok(all) => r matches Ok(v) && v@ == all,
            Err(e) => r == Err::<Vec<Decoded>, DecodeError>(e),
        },
{
    let missing = HostValue::Other;
    let mut out: Vec<Decoded> = Vec::new();
    let mut i: usize = 0;
    while i < plans.len()
        invariant
            i <= plans.len(),
            missing == HostValue::Other,
            spec_decode_args(plans@.subrange(0, i as int), args@) == Ok::<
                Seq<Decoded>,
                DecodeError,
            >(out@),
        decreases plans.len() - i,
    {
        let plan = plans[i];
        let value = if plan.index < args.len() {
            &args[plan.index]
        } else {
            &missing
        };
        proof {
            assert(plans@.subrange(0, i + 1).drop_last() =~= plans@.subrange(0, i as int));
        }
        match decode_arg(plan.kind, value, plan.index) {
            Ok(d) => {
                out.push(d);
            },
            Err(e) => {
                proof {
                    lemma_first_error_stays(plans@, args@, i + 1);
                }
                return Err(e);
            },
        }
        i = i + 1;
    }
    assert(plans@.subrange(0, plans.len() as int) =~= plans@);
    Ok(out)
}

/// Hands a string to the runtime.
pub fn encode_text(text: &str) -> (v: HostValue)
    ensures
        v matches HostValue::Text(s) && s@ == text@,
{
    HostValue::Text(String::from_str(text))
}

/// Hands bytes to the runtime as a plain buffer.
pub fn encode_bytes(bytes: Vec<u8>) -> (v: HostValue)
    ensures
        v == HostValue::Buffer(bytes),
{
    HostValue::Buffer(bytes)
}

/// What the outcome of a sync call does to the return slot.
#[derive(Clone, Copy, Debug, PartialEq, Eq, Structural)]
pub enum ReturnAction {
    /// Nothing is encoded.
    Leave,
    /// The number is set directly.
    SetNumber(u32),
    /// The value goes through the general encoder.
    Encode,
    /// The error is raised as an exception.
    Throw,
}

/// How a sync call ended: with a value, given as the number that a numeric
/// encoding sets, or with an error.
#[derive(Clone, Copy, Debug, PartialEq, Eq, Structural)]
pub enum Outcome {
    Value(u32),
    Failure,
}

/// What a return plan does with an outcome.
pub open spec fn spec_settle(plan: ReturnPlan, outcome: Outcome) -> ReturnAction {
    match outcome {
        Outcome::Failure => ReturnAction::Throw,
        Outcome::Value(n) => match plan.ok {
            OkEncoding::Nothing => ReturnAction::Leave,
            OkEncoding::FastNumber => ReturnAction::SetNumber(n),
            OkEncoding::Generic => ReturnAction::Encode,
        },
    }
}

/// Decides what the outcome of a sync call does to the return slot.
pub fn settle(plan: ReturnPlan, outcome: Outcome) -> (r: ReturnAction)
    ensures
        r == spec_settle(plan, outcome),
{
    match outcome {
        Outcome::Failure => ReturnAction::Throw,
        Outcome::Value(n) => match plan.ok {
            OkEncoding::Nothing => ReturnAction::Leave,
            OkEncoding::FastNumber => ReturnAction::SetNumber(n),
            OkEncoding::Generic => ReturnAction::Encode,
        },
    }
}

/// The one place in a call context where a fast call leaves its error.
#[derive(Debug)]
pub struct CallContext {
    pub op_id: usize,
    pub last_fast_op_error: Option<String>,
}

/// What a fast call does with its outcome.
#[derive(Clone, Copy, Debug, PartialEq, Eq, Structural)]
pub enum FastAction {
    /// The value is handed back directly.
    Return(FastReturn),
    /// The call failed: its error was left in the context, and the
    /// runtime goes on to the generic entry point, which raises it.
    Fallback,
}

/// The error slot after a fast call: a failure is left in it, which was
/// empty before.
pub open spec fn slot_after_fast(slot: Option<String>, failure: Option<String>) -> Option<String> {
    match failure {
        Some(e) => Some(e),
        None => slot,
    }
}

/// What the start of a generic sync call raises, and the error slot after
/// it: where the function has a fallible fast entry point, what is in the
/// slot is taken out and raised.
pub open spec fn spec_begin_sync(slot: Option<String>, rethrows_fast_error: bool) -> (
    Option<String>,
    Option<String>,
) {
    if rethrows_fast_error {
        (slot, None)
    } else {
        (None, slot)
    }
}

impl CallContext {
    /// The context of a function's calls, with no error left in it.
    pub fn new(op_id: usize) -> (ctx: CallContext)
        ensures
            ctx.op_id == op_id,
            ctx.last_fast_op_error is None,
    {
        CallContext { op_id, last_fast_op_error: None }
    }

    /// A failed fast call leaves its error behind. The place is written
    /// once between two generic calls: it must be empty.
    pub fn stash(&mut self, error: String)
        requires
            old(self).last_fast_op_error is None,
        ensures
            final(self).op_id == old(self).op_id,
            final(self).last_fast_op_error == Some(error),
    {
        self.last_fast_op_error = Some(error);
    }

    /// The end of a fast call. A value is handed back as the plan says and
    /// the context stays as it is; a failure is left in the context, for
    /// the generic entry point to raise. Only a function whose fast entry
    /// point leaves errors behind can fail, and only into an empty place:
    /// the generic call that follows a failure empties it.
    pub fn fast_finish(&mut self, plan: &FastPlan, failure: Option<String>) -> (r: FastAction)
        requires
            failure is Some ==> plan.stashes_error && old(self).last_fast_op_error is None,
        ensures
            final(self).op_id == old(self).op_id,
            final(self).last_fast_op_error == slot_after_fast(
                old(self).last_fast_op_error,
                failure,
            ),
            r == if failure is Some {
                FastAction::Fallback
            } else {
                FastAction::Return(plan.ret)
            },
    {
        match failure {
            Some(e) => {
                self.stash(e);
                FastAction::Fallback
            },
            None => FastAction::Return(plan.ret),
        }
    }

    /// The start of a generic sync call. Where the function has a fallible
    /// fast entry point, an error left behind is taken out and handed
    /// back: the call raises it and does nothing else. Otherwise the
    /// context stays as it is.
    pub fn begin_sync(&mut self, rethrows_fast_error: bool) -> (r: Option<String>)
        ensures
            final(self).op_id == old(self).op_id,
            (r, final(self).last_fast_op_error) == spec_begin_sync(
                old(self).last_fast_op_error,
                rethrows_fast_error,
            ),
    {
        if rethrows_fast_error {
            self.last_fast_op_error.take()
        } else {
            None
        }
    }
}

/// An event for the runtime's call counters.
#[derive(Clone, Copy, Debug, PartialEq, Eq, Structural)]
pub enum Telemetry {
    SyncCall { op_id: usize },
    AsyncCall { op_id: usize },
}

/// What a generic sync call does before the function runs.
#[derive(Debug)]
pub enum SyncStep {
    /// An error that a fast call left behind is raised; nothing else is
    /// done.
    Raise(String),
    /// An argument was not decoded; the function is not called.
    Refuse(DecodeError),
    /// The function is called once with these arguments.
    Invoke(Vec<Decoded>),
}

/// What a generic async call does before the function runs.
#[derive(Debug)]
pub enum AsyncStep {
    /// The promise id or an argument was not decoded; the function is not
    /// called.
    Refuse(DecodeError),
    /// The call is counted, then the function is called with these
    /// arguments.
    Invoke { promise_id: i32, args: Vec<Decoded>, telemetry: Telemetry },
}

/// The start of a generic sync call: an error left behind by a fast call
/// comes first, then the arguments are decoded.
pub fn sync_call(ctx: &mut CallContext, plan: &SyncPlan, args: &Vec<HostValue>) -> (r: SyncStep)
    ensures
        final(ctx).op_id == old(ctx).op_id,
        (plan.rethrows_fast_error && old(ctx).last_fast_op_error is Some) ==> (r matches SyncStep::Raise(
            e,
        ) && Some(e) == old(ctx).last_fast_op_error && final(ctx).last_fast_op_error is None),
        !(plan.rethrows_fast_error && old(ctx).last_fast_op_error is Some) ==> {
            &&& final(ctx).last_fast_op_error == old(ctx).last_fast_op_error
            &&& match spec_decode_args(plan.args@, args@) {
                Ok(all) => r matches SyncStep::Invoke(v) && v@ == all,
                Err(e) => r matches SyncStep::Refuse(x) && x == e,
            }
        },
{
    match ctx.begin_sync(plan.rethrows_fast_error) {
        Some(e) => SyncStep::Raise(e),
        None => match decode_args(&plan.args, args) {
            Ok(v) => SyncStep::Invoke(v),
            Err(e) => SyncStep::Refuse(e),
        },
    }
}

/// The end of a generic sync call: the call is counted and its outcome
/// goes to the return slot.
pub fn finish_sync(ctx: &CallContext, plan: &SyncPlan, outcome: Outcome) -> (r: (
    Telemetry,
    ReturnAction,
))
    ensures
        r.0 == (Telemetry::SyncCall { op_id: ctx.op_id }),
        r.1 == spec_settle(plan.ret, outcome),
{
    (Telemetry::SyncCall { op_id: ctx.op_id }, settle(plan.ret, outcome))
}

/// The start of a generic async call: the promise id at index 0 is read
/// first, then the arguments are decoded, then the call is counted.
pub fn async_call(ctx: &CallContext, plan: &AsyncPlan, args: &Vec<HostValue>) -> (r: AsyncStep)
    ensures
        match spec_promise_id(arg_at(args@, 0)) {
            Err(e) => r matches AsyncStep::Refuse(x) && x == e,
            Ok(pid) => match spec_decode_args(plan.args@, args@) {
                Err(e) => r matches AsyncStep::Refuse(x) && x == e,
                Ok(all) => r matches AsyncStep::Invoke { promise_id, args: v, telemetry }
                    && promise_id == pid && v@ == all && telemetry == (Telemetry::AsyncCall {
                    op_id: ctx.op_id,
                }),
            },
        },
{
    let missing = HostValue::Other;
    let first = if args.len() > 0 {
        &args[0]
    } else {
        &missing
    };
    match promise_id(first) {
        Err(e) => AsyncStep::Refuse(e),
        Ok(pid) => match decode_args(&plan.args, args) {
            Err(e) => AsyncStep::Refuse(e),
            Ok(v) => AsyncStep::Invoke {
                promise_id: pid,
                args: v,
                telemetry: Telemetry::AsyncCall { op_id: ctx.op_id },
            },
        },
    }
}

/// What is delivered when an async call settles.
#[derive(Clone, Copy, Debug, PartialEq, Eq, Structural)]
pub struct Completion {
    pub promise_id: i32,
    pub op_id: usize,
    /// The call failed.
    pub failed: bool,
}

/// The first step of an async call.
#[derive(Clone, Copy, Debug, PartialEq, Eq, Structural)]
pub enum AsyncStart {
    /// The function failed before it handed out its work: the failure is
    /// delivered at once.
    Settled(Completion),
    /// The work is scheduled under these ids.
    Scheduled { promise_id: i32, op_id: usize, deferred: bool },
}

/// The promise id that an async call was given at index 0.
pub open spec fn spec_promise_id(value: HostValue) -> Result<i32, DecodeError> {
    match value {
        HostValue::Integer(n) => Ok(n),
        _ => Err(DecodeError::InvalidPromiseId),
    }
}

/// Reads the promise id of an async call: only an integer is one.
pub fn promise_id(value: &HostValue) -> (r: Result<i32, DecodeError>)
    ensures
        r == spec_promise_id(*value),
{
    match value {
        HostValue::Integer(n) => Ok(*n),
        _ => Err(DecodeError::InvalidPromiseId),
    }
}

/// What an async call does once its arguments are decoded and the function
/// was called, where it is called ahead of scheduling.
pub open spec fn spec_start_async(
    promise: HostValue,
    op_id: usize,
    deferred: bool,
    early_failure: bool,
    failed_early: bool,
) -> Result<AsyncStart, DecodeError> {
    match spec_promise_id(promise) {
        Err(e) => Err(e),
        Ok(pid) => if early_failure && failed_early {
            Ok(AsyncStart::Settled(Completion { promise_id: pid, op_id, failed: true }))
        } else {
            Ok(AsyncStart::Scheduled { promise_id: pid, op_id, deferred })
        },
    }
}

/// Starts an async call. An argument that is no promise id ends it before
/// anything runs. A function that can fail ahead of its deferred work, and
/// did, is settled at once; anything else is scheduled.
pub fn start_async(
    promise: &HostValue,
    ctx: &CallContext,
    deferred: bool,
    early_failure: bool,
    failed_early: bool,
) -> (r: Result<AsyncStart, DecodeError>)
    ensures
        r == spec_start_async(*promise, ctx.op_id, deferred, early_failure, failed_early),
{
    match promise_id(promise) {
        Err(e) => Err(e),
        Ok(pid) => if early_failure && failed_early {
            Ok(AsyncStart::Settled(Completion { promise_id: pid, op_id: ctx.op_id, failed: true }))
        } else {
            Ok(AsyncStart::Scheduled { promise_id: pid, op_id: ctx.op_id, deferred })
        },
    }
}

/// The delivery for scheduled work that has settled.
pub fn complete(promise_id: i32, op_id: usize, failed: bool) -> (c: Completion)
    ensures
        c == (Completion { promise_id, op_id, failed }),
{
    Completion { promise_id, op_id, failed }
}

} // verus!
