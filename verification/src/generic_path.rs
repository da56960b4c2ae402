use vstd::prelude::*;
use vstd::string::*;
use crate::attrs::Attributes;
use crate::classify::{
    is_cow_str, is_handle_scope, is_mut_ref_opstate, is_option_string,
    is_optional_fast_callback_option, is_optional_wasm_memory, is_ptr_u8, is_rc_refcell_opstate,
    is_ref_slice, is_resource_id, is_result, is_string, is_u32_rv, is_u32_rv_result,
    is_unit_result, is_void, spec_is_cow_str, spec_is_handle_scope, spec_is_mut_ref_opstate,
    spec_is_option_string, spec_is_optional_fast_callback_option, spec_is_optional_wasm_memory,
    spec_is_ptr_u8, spec_is_rc_refcell_opstate, spec_is_ref_slice, spec_is_resource_id,
    spec_is_result, spec_is_string, spec_is_u32_rv, spec_is_u32_rv_result, spec_is_unit_result,
    spec_is_void, SliceType,
};
use crate::signature::{param_tokens, texts, Param, ParamView, Signature};
use crate::text::{
    chars_of, contains, decimal, has_infix, same_text, skip_leading, to_decimal, without_leading,
};

verus! {

/// How one argument is taken from the runtime's argument vector.
#[derive(Clone, Copy, Debug, PartialEq, Eq, Structural)]
pub enum ArgKind {
    /// An optional extra of the fast entry point: absent here.
    AbsentOption,
    /// A wildcard pattern: nothing is decoded.
    Ignored,
    OwnedString,
    BorrowedString,
    CowString,
    OptionalString,
    ByteSlice { mutable: bool },
    WordSlice,
    BytePointer,
    /// Anything else: the general value decoder.
    Generic,
}

/// A leading parameter that the glue binds from the call context.
#[derive(Clone, Copy, Debug, PartialEq, Eq, Structural)]
pub enum SpecialArg {
    Scope,
    SharedState,
    ExclusiveState,
    /// Exclusive state asked for by an async function, which cannot have it.
    RejectedExclusiveState,
}

/// The decoding of one argument: its index in the runtime's argument vector
/// and its kind.
#[derive(Clone, Copy, Debug, PartialEq, Eq, Structural)]
pub struct ArgPlan {
    pub index: usize,
    pub kind: ArgKind,
}

/// How a value that the function produced is handed back.
#[derive(Clone, Copy, Debug, PartialEq, Eq, Structural)]
pub enum OkEncoding {
    Nothing,
    FastNumber,
    Generic,
}

/// The encoding of a sync function's return value.
#[derive(Clone, Copy, Debug, PartialEq, Eq, Structural)]
pub struct ReturnPlan {
    pub ok: OkEncoding,
    /// The function is fallible: its error is raised as an exception.
    pub raises: bool,
}

/// The generic entry point of a sync function.
#[derive(Debug)]
pub struct SyncPlan {
    pub specials: Vec<SpecialArg>,
    pub args: Vec<ArgPlan>,
    /// The names that the decoded arguments are bound to, in order.
    pub names: Vec<String>,
    pub ret: ReturnPlan,
    /// An error that the fast entry point left behind is raised first.
    pub rethrows_fast_error: bool,
}

/// The generic entry point of an async function.
#[derive(Debug)]
pub struct AsyncPlan {
    pub specials: Vec<SpecialArg>,
    pub args: Vec<ArgPlan>,
    /// The names that the decoded arguments are bound to, in order.
    pub names: Vec<String>,
    /// Completions are delivered on a later turn.
    pub deferred: bool,
    /// The function is called inside the scheduled work, not before it.
    pub call_inside: bool,
    /// The function may fail before it hands out its deferred work.
    pub early_failure: bool,
    /// The function is infallible: its value is wrapped as a success.
    pub wraps_ok: bool,
}

/// The kind of a parameter, by the shape of its pattern and type, most
/// specific first.
pub open spec fn spec_classify(p: ParamView) -> ArgKind {
    if spec_is_optional_fast_callback_option(p.ty) || spec_is_optional_wasm_memory(p.ty) {
        ArgKind::AbsentOption
    } else if p.pattern == "_"@ {
        ArgKind::Ignored
    } else if spec_is_string(p.ty) == Some(false) {
        ArgKind::OwnedString
    } else if spec_is_string(p.ty) == Some(true) {
        ArgKind::BorrowedString
    } else if spec_is_cow_str(p.ty) {
        ArgKind::CowString
    } else if spec_is_option_string(p.ty) {
        ArgKind::OptionalString
    } else {
        match spec_is_ref_slice(p.ty) {
            Some(SliceType::U32Mut) => ArgKind::WordSlice,
            Some(SliceType::U8Mut) => ArgKind::ByteSlice { mutable: true },
            Some(SliceType::U8) => ArgKind::ByteSlice { mutable: false },
            None => if spec_is_ptr_u8(p.ty) {
                ArgKind::BytePointer
            } else {
                ArgKind::Generic
            },
        }
    }
}

/// The scope, where the parameter takes it.
pub open spec fn spec_scope_arg(arg: Seq<char>) -> Option<SpecialArg> {
    if spec_is_handle_scope(arg) {
        Some(SpecialArg::Scope)
    } else {
        None
    }
}

/// The state handle that a parameter of a sync function takes, if any.
pub open spec fn spec_opstate_arg(arg: Seq<char>) -> Option<SpecialArg> {
    if spec_is_rc_refcell_opstate(arg) {
        Some(SpecialArg::SharedState)
    } else if spec_is_mut_ref_opstate(arg) {
        Some(SpecialArg::ExclusiveState)
    } else {
        None
    }
}

/// The state handle that a parameter of an async function takes, if any:
/// exclusive access is marked as rejected.
pub open spec fn spec_rc_refcell_opstate_arg(arg: Seq<char>) -> Option<SpecialArg> {
    if spec_is_rc_refcell_opstate(arg) {
        Some(SpecialArg::SharedState)
    } else if spec_is_mut_ref_opstate(arg) {
        Some(SpecialArg::RejectedExclusiveState)
    } else {
        None
    }
}

/// What a parameter is bound to where it is special: the scope only where
/// the function has access to it, else one of the state handles.
pub open spec fn spec_special(arg: Seq<char>, is_v8: bool, in_async: bool) -> Option<SpecialArg> {
    if is_v8 && spec_scope_arg(arg) is Some {
        spec_scope_arg(arg)
    } else if in_async {
        spec_rc_refcell_opstate_arg(arg)
    } else {
        spec_opstate_arg(arg)
    }
}

/// The special arguments that stand in one unbroken run from `from` on.
pub open spec fn special_run(inputs: Seq<ParamView>, is_v8: bool, in_async: bool, from: int) -> Seq<
    SpecialArg,
>
    decreases inputs.len() - from,
{
    if 0 <= from < inputs.len() {
        match spec_special(param_tokens(inputs[from]), is_v8, in_async) {
            Some(s) => seq![s] + special_run(inputs, is_v8, in_async, from + 1),
            None => Seq::empty(),
        }
    } else {
        Seq::empty()
    }
}

/// The leading special arguments of a signature.
pub open spec fn leading_specials(inputs: Seq<ParamView>, is_v8: bool, in_async: bool) -> Seq<
    SpecialArg,
> {
    special_run(inputs, is_v8, in_async, 0)
}

/// The run of special arguments is no longer than what is left of the
/// parameters.
pub proof fn lemma_special_run_len(inputs: Seq<ParamView>, is_v8: bool, in_async: bool, from: int)
    requires
        0 <= from <= inputs.len(),
    ensures
        special_run(inputs, is_v8, in_async, from).len() <= inputs.len() - from,
    decreases inputs.len() - from,
{
    if from < inputs.len() {
        lemma_special_run_len(inputs, is_v8, in_async, from + 1);
    }
}

/// The decodings of the parameters from `rust_i0` on, the first of them at
/// index `v8_i0` of the runtime's argument vector.
pub open spec fn spec_arg_plans(inputs: Seq<ParamView>, rust_i0: int, v8_i0: int) -> Seq<ArgPlan> {
    Seq::new(
        if rust_i0 <= inputs.len() {
            (inputs.len() - rust_i0) as nat
        } else {
            0
        },
        |i: int| ArgPlan { index: (v8_i0 + i) as usize, kind: spec_classify(inputs[rust_i0 + i]) },
    )
}

/// The name that the decoded argument at `position` is bound to.
pub open spec fn spec_arg_name(position: nat) -> Seq<char> {
    "arg_"@ + decimal(position)
}

/// The names of the first `n` decoded arguments.
pub open spec fn spec_arg_names(n: nat) -> Seq<Seq<char>> {
    Seq::new(n, |i: int| spec_arg_name(i as nat))
}

/// The type that an output stands for: what follows the arrow.
pub open spec fn return_type(output: Seq<char>) -> Seq<char> {
    without_leading(output, "-> "@)
}

/// The return type is a small unsigned integer or a resource handle.
pub open spec fn spec_is_numeric_return(output: Seq<char>) -> bool {
    spec_is_u32_rv(return_type(output)) || spec_is_resource_id(": "@ + return_type(output))
}

/// The return type is a fallible wrapper round a small unsigned integer or
/// a resource handle.
pub open spec fn spec_is_numeric_result(output: Seq<char>) -> bool {
    spec_is_u32_rv_result(output) || (spec_is_result(output) && (has_infix(
        output,
        "Result < ResourceId"@,
    ) || has_infix(output, "Result < deno_core :: ResourceId"@)))
}

/// How the value of a successful call is encoded. A fallible wrapper is
/// told first, by what it wraps; of the other types, only a small unsigned
/// integer or a resource handle is set directly.
pub open spec fn spec_ok_encoding(output: Seq<char>) -> OkEncoding {
    if spec_is_result(output) {
        if spec_is_unit_result(output) {
            OkEncoding::Nothing
        } else if spec_is_numeric_result(output) {
            OkEncoding::FastNumber
        } else {
            OkEncoding::Generic
        }
    } else if spec_is_void(output) {
        OkEncoding::Nothing
    } else if spec_is_numeric_return(output) {
        OkEncoding::FastNumber
    } else {
        OkEncoding::Generic
    }
}

/// The encoding of a sync function's return value: a fallible function
/// raises its error.
pub open spec fn spec_sync_ret(output: Seq<char>) -> ReturnPlan {
    ReturnPlan { ok: spec_ok_encoding(output), raises: spec_is_result(output) }
}

/// Binds a parameter to the scope where it takes it.
pub fn scope_arg(arg: &str) -> (r: Option<SpecialArg>)
    ensures
        r == spec_scope_arg(arg@),
{
    if is_handle_scope(arg) {
        Some(SpecialArg::Scope)
    } else {
        None
    }
}

/// Binds a parameter of a sync function to a state handle where it takes one.
pub fn opstate_arg(arg: &str) -> (r: Option<SpecialArg>)
    ensures
        r == spec_opstate_arg(arg@),
{
    if is_rc_refcell_opstate(arg) {
        Some(SpecialArg::SharedState)
    } else if is_mut_ref_opstate(arg) {
        Some(SpecialArg::ExclusiveState)
    } else {
        None
    }
}

/// Binds a parameter of an async function to a state handle where it takes
/// one; exclusive access is marked as rejected.
pub fn rc_refcell_opstate_arg(arg: &str) -> (r: Option<SpecialArg>)
    ensures
        r == spec_rc_refcell_opstate_arg(arg@),
{
    if is_rc_refcell_opstate(arg) {
        Some(SpecialArg::SharedState)
    } else if is_mut_ref_opstate(arg) {
        Some(SpecialArg::RejectedExclusiveState)
    } else {
        None
    }
}

/// Collects the leading special arguments: the run ends at the first
/// parameter that is none.
pub fn special_args(f: &Signature, is_v8: bool, in_async: bool) -> (out: Vec<SpecialArg>)
    ensures
        out@ == leading_specials(f@.inputs, is_v8, in_async),
        out.len() <= f.inputs.len(),
{
    let mut out: Vec<SpecialArg> = Vec::new();
    let mut i: usize = 0;
    while i < f.inputs.len()
        invariant
            i <= f.inputs.len(),
            out.len() == i,
            leading_specials(f@.inputs, is_v8, in_async) == out@ + special_run(
                f@.inputs,
                is_v8,
                in_async,
                i as int,
            ),
        decreases f.inputs.len() - i,
    {
        let tokens = f.inputs[i].tokens();
        assert(f@.inputs[i as int] == f.inputs[i as int]@);
        let scope = if is_v8 {
            scope_arg(tokens.as_str())
        } else {
            None
        };
        let special = match scope {
            Some(s) => Some(s),
            None => if in_async {
                rc_refcell_opstate_arg(tokens.as_str())
            } else {
                opstate_arg(tokens.as_str())
            },
        };
        assert(special == spec_special(param_tokens(f@.inputs[i as int]), is_v8, in_async));
        match special {
            Some(s) => {
                let ghost before = out@;
                out.push(s);
                assert(out@ + special_run(f@.inputs, is_v8, in_async, i + 1) =~= before + (seq![s]
                    + special_run(f@.inputs, is_v8, in_async, i + 1)));
            },
            None => {
                assert(out@ + Seq::<SpecialArg>::empty() =~= out@);
                return out;
            },
        }
        i = i + 1;
    }
    assert(out@ + Seq::<SpecialArg>::empty() =~= out@);
    out
}

/// Decides how the argument at index `idx` is decoded.
pub fn codegen_arg(arg: &Param, idx: usize) -> (r: ArgPlan)
    ensures
        r == (ArgPlan { index: idx, kind: spec_classify(arg@) }),
{
    let ty = arg.ty.as_str();
    let kind = if is_optional_fast_callback_option(ty) || is_optional_wasm_memory(ty) {
        ArgKind::AbsentOption
    } else if same_text(arg.pattern.as_str(), "_") {
        ArgKind::Ignored
    } else {
        match is_string(ty) {
            Some(is_ref) => if is_ref {
                ArgKind::BorrowedString
            } else {
                ArgKind::OwnedString
            },
            None => if is_cow_str(ty) {
                ArgKind::CowString
            } else if is_option_string(ty) {
                ArgKind::OptionalString
            } else {
                match is_ref_slice(ty) {
                    Some(SliceType::U32Mut) => ArgKind::WordSlice,
                    Some(SliceType::U8Mut) => ArgKind::ByteSlice { mutable: true },
                    Some(SliceType::U8) => ArgKind::ByteSlice { mutable: false },
                    None => if is_ptr_u8(ty) {
                        ArgKind::BytePointer
                    } else {
                        ArgKind::Generic
                    },
                }
            },
        }
    };
    ArgPlan { index: idx, kind }
}

/// The name that the decoded argument at `position` is bound to.
pub fn arg_name(position: usize) -> (r: String)
    ensures
        r@ == spec_arg_name(position as nat),
{
    String::from_str("arg_").concat(to_decimal(position).as_str())
}

/// Decides how the parameters from `rust_i0` on are decoded; the first of
/// them is read at index `v8_i0` of the runtime's arguments, and every
/// index must fit. Returns the decodings, the names that the decoded
/// arguments are bound to, and their number.
pub fn codegen_args(f: &Signature, rust_i0: usize, v8_i0: usize) -> (r: (
    Vec<ArgPlan>,
    Vec<String>,
    usize,
))
    requires
        rust_i0 < f.inputs.len() ==> v8_i0 + (f.inputs.len() - rust_i0 - 1) <= usize::MAX,
    ensures
        r.0@ == spec_arg_plans(f@.inputs, rust_i0 as int, v8_i0 as int),
        texts(r.1@) == spec_arg_names(r.2 as nat),
        r.2 == r.0.len(),
        r.2 == if rust_i0 <= f.inputs.len() {
            f.inputs.len() - rust_i0
        } else {
            0
        },
{
    let mut out: Vec<ArgPlan> = Vec::new();
    let mut names: Vec<String> = Vec::new();
    if rust_i0 > f.inputs.len() {
        assert(out@ =~= spec_arg_plans(f@.inputs, rust_i0 as int, v8_i0 as int));
        assert(texts(names@) =~= spec_arg_names(0));
        return (out, names, 0);
    }
    let n: usize = f.inputs.len() - rust_i0;
    let mut i: usize = 0;
    while i < n
        invariant
            rust_i0 <= f.inputs.len(),
            n == f.inputs.len() - rust_i0,
            n > 0 ==> v8_i0 + (n - 1) <= usize::MAX,
            i <= n,
            out.len() == i,
            names.len() == i,
            forall|j: int|
                0 <= j < i ==> out@[j] == (ArgPlan {
                    index: (v8_i0 + j) as usize,
                    kind: spec_classify(f@.inputs[rust_i0 + j]),
                }),
            forall|j: int| 0 <= j < i ==> (#[trigger] names@[j])@ == spec_arg_name(j as nat),
        decreases n - i,
    {
        assert(f@.inputs[rust_i0 + i] == f.inputs[rust_i0 + i]@);
        let plan = codegen_arg(&f.inputs[rust_i0 + i], v8_i0 + i);
        out.push(plan);
        names.push(arg_name(i));
        i = i + 1;
    }
    assert(out@ =~= spec_arg_plans(f@.inputs, rust_i0 as int, v8_i0 as int));
    assert(texts(names@) =~= spec_arg_names(n as nat));
    (out, names, n)
}

/// The type that an output stands for: what follows the arrow.
pub fn return_type_of(output: &str) -> (ty: &str)
    ensures
        ty@ == return_type(output@),
{
    let x = chars_of(output);
    let arrow = chars_of("-> ");
    let at = skip_leading(&x, &arrow);
    output.substring_char(at, x.len())
}

/// Whether the return type is a small unsigned integer or a resource handle.
pub fn is_numeric_return(output: &str) -> (r: bool)
    ensures
        r == spec_is_numeric_return(output@),
{
    let ty = return_type_of(output);
    if is_u32_rv(ty) {
        return true;
    }
    let as_param = String::from_str(": ").concat(ty);
    is_resource_id(as_param.as_str())
}

/// Whether the return type is a fallible wrapper round a small unsigned
/// integer or a resource handle.
pub fn is_numeric_result(output: &str) -> (r: bool)
    ensures
        r == spec_is_numeric_result(output@),
{
    is_u32_rv_result(output) || (is_result(output) && (contains(output, "Result < ResourceId")
        || contains(output, "Result < deno_core :: ResourceId")))
}

/// Decides how a sync function's return value is encoded.
pub fn codegen_sync_ret(output: &str) -> (r: ReturnPlan)
    ensures
        r == spec_sync_ret(output@),
{
    if is_result(output) {
        let ok = if is_unit_result(output) {
            OkEncoding::Nothing
        } else if is_numeric_result(output) {
            OkEncoding::FastNumber
        } else {
            OkEncoding::Generic
        };
        return ReturnPlan { ok, raises: true };
    }
    let ok = if is_void(output) {
        OkEncoding::Nothing
    } else if is_numeric_return(output) {
        OkEncoding::FastNumber
    } else {
        OkEncoding::Generic
    };
    ReturnPlan { ok, raises: false }
}

/// Plans the generic entry point of a sync function. Returns the plan and
/// the number of arguments that the runtime passes.
pub fn codegen_v8_sync(f: &Signature, margs: Attributes, has_fallible_fast_call: bool) -> (r: (
    SyncPlan,
    usize,
))
    ensures
        r.0.specials@ == leading_specials(f@.inputs, margs.is_v8, false),
        r.0.args@ == spec_arg_plans(f@.inputs, r.0.specials@.len() as int, 0),
        texts(r.0.names@) == spec_arg_names(r.1 as nat),
        r.0.ret == spec_sync_ret(f@.output),
        r.0.rethrows_fast_error == has_fallible_fast_call,
        r.1 == f@.inputs.len() - leading_specials(f@.inputs, margs.is_v8, false).len(),
{
    let specials = special_args(f, margs.is_v8, false);
    let rust_i0 = specials.len();
    let (args, names, argc) = codegen_args(f, rust_i0, 0);
    let ret = codegen_sync_ret(f.output.as_str());
    (SyncPlan { specials, args, names, ret, rethrows_fast_error: has_fallible_fast_call }, argc)
}

/// Plans the generic entry point of an async function: index 0 of the
/// runtime's arguments holds the promise id. Returns the plan and the
/// number of arguments behind the promise id.
pub fn codegen_v8_async(f: &Signature, margs: Attributes, asyncness: bool, deferred: bool) -> (r: (
    AsyncPlan,
    usize,
))
    ensures
        r.0.specials@ == leading_specials(f@.inputs, margs.is_v8, true),
        r.0.args@ == spec_arg_plans(f@.inputs, r.0.specials@.len() as int, 1),
        texts(r.0.names@) == spec_arg_names(r.1 as nat),
        r.0.deferred == deferred,
        r.0.call_inside == asyncness,
        r.0.early_failure == (spec_is_result(f@.output) && !asyncness),
        r.0.wraps_ok == !spec_is_result(f@.output),
        r.1 == f@.inputs.len() - leading_specials(f@.inputs, margs.is_v8, true).len(),
{
    let specials = special_args(f, margs.is_v8, true);
    let rust_i0 = specials.len();
    let (args, names, argc) = codegen_args(f, rust_i0, 1);
    let fallible = is_result(f.output.as_str());
    (
        AsyncPlan {
            specials,
            args,
            names,
            deferred,
            call_inside: asyncness,
            early_failure: fallible && !asyncness,
            wraps_ok: !fallible,
        },
        argc,
    )
}

} // verus!
