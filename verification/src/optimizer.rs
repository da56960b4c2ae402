use vstd::prelude::*;
use vstd::string::*;
use crate::binding::Op;
use crate::classify::{is_result, spec_is_result};
use crate::generic_path::{
    codegen_arg, codegen_sync_ret, leading_specials, return_type, return_type_of, special_args,
    spec_classify, spec_ok_encoding, ArgKind, OkEncoding,
};
use crate::signature::{Param, ParamView, SignatureView};
use crate::attrs::Attributes;
use crate::text::{contains, has_infix, same_text};

verus! {

/// Why no fast entry point is generated.
#[derive(Clone, Copy, Debug, PartialEq, Eq, Structural)]
pub enum BailoutReason {
    /// A parameter's type is a qualified path: what it names cannot be
    /// told from its shape.
    MustBeSingleSegment,
    /// A parameter's kind has no place on the fast path.
    FastUnsupportedParamType,
}

/// What the analysis of one function has found.
#[derive(Clone, Copy, Debug, PartialEq, Eq, Structural)]
pub struct Optimizer {
    /// A fast entry point can still be generated.
    pub fast_compatible: bool,
    /// The function is fallible.
    pub returns_result: bool,
}

/// The type holds a path separator.
pub open spec fn is_qualified(ty: Seq<char>) -> bool {
    has_infix(ty, "::"@)
}

/// Some parameter's type is a qualified path.
pub open spec fn any_qualified(inputs: Seq<ParamView>) -> bool {
    exists|i: int| 0 <= i < inputs.len() && is_qualified((#[trigger] inputs[i]).ty)
}

/// A number or truth value that the fast path passes as it is.
pub open spec fn is_fast_scalar(ty: Seq<char>) -> bool {
    ty == "u8"@ || ty == "u16"@ || ty == "u32"@ || ty == "u64"@ || ty == "usize"@ || ty == "i8"@
        || ty == "i16"@ || ty == "i32"@ || ty == "i64"@ || ty == "isize"@ || ty == "f32"@ || ty
        == "f64"@ || ty == "bool"@
}

/// The parameter can be taken without allocation or general decoding.
pub open spec fn fast_supported(p: ParamView) -> bool {
    match spec_classify(p) {
        ArgKind::AbsentOption => true,
        ArgKind::BorrowedString => true,
        ArgKind::ByteSlice { mutable } => true,
        ArgKind::WordSlice => true,
        ArgKind::BytePointer => true,
        ArgKind::Generic => is_fast_scalar(p.ty),
        ArgKind::Ignored => false,
        ArgKind::OwnedString => false,
        ArgKind::CowString => false,
        ArgKind::OptionalString => false,
    }
}

/// Some parameter from `from` on has no place on the fast path.
pub open spec fn any_unsupported(inputs: Seq<ParamView>, from: int) -> bool {
    exists|i: int| from <= i < inputs.len() && 0 <= i && !fast_supported(#[trigger] inputs[i])
}

/// How the fast entry point hands a value back.
#[derive(Clone, Copy, Debug, PartialEq, Eq, Structural)]
pub enum FastReturn {
    Nothing,
    /// Set directly as an unsigned 32-bit number.
    Number,
    /// A number or truth value, returned as it is.
    Scalar,
}

/// How the fast entry point of a sync function hands its value back, if it
/// can: as the generic path does where that needs no general encoding, or
/// as it is where it is a number or truth value.
pub open spec fn spec_fast_return(output: Seq<char>) -> Option<FastReturn> {
    match spec_ok_encoding(output) {
        OkEncoding::Nothing => Some(FastReturn::Nothing),
        OkEncoding::FastNumber => Some(FastReturn::Number),
        OkEncoding::Generic => if is_fast_scalar(return_type(output)) {
            Some(FastReturn::Scalar)
        } else {
            None
        },
    }
}

/// The reason for which the analysis of a function gives up, if it does:
/// a qualified path comes before an unsupported kind.
pub open spec fn spec_bailout(f: SignatureView, attrs: Attributes, is_async: bool) -> Option<
    BailoutReason,
> {
    if any_qualified(f.inputs) {
        Some(BailoutReason::MustBeSingleSegment)
    } else if any_unsupported(
        f.inputs,
        leading_specials(f.inputs, attrs.is_v8, is_async).len() as int,
    ) {
        Some(BailoutReason::FastUnsupportedParamType)
    } else {
        None
    }
}

/// Whether a fast entry point is generated: nothing made the analysis give
/// up, the function does not take the scope, and it is either an async
/// function that asks for one or a sync function whose value the fast path
/// can hand back.
pub open spec fn spec_fast_compatible(f: SignatureView, attrs: Attributes, is_async: bool) -> bool {
    spec_bailout(f, attrs, is_async) is None && !attrs.is_v8 && if is_async {
        attrs.must_be_fast
    } else {
        spec_fast_return(f.output) is Some
    }
}

/// Whether a type is a number or truth value that the fast path passes as
/// it is.
pub fn fast_scalar(ty: &str) -> (r: bool)
    ensures
        r == is_fast_scalar(ty@),
{
    same_text(ty, "u8") || same_text(ty, "u16") || same_text(ty, "u32") || same_text(ty, "u64")
        || same_text(ty, "usize") || same_text(ty, "i8") || same_text(ty, "i16") || same_text(
        ty,
        "i32",
    ) || same_text(ty, "i64") || same_text(ty, "isize") || same_text(ty, "f32") || same_text(
        ty,
        "f64",
    ) || same_text(ty, "bool")
}

/// Decides how the fast entry point of a sync function hands its value
/// back, if it can.
pub fn fast_return(output: &str) -> (r: Option<FastReturn>)
    ensures
        r == spec_fast_return(output@),
{
    match codegen_sync_ret(output).ok {
        OkEncoding::Nothing => Some(FastReturn::Nothing),
        OkEncoding::FastNumber => Some(FastReturn::Number),
        OkEncoding::Generic => if fast_scalar(return_type_of(output)) {
            Some(FastReturn::Scalar)
        } else {
            None
        },
    }
}

/// Whether a parameter has a place on the fast path.
pub fn supports_fast(p: &Param) -> (r: bool)
    ensures
        r == fast_supported(p@),
{
    match codegen_arg(p, 0).kind {
        ArgKind::AbsentOption => true,
        ArgKind::BorrowedString => true,
        ArgKind::ByteSlice { mutable } => true,
        ArgKind::WordSlice => true,
        ArgKind::BytePointer => true,
        ArgKind::Generic => fast_scalar(p.ty.as_str()),
        ArgKind::Ignored => false,
        ArgKind::OwnedString => false,
        ArgKind::CowString => false,
        ArgKind::OptionalString => false,
    }
}

impl Optimizer {
    /// Nothing analysed yet: no fast entry point.
    pub fn new() -> (o: Optimizer)
        ensures
            o == (Optimizer { fast_compatible: false, returns_result: false }),
    {
        Optimizer { fast_compatible: false, returns_result: false }
    }

    /// Decides whether a fast entry point can be generated for `op`. Gives
    /// up with a reason where a parameter stands in the way; otherwise
    /// records whether the fast path is taken. Whether the function is
    /// fallible is recorded in every case.
    pub fn analyze(&mut self, op: &Op) -> (r: Result<(), BailoutReason>)
        ensures
            r == match spec_bailout(op.item@, op.attrs, op.is_async) {
                Some(reason) => Err::<(), BailoutReason>(reason),
                None => Ok(()),
            },
            final(self).returns_result == spec_is_result(op.item@.output),
            final(self).fast_compatible == spec_fast_compatible(op.item@, op.attrs, op.is_async),
    {
        let f = &op.item;
        self.returns_result = is_result(f.output.as_str());
        self.fast_compatible = false;
        let mut i: usize = 0;
        while i < f.inputs.len()
            invariant
                i <= f.inputs.len(),
                f == &op.item,
                self.returns_result == spec_is_result(op.item@.output),
                !self.fast_compatible,
                forall|j: int| 0 <= j < i ==> !is_qualified((#[trigger] f@.inputs[j]).ty),
            decreases f.inputs.len() - i,
        {
            assert(f@.inputs[i as int] == f.inputs[i as int]@);
            if contains(f.inputs[i].ty.as_str(), "::") {
                return Err(BailoutReason::MustBeSingleSegment);
            }
            i = i + 1;
        }
        let specials = special_args(f, op.attrs.is_v8, op.is_async);
        let first: usize = specials.len();
        let mut k: usize = first;
        while k < f.inputs.len()
            invariant
                first <= k <= f.inputs.len(),
                f == &op.item,
                self.returns_result == spec_is_result(op.item@.output),
                !self.fast_compatible,
                !any_qualified(f@.inputs),
                first == leading_specials(f@.inputs, op.attrs.is_v8, op.is_async).len(),
                forall|j: int| first <= j < k ==> fast_supported(#[trigger] f@.inputs[j]),
            decreases f.inputs.len() - k,
        {
            assert(f@.inputs[k as int] == f.inputs[k as int]@);
            if !supports_fast(&f.inputs[k]) {
                return Err(BailoutReason::FastUnsupportedParamType);
            }
            k = k + 1;
        }
        let shape = if op.is_async {
            op.attrs.must_be_fast
        } else {
            fast_return(f.output.as_str()).is_some()
        };
        self.fast_compatible = !op.attrs.is_v8 && shape;
        Ok(())
    }
}

} // verus!
