use vstd::prelude::*;
use vstd::string::*;
use crate::attrs::Attributes;
use crate::classify::spec_is_result;
use crate::generic_path::{
    codegen_args, leading_specials, special_args, spec_arg_names, spec_arg_plans, ArgPlan,
    SpecialArg,
};
use crate::optimizer::{fast_return, spec_fast_return, FastReturn, Optimizer};
use crate::signature::{texts, Signature, SignatureView};

verus! {

/// The fast entry point: arguments are taken without the general decoder,
/// behind the receiver at index 0.
#[derive(Debug)]
pub struct FastPlan {
    pub specials: Vec<SpecialArg>,
    pub args: Vec<ArgPlan>,
    /// The names that the extracted arguments are bound to, in order.
    pub names: Vec<String>,
    pub ret: FastReturn,
    /// A failed call leaves its error behind for the next generic call.
    pub stashes_error: bool,
}

/// What the fast entry point hands back: nothing for an async function,
/// whose value is delivered later.
pub open spec fn spec_fast_plan_return(output: Seq<char>, is_async: bool) -> FastReturn {
    match spec_fast_return(output) {
        Some(r) if !is_async => r,
        _ => FastReturn::Nothing,
    }
}

/// `p` is the fast entry point of the function.
pub open spec fn fast_plan_for(p: FastPlan, f: SignatureView, attrs: Attributes, is_async: bool) -> bool {
    &&& p.specials@ == leading_specials(f.inputs, attrs.is_v8, is_async)
    &&& p.args@ == spec_arg_plans(f.inputs, p.specials@.len() as int, 1)
    &&& texts(p.names@) == spec_arg_names(p.args@.len())
    &&& p.ret == spec_fast_plan_return(f.output, is_async)
    &&& p.stashes_error == spec_is_result(f.output)
}

/// Plans the fast entry point where the analysis found one possible.
pub fn generate(optimizer: &Optimizer, f: &Signature, attrs: Attributes, is_async: bool) -> (r:
    Option<FastPlan>)
    ensures
        r is Some == optimizer.fast_compatible,
        r matches Some(p) ==> {
            &&& p.specials@ == leading_specials(f@.inputs, attrs.is_v8, is_async)
            &&& p.args@ == spec_arg_plans(f@.inputs, p.specials@.len() as int, 1)
            &&& texts(p.names@) == spec_arg_names(p.args@.len())
            &&& p.ret == spec_fast_plan_return(f@.output, is_async)
            &&& p.stashes_error == optimizer.returns_result
        },
{
    if !optimizer.fast_compatible {
        return None;
    }
    let specials = special_args(f, attrs.is_v8, is_async);
    let (args, names, _) = codegen_args(f, specials.len(), 1);
    let ret = if is_async {
        FastReturn::Nothing
    } else {
        match fast_return(f.output.as_str()) {
            Some(r) => r,
            None => FastReturn::Nothing,
        }
    };
    Some(FastPlan { specials, args, names, ret, stashes_error: optimizer.returns_result })
}

} // verus!
