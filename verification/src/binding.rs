use vstd::prelude::*;
use vstd::string::*;
use crate::attrs::{all_known, spec_from_words, Attributes};
use crate::classify::{is_future, spec_is_future, spec_is_result};
use crate::fast_call::{fast_plan_for, generate, FastPlan};
use crate::generic_path::{
    codegen_v8_async, codegen_v8_sync, leading_specials, special_args, spec_arg_names,
    spec_arg_plans,
    spec_sync_ret, AsyncPlan, SpecialArg, SyncPlan,
};
use crate::optimizer::{spec_fast_compatible, BailoutReason, Optimizer};
use crate::signature::{
    exclude_lifetime_params, spec_accept, texts, type_params_of, view_of,
    with_scope_lifetime, Param, Signature, SignatureView,
};

verus! {

/// The generic entry point.
#[derive(Debug)]
pub enum GenericPlan {
    Sync(SyncPlan),
    Async(AsyncPlan),
}

/// What the runtime registers for one native function.
#[derive(Debug)]
pub struct BindingDescriptor {
    pub name: String,
    /// The number of arguments that a caller passes.
    pub argc: usize,
    pub is_async: bool,
    pub is_unstable: bool,
    pub is_v8: bool,
    /// The generic parameters of the entry points, the scope lifetime
    /// among them.
    pub generics: Vec<String>,
    /// Those of them that are not lifetimes.
    pub type_params: Vec<String>,
    pub fast: Option<FastPlan>,
    pub generic: GenericPlan,
}

/// Why no binding is generated.
#[derive(Clone, Copy, Debug, PartialEq, Eq, Structural)]
pub enum GenError {
    /// An async function asks for exclusive access to the runtime state.
    ExclusiveStateInAsync,
    /// A fast entry point is required and cannot be generated.
    FastPathUnavailable,
}

/// A native function on its way to a binding.
#[derive(Debug)]
pub struct Op {
    /// The function as it was written, under the name `call`.
    pub orig: Signature,
    /// The function with the scope lifetime among its generics.
    pub item: Signature,
    /// Declared `async`, or returns a future.
    pub is_async: bool,
    /// The generic parameters that are not lifetimes.
    pub type_params: Vec<String>,
    pub attrs: Attributes,
}

/// The number of arguments that a caller passes: the parameters without
/// the leading special ones.
pub open spec fn spec_arity(f: SignatureView, attrs: Attributes, is_async: bool) -> int {
    f.inputs.len() - leading_specials(f.inputs, attrs.is_v8, is_async).len()
}

/// Why no binding is generated for a function, if none is.
pub open spec fn spec_gen_error(f: SignatureView, attrs: Attributes, is_async: bool) -> Option<
    GenError,
> {
    if is_async && leading_specials(f.inputs, attrs.is_v8, true).contains(
        SpecialArg::RejectedExclusiveState,
    ) {
        Some(GenError::ExclusiveStateInAsync)
    } else if attrs.must_be_fast && !spec_fast_compatible(f, attrs, is_async) {
        Some(GenError::FastPathUnavailable)
    } else {
        None
    }
}

/// `a` is the generic entry point of the async function.
pub open spec fn async_plan_for(a: AsyncPlan, f: SignatureView, attrs: Attributes) -> bool {
    &&& a.specials@ == leading_specials(f.inputs, attrs.is_v8, true)
    &&& a.args@ == spec_arg_plans(f.inputs, a.specials@.len() as int, 1)
    &&& texts(a.names@) == spec_arg_names(a.args@.len())
    &&& a.deferred == attrs.deferred
    &&& a.call_inside == f.asyncness
    &&& a.early_failure == (spec_is_result(f.output) && !f.asyncness)
    &&& a.wraps_ok == !spec_is_result(f.output)
}

/// `s` is the generic entry point of the sync function: where the function
/// is fallible and has a fast entry point, it first raises the error that
/// a fast call left behind.
pub open spec fn sync_plan_for(s: SyncPlan, f: SignatureView, attrs: Attributes) -> bool {
    &&& s.specials@ == leading_specials(f.inputs, attrs.is_v8, false)
    &&& s.args@ == spec_arg_plans(f.inputs, s.specials@.len() as int, 0)
    &&& texts(s.names@) == spec_arg_names(s.args@.len())
    &&& s.ret == spec_sync_ret(f.output)
    &&& s.rethrows_fast_error == (spec_fast_compatible(f, attrs, false) && spec_is_result(
        f.output,
    ))
}

/// `d` is the binding of the function: its metadata, the fast entry point
/// exactly where one can be generated, and the generic entry point of its
/// call shape.
pub open spec fn describes(d: BindingDescriptor, f: SignatureView, attrs: Attributes, is_async: bool) -> bool {
    &&& d.name@ == f.name
    &&& d.argc == spec_arity(f, attrs, is_async)
    &&& d.is_async == is_async
    &&& d.is_unstable == attrs.is_unstable
    &&& d.is_v8 == attrs.is_v8
    &&& texts(d.generics@) == f.generics
    &&& d.fast is Some == spec_fast_compatible(f, attrs, is_async)
    &&& d.fast matches Some(p) ==> fast_plan_for(p, f, attrs, is_async)
    &&& match d.generic {
        GenericPlan::Async(a) => is_async && async_plan_for(a, f, attrs),
        GenericPlan::Sync(s) => !is_async && sync_plan_for(s, f, attrs),
    }
}

/// Why a function is not bound.
#[derive(Clone, Copy, Debug, PartialEq, Eq, Structural)]
pub enum OpError {
    /// A word among the options names none.
    InvalidAttribute,
    /// There is no function, or one of its parameters is a receiver.
    ExpectedFunction,
    /// The function cannot have the binding that it asks for.
    Rejected(GenError),
}

/// The function that a binding is generated for, from the function as it
/// was written.
pub open spec fn bound_item(f: SignatureView) -> SignatureView {
    SignatureView { generics: with_scope_lifetime(f.generics), ..f }
}

/// Whether a function as written is async.
pub open spec fn bound_async(f: SignatureView) -> bool {
    f.asyncness || spec_is_future(f.output)
}

/// Why binding a function that was read, under options that were read,
/// fails, if it does.
pub open spec fn spec_bind_error(attrs: Option<Attributes>, item: Option<SignatureView>) -> Option<
    OpError,
> {
    match attrs {
        None => Some(OpError::InvalidAttribute),
        Some(a) => match item {
            None => Some(OpError::ExpectedFunction),
            Some(f) => match spec_gen_error(bound_item(f), a, bound_async(f)) {
                Some(e) => Some(OpError::Rejected(e)),
                None => None,
            },
        },
    }
}

/// The options that a list of words stands for, if every word is known.
pub open spec fn spec_read_words(words: Seq<String>) -> Option<Attributes> {
    if all_known(words) {
        Some(spec_from_words(words))
    } else {
        None
    }
}

/// Binds a function that was read, under options that were read.
pub fn bind(attrs: Option<Attributes>, item: Option<Signature>) -> (r: Result<
    BindingDescriptor,
    OpError,
>)
    ensures
        match spec_bind_error(attrs, view_of(item)) {
            Some(e) => r == Err::<BindingDescriptor, OpError>(e),
            None => r is Ok,
        },
        r matches Ok(d) ==> describes(
            d,
            bound_item(item.unwrap()@),
            attrs.unwrap(),
            bound_async(item.unwrap()@),
        ) && texts(d.type_params@) == type_params_of(bound_item(item.unwrap()@).generics),
{
    match attrs {
        None => Err(OpError::InvalidAttribute),
        Some(a) => match item {
            None => Err(OpError::ExpectedFunction),
            Some(f) => match Op::new(f, a).gen() {
                Ok(d) => Ok(d),
                Err(e) => Err(OpError::Rejected(e)),
            },
        },
    }
}

/// Generates the binding of a native function from the words of its
/// options and its signature.
pub fn op(attr: &Vec<String>, item: Signature) -> (r: Result<BindingDescriptor, OpError>)
    ensures
        match spec_bind_error(spec_read_words(attr@), spec_accept(Some(item@))) {
            Some(e) => r == Err::<BindingDescriptor, OpError>(e),
            None => r is Ok,
        },
        r matches Ok(d) ==> describes(
            d,
            bound_item(item@),
            spec_from_words(attr@),
            bound_async(item@),
        ) && texts(d.type_params@) == type_params_of(bound_item(item@).generics),
{
    bind(Attributes::from_words(attr), Signature::accept(Some(item)))
}

/// Copies a list of strings.
pub fn copy_strings(items: &Vec<String>) -> (out: Vec<String>)
    ensures
        out@ == items@,
{
    let mut out: Vec<String> = Vec::new();
    let mut i: usize = 0;
    while i < items.len()
        invariant
            i <= items.len(),
            out@ == items@.subrange(0, i as int),
        decreases items.len() - i,
    {
        out.push(items[i].clone());
        assert(out@ =~= items@.subrange(0, i + 1));
        i = i + 1;
    }
    assert(items@.subrange(0, items.len() as int) =~= items@);
    out
}

/// Copies a signature under another name.
pub fn renamed(f: &Signature, name: &str) -> (out: Signature)
    ensures
        out@ == (SignatureView { name: name@, ..f@ }),
{
    let mut inputs: Vec<Param> = Vec::new();
    let mut i: usize = 0;
    while i < f.inputs.len()
        invariant
            i <= f.inputs.len(),
            inputs.len() == i,
            forall|j: int| 0 <= j < i ==> inputs@[j]@ == f.inputs@[j]@,
        decreases f.inputs.len() - i,
    {
        inputs.push(Param { pattern: f.inputs[i].pattern.clone(), ty: f.inputs[i].ty.clone() });
        i = i + 1;
    }
    let out = Signature {
        name: String::from_str(name),
        asyncness: f.asyncness,
        generics: copy_strings(&f.generics),
        inputs,
        output: f.output.clone(),
    };
    assert(out@.inputs =~= f@.inputs);
    out
}

/// Whether an async function asks for exclusive access to the state.
pub fn has_rejected(specials: &Vec<SpecialArg>) -> (r: bool)
    ensures
        r == specials@.contains(SpecialArg::RejectedExclusiveState),
{
    let mut i: usize = 0;
    while i < specials.len()
        invariant
            i <= specials.len(),
            forall|j: int| 0 <= j < i ==> specials@[j] != SpecialArg::RejectedExclusiveState,
        decreases specials.len() - i,
    {
        match specials[i] {
            SpecialArg::RejectedExclusiveState => {
                return true;
            },
            _ => {},
        }
        i = i + 1;
    }
    false
}

impl BindingDescriptor {
    /// The name under which the function is registered.
    pub fn name(&self) -> (r: &str)
        ensures
            r@ == self.name@,
    {
        self.name.as_str()
    }

    /// The number of arguments that a caller passes.
    pub fn arity(&self) -> (r: usize)
        ensures
            r == self.argc,
    {
        self.argc
    }

    /// Whether a fast entry point was generated.
    pub fn has_fast_entry(&self) -> (r: bool)
        ensures
            r == self.fast is Some,
    {
        self.fast.is_some()
    }
}

impl Op {
    /// Takes a function in: keeps it as written under the name `call`, adds
    /// the scope lifetime, and notes whether it is async and which of its
    /// generics are types.
    pub fn new(item: Signature, attrs: Attributes) -> (op: Op)
        ensures
            op.orig@ == (SignatureView { name: "call"@, ..item@ }),
            op.item@ == (SignatureView {
                generics: with_scope_lifetime(item@.generics),
                ..item@
            }),
            op.is_async == (item.asyncness || spec_is_future(item@.output)),
            texts(op.type_params@) == type_params_of(op.item@.generics),
            op.attrs == attrs,
    {
        let mut item = item;
        let orig = renamed(&item, "call");
        item.add_scope_lifetime();
        let is_async = item.asyncness || is_future(item.output.as_str());
        let type_params = exclude_lifetime_params(&item.generics);
        Op { orig, item, is_async, type_params, attrs }
    }

    /// Assembles the binding: the analysis for the fast entry point, then
    /// the generic entry point, which is always there, and the metadata.
    pub fn gen(self) -> (r: Result<BindingDescriptor, GenError>)
        ensures
            match spec_gen_error(self.item@, self.attrs, self.is_async) {
                Some(e) => r == Err::<BindingDescriptor, GenError>(e),
                None => r is Ok,
            },
            r matches Ok(d) ==> describes(d, self.item@, self.attrs, self.is_async),
            r matches Ok(d) ==> d.type_params == self.type_params,
    {
        let mut optimizer = Optimizer::new();
        match optimizer.analyze(&self) {
            Err(BailoutReason::MustBeSingleSegment) | Err(BailoutReason::FastUnsupportedParamType) => {
                optimizer.fast_compatible = false;
            },
            _ => {},
        }
        let Op { orig, item, is_async, type_params, attrs } = self;
        let fast = generate(&optimizer, &item, attrs, is_async);
        let has_fallible_fast_call = fast.is_some() && optimizer.returns_result;
        if attrs.must_be_fast && fast.is_none() {
            if is_async && has_rejected(&special_args(&item, attrs.is_v8, true)) {
                return Err(GenError::ExclusiveStateInAsync);
            }
            return Err(GenError::FastPathUnavailable);
        }
        let (generic, argc) = if is_async {
            let (plan, argc) = codegen_v8_async(&item, attrs, item.asyncness, attrs.deferred);
            if has_rejected(&plan.specials) {
                return Err(GenError::ExclusiveStateInAsync);
            }
            (GenericPlan::Async(plan), argc)
        } else {
            let (plan, argc) = codegen_v8_sync(&item, attrs, has_fallible_fast_call);
            (GenericPlan::Sync(plan), argc)
        };
        Ok(
            BindingDescriptor {
                name: item.name,
                argc,
                is_async,
                is_unstable: attrs.is_unstable,
                is_v8: attrs.is_v8,
                generics: item.generics,
                type_params,
                fast,
                generic,
            },
        )
    }
}

} // verus!
