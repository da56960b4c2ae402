use vstd::prelude::*;
use vstd::string::*;
use crate::text::same_text;

verus! {

/// One parameter of a native function: the token renderings of its pattern
/// and of its type.
#[derive(Debug)]
pub struct Param {
    pub pattern: String,
    pub ty: String,
}

/// A parameter as texts.
pub struct ParamView {
    pub pattern: Seq<char>,
    pub ty: Seq<char>,
}

impl View for Param {
    type V = ParamView;

    open spec fn view(&self) -> ParamView {
        ParamView { pattern: self.pattern@, ty: self.ty@ }
    }
}

/// The rendering of a whole parameter: pattern, colon, type.
pub open spec fn param_tokens(p: ParamView) -> Seq<char> {
    p.pattern + " : "@ + p.ty
}

impl Param {
    /// A parameter from the renderings of its pattern and type.
    pub fn new(pattern: &str, ty: &str) -> (p: Param)
        ensures
            p@.pattern == pattern@,
            p@.ty == ty@,
    {
        Param { pattern: String::from_str(pattern), ty: String::from_str(ty) }
    }

    /// The rendering of the whole parameter.
    pub fn tokens(&self) -> (r: String)
        ensures
            r@ == param_tokens(self@),
    {
        self.pattern.clone().concat(" : ").concat(self.ty.as_str())
    }
}

/// The texts of a list of strings.
pub open spec fn texts(items: Seq<String>) -> Seq<Seq<char>> {
    items.map_values(|g: String| g@)
}

/// The signature of a native function, as token renderings.
///
/// The renderings are made by whoever holds the syntax tree. How tokens
/// are printed depends on the process that prints them, so nothing here
/// rests on how a source text maps to its renderings: every shape is told
/// from the texts as they are given.
#[derive(Debug)]
pub struct Signature {
    pub name: String,
    /// Declared with `async`.
    pub asyncness: bool,
    pub generics: Vec<String>,
    pub inputs: Vec<Param>,
    /// Empty, or an arrow and the return type.
    pub output: String,
}

/// A signature as texts.
pub struct SignatureView {
    pub name: Seq<char>,
    pub asyncness: bool,
    pub generics: Seq<Seq<char>>,
    pub inputs: Seq<ParamView>,
    pub output: Seq<char>,
}

impl View for Signature {
    type V = SignatureView;

    open spec fn view(&self) -> SignatureView {
        SignatureView {
            name: self.name@,
            asyncness: self.asyncness,
            generics: texts(self.generics@),
            inputs: self.inputs@.map_values(|p: Param| p@),
            output: self.output@,
        }
    }
}

/// The view of a signature that may be absent.
pub open spec fn view_of(raw: Option<Signature>) -> Option<SignatureView> {
    match raw {
        Some(s) => Some(s@),
        None => None,
    }
}

/// Every parameter has a type.
pub open spec fn all_typed(inputs: Seq<ParamView>) -> bool {
    forall|i: int| 0 <= i < inputs.len() ==> (#[trigger] inputs[i]).ty.len() > 0
}

/// What is accepted of a function that was read: one all of whose
/// parameters are typed. A receiver is rendered with an empty type.
pub open spec fn spec_accept(raw: Option<SignatureView>) -> Option<SignatureView> {
    match raw {
        Some(s) => if all_typed(s.inputs) {
            Some(s)
        } else {
            None
        },
        None => None,
    }
}

/// The lifetime that generated entry points borrow the scope for.
pub open spec fn scope_lifetime() -> Seq<char> {
    "'scope"@
}

/// The generics with the scope lifetime added where it was missing.
pub open spec fn with_scope_lifetime(generics: Seq<Seq<char>>) -> Seq<Seq<char>> {
    if generics.contains(scope_lifetime()) {
        generics
    } else {
        generics.push(scope_lifetime())
    }
}

/// A generic parameter that is a lifetime.
pub open spec fn is_lifetime(g: Seq<char>) -> bool {
    g.len() > 0 && g[0] == '\''
}

impl Signature {
    /// Keeps a signature only where every parameter has a type: a receiver,
    /// which has none, makes a method of it, and only free functions are
    /// bound.
    pub fn accept(raw: Option<Signature>) -> (r: Option<Signature>)
        ensures
            view_of(r) == spec_accept(view_of(raw)),
            r matches Some(s) ==> raw == Some(s),
    {
        match raw {
            Some(s) => {
                let mut i: usize = 0;
                while i < s.inputs.len()
                    invariant
                        i <= s.inputs.len(),
                        raw == Some(s),
                        forall|j: int| 0 <= j < i ==> (#[trigger] s@.inputs[j]).ty.len() > 0,
                    decreases s.inputs.len() - i,
                {
                    if s.inputs[i].ty.as_str().unicode_len() == 0 {
                        assert(s@.inputs[i as int].ty.len() == 0);
                        assert(!all_typed(s@.inputs));
                        return None;
                    }
                    i = i + 1;
                }
                Some(s)
            },
            None => None,
        }
    }

    /// Adds the scope lifetime to the generics unless it is among them.
    pub fn add_scope_lifetime(&mut self)
        ensures
            final(self).name == old(self).name,
            final(self).asyncness == old(self).asyncness,
            final(self).inputs == old(self).inputs,
            final(self).output == old(self).output,
            final(self)@.generics == with_scope_lifetime(old(self)@.generics),
    {
        let mut i: usize = 0;
        while i < self.generics.len()
            invariant
                i <= self.generics.len(),
                *self == *old(self),
                forall|j: int| 0 <= j < i ==> (#[trigger] self@.generics[j]) != scope_lifetime(),
            decreases self.generics.len() - i,
        {
            if same_text(self.generics[i].as_str(), "'scope") {
                assert(self@.generics[i as int] == scope_lifetime());
                return ;
            }
            i = i + 1;
        }
        self.generics.push(String::from_str("'scope"));
        assert(final(self)@.generics =~= old(self)@.generics.push(scope_lifetime()));
    }
}

/// The generic parameters that are not lifetimes, in their order.
pub open spec fn type_params_of(generics: Seq<Seq<char>>) -> Seq<Seq<char>> {
    generics.filter(|g: Seq<char>| !is_lifetime(g))
}

/// Picks the generic parameters that are not lifetimes, in their order.
pub fn exclude_lifetime_params(generics: &Vec<String>) -> (out: Vec<String>)
    ensures
        texts(out@) == type_params_of(texts(generics@)),
{
    let mut out: Vec<String> = Vec::new();
    let mut i: usize = 0;
    let ghost all = texts(generics@);
    let ghost keep = |g: Seq<char>| !is_lifetime(g);
    proof {
        reveal(Seq::filter);
        assert(all.subrange(0, 0) =~= Seq::<Seq<char>>::empty());
        assert(texts(out@) =~= Seq::<Seq<char>>::empty());
    }
    while i < generics.len()
        invariant
            i <= generics.len(),
            all == texts(generics@),
            keep == |g: Seq<char>| !is_lifetime(g),
            texts(out@) == all.subrange(0, i as int).filter(keep),
        decreases generics.len() - i,
    {
        let g = &generics[i];
        let lifetime = g.as_str().unicode_len() > 0 && g.as_str().get_char(0) == '\'';
        proof {
            reveal(Seq::filter);
            assert(all.subrange(0, i + 1).drop_last() =~= all.subrange(0, i as int));
            assert(all.subrange(0, i + 1).last() == g@);
        }
        if !lifetime {
            let ghost before = out@;
            out.push(g.clone());
            assert(texts(out@) =~= texts(before).push(g@));
        }
        i = i + 1;
    }
    assert(all.subrange(0, generics.len() as int) =~= all);
    out
}

} // verus!
