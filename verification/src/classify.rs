use vstd::prelude::*;
use vstd::string::*;
use crate::text::{occurs_at, has_prefix, has_suffix, has_infix, first_occurrence, without_leading, chars_of, matches_at, find_first, skip_leading, same_text, starts_with, ends_with, contains};
use crate::pattern::{pattern_found, spec_found, is_match};

verus! {

/// The mutable and immutable slice shapes that are decoded as buffer views.
#[derive(Clone, Copy, Debug, PartialEq, Eq, Structural)]
pub enum SliceType {
    U8,
    U8Mut,
    U32Mut,
}

/// `text.subrange(0, upto)` holds `c`.
pub open spec fn char_before(text: Seq<char>, c: char, upto: int) -> bool {
    exists|i: int| 0 <= i < upto && i < text.len() && text[i] == c
}

/// An occurrence in the tail of a text is an occurrence in the text.
pub proof fn lemma_occurs_in_tail(text: Seq<char>, pat: Seq<char>, from: int)
    requires
        0 <= from <= text.len(),
    ensures
        has_prefix(text.subrange(from, text.len() as int), pat) == occurs_at(text, pat, from),
{
    let tail = text.subrange(from, text.len() as int);
    if from + pat.len() <= text.len() {
        assert(tail.subrange(0, pat.len() as int) =~= text.subrange(from, from + pat.len()));
    }
}

/// No return type at all.
pub open spec fn spec_is_void(t: Seq<char>) -> bool {
    t.len() == 0
}

/// A fallible wrapper: `Result < ..`, behind any leading arrows, or a
/// qualified `.. :: Result < ..` with no `<` before it.
pub open spec fn spec_is_result(t: Seq<char>) -> bool {
    has_prefix(without_leading(t, "-> "@), "Result <"@) || match first_occurrence(
        t,
        ":: Result <"@,
    ) {
        Some(k) => !char_before(t, '<', k),
        None => false,
    }
}

/// `Some(false)` for an owned string, `Some(true)` for a borrowed one.
pub open spec fn spec_is_string(t: Seq<char>) -> Option<bool> {
    if t == "String"@ {
        Some(false)
    } else if t == "& str"@ {
        Some(true)
    } else {
        None
    }
}

/// An optional owned string.
pub open spec fn spec_is_option_string(t: Seq<char>) -> bool {
    t == "Option < String >"@
}

/// A copy-on-write string, with or without a lifetime.
pub open spec fn spec_is_cow_str(t: Seq<char>) -> bool {
    has_prefix(t, "Cow <"@) && has_suffix(t, "str >"@)
}

/// An immutable slice of bytes.
pub open spec fn spec_is_u8_slice(t: Seq<char>) -> bool {
    t == "& [u8]"@
}

/// A mutable slice of bytes.
pub open spec fn spec_is_u8_slice_mut(t: Seq<char>) -> bool {
    t == "& mut [u8]"@
}

/// A mutable slice of 32-bit words.
pub open spec fn spec_is_u32_slice_mut(t: Seq<char>) -> bool {
    t == "& mut [u32]"@
}

/// The slice shape of a type, if it has one.
pub open spec fn spec_is_ref_slice(t: Seq<char>) -> Option<SliceType> {
    if spec_is_u8_slice(t) {
        Some(SliceType::U8)
    } else if spec_is_u8_slice_mut(t) {
        Some(SliceType::U8Mut)
    } else if spec_is_u32_slice_mut(t) {
        Some(SliceType::U32Mut)
    } else {
        None
    }
}

/// A raw pointer to constant bytes.
pub open spec fn spec_is_ptr_u8(t: Seq<char>) -> bool {
    t == "* const u8"@
}

/// The optional callback options that only a fast call has.
pub open spec fn spec_is_optional_fast_callback_option(t: Seq<char>) -> bool {
    has_infix(t, "Option < & mut FastApiCallbackOptions"@)
}

/// The optional view of linear memory that only a fast call has.
pub open spec fn spec_is_optional_wasm_memory(t: Seq<char>) -> bool {
    has_infix(t, "Option < & mut [u8]"@)
}

/// A parameter, or what is written like one, whose type is a resource handle.
pub open spec fn spec_is_resource_id(t: Seq<char>) -> bool {
    spec_found(pattern_found(": (?:deno_core :: )?ResourceId$"@, t))
}

/// A parameter that takes the runtime state exclusively.
pub open spec fn spec_is_mut_ref_opstate(t: Seq<char>) -> bool {
    spec_found(pattern_found(": & mut (?:deno_core :: )?OpState$"@, t))
}

/// A parameter that takes a shared handle to the runtime state.
pub open spec fn spec_is_rc_refcell_opstate(t: Seq<char>) -> bool {
    spec_found(pattern_found(": Rc < RefCell < (?:deno_core :: )?OpState > >$"@, t))
}

/// A parameter that takes the scope, with or without a lifetime.
pub open spec fn spec_is_handle_scope(t: Seq<char>) -> bool {
    spec_found(
        pattern_found(": & mut (?:deno_core :: )?v8 :: HandleScope(?: < '\\w+ >)?$"@, t),
    )
}

/// An unsigned integer of at most 32 bits.
pub open spec fn spec_is_small_unsigned(t: Seq<char>) -> bool {
    t == "u32"@ || t == "u8"@ || t == "u16"@
}

/// A value that can be handed back as an unsigned 32-bit number.
pub open spec fn spec_is_u32_rv(t: Seq<char>) -> bool {
    spec_is_small_unsigned(t) || spec_is_resource_id(t)
}

/// A fallible wrapper round a value that can be handed back as an
/// unsigned 32-bit number.
pub open spec fn spec_is_u32_rv_result(t: Seq<char>) -> bool {
    spec_is_result(t) && (has_infix(t, "Result < u32"@) || has_infix(t, "Result < u8"@)
        || has_infix(t, "Result < u16"@) || spec_is_resource_id(t))
}

/// A fallible wrapper round no value.
pub open spec fn spec_is_unit_result(t: Seq<char>) -> bool {
    spec_is_result(t) && has_infix(t, "Result < ()"@)
}

/// A future written out as the return type.
pub open spec fn spec_is_future(t: Seq<char>) -> bool {
    has_infix(t, "impl Future < Output ="@)
}

/// Whether `c` stands among the first `upto` characters of `text`.
pub fn has_char_before(text: &Vec<char>, c: char, upto: usize) -> (r: bool)
    ensures
        r == char_before(text@, c, upto as int),
{
    let mut i: usize = 0;
    while i < upto && i < text.len()
        invariant
            forall|j: int| 0 <= j < i ==> text@[j] != c,
        decreases text.len() - i,
    {
        if text[i] == c {
            return true;
        }
        i = i + 1;
    }
    false
}

/// Whether the return tokens are empty: the function returns nothing.
pub fn is_void(tokens: &str) -> (r: bool)
    ensures
        r == spec_is_void(tokens@),
{
    tokens.unicode_len() == 0
}

/// Whether the tokens name a fallible wrapper.
pub fn is_result(tokens: &str) -> (r: bool)
    ensures
        r == spec_is_result(tokens@),
{
    let x = chars_of(tokens);
    let arrow = chars_of("-> ");
    let head = chars_of("Result <");
    let at = skip_leading(&x, &arrow);
    proof {
        lemma_occurs_in_tail(x@, head@, at as int);
    }
    if matches_at(&x, &head, at) {
        return true;
    }
    let qualified = chars_of(":: Result <");
    match find_first(&x, &qualified) {
        Some(k) => !has_char_before(&x, '<', k),
        None => false,
    }
}

/// Whether the type is a string: `Some(true)` where it is borrowed.
pub fn is_string(tokens: &str) -> (r: Option<bool>)
    ensures
        r == spec_is_string(tokens@),
{
    if same_text(tokens, "String") {
        Some(false)
    } else if same_text(tokens, "& str") {
        Some(true)
    } else {
        None
    }
}

/// Whether the type is an optional owned string.
pub fn is_option_string(tokens: &str) -> (r: bool)
    ensures
        r == spec_is_option_string(tokens@),
{
    same_text(tokens, "Option < String >")
}

/// Whether the type is a copy-on-write string.
pub fn is_cow_str(tokens: &str) -> (r: bool)
    ensures
        r == spec_is_cow_str(tokens@),
{
    starts_with(tokens, "Cow <") && ends_with(tokens, "str >")
}

/// Tells the slice shape of a type, if it has one.
pub fn is_ref_slice(tokens: &str) -> (r: Option<SliceType>)
    ensures
        r == spec_is_ref_slice(tokens@),
{
    if is_u8_slice(tokens) {
        return Some(SliceType::U8);
    }
    if is_u8_slice_mut(tokens) {
        return Some(SliceType::U8Mut);
    }
    if is_u32_slice_mut(tokens) {
        return Some(SliceType::U32Mut);
    }
    None
}

/// Whether the type is an immutable slice of bytes.
pub fn is_u8_slice(tokens: &str) -> (r: bool)
    ensures
        r == spec_is_u8_slice(tokens@),
{
    same_text(tokens, "& [u8]")
}

/// Whether the type is a mutable slice of bytes.
pub fn is_u8_slice_mut(tokens: &str) -> (r: bool)
    ensures
        r == spec_is_u8_slice_mut(tokens@),
{
    same_text(tokens, "& mut [u8]")
}

/// Whether the type is a mutable slice of 32-bit words.
pub fn is_u32_slice_mut(tokens: &str) -> (r: bool)
    ensures
        r == spec_is_u32_slice_mut(tokens@),
{
    same_text(tokens, "& mut [u32]")
}

/// Whether the type is a raw pointer to constant bytes.
pub fn is_ptr_u8(tokens: &str) -> (r: bool)
    ensures
        r == spec_is_ptr_u8(tokens@),
{
    same_text(tokens, "* const u8")
}

/// Whether the type holds the optional callback options of a fast call.
pub fn is_optional_fast_callback_option(tokens: &str) -> (r: bool)
    ensures
        r == spec_is_optional_fast_callback_option(tokens@),
{
    contains(tokens, "Option < & mut FastApiCallbackOptions")
}

/// Whether the type holds the optional view of linear memory.
pub fn is_optional_wasm_memory(tokens: &str) -> (r: bool)
    ensures
        r == spec_is_optional_wasm_memory(tokens@),
{
    contains(tokens, "Option < & mut [u8]")
}

/// Whether the value can be handed back as an unsigned 32-bit number.
pub fn is_u32_rv(tokens: &str) -> (r: bool)
    ensures
        r == spec_is_u32_rv(tokens@),
{
    same_text(tokens, "u32") || same_text(tokens, "u8") || same_text(tokens, "u16")
        || is_resource_id(tokens)
}

/// Whether the type is a fallible wrapper round such a number.
pub fn is_u32_rv_result(tokens: &str) -> (r: bool)
    ensures
        r == spec_is_u32_rv_result(tokens@),
{
    is_result(tokens) && (contains(tokens, "Result < u32") || contains(tokens, "Result < u8")
        || contains(tokens, "Result < u16") || is_resource_id(tokens))
}

/// Whether the type is a fallible wrapper round no value.
pub fn is_unit_result(tokens: &str) -> (r: bool)
    ensures
        r == spec_is_unit_result(tokens@),
{
    is_result(tokens) && contains(tokens, "Result < ()")
}

/// Whether the parameter's type is a resource handle.
pub fn is_resource_id(tokens: &str) -> (r: bool)
    ensures
        r == spec_is_resource_id(tokens@),
{
    is_match(": (?:deno_core :: )?ResourceId$", tokens)
}

/// Whether the parameter takes the runtime state exclusively.
pub fn is_mut_ref_opstate(tokens: &str) -> (r: bool)
    ensures
        r == spec_is_mut_ref_opstate(tokens@),
{
    is_match(": & mut (?:deno_core :: )?OpState$", tokens)
}

/// Whether the parameter takes a shared handle to the runtime state.
pub fn is_rc_refcell_opstate(tokens: &str) -> (r: bool)
    ensures
        r == spec_is_rc_refcell_opstate(tokens@),
{
    is_match(": Rc < RefCell < (?:deno_core :: )?OpState > >$", tokens)
}

/// Whether the parameter takes the scope.
pub fn is_handle_scope(tokens: &str) -> (r: bool)
    ensures
        r == spec_is_handle_scope(tokens@),
{
    is_match(": & mut (?:deno_core :: )?v8 :: HandleScope(?: < '\\w+ >)?$", tokens)
}

/// Whether the return type is a future written out.
pub fn is_future(tokens: &str) -> (r: bool)
    ensures
        r == spec_is_future(tokens@),
{
    contains(tokens, "impl Future < Output =")
}

} // verus!
