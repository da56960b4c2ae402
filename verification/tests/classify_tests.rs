use op_bindings::classify::{
    is_cow_str, is_future, is_handle_scope, is_mut_ref_opstate, is_option_string,
    is_optional_fast_callback_option, is_optional_wasm_memory, is_ptr_u8, is_rc_refcell_opstate,
    is_ref_slice, is_resource_id, is_result, is_string, is_u32_rv, is_u32_rv_result,
    is_u32_slice_mut, is_u8_slice, is_u8_slice_mut, is_unit_result, is_void, SliceType,
};
use op_bindings::pattern::{found, is_match};
use op_bindings::text::{
    chars_of, contains, ends_with, find_first, matches_at, same_text, skip_leading, starts_with,
};

#[test]
fn text_prefix_suffix_infix() {
    assert!(starts_with("Cow < 'a , str >", "Cow <"));
    assert!(!starts_with("Co", "Cow <"));
    assert!(ends_with("Cow < 'a , str >", "str >"));
    assert!(!ends_with("r >", "str >"));
    assert!(contains("-> Result < () , Error >", "Result < ()"));
    assert!(!contains("-> Result < u32 , Error >", "Result < ()"));
    assert!(contains("abc", ""));
    assert!(starts_with("", ""));
    assert!(same_text("& [u8]", "& [u8]"));
    assert!(!same_text("& [u8]", "& [u8] "));
    assert!(!same_text("& [u8]", "& [u9]"));
}

#[test]
fn text_positions_count_characters() {
    let text = chars_of("é :: Result < u8 >");
    let pat = chars_of(":: Result <");
    assert_eq!(find_first(&text, &pat), Some(2));
    assert!(matches_at(&text, &pat, 2));
    assert!(!matches_at(&text, &pat, 3));
    assert_eq!(find_first(&chars_of("abab"), &chars_of("ab")), Some(0));
    assert_eq!(find_first(&chars_of("abab"), &chars_of("ba")), Some(1));
    assert_eq!(find_first(&chars_of("ab"), &chars_of("abc")), None);
    assert_eq!(find_first(&chars_of("ab"), &chars_of("")), Some(0));
}

#[test]
fn text_skips_every_leading_repetition() {
    assert_eq!(skip_leading(&chars_of("-> -> u32"), &chars_of("-> ")), 6);
    assert_eq!(skip_leading(&chars_of("u32"), &chars_of("-> ")), 0);
    assert_eq!(skip_leading(&chars_of("-> "), &chars_of("-> ")), 3);
    assert_eq!(skip_leading(&chars_of("abc"), &chars_of("")), 0);
}

#[test]
fn pattern_search_runs_the_expression() {
    assert!(is_match("a+b$", "xaab"));
    assert!(!is_match("a+b$", "a+b$"));
    assert!(!is_match("a+b$", "xaabc"));
    assert!(!is_match("(", "("));
    assert!(found(Some(true)));
    assert!(!found(Some(false)));
    assert!(!found(None));
}

#[test]
fn void_is_the_empty_output() {
    assert!(is_void(""));
    assert!(!is_void("-> ()"));
}

#[test]
fn result_shapes() {
    assert!(is_result("-> Result < u32 , AnyError >"));
    assert!(is_result("Result < () , Error >"));
    assert!(is_result("-> io :: Result < u32 >"));
    assert!(is_result("-> anyhow :: Result < Vec < u8 > >"));
    assert!(!is_result("-> Option < io :: Result < u32 > >"));
    assert!(!is_result("-> u32"));
    assert!(!is_result("-> MyResult < u32 >"));
    assert!(!is_result(""));
}

#[test]
fn string_shapes() {
    assert_eq!(is_string("String"), Some(false));
    assert_eq!(is_string("& str"), Some(true));
    assert_eq!(is_string("& String"), None);
    assert!(is_option_string("Option < String >"));
    assert!(!is_option_string("Option < & str >"));
    assert!(is_cow_str("Cow < 'a , str >"));
    assert!(is_cow_str("Cow < str >"));
    assert!(!is_cow_str("Cow < [u8] >"));
    assert!(!is_cow_str("std :: borrow :: Cow < str >"));
}

#[test]
fn slice_and_pointer_shapes() {
    assert_eq!(is_ref_slice("& [u8]"), Some(SliceType::U8));
    assert_eq!(is_ref_slice("& mut [u8]"), Some(SliceType::U8Mut));
    assert_eq!(is_ref_slice("& mut [u32]"), Some(SliceType::U32Mut));
    assert_eq!(is_ref_slice("& [u32]"), None);
    assert!(is_u8_slice("& [u8]"));
    assert!(!is_u8_slice("& mut [u8]"));
    assert!(is_u8_slice_mut("& mut [u8]"));
    assert!(is_u32_slice_mut("& mut [u32]"));
    assert!(is_ptr_u8("* const u8"));
    assert!(!is_ptr_u8("* mut u8"));
    assert!(is_optional_fast_callback_option("Option < & mut FastApiCallbackOptions >"));
    assert!(!is_optional_fast_callback_option("& mut FastApiCallbackOptions"));
    assert!(is_optional_wasm_memory("Option < & mut [u8] >"));
    assert!(!is_optional_wasm_memory("& mut [u8]"));
}

#[test]
fn numeric_return_shapes() {
    assert!(is_u32_rv("u32"));
    assert!(is_u32_rv("u8"));
    assert!(is_u32_rv("u16"));
    assert!(!is_u32_rv("u64"));
    assert!(is_u32_rv("rid : ResourceId"));
    assert!(is_u32_rv_result("-> Result < u32 , AnyError >"));
    assert!(is_u32_rv_result("-> Result < u16 , AnyError >"));
    assert!(!is_u32_rv_result("-> Result < String , AnyError >"));
    assert!(!is_u32_rv_result("-> Option < Result < u32 , E > >"));
    assert!(is_unit_result("-> Result < () , AnyError >"));
    assert!(!is_unit_result("-> Result < u32 , AnyError >"));
    assert!(is_future("-> impl Future < Output = Result < u32 , AnyError > >"));
    assert!(!is_future("-> Result < u32 , AnyError >"));
}

#[test]
fn special_argument_shapes() {
    assert!(is_resource_id("rid : ResourceId"));
    assert!(is_resource_id("rid : deno_core :: ResourceId"));
    assert!(!is_resource_id("rid : u32"));
    assert!(!is_resource_id("ResourceId"));
    assert!(is_mut_ref_opstate("state : & mut OpState"));
    assert!(is_mut_ref_opstate("state : & mut deno_core :: OpState"));
    assert!(!is_mut_ref_opstate("state : & OpState"));
    assert!(is_rc_refcell_opstate("state : Rc < RefCell < OpState > >"));
    assert!(is_rc_refcell_opstate("state : Rc < RefCell < deno_core :: OpState > >"));
    assert!(!is_rc_refcell_opstate("state : Rc < OpState >"));
    assert!(is_handle_scope("scope : & mut v8 :: HandleScope"));
    assert!(is_handle_scope("scope : & mut deno_core :: v8 :: HandleScope"));
    assert!(is_handle_scope("scope : & mut v8 :: HandleScope < 'a >"));
    assert!(!is_handle_scope("scope : & mut v8 :: HandleScope < 'a > x"));
    assert!(!is_handle_scope("scope : & v8 :: HandleScope"));
}
