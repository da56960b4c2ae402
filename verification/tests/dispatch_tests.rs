use op_bindings::attrs::Attributes;
use op_bindings::generic_path::{
    codegen_v8_async, codegen_v8_sync, ArgKind, ArgPlan,
};
use op_bindings::binding::GenericPlan;
use op_bindings::marshal::{
    async_call, decode_args, finish_sync, parse_error_message, return_error_message, sync_call,
    AsyncStep,
    CallContext, Decoded, DecodeError, FastAction, HostValue, Outcome, Region, ReturnAction,
    SyncStep, Telemetry,
};
use op_bindings::optimizer::FastReturn;
use op_bindings::text::{digit_text, to_decimal};
use op_bindings::signature::{Param, Signature};
use quote::ToTokens;

fn read(source: &str) -> Signature {
    let sig = syn::parse_str::<syn::ItemFn>(source).expect("a function").sig;
    let text = |t: &dyn ToTokens| t.to_token_stream().to_string();
    Signature {
        name: sig.ident.to_string(),
        asyncness: sig.asyncness.is_some(),
        generics: sig.generics.params.iter().map(|g| text(g)).collect(),
        inputs: sig
            .inputs
            .iter()
            .map(|arg| match arg {
                syn::FnArg::Typed(p) => Param::new(&text(&p.pat), &text(&p.ty)),
                syn::FnArg::Receiver(r) => Param::new(&text(r), ""),
            })
            .collect(),
        output: text(&sig.output),
    }
}

#[test]
fn decimal_digits() {
    assert_eq!(to_decimal(0), "0");
    assert_eq!(to_decimal(7), "7");
    assert_eq!(to_decimal(10), "10");
    assert_eq!(to_decimal(1234567890), "1234567890");
    assert_eq!(to_decimal(usize::MAX), usize::MAX.to_string());
    assert_eq!(digit_text(0), "0");
    assert_eq!(digit_text(9), "9");
}

#[test]
fn messages_name_the_position() {
    assert_eq!(
        DecodeError::ExpectedString { position: 2 }.message(),
        "Expected string at position 2"
    );
    assert_eq!(
        DecodeError::ExpectedBufferView { position: 0 }.message(),
        "Expected ArrayBufferView at position 0"
    );
    assert_eq!(
        DecodeError::ExpectedWordView { position: 13 }.message(),
        "Expected Uint32Array at position 13"
    );
    assert_eq!(DecodeError::InvalidPromiseId.message(), "invalid promise id");
    assert_eq!(
        parse_error_message(4, "invalid type: string, expected u32"),
        "Error parsing args at position 4: invalid type: string, expected u32"
    );
    assert_eq!(return_error_message("too deep"), "Error serializing return: too deep");
}

#[test]
fn all_arguments_are_decoded_in_order() {
    let plans = vec![
        ArgPlan { index: 0, kind: ArgKind::OwnedString },
        ArgPlan { index: 1, kind: ArgKind::ByteSlice { mutable: true } },
        ArgPlan { index: 2, kind: ArgKind::OptionalString },
    ];
    let args = vec![HostValue::Text("a".to_string()), HostValue::Buffer(vec![1, 2])];
    let got = decode_args(&plans, &args).unwrap();
    assert_eq!(got.len(), 3);
    assert!(matches!(&got[0], Decoded::Text(s) if s == "a"));
    assert!(matches!(&got[1], Decoded::Bytes(Region { start: 0, len: 2 })));
    assert!(matches!(&got[2], Decoded::OptionalText(None)));
    assert!(decode_args(&Vec::new(), &args).unwrap().is_empty());
}

#[test]
fn first_argument_that_fails_ends_the_call() {
    let plans = vec![
        ArgPlan { index: 0, kind: ArgKind::OwnedString },
        ArgPlan { index: 1, kind: ArgKind::ByteSlice { mutable: false } },
        ArgPlan { index: 2, kind: ArgKind::BorrowedString },
    ];
    let args = vec![HostValue::Text("a".to_string()), HostValue::Integer(1), HostValue::Other];
    assert_eq!(
        decode_args(&plans, &args).unwrap_err(),
        DecodeError::ExpectedBufferView { position: 1 }
    );
    let short = vec![HostValue::Text("a".to_string()), HostValue::Buffer(Vec::new())];
    assert_eq!(
        decode_args(&plans, &short).unwrap_err(),
        DecodeError::ExpectedString { position: 2 }
    );
}

#[test]
fn sync_call_decodes_then_counts_and_encodes() {
    let f = read("fn op_len(state: &mut OpState, a: String, b: &[u8]) -> Result<u32, AnyError> { x }");
    let (plan, argc) = codegen_v8_sync(&f, Attributes::none(), true);
    assert_eq!(argc, 2);
    assert_eq!(plan.names, vec!["arg_0".to_string(), "arg_1".to_string()]);
    let mut ctx = CallContext::new(3);
    let args = vec![HostValue::Text("abc".to_string()), HostValue::Buffer(vec![0; 4])];
    match sync_call(&mut ctx, &plan, &args) {
        SyncStep::Invoke(v) => assert_eq!(v.len(), 2),
        other => panic!("not invoked: {:?}", other),
    }
    assert_eq!(
        finish_sync(&ctx, &plan, Outcome::Value(4)),
        (Telemetry::SyncCall { op_id: 3 }, ReturnAction::SetNumber(4))
    );
    assert_eq!(
        finish_sync(&ctx, &plan, Outcome::Failure),
        (Telemetry::SyncCall { op_id: 3 }, ReturnAction::Throw)
    );
    match sync_call(&mut ctx, &plan, &vec![HostValue::Integer(1)]) {
        SyncStep::Refuse(e) => assert_eq!(e, DecodeError::ExpectedString { position: 0 }),
        other => panic!("not refused: {:?}", other),
    }
}

#[test]
fn sync_call_raises_the_error_of_a_fast_call_first() {
    let f = read("fn op_len(a: String) -> Result<u32, AnyError> { x }");
    let (plan, _) = codegen_v8_sync(&f, Attributes::none(), true);
    let mut ctx = CallContext::new(3);
    ctx.stash("bad resource".to_string());
    match sync_call(&mut ctx, &plan, &vec![HostValue::Integer(1)]) {
        SyncStep::Raise(e) => assert_eq!(e, "bad resource"),
        other => panic!("not raised: {:?}", other),
    }
    assert_eq!(ctx.last_fast_op_error, None);
    match sync_call(&mut ctx, &plan, &vec![HostValue::Text("x".to_string())]) {
        SyncStep::Invoke(v) => assert_eq!(v.len(), 1),
        other => panic!("not invoked: {:?}", other),
    }
    let (plain, _) = codegen_v8_sync(&f, Attributes::none(), false);
    ctx.stash("kept".to_string());
    match sync_call(&mut ctx, &plain, &vec![HostValue::Text("x".to_string())]) {
        SyncStep::Invoke(v) => assert_eq!(v.len(), 1),
        other => panic!("not invoked: {:?}", other),
    }
    assert_eq!(ctx.last_fast_op_error, Some("kept".to_string()));
}

#[test]
fn async_call_reads_the_promise_id_first() {
    let f = read("async fn op_sleep(state: Rc<RefCell<OpState>>, name: String) -> Result<(), AnyError> { x }");
    let (plan, argc) = codegen_v8_async(&f, Attributes::none(), true, false);
    assert_eq!(argc, 1);
    let ctx = CallContext::new(8);
    let args = vec![HostValue::Integer(77), HostValue::Text("t".to_string())];
    match async_call(&ctx, &plan, &args) {
        AsyncStep::Invoke { promise_id, args, telemetry } => {
            assert_eq!(promise_id, 77);
            assert_eq!(args.len(), 1);
            assert!(matches!(&args[0], Decoded::Text(s) if s == "t"));
            assert_eq!(telemetry, Telemetry::AsyncCall { op_id: 8 });
        }
        other => panic!("not invoked: {:?}", other),
    }
    let no_id = vec![HostValue::Text("77".to_string()), HostValue::Integer(1)];
    match async_call(&ctx, &plan, &no_id) {
        AsyncStep::Refuse(e) => assert_eq!(e, DecodeError::InvalidPromiseId),
        other => panic!("not refused: {:?}", other),
    }
    match async_call(&ctx, &plan, &Vec::new()) {
        AsyncStep::Refuse(e) => assert_eq!(e, DecodeError::InvalidPromiseId),
        other => panic!("not refused: {:?}", other),
    }
    match async_call(&ctx, &plan, &vec![HostValue::Integer(1)]) {
        AsyncStep::Refuse(e) => assert_eq!(e, DecodeError::ExpectedString { position: 1 }),
        other => panic!("not refused: {:?}", other),
    }
}

#[test]
fn failed_fast_call_falls_back_to_the_generic_entry() {
    let d = op_bindings::binding::op(
        &Vec::new(),
        read("fn op_len(state: &mut OpState, a: u32) -> Result<u32, AnyError> { x }"),
    )
    .unwrap();
    assert_eq!(d.name(), "op_len");
    assert_eq!(d.arity(), 1);
    assert!(d.has_fast_entry());
    let fast = d.fast.as_ref().unwrap();
    let mut ctx = CallContext::new(2);
    assert_eq!(ctx.fast_finish(fast, None), FastAction::Return(FastReturn::Number));
    assert_eq!(ctx.last_fast_op_error, None);
    assert_eq!(ctx.fast_finish(fast, Some("closed".to_string())), FastAction::Fallback);
    assert_eq!(ctx.last_fast_op_error, Some("closed".to_string()));
    match &d.generic {
        GenericPlan::Sync(plan) => {
            match sync_call(&mut ctx, plan, &vec![HostValue::Integer(1)]) {
                SyncStep::Raise(e) => assert_eq!(e, "closed"),
                other => panic!("not raised: {:?}", other),
            }
            match sync_call(&mut ctx, plan, &vec![HostValue::Integer(1)]) {
                SyncStep::Invoke(v) => assert_eq!(v.len(), 1),
                other => panic!("not invoked: {:?}", other),
            }
        }
        GenericPlan::Async(_) => panic!("a sync function"),
    }
}

#[test]
fn sole_byte_slice_parameter_views_the_exact_region() {
    let d = op_bindings::binding::op(&Vec::new(), read("fn op_sum(data: &[u8]) -> u32 { 0 }"))
        .unwrap();
    let plan = match d.generic {
        GenericPlan::Sync(plan) => plan,
        GenericPlan::Async(_) => panic!("a sync function"),
    };
    assert_eq!(plan.args, vec![ArgPlan { index: 0, kind: ArgKind::ByteSlice { mutable: false } }]);
    let mut ctx = CallContext::new(0);
    for len in [0usize, 1, 64] {
        match sync_call(&mut ctx, &plan, &vec![HostValue::Buffer(vec![7; len])]) {
            SyncStep::Invoke(v) => {
                assert!(matches!(&v[0], Decoded::Bytes(r) if *r == Region { start: 0, len }))
            }
            other => panic!("not invoked: {:?}", other),
        }
    }
    let view = HostValue::View { buffer: Some(vec![7; 64]), offset: 16, length: 32 };
    match sync_call(&mut ctx, &plan, &vec![view]) {
        SyncStep::Invoke(v) => {
            assert!(matches!(&v[0], Decoded::Bytes(r) if *r == Region { start: 16, len: 32 }))
        }
        other => panic!("not invoked: {:?}", other),
    }
}
