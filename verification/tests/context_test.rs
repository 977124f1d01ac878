use duktape_rs::context::{
    TopReading, TYPE_CODE_BOOLEAN, TYPE_CODE_NONE, TYPE_CODE_NULL, TYPE_CODE_NUMBER,
    TYPE_CODE_OBJECT, TYPE_CODE_STRING, TYPE_CODE_UNDEFINED,
};
use duktape_rs::stack::{CallBlock, Op};
use duktape_rs::{Context, DukErrorCode, Number, Object, Value};

fn test_context() -> Context {
    Context::new(0x1000).expect("nonzero handle must construct")
}

/// Obtain an object handle the way an evaluation would: read an
/// object-typed top slot, which anchors the identity in the registry.
fn handle_with_identity(ctx: &Context, identity: u64) -> Object {
    let mut cb = ctx.open_block();
    cb.push_heapptr(identity);
    let (value, _anchor) = cb.read_top(TYPE_CODE_OBJECT, TopReading::Ptr(identity));
    cb.close();
    value.try_into_object().expect("an object reading yields an object value")
}

#[test]
fn eval_dialogue_success_path() {
    let ctx = test_context();
    let (mut cb, op) = ctx.eval_string("5+5");
    assert_eq!(op, Op::EvalString(String::from("5+5")));
    // Engine reports success; the top slot is a number.
    assert_eq!(cb.get_type(-1), Op::GetType(-1));
    assert_eq!(cb.read_request(TYPE_CODE_NUMBER), Some(Op::GetNumberBits(-1)));
    let (value, anchor) = cb.read_top(TYPE_CODE_NUMBER, TopReading::Bits((10.0f64).to_bits()));
    assert!(anchor.is_empty());
    assert!(matches!(value, Value::Number(Number::Int(10))));
    // One slot was pushed by the evaluation; the close pops exactly it.
    assert_eq!(cb.close(), Op::PopN(1));

    let (mut cb2, _op) = ctx.eval_string("10+5");
    let (value2, _anchor) = cb2.read_top(TYPE_CODE_NUMBER, TopReading::Bits((15.0f64).to_bits()));
    assert!(matches!(value2, Value::Number(Number::Int(15))));
    assert_eq!(cb2.close(), Op::PopN(1));
}

#[test]
fn eval_dialogue_string_and_boolean_results() {
    let ctx = test_context();
    let (mut cb, _op) = ctx.eval_string("'something'.toUpperCase()");
    let (value, _anchor) =
        cb.read_top(TYPE_CODE_STRING, TopReading::Text(String::from("SOMETHING")));
    match value {
        Value::String(s) => assert_eq!(s.as_str(), "SOMETHING"),
        other => panic!("expected a string value, got {:?}", other),
    }
    assert_eq!(cb.close(), Op::PopN(1));

    let (mut cb2, _op2) = ctx.eval_string("true");
    let (value2, _anchor2) = cb2.read_top(TYPE_CODE_BOOLEAN, TopReading::Flag(true));
    assert!(matches!(value2, Value::Boolean(true)));
    assert_eq!(cb2.close(), Op::PopN(1));
}

#[test]
fn eval_dialogue_failure_path() {
    let ctx = test_context();
    let (mut cb, _op) = ctx.eval_string("((((");
    // Engine reports failure: read the error code and the diagnostic.
    let (code_op, prop_op) = ctx.eval_string_error(&mut cb);
    assert_eq!(code_op, Op::GetErrorCode(-1));
    assert_eq!(prop_op, Op::GetPropLString(-1, String::from("stack")));
    let (diag, _anchor) = cb.read_top(
        TYPE_CODE_STRING,
        TopReading::Text(String::from("SyntaxError: unterminated paren")),
    );
    let outcome = Context::eval_string_outcome(5, diag);
    let e = outcome.unwrap_err();
    assert_eq!(e.code, DukErrorCode::Syntax);
    let message = e.message.expect("diagnostic text is carried");
    assert!(!message.is_empty());
    assert_eq!(message.as_str(), "SyntaxError: unterminated paren");
    // The exception object and the fetched property both unwind: the
    // context's stack is exactly as deep as before the call.
    assert_eq!(cb.close(), Op::PopN(2));
}

#[test]
fn eval_outcome_of_unknown_code_degrades() {
    let e = Context::eval_string_outcome(42, Value::String(String::from("weird")))
        .unwrap_err();
    assert_eq!(e.code, DukErrorCode::Error);
    assert_eq!(e.message.as_deref(), Some("weird"));
}

#[test]
fn decode_json_dialogue() {
    let ctx = test_context();
    let (mut cb, push_op, decode_op) = ctx.decode_json("{\"ok\":true}");
    assert_eq!(push_op, Op::PushLString(String::from("{\"ok\":true}")));
    assert_eq!(decode_op, Op::JsonDecode(-1));
    let (value, _anchor) = cb.read_top(TYPE_CODE_OBJECT, TopReading::Ptr(0xAB));
    assert!(matches!(value, Value::Object(_)));
    assert_eq!(cb.close(), Op::PopN(1));
}

#[test]
fn read_top_maps_every_type_code() {
    let ctx = test_context();
    let mut cb = ctx.open_block();
    cb.push_null();
    let (v, _) = cb.read_top(TYPE_CODE_NONE, TopReading::Nothing);
    assert!(matches!(v, Value::Null));
    let (v, _) = cb.read_top(TYPE_CODE_UNDEFINED, TopReading::Nothing);
    assert!(matches!(v, Value::Undefined));
    let (v, _) = cb.read_top(TYPE_CODE_NULL, TopReading::Nothing);
    assert!(matches!(v, Value::Null));
    let (v, _) = cb.read_top(TYPE_CODE_BOOLEAN, TopReading::Flag(false));
    assert!(matches!(v, Value::Boolean(false)));
    let (v, _) = cb.read_top(TYPE_CODE_NUMBER, TopReading::Bits((2.01f64).to_bits()));
    assert!(matches!(v, Value::Number(Number::Float(_))));
    let (v, _) = cb.read_top(TYPE_CODE_STRING, TopReading::Text(String::from("thing")));
    assert!(matches!(v, Value::String(_)));
    // An unrecognized type code falls back to the undefined value.
    let (v, _) = cb.read_top(9, TopReading::Nothing);
    assert!(matches!(v, Value::Undefined));
    cb.close();
}

#[test]
fn read_top_anchor_script_is_stack_neutral() {
    let ctx = test_context();
    let mut cb = ctx.open_block();
    cb.push_heapptr(0xCAFE);
    let (value, anchor) = cb.read_top(TYPE_CODE_OBJECT, TopReading::Ptr(0xCAFE));
    assert!(matches!(value, Value::Object(_)));
    assert_eq!(
        anchor,
        vec![
            Op::PushHeapStash,
            Op::PushPointer(0xCAFE),
            Op::Dup(-3),
            Op::PutProp(-3),
            Op::Pop,
        ]
    );
    // The anchoring pushes and pops in balance: still one tracked slot.
    assert_eq!(cb.close(), Op::PopN(1));
}

#[test]
fn object_get_dialogue() {
    let ctx = test_context();
    let obj = handle_with_identity(&ctx, 0xAB);
    let mut cb = ctx.open_block();
    let (push_op, prop_op) = obj.get(&mut cb, "ok");
    assert_eq!(push_op, Op::PushHeapPtr(0xAB));
    assert_eq!(prop_op, Op::GetPropLString(-1, String::from("ok")));
    let (value, _anchor) = cb.read_top(TYPE_CODE_BOOLEAN, TopReading::Flag(false));
    let outcome = Object::get_outcome(1, value);
    assert!(matches!(outcome, Ok(Value::Boolean(false))));
    assert_eq!(cb.close(), Op::PopN(2));
}

#[test]
fn object_get_failure_is_a_generic_error() {
    let e = Object::get_outcome(0, Value::Undefined).unwrap_err();
    assert_eq!(e.code, DukErrorCode::Error);
    assert_eq!(e.message.as_deref(), Some("Could not get property."));
}

#[test]
fn object_set_dialogue() {
    let ctx = test_context();
    let obj = handle_with_identity(&ctx, 0xAB);
    let mut cb = ctx.open_block();
    let (push_op, check_op) = obj.set(&mut cb);
    assert_eq!(push_op, Op::PushHeapPtr(0xAB));
    assert_eq!(check_op, Op::IsUndefined(-1));
    // The engine reports the target as live; marshal a boolean.
    let (value_op, extra) =
        obj.set_value(&mut cb, false, &Value::Boolean(true)).expect("live target accepts");
    assert_eq!(value_op, Op::PushBoolean(true));
    assert!(extra.is_none());
    let put_op = obj.set_put(&mut cb, "ok");
    assert_eq!(put_op, Op::PutPropLString(-2, String::from("ok")));
    assert!(CallBlock::put_prop_outcome(1).is_ok());
    // Handle slot remains; the value slot was consumed by the write.
    assert_eq!(cb.close(), Op::PopN(1));
}

#[test]
fn set_marshals_every_variant() {
    let ctx = test_context();
    let obj = handle_with_identity(&ctx, 0xAB);
    let other = handle_with_identity(&ctx, 0xCD);
    let mut cb = ctx.open_block();
    obj.set(&mut cb);
    let (op, extra) = obj.set_value(&mut cb, false, &Value::Undefined).unwrap();
    assert_eq!((op, extra), (Op::PushUndefined, None));
    let (op, extra) = obj.set_value(&mut cb, false, &Value::Null).unwrap();
    assert_eq!((op, extra), (Op::PushNull, None));
    // NaN goes through the engine's NaN sentinel, which its JSON encoder
    // degrades to null rather than crashing.
    let (op, extra) = obj.set_value(&mut cb, false, &Value::Number(Number::NaN)).unwrap();
    assert_eq!((op, extra), (Op::PushNaN, None));
    // Infinity is written as the literal text `Infinity`: a deliberate,
    // lossy approximation.
    let (op, extra) = obj.set_value(&mut cb, false, &Value::Number(Number::Infinity)).unwrap();
    assert_eq!((op, extra), (Op::PushLString(String::from("Infinity")), None));
    let (op, extra) = obj.set_value(&mut cb, false, &Value::Number(Number::Int(2))).unwrap();
    assert_eq!((op, extra), (Op::PushNumber(Number::Int(2)), None));
    let bits = (2.01f64).to_bits();
    let (op, extra) =
        obj.set_value(&mut cb, false, &Value::Number(Number::Float(bits))).unwrap();
    assert_eq!((op, extra), (Op::PushNumber(Number::Float(bits)), None));
    let (op, extra) =
        obj.set_value(&mut cb, false, &Value::String(String::from("name"))).unwrap();
    assert_eq!((op, extra), (Op::PushLString(String::from("name")), None));
    // A written object value is re-pushed by identity and then checked.
    let (op, extra) = obj.set_value(&mut cb, false, &Value::Object(other)).unwrap();
    assert_eq!(op, Op::PushHeapPtr(0xCD));
    assert_eq!(extra, Some(Op::IsUndefined(-1)));
}

#[test]
fn object_encode_dialogue() {
    let ctx = test_context();
    let obj = handle_with_identity(&ctx, 0xAB);
    let mut cb = ctx.open_block();
    let (push_op, check_op) = obj.encode(&mut cb);
    assert_eq!(push_op, Op::PushHeapPtr(0xAB));
    assert_eq!(check_op, Op::IsUndefined(-1));
    let ops = obj.encode_continue(&mut cb, false).expect("live handle encodes");
    assert_eq!(ops, (Op::Dup(-1), Op::JsonEncode(-1)));
    // The duplicate was encoded in place; both slots unwind.
    assert_eq!(cb.close(), Op::PopN(2));
}

#[test]
fn released_handle_operations_fail() {
    // Two handles were independently obtained for the same underlying
    // engine object, and one was released: its registry anchor is gone, so
    // the engine reports the identity as unresolvable. The policy pinned
    // here: encode yields the empty outcome, a property write is the
    // null-reference error, and a property read is the generic error.
    let ctx = test_context();
    let first = handle_with_identity(&ctx, 0xAB);
    let second = handle_with_identity(&ctx, 0xAB);
    let mut cb = ctx.open_block();
    let release_ops = first.release(&mut cb);
    assert_eq!(
        release_ops,
        vec![Op::PushHeapStash, Op::PushPointer(0xAB), Op::DelProp(-2), Op::Pop]
    );
    // Releasing is stack-neutral by itself.
    assert_eq!(cb.close(), Op::PopN(0));

    let mut cb2 = ctx.open_block();
    second.set(&mut cb2);
    // The engine now reports the re-pushed identity as undefined.
    let e = second.set_value(&mut cb2, true, &Value::Boolean(true)).unwrap_err();
    assert_eq!(e.code, DukErrorCode::NullPtr);
    assert_eq!(
        e.message.as_deref(),
        Some("Invalid heap pointer, cannot set property on an undefined object.")
    );
    assert!(second.encode_continue(&mut cb2, true).is_none());
    assert!(Object::set_object_check(true).is_err());
    assert_eq!(cb2.close(), Op::PopN(1));
}

#[test]
fn value_conversions() {
    assert_eq!(Value::Boolean(true).try_into_bool().unwrap(), true);
    assert!(Value::Null.try_into_bool().is_err());
    assert_eq!(Value::Undefined.try_into_string().unwrap().as_str(), "undefined");
    assert_eq!(Value::Null.try_into_string().unwrap().as_str(), "null");
    assert_eq!(Value::Boolean(false).try_into_string().unwrap().as_str(), "false");
    assert_eq!(
        Value::String(String::from("text")).try_into_string().unwrap().as_str(),
        "text"
    );
    assert_eq!(Value::Number(Number::Int(12)).try_into_string().unwrap().as_str(), "12");
    assert_eq!(Value::Number(Number::NaN).try_into_string().unwrap().as_str(), "NaN");
    assert_eq!(Value::from(true).try_into_bool().unwrap(), true);
    assert!(matches!(Value::from(5i64), Value::Number(Number::Int(5))));
    assert!(matches!(Value::from("abc"), Value::String(_)));
    assert!(matches!(Value::from(String::from("abc")), Value::String(_)));
    assert_eq!(Value::Number(Number::Int(9)).to_number(), Number::Int(9));
    assert_eq!(Value::Undefined.to_number(), Number::NaN);
    assert_eq!(Value::Number(Number::Infinity).to_i64(), i64::MAX);
    assert_eq!(Value::Null.to_i64(), 0);
}
