use duktape_rs::stack::{CallBlock, Op};
use duktape_rs::{Context, Number};

fn test_context() -> Context {
    Context::new(0x1000).expect("nonzero handle must construct")
}

#[test]
fn test_create_context() {
    assert!(Context::new(0x2000).is_ok());
    assert!(Context::new(0).is_err());
}

#[test]
fn block_counts_pushes_and_close_pops_them_all() {
    let ctx = test_context();
    let mut cb = ctx.open_block();
    let op = cb.push_lstring("hello");
    assert_eq!(op, Op::PushLString(String::from("hello")));
    assert_eq!(cb.push_boolean(true), Op::PushBoolean(true));
    assert_eq!(cb.push_number(Number::Int(3)), Op::PushNumber(Number::Int(3)));
    assert_eq!(cb.push_undefined(), Op::PushUndefined);
    assert_eq!(cb.push_null(), Op::PushNull);
    assert_eq!(cb.push_nan(), Op::PushNaN);
    // Six slots were pushed; the close pops exactly six.
    assert_eq!(cb.close(), Op::PopN(6));
    // A closed block has nothing left to pop.
    assert_eq!(cb.close(), Op::PopN(0));
}

#[test]
fn close_pops_remaining_slots_after_partial_pop() {
    let ctx = test_context();
    let mut cb = ctx.open_block();
    cb.push_null();
    cb.push_null();
    cb.push_null();
    assert_eq!(cb.pop(), Op::Pop);
    assert_eq!(cb.close(), Op::PopN(2));
}

#[test]
fn validate_stack_idx_bounds() {
    let ctx = test_context();
    let mut cb = ctx.open_block();
    assert!(cb.validate_stack_idx(0).is_ok());
    assert!(cb.validate_stack_idx(-1).is_err());
    assert!(cb.validate_stack_idx(1).is_err());
    cb.push_boolean(false);
    cb.push_boolean(true);
    assert!(cb.validate_stack_idx(-1).is_ok());
    assert!(cb.validate_stack_idx(-2).is_ok());
    assert!(cb.validate_stack_idx(2).is_ok());
    assert!(cb.validate_stack_idx(-3).is_err());
    assert!(cb.validate_stack_idx(3).is_err());
    assert!(cb.validate_stack_idx(i32::MIN).is_err());
}

#[test]
fn validated_emitters_respect_bounds() {
    let ctx = test_context();
    let mut cb = ctx.open_block();
    assert!(cb.dup(-1).is_err());
    assert!(cb.json_decode(-1).is_err());
    cb.push_lstring("{}");
    assert_eq!(cb.dup(-1).unwrap(), Op::Dup(-1));
    assert_eq!(cb.json_decode(-1).unwrap(), Op::JsonDecode(-1));
    assert_eq!(cb.json_encode(-1).unwrap(), Op::JsonEncode(-1));
    assert_eq!(cb.is_undefined(-1).unwrap(), Op::IsUndefined(-1));
    assert_eq!(cb.is_null(-1).unwrap(), Op::IsNull(-1));
    assert_eq!(cb.is_object(-1).unwrap(), Op::IsObject(-1));
    assert_eq!(cb.to_string(-1).unwrap(), Op::ToString(-1));
    // dup tracked one more slot above: 2 tracked now.
    assert_eq!(cb.close(), Op::PopN(2));
}

#[test]
fn property_write_primitive_consumes_value_slot() {
    let ctx = test_context();
    let mut cb = ctx.open_block();
    cb.push_heapptr(0xBEEF);
    cb.push_lstring("value");
    let op = cb.put_prop_lstring(-2, "name");
    assert_eq!(op, Op::PutPropLString(-2, String::from("name")));
    // The write consumed the value slot; only the object slot remains.
    assert_eq!(cb.close(), Op::PopN(1));
}

#[test]
fn put_prop_outcome_mirrors_engine_report() {
    assert!(CallBlock::put_prop_outcome(1).is_ok());
    let e = CallBlock::put_prop_outcome(0).unwrap_err();
    assert_eq!(e.message.as_deref(), Some("Failed to set property."));
}
