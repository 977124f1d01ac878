//! The engine context and the object handles anchored in it, together with
//! the decision logic of every engine operation.
//!
//! A [`Context`] owns one engine heap, identified by the nonzero handle the
//! engine's allocator returned. The operations on it (evaluate source,
//! decode JSON) and on the objects anchored in it (get, set, encode) are
//! dialogues with the engine: the verified functions here open a
//! [`CallBlock`], decide which primitives to issue and in which order, and
//! turn the engine's replies — passed back in as plain values — into the
//! operation's outcome. An unverified host loop executes each issued
//! [`Op`] against the real engine and reports what came back.

use vstd::prelude::*;

verus! {

use crate::error::category_of_raw;
use crate::error::DukError;
use crate::error::DukErrorCode;
use crate::number::classified_number;
use crate::number::Number;
use crate::stack::CallBlock;
use crate::stack::Op;
use crate::types::value_text;
use crate::types::Value;
use crate::DukResult;

/// Engine type code for an empty or invalid slot.
pub const TYPE_CODE_NONE: u32 = 0;

/// Engine type code for the undefined value.
pub const TYPE_CODE_UNDEFINED: u32 = 1;

/// Engine type code for the null value.
pub const TYPE_CODE_NULL: u32 = 2;

/// Engine type code for a boolean.
pub const TYPE_CODE_BOOLEAN: u32 = 3;

/// Engine type code for a number.
pub const TYPE_CODE_NUMBER: u32 = 4;

/// Engine type code for a string.
pub const TYPE_CODE_STRING: u32 = 5;

/// Engine type code for an object.
pub const TYPE_CODE_OBJECT: u32 = 6;

/// Owner of one engine heap: holds the nonzero handle the engine's
/// allocator returned for it.
pub struct Context {
    handle: u64,
}

impl Context {
    /// The identity of the heap this context owns.
    pub closed spec fn id(&self) -> u64 {
        self.handle
    }

    /// A context is well formed when it holds a live, nonzero heap handle.
    pub open spec fn wf(&self) -> bool {
        self.id() != 0
    }

    /// The raw heap handle, for tying call blocks to their context.
    pub fn raw_id(&self) -> (h: u64)
        ensures
            h == self.id(),
    {
        self.handle
    }

    /// Adopt the handle the engine's allocator returned for a new heap.
    ///
    /// The allocator reports failure by returning the null handle; in that
    /// case construction fails, and succeeds otherwise.
    pub fn new(raw_handle: u64) -> (r: DukResult<Context>)
        ensures
            r matches Ok(c) ==> c.wf() && c.id() == raw_handle,
            r is Ok <==> raw_handle != 0,
            r matches Err(e) ==> e.code == DukErrorCode::Error && (e.message matches Some(m)
                && m@ == "Could not create context"@),
    {
        if raw_handle != 0 {
            Ok(Context { handle: raw_handle })
        } else {
            Err(DukError::from_str("Could not create context"))
        }
    }

    /// Open a call block on this context.
    pub fn open_block(&self) -> (cb: CallBlock)
        ensures
            cb.wf(),
            cb.ctx_id() == self.id(),
            cb.slots() == 0,
            cb.ops() == Seq::<Op>::empty(),
    {
        CallBlock::from(self)
    }

    /// Begin evaluating source text against this heap: open a call block
    /// and issue the compile-and-run primitive, which leaves one slot (the
    /// result, or the exception object on failure).
    ///
    /// The host loop runs the primitive and reports the engine's status.
    /// On success the result is read from the top slot
    /// ([`CallBlock::read_top`]) and is the outcome; on failure the
    /// dialogue continues with [`Context::eval_string_error`]. Either way
    /// the block is then closed, which restores the stack.
    pub fn eval_string(&self, code: &str) -> (r: (CallBlock, Op))
        ensures
            r.0.wf(),
            r.0.ctx_id() == self.id(),
            r.0.slots() == 1,
            r.1 matches Op::EvalString(c) && c@ == code@,
            r.0.ops() == seq![r.1],
    {
        let mut cb = self.open_block();
        let op = cb.eval_string(code);
        proof {
            assert(cb.ops() =~= seq![op]);
        }
        (cb, op)
    }

    /// Continue a failed evaluation: the exception object is in the top
    /// slot; read its error code and push its diagnostic `stack` property
    /// (one more slot). The property's value is then read from the top
    /// slot, and [`Context::eval_string_outcome`] builds the error.
    pub fn eval_string_error(&self, cb: &mut CallBlock) -> (ops: (Op, Op))
        requires
            old(cb).wf(),
            old(cb).ctx_id() == self.id(),
            old(cb).slots() >= 1,
            old(cb).slots() < u32::MAX,
        ensures
            final(cb).wf(),
            final(cb).ctx_id() == old(cb).ctx_id(),
            final(cb).slots() == old(cb).slots() + 1,
            ops.0 == Op::GetErrorCode(-1i32),
            ops.1 matches Op::GetPropLString(i, n) && i == -1i32 && n@ == "stack"@,
            final(cb).ops() == old(cb).ops().push(ops.0).push(ops.1),
    {
        let o1 = cb.get_error_code();
        let o2 = cb.get_prop_lstring(-1, "stack");
        (o1, o2)
    }

    /// The error outcome of a failed evaluation: the raw error code read
    /// off the exception object, validated into its category, and the
    /// diagnostic value converted to text for the message. A diagnostic
    /// that cannot be converted host-side yields that conversion error
    /// instead.
    pub fn eval_string_outcome(raw_code: u32, diagnostic: Value) -> (r: DukResult<Value>)
        ensures
            r is Err,
            value_text(diagnostic) matches Some(t) ==> (r matches Err(e) && e.code
                == category_of_raw(raw_code) && (e.message matches Some(m) && m@ == t)),
            value_text(diagnostic) is None ==> (r matches Err(e) && e.code == DukErrorCode::Error),
            diagnostic is Object ==> (r matches Err(e) && (e.message matches Some(m) && m@
                == "Could not convert object to String"@)),
            (diagnostic matches Value::Number(n) && n is Float) ==> (r matches Err(e)
                && (e.message matches Some(m) && m@ == "Could not convert value to String"@)),
    {
        let category = DukErrorCode::from_raw(raw_code);
        match diagnostic.try_into_string() {
            Ok(text) => Err(DukError::from(category, text.as_str())),
            Err(e) => Err(e),
        }
    }

    /// Begin decoding JSON text into this heap: open a call block, push
    /// the text, and parse it in place (still one slot). The parsed value
    /// is then read from the top slot ([`CallBlock::read_top`]) and is the
    /// outcome; malformed input degrades to the engine's undefined value
    /// rather than an error, per the engine's own JSON semantics.
    pub fn decode_json(&self, json: &str) -> (r: (CallBlock, Op, Op))
        ensures
            r.0.wf(),
            r.0.ctx_id() == self.id(),
            r.0.slots() == 1,
            r.1 matches Op::PushLString(s) && s@ == json@,
            r.2 == Op::JsonDecode(-1i32),
            r.0.ops() == seq![r.1, r.2],
    {
        let mut cb = self.open_block();
        let o1 = cb.push_lstring(json);
        let o2 = match cb.json_decode(-1) {
            Ok(op) => op,
            Err(_) => {
                proof {
                    assert(false);
                }
                Op::Pop
            },
        };
        proof {
            assert(cb.ops() =~= seq![o1, o2]);
        }
        (cb, o1, o2)
    }
}

/// The payload the host loop read back for the top-of-stack slot, after
/// running the read primitive that [`CallBlock::read_request`] chose for
/// the slot's type code.
#[derive(Debug)]
pub enum TopReading {
    /// The slot's type code needs no payload.
    Nothing,
    /// The boolean in the slot.
    Flag(bool),
    /// The raw bits of the double in the slot.
    Bits(u64),
    /// The text of the string in the slot.
    Text(String),
    /// The engine identity of the object in the slot, as read off the
    /// stack; [`CallBlock::read_top`] issues the anchoring primitives for
    /// it itself.
    Ptr(u64),
}

/// Whether a payload reading is the one the slot's type code calls for.
pub open spec fn reading_matches(type_code: u32, reading: TopReading) -> bool {
    match reading {
        TopReading::Flag(_) => type_code == TYPE_CODE_BOOLEAN,
        TopReading::Bits(_) => type_code == TYPE_CODE_NUMBER,
        TopReading::Text(_) => type_code == TYPE_CODE_STRING,
        TopReading::Ptr(_) => type_code == TYPE_CODE_OBJECT,
        TopReading::Nothing => type_code != TYPE_CODE_BOOLEAN && type_code != TYPE_CODE_NUMBER
            && type_code != TYPE_CODE_STRING && type_code != TYPE_CODE_OBJECT,
    }
}

/// The primitives that anchor a freshly read object into the engine's
/// hidden persistent registry, keyed by the object's own identity: push
/// the registry, push the key, re-push the object (three slots below the
/// top by then), store the pair, and pop the registry again. The script is
/// stack-neutral.
pub open spec fn anchor_script(ptr: u64) -> Seq<Op> {
    seq![
        Op::PushHeapStash,
        Op::PushPointer(ptr),
        Op::Dup(-3i32),
        Op::PutProp(-3i32),
        Op::Pop,
    ]
}

/// The primitives that release an anchored object: push the registry,
/// push the key, delete the entry, and pop the registry. Stack-neutral.
pub open spec fn release_script(ptr: u64) -> Seq<Op> {
    seq![Op::PushHeapStash, Op::PushPointer(ptr), Op::DelProp(-2i32), Op::Pop]
}

impl CallBlock {
    /// The read primitive that materializing the top slot requires for a
    /// given engine type code: booleans, numbers, strings and objects have
    /// a payload to fetch; every other code needs none.
    pub fn read_request(&mut self, type_code: u32) -> (r: Option<Op>)
        requires
            old(self).wf(),
            old(self).slots() >= 1,
        ensures
            final(self).wf(),
            final(self).ctx_id() == old(self).ctx_id(),
            final(self).slots() == old(self).slots(),
            type_code == TYPE_CODE_BOOLEAN ==> r == Some(Op::GetBoolean(-1i32)),
            type_code == TYPE_CODE_NUMBER ==> r == Some(Op::GetNumberBits(-1i32)),
            type_code == TYPE_CODE_STRING ==> r == Some(Op::GetString(-1i32)),
            type_code == TYPE_CODE_OBJECT ==> r == Some(Op::GetHeapPtr(-1i32)),
            (type_code != TYPE_CODE_BOOLEAN && type_code != TYPE_CODE_NUMBER && type_code
                != TYPE_CODE_STRING && type_code != TYPE_CODE_OBJECT) ==> r is None,
            r matches Some(op) ==> final(self).ops() == old(self).ops().push(op),
            r is None ==> *final(self) == *old(self),
    {
        if type_code == TYPE_CODE_BOOLEAN {
            Some(self.get_boolean(-1))
        } else if type_code == TYPE_CODE_NUMBER {
            Some(self.get_number_bits(-1))
        } else if type_code == TYPE_CODE_STRING {
            Some(self.get_string(-1))
        } else if type_code == TYPE_CODE_OBJECT {
            Some(self.get_heapptr(-1))
        } else {
            None
        }
    }

    /// Materialize the value in the top slot from the slot's type code and
    /// the payload the host loop read for it.
    ///
    /// The engine's small fixed set of runtime types maps totally onto
    /// [`Value`]: an unrecognized type code falls back to `Undefined`. For
    /// an object, the returned primitives (to be executed right away, while
    /// the object is still on top) anchor it into the persistent registry,
    /// so the resulting handle outlives the stack slot; they push and pop
    /// in balance, so the block's tracked count is unchanged.
    pub fn read_top(&mut self, type_code: u32, reading: TopReading) -> (r: (Value, Vec<Op>))
        requires
            old(self).wf(),
            old(self).slots() >= 1,
            old(self).slots() + 3 <= u32::MAX,
            reading_matches(type_code, reading),
        ensures
            final(self).wf(),
            final(self).ctx_id() == old(self).ctx_id(),
            final(self).slots() == old(self).slots(),
            reading matches TopReading::Flag(b) ==> r.0 == Value::Boolean(b),
            reading matches TopReading::Bits(bits) ==> r.0 == Value::Number(
                classified_number(bits),
            ),
            reading matches TopReading::Text(s) ==> (r.0 matches Value::String(t) && t == s),
            reading matches TopReading::Ptr(p) ==> (r.0 matches Value::Object(o) && o.ctx_id()
                == old(self).ctx_id() && o.heap_id() == p),
            reading is Nothing ==> r.0 == (if type_code == TYPE_CODE_NONE || type_code
                == TYPE_CODE_NULL {
                Value::Null
            } else {
                Value::Undefined
            }),
            reading matches TopReading::Ptr(p) ==> r.1@ == anchor_script(p) && final(self).ops()
                == old(self).ops() + anchor_script(p),
            !(reading is Ptr) ==> r.1@ == Seq::<Op>::empty() && final(self).ops() == old(
                self,
            ).ops(),
    {
        match reading {
            TopReading::Nothing => {
                if type_code == TYPE_CODE_NONE || type_code == TYPE_CODE_NULL {
                    (Value::Null, Vec::new())
                } else {
                    (Value::Undefined, Vec::new())
                }
            },
            TopReading::Flag(b) => (Value::Boolean(b), Vec::new()),
            TopReading::Bits(bits) => (Value::Number(Number::from_bits(bits)), Vec::new()),
            TopReading::Text(s) => (Value::String(s), Vec::new()),
            TopReading::Ptr(p) => {
                let mut ops: Vec<Op> = Vec::new();
                let o1 = self.push_heap_stash();
                ops.push(o1);
                let o2 = self.push_pointer(p);
                ops.push(o2);
                let o3 = match self.dup(-3) {
                    Ok(op) => op,
                    Err(_) => {
                        proof {
                            assert(false);
                        }
                        Op::Pop
                    },
                };
                ops.push(o3);
                let o4 = self.put_prop(-3);
                ops.push(o4);
                let o5 = self.pop();
                ops.push(o5);
                let obj = Object { context_id: self.raw_ctx_id(), heap: p };
                proof {
                    assert(ops@ =~= anchor_script(p));
                    assert(self.ops() =~= old(self).ops() + anchor_script(p));
                }
                (Value::Object(obj), ops)
            },
        }
    }
}

/// A durable handle to one engine-side object: the object's opaque engine
/// identity, anchored in the engine's hidden persistent registry so the
/// garbage collector keeps it alive after it leaves the transient value
/// stack, together with the identity of the owning context.
#[derive(Debug)]
pub struct Object {
    context_id: u64,
    heap: u64,
}

impl Object {
    /// The identity of the context this handle belongs to.
    pub closed spec fn ctx_id(&self) -> u64 {
        self.context_id
    }

    /// The engine's opaque identity for the referenced object.
    pub closed spec fn heap_id(&self) -> u64 {
        self.heap
    }

    /// Begin encoding this object as JSON text: re-push the anchored
    /// handle (one slot) and ask whether it still resolves — a dangling
    /// anchor reads back as undefined.
    ///
    /// Continue with [`Object::encode_continue`] once the host loop has
    /// the answer.
    pub fn encode(&self, cb: &mut CallBlock) -> (ops: (Op, Op))
        requires
            old(cb).wf(),
            old(cb).ctx_id() == self.ctx_id(),
            old(cb).slots() < u32::MAX,
        ensures
            final(cb).wf(),
            final(cb).ctx_id() == old(cb).ctx_id(),
            final(cb).slots() == old(cb).slots() + 1,
            ops.0 == Op::PushHeapPtr(self.heap_id()),
            ops.1 == Op::IsUndefined(-1i32),
            final(cb).ops() == old(cb).ops().push(ops.0).push(ops.1),
    {
        let o1 = cb.push_heapptr(self.heap);
        let o2 = match cb.is_undefined(-1) {
            Ok(op) => op,
            Err(_) => {
                proof {
                    assert(false);
                }
                Op::Pop
            },
        };
        (o1, o2)
    }

    /// Continue encoding once the engine has said whether the handle
    /// still resolves: a dangling handle yields no primitives and the
    /// empty outcome; otherwise duplicate the slot and JSON-encode the
    /// copy in place. The engine's reply to the encode primitive — the
    /// text, or nothing for an unencodable value — is then the outcome.
    pub fn encode_continue(&self, cb: &mut CallBlock, undefined: bool) -> (r: Option<(Op, Op)>)
        requires
            old(cb).wf(),
            old(cb).ctx_id() == self.ctx_id(),
            old(cb).slots() >= 1,
            old(cb).slots() < u32::MAX,
        ensures
            final(cb).wf(),
            final(cb).ctx_id() == old(cb).ctx_id(),
            undefined ==> r is None && *final(cb) == *old(cb),
            !undefined ==> (r matches Some(ops) && ops.0 == Op::Dup(-1i32) && ops.1
                == Op::JsonEncode(-1i32) && final(cb).slots() == old(cb).slots() + 1 && final(cb).ops() == old(cb).ops().push(ops.0).push(ops.1)),
    {
        if undefined {
            None
        } else {
            let o1 = match cb.dup(-1) {
                Ok(op) => op,
                Err(_) => {
                    proof {
                        assert(false);
                    }
                    Op::Pop
                },
            };
            let o2 = match cb.json_encode(-1) {
                Ok(op) => op,
                Err(_) => {
                    proof {
                        assert(false);
                    }
                    Op::Pop
                },
            };
            Some((o1, o2))
        }
    }

    /// Begin reading the named property of this object: re-push the
    /// anchored handle, then push the property's value (two slots). The
    /// engine also reports whether the property existed; the value is
    /// read from the top slot and [`Object::get_outcome`] judges the
    /// pair.
    pub fn get(&self, cb: &mut CallBlock, name: &str) -> (ops: (Op, Op))
        requires
            old(cb).wf(),
            old(cb).ctx_id() == self.ctx_id(),
            old(cb).slots() + 2 <= u32::MAX,
        ensures
            final(cb).wf(),
            final(cb).ctx_id() == old(cb).ctx_id(),
            final(cb).slots() == old(cb).slots() + 2,
            ops.0 == Op::PushHeapPtr(self.heap_id()),
            ops.1 matches Op::GetPropLString(i, n) && i == -1i32 && n@ == name@,
            final(cb).ops() == old(cb).ops().push(ops.0).push(ops.1),
    {
        let o1 = cb.push_heapptr(self.heap);
        let o2 = cb.get_prop_lstring(-1, name);
        (o1, o2)
    }

    /// The outcome of a property read: the value read from the top slot
    /// when the engine reported the lookup as successful (1), and a
    /// generic error otherwise. A property that exists but holds
    /// `undefined` is a successful read of `Value::Undefined`, not an
    /// error.
    pub fn get_outcome(found: u32, value: Value) -> (r: DukResult<Value>)
        ensures
            found == 1 ==> r == DukResult::<Value>::Ok(value),
            found != 1 ==> (r matches Err(e) && e.code == DukErrorCode::Error && (e.message
                matches Some(m) && m@ == "Could not get property."@)),
    {
        if found == 1 {
            Ok(value)
        } else {
            Err(DukError::from(DukErrorCode::Error, "Could not get property."))
        }
    }

    /// Begin writing a property of this object: re-push the anchored
    /// handle (one slot) and ask whether it still resolves. Continue with
    /// [`Object::set_value`] once the host loop has the answer.
    pub fn set(&self, cb: &mut CallBlock) -> (ops: (Op, Op))
        requires
            old(cb).wf(),
            old(cb).ctx_id() == self.ctx_id(),
            old(cb).slots() < u32::MAX,
        ensures
            final(cb).wf(),
            final(cb).ctx_id() == old(cb).ctx_id(),
            final(cb).slots() == old(cb).slots() + 1,
            ops.0 == Op::PushHeapPtr(self.heap_id()),
            ops.1 == Op::IsUndefined(-1i32),
            final(cb).ops() == old(cb).ops().push(ops.0).push(ops.1),
    {
        let o1 = cb.push_heapptr(self.heap);
        let o2 = match cb.is_undefined(-1) {
            Ok(op) => op,
            Err(_) => {
                proof {
                    assert(false);
                }
                Op::Pop
            },
        };
        (o1, o2)
    }

    /// Continue a property write once the engine has said whether the
    /// target still resolves.
    ///
    /// A dangling target is the null-reference error. Otherwise the value
    /// is marshaled into its push primitive (one slot): NaN becomes the
    /// engine's NaN sentinel; Infinity becomes the literal text
    /// `Infinity` — a deliberate, lossy approximation, since the engine
    /// cannot hold a distinguishable infinite value as a JSON-safe
    /// literal; any other number is pushed as a double. A written object
    /// value is re-pushed by identity followed by its own resolve check,
    /// judged by [`Object::set_object_check`].
    pub fn set_value(&self, cb: &mut CallBlock, target_undefined: bool, value: &Value) -> (r:
        DukResult<(Op, Option<Op>)>)
        requires
            old(cb).wf(),
            old(cb).ctx_id() == self.ctx_id(),
            old(cb).slots() >= 1,
            old(cb).slots() < u32::MAX,
        ensures
            final(cb).wf(),
            final(cb).ctx_id() == old(cb).ctx_id(),
            target_undefined ==> *final(cb) == *old(cb),
            target_undefined ==> (r matches Err(e) && e.code == DukErrorCode::NullPtr
                && (e.message matches Some(m) && m@
                == "Invalid heap pointer, cannot set property on an undefined object."@)),
            !target_undefined ==> r is Ok,
            r matches Ok(ops) ==> final(cb).slots() == old(cb).slots() + 1 && (match ops.1 {
                Some(check) => final(cb).ops() == old(cb).ops().push(ops.0).push(check),
                None => final(cb).ops() == old(cb).ops().push(ops.0),
            }),
            !target_undefined ==> (match *value {
                Value::Undefined => r matches Ok(ops) && ops.0 == Op::PushUndefined && ops.1
                    is None,
                Value::Null => r matches Ok(ops) && ops.0 == Op::PushNull && ops.1 is None,
                Value::Number(n) => r matches Ok(ops) && ops.1 is None && (match n {
                    Number::NaN => ops.0 == Op::PushNaN,
                    Number::Infinity => ops.0 matches Op::PushLString(s) && s@ == "Infinity"@,
                    Number::Float(_) => ops.0 == Op::PushNumber(n),
                    Number::Int(_) => ops.0 == Op::PushNumber(n),
                }),
                Value::Boolean(b) => r matches Ok(ops) && ops.0 == Op::PushBoolean(b) && ops.1
                    is None,
                Value::String(ref s) => r matches Ok(ops) && (ops.0 matches Op::PushLString(t)
                    && t@ == s@) && ops.1 is None,
                Value::Object(ref o) => r matches Ok(ops) && ops.0 == Op::PushHeapPtr(
                    o.heap_id(),
                ) && ops.1 == Some(Op::IsUndefined(-1i32)),
            }),
    {
        if target_undefined {
            return Err(
                DukError::from(
                    DukErrorCode::NullPtr,
                    "Invalid heap pointer, cannot set property on an undefined object.",
                ),
            );
        }
        match value {
            Value::Undefined => Ok((cb.push_undefined(), None)),
            Value::Null => Ok((cb.push_null(), None)),
            Value::Number(n) => match n {
                Number::NaN => Ok((cb.push_nan(), None)),
                Number::Infinity => Ok((cb.push_lstring("Infinity"), None)),
                Number::Float(_) => Ok((cb.push_number(*n), None)),
                Number::Int(_) => Ok((cb.push_number(*n), None)),
            },
            Value::Boolean(b) => Ok((cb.push_boolean(*b), None)),
            Value::String(s) => Ok((cb.push_lstring(s.as_str()), None)),
            Value::Object(o) => {
                let o1 = cb.push_heapptr(o.heap);
                let o2 = match cb.is_undefined(-1) {
                    Ok(op) => op,
                    Err(_) => {
                        proof {
                            assert(false);
                        }
                        Op::Pop
                    },
                };
                Ok((o1, Some(o2)))
            },
        }
    }

    /// Judge the resolve check on a written object value: if the engine
    /// reports the re-pushed object as undefined, its anchor is gone and
    /// the write fails.
    pub fn set_object_check(pushed_undefined: bool) -> (r: DukResult<()>)
        ensures
            pushed_undefined <==> r is Err,
            r matches Err(e) ==> e.code == DukErrorCode::Error && (e.message matches Some(m)
                && m@ == "Error setting property to undefined object."@),
    {
        if pushed_undefined {
            Err(DukError::from(DukErrorCode::Error, "Error setting property to undefined object."))
        } else {
            Ok(())
        }
    }

    /// Finish the property write: store the pushed value under the given
    /// name on the re-pushed target, one slot below the value. The engine
    /// reports whether the write took; [`CallBlock::put_prop_outcome`]
    /// judges that report.
    pub fn set_put(&self, cb: &mut CallBlock, name: &str) -> (op: Op)
        requires
            old(cb).wf(),
            old(cb).ctx_id() == self.ctx_id(),
            old(cb).slots() >= 2,
        ensures
            final(cb).wf(),
            final(cb).ctx_id() == old(cb).ctx_id(),
            final(cb).slots() == old(cb).slots() - 1,
            op matches Op::PutPropLString(i, n) && i == -2i32 && n@ == name@,
            final(cb).ops() == old(cb).ops().push(op),
    {
        cb.put_prop_lstring(-2, name)
    }

    /// Release this handle's anchor: delete the persistent-registry entry
    /// keyed by the object's identity, in a stack-neutral script.
    ///
    /// After the host loop runs these primitives the engine may collect
    /// the object, and any other handle carrying the same identity no
    /// longer resolves: its operations report the null-reference outcome.
    /// The handle must not be used again after its release.
    pub fn release(&self, cb: &mut CallBlock) -> (ops: Vec<Op>)
        requires
            old(cb).wf(),
            old(cb).ctx_id() == self.ctx_id(),
            old(cb).slots() + 2 <= u32::MAX,
        ensures
            final(cb).wf(),
            final(cb).ctx_id() == old(cb).ctx_id(),
            final(cb).slots() == old(cb).slots(),
            ops@ == release_script(self.heap_id()),
            final(cb).ops() == old(cb).ops() + release_script(self.heap_id()),
    {
        let mut ops: Vec<Op> = Vec::new();
        let o1 = cb.push_heap_stash();
        ops.push(o1);
        let o2 = cb.push_pointer(self.heap);
        ops.push(o2);
        let o3 = cb.del_prop(-2);
        ops.push(o3);
        let o4 = cb.pop();
        ops.push(o4);
        proof {
            assert(ops@ =~= release_script(self.heap_id()));
            assert(cb.ops() =~= old(cb).ops() + release_script(self.heap_id()));
        }
        ops
    }
}

} // verus!
