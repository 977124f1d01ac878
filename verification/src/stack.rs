//! The call block: the stack-discipline primitive of the bridge.
//!
//! Every engine operation manipulates the engine's shared value stack
//! through a small set of primitives (push a value, duplicate a slot, read a
//! property, pop). A primitive that pushes without a matching pop corrupts
//! the stack for every later call on the same heap, so each logical
//! operation runs inside a [`CallBlock`] that counts the slots it has
//! pushed and, on close, pops exactly that many.
//!
//! The engine itself is reached only through raw foreign calls that this
//! library does not perform. A call block therefore *emits* each primitive
//! as an [`Op`] value for an unverified host loop to execute, and records
//! the emitted sequence in a ghost trace. The well-formedness invariant ties
//! the tracked slot count to the net stack effect of the trace, which is
//! what makes the stack-neutrality theorem ([`lemma_stack_neutral`]) a
//! statement about the exact primitives the engine will see.

use vstd::prelude::*;

verus! {

use crate::context::Context;
use crate::error::DukError;
use crate::error::DukErrorCode;
use crate::number::Number;
use crate::DukResult;

/// One primitive of the engine's stack API, as issued by a call block.
///
/// Each variant stands for one engine entry point; the payloads are the
/// plain values the host loop passes along. `PushHeapPtr`, `PushPointer`
/// and `GetHeapPtr` carry an engine object identity as an opaque integer.
#[derive(Debug, PartialEq)]
pub enum Op {
    /// Push the given text as an engine string.
    PushLString(String),
    /// Push the undefined value.
    PushUndefined,
    /// Push the null value.
    PushNull,
    /// Push the engine's NaN sentinel.
    PushNaN,
    /// Push the given number as an engine double.
    PushNumber(Number),
    /// Push a boolean.
    PushBoolean(bool),
    /// Re-push the engine object with the given anchored identity.
    PushHeapPtr(u64),
    /// Push the engine's hidden persistent registry object.
    PushHeapStash,
    /// Push a raw pointer value (used as a registry key).
    PushPointer(u64),
    /// Duplicate the slot at the given stack index.
    Dup(i32),
    /// Pop one slot.
    Pop,
    /// Pop the given number of slots.
    PopN(u32),
    /// Compile and run source text, leaving the result or the exception
    /// object on the stack.
    EvalString(String),
    /// Parse the string in the given slot as JSON, replacing it in place.
    JsonDecode(i32),
    /// Encode the value in the given slot as JSON text, in place.
    JsonEncode(i32),
    /// Replace the value in the given slot by its string coercion.
    ToString(i32),
    /// Ask whether the given slot holds the undefined value.
    IsUndefined(i32),
    /// Ask whether the given slot holds the null value.
    IsNull(i32),
    /// Ask whether the given slot holds an object.
    IsObject(i32),
    /// Read the engine type code of the given slot.
    GetType(i32),
    /// Read the boolean in the given slot.
    GetBoolean(i32),
    /// Read the double in the given slot, as its raw bits.
    GetNumberBits(i32),
    /// Read the string in the given slot.
    GetString(i32),
    /// Read the object identity of the given slot.
    GetHeapPtr(i32),
    /// Read the error code of the exception object in the given slot.
    GetErrorCode(i32),
    /// Push the value of the named property of the object at the given
    /// index.
    GetPropLString(i32, String),
    /// Write the value on top of the stack to the named property of the
    /// object at the given index, consuming the value slot.
    PutPropLString(i32, String),
    /// Write the key/value pair on top of the stack into the object at the
    /// given index, consuming both slots.
    PutProp(i32),
    /// Delete from the object at the given index the property named by the
    /// key on top of the stack, consuming the key slot.
    DelProp(i32),
}

/// How one primitive changes the engine's value-stack depth.
pub open spec fn op_delta(op: Op) -> int {
    match op {
        Op::PushLString(_) => 1,
        Op::PushUndefined => 1,
        Op::PushNull => 1,
        Op::PushNaN => 1,
        Op::PushNumber(_) => 1,
        Op::PushBoolean(_) => 1,
        Op::PushHeapPtr(_) => 1,
        Op::PushHeapStash => 1,
        Op::PushPointer(_) => 1,
        Op::Dup(_) => 1,
        Op::Pop => -1,
        Op::PopN(n) => -(n as int),
        Op::EvalString(_) => 1,
        Op::JsonDecode(_) => 0,
        Op::JsonEncode(_) => 0,
        Op::ToString(_) => 0,
        Op::IsUndefined(_) => 0,
        Op::IsNull(_) => 0,
        Op::IsObject(_) => 0,
        Op::GetType(_) => 0,
        Op::GetBoolean(_) => 0,
        Op::GetNumberBits(_) => 0,
        Op::GetString(_) => 0,
        Op::GetHeapPtr(_) => 0,
        Op::GetErrorCode(_) => 0,
        Op::GetPropLString(_, _) => 1,
        Op::PutPropLString(_, _) => -1,
        Op::PutProp(_) => -2,
        Op::DelProp(_) => -1,
    }
}

/// The net change of stack depth over a sequence of primitives.
pub open spec fn net_delta(ops: Seq<Op>) -> int
    decreases ops.len(),
{
    if ops.len() == 0 {
        0
    } else {
        net_delta(ops.drop_last()) + op_delta(ops.last())
    }
}

/// Whether no prefix of the sequence ever takes the depth below where it
/// started: a block must never pop slots it did not push.
pub open spec fn never_below_start(ops: Seq<Op>) -> bool {
    forall|i: int| 0 <= i <= ops.len() ==> net_delta(#[trigger] ops.take(i)) >= 0
}

/// The engine's stack depth after replaying a sequence of primitives from a
/// given starting depth.
pub open spec fn depth_after(start: int, ops: Seq<Op>) -> int {
    start + net_delta(ops)
}

/// Appending one primitive adds its delta to the net effect.
pub proof fn lemma_net_delta_push(ops: Seq<Op>, op: Op)
    ensures
        net_delta(ops.push(op)) == net_delta(ops) + op_delta(op),
{
    assert(ops.push(op).drop_last() =~= ops);
}

/// Appending one primitive preserves `never_below_start` as long as the new
/// net effect stays nonnegative.
pub proof fn lemma_never_below_push(ops: Seq<Op>, op: Op)
    requires
        never_below_start(ops),
        net_delta(ops) + op_delta(op) >= 0,
    ensures
        never_below_start(ops.push(op)),
{
    lemma_net_delta_push(ops, op);
    assert forall|i: int| 0 <= i <= ops.push(op).len() implies net_delta(
        #[trigger] ops.push(op).take(i),
    ) >= 0 by {
        if i <= ops.len() {
            assert(ops.push(op).take(i) =~= ops.take(i));
            assert(net_delta(ops.take(i)) >= 0);
        } else {
            assert(ops.push(op).take(i) =~= ops.push(op));
        }
    }
}

/// A scope of engine-stack activity: wraps one context and counts how many
/// slots of the engine's value stack it is responsible for.
///
/// Every primitive the block issues is returned as an [`Op`] (for the host
/// loop to execute, in order) and recorded in the block's ghost trace. The
/// well-formedness invariant says the tracked count equals the trace's net
/// stack effect, and that the trace never pops below the depth at which the
/// block was opened. Closing the block pops exactly the tracked count, so a
/// closed block is provably stack-neutral on every exit path.
pub struct CallBlock {
    context_id: u64,
    stack_size: u32,
    trace: Ghost<Seq<Op>>,
}

impl CallBlock {
    /// The identity of the context this block borrows.
    pub closed spec fn ctx_id(&self) -> u64 {
        self.context_id
    }

    /// How many value-stack slots the block currently tracks.
    pub closed spec fn slots(&self) -> u32 {
        self.stack_size
    }

    /// The primitives the block has issued so far, in order.
    pub closed spec fn ops(&self) -> Seq<Op> {
        self.trace@
    }

    /// The block's invariant: the tracked count is the net stack effect of
    /// the issued primitives, and no prefix of them pops below the opening
    /// depth.
    pub open spec fn wf(&self) -> bool {
        &&& net_delta(self.ops()) == self.slots() as int
        &&& never_below_start(self.ops())
    }

    /// Whether a stack index (negative indices count from the top) refers
    /// to a slot this block tracks.
    pub open spec fn valid_idx(&self, idx: int) -> bool {
        (if idx >= 0 {
            idx
        } else {
            -idx
        }) <= self.slots() as int
    }

    /// The raw identity of the context this block borrows.
    pub fn raw_ctx_id(&self) -> (h: u64)
        ensures
            h == self.ctx_id(),
    {
        self.context_id
    }

    /// The tracked slot count, for callers outside the proof (a host loop
    /// checking the dialogue's state before it continues).
    pub fn slot_count(&self) -> (n: u32)
        ensures
            n == self.slots(),
    {
        self.stack_size
    }

    /// Open a block on a context, tracking no slots yet.
    pub fn from(context: &Context) -> (cb: CallBlock)
        ensures
            cb.wf(),
            cb.ctx_id() == context.id(),
            cb.slots() == 0,
            cb.ops() == Seq::<Op>::empty(),
    {
        CallBlock { context_id: context.raw_id(), stack_size: 0, trace: Ghost(Seq::empty()) }
    }

    /// Issue one primitive: adjust the tracked count by its stack effect
    /// and append it to the trace.
    fn record(&mut self, op: Op) -> (r: Op)
        requires
            old(self).wf(),
            old(self).slots() as int + op_delta(op) >= 0,
            old(self).slots() as int + op_delta(op) <= u32::MAX as int,
        ensures
            final(self).wf(),
            final(self).ctx_id() == old(self).ctx_id(),
            final(self).slots() as int == old(self).slots() as int + op_delta(op),
            final(self).ops() == old(self).ops().push(op),
            r == op,
    {
        proof {
            lemma_net_delta_push(self.trace@, op);
            lemma_never_below_push(self.trace@, op);
        }
        match &op {
            Op::PushLString(_)
            | Op::PushUndefined
            | Op::PushNull
            | Op::PushNaN
            | Op::PushNumber(_)
            | Op::PushBoolean(_)
            | Op::PushHeapPtr(_)
            | Op::PushHeapStash
            | Op::PushPointer(_)
            | Op::Dup(_)
            | Op::EvalString(_)
            | Op::GetPropLString(_, _) => {
                self.stack_size = self.stack_size + 1;
            },
            Op::Pop | Op::PutPropLString(_, _) | Op::DelProp(_) => {
                self.stack_size = self.stack_size - 1;
            },
            Op::PopN(n) => {
                self.stack_size = self.stack_size - *n;
            },
            Op::PutProp(_) => {
                self.stack_size = self.stack_size - 2;
            },
            Op::JsonDecode(_)
            | Op::JsonEncode(_)
            | Op::ToString(_)
            | Op::IsUndefined(_)
            | Op::IsNull(_)
            | Op::IsObject(_)
            | Op::GetType(_)
            | Op::GetBoolean(_)
            | Op::GetNumberBits(_)
            | Op::GetString(_)
            | Op::GetHeapPtr(_)
            | Op::GetErrorCode(_) => {
            },
        }
        self.trace = Ghost(self.trace@.push(op));
        op
    }

    /// Check that a stack index refers to a tracked slot, as the engine
    /// primitives that take an index require.
    pub fn validate_stack_idx(&self, idx: i32) -> (r: DukResult<()>)
        ensures
            r is Ok <==> self.valid_idx(idx as int),
            r matches Err(e) ==> e.code == crate::error::DukErrorCode::Error,
    {
        let magnitude: u64 = if idx >= 0 {
            idx as u64
        } else {
            (-(idx as i64)) as u64
        };
        if magnitude <= self.stack_size as u64 {
            Ok(())
        } else {
            Err(DukError::from_str("stack index outside the slots tracked by this call block"))
        }
    }

    /// Push the given text as an engine string (one slot).
    pub fn push_lstring(&mut self, string: &str) -> (op: Op)
        requires
            old(self).wf(),
            old(self).slots() < u32::MAX,
        ensures
            final(self).wf(),
            final(self).ctx_id() == old(self).ctx_id(),
            final(self).slots() == old(self).slots() + 1,
            op matches Op::PushLString(s) && s@ == string@,
            final(self).ops() == old(self).ops().push(op),
    {
        self.record(Op::PushLString(string.to_owned()))
    }

    /// Push the undefined value (one slot).
    pub fn push_undefined(&mut self) -> (op: Op)
        requires
            old(self).wf(),
            old(self).slots() < u32::MAX,
        ensures
            final(self).wf(),
            final(self).ctx_id() == old(self).ctx_id(),
            final(self).slots() == old(self).slots() + 1,
            op == Op::PushUndefined,
            final(self).ops() == old(self).ops().push(op),
    {
        self.record(Op::PushUndefined)
    }

    /// Push the null value (one slot).
    pub fn push_null(&mut self) -> (op: Op)
        requires
            old(self).wf(),
            old(self).slots() < u32::MAX,
        ensures
            final(self).wf(),
            final(self).ctx_id() == old(self).ctx_id(),
            final(self).slots() == old(self).slots() + 1,
            op == Op::PushNull,
            final(self).ops() == old(self).ops().push(op),
    {
        self.record(Op::PushNull)
    }

    /// Push the engine's NaN sentinel (one slot).
    pub fn push_nan(&mut self) -> (op: Op)
        requires
            old(self).wf(),
            old(self).slots() < u32::MAX,
        ensures
            final(self).wf(),
            final(self).ctx_id() == old(self).ctx_id(),
            final(self).slots() == old(self).slots() + 1,
            op == Op::PushNaN,
            final(self).ops() == old(self).ops().push(op),
    {
        self.record(Op::PushNaN)
    }

    /// Push a number as an engine double (one slot).
    pub fn push_number(&mut self, val: Number) -> (op: Op)
        requires
            old(self).wf(),
            old(self).slots() < u32::MAX,
        ensures
            final(self).wf(),
            final(self).ctx_id() == old(self).ctx_id(),
            final(self).slots() == old(self).slots() + 1,
            op == Op::PushNumber(val),
            final(self).ops() == old(self).ops().push(op),
    {
        self.record(Op::PushNumber(val))
    }

    /// Push a boolean (one slot).
    pub fn push_boolean(&mut self, val: bool) -> (op: Op)
        requires
            old(self).wf(),
            old(self).slots() < u32::MAX,
        ensures
            final(self).wf(),
            final(self).ctx_id() == old(self).ctx_id(),
            final(self).slots() == old(self).slots() + 1,
            op == Op::PushBoolean(val),
            final(self).ops() == old(self).ops().push(op),
    {
        self.record(Op::PushBoolean(val))
    }

    /// Re-push an anchored engine object by its identity (one slot).
    pub fn push_heapptr(&mut self, heap: u64) -> (op: Op)
        requires
            old(self).wf(),
            old(self).slots() < u32::MAX,
        ensures
            final(self).wf(),
            final(self).ctx_id() == old(self).ctx_id(),
            final(self).slots() == old(self).slots() + 1,
            op == Op::PushHeapPtr(heap),
            final(self).ops() == old(self).ops().push(op),
    {
        self.record(Op::PushHeapPtr(heap))
    }

    /// Push the engine's hidden persistent registry object (one slot).
    pub fn push_heap_stash(&mut self) -> (op: Op)
        requires
            old(self).wf(),
            old(self).slots() < u32::MAX,
        ensures
            final(self).wf(),
            final(self).ctx_id() == old(self).ctx_id(),
            final(self).slots() == old(self).slots() + 1,
            op == Op::PushHeapStash,
            final(self).ops() == old(self).ops().push(op),
    {
        self.record(Op::PushHeapStash)
    }

    /// Push a raw pointer value, used as a registry key (one slot).
    pub fn push_pointer(&mut self, ptr: u64) -> (op: Op)
        requires
            old(self).wf(),
            old(self).slots() < u32::MAX,
        ensures
            final(self).wf(),
            final(self).ctx_id() == old(self).ctx_id(),
            final(self).slots() == old(self).slots() + 1,
            op == Op::PushPointer(ptr),
            final(self).ops() == old(self).ops().push(op),
    {
        self.record(Op::PushPointer(ptr))
    }

    /// Compile and run source text; the engine leaves one slot holding the
    /// result, or the exception object on failure.
    pub fn eval_string(&mut self, code: &str) -> (op: Op)
        requires
            old(self).wf(),
            old(self).slots() < u32::MAX,
        ensures
            final(self).wf(),
            final(self).ctx_id() == old(self).ctx_id(),
            final(self).slots() == old(self).slots() + 1,
            op matches Op::EvalString(c) && c@ == code@,
            final(self).ops() == old(self).ops().push(op),
    {
        self.record(Op::EvalString(code.to_owned()))
    }

    /// Push the value of the named property of the object at `idx`
    /// (one slot, pushed whether or not the property existed).
    pub fn get_prop_lstring(&mut self, idx: i32, name: &str) -> (op: Op)
        requires
            old(self).wf(),
            old(self).valid_idx(idx as int),
            old(self).slots() < u32::MAX,
        ensures
            final(self).wf(),
            final(self).ctx_id() == old(self).ctx_id(),
            final(self).slots() == old(self).slots() + 1,
            op matches Op::GetPropLString(i, n) && i == idx && n@ == name@,
            final(self).ops() == old(self).ops().push(op),
    {
        self.record(Op::GetPropLString(idx, name.to_owned()))
    }

    /// Write the value on top of the stack to the named property of the
    /// object at `obj_idx`, consuming the value slot.
    pub fn put_prop_lstring(&mut self, obj_idx: i32, prop_name: &str) -> (op: Op)
        requires
            old(self).wf(),
            old(self).valid_idx(obj_idx as int),
            old(self).slots() >= 1,
        ensures
            final(self).wf(),
            final(self).ctx_id() == old(self).ctx_id(),
            final(self).slots() == old(self).slots() - 1,
            op matches Op::PutPropLString(i, n) && i == obj_idx && n@ == prop_name@,
            final(self).ops() == old(self).ops().push(op),
    {
        self.record(Op::PutPropLString(obj_idx, prop_name.to_owned()))
    }

    /// Outcome of a property write: the engine reports 1 for success and
    /// anything else for a rejected write (for instance a non-extensible
    /// target).
    pub fn put_prop_outcome(result: u32) -> (r: DukResult<()>)
        ensures
            result == 1 <==> r is Ok,
            r matches Err(e) ==> e.code == DukErrorCode::Error && (e.message matches Some(m)
                && m@ == "Failed to set property."@),
    {
        if result == 1 {
            Ok(())
        } else {
            Err(DukError::from(DukErrorCode::Error, "Failed to set property."))
        }
    }

    /// Write the key/value pair on top of the stack into the object at
    /// `obj_idx`, consuming both slots.
    pub fn put_prop(&mut self, obj_idx: i32) -> (op: Op)
        requires
            old(self).wf(),
            old(self).valid_idx(obj_idx as int),
            old(self).slots() >= 2,
        ensures
            final(self).wf(),
            final(self).ctx_id() == old(self).ctx_id(),
            final(self).slots() == old(self).slots() - 2,
            op == Op::PutProp(obj_idx),
            final(self).ops() == old(self).ops().push(op),
    {
        self.record(Op::PutProp(obj_idx))
    }

    /// Delete from the object at `obj_idx` the property named by the key on
    /// top of the stack, consuming the key slot.
    pub fn del_prop(&mut self, obj_idx: i32) -> (op: Op)
        requires
            old(self).wf(),
            old(self).valid_idx(obj_idx as int),
            old(self).slots() >= 1,
        ensures
            final(self).wf(),
            final(self).ctx_id() == old(self).ctx_id(),
            final(self).slots() == old(self).slots() - 1,
            op == Op::DelProp(obj_idx),
            final(self).ops() == old(self).ops().push(op),
    {
        self.record(Op::DelProp(obj_idx))
    }

    /// Duplicate the slot at `idx` on top of the stack (one slot).
    pub fn dup(&mut self, idx: i32) -> (r: DukResult<Op>)
        requires
            old(self).wf(),
            old(self).slots() < u32::MAX,
        ensures
            r is Ok <==> old(self).valid_idx(idx as int),
            r matches Ok(op) ==> op == Op::Dup(idx) && final(self).wf() && final(self).ctx_id()
                == old(self).ctx_id() && final(self).slots() == old(self).slots() + 1 && final(self).ops() == old(self).ops().push(op),
            r is Err ==> *final(self) == *old(self),
    {
        match self.validate_stack_idx(idx) {
            Ok(_) => Ok(self.record(Op::Dup(idx))),
            Err(e) => Err(e),
        }
    }

    /// Parse the string in the slot at `idx` as JSON, replacing it in
    /// place.
    pub fn json_decode(&mut self, idx: i32) -> (r: DukResult<Op>)
        requires
            old(self).wf(),
        ensures
            r is Ok <==> old(self).valid_idx(idx as int),
            r matches Ok(op) ==> op == Op::JsonDecode(idx) && final(self).wf() && final(self).ctx_id() == old(self).ctx_id() && final(self).slots() == old(self).slots() && final(self).ops() == old(self).ops().push(op),
            r is Err ==> *final(self) == *old(self),
    {
        match self.validate_stack_idx(idx) {
            Ok(_) => Ok(self.record(Op::JsonDecode(idx))),
            Err(e) => Err(e),
        }
    }

    /// Encode the value in the slot at `idx` as JSON text; the engine
    /// reports the text, or nothing for an unencodable value.
    pub fn json_encode(&mut self, idx: i32) -> (r: DukResult<Op>)
        requires
            old(self).wf(),
        ensures
            r is Ok <==> old(self).valid_idx(idx as int),
            r matches Ok(op) ==> op == Op::JsonEncode(idx) && final(self).wf() && final(self).ctx_id() == old(self).ctx_id() && final(self).slots() == old(self).slots() && final(self).ops() == old(self).ops().push(op),
            r is Err ==> *final(self) == *old(self),
    {
        match self.validate_stack_idx(idx) {
            Ok(_) => Ok(self.record(Op::JsonEncode(idx))),
            Err(e) => Err(e),
        }
    }

    /// Ask the engine whether the slot at `idx` holds the undefined value.
    pub fn is_undefined(&mut self, idx: i32) -> (r: DukResult<Op>)
        requires
            old(self).wf(),
        ensures
            r is Ok <==> old(self).valid_idx(idx as int),
            r matches Ok(op) ==> op == Op::IsUndefined(idx) && final(self).wf() && final(self).ctx_id() == old(self).ctx_id() && final(self).slots() == old(self).slots() && final(self).ops() == old(self).ops().push(op),
            r is Err ==> *final(self) == *old(self),
    {
        match self.validate_stack_idx(idx) {
            Ok(_) => Ok(self.record(Op::IsUndefined(idx))),
            Err(e) => Err(e),
        }
    }

    /// Ask the engine whether the slot at `idx` holds the null value.
    pub fn is_null(&mut self, idx: i32) -> (r: DukResult<Op>)
        requires
            old(self).wf(),
        ensures
            r is Ok <==> old(self).valid_idx(idx as int),
            r matches Ok(op) ==> op == Op::IsNull(idx) && final(self).wf() && final(self).ctx_id()
                == old(self).ctx_id() && final(self).slots() == old(self).slots() && final(self).ops() == old(self).ops().push(op),
            r is Err ==> *final(self) == *old(self),
    {
        match self.validate_stack_idx(idx) {
            Ok(_) => Ok(self.record(Op::IsNull(idx))),
            Err(e) => Err(e),
        }
    }

    /// Ask the engine whether the slot at `idx` holds an object.
    pub fn is_object(&mut self, idx: i32) -> (r: DukResult<Op>)
        requires
            old(self).wf(),
        ensures
            r is Ok <==> old(self).valid_idx(idx as int),
            r matches Ok(op) ==> op == Op::IsObject(idx) && final(self).wf() && final(self).ctx_id() == old(self).ctx_id() && final(self).slots() == old(self).slots() && final(self).ops() == old(self).ops().push(op),
            r is Err ==> *final(self) == *old(self),
    {
        match self.validate_stack_idx(idx) {
            Ok(_) => Ok(self.record(Op::IsObject(idx))),
            Err(e) => Err(e),
        }
    }

    /// Replace the value in the slot at `idx` by its string coercion; the
    /// engine reports the resulting text.
    pub fn to_string(&mut self, idx: i32) -> (r: DukResult<Op>)
        requires
            old(self).wf(),
        ensures
            r is Ok <==> old(self).valid_idx(idx as int),
            r matches Ok(op) ==> op == Op::ToString(idx) && final(self).wf() && final(self).ctx_id() == old(self).ctx_id() && final(self).slots() == old(self).slots() && final(self).ops() == old(self).ops().push(op),
            r is Err ==> *final(self) == *old(self),
    {
        match self.validate_stack_idx(idx) {
            Ok(_) => Ok(self.record(Op::ToString(idx))),
            Err(e) => Err(e),
        }
    }

    /// Read the engine type code of the slot at `idx`.
    pub fn get_type(&mut self, idx: i32) -> (op: Op)
        requires
            old(self).wf(),
            old(self).valid_idx(idx as int),
        ensures
            final(self).wf(),
            final(self).ctx_id() == old(self).ctx_id(),
            final(self).slots() == old(self).slots(),
            op == Op::GetType(idx),
            final(self).ops() == old(self).ops().push(op),
    {
        self.record(Op::GetType(idx))
    }

    /// Read the boolean in the slot at `idx`.
    pub fn get_boolean(&mut self, idx: i32) -> (op: Op)
        requires
            old(self).wf(),
            old(self).valid_idx(idx as int),
        ensures
            final(self).wf(),
            final(self).ctx_id() == old(self).ctx_id(),
            final(self).slots() == old(self).slots(),
            op == Op::GetBoolean(idx),
            final(self).ops() == old(self).ops().push(op),
    {
        self.record(Op::GetBoolean(idx))
    }

    /// Read the double in the slot at `idx`, as its raw bits.
    pub fn get_number_bits(&mut self, idx: i32) -> (op: Op)
        requires
            old(self).wf(),
            old(self).valid_idx(idx as int),
        ensures
            final(self).wf(),
            final(self).ctx_id() == old(self).ctx_id(),
            final(self).slots() == old(self).slots(),
            op == Op::GetNumberBits(idx),
            final(self).ops() == old(self).ops().push(op),
    {
        self.record(Op::GetNumberBits(idx))
    }

    /// Read the string in the slot at `idx`.
    pub fn get_string(&mut self, idx: i32) -> (op: Op)
        requires
            old(self).wf(),
            old(self).valid_idx(idx as int),
        ensures
            final(self).wf(),
            final(self).ctx_id() == old(self).ctx_id(),
            final(self).slots() == old(self).slots(),
            op == Op::GetString(idx),
            final(self).ops() == old(self).ops().push(op),
    {
        self.record(Op::GetString(idx))
    }

    /// Read the object identity of the slot at `idx`.
    pub fn get_heapptr(&mut self, idx: i32) -> (op: Op)
        requires
            old(self).wf(),
            old(self).valid_idx(idx as int),
        ensures
            final(self).wf(),
            final(self).ctx_id() == old(self).ctx_id(),
            final(self).slots() == old(self).slots(),
            op == Op::GetHeapPtr(idx),
            final(self).ops() == old(self).ops().push(op),
    {
        self.record(Op::GetHeapPtr(idx))
    }

    /// Read the error code of the exception object on top of the stack.
    pub fn get_error_code(&mut self) -> (op: Op)
        requires
            old(self).wf(),
            old(self).slots() >= 1,
        ensures
            final(self).wf(),
            final(self).ctx_id() == old(self).ctx_id(),
            final(self).slots() == old(self).slots(),
            op == Op::GetErrorCode(-1i32),
            final(self).ops() == old(self).ops().push(op),
    {
        self.record(Op::GetErrorCode(-1))
    }

    /// Pop one tracked slot.
    pub fn pop(&mut self) -> (op: Op)
        requires
            old(self).wf(),
            old(self).slots() >= 1,
        ensures
            final(self).wf(),
            final(self).ctx_id() == old(self).ctx_id(),
            final(self).slots() == old(self).slots() - 1,
            op == Op::Pop,
            final(self).ops() == old(self).ops().push(op),
    {
        self.record(Op::Pop)
    }

    /// Close the block: pop every slot it still tracks, leaving the
    /// engine's stack exactly as deep as when the block was opened.
    ///
    /// This is the step the host loop must run on every exit path of an
    /// operation — success or failure — and it is what makes the whole
    /// trace provably stack-neutral (see [`lemma_stack_neutral`]).
    pub fn close(&mut self) -> (op: Op)
        requires
            old(self).wf(),
        ensures
            final(self).wf(),
            final(self).ctx_id() == old(self).ctx_id(),
            final(self).slots() == 0,
            op == Op::PopN(old(self).slots()),
            final(self).ops() == old(self).ops().push(op),
            net_delta(final(self).ops()) == 0,
    {
        let n: u32 = self.stack_size;
        self.record(Op::PopN(n))
    }
}

/// The depth of the engine's value stack is restored exactly when a block
/// that tracks no slots (a freshly closed one) has run: replaying its
/// primitives from any starting depth ends at that depth, and never dips
/// below it on the way.
pub proof fn lemma_stack_neutral(cb: &CallBlock, start: int)
    requires
        cb.wf(),
        cb.slots() == 0,
    ensures
        depth_after(start, cb.ops()) == start,
        forall|i: int| 0 <= i <= cb.ops().len() ==> depth_after(
            start,
            #[trigger] cb.ops().take(i),
        ) >= start,
{
}

} // verus!
