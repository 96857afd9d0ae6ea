use hyperdrive::ir::{IrType, InternalType, OpCode, SsaOrValue, TraceError, YarvOp};
use hyperdrive::recorder::{Insn, Recorder};
use hyperdrive::session::Session;
use hyperdrive::value::ValueTag;

const ANCHOR: u64 = 100;
const EP: u64 = 800;
const SELF: u64 = 8;

fn fresh() -> Recorder {
    Recorder::new(ANCHOR, SELF, EP)
}

#[test]
fn constant_push_emits_typed_node() {
    let mut r = fresh();
    r.record_instruction(108, Insn::PutNil).unwrap();
    assert_eq!(r.nodes.len(), 1);
    assert_eq!(r.nodes[0].opcode, OpCode::Yarv(YarvOp::PutNil));
    assert_eq!(r.nodes[0].type_, IrType::Yarv(ValueTag::Nil));
    assert!(r.nodes[0].ssa_operands.is_empty());
}

#[test]
fn slot_cache_hit_reuses_reference_without_node() {
    let mut r = fresh();
    let read = Insn::GetLocal { offset: 3, observed: ValueTag::Fixnum };
    r.record_instruction(108, read).unwrap();
    r.record_instruction(116, read).unwrap();
    // Exactly one stack load was emitted for the two reads.
    assert_eq!(r.nodes.len(), 1);
    assert_eq!(r.nodes[0].opcode, OpCode::StackLoad(EP - 24));
    assert_eq!(r.nodes[0].type_, IrType::Internal(InternalType::I64));
    // Both reads resolve to it.
    assert_eq!(r.stack, vec![0, 0]);
}

#[test]
fn slot_write_invalidates_cache_entry() {
    let mut r = fresh();
    let read = Insn::GetLocal { offset: 3, observed: ValueTag::Fixnum };
    r.record_instruction(108, read).unwrap();
    r.record_instruction(116, Insn::SetLocal { offset: 3 }).unwrap();
    r.record_instruction(124, read).unwrap();
    // The read after the write emits a fresh load: it must not reuse the
    // pre-write reference.
    assert_eq!(r.nodes.len(), 3);
    assert_eq!(r.nodes[2].opcode, OpCode::StackLoad(EP - 24));
    assert_eq!(r.stack, vec![2]);
}

#[test]
fn binary_add_pops_right_then_left() {
    let mut r = fresh();
    r.record_instruction(108, Insn::GetLocal { offset: 1, observed: ValueTag::Fixnum }).unwrap();
    r.record_instruction(116, Insn::PutObjectFixOne).unwrap();
    r.record_instruction(124, Insn::OptPlus).unwrap();
    assert_eq!(r.nodes.len(), 3);
    let add = &r.nodes[2];
    assert_eq!(add.opcode, OpCode::Yarv(YarvOp::OptPlus));
    assert_eq!(add.type_, IrType::Internal(InternalType::I64));
    // SSA operands in (right-popped, left-popped) order.
    assert_eq!(add.ssa_operands, vec![1, 0]);
    // Both inputs popped, the result pushed.
    assert_eq!(r.stack, vec![2]);
}

#[test]
fn binary_add_underflows_to_structural_error() {
    let mut r = fresh();
    r.record_instruction(108, Insn::PutObjectFixOne).unwrap();
    let e = r.record_instruction(116, Insn::OptPlus).unwrap_err();
    assert_eq!(e, TraceError::StructuralError);
    // The failed step left the recorder unchanged.
    assert_eq!(r.nodes.len(), 1);
    assert_eq!(r.stack, vec![0]);
}

#[test]
fn branch_records_guard_and_snapshot() {
    let mut r = fresh();
    r.record_instruction(108, Insn::GetLocal { offset: 2, observed: ValueTag::False }).unwrap();
    r.record_instruction(116, Insn::BranchUnless { observed: ValueTag::False }).unwrap();
    assert_eq!(r.nodes.len(), 3);
    assert_eq!(r.nodes[1].opcode, OpCode::Guard(IrType::Yarv(ValueTag::False)));
    assert_eq!(r.nodes[1].ssa_operands, vec![0]);
    // The paired snapshot resumes one instruction width past the branch.
    assert_eq!(r.nodes[2].opcode, OpCode::Snapshot(116 + 8, SsaOrValue::Value(SELF)));
    // The condition was popped; neither node has a stack effect.
    assert!(r.stack.is_empty());
}

#[test]
fn dup_pushes_same_reference_twice_without_node() {
    let mut r = fresh();
    r.record_instruction(108, Insn::PutObjectFixOne).unwrap();
    r.record_instruction(116, Insn::Dup).unwrap();
    assert_eq!(r.nodes.len(), 1);
    assert_eq!(r.stack, vec![0, 0]);
}

#[test]
fn unresolvable_send_is_silently_not_traced() {
    let mut r = fresh();
    r.record_instruction(108, Insn::PutSelf).unwrap();
    r.record_instruction(
        116,
        Insn::OptSend { call_site: 7, cache_handle: 9, target: None },
    )
    .unwrap();
    assert_eq!(r.nodes.len(), 1);
    assert_eq!(r.stack, vec![0]);
}

#[test]
fn resolved_send_pops_receiver_and_carries_immediates() {
    let mut r = fresh();
    r.record_instruction(108, Insn::PutSelf).unwrap();
    r.record_instruction(
        116,
        Insn::OptSend { call_site: 7, cache_handle: 9, target: Some(4096) },
    )
    .unwrap();
    assert_eq!(r.nodes.len(), 2);
    assert_eq!(r.nodes[1].opcode, OpCode::Yarv(YarvOp::OptSend));
    assert_eq!(r.nodes[1].operands, vec![7, 9]);
    assert_eq!(r.nodes[1].ssa_operands, vec![0]);
    assert_eq!(r.stack, vec![1]);
}

#[test]
fn unknown_instruction_is_unsupported() {
    let mut r = fresh();
    let e = r.record_instruction(108, Insn::Unknown).unwrap_err();
    assert_eq!(e, TraceError::UnsupportedOpcode);
}

#[test]
fn anchor_recurrence_closes_the_loop() {
    let mut r = fresh();
    r.record_instruction(108, Insn::PutNil).unwrap();
    r.record_instruction(116, Insn::Pop).unwrap();
    r.record_instruction(ANCHOR, Insn::PutNil).unwrap();
    assert!(r.complete);
    let last = r.nodes.last().unwrap();
    assert_eq!(last.opcode, OpCode::Loop);
    // Exactly one loop node, and it is the final node.
    let loops = r.nodes.iter().filter(|n| n.opcode == OpCode::Loop).count();
    assert_eq!(loops, 1);
    // Recording past completion is a structural error.
    let e = r.record_instruction(108, Insn::PutNil).unwrap_err();
    assert_eq!(e, TraceError::StructuralError);
}

#[test]
fn session_rejects_reentrant_start_and_idle_recording() {
    let mut s = Session::new();
    assert_eq!(
        s.record_instruction(108, Insn::PutNil).unwrap_err(),
        TraceError::StructuralError
    );
    s.begin_trace(ANCHOR, SELF, EP).unwrap();
    assert_eq!(
        s.begin_trace(ANCHOR, SELF, EP).unwrap_err(),
        TraceError::StructuralError
    );
}

#[test]
fn session_hands_back_the_completed_trace_once() {
    let mut s = Session::new();
    s.begin_trace(ANCHOR, SELF, EP).unwrap();
    assert!(s.is_recording());
    assert!(s.record_instruction(108, Insn::PutNil).unwrap().is_none());
    assert!(s.record_instruction(116, Insn::Pop).unwrap().is_none());
    let trace = s.record_instruction(ANCHOR, Insn::PutNil).unwrap().unwrap();
    assert!(trace.complete);
    assert_eq!(trace.anchor, ANCHOR);
    assert_eq!(trace.self_, SELF);
    assert_eq!(trace.nodes.last().unwrap().opcode, OpCode::Loop);
    // The session is idle again.
    assert!(!s.is_recording());
}

#[test]
fn recorder_error_discards_the_session() {
    let mut s = Session::new();
    s.begin_trace(ANCHOR, SELF, EP).unwrap();
    assert_eq!(
        s.record_instruction(108, Insn::OptPlus).unwrap_err(),
        TraceError::StructuralError
    );
    assert!(!s.is_recording());
}
