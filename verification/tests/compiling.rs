use hyperdrive::compiler::{Compiler, HelperTable, MachInst, SelfVal};
use hyperdrive::ir::TraceError;
use hyperdrive::machine::{run, Mem, RunOutcome};
use hyperdrive::recorder::{Insn, Recorder};
use hyperdrive::session::Session;
use hyperdrive::value::{encode_fixnum, ValueTag};

const ANCHOR: u64 = 100;
const EP: u64 = 800;
const SELF: u64 = 8;

fn all_helpers() -> HelperTable {
    HelperTable {
        new_array: Some(0x1000),
        array_get: Some(0x1010),
        array_set: Some(0x1020),
        array_append: Some(0x1030),
        new_hash: Some(0x1040),
        hash_get: Some(0x1050),
        hash_set: Some(0x1060),
        str_len: Some(0x1070),
        ary_len: Some(0x1080),
        ary_resurrect: Some(0x1090),
    }
}

fn no_helpers() -> HelperTable {
    HelperTable {
        new_array: None,
        array_get: None,
        array_set: None,
        array_append: None,
        new_hash: None,
        hash_get: None,
        hash_set: None,
        str_len: None,
        ary_len: None,
        ary_resurrect: None,
    }
}

#[test]
fn straightline_constant_trace_never_exits() {
    let mut r = Recorder::new(ANCHOR, SELF, EP);
    r.record_instruction(100, Insn::PutNil).unwrap();
    r.record_instruction(108, Insn::PutObjectFixOne).unwrap();
    r.record_instruction(116, Insn::PutObjectFixZero).unwrap();
    r.record_instruction(ANCHOR, Insn::PutNil).unwrap();
    assert!(r.complete);
    let trace = r.into_trace();
    let compiler = Compiler::new(no_helpers(), Vec::new());
    let routine = compiler.compile(&trace).unwrap();
    // The loop body: three constants and the loop-back, no guard.
    assert_eq!(routine.insts.len(), 4);
    assert_eq!(*routine.insts.last().unwrap(), MachInst::LoopBack);
    let mut mem = Mem::new();
    let oracle: Vec<u64> = Vec::new();
    // However long it runs, the loop never returns on its own.
    assert_eq!(run(&routine, &mut mem, &oracle, 100_000), RunOutcome::Running);
    assert!(mem.slots.is_empty());
}

#[test]
fn guard_from_observed_false_exits_when_truthy() {
    let addr = EP - 16;
    let mut r = Recorder::new(ANCHOR, SELF, EP);
    r.record_instruction(100, Insn::GetLocal { offset: 2, observed: ValueTag::False }).unwrap();
    r.record_instruction(108, Insn::BranchUnless { observed: ValueTag::False }).unwrap();
    r.record_instruction(ANCHOR, Insn::PutNil).unwrap();
    let trace = r.into_trace();
    let routine = Compiler::new(no_helpers(), Vec::new()).compile(&trace).unwrap();
    assert_eq!(
        routine.insts[1],
        MachInst::Guard {
            src: 0,
            exit_when_truthy: true,
            resume_pc: 108 + 8,
            resume_self: SelfVal::Const(SELF),
        }
    );
    // The slot stays falsy: the guard holds and the loop keeps running.
    let mut mem = Mem { slots: vec![(addr, 0)] };
    let oracle: Vec<u64> = Vec::new();
    assert_eq!(run(&routine, &mut mem, &oracle, 1000), RunOutcome::Running);
    // The slot turns truthy: the guard side-exits at once, resuming one
    // instruction width past the branch with the recorded self.
    let mut mem = Mem { slots: vec![(addr, 20)] };
    assert_eq!(
        run(&routine, &mut mem, &oracle, 1000),
        RunOutcome::SideExit { pc: 116, self_val: SELF }
    );
}

#[test]
fn guard_from_observed_true_exits_when_falsy() {
    let addr = EP - 16;
    let mut r = Recorder::new(ANCHOR, SELF, EP);
    r.record_instruction(100, Insn::GetLocal { offset: 2, observed: ValueTag::True }).unwrap();
    r.record_instruction(108, Insn::BranchIf { observed: ValueTag::True }).unwrap();
    r.record_instruction(ANCHOR, Insn::PutNil).unwrap();
    let trace = r.into_trace();
    let routine = Compiler::new(no_helpers(), Vec::new()).compile(&trace).unwrap();
    let mut mem = Mem { slots: vec![(addr, 20)] };
    let oracle: Vec<u64> = Vec::new();
    assert_eq!(run(&routine, &mut mem, &oracle, 1000), RunOutcome::Running);
    let mut mem = Mem { slots: vec![(addr, 0)] };
    assert_eq!(
        run(&routine, &mut mem, &oracle, 1000),
        RunOutcome::SideExit { pc: 116, self_val: SELF }
    );
}

#[test]
fn guard_on_non_boolean_tag_fails_compilation() {
    let mut r = Recorder::new(ANCHOR, SELF, EP);
    r.record_instruction(100, Insn::GetLocal { offset: 2, observed: ValueTag::Nil }).unwrap();
    r.record_instruction(108, Insn::BranchUnless { observed: ValueTag::Nil }).unwrap();
    r.record_instruction(ANCHOR, Insn::PutNil).unwrap();
    let trace = r.into_trace();
    let e = Compiler::new(all_helpers(), Vec::new()).compile(&trace).unwrap_err();
    assert_eq!(e, TraceError::UnsupportedOpcode);
}

#[test]
fn missing_helper_is_a_link_error() {
    let mut r = Recorder::new(ANCHOR, SELF, EP);
    r.record_instruction(100, Insn::DupArray { array: 4096 }).unwrap();
    r.record_instruction(108, Insn::Pop).unwrap();
    r.record_instruction(ANCHOR, Insn::PutNil).unwrap();
    let trace = r.into_trace();
    let e = Compiler::new(no_helpers(), Vec::new()).compile(&trace).unwrap_err();
    assert_eq!(e, TraceError::LinkError);
    // With the helper present the same trace compiles to a call.
    let routine = Compiler::new(all_helpers(), Vec::new()).compile(&trace).unwrap();
    assert_eq!(routine.insts[1], MachInst::CallHelper1 { target: 0x1090, a0: 0 });
}

#[test]
fn unresolved_call_target_is_a_link_error() {
    let mut r = Recorder::new(ANCHOR, SELF, EP);
    r.record_instruction(100, Insn::PutSelf).unwrap();
    r.record_instruction(
        108,
        Insn::OptSend { call_site: 1, cache_handle: 77, target: Some(0x2000) },
    )
    .unwrap();
    r.record_instruction(116, Insn::Pop).unwrap();
    r.record_instruction(ANCHOR, Insn::PutNil).unwrap();
    let trace = r.into_trace();
    let e = Compiler::new(all_helpers(), Vec::new()).compile(&trace).unwrap_err();
    assert_eq!(e, TraceError::LinkError);
    let routine = Compiler::new(all_helpers(), vec![(77, 0x2000)]).compile(&trace).unwrap();
    assert_eq!(routine.insts[1], MachInst::CallHelper1 { target: 0x2000, a0: 0 });
}

#[test]
fn helper_calls_consume_supplied_results_in_order() {
    let mut r = Recorder::new(ANCHOR, SELF, EP);
    r.record_instruction(100, Insn::PutSelf).unwrap();
    r.record_instruction(
        108,
        Insn::OptSend { call_site: 1, cache_handle: 77, target: Some(0x2000) },
    )
    .unwrap();
    r.record_instruction(116, Insn::Pop).unwrap();
    r.record_instruction(ANCHOR, Insn::PutNil).unwrap();
    let trace = r.into_trace();
    let routine = Compiler::new(all_helpers(), vec![(77, 0x2000)]).compile(&trace).unwrap();
    // One call per iteration: two supplied results cover two iterations.
    let mut mem = Mem::new();
    assert_eq!(run(&routine, &mut mem, &vec![21, 21], 2), RunOutcome::Running);
    // A third iteration finds the supply exhausted.
    let mut mem = Mem::new();
    assert_eq!(run(&routine, &mut mem, &vec![21, 21], 3), RunOutcome::Starved);
}

#[test]
fn counting_loop_runs_ten_iterations_then_side_exits() {
    // The loop body of `i = i + 1; until i == 10`, with the local slot
    // holding the tagged integer 0 at entry.
    let offset = 3u64;
    let addr = EP - 8 * offset;
    let mut r = Recorder::new(ANCHOR, SELF, EP);
    r.record_instruction(100, Insn::GetLocal { offset, observed: ValueTag::Fixnum }).unwrap();
    r.record_instruction(108, Insn::PutObjectFixOne).unwrap();
    r.record_instruction(116, Insn::OptPlus).unwrap();
    r.record_instruction(124, Insn::SetLocal { offset }).unwrap();
    r.record_instruction(132, Insn::GetLocal { offset, observed: ValueTag::Fixnum }).unwrap();
    r.record_instruction(140, Insn::PutObject { value: encode_fixnum(10) }).unwrap();
    r.record_instruction(148, Insn::OptEq).unwrap();
    // The condition was false while recording: branch-if-false taken.
    r.record_instruction(156, Insn::BranchUnless { observed: ValueTag::False }).unwrap();
    r.record_instruction(ANCHOR, Insn::PutNil).unwrap();
    assert!(r.complete);
    let trace = r.into_trace();
    let routine = Compiler::new(all_helpers(), Vec::new()).compile(&trace).unwrap();

    let oracle: Vec<u64> = Vec::new();
    // Nine iterations are not enough to reach ten.
    let mut mem = Mem { slots: vec![(addr, encode_fixnum(0))] };
    assert_eq!(run(&routine, &mut mem, &oracle, 9), RunOutcome::Running);
    assert_eq!(mem.read(addr), encode_fixnum(9));
    // The tenth iteration raises the counter to ten and the equality
    // guard side-exits, resuming past the branch with the initial self.
    let mut mem = Mem { slots: vec![(addr, encode_fixnum(0))] };
    assert_eq!(
        run(&routine, &mut mem, &oracle, 10),
        RunOutcome::SideExit { pc: 164, self_val: SELF }
    );
    assert_eq!(mem.read(addr), encode_fixnum(10));
    // More budget changes nothing: the exit already happened.
    let mut mem = Mem { slots: vec![(addr, encode_fixnum(0))] };
    assert_eq!(
        run(&routine, &mut mem, &oracle, 1_000_000),
        RunOutcome::SideExit { pc: 164, self_val: SELF }
    );
    assert_eq!(mem.read(addr), encode_fixnum(10));
}

#[test]
fn stores_box_the_unboxed_result() {
    // One increment: the store writes the tagged form of the sum.
    let offset = 1u64;
    let addr = EP - 8;
    let mut r = Recorder::new(ANCHOR, SELF, EP);
    r.record_instruction(100, Insn::GetLocal { offset, observed: ValueTag::Fixnum }).unwrap();
    r.record_instruction(108, Insn::PutObjectFixOne).unwrap();
    r.record_instruction(116, Insn::OptPlus).unwrap();
    r.record_instruction(124, Insn::SetLocal { offset }).unwrap();
    r.record_instruction(ANCHOR, Insn::PutNil).unwrap();
    let trace = r.into_trace();
    let routine = Compiler::new(all_helpers(), Vec::new()).compile(&trace).unwrap();
    let mut mem = Mem { slots: vec![(addr, encode_fixnum(41))] };
    let oracle: Vec<u64> = Vec::new();
    assert_eq!(run(&routine, &mut mem, &oracle, 1), RunOutcome::Running);
    assert_eq!(mem.read(addr), encode_fixnum(42));
}

#[test]
fn memory_reads_back_the_last_write() {
    let mut mem = Mem::new();
    assert_eq!(mem.read(776), 0);
    mem.write(776, 21);
    assert_eq!(mem.read(776), 21);
    mem.write(776, 3);
    assert_eq!(mem.read(776), 3);
    mem.write(784, 9);
    assert_eq!(mem.read(776), 3);
    assert_eq!(mem.read(784), 9);
}

#[test]
fn signed_less_than_compares_negative_correctly() {
    // a < b with a negative: slot a holds -5, slot b holds 3.
    let addr_a = EP - 8;
    let addr_b = EP - 16;
    let mut r = Recorder::new(ANCHOR, SELF, EP);
    r.record_instruction(100, Insn::GetLocal { offset: 1, observed: ValueTag::Fixnum }).unwrap();
    r.record_instruction(108, Insn::GetLocal { offset: 2, observed: ValueTag::Fixnum }).unwrap();
    r.record_instruction(116, Insn::OptLt).unwrap();
    // The comparison was true while recording: branch-if-true taken.
    r.record_instruction(124, Insn::BranchIf { observed: ValueTag::True }).unwrap();
    r.record_instruction(ANCHOR, Insn::PutNil).unwrap();
    let trace = r.into_trace();
    let routine = Compiler::new(no_helpers(), Vec::new()).compile(&trace).unwrap();
    let oracle: Vec<u64> = Vec::new();
    // -5 < 3 holds: the guard holds and the loop keeps running.
    let mut mem = Mem {
        slots: vec![(addr_a, encode_fixnum(-5)), (addr_b, encode_fixnum(3))],
    };
    assert_eq!(run(&routine, &mut mem, &oracle, 50), RunOutcome::Running);
    // 7 < 3 fails: the guard side-exits at once.
    let mut mem = Mem {
        slots: vec![(addr_a, encode_fixnum(7)), (addr_b, encode_fixnum(3))],
    };
    assert_eq!(
        run(&routine, &mut mem, &oracle, 50),
        RunOutcome::SideExit { pc: 132, self_val: SELF }
    );
}

#[test]
fn offset_below_the_frame_is_a_structural_error() {
    let mut r = Recorder::new(ANCHOR, SELF, EP);
    // Eight bytes a slot: an offset past the frame base cannot resolve.
    let e = r
        .record_instruction(100, Insn::GetLocal { offset: EP, observed: ValueTag::Fixnum })
        .unwrap_err();
    assert_eq!(e, TraceError::StructuralError);
    let e = r.record_instruction(108, Insn::SetLocal { offset: u64::MAX }).unwrap_err();
    assert_eq!(e, TraceError::StructuralError);
    assert!(r.nodes.is_empty());
}

#[test]
fn session_feeds_one_trace_through_to_the_routine() {
    let offset = 3u64;
    let addr = EP - 8 * offset;
    let mut s = Session::new();
    s.begin_trace(ANCHOR, SELF, EP).unwrap();
    let steps: Vec<(u64, Insn)> = vec![
        (100, Insn::GetLocal { offset, observed: ValueTag::Fixnum }),
        (108, Insn::PutObjectFixOne),
        (116, Insn::OptPlus),
        (124, Insn::SetLocal { offset }),
        (132, Insn::GetLocal { offset, observed: ValueTag::Fixnum }),
        (140, Insn::PutObject { value: encode_fixnum(10) }),
        (148, Insn::OptEq),
        (156, Insn::BranchUnless { observed: ValueTag::False }),
    ];
    for (pc, insn) in steps {
        assert!(s.record_instruction(pc, insn).unwrap().is_none());
    }
    let trace = s.record_instruction(ANCHOR, Insn::PutNil).unwrap().unwrap();
    let routine = Compiler::new(all_helpers(), Vec::new()).compile(&trace).unwrap();
    let mut mem = Mem { slots: vec![(addr, encode_fixnum(0))] };
    let oracle: Vec<u64> = Vec::new();
    assert_eq!(
        run(&routine, &mut mem, &oracle, 100),
        RunOutcome::SideExit { pc: 164, self_val: SELF }
    );
    assert_eq!(mem.read(addr), encode_fixnum(10));
}
