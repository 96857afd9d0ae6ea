//! The properties the library promises across its components, each
//! proved against the step and lowering functions the contracts use.

use vstd::prelude::*;
use crate::value::ValueTag;
use crate::ir::IrType;
use crate::ir::InternalType;
use crate::ir::SsaOrValue;
use crate::ir::YarvOp;
use crate::ir::OpCode;
use crate::ir::IrNodeV;
use crate::ir::TraceError;
use crate::ir::nodes_wf;
use crate::ir::node_wf;
use crate::recorder::Insn;
use crate::recorder::RecorderM;
use crate::recorder::record_step;
use crate::recorder::cache_lookup;
use crate::recorder::cache_remove;
use crate::recorder::slot_addr;
use crate::recorder::node_v;
use crate::compiler::CtxV;
use crate::compiler::LowerState;
use crate::compiler::MachInst;
use crate::compiler::lower_node;
use crate::compiler::lower_from;
use crate::compiler::lower_init;
use crate::compiler::lower_trace;
use crate::machine::IterRes;
use crate::machine::RunOutcome;
use crate::machine::run_iter;
use crate::machine::run_spec;
use crate::machine::guard_trips;

verus! {

/// Stack discipline of a binary operation: with at least two values on
/// the symbolic stack, recording an add pops both and pushes one node
/// whose SSA operands are the right-popped then the left-popped
/// reference, in that order.
pub proof fn lemma_binary_pops_in_stack_order(m: RecorderM, pc: u64)
    requires
        !m.complete,
        pc != m.anchor,
        m.stack.len() >= 2,
    ensures
        ({
            let right = m.stack.last();
            let left = m.stack[m.stack.len() - 2];
            let node = node_v(
                IrType::Internal(InternalType::I64),
                OpCode::Yarv(YarvOp::OptPlus),
                Seq::empty(),
                seq![right, left],
            );
            record_step(m, pc, Insn::OptPlus) == Ok::<RecorderM, TraceError>(
                RecorderM {
                    nodes: m.nodes.push(node),
                    stack: m.stack.subrange(0, m.stack.len() - 2).push(m.nodes.len() as usize),
                    ..m
                },
            )
        }),
{
}

/// Stack discipline on underflow: recording a binary add with fewer than
/// two available values fails with a structural error, never silently.
pub proof fn lemma_binary_underflow_is_structural(m: RecorderM, pc: u64)
    requires
        !m.complete,
        pc != m.anchor,
        m.stack.len() < 2,
    ensures
        record_step(m, pc, Insn::OptPlus) == Err::<RecorderM, TraceError>(
            TraceError::StructuralError,
        ),
{
}

/// A branch records a guard on the observed tag, immediately followed by
/// its snapshot, and the snapshot always carries the resumption program
/// counter one instruction width past the branch.
pub proof fn lemma_branch_snapshot_resume_pc(m: RecorderM, pc: u64, observed: ValueTag)
    requires
        !m.complete,
        pc != m.anchor,
        m.stack.len() >= 1,
        pc + 8 <= u64::MAX,
    ensures
        ({
            let guard = node_v(
                IrType::Unit,
                OpCode::Guard(IrType::Yarv(observed)),
                Seq::empty(),
                seq![m.stack.last()],
            );
            let snap = node_v(
                IrType::Unit,
                OpCode::Snapshot((pc + 8) as u64, SsaOrValue::Value(m.self_)),
                Seq::empty(),
                Seq::empty(),
            );
            record_step(m, pc, Insn::BranchUnless { observed }) == Ok::<RecorderM, TraceError>(
                RecorderM { nodes: m.nodes.push(guard).push(snap), stack: m.stack.drop_last(), ..m },
            ) && record_step(m, pc, Insn::BranchIf { observed }) == Ok::<RecorderM, TraceError>(
                RecorderM { nodes: m.nodes.push(guard).push(snap), stack: m.stack.drop_last(), ..m },
            )
        }),
{
}

/// Guard polarity.  A guard recorded from an observed false — the
/// branch-if-false direction — lowers to a side exit taken exactly when
/// the runtime value is truthy (nonzero); one recorded from an observed
/// true lowers to a side exit taken exactly when the value is falsy
/// (zero).  Either way the exit resumes at the paired snapshot's program
/// counter.
pub proof fn lemma_guard_polarity(
    ctx: CtxV,
    nodes: Seq<IrNodeV>,
    i: int,
    st: LowerState,
    observed: ValueTag,
    v: u64,
)
    requires
        0 <= i < nodes.len(),
        node_wf(nodes, i),
        nodes[i].opcode == OpCode::Guard(IrType::Yarv(observed)),
        observed == ValueTag::True || observed == ValueTag::False,
        nodes[i + 1].opcode matches OpCode::Snapshot(_, SsaOrValue::Value(_)),
        st.map.len() == i,
        forall|j: int| 0 <= j < st.map.len() ==> st.map[j] < st.insts.len(),
    ensures
        lower_node(ctx, nodes, i, st) is Ok,
        ({
            let st2 = lower_node(ctx, nodes, i, st)->Ok_0;
            let inst = st2.insts.last();
            &&& (inst matches MachInst::Guard { exit_when_truthy, resume_pc, .. }
                && exit_when_truthy == (observed == ValueTag::False)
                && (nodes[i + 1].opcode matches OpCode::Snapshot(rpc, _) && resume_pc == rpc)
                && guard_trips(v, exit_when_truthy) == (if observed == ValueTag::False {
                    v != 0
                } else {
                    v == 0
                }))
        }),
{
}

/// Local-slot cache: a hit on a later lookup after an insert of the same
/// address.
pub proof fn lemma_cache_lookup_push(c: Seq<(u64, usize)>, addr: u64, idx: usize)
    requires
        cache_lookup(c, addr) is None,
    ensures
        cache_lookup(c.push((addr, idx)), addr) == Some(idx),
    decreases c.len(),
{
    if c.len() == 0 {
        assert(c.push((addr, idx))[0] == (addr, idx));
    } else {
        assert(c.push((addr, idx)).subrange(1, c.push((addr, idx)).len() as int) =~= c.subrange(
            1,
            c.len() as int,
        ).push((addr, idx)));
        lemma_cache_lookup_push(c.subrange(1, c.len() as int), addr, idx);
    }
}

/// Local-slot cache: invalidation removes every entry for the address.
pub proof fn lemma_cache_remove_clears(c: Seq<(u64, usize)>, addr: u64)
    ensures
        cache_lookup(cache_remove(c, addr), addr) is None,
    decreases c.len(),
{
    if c.len() > 0 {
        lemma_cache_remove_clears(c.subrange(1, c.len() as int), addr);
        if c[0].0 != addr {
            let rest = cache_remove(c.subrange(1, c.len() as int), addr);
            assert((seq![c[0]] + rest).subrange(1, (seq![c[0]] + rest).len() as int) =~= rest);
        }
    }
}

/// Local-slot cache coherence, reading twice: recording a read of a slot
/// not yet cached emits exactly one stack-load node; recording a second
/// read of the same slot with no intervening write emits no node, and
/// both reads resolve to the same reference.
pub proof fn lemma_cache_read_read(m: RecorderM, pc1: u64, pc2: u64, offset: u64, t1: ValueTag, t2: ValueTag)
    requires
        !m.complete,
        pc1 != m.anchor,
        pc2 != m.anchor,
        slot_addr(m.ep, offset) is Some,
        cache_lookup(m.cache, slot_addr(m.ep, offset)->Some_0) is None,
    ensures
        ({
            let addr = slot_addr(m.ep, offset)->Some_0;
            let idx = m.nodes.len() as usize;
            &&& record_step(m, pc1, Insn::GetLocal { offset, observed: t1 }) is Ok
            &&& ({
                let m1 = record_step(m, pc1, Insn::GetLocal { offset, observed: t1 })->Ok_0;
                &&& m1.nodes.len() == m.nodes.len() + 1
                &&& m1.nodes.last().opcode == OpCode::StackLoad(addr)
                &&& m1.stack.last() == idx
                &&& record_step(m1, pc2, Insn::GetLocal { offset, observed: t2 }) is Ok
                &&& ({
                    let m2 = record_step(m1, pc2, Insn::GetLocal { offset, observed: t2 })->Ok_0;
                    &&& m2.nodes == m1.nodes
                    &&& m2.stack.last() == idx
                })
            })
        }),
{
    let addr = slot_addr(m.ep, offset)->Some_0;
    let idx = m.nodes.len() as usize;
    lemma_cache_lookup_push(m.cache, addr, idx);
}

/// Local-slot cache coherence across a write: after recording a write to
/// a slot, a following read of that slot cannot reuse any pre-write
/// reference — it emits a fresh stack-load node.
pub proof fn lemma_cache_write_invalidates(m: RecorderM, pc1: u64, pc2: u64, offset: u64, t: ValueTag)
    requires
        !m.complete,
        pc1 != m.anchor,
        pc2 != m.anchor,
        m.stack.len() >= 1,
        m.nodes.len() + 1 <= usize::MAX,
        slot_addr(m.ep, offset) is Some,
    ensures
        record_step(m, pc1, Insn::SetLocal { offset }) is Ok,
        ({
            let addr = slot_addr(m.ep, offset)->Some_0;
            let m1 = record_step(m, pc1, Insn::SetLocal { offset })->Ok_0;
            &&& cache_lookup(m1.cache, addr) is None
            &&& record_step(m1, pc2, Insn::GetLocal { offset, observed: t }) is Ok
            &&& ({
                let m2 = record_step(m1, pc2, Insn::GetLocal { offset, observed: t })->Ok_0;
                &&& m2.nodes.len() == m1.nodes.len() + 1
                &&& m2.nodes.last().opcode == OpCode::StackLoad(addr)
                &&& m2.stack.last() == (m1.nodes.len() as usize)
                &&& m2.stack.last() >= m.nodes.len()
            })
        }),
{
    let addr = slot_addr(m.ep, offset)->Some_0;
    lemma_cache_remove_clears(m.cache, addr);
}

/// Whether an opcode is one of the pure constant pushes.
pub open spec fn const_push_op(op: OpCode) -> bool {
    ||| op == OpCode::Yarv(YarvOp::PutNil)
    ||| op == OpCode::Yarv(YarvOp::PutObjectFixZero)
    ||| op == OpCode::Yarv(YarvOp::PutObjectFixOne)
    ||| op == OpCode::Yarv(YarvOp::PutObject)
    ||| op == OpCode::Yarv(YarvOp::PutString)
    ||| op == OpCode::Yarv(YarvOp::PutSelf)
}

/// A trace of only constant pushes closed by the loop node.
pub open spec fn straightline_const_trace(nodes: Seq<IrNodeV>) -> bool {
    &&& nodes.len() > 0
    &&& nodes.last().opcode is Loop
    &&& forall|i: int| 0 <= i < nodes.len() - 1 ==> const_push_op(#[trigger] nodes[i].opcode)
}

/// An instruction sequence of constants and the loop-back alone.
pub open spec fn calm(insts: Seq<MachInst>) -> bool {
    forall|k: int| 0 <= k < insts.len() ==> (#[trigger] insts[k] is ConstVal || insts[k] is LoopBack)
}

/// Lowering a straight-line constant trace from any calm state succeeds
/// and emits only constants and the loop-back.
proof fn lemma_lower_const_from(ctx: CtxV, nodes: Seq<IrNodeV>, i: int, st: LowerState)
    requires
        0 <= i <= nodes.len(),
        straightline_const_trace(nodes),
        calm(st.insts),
        st.cur_self is Const,
    ensures
        lower_from(ctx, nodes, i, st) is Ok,
        calm(lower_from(ctx, nodes, i, st)->Ok_0.insts),
    decreases nodes.len() - i,
{
    if i < nodes.len() {
        let st2 = lower_node(ctx, nodes, i, st)->Ok_0;
        if i < nodes.len() - 1 {
            assert(const_push_op(nodes[i].opcode));
        } else {
            assert(nodes[i] == nodes.last());
        }
        assert(lower_node(ctx, nodes, i, st) is Ok);
        assert(calm(st2.insts)) by {
            assert(forall|k: int| 0 <= k < st.insts.len() ==> st2.insts[k] == st.insts[k]);
        }
        lemma_lower_const_from(ctx, nodes, i + 1, st2);
    }
}

/// A calm loop body runs through without exiting: one pass leaves the
/// memory and the helper cursor untouched.
proof fn lemma_calm_iter(
    insts: Seq<MachInst>,
    j: int,
    vals: Seq<u64>,
    mem: Seq<(u64, u64)>,
    oracle: Seq<u64>,
    oi: int,
)
    requires
        calm(insts),
    ensures
        run_iter(insts, j, vals, mem, oracle, oi) == (IterRes::Cont { mem: mem, oi: oi }),
    decreases insts.len() - j,
{
    if 0 <= j < insts.len() {
        if insts[j] is ConstVal {
            lemma_calm_iter(insts, j + 1, vals.push(insts[j]->ConstVal_value), mem, oracle, oi);
        }
    }
}

/// A calm routine never returns on its own: for any iteration budget the
/// run ends still running, with the memory unchanged.
proof fn lemma_calm_run(
    insts: Seq<MachInst>,
    mem: Seq<(u64, u64)>,
    oracle: Seq<u64>,
    oi: int,
    fuel: nat,
)
    requires
        calm(insts),
    ensures
        run_spec(insts, mem, oracle, oi, fuel) == (RunOutcome::Running, mem),
    decreases fuel,
{
    if fuel > 0 {
        lemma_calm_iter(insts, 0, Seq::empty(), mem, oracle, oi);
        lemma_calm_run(insts, mem, oracle, oi, (fuel - 1) as nat);
    }
}

/// A trace of only constant pushes followed by the loop close compiles,
/// and the compiled loop, once entered, never returns without an
/// external stop: whatever the iteration budget, the run is still
/// running, having touched nothing.
pub proof fn lemma_straightline_loop_never_exits(
    ctx: CtxV,
    nodes: Seq<IrNodeV>,
    self_: u64,
    mem: Seq<(u64, u64)>,
    oracle: Seq<u64>,
    fuel: nat,
)
    requires
        straightline_const_trace(nodes),
    ensures
        lower_trace(ctx, nodes, self_) is Ok,
        run_spec(lower_trace(ctx, nodes, self_)->Ok_0.insts, mem, oracle, 0, fuel) == (
            RunOutcome::Running,
            mem,
        ),
{
    lemma_lower_const_from(ctx, nodes, 0, lower_init(self_));
    lemma_calm_run(lower_trace(ctx, nodes, self_)->Ok_0.insts, mem, oracle, 0, fuel);
}

/// The standing invariant of a recorder: its node sequence is well
/// formed, the loop-closing node appears exactly when the trace is
/// complete and then only at the end, and every stack or cache reference
/// names a recorded node.
pub open spec fn recorder_inv(m: RecorderM) -> bool {
    &&& nodes_wf(m.nodes)
    &&& (m.complete ==> m.nodes.len() > 0 && m.nodes.last().opcode is Loop)
    &&& (!m.complete ==> forall|i: int| 0 <= i < m.nodes.len() ==> !(#[trigger] m.nodes[i].opcode is Loop))
    &&& forall|i: int| 0 <= i < m.stack.len() ==> #[trigger] m.stack[i] < m.nodes.len()
    &&& forall|i: int| 0 <= i < m.cache.len() ==> (#[trigger] m.cache[i]).1 < m.nodes.len()
    &&& m.nodes.len() + 2 <= usize::MAX
}

/// A fresh recorder satisfies the invariant.
pub proof fn lemma_recorder_init_inv(anchor: u64, self_: u64, ep: u64)
    ensures
        recorder_inv(crate::recorder::recorder_init(anchor, self_, ep)),
{
}

/// Every lookup that hits yields a reference the cache held.
proof fn lemma_cache_lookup_bound(c: Seq<(u64, usize)>, addr: u64, bound: int)
    requires
        forall|i: int| 0 <= i < c.len() ==> (#[trigger] c[i]).1 < bound,
        cache_lookup(c, addr) is Some,
    ensures
        cache_lookup(c, addr)->Some_0 < bound,
    decreases c.len(),
{
    if c.len() > 0 && c[0].0 != addr {
        assert(forall|i: int| 0 <= i < c.subrange(1, c.len() as int).len() ==> (#[trigger] c.subrange(
            1,
            c.len() as int,
        )[i]).1 < bound);
        lemma_cache_lookup_bound(c.subrange(1, c.len() as int), addr, bound);
    }
}

/// Invalidation drops entries, so every surviving reference was held
/// before.
proof fn lemma_cache_remove_bound(c: Seq<(u64, usize)>, addr: u64, bound: int)
    requires
        forall|i: int| 0 <= i < c.len() ==> (#[trigger] c[i]).1 < bound,
    ensures
        forall|i: int|
            0 <= i < cache_remove(c, addr).len() ==> (#[trigger] cache_remove(c, addr)[i]).1
                < bound,
    decreases c.len(),
{
    if c.len() > 0 {
        assert(forall|i: int| 0 <= i < c.subrange(1, c.len() as int).len() ==> (#[trigger] c.subrange(
            1,
            c.len() as int,
        )[i]).1 < bound);
        lemma_cache_remove_bound(c.subrange(1, c.len() as int), addr, bound);
        let rest = cache_remove(c.subrange(1, c.len() as int), addr);
        let whole = cache_remove(c, addr);
        assert forall|i: int| 0 <= i < whole.len() implies (#[trigger] whole[i]).1 < bound by {
            if c[0].0 == addr {
                assert(whole[i] == rest[i]);
                assert(rest[i].1 < bound);
            } else if i == 0 {
                assert(whole[0] == c[0]);
            } else {
                assert(whole[i] == rest[i - 1]);
                assert(rest[i - 1].1 < bound);
            }
        }
    }
}

/// Pushing one non-guard node with the right arities and in-range
/// references keeps a node sequence well formed.
proof fn lemma_nodes_wf_push(nodes: Seq<IrNodeV>, n: IrNodeV)
    requires
        nodes_wf(nodes),
        n.ssa_operands.len() == crate::ir::ssa_arity(n.opcode),
        n.operands.len() == crate::ir::imm_arity(n.opcode),
        forall|j: int| 0 <= j < n.ssa_operands.len() ==> n.ssa_operands[j] < nodes.len(),
        !(n.opcode is Guard),
        forall|i: int| 0 <= i < nodes.len() ==> !((#[trigger] nodes[i]).opcode is Loop),
    ensures
        nodes_wf(nodes.push(n)),
{
    let grown = nodes.push(n);
    assert forall|i: int| 0 <= i < grown.len() implies node_wf(grown, i) by {
        if i < nodes.len() {
            assert(node_wf(nodes, i));
            assert(grown[i] == nodes[i]);
        } else {
            assert(grown[i] == n);
        }
    }
    assert forall|i: int| 0 <= i < grown.len() - 1 implies !((#[trigger] grown[i]).opcode
        is Loop) by {
        assert(grown[i] == nodes[i]);
    }
}

/// Pushing a guard immediately followed by its snapshot keeps a node
/// sequence well formed.
proof fn lemma_nodes_wf_push_pair(nodes: Seq<IrNodeV>, guard: IrNodeV, snap: IrNodeV)
    requires
        nodes_wf(nodes),
        guard.opcode is Guard,
        guard.ssa_operands.len() == 1,
        guard.ssa_operands[0] < nodes.len(),
        guard.operands.len() == 0,
        snap.opcode is Snapshot,
        snap.ssa_operands.len() == 0,
        snap.operands.len() == 0,
        forall|i: int| 0 <= i < nodes.len() ==> !((#[trigger] nodes[i]).opcode is Loop),
    ensures
        nodes_wf(nodes.push(guard).push(snap)),
{
    let grown = nodes.push(guard).push(snap);
    assert forall|i: int| 0 <= i < grown.len() implies node_wf(grown, i) by {
        if i < nodes.len() {
            assert(node_wf(nodes, i));
            assert(grown[i] == nodes[i]);
        } else if i == nodes.len() {
            assert(grown[i] == guard);
            assert(grown[i + 1] == snap);
        } else {
            assert(grown[i] == snap);
        }
    }
    assert forall|i: int| 0 <= i < grown.len() - 1 implies !((#[trigger] grown[i]).opcode
        is Loop) by {
        if i < nodes.len() {
            assert(grown[i] == nodes[i]);
        } else {
            assert(grown[i] == guard);
        }
    }
}

/// One recording step keeps the recorder invariant: whatever the
/// instruction, a recorder that was coherent stays coherent, so every
/// trace the recorder completes is well formed with the loop node last
/// and nowhere else.
pub proof fn lemma_record_step_preserves_inv(m: RecorderM, pc: u64, insn: Insn)
    requires
        recorder_inv(m),
        record_step(m, pc, insn) is Ok,
        record_step(m, pc, insn)->Ok_0.nodes.len() + 2 <= usize::MAX,
    ensures
        recorder_inv(record_step(m, pc, insn)->Ok_0),
{
    let m2 = record_step(m, pc, insn)->Ok_0;
    if m.nodes.len() > 0 && pc == m.anchor {
        lemma_nodes_wf_push(
            m.nodes,
            node_v(IrType::Unit, OpCode::Loop, Seq::empty(), Seq::empty()),
        );
    } else {
        match insn {
            Insn::GetLocal { offset, observed } => {
                if cache_lookup(m.cache, slot_addr(m.ep, offset)->Some_0) is Some {
                    lemma_cache_lookup_bound(
                        m.cache,
                        slot_addr(m.ep, offset)->Some_0,
                        m.nodes.len() as int,
                    );
                } else {
                    lemma_nodes_wf_push(m.nodes, m2.nodes.last());
                }
            },
            Insn::SetLocal { offset } => {
                lemma_cache_remove_bound(
                    m.cache,
                    slot_addr(m.ep, offset)->Some_0,
                    m.nodes.len() as int,
                );
                lemma_nodes_wf_push(m.nodes, m2.nodes.last());
            },
            Insn::BranchIf { .. } => {
                lemma_nodes_wf_push_pair(
                    m.nodes,
                    m2.nodes[m.nodes.len() as int],
                    m2.nodes[m.nodes.len() as int + 1],
                );
            },
            Insn::BranchUnless { .. } => {
                lemma_nodes_wf_push_pair(
                    m.nodes,
                    m2.nodes[m.nodes.len() as int],
                    m2.nodes[m.nodes.len() as int + 1],
                );
            },
            Insn::OptSend { target, .. } => {
                if target is Some {
                    lemma_nodes_wf_push(m.nodes, m2.nodes.last());
                }
            },
            Insn::Dup => {
            },
            Insn::Pop => {
            },
            Insn::Leave => {
            },
            Insn::Unknown => {
            },
            _ => {
                if m2.nodes.len() > m.nodes.len() {
                    lemma_nodes_wf_push(m.nodes, m2.nodes.last());
                }
            },
        }
    }
}

/// A trace handed over by a recorder that kept its invariant is well
/// formed, as the compiler requires.
pub proof fn lemma_recorded_trace_wf(t: crate::ir::Trace, m: RecorderM)
    requires
        recorder_inv(m),
        t.nodes_v() == m.nodes,
        t.complete == m.complete,
    ensures
        t.wf(),
{
}

} // verus!
