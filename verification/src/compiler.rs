//! The compiler: lowers one completed trace into a single loop routine.
//!
//! The routine is an explicit machine model: an ordered instruction
//! sequence executed as one loop body, each instruction producing one
//! value, with guards carrying their deoptimization hand-back (the paired
//! snapshot's resumption program counter and self value) as a tagged
//! result rather than a bare early return.  Runtime-helper and call-cache
//! addresses come in as context values populated once, so a missing
//! symbol is a checked link error at lowering time.
//!
//! Every accepted trace lowers to exactly the instruction sequence the
//! `lower_from` spec gives, and every rejection returns the error it
//! gives.

use vstd::prelude::*;
use crate::value::QNIL;
use crate::value::ValueTag;
use crate::value::fix_untag_word;
use crate::value::untag_fixnum_word;
use crate::ir::IrType;
use crate::ir::InternalType;
use crate::ir::SsaOrValue;
use crate::ir::YarvOp;
use crate::ir::OpCode;
use crate::ir::IrNode;
use crate::ir::IrNodeV;
use crate::ir::Trace;
use crate::ir::TraceError;
use crate::ir::nodes_view;
use crate::ir::node_wf;

verus! {

/// The self value a guard restores: a constant, or a routine value index
/// when self was reassigned within the trace.
#[derive(Clone, Copy, Debug, PartialEq, Eq, Structural)]
pub enum SelfVal {
    Const(u64),
    Reg(usize),
}

/// One instruction of the lowered routine.  Operand fields index earlier
/// instructions' values; addresses are absolute frame-slot addresses.
#[derive(Clone, Copy, Debug, PartialEq, Eq, Structural)]
pub enum MachInst {
    /// Materialize a constant.
    ConstVal { value: u64 },
    /// Wrapping 64-bit addition of two unboxed values.
    Add { lhs: usize, rhs: usize },
    /// Equality comparison, producing 1 or 0.
    CmpEq { lhs: usize, rhs: usize },
    /// Signed less-than comparison, producing 1 or 0.
    CmpLt { lhs: usize, rhs: usize },
    /// 1 when the value is zero, else 0.
    IsZero { src: usize },
    /// Negation of a native boolean bit.
    BoolNot { src: usize },
    /// Load from a frame slot.
    Load { addr: u64 },
    /// Store a value to a frame slot.
    Store { src: usize, addr: u64 },
    /// Box an unboxed integer into its tagged form.
    TagFix { src: usize },
    /// Unbox a tagged integer, keeping the sign.
    UntagFix { src: usize },
    /// Box a native boolean bit into its tagged form.
    TagBool { src: usize },
    /// Call an external runtime helper with no argument.
    CallHelper0 { target: u64 },
    /// Call an external runtime helper with one argument.
    CallHelper1 { target: u64, a0: usize },
    /// Call an external runtime helper with two arguments.
    CallHelper2 { target: u64, a0: usize, a1: usize },
    /// Call an external runtime helper with three arguments.
    CallHelper3 { target: u64, a0: usize, a1: usize, a2: usize },
    /// Side-exit check: leave the routine with the recorded resumption
    /// state when the guarded value disagrees with the expectation.
    Guard { src: usize, exit_when_truthy: bool, resume_pc: u64, resume_self: SelfVal },
    /// Close the loop: re-enter the loop body from the start.
    LoopBack,
}

/// The lowered routine: one loop body, entered with the environment and
/// re-entered by its final loop-back instruction.
#[derive(Clone, Debug)]
pub struct Routine {
    pub insts: Vec<MachInst>,
}

/// The fixed runtime-helper table the routine links calls against,
/// populated once at initialization; an absent entry is a link error at
/// lowering time.
#[derive(Clone, Copy, Debug)]
pub struct HelperTable {
    pub new_array: Option<u64>,
    pub array_get: Option<u64>,
    pub array_set: Option<u64>,
    pub array_append: Option<u64>,
    pub new_hash: Option<u64>,
    pub hash_get: Option<u64>,
    pub hash_set: Option<u64>,
    pub str_len: Option<u64>,
    pub ary_len: Option<u64>,
    pub ary_resurrect: Option<u64>,
}

/// The native target resolved for a call-cache handle, if any.
pub open spec fn target_lookup(t: Seq<(u64, u64)>, handle: u64) -> Option<u64>
    decreases t.len(),
{
    if t.len() == 0 {
        None
    } else if t[0].0 == handle {
        Some(t[0].1)
    } else {
        target_lookup(t.subrange(1, t.len() as int), handle)
    }
}

/// The compile-time context as the lowering spec reads it.
pub ghost struct CtxV {
    pub helpers: HelperTable,
    pub targets: Seq<(u64, u64)>,
}

/// The lowering state: the instructions emitted so far, the positional
/// map from trace node to the index of the value carrying its result, and
/// the tracked self.
#[verifier::ext_equal]
pub ghost struct LowerState {
    pub insts: Seq<MachInst>,
    pub map: Seq<usize>,
    pub cur_self: SelfVal,
}

/// The value-index operands an instruction reads.
pub open spec fn inst_reads(inst: MachInst) -> Seq<usize> {
    match inst {
        MachInst::ConstVal { .. } => Seq::empty(),
        MachInst::Add { lhs, rhs } => seq![lhs, rhs],
        MachInst::CmpEq { lhs, rhs } => seq![lhs, rhs],
        MachInst::CmpLt { lhs, rhs } => seq![lhs, rhs],
        MachInst::IsZero { src } => seq![src],
        MachInst::BoolNot { src } => seq![src],
        MachInst::Load { .. } => Seq::empty(),
        MachInst::Store { src, .. } => seq![src],
        MachInst::TagFix { src } => seq![src],
        MachInst::UntagFix { src } => seq![src],
        MachInst::TagBool { src } => seq![src],
        MachInst::CallHelper0 { .. } => Seq::empty(),
        MachInst::CallHelper1 { a0, .. } => seq![a0],
        MachInst::CallHelper2 { a0, a1, .. } => seq![a0, a1],
        MachInst::CallHelper3 { a0, a1, a2, .. } => seq![a0, a1, a2],
        MachInst::Guard { src, resume_self, .. } => match resume_self {
            SelfVal::Reg(r) => seq![src, r],
            SelfVal::Const(_) => seq![src],
        },
        MachInst::LoopBack => Seq::empty(),
    }
}

/// Routine well-formedness: every instruction reads only earlier values,
/// and the loop-back instruction stands only at the very end.
pub open spec fn routine_wf(insts: Seq<MachInst>) -> bool {
    &&& forall|k: int, j: int|
        0 <= k < insts.len() && 0 <= j < inst_reads(insts[k]).len() ==> inst_reads(insts[k])[j] < k
    &&& forall|k: int| 0 <= k < insts.len() && insts[k] is LoopBack ==> k == insts.len() - 1
}

/// A lowering state is coherent after `n` nodes: one map entry per node,
/// each naming an emitted value, the emitted prefix well formed, and the
/// tracked self naming an emitted value when it is a register.
pub open spec fn lower_wf(st: LowerState, n: int) -> bool {
    &&& st.map.len() == n
    &&& forall|j: int| 0 <= j < st.map.len() ==> st.map[j] < st.insts.len()
    &&& forall|k: int, j: int|
        0 <= k < st.insts.len() && 0 <= j < inst_reads(st.insts[k]).len() ==> inst_reads(
            st.insts[k],
        )[j] < k
    &&& st.cur_self matches SelfVal::Reg(r) ==> r < st.insts.len()
}

/// Box the value of the source node for a boundary that requires the
/// tagged form: an unboxed integer or boolean gets a tagging instruction,
/// an already-dynamic value passes unchanged, and a valueless node has no
/// lowering.  Yields the updated state and the value index to hand on.
pub open spec fn lower_box(st: LowerState, nodes: Seq<IrNodeV>, src: int) -> Result<
    (LowerState, usize),
    TraceError,
> {
    match nodes[src].type_ {
        IrType::Internal(InternalType::I64) => Ok(
            (
                LowerState {
                    insts: st.insts.push(MachInst::TagFix { src: st.map[src] }),
                    ..st
                },
                st.insts.len() as usize,
            ),
        ),
        IrType::Internal(InternalType::Bool) => Ok(
            (
                LowerState {
                    insts: st.insts.push(MachInst::TagBool { src: st.map[src] }),
                    ..st
                },
                st.insts.len() as usize,
            ),
        ),
        IrType::Internal(InternalType::Value) => Ok((st, st.map[src])),
        IrType::Yarv(_) => Ok((st, st.map[src])),
        IrType::Unit => Err(TraceError::UnsupportedOpcode),
    }
}

/// Emit one value-producing instruction and map the current node to it.
pub open spec fn emit_mapped(st: LowerState, inst: MachInst) -> LowerState {
    LowerState {
        insts: st.insts.push(inst),
        map: st.map.push(st.insts.len() as usize),
        ..st
    }
}

/// The lowering rule of the node at index `i`, applied to the state left
/// by the nodes before it.
pub open spec fn lower_node(ctx: CtxV, nodes: Seq<IrNodeV>, i: int, st: LowerState) -> Result<
    LowerState,
    TraceError,
> {
    let n = nodes[i];
    match n.opcode {
        OpCode::Yarv(y) => match y {
            YarvOp::PutSelf => match st.cur_self {
                SelfVal::Const(c) => Ok(emit_mapped(st, MachInst::ConstVal { value: c })),
                SelfVal::Reg(r) => Ok(LowerState { map: st.map.push(r), ..st }),
            },
            YarvOp::PutNil => Ok(emit_mapped(st, MachInst::ConstVal { value: QNIL })),
            YarvOp::PutObjectFixZero => Ok(emit_mapped(st, MachInst::ConstVal { value: 0 })),
            YarvOp::PutObjectFixOne => Ok(emit_mapped(st, MachInst::ConstVal { value: 1 })),
            YarvOp::PutObject => {
                let materialized = if n.type_ == IrType::Yarv(ValueTag::Fixnum) {
                    fix_untag_word(n.operands[0])
                } else {
                    n.operands[0]
                };
                Ok(emit_mapped(st, MachInst::ConstVal { value: materialized }))
            },
            YarvOp::PutString => Ok(emit_mapped(st, MachInst::ConstVal { value: n.operands[0] })),
            YarvOp::DupArray => match ctx.helpers.ary_resurrect {
                None => Err(TraceError::LinkError),
                Some(target) => {
                    let st1 = LowerState {
                        insts: st.insts.push(MachInst::ConstVal { value: n.operands[0] }),
                        ..st
                    };
                    Ok(
                        emit_mapped(
                            st1,
                            MachInst::CallHelper1 { target: target, a0: st.insts.len() as usize },
                        ),
                    )
                },
            },
            YarvOp::SetLocal => {
                let src = n.ssa_operands[0] as int;
                match lower_box(st, nodes, src) {
                    Err(e) => Err(e),
                    Ok((st1, v)) => Ok(
                        LowerState {
                            insts: st1.insts.push(
                                MachInst::Store { src: v, addr: n.operands[0] },
                            ),
                            map: st1.map.push(st.map[src]),
                            ..st1
                        },
                    ),
                }
            },
            YarvOp::OptPlus => Ok(
                emit_mapped(
                    st,
                    MachInst::Add {
                        lhs: st.map[n.ssa_operands[1] as int],
                        rhs: st.map[n.ssa_operands[0] as int],
                    },
                ),
            ),
            YarvOp::OptEq => Ok(
                emit_mapped(
                    st,
                    MachInst::CmpEq {
                        lhs: st.map[n.ssa_operands[1] as int],
                        rhs: st.map[n.ssa_operands[0] as int],
                    },
                ),
            ),
            YarvOp::OptLt => Ok(
                emit_mapped(
                    st,
                    MachInst::CmpLt {
                        lhs: st.map[n.ssa_operands[1] as int],
                        rhs: st.map[n.ssa_operands[0] as int],
                    },
                ),
            ),
            YarvOp::OptNot => {
                let src = n.ssa_operands[0] as int;
                match nodes[src].type_ {
                    IrType::Internal(InternalType::Bool) => Ok(
                        emit_mapped(st, MachInst::BoolNot { src: st.map[src] }),
                    ),
                    IrType::Internal(InternalType::Value) => Ok(
                        emit_mapped(st, MachInst::IsZero { src: st.map[src] }),
                    ),
                    _ => Err(TraceError::UnsupportedOpcode),
                }
            },
            YarvOp::OptEmptyP => match ctx.helpers.str_len {
                None => Err(TraceError::LinkError),
                Some(target) => {
                    let st1 = LowerState {
                        insts: st.insts.push(
                            MachInst::CallHelper1 {
                                target: target,
                                a0: st.map[n.ssa_operands[0] as int],
                            },
                        ),
                        ..st
                    };
                    Ok(emit_mapped(st1, MachInst::IsZero { src: st.insts.len() as usize }))
                },
            },
            YarvOp::OptSize => match ctx.helpers.ary_len {
                None => Err(TraceError::LinkError),
                Some(target) => {
                    let st1 = LowerState {
                        insts: st.insts.push(
                            MachInst::CallHelper1 {
                                target: target,
                                a0: st.map[n.ssa_operands[0] as int],
                            },
                        ),
                        ..st
                    };
                    Ok(emit_mapped(st1, MachInst::UntagFix { src: st.insts.len() as usize }))
                },
            },
            YarvOp::OptSend => match target_lookup(ctx.targets, n.operands[1]) {
                None => Err(TraceError::LinkError),
                Some(target) => Ok(
                    emit_mapped(
                        st,
                        MachInst::CallHelper1 {
                            target: target,
                            a0: st.map[n.ssa_operands[0] as int],
                        },
                    ),
                ),
            },
            YarvOp::GetLocal => Err(TraceError::UnsupportedOpcode),
        },
        OpCode::StackLoad(addr) => {
            if n.type_ == IrType::Internal(InternalType::I64) {
                let st1 = LowerState {
                    insts: st.insts.push(MachInst::Load { addr: addr }),
                    ..st
                };
                Ok(emit_mapped(st1, MachInst::UntagFix { src: st.insts.len() as usize }))
            } else {
                Ok(emit_mapped(st, MachInst::Load { addr: addr }))
            }
        },
        OpCode::Guard(t) => {
            let src = n.ssa_operands[0] as int;
            let exit_when_truthy = if t == IrType::Yarv(ValueTag::False) {
                true
            } else {
                false
            };
            if t != IrType::Yarv(ValueTag::True) && t != IrType::Yarv(ValueTag::False) {
                Err(TraceError::UnsupportedOpcode)
            } else {
                match nodes[i + 1].opcode {
                    OpCode::Snapshot(resume_pc, snap_self) => {
                        let resolved = match snap_self {
                            SsaOrValue::Value(v) => Ok(SelfVal::Const(v)),
                            SsaOrValue::Ssa(r) => if r < st.map.len() {
                                Ok(SelfVal::Reg(st.map[r as int]))
                            } else {
                                Err(TraceError::StructuralError)
                            },
                        };
                        match resolved {
                            Err(e) => Err(e),
                            Ok(resume_self) => Ok(
                                LowerState {
                                    insts: st.insts.push(
                                        MachInst::Guard {
                                            src: st.map[src],
                                            exit_when_truthy: exit_when_truthy,
                                            resume_pc: resume_pc,
                                            resume_self: resume_self,
                                        },
                                    ),
                                    map: st.map.push(st.map[src]),
                                    ..st
                                },
                            ),
                        }
                    },
                    _ => Err(TraceError::StructuralError),
                }
            }
        },
        OpCode::Snapshot(_, snap_self) => {
            let new_self = match snap_self {
                SsaOrValue::Ssa(r) => if r < st.map.len() {
                    Ok(SelfVal::Reg(st.map[r as int]))
                } else {
                    Err(TraceError::StructuralError)
                },
                SsaOrValue::Value(_) => Ok(st.cur_self),
            };
            match new_self {
                Err(e) => Err(e),
                Ok(s) => Ok(
                    LowerState {
                        insts: st.insts.push(MachInst::ConstVal { value: 0 }),
                        map: st.map.push(st.insts.len() as usize),
                        cur_self: s,
                    },
                ),
            }
        },
        OpCode::Loop => Ok(emit_mapped(st, MachInst::LoopBack)),
        OpCode::NewArray => match ctx.helpers.new_array {
            None => Err(TraceError::LinkError),
            Some(target) => Ok(emit_mapped(st, MachInst::CallHelper0 { target: target })),
        },
        OpCode::ArrayGet => {
            let arr = st.map[n.ssa_operands[0] as int];
            match lower_box(st, nodes, n.ssa_operands[1] as int) {
                Err(e) => Err(e),
                Ok((st1, key)) => match ctx.helpers.array_get {
                    None => Err(TraceError::LinkError),
                    Some(target) => Ok(
                        emit_mapped(st1, MachInst::CallHelper2 { target: target, a0: arr, a1: key }),
                    ),
                },
            }
        },
        OpCode::ArraySet => {
            let arr = st.map[n.ssa_operands[0] as int];
            match lower_box(st, nodes, n.ssa_operands[1] as int) {
                Err(e) => Err(e),
                Ok((st1, key)) => match lower_box(st1, nodes, n.ssa_operands[2] as int) {
                    Err(e) => Err(e),
                    Ok((st2, val)) => match ctx.helpers.array_set {
                        None => Err(TraceError::LinkError),
                        Some(target) => Ok(
                            emit_mapped(
                                st2,
                                MachInst::CallHelper3 { target: target, a0: arr, a1: key, a2: val },
                            ),
                        ),
                    },
                },
            }
        },
        OpCode::ArrayAppend => {
            let arr = st.map[n.ssa_operands[0] as int];
            match lower_box(st, nodes, n.ssa_operands[1] as int) {
                Err(e) => Err(e),
                Ok((st1, elem)) => match ctx.helpers.array_append {
                    None => Err(TraceError::LinkError),
                    Some(target) => Ok(
                        emit_mapped(
                            st1,
                            MachInst::CallHelper2 { target: target, a0: arr, a1: elem },
                        ),
                    ),
                },
            }
        },
        OpCode::NewHash => match ctx.helpers.new_hash {
            None => Err(TraceError::LinkError),
            Some(target) => Ok(emit_mapped(st, MachInst::CallHelper0 { target: target })),
        },
        OpCode::HashGet => {
            let hash = st.map[n.ssa_operands[0] as int];
            match lower_box(st, nodes, n.ssa_operands[1] as int) {
                Err(e) => Err(e),
                Ok((st1, key)) => match ctx.helpers.hash_get {
                    None => Err(TraceError::LinkError),
                    Some(target) => Ok(
                        emit_mapped(st1, MachInst::CallHelper2 { target: target, a0: hash, a1: key }),
                    ),
                },
            }
        },
        OpCode::HashSet => {
            let hash = st.map[n.ssa_operands[0] as int];
            match lower_box(st, nodes, n.ssa_operands[1] as int) {
                Err(e) => Err(e),
                Ok((st1, key)) => match lower_box(st1, nodes, n.ssa_operands[2] as int) {
                    Err(e) => Err(e),
                    Ok((st2, val)) => match ctx.helpers.hash_set {
                        None => Err(TraceError::LinkError),
                        Some(target) => Ok(
                            LowerState {
                                insts: st2.insts.push(
                                    MachInst::CallHelper3 {
                                        target: target,
                                        a0: hash,
                                        a1: key,
                                        a2: val,
                                    },
                                ),
                                map: st2.map.push(hash),
                                ..st2
                            },
                        ),
                    },
                },
            }
        },
    }
}

/// Lower the nodes from index `i` on, threading the state through.
pub open spec fn lower_from(ctx: CtxV, nodes: Seq<IrNodeV>, i: int, st: LowerState) -> Result<
    LowerState,
    TraceError,
>
    decreases nodes.len() - i,
{
    if i < 0 || i >= nodes.len() {
        Ok(st)
    } else {
        match lower_node(ctx, nodes, i, st) {
            Err(e) => Err(e),
            Ok(st2) => lower_from(ctx, nodes, i + 1, st2),
        }
    }
}

/// The initial lowering state of a trace: nothing emitted, and self
/// tracked as the trace's initial constant.
pub open spec fn lower_init(self_: u64) -> LowerState {
    LowerState { insts: Seq::empty(), map: Seq::empty(), cur_self: SelfVal::Const(self_) }
}

/// What compiling a trace yields: the full lowering of its node sequence
/// from the initial state.
pub open spec fn lower_trace(ctx: CtxV, nodes: Seq<IrNodeV>, self_: u64) -> Result<
    LowerState,
    TraceError,
> {
    lower_from(ctx, nodes, 0, lower_init(self_))
}

/// The mutable lowering state the compiler threads through the nodes.
pub struct LowerSt {
    pub insts: Vec<MachInst>,
    pub map: Vec<usize>,
    pub cur_self: SelfVal,
}

impl View for LowerSt {
    type V = LowerState;

    open spec fn view(&self) -> LowerState {
        LowerState { insts: self.insts@, map: self.map@, cur_self: self.cur_self }
    }
}

/// The compiler: the helper table and the resolved call-cache targets,
/// fixed for the lifetime of one compilation.
pub struct Compiler {
    pub helpers: HelperTable,
    pub targets: Vec<(u64, u64)>,
}

impl Compiler {
    /// The context as the lowering spec reads it.
    pub open spec fn ctx(&self) -> CtxV {
        CtxV { helpers: self.helpers, targets: self.targets@ }
    }

    /// A compiler over a populated helper table and the call targets
    /// resolved for the trace's call-cache handles.
    pub fn new(helpers: HelperTable, targets: Vec<(u64, u64)>) -> (c: Compiler)
        ensures
            c.helpers == helpers,
            c.targets@ == targets@,
    {
        Compiler { helpers: helpers, targets: targets }
    }

    /// Resolve a call-cache handle against the target table.
    fn resolve_target(&self, handle: u64) -> (r: Option<u64>)
        ensures
            r == target_lookup(self.targets@, handle),
    {
        let ghost whole = self.targets@;
        let mut i: usize = 0;
        proof {
            assert(whole.subrange(0, whole.len() as int) =~= whole);
        }
        while i < self.targets.len()
            invariant
                i <= whole.len(),
                self.targets@ == whole,
                target_lookup(whole, handle) == target_lookup(
                    whole.subrange(i as int, whole.len() as int),
                    handle,
                ),
            decreases whole.len() - i,
        {
            let entry = self.targets[i];
            proof {
                let suf = whole.subrange(i as int, whole.len() as int);
                assert(suf[0] == whole[i as int]);
                assert(suf.subrange(1, suf.len() as int) =~= whole.subrange(
                    i as int + 1,
                    whole.len() as int,
                ));
            }
            if entry.0 == handle {
                return Some(entry.1);
            }
            i = i + 1;
        }
        proof {
            assert(whole.subrange(i as int, whole.len() as int).len() == 0);
        }
        None
    }

    /// Box the source node's value where the boundary needs the tagged
    /// form, handing back the value index to use.
    fn lower_box_exec(&self, nodes: &Vec<IrNode>, src: usize, st: &mut LowerSt) -> (r: Result<
        usize,
        TraceError,
    >)
        requires
            src < nodes@.len(),
            src < old(st)@.map.len(),
            old(st)@.map[src as int] < old(st)@.insts.len(),
        ensures
            match r {
                Ok(v) => lower_box(old(st)@, nodes_view(nodes@), src as int) == Ok::<
                    (LowerState, usize),
                    TraceError,
                >((final(st)@, v)) && v < final(st)@.insts.len() && final(st)@.map == old(st)@.map
                    && final(st)@.cur_self == old(st)@.cur_self && (final(st)@.insts
                    == old(st)@.insts || final(st)@.insts.drop_last() == old(st)@.insts),
                Err(e) => lower_box(old(st)@, nodes_view(nodes@), src as int) == Err::<
                    (LowerState, usize),
                    TraceError,
                >(e) && final(st)@ == old(st)@,
            },
    {
        proof {
            assert(nodes_view(nodes@)[src as int] == nodes@[src as int]@);
        }
        let v = st.map[src];
        match nodes[src].type_ {
            IrType::Internal(InternalType::I64) => {
                let idx = st.insts.len();
                st.insts.push(MachInst::TagFix { src: v });
                proof {
                    assert(st@.insts.drop_last() =~= old(st)@.insts);
                }
                Ok(idx)
            },
            IrType::Internal(InternalType::Bool) => {
                let idx = st.insts.len();
                st.insts.push(MachInst::TagBool { src: v });
                proof {
                    assert(st@.insts.drop_last() =~= old(st)@.insts);
                }
                Ok(idx)
            },
            IrType::Internal(InternalType::Value) => Ok(v),
            IrType::Yarv(_) => Ok(v),
            IrType::Unit => Err(TraceError::UnsupportedOpcode),
        }
    }

    /// Lower a pass-through bytecode operation node.
    #[verifier::rlimit(100)]
    #[verifier::spinoff_prover]
    fn lower_yarv_exec(&self, nodes: &Vec<IrNode>, i: usize, st: &mut LowerSt) -> (r: Result<
        (),
        TraceError,
    >)
        requires
            i < nodes@.len(),
            node_wf(nodes_view(nodes@), i as int),
            lower_wf(old(st)@, i as int),
            nodes_view(nodes@)[i as int].opcode is Yarv,
        ensures
            match r {
                Ok(()) => {
                    &&& lower_node(self.ctx(), nodes_view(nodes@), i as int, old(st)@) == Ok::<
                        LowerState,
                        TraceError,
                    >(final(st)@)
                    &&& lower_wf(final(st)@, i as int + 1)
                    &&& (!(nodes_view(nodes@)[i as int].opcode is Loop) ==> forall|k: int|
                        0 <= k < final(st)@.insts.len() ==> (final(st)@.insts[k] is LoopBack
                            ==> k < old(st)@.insts.len()
                            && old(st)@.insts[k] == final(st)@.insts[k]))
                    &&& (nodes_view(nodes@)[i as int].opcode is Loop
                        ==> final(st)@.insts == old(st)@.insts.push(MachInst::LoopBack))
                },
                Err(e) => lower_node(self.ctx(), nodes_view(nodes@), i as int, old(st)@) == Err::<
                    LowerState,
                    TraceError,
                >(e),
            },
    {
        proof {
            assert(nodes_view(nodes@)[i as int] == nodes@[i as int]@);
        }
        let y = match nodes[i].opcode {
            OpCode::Yarv(y) => y,
            _ => {
                return Err(TraceError::UnsupportedOpcode);
            },
        };
        match y {
                YarvOp::PutSelf => {
                    match st.cur_self {
                        SelfVal::Const(c) => {
                            let idx = st.insts.len();
                            st.insts.push(MachInst::ConstVal { value: c });
                            st.map.push(idx);
                        },
                        SelfVal::Reg(r) => {
                            st.map.push(r);
                        },
                    }
                    proof {
                        assert(st@ =~= lower_node(self.ctx(), nodes_view(nodes@), i as int, old(st)@)->Ok_0);
                    }
                    Ok(())
                },
                YarvOp::PutNil => {
                    let idx = st.insts.len();
                    st.insts.push(MachInst::ConstVal { value: QNIL });
                    st.map.push(idx);
                    proof {
                        assert(st@ =~= lower_node(self.ctx(), nodes_view(nodes@), i as int, old(st)@)->Ok_0);
                    }
                    Ok(())
                },
                YarvOp::PutObjectFixZero => {
                    let idx = st.insts.len();
                    st.insts.push(MachInst::ConstVal { value: 0 });
                    st.map.push(idx);
                    proof {
                        assert(st@ =~= lower_node(self.ctx(), nodes_view(nodes@), i as int, old(st)@)->Ok_0);
                    }
                    Ok(())
                },
                YarvOp::PutObjectFixOne => {
                    let idx = st.insts.len();
                    st.insts.push(MachInst::ConstVal { value: 1 });
                    st.map.push(idx);
                    proof {
                        assert(st@ =~= lower_node(self.ctx(), nodes_view(nodes@), i as int, old(st)@)->Ok_0);
                    }
                    Ok(())
                },
                YarvOp::PutObject => {
                    let lit = nodes[i].operands[0];
                    let materialized = if nodes[i].type_ == IrType::Yarv(ValueTag::Fixnum) {
                        untag_fixnum_word(lit)
                    } else {
                        lit
                    };
                    let idx = st.insts.len();
                    st.insts.push(MachInst::ConstVal { value: materialized });
                    st.map.push(idx);
                    proof {
                        assert(st@ =~= lower_node(self.ctx(), nodes_view(nodes@), i as int, old(st)@)->Ok_0);
                    }
                    Ok(())
                },
                YarvOp::PutString => {
                    let lit = nodes[i].operands[0];
                    let idx = st.insts.len();
                    st.insts.push(MachInst::ConstVal { value: lit });
                    st.map.push(idx);
                    proof {
                        assert(st@ =~= lower_node(self.ctx(), nodes_view(nodes@), i as int, old(st)@)->Ok_0);
                    }
                    Ok(())
                },
                YarvOp::DupArray => match self.helpers.ary_resurrect {
                    None => Err(TraceError::LinkError),
                    Some(target) => {
                        let arg_idx = st.insts.len();
                        st.insts.push(MachInst::ConstVal { value: nodes[i].operands[0] });
                        let idx = st.insts.len();
                        st.insts.push(MachInst::CallHelper1 { target: target, a0: arg_idx });
                        st.map.push(idx);
                        proof {
                            assert(st@ =~= lower_node(self.ctx(), nodes_view(nodes@), i as int, old(st)@)->Ok_0);
                        }
                        Ok(())
                    },
                },
                YarvOp::SetLocal => {
                    let src = nodes[i].ssa_operands[0];
                    let alias = st.map[src];
                    match self.lower_box_exec(nodes, src, st) {
                        Err(e) => Err(e),
                        Ok(v) => {
                            st.insts.push(MachInst::Store { src: v, addr: nodes[i].operands[0] });
                            st.map.push(alias);
                            proof {
                                assert(st@ =~= lower_node(self.ctx(), nodes_view(nodes@), i as int, old(st)@)->Ok_0);
                            }
                            Ok(())
                        },
                    }
                },
                YarvOp::OptPlus => {
                    let rhs = st.map[nodes[i].ssa_operands[0]];
                    let lhs = st.map[nodes[i].ssa_operands[1]];
                    let idx = st.insts.len();
                    st.insts.push(MachInst::Add { lhs: lhs, rhs: rhs });
                    st.map.push(idx);
                    proof {
                        assert(st@ =~= lower_node(self.ctx(), nodes_view(nodes@), i as int, old(st)@)->Ok_0);
                    }
                    Ok(())
                },
                YarvOp::OptEq => {
                    let rhs = st.map[nodes[i].ssa_operands[0]];
                    let lhs = st.map[nodes[i].ssa_operands[1]];
                    let idx = st.insts.len();
                    st.insts.push(MachInst::CmpEq { lhs: lhs, rhs: rhs });
                    st.map.push(idx);
                    proof {
                        assert(st@ =~= lower_node(self.ctx(), nodes_view(nodes@), i as int, old(st)@)->Ok_0);
                    }
                    Ok(())
                },
                YarvOp::OptLt => {
                    let rhs = st.map[nodes[i].ssa_operands[0]];
                    let lhs = st.map[nodes[i].ssa_operands[1]];
                    let idx = st.insts.len();
                    st.insts.push(MachInst::CmpLt { lhs: lhs, rhs: rhs });
                    st.map.push(idx);
                    proof {
                        assert(st@ =~= lower_node(self.ctx(), nodes_view(nodes@), i as int, old(st)@)->Ok_0);
                    }
                    Ok(())
                },
                YarvOp::OptNot => {
                    let src = nodes[i].ssa_operands[0];
                    proof {
                        assert(nodes_view(nodes@)[src as int] == nodes@[src as int]@);
                    }
                    match nodes[src].type_ {
                        IrType::Internal(InternalType::Bool) => {
                            let idx = st.insts.len();
                            st.insts.push(MachInst::BoolNot { src: st.map[src] });
                            st.map.push(idx);
                            proof {
                                assert(st@ =~= lower_node(self.ctx(), nodes_view(nodes@), i as int, old(st)@)->Ok_0);
                            }
                            Ok(())
                        },
                        IrType::Internal(InternalType::Value) => {
                            let idx = st.insts.len();
                            st.insts.push(MachInst::IsZero { src: st.map[src] });
                            st.map.push(idx);
                            proof {
                                assert(st@ =~= lower_node(self.ctx(), nodes_view(nodes@), i as int, old(st)@)->Ok_0);
                            }
                            Ok(())
                        },
                        _ => Err(TraceError::UnsupportedOpcode),
                    }
                },
                YarvOp::OptEmptyP => match self.helpers.str_len {
                    None => Err(TraceError::LinkError),
                    Some(target) => {
                        let call_idx = st.insts.len();
                        st.insts.push(
                            MachInst::CallHelper1 { target: target, a0: st.map[nodes[i].ssa_operands[0]] },
                        );
                        let idx = st.insts.len();
                        st.insts.push(MachInst::IsZero { src: call_idx });
                        st.map.push(idx);
                        proof {
                            assert(st@ =~= lower_node(self.ctx(), nodes_view(nodes@), i as int, old(st)@)->Ok_0);
                        }
                        Ok(())
                    },
                },
                YarvOp::OptSize => match self.helpers.ary_len {
                    None => Err(TraceError::LinkError),
                    Some(target) => {
                        let call_idx = st.insts.len();
                        st.insts.push(
                            MachInst::CallHelper1 { target: target, a0: st.map[nodes[i].ssa_operands[0]] },
                        );
                        let idx = st.insts.len();
                        st.insts.push(MachInst::UntagFix { src: call_idx });
                        st.map.push(idx);
                        proof {
                            assert(st@ =~= lower_node(self.ctx(), nodes_view(nodes@), i as int, old(st)@)->Ok_0);
                        }
                        Ok(())
                    },
                },
                YarvOp::OptSend => match self.resolve_target(nodes[i].operands[1]) {
                    None => Err(TraceError::LinkError),
                    Some(target) => {
                        let idx = st.insts.len();
                        st.insts.push(
                            MachInst::CallHelper1 { target: target, a0: st.map[nodes[i].ssa_operands[0]] },
                        );
                        st.map.push(idx);
                        proof {
                            assert(st@ =~= lower_node(self.ctx(), nodes_view(nodes@), i as int, old(st)@)->Ok_0);
                        }
                        Ok(())
                    },
                },
                YarvOp::GetLocal => Err(TraceError::UnsupportedOpcode),
            
        }
    }

    /// Lower a stack load, a guard, a snapshot, or the loop-closing node.
    #[verifier::rlimit(100)]
    #[verifier::spinoff_prover]
    fn lower_control_exec(&self, nodes: &Vec<IrNode>, i: usize, st: &mut LowerSt) -> (r: Result<
        (),
        TraceError,
    >)
        requires
            i < nodes@.len(),
            node_wf(nodes_view(nodes@), i as int),
            lower_wf(old(st)@, i as int),
            nodes_view(nodes@)[i as int].opcode is StackLoad || nodes_view(nodes@)[i as int].opcode is Guard || nodes_view(nodes@)[i as int].opcode is Snapshot || nodes_view(nodes@)[i as int].opcode is Loop,
        ensures
            match r {
                Ok(()) => {
                    &&& lower_node(self.ctx(), nodes_view(nodes@), i as int, old(st)@) == Ok::<
                        LowerState,
                        TraceError,
                    >(final(st)@)
                    &&& lower_wf(final(st)@, i as int + 1)
                    &&& (!(nodes_view(nodes@)[i as int].opcode is Loop) ==> forall|k: int|
                        0 <= k < final(st)@.insts.len() ==> (final(st)@.insts[k] is LoopBack
                            ==> k < old(st)@.insts.len()
                            && old(st)@.insts[k] == final(st)@.insts[k]))
                    &&& (nodes_view(nodes@)[i as int].opcode is Loop
                        ==> final(st)@.insts == old(st)@.insts.push(MachInst::LoopBack))
                },
                Err(e) => lower_node(self.ctx(), nodes_view(nodes@), i as int, old(st)@) == Err::<
                    LowerState,
                    TraceError,
                >(e),
            },
    {
        proof {
            assert(nodes_view(nodes@)[i as int] == nodes@[i as int]@);
        }
        match nodes[i].opcode {
            OpCode::StackLoad(addr) => {
                if nodes[i].type_ == IrType::Internal(InternalType::I64) {
                    let load_idx = st.insts.len();
                    st.insts.push(MachInst::Load { addr: addr });
                    let idx = st.insts.len();
                    st.insts.push(MachInst::UntagFix { src: load_idx });
                    st.map.push(idx);
                } else {
                    let idx = st.insts.len();
                    st.insts.push(MachInst::Load { addr: addr });
                    st.map.push(idx);
                }
                proof {
                    assert(st@ =~= lower_node(self.ctx(), nodes_view(nodes@), i as int, old(st)@)->Ok_0);
                }
                Ok(())
            },
            OpCode::Guard(t) => {
                if t != IrType::Yarv(ValueTag::True) && t != IrType::Yarv(ValueTag::False) {
                    return Err(TraceError::UnsupportedOpcode);
                }
                let exit_when_truthy = t == IrType::Yarv(ValueTag::False);
                let total = nodes.len();
                proof {
                    assert(i as int + 1 < nodes@.len());
                    assert(nodes_view(nodes@)[i as int + 1] == nodes@[i as int + 1]@);
                }
                match nodes[i + 1].opcode {
                    OpCode::Snapshot(resume_pc, snap_self) => {
                        let resume_self = match snap_self {
                            SsaOrValue::Value(v) => SelfVal::Const(v),
                            SsaOrValue::Ssa(r) => {
                                if r < st.map.len() {
                                    SelfVal::Reg(st.map[r])
                                } else {
                                    return Err(TraceError::StructuralError);
                                }
                            },
                        };
                        let src = st.map[nodes[i].ssa_operands[0]];
                        st.insts.push(
                            MachInst::Guard {
                                src: src,
                                exit_when_truthy: exit_when_truthy,
                                resume_pc: resume_pc,
                                resume_self: resume_self,
                            },
                        );
                        st.map.push(src);
                        proof {
                            assert(st@ =~= lower_node(self.ctx(), nodes_view(nodes@), i as int, old(st)@)->Ok_0);
                        }
                        Ok(())
                    },
                    _ => Err(TraceError::StructuralError),
                }
            },
            OpCode::Snapshot(_, snap_self) => {
                match snap_self {
                    SsaOrValue::Ssa(r) => {
                        if r < st.map.len() {
                            st.cur_self = SelfVal::Reg(st.map[r]);
                        } else {
                            return Err(TraceError::StructuralError);
                        }
                    },
                    SsaOrValue::Value(_) => {},
                }
                let idx = st.insts.len();
                st.insts.push(MachInst::ConstVal { value: 0 });
                st.map.push(idx);
                proof {
                    assert(st@ =~= lower_node(self.ctx(), nodes_view(nodes@), i as int, old(st)@)->Ok_0);
                }
                Ok(())
            },
            OpCode::Loop => {
                let idx = st.insts.len();
                st.insts.push(MachInst::LoopBack);
                st.map.push(idx);
                proof {
                    assert(st@ =~= lower_node(self.ctx(), nodes_view(nodes@), i as int, old(st)@)->Ok_0);
                }
                Ok(())
            },
            _ => Err(TraceError::UnsupportedOpcode),
        }
    }

    /// Lower a collection or map primitive node.
    #[verifier::rlimit(100)]
    #[verifier::spinoff_prover]
    fn lower_collection_exec(&self, nodes: &Vec<IrNode>, i: usize, st: &mut LowerSt) -> (r: Result<
        (),
        TraceError,
    >)
        requires
            i < nodes@.len(),
            node_wf(nodes_view(nodes@), i as int),
            lower_wf(old(st)@, i as int),
            nodes_view(nodes@)[i as int].opcode is NewArray || nodes_view(nodes@)[i as int].opcode is ArrayGet || nodes_view(nodes@)[i as int].opcode is ArraySet || nodes_view(nodes@)[i as int].opcode is ArrayAppend || nodes_view(nodes@)[i as int].opcode is NewHash || nodes_view(nodes@)[i as int].opcode is HashGet || nodes_view(nodes@)[i as int].opcode is HashSet,
        ensures
            match r {
                Ok(()) => {
                    &&& lower_node(self.ctx(), nodes_view(nodes@), i as int, old(st)@) == Ok::<
                        LowerState,
                        TraceError,
                    >(final(st)@)
                    &&& lower_wf(final(st)@, i as int + 1)
                    &&& (!(nodes_view(nodes@)[i as int].opcode is Loop) ==> forall|k: int|
                        0 <= k < final(st)@.insts.len() ==> (final(st)@.insts[k] is LoopBack
                            ==> k < old(st)@.insts.len()
                            && old(st)@.insts[k] == final(st)@.insts[k]))
                    &&& (nodes_view(nodes@)[i as int].opcode is Loop
                        ==> final(st)@.insts == old(st)@.insts.push(MachInst::LoopBack))
                },
                Err(e) => lower_node(self.ctx(), nodes_view(nodes@), i as int, old(st)@) == Err::<
                    LowerState,
                    TraceError,
                >(e),
            },
    {
        proof {
            assert(nodes_view(nodes@)[i as int] == nodes@[i as int]@);
        }
        match nodes[i].opcode {
            OpCode::NewArray => match self.helpers.new_array {
                None => Err(TraceError::LinkError),
                Some(target) => {
                    let idx = st.insts.len();
                    st.insts.push(MachInst::CallHelper0 { target: target });
                    st.map.push(idx);
                    proof {
                        assert(st@ =~= lower_node(self.ctx(), nodes_view(nodes@), i as int, old(st)@)->Ok_0);
                    }
                    Ok(())
                },
            },
            OpCode::ArrayGet => {
                let arr = st.map[nodes[i].ssa_operands[0]];
                match self.lower_box_exec(nodes, nodes[i].ssa_operands[1], st) {
                    Err(e) => Err(e),
                    Ok(key) => match self.helpers.array_get {
                        None => Err(TraceError::LinkError),
                        Some(target) => {
                            let idx = st.insts.len();
                            st.insts.push(MachInst::CallHelper2 { target: target, a0: arr, a1: key });
                            st.map.push(idx);
                            proof {
                                assert(st@ =~= lower_node(self.ctx(), nodes_view(nodes@), i as int, old(st)@)->Ok_0);
                            }
                            Ok(())
                        },
                    },
                }
            },
            OpCode::ArraySet => {
                let arr = st.map[nodes[i].ssa_operands[0]];
                match self.lower_box_exec(nodes, nodes[i].ssa_operands[1], st) {
                    Err(e) => Err(e),
                    Ok(key) => match self.lower_box_exec(nodes, nodes[i].ssa_operands[2], st) {
                        Err(e) => Err(e),
                        Ok(val) => match self.helpers.array_set {
                            None => Err(TraceError::LinkError),
                            Some(target) => {
                                let idx = st.insts.len();
                                st.insts.push(
                                    MachInst::CallHelper3 { target: target, a0: arr, a1: key, a2: val },
                                );
                                st.map.push(idx);
                                proof {
                                    assert(st@ =~= lower_node(self.ctx(), nodes_view(nodes@), i as int, old(st)@)->Ok_0);
                                }
                                Ok(())
                            },
                        },
                    },
                }
            },
            OpCode::ArrayAppend => {
                let arr = st.map[nodes[i].ssa_operands[0]];
                match self.lower_box_exec(nodes, nodes[i].ssa_operands[1], st) {
                    Err(e) => Err(e),
                    Ok(elem) => match self.helpers.array_append {
                        None => Err(TraceError::LinkError),
                        Some(target) => {
                            let idx = st.insts.len();
                            st.insts.push(
                                MachInst::CallHelper2 { target: target, a0: arr, a1: elem },
                            );
                            st.map.push(idx);
                            proof {
                                assert(st@ =~= lower_node(self.ctx(), nodes_view(nodes@), i as int, old(st)@)->Ok_0);
                            }
                            Ok(())
                        },
                    },
                }
            },
            OpCode::NewHash => match self.helpers.new_hash {
                None => Err(TraceError::LinkError),
                Some(target) => {
                    let idx = st.insts.len();
                    st.insts.push(MachInst::CallHelper0 { target: target });
                    st.map.push(idx);
                    proof {
                        assert(st@ =~= lower_node(self.ctx(), nodes_view(nodes@), i as int, old(st)@)->Ok_0);
                    }
                    Ok(())
                },
            },
            OpCode::HashGet => {
                let hash = st.map[nodes[i].ssa_operands[0]];
                match self.lower_box_exec(nodes, nodes[i].ssa_operands[1], st) {
                    Err(e) => Err(e),
                    Ok(key) => match self.helpers.hash_get {
                        None => Err(TraceError::LinkError),
                        Some(target) => {
                            let idx = st.insts.len();
                            st.insts.push(MachInst::CallHelper2 { target: target, a0: hash, a1: key });
                            st.map.push(idx);
                            proof {
                                assert(st@ =~= lower_node(self.ctx(), nodes_view(nodes@), i as int, old(st)@)->Ok_0);
                            }
                            Ok(())
                        },
                    },
                }
            },
            OpCode::HashSet => {
                let hash = st.map[nodes[i].ssa_operands[0]];
                match self.lower_box_exec(nodes, nodes[i].ssa_operands[1], st) {
                    Err(e) => Err(e),
                    Ok(key) => match self.lower_box_exec(nodes, nodes[i].ssa_operands[2], st) {
                        Err(e) => Err(e),
                        Ok(val) => match self.helpers.hash_set {
                            None => Err(TraceError::LinkError),
                            Some(target) => {
                                st.insts.push(
                                    MachInst::CallHelper3 { target: target, a0: hash, a1: key, a2: val },
                                );
                                st.map.push(hash);
                                proof {
                                    assert(st@ =~= lower_node(self.ctx(), nodes_view(nodes@), i as int, old(st)@)->Ok_0);
                                }
                                Ok(())
                            },
                        },
                    },
                }
            },
            _ => Err(TraceError::UnsupportedOpcode),
        }
    }

    /// Apply the lowering rule of the node at index `i`.
    fn lower_node_exec(&self, nodes: &Vec<IrNode>, i: usize, st: &mut LowerSt) -> (r: Result<
        (),
        TraceError,
    >)
        requires
            i < nodes@.len(),
            node_wf(nodes_view(nodes@), i as int),
            lower_wf(old(st)@, i as int),
        ensures
            match r {
                Ok(()) => {
                    &&& lower_node(self.ctx(), nodes_view(nodes@), i as int, old(st)@) == Ok::<
                        LowerState,
                        TraceError,
                    >(final(st)@)
                    &&& lower_wf(final(st)@, i as int + 1)
                    &&& (!(nodes_view(nodes@)[i as int].opcode is Loop) ==> forall|k: int|
                        0 <= k < final(st)@.insts.len() ==> (final(st)@.insts[k] is LoopBack
                            ==> k < old(st)@.insts.len()
                            && old(st)@.insts[k] == final(st)@.insts[k]))
                    &&& (nodes_view(nodes@)[i as int].opcode is Loop
                        ==> final(st)@.insts == old(st)@.insts.push(MachInst::LoopBack))
                },
                Err(e) => lower_node(self.ctx(), nodes_view(nodes@), i as int, old(st)@) == Err::<
                    LowerState,
                    TraceError,
                >(e),
            },
    {
        proof {
            assert(nodes_view(nodes@)[i as int] == nodes@[i as int]@);
        }
        match nodes[i].opcode {
            OpCode::Yarv(_) => self.lower_yarv_exec(nodes, i, st),
            OpCode::StackLoad(_) => self.lower_control_exec(nodes, i, st),
            OpCode::Guard(_) => self.lower_control_exec(nodes, i, st),
            OpCode::Snapshot(_, _) => self.lower_control_exec(nodes, i, st),
            OpCode::Loop => self.lower_control_exec(nodes, i, st),
            OpCode::NewArray => self.lower_collection_exec(nodes, i, st),
            OpCode::ArrayGet => self.lower_collection_exec(nodes, i, st),
            OpCode::ArraySet => self.lower_collection_exec(nodes, i, st),
            OpCode::ArrayAppend => self.lower_collection_exec(nodes, i, st),
            OpCode::NewHash => self.lower_collection_exec(nodes, i, st),
            OpCode::HashGet => self.lower_collection_exec(nodes, i, st),
            OpCode::HashSet => self.lower_collection_exec(nodes, i, st),
        }
    }

    /// Lower a completed trace into one routine: the nodes in recorded
    /// order, each through its single lowering rule.  The result is
    /// exactly the instruction sequence `lower_trace` gives, and it is
    /// well formed; a node without a rule or an absent helper or call
    /// target fails with the error `lower_trace` gives.
    pub fn compile(&self, trace: &Trace) -> (r: Result<Routine, TraceError>)
        requires
            trace.wf(),
        ensures
            match r {
                Ok(rt) => {
                    &&& lower_trace(self.ctx(), trace.nodes_v(), trace.self_) is Ok
                    &&& rt.insts@ == lower_trace(self.ctx(), trace.nodes_v(), trace.self_)->Ok_0.insts
                    &&& routine_wf(rt.insts@)
                },
                Err(e) => lower_trace(self.ctx(), trace.nodes_v(), trace.self_) == Err::<
                    LowerState,
                    TraceError,
                >(e),
            },
    {
        let ghost nodes_v = trace.nodes_v();
        let mut st = LowerSt { insts: Vec::new(), map: Vec::new(), cur_self: SelfVal::Const(trace.self_) };
        proof {
            assert(st@ =~= lower_init(trace.self_));
        }
        let mut i: usize = 0;
        while i < trace.nodes.len()
            invariant
                i <= trace.nodes@.len(),
                nodes_v == trace.nodes_v(),
                nodes_v.len() == trace.nodes@.len(),
                trace.wf(),
                lower_wf(st@, i as int),
                lower_from(self.ctx(), nodes_v, 0, lower_init(trace.self_)) == lower_from(
                    self.ctx(),
                    nodes_v,
                    i as int,
                    st@,
                ),
                forall|k: int|
                    0 <= k < st@.insts.len() ==> (st@.insts[k] is LoopBack ==> i == nodes_v.len()
                        && k == st@.insts.len() - 1),
            decreases trace.nodes@.len() - i,
        {
            let ghost st_before = st@;
            match self.lower_node_exec(&trace.nodes, i, &mut st) {
                Ok(()) => {
                    proof {
                        if nodes_v[i as int].opcode is Loop {
                            assert(i as int == nodes_v.len() - 1);
                        }
                    }
                },
                Err(e) => {
                    return Err(e);
                },
            }
            i = i + 1;
        }
        proof {
            assert(lower_from(self.ctx(), nodes_v, i as int, st@) == Ok::<LowerState, TraceError>(
                st@,
            ));
            assert(routine_wf(st@.insts));
        }
        Ok(Routine { insts: st.insts })
    }
}

} // verus!
