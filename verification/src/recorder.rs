//! The recorder: converts the interpreter's instruction feed into an
//! ordered SSA node sequence, with local value numbering over frame slots
//! and light type specialization from the observed runtime tags.
//!
//! Every mutation of the recorder is pinned by `record_step`, the
//! mathematical step function: recording an instruction either produces
//! exactly the state `record_step` gives, or fails with the error it gives
//! and leaves the recorder unchanged.

use vstd::prelude::*;
use crate::value::ValueTag;
use crate::value::tag_of;
use crate::value::read_tag;
use crate::ir::IrType;
use crate::ir::InternalType;
use crate::ir::SsaOrValue;
use crate::ir::YarvOp;
use crate::ir::OpCode;
use crate::ir::IrNode;
use crate::ir::IrNodeV;
use crate::ir::Trace;
use crate::ir::TraceError;
use crate::ir::nodes_view;
use crate::ir::lemma_nodes_view_push;

verus! {

/// One dispatched instruction as the instrumentation feed delivers it:
/// already decoded, together with the runtime observations the recording
/// rules need.  `Unknown` stands for any instruction class without a
/// recording rule.
#[derive(Clone, Copy, Debug)]
pub enum Insn {
    PutNil,
    PutObjectFixZero,
    PutObjectFixOne,
    PutObject { value: u64 },
    PutString { value: u64 },
    DupArray { array: u64 },
    PutSelf,
    GetLocal { offset: u64, observed: ValueTag },
    SetLocal { offset: u64 },
    OptPlus,
    OptEq,
    OptLt,
    OptNot,
    OptEmptyP,
    OptSize,
    OptAref,
    OptLtLt,
    OptSend { call_site: u64, cache_handle: u64, target: Option<u64> },
    Dup,
    Pop,
    Leave,
    BranchIf { observed: ValueTag },
    BranchUnless { observed: ValueTag },
    Unknown,
}

/// The mathematical reading of a recorder: node views, the symbolic
/// operand stack, and the slot cache as an association sequence.
#[verifier::ext_equal]
pub ghost struct RecorderM {
    pub nodes: Seq<IrNodeV>,
    pub stack: Seq<usize>,
    pub cache: Seq<(u64, usize)>,
    pub anchor: u64,
    pub self_: u64,
    pub ep: u64,
    pub complete: bool,
}

/// The SSA reference cached for a slot address, if any.
pub open spec fn cache_lookup(c: Seq<(u64, usize)>, addr: u64) -> Option<usize>
    decreases c.len(),
{
    if c.len() == 0 {
        None
    } else if c[0].0 == addr {
        Some(c[0].1)
    } else {
        cache_lookup(c.subrange(1, c.len() as int), addr)
    }
}

/// The cache with every entry for the given slot address invalidated.
pub open spec fn cache_remove(c: Seq<(u64, usize)>, addr: u64) -> Seq<(u64, usize)>
    decreases c.len(),
{
    if c.len() == 0 {
        c
    } else if c[0].0 == addr {
        cache_remove(c.subrange(1, c.len() as int), addr)
    } else {
        seq![c[0]] + cache_remove(c.subrange(1, c.len() as int), addr)
    }
}

/// A node view assembled from its parts.
pub open spec fn node_v(t: IrType, op: OpCode, operands: Seq<u64>, ssa: Seq<usize>) -> IrNodeV {
    IrNodeV { type_: t, opcode: op, operands: operands, ssa_operands: ssa }
}

/// The absolute frame-slot address of a bytecode offset, or none where
/// the offset reaches below the frame.
pub open spec fn slot_addr(ep: u64, offset: u64) -> Option<u64> {
    if 8 * (offset as int) > ep as int {
        None
    } else {
        Some((ep - 8 * (offset as int)) as u64)
    }
}

/// Constant push: a new node with a concrete type and the decoded literal
/// as immediate, its index pushed onto the symbolic stack.
pub open spec fn step_push_const(m: RecorderM, t: IrType, op: OpCode, imms: Seq<u64>) -> RecorderM {
    RecorderM {
        nodes: m.nodes.push(node_v(t, op, imms, Seq::empty())),
        stack: m.stack.push(m.nodes.len() as usize),
        ..m
    }
}

/// Binary operation: pop the right then the left operand, emit one node
/// with the references in (right, left) order, push the new node.
pub open spec fn step_binary(m: RecorderM, t: IrType, op: OpCode) -> Result<RecorderM, TraceError> {
    if m.stack.len() < 2 {
        Err(TraceError::StructuralError)
    } else {
        let right = m.stack.last();
        let left = m.stack[m.stack.len() - 2];
        Ok(RecorderM {
            nodes: m.nodes.push(node_v(t, op, Seq::empty(), seq![right, left])),
            stack: m.stack.subrange(0, m.stack.len() - 2).push(m.nodes.len() as usize),
            ..m
        })
    }
}

/// Unary operation: pop one operand, emit one node referencing it, push
/// the new node.
pub open spec fn step_unary(m: RecorderM, t: IrType, op: OpCode) -> Result<RecorderM, TraceError> {
    if m.stack.len() < 1 {
        Err(TraceError::StructuralError)
    } else {
        Ok(RecorderM {
            nodes: m.nodes.push(node_v(t, op, Seq::empty(), seq![m.stack.last()])),
            stack: m.stack.drop_last().push(m.nodes.len() as usize),
            ..m
        })
    }
}

/// Local read: on a slot-cache hit reuse the cached reference without a
/// node; on a miss emit a stack load typed by the observed tag and insert
/// it into the cache.
pub open spec fn step_getlocal(m: RecorderM, offset: u64, observed: ValueTag) -> Result<
    RecorderM,
    TraceError,
> {
    match slot_addr(m.ep, offset) {
        None => Err(TraceError::StructuralError),
        Some(addr) => match cache_lookup(m.cache, addr) {
            Some(r) => Ok(RecorderM { stack: m.stack.push(r), ..m }),
            None => {
                let t = if observed is Fixnum {
                    IrType::Internal(InternalType::I64)
                } else {
                    IrType::Yarv(observed)
                };
                let idx = m.nodes.len() as usize;
                Ok(RecorderM {
                    nodes: m.nodes.push(node_v(t, OpCode::StackLoad(addr), Seq::empty(), Seq::empty())),
                    stack: m.stack.push(idx),
                    cache: m.cache.push((addr, idx)),
                    ..m
                })
            },
        },
    }
}

/// Local write: pop the source, emit a write node referencing it and the
/// destination address, and invalidate the slot's cache entry, so a later
/// read goes through the node graph again.
pub open spec fn step_setlocal(m: RecorderM, offset: u64) -> Result<RecorderM, TraceError> {
    if m.stack.len() < 1 {
        Err(TraceError::StructuralError)
    } else {
        match slot_addr(m.ep, offset) {
            None => Err(TraceError::StructuralError),
            Some(addr) => Ok(RecorderM {
                nodes: m.nodes.push(
                    node_v(IrType::Unit, OpCode::Yarv(YarvOp::SetLocal), seq![addr], seq![m.stack.last()]),
                ),
                stack: m.stack.drop_last(),
                cache: cache_remove(m.cache, addr),
                ..m
            }),
        }
    }
}

/// Conditional branch: pop the condition, emit a guard on its observed
/// tag followed by a snapshot carrying the resumption program counter
/// (one instruction width past the branch) and the self provenance.
pub open spec fn step_branch(m: RecorderM, pc: u64, observed: ValueTag) -> Result<
    RecorderM,
    TraceError,
> {
    if m.stack.len() < 1 {
        Err(TraceError::StructuralError)
    } else if pc as int + 8 > u64::MAX as int {
        Err(TraceError::StructuralError)
    } else {
        let guard = node_v(
            IrType::Unit,
            OpCode::Guard(IrType::Yarv(observed)),
            Seq::empty(),
            seq![m.stack.last()],
        );
        let snap = node_v(
            IrType::Unit,
            OpCode::Snapshot((pc + 8) as u64, SsaOrValue::Value(m.self_)),
            Seq::empty(),
            Seq::empty(),
        );
        Ok(RecorderM { nodes: m.nodes.push(guard).push(snap), stack: m.stack.drop_last(), ..m })
    }
}

/// Monomorphic call: with a concrete native target, pop the receiver and
/// emit a call node carrying the call-site identity and the cache handle;
/// with no target the instruction is silently not traced.
pub open spec fn step_send(
    m: RecorderM,
    call_site: u64,
    cache_handle: u64,
    target: Option<u64>,
) -> Result<RecorderM, TraceError> {
    match target {
        None => Ok(m),
        Some(_) => {
            if m.stack.len() < 1 {
                Err(TraceError::StructuralError)
            } else {
                Ok(RecorderM {
                    nodes: m.nodes.push(
                        node_v(
                            IrType::Internal(InternalType::Value),
                            OpCode::Yarv(YarvOp::OptSend),
                            seq![call_site, cache_handle],
                            seq![m.stack.last()],
                        ),
                    ),
                    stack: m.stack.drop_last().push(m.nodes.len() as usize),
                    ..m
                })
            }
        },
    }
}

/// Collection read: pop the key then the receiver, emit a get node with
/// the references in (receiver, key) order, push the new node.
pub open spec fn step_aref(m: RecorderM) -> Result<RecorderM, TraceError> {
    if m.stack.len() < 2 {
        Err(TraceError::StructuralError)
    } else {
        let key = m.stack.last();
        let recv = m.stack[m.stack.len() - 2];
        Ok(RecorderM {
            nodes: m.nodes.push(
                node_v(IrType::Internal(InternalType::Value), OpCode::ArrayGet, Seq::empty(), seq![recv, key]),
            ),
            stack: m.stack.subrange(0, m.stack.len() - 2).push(m.nodes.len() as usize),
            ..m
        })
    }
}

/// Collection append: pop the element then the receiver, emit an append
/// node with the references in (receiver, element) order, push it.
pub open spec fn step_append(m: RecorderM) -> Result<RecorderM, TraceError> {
    if m.stack.len() < 2 {
        Err(TraceError::StructuralError)
    } else {
        let elem = m.stack.last();
        let recv = m.stack[m.stack.len() - 2];
        Ok(RecorderM {
            nodes: m.nodes.push(
                node_v(
                    IrType::Internal(InternalType::Value),
                    OpCode::ArrayAppend,
                    Seq::empty(),
                    seq![recv, elem],
                ),
            ),
            stack: m.stack.subrange(0, m.stack.len() - 2).push(m.nodes.len() as usize),
            ..m
        })
    }
}

/// Loop closure: the anchor program counter recurred, so append the
/// loop-closing node and mark the trace complete.
pub open spec fn step_close(m: RecorderM) -> RecorderM {
    RecorderM {
        nodes: m.nodes.push(node_v(IrType::Unit, OpCode::Loop, Seq::empty(), Seq::empty())),
        complete: true,
        ..m
    }
}

/// The recording step function: what one dispatched instruction does to a
/// recorder, or the fatal error it raises.
pub open spec fn record_step(m: RecorderM, pc: u64, insn: Insn) -> Result<RecorderM, TraceError> {
    if m.complete {
        Err(TraceError::StructuralError)
    } else if m.nodes.len() > 0 && pc == m.anchor {
        Ok(step_close(m))
    } else {
        match insn {
            Insn::PutNil => Ok(
                step_push_const(m, IrType::Yarv(ValueTag::Nil), OpCode::Yarv(YarvOp::PutNil), Seq::empty()),
            ),
            Insn::PutObjectFixZero => Ok(
                step_push_const(
                    m,
                    IrType::Yarv(ValueTag::Fixnum),
                    OpCode::Yarv(YarvOp::PutObjectFixZero),
                    Seq::empty(),
                ),
            ),
            Insn::PutObjectFixOne => Ok(
                step_push_const(
                    m,
                    IrType::Yarv(ValueTag::Fixnum),
                    OpCode::Yarv(YarvOp::PutObjectFixOne),
                    Seq::empty(),
                ),
            ),
            Insn::PutObject { value } => Ok(
                step_push_const(m, IrType::Yarv(tag_of(value)), OpCode::Yarv(YarvOp::PutObject), seq![value]),
            ),
            Insn::PutString { value } => Ok(
                step_push_const(
                    m,
                    IrType::Yarv(ValueTag::RString),
                    OpCode::Yarv(YarvOp::PutString),
                    seq![value],
                ),
            ),
            Insn::DupArray { array } => Ok(
                step_push_const(m, IrType::Yarv(ValueTag::Array), OpCode::Yarv(YarvOp::DupArray), seq![array]),
            ),
            Insn::PutSelf => Ok(
                step_push_const(
                    m,
                    IrType::Internal(InternalType::Value),
                    OpCode::Yarv(YarvOp::PutSelf),
                    Seq::empty(),
                ),
            ),
            Insn::GetLocal { offset, observed } => step_getlocal(m, offset, observed),
            Insn::SetLocal { offset } => step_setlocal(m, offset),
            Insn::OptPlus => step_binary(
                m,
                IrType::Internal(InternalType::I64),
                OpCode::Yarv(YarvOp::OptPlus),
            ),
            Insn::OptEq => step_binary(
                m,
                IrType::Internal(InternalType::Bool),
                OpCode::Yarv(YarvOp::OptEq),
            ),
            Insn::OptLt => step_binary(
                m,
                IrType::Internal(InternalType::Bool),
                OpCode::Yarv(YarvOp::OptLt),
            ),
            Insn::OptNot => step_unary(
                m,
                IrType::Internal(InternalType::Bool),
                OpCode::Yarv(YarvOp::OptNot),
            ),
            Insn::OptEmptyP => step_unary(
                m,
                IrType::Internal(InternalType::Bool),
                OpCode::Yarv(YarvOp::OptEmptyP),
            ),
            Insn::OptSize => step_unary(
                m,
                IrType::Internal(InternalType::I64),
                OpCode::Yarv(YarvOp::OptSize),
            ),
            Insn::OptAref => step_aref(m),
            Insn::OptLtLt => step_append(m),
            Insn::OptSend { call_site, cache_handle, target } => step_send(
                m,
                call_site,
                cache_handle,
                target,
            ),
            Insn::Dup => if m.stack.len() < 1 {
                Err(TraceError::StructuralError)
            } else {
                Ok(RecorderM { stack: m.stack.push(m.stack.last()), ..m })
            },
            Insn::Pop => if m.stack.len() < 1 {
                Err(TraceError::StructuralError)
            } else {
                Ok(RecorderM { stack: m.stack.drop_last(), ..m })
            },
            Insn::Leave => Ok(m),
            Insn::BranchIf { observed } => step_branch(m, pc, observed),
            Insn::BranchUnless { observed } => step_branch(m, pc, observed),
            Insn::Unknown => Err(TraceError::UnsupportedOpcode),
        }
    }
}

/// A freshly started recorder for a session anchored at `anchor`, with
/// the initial self value and the frame base pointer.
pub open spec fn recorder_init(anchor: u64, self_: u64, ep: u64) -> RecorderM {
    RecorderM {
        nodes: Seq::empty(),
        stack: Seq::empty(),
        cache: Seq::empty(),
        anchor: anchor,
        self_: self_,
        ep: ep,
        complete: false,
    }
}

/// One recording session: the trace under construction together with the
/// symbolic operand stack and the local-slot cache.
#[derive(Clone, Debug)]
pub struct Recorder {
    pub nodes: Vec<IrNode>,
    pub stack: Vec<usize>,
    pub cache: Vec<(u64, usize)>,
    pub anchor: u64,
    pub self_: u64,
    pub ep: u64,
    pub complete: bool,
}

impl View for Recorder {
    type V = RecorderM;

    open spec fn view(&self) -> RecorderM {
        RecorderM {
            nodes: nodes_view(self.nodes@),
            stack: self.stack@,
            cache: self.cache@,
            anchor: self.anchor,
            self_: self.self_,
            ep: self.ep,
            complete: self.complete,
        }
    }
}

/// Look a slot address up in the cache.
fn cache_lookup_vec(cache: &Vec<(u64, usize)>, addr: u64) -> (r: Option<usize>)
    ensures
        r == cache_lookup(cache@, addr),
{
    let ghost whole = cache@;
    let mut i: usize = 0;
    proof {
        assert(whole.subrange(0, whole.len() as int) =~= whole);
    }
    while i < cache.len()
        invariant
            i <= cache@.len(),
            cache@ == whole,
            cache_lookup(whole, addr) == cache_lookup(
                whole.subrange(i as int, whole.len() as int),
                addr,
            ),
        decreases cache@.len() - i,
    {
        let entry = cache[i];
        proof {
            let suf = whole.subrange(i as int, whole.len() as int);
            assert(suf[0] == whole[i as int]);
            assert(suf.subrange(1, suf.len() as int) =~= whole.subrange(
                i as int + 1,
                whole.len() as int,
            ));
        }
        if entry.0 == addr {
            return Some(entry.1);
        }
        i = i + 1;
    }
    proof {
        assert(whole.subrange(i as int, whole.len() as int).len() == 0);
    }
    None
}

/// Drop every cache entry for a slot address.
fn cache_remove_vec(cache: &mut Vec<(u64, usize)>, addr: u64)
    ensures
        final(cache)@ == cache_remove(old(cache)@, addr),
{
    let ghost whole = cache@;
    let mut out: Vec<(u64, usize)> = Vec::new();
    let mut i: usize = 0;
    proof {
        assert(whole.subrange(0, whole.len() as int) =~= whole);
        assert(out@ + cache_remove(whole, addr) =~= cache_remove(whole, addr));
    }
    while i < cache.len()
        invariant
            i <= cache@.len(),
            cache@ == whole,
            cache_remove(whole, addr) == out@ + cache_remove(
                whole.subrange(i as int, whole.len() as int),
                addr,
            ),
        decreases cache@.len() - i,
    {
        let entry = cache[i];
        proof {
            let suf = whole.subrange(i as int, whole.len() as int);
            assert(suf[0] == whole[i as int]);
            assert(suf.subrange(1, suf.len() as int) =~= whole.subrange(
                i as int + 1,
                whole.len() as int,
            ));
        }
        if entry.0 != addr {
            let ghost out_before = out@;
            out.push(entry);
            proof {
                let rest = cache_remove(
                    whole.subrange(i as int + 1, whole.len() as int),
                    addr,
                );
                assert(out_before + (seq![entry] + rest) =~= out@ + rest);
            }
        }
        i = i + 1;
    }
    proof {
        assert(whole.subrange(i as int, whole.len() as int).len() == 0);
        assert(out@ + cache_remove(whole.subrange(i as int, whole.len() as int), addr) =~= out@);
    }
    *cache = out;
}

impl Recorder {
    /// Start a recording session at the given anchor, capturing the
    /// initial self value and the frame base pointer.
    pub fn new(anchor: u64, self_: u64, ep: u64) -> (r: Recorder)
        ensures
            r@ == recorder_init(anchor, self_, ep),
    {
        let r = Recorder {
            nodes: Vec::new(),
            stack: Vec::new(),
            cache: Vec::new(),
            anchor: anchor,
            self_: self_,
            ep: ep,
            complete: false,
        };
        proof {
            assert(r@ =~= recorder_init(anchor, self_, ep));
        }
        r
    }

    /// The absolute slot address for a bytecode offset, or a structural
    /// error where the offset reaches below the frame.
    fn slot_addr_exec(&self, offset: u64) -> (r: Result<u64, TraceError>)
        ensures
            match r {
                Ok(addr) => slot_addr(self.ep, offset) == Some(addr),
                Err(e) => slot_addr(self.ep, offset) is None && e == TraceError::StructuralError,
            },
    {
        match offset.checked_mul(8) {
            Some(bytes) => if bytes <= self.ep {
                Ok(self.ep - bytes)
            } else {
                Err(TraceError::StructuralError)
            },
            None => Err(TraceError::StructuralError),
        }
    }

    /// Emit a node with no SSA operands and push its index.
    fn push_const(&mut self, t: IrType, op: OpCode, imms: Vec<u64>)
        ensures
            final(self)@ == step_push_const(old(self)@, t, op, imms@),
    {
        let idx = self.nodes.len();
        let node = IrNode { type_: t, opcode: op, operands: imms, ssa_operands: Vec::new() };
        proof {
            lemma_nodes_view_push(self.nodes@, node);
        }
        self.nodes.push(node);
        self.stack.push(idx);
        proof {
            assert(self@ =~= step_push_const(old(self)@, t, op, node@.operands));
        }
    }

    /// Record a binary arithmetic or comparison instruction: pop the right
    /// then the left operand and emit one node referencing both.
    fn record_binary(&mut self, t: IrType, op: OpCode) -> (r: Result<(), TraceError>)
        ensures
            match r {
                Ok(()) => step_binary(old(self)@, t, op) == Ok::<RecorderM, TraceError>(final(self)@),
                Err(e) => step_binary(old(self)@, t, op) == Err::<RecorderM, TraceError>(e)
                    && final(self)@ == old(self)@,
            },
    {
        if self.stack.len() < 2 {
            return Err(TraceError::StructuralError);
        }
        let right = self.stack[self.stack.len() - 1];
        let left = self.stack[self.stack.len() - 2];
        let idx = self.nodes.len();
        let mut ssa: Vec<usize> = Vec::new();
        ssa.push(right);
        ssa.push(left);
        let node = IrNode { type_: t, opcode: op, operands: Vec::new(), ssa_operands: ssa };
        proof {
            lemma_nodes_view_push(self.nodes@, node);
        }
        self.nodes.push(node);
        self.stack.pop();
        self.stack.pop();
        self.stack.push(idx);
        proof {
            assert(node@.ssa_operands =~= seq![right, left]);
            assert(old(self)@.stack.drop_last().drop_last() =~= old(self)@.stack.subrange(
                0,
                old(self)@.stack.len() - 2,
            ));
            let expect = step_binary(old(self)@, t, op)->Ok_0;
            assert(self@ =~= expect);
        }
        Ok(())
    }

    /// Record a unary instruction: pop one operand and emit one node
    /// referencing it.
    fn record_unary(&mut self, t: IrType, op: OpCode) -> (r: Result<(), TraceError>)
        ensures
            match r {
                Ok(()) => step_unary(old(self)@, t, op) == Ok::<RecorderM, TraceError>(final(self)@),
                Err(e) => step_unary(old(self)@, t, op) == Err::<RecorderM, TraceError>(e)
                    && final(self)@ == old(self)@,
            },
    {
        if self.stack.len() < 1 {
            return Err(TraceError::StructuralError);
        }
        let src = self.stack[self.stack.len() - 1];
        let idx = self.nodes.len();
        let mut ssa: Vec<usize> = Vec::new();
        ssa.push(src);
        let node = IrNode { type_: t, opcode: op, operands: Vec::new(), ssa_operands: ssa };
        proof {
            lemma_nodes_view_push(self.nodes@, node);
        }
        self.nodes.push(node);
        self.stack.pop();
        self.stack.push(idx);
        proof {
            assert(node@.ssa_operands =~= seq![src]);
            let expect = step_unary(old(self)@, t, op)->Ok_0;
            assert(self@ =~= expect);
        }
        Ok(())
    }

    /// Record a binary comparison: the operands pop in strict stack order
    /// and the node is typed as a native boolean.
    pub fn record_comparison(&mut self, op: YarvOp) -> (r: Result<(), TraceError>)
        requires
            op == YarvOp::OptEq || op == YarvOp::OptLt,
        ensures
            match r {
                Ok(()) => step_binary(
                    old(self)@,
                    IrType::Internal(InternalType::Bool),
                    OpCode::Yarv(op),
                ) == Ok::<RecorderM, TraceError>(final(self)@),
                Err(e) => step_binary(
                    old(self)@,
                    IrType::Internal(InternalType::Bool),
                    OpCode::Yarv(op),
                ) == Err::<RecorderM, TraceError>(e) && final(self)@ == old(self)@,
            },
    {
        self.record_binary(IrType::Internal(InternalType::Bool), OpCode::Yarv(op))
    }

    /// Record a local read, reusing the slot cache on a hit and emitting
    /// a typed stack load on a miss.
    pub fn record_getlocal(&mut self, offset: u64, observed: ValueTag) -> (r: Result<
        (),
        TraceError,
    >)
        ensures
            match r {
                Ok(()) => step_getlocal(old(self)@, offset, observed) == Ok::<
                    RecorderM,
                    TraceError,
                >(final(self)@),
                Err(e) => step_getlocal(old(self)@, offset, observed) == Err::<
                    RecorderM,
                    TraceError,
                >(e) && final(self)@ == old(self)@,
            },
    {
        let addr = match self.slot_addr_exec(offset) {
            Ok(a) => a,
            Err(e) => {
                return Err(e);
            },
        };
        match cache_lookup_vec(&self.cache, addr) {
            Some(r) => {
                self.stack.push(r);
                proof {
                    let expect = step_getlocal(old(self)@, offset, observed)->Ok_0;
                    assert(self@ =~= expect);
                }
                Ok(())
            },
            None => {
                let t = match observed {
                    ValueTag::Fixnum => IrType::Internal(InternalType::I64),
                    _ => IrType::Yarv(observed),
                };
                let idx = self.nodes.len();
                let node = IrNode {
                    type_: t,
                    opcode: OpCode::StackLoad(addr),
                    operands: Vec::new(),
                    ssa_operands: Vec::new(),
                };
                proof {
                    lemma_nodes_view_push(self.nodes@, node);
                }
                self.nodes.push(node);
                self.stack.push(idx);
                self.cache.push((addr, idx));
                proof {
                    let expect = step_getlocal(old(self)@, offset, observed)->Ok_0;
                    assert(self@ =~= expect);
                }
                Ok(())
            },
        }
    }

    /// Record a local write: the write node references the popped source,
    /// and the slot's cache entry is invalidated rather than updated.
    fn record_setlocal(&mut self, offset: u64) -> (r: Result<(), TraceError>)
        ensures
            match r {
                Ok(()) => step_setlocal(old(self)@, offset) == Ok::<RecorderM, TraceError>(final(self)@),
                Err(e) => step_setlocal(old(self)@, offset) == Err::<RecorderM, TraceError>(e)
                    && final(self)@ == old(self)@,
            },
    {
        if self.stack.len() < 1 {
            return Err(TraceError::StructuralError);
        }
        let addr = match self.slot_addr_exec(offset) {
            Ok(a) => a,
            Err(e) => {
                return Err(e);
            },
        };
        let src = self.stack[self.stack.len() - 1];
        let mut imms: Vec<u64> = Vec::new();
        imms.push(addr);
        let mut ssa: Vec<usize> = Vec::new();
        ssa.push(src);
        let node = IrNode {
            type_: IrType::Unit,
            opcode: OpCode::Yarv(YarvOp::SetLocal),
            operands: imms,
            ssa_operands: ssa,
        };
        proof {
            lemma_nodes_view_push(self.nodes@, node);
        }
        self.nodes.push(node);
        self.stack.pop();
        cache_remove_vec(&mut self.cache, addr);
        proof {
            assert(node@.operands =~= seq![addr]);
            assert(node@.ssa_operands =~= seq![src]);
            let expect = step_setlocal(old(self)@, offset)->Ok_0;
            assert(self@ =~= expect);
        }
        Ok(())
    }

    /// Record a conditional branch as a guard on the observed tag,
    /// immediately followed by its snapshot.
    pub fn record_branch(&mut self, pc: u64, observed: ValueTag) -> (r: Result<(), TraceError>)
        ensures
            match r {
                Ok(()) => step_branch(old(self)@, pc, observed) == Ok::<RecorderM, TraceError>(
                    final(self)@,
                ),
                Err(e) => step_branch(old(self)@, pc, observed) == Err::<RecorderM, TraceError>(e)
                    && final(self)@ == old(self)@,
            },
    {
        if self.stack.len() < 1 {
            return Err(TraceError::StructuralError);
        }
        if pc > u64::MAX - 8 {
            return Err(TraceError::StructuralError);
        }
        let cond = self.stack[self.stack.len() - 1];
        let mut ssa: Vec<usize> = Vec::new();
        ssa.push(cond);
        let guard = IrNode {
            type_: IrType::Unit,
            opcode: OpCode::Guard(IrType::Yarv(observed)),
            operands: Vec::new(),
            ssa_operands: ssa,
        };
        let snap = IrNode {
            type_: IrType::Unit,
            opcode: OpCode::Snapshot(pc + 8, SsaOrValue::Value(self.self_)),
            operands: Vec::new(),
            ssa_operands: Vec::new(),
        };
        proof {
            lemma_nodes_view_push(self.nodes@, guard);
        }
        let ghost mid = self.nodes@.push(guard);
        self.nodes.push(guard);
        proof {
            lemma_nodes_view_push(mid, snap);
        }
        self.nodes.push(snap);
        self.stack.pop();
        proof {
            assert(guard@.ssa_operands =~= seq![cond]);
            let expect = step_branch(old(self)@, pc, observed)->Ok_0;
            assert(self@ =~= expect);
        }
        Ok(())
    }

    /// Record a monomorphic call without a block, when the call cache
    /// resolved it to a concrete native target.
    fn record_send(&mut self, call_site: u64, cache_handle: u64, target: Option<u64>) -> (r: Result<
        (),
        TraceError,
    >)
        ensures
            match r {
                Ok(()) => step_send(old(self)@, call_site, cache_handle, target) == Ok::<
                    RecorderM,
                    TraceError,
                >(final(self)@),
                Err(e) => step_send(old(self)@, call_site, cache_handle, target) == Err::<
                    RecorderM,
                    TraceError,
                >(e) && final(self)@ == old(self)@,
            },
    {
        match target {
            None => Ok(()),
            Some(_) => {
                if self.stack.len() < 1 {
                    return Err(TraceError::StructuralError);
                }
                let recv = self.stack[self.stack.len() - 1];
                let idx = self.nodes.len();
                let mut imms: Vec<u64> = Vec::new();
                imms.push(call_site);
                imms.push(cache_handle);
                let mut ssa: Vec<usize> = Vec::new();
                ssa.push(recv);
                let node = IrNode {
                    type_: IrType::Internal(InternalType::Value),
                    opcode: OpCode::Yarv(YarvOp::OptSend),
                    operands: imms,
                    ssa_operands: ssa,
                };
                proof {
                    lemma_nodes_view_push(self.nodes@, node);
                }
                self.nodes.push(node);
                self.stack.pop();
                self.stack.push(idx);
                proof {
                    assert(node@.operands =~= seq![call_site, cache_handle]);
                    assert(node@.ssa_operands =~= seq![recv]);
                    let expect = step_send(old(self)@, call_site, cache_handle, target)->Ok_0;
                    assert(self@ =~= expect);
                }
                Ok(())
            },
        }
    }

    /// Record a collection read: pop the key then the receiver.
    pub fn record_aref(&mut self) -> (r: Result<(), TraceError>)
        ensures
            match r {
                Ok(()) => step_aref(old(self)@) == Ok::<RecorderM, TraceError>(final(self)@),
                Err(e) => step_aref(old(self)@) == Err::<RecorderM, TraceError>(e) && final(self)@ == old(
                    self,
                )@,
            },
    {
        if self.stack.len() < 2 {
            return Err(TraceError::StructuralError);
        }
        let key = self.stack[self.stack.len() - 1];
        let recv = self.stack[self.stack.len() - 2];
        let idx = self.nodes.len();
        let mut ssa: Vec<usize> = Vec::new();
        ssa.push(recv);
        ssa.push(key);
        let node = IrNode {
            type_: IrType::Internal(InternalType::Value),
            opcode: OpCode::ArrayGet,
            operands: Vec::new(),
            ssa_operands: ssa,
        };
        proof {
            lemma_nodes_view_push(self.nodes@, node);
        }
        self.nodes.push(node);
        self.stack.pop();
        self.stack.pop();
        self.stack.push(idx);
        proof {
            assert(node@.ssa_operands =~= seq![recv, key]);
            assert(old(self)@.stack.drop_last().drop_last() =~= old(self)@.stack.subrange(
                0,
                old(self)@.stack.len() - 2,
            ));
            let expect = step_aref(old(self)@)->Ok_0;
            assert(self@ =~= expect);
        }
        Ok(())
    }

    /// Record a collection append: pop the element then the receiver.
    fn record_append(&mut self) -> (r: Result<(), TraceError>)
        ensures
            match r {
                Ok(()) => step_append(old(self)@) == Ok::<RecorderM, TraceError>(final(self)@),
                Err(e) => step_append(old(self)@) == Err::<RecorderM, TraceError>(e) && final(self)@
                    == old(self)@,
            },
    {
        if self.stack.len() < 2 {
            return Err(TraceError::StructuralError);
        }
        let elem = self.stack[self.stack.len() - 1];
        let recv = self.stack[self.stack.len() - 2];
        let idx = self.nodes.len();
        let mut ssa: Vec<usize> = Vec::new();
        ssa.push(recv);
        ssa.push(elem);
        let node = IrNode {
            type_: IrType::Internal(InternalType::Value),
            opcode: OpCode::ArrayAppend,
            operands: Vec::new(),
            ssa_operands: ssa,
        };
        proof {
            lemma_nodes_view_push(self.nodes@, node);
        }
        self.nodes.push(node);
        self.stack.pop();
        self.stack.pop();
        self.stack.push(idx);
        proof {
            assert(node@.ssa_operands =~= seq![recv, elem]);
            assert(old(self)@.stack.drop_last().drop_last() =~= old(self)@.stack.subrange(
                0,
                old(self)@.stack.len() - 2,
            ));
            let expect = step_append(old(self)@)->Ok_0;
            assert(self@ =~= expect);
        }
        Ok(())
    }

    /// Record the size primitive: pop the receiver and emit a node typed
    /// as an unboxed integer.
    pub fn record_opt_size(&mut self) -> (r: Result<(), TraceError>)
        ensures
            match r {
                Ok(()) => step_unary(
                    old(self)@,
                    IrType::Internal(InternalType::I64),
                    OpCode::Yarv(YarvOp::OptSize),
                ) == Ok::<RecorderM, TraceError>(final(self)@),
                Err(e) => step_unary(
                    old(self)@,
                    IrType::Internal(InternalType::I64),
                    OpCode::Yarv(YarvOp::OptSize),
                ) == Err::<RecorderM, TraceError>(e) && final(self)@ == old(self)@,
            },
    {
        self.record_unary(IrType::Internal(InternalType::I64), OpCode::Yarv(YarvOp::OptSize))
    }

    /// Record one dispatched instruction.  When the anchor program counter
    /// recurs the loop-closing node is appended and the trace completes;
    /// otherwise the instruction's recording rule applies.  The result is
    /// exactly what `record_step` gives.
    pub fn record_instruction(&mut self, pc: u64, insn: Insn) -> (r: Result<(), TraceError>)
        ensures
            match r {
                Ok(()) => record_step(old(self)@, pc, insn) == Ok::<RecorderM, TraceError>(final(self)@),
                Err(e) => record_step(old(self)@, pc, insn) == Err::<RecorderM, TraceError>(e)
                    && final(self)@ == old(self)@,
            },
    {
        if self.complete {
            return Err(TraceError::StructuralError);
        }
        if self.nodes.len() > 0 && pc == self.anchor {
            let node = IrNode {
                type_: IrType::Unit,
                opcode: OpCode::Loop,
                operands: Vec::new(),
                ssa_operands: Vec::new(),
            };
            proof {
                lemma_nodes_view_push(self.nodes@, node);
            }
            self.nodes.push(node);
            self.complete = true;
            proof {
                assert(self@ =~= step_close(old(self)@));
            }
            return Ok(());
        }
        match insn {
            Insn::PutNil => {
                self.push_const(IrType::Yarv(ValueTag::Nil), OpCode::Yarv(YarvOp::PutNil), Vec::new());
                Ok(())
            },
            Insn::PutObjectFixZero => {
                self.push_const(
                    IrType::Yarv(ValueTag::Fixnum),
                    OpCode::Yarv(YarvOp::PutObjectFixZero),
                    Vec::new(),
                );
                Ok(())
            },
            Insn::PutObjectFixOne => {
                self.push_const(
                    IrType::Yarv(ValueTag::Fixnum),
                    OpCode::Yarv(YarvOp::PutObjectFixOne),
                    Vec::new(),
                );
                Ok(())
            },
            Insn::PutObject { value } => {
                let t = read_tag(value);
                let mut imms: Vec<u64> = Vec::new();
                imms.push(value);
                self.push_const(IrType::Yarv(t), OpCode::Yarv(YarvOp::PutObject), imms);
                proof {
                    assert(record_step(old(self)@, pc, insn) == Ok::<RecorderM, TraceError>(self@));
                }
                Ok(())
            },
            Insn::PutString { value } => {
                let mut imms: Vec<u64> = Vec::new();
                imms.push(value);
                self.push_const(IrType::Yarv(ValueTag::RString), OpCode::Yarv(YarvOp::PutString), imms);
                Ok(())
            },
            Insn::DupArray { array } => {
                let mut imms: Vec<u64> = Vec::new();
                imms.push(array);
                self.push_const(IrType::Yarv(ValueTag::Array), OpCode::Yarv(YarvOp::DupArray), imms);
                Ok(())
            },
            Insn::PutSelf => {
                self.push_const(
                    IrType::Internal(InternalType::Value),
                    OpCode::Yarv(YarvOp::PutSelf),
                    Vec::new(),
                );
                Ok(())
            },
            Insn::GetLocal { offset, observed } => self.record_getlocal(offset, observed),
            Insn::SetLocal { offset } => self.record_setlocal(offset),
            Insn::OptPlus => self.record_binary(
                IrType::Internal(InternalType::I64),
                OpCode::Yarv(YarvOp::OptPlus),
            ),
            Insn::OptEq => self.record_comparison(YarvOp::OptEq),
            Insn::OptLt => self.record_comparison(YarvOp::OptLt),
            Insn::OptNot => self.record_unary(
                IrType::Internal(InternalType::Bool),
                OpCode::Yarv(YarvOp::OptNot),
            ),
            Insn::OptEmptyP => self.record_unary(
                IrType::Internal(InternalType::Bool),
                OpCode::Yarv(YarvOp::OptEmptyP),
            ),
            Insn::OptSize => self.record_opt_size(),
            Insn::OptAref => self.record_aref(),
            Insn::OptLtLt => self.record_append(),
            Insn::OptSend { call_site, cache_handle, target } => self.record_send(
                call_site,
                cache_handle,
                target,
            ),
            Insn::Dup => {
                if self.stack.len() < 1 {
                    return Err(TraceError::StructuralError);
                }
                let top = self.stack[self.stack.len() - 1];
                self.stack.push(top);
                proof {
                    let expect = record_step(old(self)@, pc, insn)->Ok_0;
                    assert(self@ =~= expect);
                }
                Ok(())
            },
            Insn::Pop => {
                if self.stack.len() < 1 {
                    return Err(TraceError::StructuralError);
                }
                self.stack.pop();
                proof {
                    let expect = record_step(old(self)@, pc, insn)->Ok_0;
                    assert(self@ =~= expect);
                }
                Ok(())
            },
            Insn::Leave => Ok(()),
            Insn::BranchIf { observed } => self.record_branch(pc, observed),
            Insn::BranchUnless { observed } => self.record_branch(pc, observed),
            Insn::Unknown => Err(TraceError::UnsupportedOpcode),
        }
    }

    /// Hand the finished recording over as a trace.
    pub fn into_trace(self) -> (t: Trace)
        ensures
            t.anchor == self.anchor,
            t.self_ == self.self_,
            t.complete == self.complete,
            t.nodes_v() == self@.nodes,
    {
        Trace { anchor: self.anchor, self_: self.self_, nodes: self.nodes, complete: self.complete }
    }
}

} // verus!
