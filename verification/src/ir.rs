//! The node and type vocabulary shared by the recorder and the compiler,
//! and the well-formedness invariant of a recorded trace.

use vstd::prelude::*;
use crate::value::ValueTag;

verus! {

/// A specialized unboxed representation: a 64-bit signed integer, a native
/// boolean, or an opaque pass-through tagged value.
#[derive(Clone, Copy, Debug, PartialEq, Eq, Structural)]
pub enum InternalType {
    I64,
    Bool,
    Value,
}

/// The result type of a node: none, the original tagged runtime type, or a
/// specialized internal representation.
#[derive(Clone, Copy, Debug, PartialEq, Eq, Structural)]
pub enum IrType {
    Unit,
    Yarv(ValueTag),
    Internal(InternalType),
}

/// The provenance of "self" carried by a snapshot: either the literal
/// initial value, or an SSA reference if self was reassigned in the trace.
#[derive(Clone, Copy, Debug, PartialEq, Eq, Structural)]
pub enum SsaOrValue {
    Value(u64),
    Ssa(usize),
}

/// A bytecode operation passed through into the trace unchanged.
#[derive(Clone, Copy, Debug, PartialEq, Eq, Structural)]
pub enum YarvOp {
    PutSelf,
    PutNil,
    PutObject,
    PutObjectFixZero,
    PutObjectFixOne,
    PutString,
    DupArray,
    GetLocal,
    SetLocal,
    OptPlus,
    OptEq,
    OptLt,
    OptNot,
    OptEmptyP,
    OptSize,
    OptSend,
}

/// The discriminated opcode of a trace node: a pass-through of the
/// original bytecode operation, a type guard, a snapshot of interpreter
/// resumption state, the loop-closing node, a load from a frame slot, or a
/// collection primitive.
#[derive(Clone, Copy, Debug, PartialEq, Eq, Structural)]
pub enum OpCode {
    Yarv(YarvOp),
    Guard(IrType),
    Snapshot(u64, SsaOrValue),
    Loop,
    StackLoad(u64),
    NewArray,
    ArrayGet,
    ArraySet,
    ArrayAppend,
    NewHash,
    HashGet,
    HashSet,
}

/// One SSA node of a trace: an opcode, the result type, the decoded
/// immediate operands, and the SSA operand references, which index
/// strictly earlier nodes of the same trace.
#[derive(Clone, Debug)]
pub struct IrNode {
    pub type_: IrType,
    pub opcode: OpCode,
    pub operands: Vec<u64>,
    pub ssa_operands: Vec<usize>,
}

/// The mathematical reading of a node, with the operand lists as
/// sequences.
pub ghost struct IrNodeV {
    pub type_: IrType,
    pub opcode: OpCode,
    pub operands: Seq<u64>,
    pub ssa_operands: Seq<usize>,
}

impl View for IrNode {
    type V = IrNodeV;

    open spec fn view(&self) -> IrNodeV {
        IrNodeV {
            type_: self.type_,
            opcode: self.opcode,
            operands: self.operands@,
            ssa_operands: self.ssa_operands@,
        }
    }
}

/// The mathematical reading of a node sequence.
pub open spec fn nodes_view(nodes: Seq<IrNode>) -> Seq<IrNodeV> {
    nodes.map(|i: int, n: IrNode| n@)
}

/// A completed linear recording of one hot loop: the anchor program
/// counter, the initial self value, and the ordered node sequence.
#[derive(Clone, Debug)]
pub struct Trace {
    pub anchor: u64,
    pub self_: u64,
    pub nodes: Vec<IrNode>,
    pub complete: bool,
}

/// The three fatal error categories: a structural misuse (stack underflow
/// or a session used out of order), an opcode without a recording or
/// lowering rule, and a missing runtime-helper or call target at lowering
/// time.
#[derive(Clone, Copy, Debug, PartialEq, Eq, Structural)]
pub enum TraceError {
    StructuralError,
    UnsupportedOpcode,
    LinkError,
}

/// How many SSA operand references a node with this opcode carries.
pub open spec fn ssa_arity(op: OpCode) -> int {
    match op {
        OpCode::Yarv(y) => match y {
            YarvOp::SetLocal => 1,
            YarvOp::OptPlus => 2,
            YarvOp::OptEq => 2,
            YarvOp::OptLt => 2,
            YarvOp::OptNot => 1,
            YarvOp::OptEmptyP => 1,
            YarvOp::OptSize => 1,
            YarvOp::OptSend => 1,
            _ => 0,
        },
        OpCode::Guard(_) => 1,
        OpCode::ArrayGet => 2,
        OpCode::ArraySet => 3,
        OpCode::ArrayAppend => 2,
        OpCode::HashGet => 2,
        OpCode::HashSet => 3,
        _ => 0,
    }
}

/// How many immediate operands a node with this opcode carries.
pub open spec fn imm_arity(op: OpCode) -> int {
    match op {
        OpCode::Yarv(y) => match y {
            YarvOp::PutObject => 1,
            YarvOp::PutString => 1,
            YarvOp::DupArray => 1,
            YarvOp::SetLocal => 1,
            YarvOp::OptSend => 2,
            _ => 0,
        },
        _ => 0,
    }
}

/// Well-formedness of the node at index `i` within its sequence: the
/// operand lists have the arity of the opcode, every SSA reference points
/// strictly earlier, and a guard is immediately followed by its snapshot.
pub open spec fn node_wf(nodes: Seq<IrNodeV>, i: int) -> bool {
    let n = nodes[i];
    &&& n.ssa_operands.len() == ssa_arity(n.opcode)
    &&& n.operands.len() == imm_arity(n.opcode)
    &&& forall|j: int| 0 <= j < n.ssa_operands.len() ==> n.ssa_operands[j] < i
    &&& (n.opcode is Guard ==> i + 1 < nodes.len() && nodes[i + 1].opcode is Snapshot)
}

/// Well-formedness of a node sequence: every node is well formed and the
/// loop-closing node, if present, is the final node and occurs once.
pub open spec fn nodes_wf(nodes: Seq<IrNodeV>) -> bool {
    &&& forall|i: int| 0 <= i < nodes.len() ==> node_wf(nodes, i)
    &&& forall|i: int| 0 <= i < nodes.len() - 1 ==> !(nodes[i].opcode is Loop)
}

impl Trace {
    /// The mathematical reading of the node sequence.
    pub open spec fn nodes_v(&self) -> Seq<IrNodeV> {
        nodes_view(self.nodes@)
    }

    /// A trace is well formed when its node sequence is, and completion
    /// means the final node closes the loop.
    pub open spec fn wf(&self) -> bool {
        &&& nodes_wf(self.nodes_v())
        &&& self.complete ==> self.nodes_v().len() > 0
            && self.nodes_v().last().opcode is Loop
    }
}

/// Mapping a node view over a push distributes: the view of the grown
/// sequence is the grown view.
pub proof fn lemma_nodes_view_push(nodes: Seq<IrNode>, n: IrNode)
    ensures
        nodes_view(nodes.push(n)) == nodes_view(nodes).push(n@),
{
    assert(nodes_view(nodes.push(n)) =~= nodes_view(nodes).push(n@));
}

} // verus!
