//! A tracing just-in-time compiler tier for a stack-based bytecode
//! interpreter.  One hot loop execution is observed instruction by
//! instruction, recorded as a linear SSA trace with runtime-observed type
//! specialization, and lowered into a single loop routine guarded by
//! deoptimization checks that hand control back to the interpreter.

pub mod value;
pub mod ir;
pub mod recorder;
pub mod session;
pub mod compiler;
pub mod machine;
pub mod laws;
