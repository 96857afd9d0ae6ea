//! The process-wide recording session: exactly two states, idle and
//! recording, owned by whoever drives the instrumentation feed.  Misuse —
//! starting a session while one is active, or recording with none active —
//! is a structural error, never a panic.

use vstd::prelude::*;
use crate::ir::Trace;
use crate::ir::TraceError;
use crate::recorder::Insn;
use crate::recorder::Recorder;
use crate::recorder::RecorderM;
use crate::recorder::record_step;
use crate::recorder::recorder_init;

verus! {

/// The session state: idle, or recording one trace.
pub enum Session {
    Idle,
    Recording(Recorder),
}

impl Session {
    /// A fresh, idle session.
    pub fn new() -> (s: Session)
        ensures
            s is Idle,
    {
        Session::Idle
    }

    /// Whether a recording is active; the host checks this before each
    /// dispatch to decide whether to deliver the instruction.
    pub fn is_recording(&self) -> (b: bool)
        ensures
            b == (self is Recording),
    {
        match self {
            Session::Recording(_) => true,
            Session::Idle => false,
        }
    }

    /// Start a session anchored at the given program counter, capturing
    /// the initial self value and the frame base pointer.  Starting while
    /// another session is active is a structural error and changes
    /// nothing.
    pub fn begin_trace(&mut self, pc: u64, self_: u64, ep: u64) -> (r: Result<(), TraceError>)
        ensures
            match r {
                Ok(()) => (*old(self)) is Idle && ((*final(self)) matches Session::Recording(rec)
                    && rec@ == recorder_init(pc, self_, ep)),
                Err(e) => (*old(self)) is Recording && e == TraceError::StructuralError && *final(self) == *old(self),
            },
    {
        match self {
            Session::Recording(_) => Err(TraceError::StructuralError),
            Session::Idle => {
                *self = Session::Recording(Recorder::new(pc, self_, ep));
                Ok(())
            },
        }
    }

    /// Deliver one dispatched instruction to the active session.  On the
    /// anchor's recurrence the trace completes and is handed back, and the
    /// session returns to idle; on a fatal error the in-progress trace is
    /// discarded.  Recording with no active session is a structural error.
    pub fn record_instruction(&mut self, pc: u64, insn: Insn) -> (r: Result<
        Option<Trace>,
        TraceError,
    >)
        ensures
            (*old(self)) is Idle ==> r == Err::<Option<Trace>, TraceError>(
                TraceError::StructuralError,
            ) && (*final(self)) is Idle,
            (*old(self)) is Recording ==> (match r {
                Ok(out) => {
                    let stepped = record_step((*old(self))->Recording_0@, pc, insn)->Ok_0;
                    &&& record_step((*old(self))->Recording_0@, pc, insn) is Ok
                    &&& (match out {
                        Some(t) => stepped.complete && (*final(self)) is Idle && t.nodes_v()
                            == stepped.nodes && t.anchor == stepped.anchor && t.self_
                            == stepped.self_ && t.complete,
                        None => !stepped.complete && (*final(self)) is Recording
                            && (*final(self))->Recording_0@ == stepped,
                    })
                },
                Err(e) => record_step((*old(self))->Recording_0@, pc, insn) == Err::<
                    RecorderM,
                    TraceError,
                >(e) && (*final(self)) is Idle,
            }),
    {
        let mut taken = Session::Idle;
        core::mem::swap(self, &mut taken);
        match taken {
            Session::Idle => Err(TraceError::StructuralError),
            Session::Recording(mut rec) => {
                match rec.record_instruction(pc, insn) {
                    Ok(()) => {
                        if rec.complete {
                            Ok(Some(rec.into_trace()))
                        } else {
                            *self = Session::Recording(rec);
                            Ok(None)
                        }
                    },
                    Err(e) => Err(e),
                }
            },
        }
    }
}

} // verus!
