//! The machine model the compiler targets, and its evaluator.
//!
//! A routine's loop body runs instruction by instruction, each producing
//! one value; the frame is a memory of absolute slot addresses; helper
//! calls return whatever the external runtime hands back, supplied here
//! as a sequence of results consumed in order.  The routine runs until a
//! guard fails, which hands back the resumption state — a guard failure
//! is a designed outcome, not an error — or until the iteration budget is
//! spent.

use vstd::prelude::*;
use crate::value::bool_tag;
use crate::value::fix_tag_word;
use crate::value::fix_untag_word;
use crate::value::word_lt;
use crate::value::tag_fixnum_word;
use crate::value::untag_fixnum_word;
use crate::value::tag_bool;
use crate::compiler::MachInst;
use crate::compiler::Routine;
use crate::compiler::SelfVal;
use crate::compiler::inst_reads;
use crate::compiler::routine_wf;

verus! {

/// The frame memory: tagged words at absolute slot addresses.
#[derive(Clone, Debug)]
pub struct Mem {
    pub slots: Vec<(u64, u64)>,
}

/// The word stored at an address; an unbound address reads as zero.
pub open spec fn mem_read(m: Seq<(u64, u64)>, addr: u64) -> u64
    decreases m.len(),
{
    if m.len() == 0 {
        0
    } else if m[0].0 == addr {
        m[0].1
    } else {
        mem_read(m.subrange(1, m.len() as int), addr)
    }
}

/// The memory with the word at an address replaced, or bound if absent.
pub open spec fn mem_write(m: Seq<(u64, u64)>, addr: u64, val: u64) -> Seq<(u64, u64)>
    decreases m.len(),
{
    if m.len() == 0 {
        seq![(addr, val)]
    } else if m[0].0 == addr {
        seq![(addr, val)] + m.subrange(1, m.len() as int)
    } else {
        seq![m[0]] + mem_write(m.subrange(1, m.len() as int), addr, val)
    }
}

impl View for Mem {
    type V = Seq<(u64, u64)>;

    open spec fn view(&self) -> Seq<(u64, u64)> {
        self.slots@
    }
}

impl Mem {
    /// An empty frame memory.
    pub fn new() -> (m: Mem)
        ensures
            m@ == Seq::<(u64, u64)>::empty(),
    {
        Mem { slots: Vec::new() }
    }

    /// Read the word at an address.
    pub fn read(&self, addr: u64) -> (v: u64)
        ensures
            v == mem_read(self@, addr),
    {
        let ghost whole = self.slots@;
        let mut i: usize = 0;
        proof {
            assert(whole.subrange(0, whole.len() as int) =~= whole);
        }
        while i < self.slots.len()
            invariant
                i <= whole.len(),
                self.slots@ == whole,
                mem_read(whole, addr) == mem_read(
                    whole.subrange(i as int, whole.len() as int),
                    addr,
                ),
            decreases whole.len() - i,
        {
            let entry = self.slots[i];
            proof {
                let suf = whole.subrange(i as int, whole.len() as int);
                assert(suf[0] == whole[i as int]);
                assert(suf.subrange(1, suf.len() as int) =~= whole.subrange(
                    i as int + 1,
                    whole.len() as int,
                ));
            }
            if entry.0 == addr {
                return entry.1;
            }
            i = i + 1;
        }
        proof {
            assert(whole.subrange(i as int, whole.len() as int).len() == 0);
        }
        0
    }

    /// Write the word at an address.
    pub fn write(&mut self, addr: u64, val: u64)
        ensures
            final(self)@ == mem_write(old(self)@, addr, val),
    {
        let ghost whole = self.slots@;
        let mut i: usize = 0;
        proof {
            assert(whole.subrange(0, whole.len() as int) =~= whole);
        }
        while i < self.slots.len()
            invariant
                i <= whole.len(),
                self.slots@ == whole,
                whole == old(self)@,
                mem_write(whole, addr, val) == whole.subrange(0, i as int) + mem_write(
                    whole.subrange(i as int, whole.len() as int),
                    addr,
                    val,
                ),
                forall|k: int| 0 <= k < i ==> whole[k].0 != addr,
            decreases whole.len() - i,
        {
            let entry = self.slots[i];
            proof {
                let suf = whole.subrange(i as int, whole.len() as int);
                assert(suf[0] == whole[i as int]);
                assert(suf.subrange(1, suf.len() as int) =~= whole.subrange(
                    i as int + 1,
                    whole.len() as int,
                ));
            }
            if entry.0 == addr {
                self.slots.set(i, (addr, val));
                proof {
                    let suf = whole.subrange(i as int, whole.len() as int);
                    assert(mem_write(suf, addr, val) == seq![(addr, val)] + whole.subrange(
                        i as int + 1,
                        whole.len() as int,
                    ));
                    assert(self.slots@ =~= whole.subrange(0, i as int) + (seq![(addr, val)]
                        + whole.subrange(i as int + 1, whole.len() as int)));
                    assert(mem_write(suf, addr, val) == seq![(addr, val)] + suf.subrange(
                        1,
                        suf.len() as int,
                    ));
                    assert(seq![(addr, val)] + suf.subrange(1, suf.len() as int) =~= seq![
                        (addr, val),
                    ] + whole.subrange(i as int + 1, whole.len() as int));
                    assert(self.slots@ == mem_write(whole, addr, val));
                    assert(old(self)@ == whole);
                }
                return ;
            }
            i = i + 1;
            proof {
                assert(whole.subrange(0, i as int) =~= whole.subrange(0, i as int - 1) + seq![
                    whole[i as int - 1],
                ]);
                let rest = mem_write(
                    whole.subrange(i as int, whole.len() as int),
                    addr,
                    val,
                );
                assert((whole.subrange(0, i as int - 1) + seq![whole[i as int - 1]]) + rest
                    =~= whole.subrange(0, i as int - 1) + (seq![whole[i as int - 1]] + rest));
            }
        }
        self.slots.push((addr, val));
        proof {
            assert(whole.subrange(i as int, whole.len() as int).len() == 0);
            assert(mem_write(whole.subrange(i as int, whole.len() as int), addr, val) =~= seq![
                (addr, val),
            ]);
            assert(self.slots@ =~= whole.subrange(0, i as int) + seq![(addr, val)]);
            assert(self.slots@ == mem_write(whole, addr, val));
            assert(old(self)@ == whole);
        }
    }
}

/// The outcome of running a routine: a guard's side exit carrying the
/// resumption state, the iteration budget spent with the loop still
/// running, or the supply of helper results exhausted.
#[derive(Clone, Copy, Debug, PartialEq, Eq, Structural)]
pub enum RunOutcome {
    SideExit { pc: u64, self_val: u64 },
    Running,
    Starved,
}

/// Where one pass over the loop body ends: fall through to the next
/// iteration, leave through a guard, or run out of helper results.
pub ghost enum IterRes {
    Cont { mem: Seq<(u64, u64)>, oi: int },
    Exit { pc: u64, self_val: u64, mem: Seq<(u64, u64)>, oi: int },
    Starved { mem: Seq<(u64, u64)>, oi: int },
}

/// 64-bit wrapping addition.
pub open spec fn wrap_add(a: u64, b: u64) -> u64 {
    if a + b > u64::MAX {
        (a + b - 0x1_0000_0000_0000_0000) as u64
    } else {
        (a + b) as u64
    }
}

/// The value a pure instruction produces from the values before it.
pub open spec fn inst_value(inst: MachInst, vals: Seq<u64>, mem: Seq<(u64, u64)>) -> u64 {
    match inst {
        MachInst::ConstVal { value } => value,
        MachInst::Add { lhs, rhs } => wrap_add(vals[lhs as int], vals[rhs as int]),
        MachInst::CmpEq { lhs, rhs } => if vals[lhs as int] == vals[rhs as int] {
            1
        } else {
            0
        },
        MachInst::CmpLt { lhs, rhs } => if word_lt(vals[lhs as int], vals[rhs as int]) {
            1
        } else {
            0
        },
        MachInst::IsZero { src } => if vals[src as int] == 0 {
            1
        } else {
            0
        },
        MachInst::BoolNot { src } => if vals[src as int] == 0 {
            1
        } else {
            0
        },
        MachInst::Load { addr } => mem_read(mem, addr),
        MachInst::Store { src, .. } => vals[src as int],
        MachInst::TagFix { src } => fix_tag_word(vals[src as int]),
        MachInst::UntagFix { src } => fix_untag_word(vals[src as int]),
        MachInst::TagBool { src } => bool_tag(vals[src as int] != 0),
        MachInst::Guard { src, .. } => vals[src as int],
        _ => 0,
    }
}

/// Whether a guard trips: one recorded from an observed falsy value
/// exits when the value is truthy (nonzero), one from an observed truthy
/// value exits when the value is zero.
pub open spec fn guard_trips(value: u64, exit_when_truthy: bool) -> bool {
    if exit_when_truthy {
        value != 0
    } else {
        value == 0
    }
}

/// One pass over the loop body from instruction `j` on, with the values
/// produced so far.
pub open spec fn run_iter(
    insts: Seq<MachInst>,
    j: int,
    vals: Seq<u64>,
    mem: Seq<(u64, u64)>,
    oracle: Seq<u64>,
    oi: int,
) -> IterRes
    decreases insts.len() - j,
{
    if j < 0 || j >= insts.len() {
        IterRes::Cont { mem: mem, oi: oi }
    } else {
        match insts[j] {
            MachInst::LoopBack => IterRes::Cont { mem: mem, oi: oi },
            MachInst::Guard { src, exit_when_truthy, resume_pc, resume_self } => {
                let v = vals[src as int];
                if guard_trips(v, exit_when_truthy) {
                    IterRes::Exit {
                        pc: resume_pc,
                        self_val: match resume_self {
                            SelfVal::Const(c) => c,
                            SelfVal::Reg(r) => vals[r as int],
                        },
                        mem: mem,
                        oi: oi,
                    }
                } else {
                    run_iter(insts, j + 1, vals.push(v), mem, oracle, oi)
                }
            },
            MachInst::Store { src, addr } => run_iter(
                insts,
                j + 1,
                vals.push(vals[src as int]),
                mem_write(mem, addr, vals[src as int]),
                oracle,
                oi,
            ),
            MachInst::CallHelper0 { .. } => if oi < 0 || oi >= oracle.len() {
                IterRes::Starved { mem: mem, oi: oi }
            } else {
                run_iter(insts, j + 1, vals.push(oracle[oi]), mem, oracle, oi + 1)
            },
            MachInst::CallHelper1 { .. } => if oi < 0 || oi >= oracle.len() {
                IterRes::Starved { mem: mem, oi: oi }
            } else {
                run_iter(insts, j + 1, vals.push(oracle[oi]), mem, oracle, oi + 1)
            },
            MachInst::CallHelper2 { .. } => if oi < 0 || oi >= oracle.len() {
                IterRes::Starved { mem: mem, oi: oi }
            } else {
                run_iter(insts, j + 1, vals.push(oracle[oi]), mem, oracle, oi + 1)
            },
            MachInst::CallHelper3 { .. } => if oi < 0 || oi >= oracle.len() {
                IterRes::Starved { mem: mem, oi: oi }
            } else {
                run_iter(insts, j + 1, vals.push(oracle[oi]), mem, oracle, oi + 1)
            },
            _ => run_iter(insts, j + 1, vals.push(inst_value(insts[j], vals, mem)), mem, oracle, oi),
        }
    }
}

/// Run the loop body up to `fuel` times from the given memory, consuming
/// helper results in order: the outcome and the final memory.
pub open spec fn run_spec(
    insts: Seq<MachInst>,
    mem: Seq<(u64, u64)>,
    oracle: Seq<u64>,
    oi: int,
    fuel: nat,
) -> (RunOutcome, Seq<(u64, u64)>)
    decreases fuel,
{
    if fuel == 0 {
        (RunOutcome::Running, mem)
    } else {
        match run_iter(insts, 0, Seq::empty(), mem, oracle, oi) {
            IterRes::Cont { mem: m2, oi: oi2 } => run_spec(
                insts,
                m2,
                oracle,
                oi2,
                (fuel - 1) as nat,
            ),
            IterRes::Exit { pc, self_val, mem: m2, .. } => (
                RunOutcome::SideExit { pc: pc, self_val: self_val },
                m2,
            ),
            IterRes::Starved { mem: m2, .. } => (RunOutcome::Starved, m2),
        }
    }
}

/// Decide whether a guard trips on a value.
pub fn guard_trips_exec(value: u64, exit_when_truthy: bool) -> (b: bool)
    ensures
        b == guard_trips(value, exit_when_truthy),
{
    if exit_when_truthy {
        value != 0
    } else {
        value == 0
    }
}

/// Where one pass over the loop body ended, as the evaluator reports it.
#[derive(Clone, Copy, Debug, PartialEq, Eq, Structural)]
pub enum IterOutcome {
    Cont,
    Exit { pc: u64, self_val: u64 },
    Starved,
}

/// Run the loop body once: every instruction in order, stores applied to
/// the frame, helper results consumed in order, ending early only through
/// a tripped guard or an exhausted helper supply.  The outcome is exactly
/// what `run_iter` gives for the whole body.
fn run_body(routine: &Routine, mem: &mut Mem, oracle: &Vec<u64>, oi: &mut usize) -> (r:
    IterOutcome)
    requires
        routine_wf(routine.insts@),
        *old(oi) <= oracle@.len(),
    ensures
        *final(oi) <= oracle@.len(),
        match r {
            IterOutcome::Cont => run_iter(
                routine.insts@,
                0,
                Seq::empty(),
                old(mem)@,
                oracle@,
                *old(oi) as int,
            ) == (IterRes::Cont { mem: final(mem)@, oi: *final(oi) as int }),
            IterOutcome::Exit { pc, self_val } => run_iter(
                routine.insts@,
                0,
                Seq::empty(),
                old(mem)@,
                oracle@,
                *old(oi) as int,
            ) == (IterRes::Exit {
                pc: pc,
                self_val: self_val,
                mem: final(mem)@,
                oi: *final(oi) as int,
            }),
            IterOutcome::Starved => run_iter(
                routine.insts@,
                0,
                Seq::empty(),
                old(mem)@,
                oracle@,
                *old(oi) as int,
            ) == (IterRes::Starved { mem: final(mem)@, oi: *final(oi) as int }),
        },
{
    let ghost insts_v = routine.insts@;
    let ghost mem0 = mem@;
    let ghost oi0 = *oi as int;
    let mut vals: Vec<u64> = Vec::new();
    let mut j: usize = 0;
    while j < routine.insts.len()
        invariant
            routine_wf(insts_v),
            insts_v == routine.insts@,
            j <= insts_v.len(),
            vals@.len() == j,
            *oi <= oracle@.len(),
            mem0 == old(mem)@,
            oi0 == *old(oi) as int,
            run_iter(insts_v, 0, Seq::empty(), mem0, oracle@, oi0) == run_iter(
                insts_v,
                j as int,
                vals@,
                mem@,
                oracle@,
                *oi as int,
            ),
        decreases insts_v.len() - j,
    {
        let inst = routine.insts[j];
        proof {
            assert(forall|x: int|
                0 <= x < inst_reads(inst).len() ==> inst_reads(inst)[x] < j as int);
        }
        match inst {
            MachInst::ConstVal { value } => {
                vals.push(value);
            },
            MachInst::Add { lhs, rhs } => {
                proof {
                    assert(inst_reads(inst)[0] == lhs && inst_reads(inst)[1] == rhs);
                }
                let v = vals[lhs].wrapping_add(vals[rhs]);
                vals.push(v);
            },
            MachInst::CmpEq { lhs, rhs } => {
                proof {
                    assert(inst_reads(inst)[0] == lhs && inst_reads(inst)[1] == rhs);
                }
                let v: u64 = if vals[lhs] == vals[rhs] {
                    1
                } else {
                    0
                };
                vals.push(v);
            },
            MachInst::CmpLt { lhs, rhs } => {
                proof {
                    assert(inst_reads(inst)[0] == lhs && inst_reads(inst)[1] == rhs);
                }
                let v: u64 = if (vals[lhs] ^ 0x8000_0000_0000_0000) < (vals[rhs]
                    ^ 0x8000_0000_0000_0000) {
                    1
                } else {
                    0
                };
                vals.push(v);
            },
            MachInst::IsZero { src } => {
                proof {
                    assert(inst_reads(inst)[0] == src);
                }
                let v: u64 = if vals[src] == 0 {
                    1
                } else {
                    0
                };
                vals.push(v);
            },
            MachInst::BoolNot { src } => {
                proof {
                    assert(inst_reads(inst)[0] == src);
                }
                let v: u64 = if vals[src] == 0 {
                    1
                } else {
                    0
                };
                vals.push(v);
            },
            MachInst::Load { addr } => {
                let v = mem.read(addr);
                vals.push(v);
            },
            MachInst::Store { src, addr } => {
                proof {
                    assert(inst_reads(inst)[0] == src);
                }
                let v = vals[src];
                mem.write(addr, v);
                vals.push(v);
            },
            MachInst::TagFix { src } => {
                proof {
                    assert(inst_reads(inst)[0] == src);
                }
                let v = tag_fixnum_word(vals[src]);
                vals.push(v);
            },
            MachInst::UntagFix { src } => {
                proof {
                    assert(inst_reads(inst)[0] == src);
                }
                let v = untag_fixnum_word(vals[src]);
                vals.push(v);
            },
            MachInst::TagBool { src } => {
                proof {
                    assert(inst_reads(inst)[0] == src);
                }
                let v = tag_bool(vals[src] != 0);
                vals.push(v);
            },
            MachInst::CallHelper0 { .. } => {
                if *oi >= oracle.len() {
                    return IterOutcome::Starved;
                }
                let v = oracle[*oi];
                *oi = *oi + 1;
                vals.push(v);
            },
            MachInst::CallHelper1 { .. } => {
                if *oi >= oracle.len() {
                    return IterOutcome::Starved;
                }
                let v = oracle[*oi];
                *oi = *oi + 1;
                vals.push(v);
            },
            MachInst::CallHelper2 { .. } => {
                if *oi >= oracle.len() {
                    return IterOutcome::Starved;
                }
                let v = oracle[*oi];
                *oi = *oi + 1;
                vals.push(v);
            },
            MachInst::CallHelper3 { .. } => {
                if *oi >= oracle.len() {
                    return IterOutcome::Starved;
                }
                let v = oracle[*oi];
                *oi = *oi + 1;
                vals.push(v);
            },
            MachInst::Guard { src, exit_when_truthy, resume_pc, resume_self } => {
                proof {
                    assert(inst_reads(inst)[0] == src);
                }
                let v = vals[src];
                if guard_trips_exec(v, exit_when_truthy) {
                    let self_val = match resume_self {
                        SelfVal::Const(c) => c,
                        SelfVal::Reg(r) => {
                            proof {
                                assert(inst_reads(inst)[1] == r);
                            }
                            vals[r]
                        },
                    };
                    return IterOutcome::Exit { pc: resume_pc, self_val: self_val };
                }
                vals.push(v);
            },
            MachInst::LoopBack => {
                vals.push(0);
                proof {
                    assert(run_iter(insts_v, j as int, vals@.drop_last(), mem@, oracle@, *oi as int)
                        == (IterRes::Cont { mem: mem@, oi: *oi as int }));
                }
            },
        }
        j = j + 1;
    }
    proof {
        assert(run_iter(insts_v, j as int, vals@, mem@, oracle@, *oi as int) == (IterRes::Cont {
            mem: mem@,
            oi: *oi as int,
        }));
    }
    IterOutcome::Cont
}

/// Run a routine against a frame memory for at most `fuel` iterations,
/// with the helper results the external runtime would supply.  The
/// outcome and the memory afterwards are exactly what `run_spec` gives:
/// the routine loops until a guard fails and then hands back that guard's
/// resumption state, with every store applied to the frame.
pub fn run(routine: &Routine, mem: &mut Mem, oracle: &Vec<u64>, fuel: u64) -> (r: RunOutcome)
    requires
        routine_wf(routine.insts@),
    ensures
        run_spec(routine.insts@, old(mem)@, oracle@, 0, fuel as nat) == (r, final(mem)@),
{
    let ghost insts_v = routine.insts@;
    let mut oi: usize = 0;
    let mut left: u64 = fuel;
    while left > 0
        invariant
            routine_wf(insts_v),
            insts_v == routine.insts@,
            oi <= oracle@.len(),
            run_spec(insts_v, old(mem)@, oracle@, 0, fuel as nat) == run_spec(
                insts_v,
                mem@,
                oracle@,
                oi as int,
                left as nat,
            ),
        decreases left,
    {
        let ghost mem_here = mem@;
        let ghost oi_here = oi as int;
        let ghost left_here = left as nat;
        match run_body(routine, mem, oracle, &mut oi) {
            IterOutcome::Cont => {
                proof {
                    assert(run_spec(insts_v, mem_here, oracle@, oi_here, left_here) == run_spec(
                        insts_v,
                        mem@,
                        oracle@,
                        oi as int,
                        (left_here - 1) as nat,
                    ));
                }
                left = left - 1;
            },
            IterOutcome::Exit { pc, self_val } => {
                proof {
                    assert(run_spec(insts_v, mem_here, oracle@, oi_here, left_here) == (
                    RunOutcome::SideExit { pc: pc, self_val: self_val },
                    mem@,
                    ));
                }
                return RunOutcome::SideExit { pc: pc, self_val: self_val };
            },
            IterOutcome::Starved => {
                proof {
                    assert(run_spec(insts_v, mem_here, oracle@, oi_here, left_here) == (
                    RunOutcome::Starved,
                    mem@,
                    ));
                }
                return RunOutcome::Starved;
            },
        }
    }
    RunOutcome::Running
}

} // verus!
