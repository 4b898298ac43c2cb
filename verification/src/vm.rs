//! The virtual machine for the uniform ("RISC") instruction set: a register
//! file of nineteen untyped 64-bit slots, a flat byte-addressable memory,
//! and an output sink of printed lines.
//!
//! Control transfer is an explicit work loop, not a nested continuation:
//! each iteration executes one instruction of the current block, and a jump
//! replaces the current block by the target looked up by name, so loop depth
//! in the interpreted program costs no host stack.  The loop runs under an
//! explicit step budget; exhausting it is reported as its own fault kind.
//!
//! The machine's whole behavior is pinned by a small-step specification:
//! `spec_step` gives the effect of one instruction on the machine state, and
//! `run_n` iterates it over blocks; `interpret` promises that its outcome is
//! the first terminal state of that iteration within the budget.

use vstd::prelude::*;

use vstd::bytes::{
    lemma_auto_spec_u64_to_from_le_bytes, spec_u64_from_le_bytes, spec_u64_to_le_bytes,
    u64_from_le_bytes, u64_to_le_bytes,
};

use crate::fpu::{
    fadd, fadd_bits, fdiv, fdiv_bits, feq, feq_bits, fgt, fgt_bits, flt, flt_bits, fmul, fmul_bits,
    frem, frem_bits, fsub, fsub_bits, float_text, float_text_of,
};
use crate::inst::{Block, Imm, Inst, Label, Register, FALSE_BITS, TRUE_BITS};
use crate::text::{dec_i64, dec_u64, spec_dec_i64, spec_dec_u64, sval};

verus! {

/// Each machine owns a fixed-size private memory of this many bytes.
pub const MEMORY_SIZE: usize = 128_000;

/// A register value tests as true exactly when it is nonzero; the canonical
/// patterns written by comparisons and boolean literals are 1 and 0.
pub open spec fn truthy(v: u64) -> bool {
    v != 0
}

/// The canonical boolean bit pattern for a comparison result.
pub open spec fn bool_bits(b: bool) -> u64 {
    if b {
        TRUE_BITS
    } else {
        FALSE_BITS
    }
}

/// Truncating (round toward zero) integer division, as two's-complement
/// hardware performs it.
pub open spec fn tdiv(x: int, d: int) -> int
    recommends
        d != 0,
{
    if x >= 0 && d > 0 {
        x / d
    } else if x < 0 && d < 0 {
        (-x) / (-d)
    } else if x < 0 {
        -((-x) / d)
    } else {
        -(x / (-d))
    }
}

/// Truncating remainder: the sign follows the dividend.
pub open spec fn trem(x: int, d: int) -> int
    recommends
        d != 0,
{
    if x >= 0 && d > 0 {
        x % d
    } else if x < 0 && d < 0 {
        -((-x) % (-d))
    } else if x < 0 {
        -((-x) % d)
    } else {
        x % (-d)
    }
}

/// The 64-bit two's-complement pattern of a value in (-2^64, 2^64).
pub open spec fn ibits(v: int) -> u64
    recommends
        -0x1_0000_0000_0000_0000 < v < 0x1_0000_0000_0000_0000,
{
    if v >= 0 {
        v as u64
    } else {
        (v + 0x1_0000_0000_0000_0000) as u64
    }
}

/// Wrapping addition of 64-bit patterns; signed and unsigned addition agree
/// on the result bits.
pub open spec fn add_bits(a: u64, b: u64) -> u64 {
    vstd::wrapping::u64_specs::wrapping_add(a, b)
}

/// Wrapping subtraction of 64-bit patterns.
pub open spec fn sub_bits(a: u64, b: u64) -> u64 {
    vstd::wrapping::u64_specs::wrapping_sub(a, b)
}

/// The two's-complement negation of a 64-bit pattern.
pub open spec fn neg_bits(b: u64) -> u64 {
    vstd::wrapping::u64_specs::wrapping_sub(0u64, b)
}

/// Wrapping multiplication of 64-bit patterns; signed and unsigned
/// multiplication agree on the low 64 result bits.
pub open spec fn mul_bits(a: u64, b: u64) -> u64 {
    vstd::wrapping::u64_specs::wrapping_mul(a, b)
}

/// Signed division of the patterns' two's-complement readings, truncating,
/// with the lone overflow case (most negative value divided by minus one)
/// wrapping back to the most negative value.
pub open spec fn sdiv_bits(a: u64, b: u64) -> u64
    recommends
        b != 0,
{
    ibits(tdiv(sval(a), sval(b)))
}

/// Signed remainder of the patterns' two's-complement readings.
pub open spec fn srem_bits(a: u64, b: u64) -> u64
    recommends
        b != 0,
{
    ibits(trem(sval(a), sval(b)))
}

/// Unsigned division.
pub open spec fn udiv_bits(a: u64, b: u64) -> u64
    recommends
        b != 0,
{
    (a as int / b as int) as u64
}

/// Unsigned remainder.
pub open spec fn urem_bits(a: u64, b: u64) -> u64
    recommends
        b != 0,
{
    (a as int % b as int) as u64
}

/// Left shift; the shift amount is taken modulo 64, as hardware does.
pub open spec fn shl_bits(a: u64, b: u64) -> u64 {
    a << (b & 63)
}

/// Logical right shift; the shift amount is taken modulo 64.
pub open spec fn shr_bits(a: u64, b: u64) -> u64 {
    a >> (b & 63)
}

/// The 8 bytes at offset `off` of `mem`, read as a little-endian 64-bit
/// value.
pub open spec fn spec_load8(mem: Seq<u8>, off: int) -> u64 {
    spec_u64_from_le_bytes(mem.subrange(off, off + 8))
}

/// `mem` with the 8 bytes at offset `off` replaced by the little-endian
/// bytes of `v`.
pub open spec fn spec_store8(mem: Seq<u8>, off: int, v: u64) -> Seq<u8> {
    mem.take(off) + spec_u64_to_le_bytes(v) + mem.skip(off + 8)
}

/// Storing a value and loading back from the same offset returns it
/// exactly, for any offset with all 8 bytes in bounds.
pub proof fn lemma_store_load_round_trip(mem: Seq<u8>, off: int, v: u64)
    requires
        0 <= off,
        off + 8 <= mem.len(),
    ensures
        spec_load8(spec_store8(mem, off, v), off) == v,
{
    lemma_auto_spec_u64_to_from_le_bytes();
    assert(spec_store8(mem, off, v).subrange(off, off + 8) =~= spec_u64_to_le_bytes(v));
}

/// Addition of register patterns is commutative, in the signed and the
/// unsigned reading alike.
pub proof fn lemma_add_commutes(a: u64, b: u64)
    ensures
        add_bits(a, b) == add_bits(b, a),
{
}

/// Subtraction is addition of the two's-complement negation.
pub proof fn lemma_sub_is_add_negate(a: u64, b: u64)
    ensures
        sub_bits(a, b) == add_bits(a, neg_bits(b)),
{
}

// ---------------------------------------------------------------------------
// Signed executable arithmetic, verified against the bit-level specs.
// ---------------------------------------------------------------------------
const SIGN_BIT: u64 = 0x8000_0000_0000_0000;

fn magnitude(a: u64) -> (m: u64)
    ensures
        a >= SIGN_BIT ==> m as int == -sval(a),
        a < SIGN_BIT ==> m as int == sval(a),
{
    if a >= SIGN_BIT {
        0u64.wrapping_sub(a)
    } else {
        a
    }
}

fn sdiv(a: u64, b: u64) -> (r: u64)
    requires
        b != 0,
    ensures
        r == sdiv_bits(a, b),
{
    let na = a >= SIGN_BIT;
    let nb = b >= SIGN_BIT;
    let ma = magnitude(a);
    let mb = magnitude(b);
    let q = ma / mb;
    if na != nb {
        let r = 0u64.wrapping_sub(q);
        proof {
            assert(tdiv(sval(a), sval(b)) == -(ma as int / mb as int));
            assert(r == ibits(-(q as int)));
        }
        r
    } else {
        proof {
            assert(tdiv(sval(a), sval(b)) == ma as int / mb as int);
        }
        q
    }
}

fn srem(a: u64, b: u64) -> (r: u64)
    requires
        b != 0,
    ensures
        r == srem_bits(a, b),
{
    let na = a >= SIGN_BIT;
    let nb = b >= SIGN_BIT;
    let ma = magnitude(a);
    let mb = magnitude(b);
    let m = ma % mb;
    if na {
        let r = 0u64.wrapping_sub(m);
        proof {
            assert(trem(sval(a), sval(b)) == -(ma as int % mb as int));
            assert(r == ibits(-(m as int)));
        }
        r
    } else {
        proof {
            assert(trem(sval(a), sval(b)) == ma as int % mb as int);
        }
        m
    }
}

fn slt(a: u64, b: u64) -> (r: bool)
    ensures
        r == (sval(a) < sval(b)),
{
    let na = a >= SIGN_BIT;
    let nb = b >= SIGN_BIT;
    if na == nb {
        a < b
    } else {
        na
    }
}

fn shl(a: u64, b: u64) -> (r: u64)
    ensures
        r == shl_bits(a, b),
{
    let sh = b & 63;
    proof {
        assert((b & 63) < 64u64) by (bit_vector);
    }
    a << sh
}

fn shr(a: u64, b: u64) -> (r: u64)
    ensures
        r == shr_bits(a, b),
{
    let sh = b & 63;
    proof {
        assert((b & 63) < 64u64) by (bit_vector);
    }
    a >> sh
}

// ---------------------------------------------------------------------------
// The register file.
// ---------------------------------------------------------------------------
/// The fixed file of nineteen untyped 64-bit slots, indexed by register ID.
#[derive(Debug, Clone)]
pub struct Registers {
    slots: Vec<u64>,
}

impl View for Registers {
    type V = Seq<u64>;

    closed spec fn view(&self) -> Seq<u64> {
        self.slots@
    }
}

impl Registers {
    pub open spec fn wf(&self) -> bool {
        self@.len() == 19
    }

    /// A fresh register file, every slot zero.
    pub fn new() -> (r: Registers)
        ensures
            r.wf(),
            forall|i: int| 0 <= i < 19 ==> r@[i] == 0u64,
    {
        let mut slots: Vec<u64> = Vec::new();
        let mut i: usize = 0;
        while i < 19
            invariant
                i <= 19,
                slots@.len() == i,
                forall|j: int| 0 <= j < i ==> slots@[j] == 0u64,
            decreases 19 - i,
        {
            slots.push(0);
            i = i + 1;
        }
        Registers { slots }
    }

    /// The current 64-bit pattern of the named register.
    pub fn get(&self, reg_id: &Register) -> (v: u64)
        requires
            self.wf(),
        ensures
            v == self@[reg_id.spec_id()],
    {
        self.slots[reg_id.get_id() as usize]
    }

    /// Overwrites the named register with a new 64-bit pattern.
    pub fn set(&mut self, reg_id: &Register, new_value: u64)
        requires
            old(self).wf(),
        ensures
            final(self).wf(),
            final(self)@ == old(self)@.update(reg_id.spec_id(), new_value),
    {
        let id = reg_id.get_id() as usize;
        self.slots.set(id, new_value);
    }
}

// ---------------------------------------------------------------------------
// The machine state model and the small-step specification.
// ---------------------------------------------------------------------------
/// The mathematical state of a machine: register file, memory bytes, and
/// the lines printed so far.
pub ghost struct MState {
    pub regs: Seq<u64>,
    pub mem: Seq<u8>,
    pub out: Seq<Seq<char>>,
}

impl MState {
    /// The pattern held by register `r`.
    pub open spec fn rd(self, r: Register) -> u64 {
        self.regs[r.spec_id()]
    }

    /// This state with register `r` overwritten by `v`.
    pub open spec fn wr(self, r: Register, v: u64) -> MState {
        MState { regs: self.regs.update(r.spec_id(), v), ..self }
    }

    /// This state with one more printed line.
    pub open spec fn emit(self, line: Seq<char>) -> MState {
        MState { out: self.out.push(line), ..self }
    }
}

/// Where execution goes after one instruction: fall through, or transfer to
/// the named block.
#[derive(Debug, Clone)]
pub enum Flow {
    Next,
    Goto(Label),
}

/// The spec-level image of a `Flow`.
pub ghost enum FlowV {
    Next,
    Goto { target: Seq<char> },
}

impl View for Flow {
    type V = FlowV;

    open spec fn view(&self) -> FlowV {
        match self {
            Flow::Next => FlowV::Next,
            Flow::Goto(l) => FlowV::Goto { target: l.0@ },
        }
    }
}

/// The machine-fault taxonomy: every kind halts the run immediately.
#[derive(Debug, Clone)]
pub enum FaultKind {
    /// Integer division with a zero divisor.
    DivisionByZero,
    /// Integer remainder with a zero divisor.
    RemainderByZero,
    /// A load or store whose 8 bytes do not all lie inside memory.
    OutOfBounds { offset: u64 },
    /// A control transfer to a label that names no block.
    UndefinedLabel { label: String },
    /// The interpretation step budget ran out before the program halted.
    StepLimit,
}

/// The spec-level image of a `FaultKind`.
pub ghost enum FaultV {
    DivisionByZero,
    RemainderByZero,
    OutOfBounds { offset: u64 },
    UndefinedLabel { label: Seq<char> },
    StepLimit,
}

impl View for FaultKind {
    type V = FaultV;

    open spec fn view(&self) -> FaultV {
        match self {
            FaultKind::DivisionByZero => FaultV::DivisionByZero,
            FaultKind::RemainderByZero => FaultV::RemainderByZero,
            FaultKind::OutOfBounds { offset } => FaultV::OutOfBounds { offset: *offset },
            FaultKind::UndefinedLabel { label } => FaultV::UndefinedLabel { label: label@ },
            FaultKind::StepLimit => FaultV::StepLimit,
        }
    }
}

/// A fault report: the kind, and the label of the block being executed.
#[derive(Debug, Clone)]
pub struct Fault {
    pub kind: FaultKind,
    pub block: String,
}

/// The outcome of one instruction: a new state and a flow, or a fault.
pub ghost enum StepV {
    Step { post: MState, flow: FlowV },
    Fault { kind: FaultV },
}

pub open spec fn step_wr(s: MState, d: Register, v: u64) -> StepV {
    StepV::Step { post: s.wr(d, v), flow: FlowV::Next }
}

pub open spec fn step_emit(s: MState, line: Seq<char>) -> StepV {
    StepV::Step { post: s.emit(line), flow: FlowV::Next }
}

/// Whether an instruction is a bitwise, arithmetic or comparison operation
/// (as opposed to observation, data movement or control transfer).
/// Whether an instruction is an addition, subtraction or multiplication.
pub open spec fn is_arith_inst(inst: Inst) -> bool {
    match inst {
        Inst::SAdd(_, _, _) => true,
        Inst::UAdd(_, _, _) => true,
        Inst::FAdd(_, _, _) => true,
        Inst::Sub(_, _, _) => true,
        Inst::FSub(_, _, _) => true,
        Inst::SMul(_, _, _) => true,
        Inst::UMul(_, _, _) => true,
        Inst::FMul(_, _, _) => true,
        _ => false,
    }
}

/// Whether an instruction is a division, remainder or comparison.
pub open spec fn is_divcmp_inst(inst: Inst) -> bool {
    match inst {
        Inst::SDiv(_, _, _) => true,
        Inst::UDiv(_, _, _) => true,
        Inst::FDiv(_, _, _) => true,
        Inst::SRem(_, _, _) => true,
        Inst::URem(_, _, _) => true,
        Inst::FRem(_, _, _) => true,
        Inst::Eq(_, _, _) => true,
        Inst::FEq(_, _, _) => true,
        Inst::SLt(_, _, _) => true,
        Inst::ULt(_, _, _) => true,
        Inst::FLt(_, _, _) => true,
        Inst::SGt(_, _, _) => true,
        Inst::UGt(_, _, _) => true,
        Inst::FGt(_, _, _) => true,
        _ => false,
    }
}

/// Whether an instruction is a bitwise, arithmetic or comparison operation
/// (as opposed to observation, data movement or control transfer).
pub open spec fn is_op_inst(inst: Inst) -> bool {
    match inst {
        Inst::Dbg(_) => false,
        Inst::PrintInt(_) => false,
        Inst::PrintUInt(_) => false,
        Inst::PrintFloat(_) => false,
        Inst::Rega(_, _) => false,
        Inst::Copy(_, _) => false,
        Inst::Load(_, _) => false,
        Inst::Store(_, _) => false,
        Inst::Jump(_) => false,
        Inst::CJump(_, _) => false,
        Inst::Branch(_, _, _) => false,
        _ => true,
    }
}

/// The effect of one instruction on a machine state: both machines obey
/// this relation instruction for instruction.
pub open spec fn spec_step(inst: Inst, s: MState) -> StepV {
    match inst {
        Inst::Dbg(r) => step_emit(s, spec_dec_u64(s.rd(r) as nat)),
        Inst::PrintInt(r) => step_emit(s, spec_dec_i64(sval(s.rd(r)))),
        Inst::PrintUInt(r) => step_emit(s, spec_dec_u64(s.rd(r) as nat)),
        Inst::PrintFloat(r) => step_emit(s, float_text_of(s.rd(r))),
        Inst::Rega(d, imm) => step_wr(s, d, imm.spec_bits()),
        Inst::Copy(d, src) => step_wr(s, d, s.rd(src)),
        Inst::Load(d, adr) => (if s.rd(adr) + 8 <= s.mem.len() {
            step_wr(s, d, spec_load8(s.mem, s.rd(adr) as int))
        } else {
            StepV::Fault { kind: FaultV::OutOfBounds { offset: s.rd(adr) } }
        }),
        Inst::Store(adr, src) => (if s.rd(adr) + 8 <= s.mem.len() {
            StepV::Step {
                post: MState { mem: spec_store8(s.mem, s.rd(adr) as int, s.rd(src)), ..s },
                flow: FlowV::Next,
            }
        } else {
            StepV::Fault { kind: FaultV::OutOfBounds { offset: s.rd(adr) } }
        }),
        Inst::Jump(l) => StepV::Step { post: s, flow: FlowV::Goto { target: l.0@ } },
        Inst::CJump(c, l) => StepV::Step {
            post: s,
            flow: if truthy(s.rd(c)) {
                FlowV::Goto { target: l.0@ }
            } else {
                FlowV::Next
            },
        },
        Inst::Branch(c, t, f) => StepV::Step {
            post: s,
            flow: FlowV::Goto {
                target: if truthy(s.rd(c)) {
                    t.0@
                } else {
                    f.0@
                },
            },
        },
        Inst::Shl(d, l, r) => step_wr(s, d, shl_bits(s.rd(l), s.rd(r))),
        Inst::Shr(d, l, r) => step_wr(s, d, shr_bits(s.rd(l), s.rd(r))),
        Inst::And(d, l, r) => step_wr(s, d, s.rd(l) & s.rd(r)),
        Inst::Or(d, l, r) => step_wr(s, d, s.rd(l) | s.rd(r)),
        Inst::Xor(d, l, r) => step_wr(s, d, s.rd(l) ^ s.rd(r)),
        Inst::Not(d, src) => step_wr(s, d, !s.rd(src)),
        Inst::SAdd(d, l, r) => step_wr(s, d, add_bits(s.rd(l), s.rd(r))),
        Inst::UAdd(d, l, r) => step_wr(s, d, add_bits(s.rd(l), s.rd(r))),
        Inst::FAdd(d, l, r) => step_wr(s, d, fadd_bits(s.rd(l), s.rd(r))),
        Inst::Sub(d, l, r) => step_wr(s, d, sub_bits(s.rd(l), s.rd(r))),
        Inst::FSub(d, l, r) => step_wr(s, d, fsub_bits(s.rd(l), s.rd(r))),
        Inst::SMul(d, l, r) => step_wr(s, d, mul_bits(s.rd(l), s.rd(r))),
        Inst::UMul(d, l, r) => step_wr(s, d, mul_bits(s.rd(l), s.rd(r))),
        Inst::FMul(d, l, r) => step_wr(s, d, fmul_bits(s.rd(l), s.rd(r))),
        Inst::SDiv(d, l, r) => (if s.rd(r) == 0 {
            StepV::Fault { kind: FaultV::DivisionByZero }
        } else {
            step_wr(s, d, sdiv_bits(s.rd(l), s.rd(r)))
        }),
        Inst::UDiv(d, l, r) => (if s.rd(r) == 0 {
            StepV::Fault { kind: FaultV::DivisionByZero }
        } else {
            step_wr(s, d, udiv_bits(s.rd(l), s.rd(r)))
        }),
        Inst::FDiv(d, l, r) => step_wr(s, d, fdiv_bits(s.rd(l), s.rd(r))),
        Inst::SRem(d, l, r) => (if s.rd(r) == 0 {
            StepV::Fault { kind: FaultV::RemainderByZero }
        } else {
            step_wr(s, d, srem_bits(s.rd(l), s.rd(r)))
        }),
        Inst::URem(d, l, r) => (if s.rd(r) == 0 {
            StepV::Fault { kind: FaultV::RemainderByZero }
        } else {
            step_wr(s, d, urem_bits(s.rd(l), s.rd(r)))
        }),
        Inst::FRem(d, l, r) => step_wr(s, d, frem_bits(s.rd(l), s.rd(r))),
        Inst::Eq(d, l, r) => step_wr(s, d, bool_bits(s.rd(l) == s.rd(r))),
        Inst::FEq(d, l, r) => step_wr(s, d, bool_bits(feq_bits(s.rd(l), s.rd(r)))),
        Inst::SLt(d, l, r) => step_wr(s, d, bool_bits(sval(s.rd(l)) < sval(s.rd(r)))),
        Inst::ULt(d, l, r) => step_wr(s, d, bool_bits(s.rd(l) < s.rd(r))),
        Inst::FLt(d, l, r) => step_wr(s, d, bool_bits(flt_bits(s.rd(l), s.rd(r)))),
        Inst::SGt(d, l, r) => step_wr(s, d, bool_bits(sval(s.rd(l)) > sval(s.rd(r)))),
        Inst::UGt(d, l, r) => step_wr(s, d, bool_bits(s.rd(l) > s.rd(r))),
        Inst::FGt(d, l, r) => step_wr(s, d, bool_bits(fgt_bits(s.rd(l), s.rd(r)))),
    }
}

/// Integer division and remainder by zero fault the machine; float division
/// by zero never faults, its result being whatever IEEE-754 prescribes.
pub proof fn lemma_div_by_zero_faults(s: MState, d: Register, l: Register, r: Register)
    requires
        s.rd(r) == 0,
    ensures
        spec_step(Inst::SDiv(d, l, r), s) == (StepV::Fault { kind: FaultV::DivisionByZero }),
        spec_step(Inst::UDiv(d, l, r), s) == (StepV::Fault { kind: FaultV::DivisionByZero }),
        spec_step(Inst::SRem(d, l, r), s) == (StepV::Fault { kind: FaultV::RemainderByZero }),
        spec_step(Inst::URem(d, l, r), s) == (StepV::Fault { kind: FaultV::RemainderByZero }),
        spec_step(Inst::FDiv(d, l, r), s) == step_wr(s, d, fdiv_bits(s.rd(l), s.rd(r))),
{
}

/// A two-way branch transfers to exactly one of its targets and never falls
/// through; a conditional jump falls through exactly when its condition
/// tests false.
pub proof fn lemma_branch_transfers(s: MState, c: Register, t: Label, f: Label)
    ensures
        spec_step(Inst::Branch(c, t, f), s) == (StepV::Step {
            post: s,
            flow: FlowV::Goto {
                target: if truthy(s.rd(c)) {
                    t.0@
                } else {
                    f.0@
                },
            },
        }),
        truthy(s.rd(c)) ==> spec_step(Inst::CJump(c, t), s) == (StepV::Step {
            post: s,
            flow: FlowV::Goto { target: t.0@ },
        }),
        !truthy(s.rd(c)) ==> spec_step(Inst::CJump(c, t), s) == (StepV::Step {
            post: s,
            flow: FlowV::Next,
        }),
{
}

// ---------------------------------------------------------------------------
// Whole-run specification.
// ---------------------------------------------------------------------------
/// The first block at or after index `from` whose label is `name`.
pub open spec fn spec_find_block(blocks: Seq<Block>, name: Seq<char>, from: int) -> Option<int>
    recommends
        0 <= from,
    decreases blocks.len() - from,
{
    if from < 0 || from >= blocks.len() {
        None
    } else if blocks[from].label@ == name {
        Some(from)
    } else {
        spec_find_block(blocks, name, from + 1)
    }
}

/// A machine mid-run: which block and which instruction within it, or a
/// terminal condition.
pub ghost enum Ctrl {
    Run { b: int, i: int },
    Halted,
    Faulted { kind: FaultV, block: Seq<char> },
}

/// A full execution state: machine state plus control position.
pub ghost struct ExecState {
    pub m: MState,
    pub ctrl: Ctrl,
}

pub open spec fn is_terminal(s: ExecState) -> bool {
    !(s.ctrl is Run)
}

/// One small step of the work loop: execute the current instruction, halt
/// when the current block is exhausted, fault on an unresolvable label.
/// Terminal states are fixed points.
pub open spec fn run_step(blocks: Seq<Block>, s: ExecState) -> ExecState {
    match s.ctrl {
        Ctrl::Run { b, i } => {
            if b < 0 || b >= blocks.len() {
                s
            } else {
                let blk = blocks[b];
                if i < 0 || i >= blk.insts@.len() {
                    ExecState { m: s.m, ctrl: Ctrl::Halted }
                } else {
                    match spec_step(blk.insts@[i], s.m) {
                        StepV::Step { post, flow } => match flow {
                            FlowV::Next => ExecState { m: post, ctrl: Ctrl::Run { b, i: i + 1 } },
                            FlowV::Goto { target } => match spec_find_block(blocks, target, 0) {
                                Some(nb) => ExecState { m: post, ctrl: Ctrl::Run { b: nb, i: 0 } },
                                None => ExecState {
                                    m: post,
                                    ctrl: Ctrl::Faulted {
                                        kind: FaultV::UndefinedLabel { label: target },
                                        block: blk.label@,
                                    },
                                },
                            },
                        },
                        StepV::Fault { kind } => ExecState {
                            m: s.m,
                            ctrl: Ctrl::Faulted { kind, block: blk.label@ },
                        },
                    }
                }
            }
        },
        _ => s,
    }
}

/// Running past the end of the current block halts the machine.
proof fn lemma_run_step_halt(blocks: Seq<Block>, m: MState, b: int, i: int)
    requires
        0 <= b,
        b < blocks.len(),
        i >= blocks[b].insts@.len(),
        i >= 0,
    ensures
        run_step(blocks, ExecState { m, ctrl: Ctrl::Run { b, i } }) == (ExecState {
            m,
            ctrl: Ctrl::Halted,
        }),
{
}

/// How one work-loop step relates to the instruction-level step relation,
/// spelled out per flow outcome.
proof fn lemma_run_step_exec(blocks: Seq<Block>, m: MState, b: int, i: int)
    requires
        0 <= b,
        b < blocks.len(),
        0 <= i,
        i < blocks[b].insts@.len(),
    ensures
        (spec_step(blocks[b].insts@[i], m) matches StepV::Step { post, flow } ==> {
            &&& (flow is Next ==> run_step(blocks, ExecState { m, ctrl: Ctrl::Run { b, i } })
                == (ExecState { m: post, ctrl: Ctrl::Run { b, i: i + 1 } }))
            &&& (flow matches FlowV::Goto { target } ==> (match spec_find_block(
                blocks,
                target,
                0,
            ) {
                Some(nb) => run_step(blocks, ExecState { m, ctrl: Ctrl::Run { b, i } })
                    == (ExecState { m: post, ctrl: Ctrl::Run { b: nb, i: 0 } }),
                None => run_step(blocks, ExecState { m, ctrl: Ctrl::Run { b, i } }) == (ExecState {
                    m: post,
                    ctrl: Ctrl::Faulted {
                        kind: FaultV::UndefinedLabel { label: target },
                        block: blocks[b].label@,
                    },
                }),
            }))
        }),
        (spec_step(blocks[b].insts@[i], m) matches StepV::Fault { kind } ==> run_step(
            blocks,
            ExecState { m, ctrl: Ctrl::Run { b, i } },
        ) == (ExecState { m, ctrl: Ctrl::Faulted { kind, block: blocks[b].label@ } })),
{
}

/// `n` small steps from `s`.
pub open spec fn run_n(blocks: Seq<Block>, s: ExecState, n: nat) -> ExecState
    decreases n,
{
    if n == 0 {
        s
    } else {
        run_step(blocks, run_n(blocks, s, (n - 1) as nat))
    }
}

/// Once terminal, a run stays in the same state forever: the terminal state
/// reached by a run, and so the machine's published outcome, is unique.
pub proof fn lemma_terminal_stable(blocks: Seq<Block>, s: ExecState, n: nat, m: nat)
    requires
        n <= m,
        is_terminal(run_n(blocks, s, n)),
    ensures
        run_n(blocks, s, m) == run_n(blocks, s, n),
    decreases m,
{
    if m > n {
        lemma_terminal_stable(blocks, s, n, (m - 1) as nat);
    }
}

/// How a terminal control state shows up in `interpret`'s result.
pub open spec fn outcome_matches(ctrl: Ctrl, r: Result<(), Fault>) -> bool {
    match ctrl {
        Ctrl::Run { .. } => false,
        Ctrl::Halted => r == Result::<(), Fault>::Ok(()),
        Ctrl::Faulted { kind, block } => r matches Err(f) && f.kind@ == kind && f.block@ == block,
    }
}

// ---------------------------------------------------------------------------
// The machine itself.
// ---------------------------------------------------------------------------
/// A virtual machine: register file, private memory, and the output sink of
/// printed lines.  The host inspects registers, memory and output after a
/// run completes or faults.
#[derive(Debug)]
pub struct VM {
    pub registers: Registers,
    pub memory: Vec<u8>,
    pub output: Vec<String>,
}

impl View for VM {
    type V = MState;

    open spec fn view(&self) -> MState {
        MState { regs: self.registers@, mem: self.memory@, out: self.output.deep_view() }
    }
}

impl VM {
    pub open spec fn wf(&self) -> bool {
        &&& self.registers.wf()
        &&& self.memory@.len() == MEMORY_SIZE
    }

    /// A fresh machine: all registers zero, all memory bytes zero, no
    /// output.
    pub fn new() -> (vm: VM)
        ensures
            vm.wf(),
            forall|i: int| 0 <= i < 19 ==> vm@.regs[i] == 0u64,
            forall|i: int| 0 <= i < MEMORY_SIZE ==> vm@.mem[i] == 0u8,
            vm@.out =~= Seq::<Seq<char>>::empty(),
    {
        let registers = Registers::new();
        let mut memory: Vec<u8> = Vec::new();
        let mut i: usize = 0;
        while i < MEMORY_SIZE
            invariant
                i <= MEMORY_SIZE,
                memory@.len() == i,
                forall|j: int| 0 <= j < i ==> memory@[j] == 0u8,
            decreases MEMORY_SIZE - i,
        {
            memory.push(0);
            i = i + 1;
        }
        let vm = VM { registers, memory, output: Vec::new() };
        proof {
            assert(vm@.out =~= Seq::<Seq<char>>::empty());
        }
        vm
    }

    fn emit_line(&mut self, line: String)
        ensures
            final(self)@ == old(self)@.emit(line@),
    {
        self.output.push(line);
        proof {
            assert(self.output.deep_view() =~= old(self).output.deep_view().push(line@));
        }
    }

    /// Executes one instruction: either the machine state moves as
    /// `spec_step` says and the flow is returned, or the step's fault is
    /// returned and the machine state is unchanged.
    #[verifier::spinoff_prover]
    fn do_load(&mut self, d: &Register, adr: &Register) -> (res: Result<Flow, FaultKind>)
        requires
            old(self).wf(),
        ensures
            final(self).wf(),
            (spec_step(Inst::Load(*d, *adr), old(self)@) matches StepV::Step { post, flow }
                ==> res matches Ok(fl) && fl@ == flow && final(self)@ == post),
            (spec_step(Inst::Load(*d, *adr), old(self)@) matches StepV::Fault { kind }
                ==> res matches Err(k) && k@ == kind && final(self)@ == old(self)@),
    {
        let off = self.registers.get(adr);
        if off > (MEMORY_SIZE - 8) as u64 {
            Err(FaultKind::OutOfBounds { offset: off })
        } else {
            let o = off as usize;
            let mut bytes: Vec<u8> = Vec::new();
            bytes.push(self.memory[o]);
            bytes.push(self.memory[o + 1]);
            bytes.push(self.memory[o + 2]);
            bytes.push(self.memory[o + 3]);
            bytes.push(self.memory[o + 4]);
            bytes.push(self.memory[o + 5]);
            bytes.push(self.memory[o + 6]);
            bytes.push(self.memory[o + 7]);
            proof {
                assert(bytes@ =~= self.memory@.subrange(off as int, off as int + 8));
            }
            let v = u64_from_le_bytes(bytes.as_slice());
            self.registers.set(d, v);
            Ok(Flow::Next)
        }
    }

    #[verifier::spinoff_prover]
    fn do_store(&mut self, adr: &Register, src: &Register) -> (res: Result<Flow, FaultKind>)
        requires
            old(self).wf(),
        ensures
            final(self).wf(),
            (spec_step(Inst::Store(*adr, *src), old(self)@) matches StepV::Step { post, flow }
                ==> res matches Ok(fl) && fl@ == flow && final(self)@ == post),
            (spec_step(Inst::Store(*adr, *src), old(self)@) matches StepV::Fault { kind }
                ==> res matches Err(k) && k@ == kind && final(self)@ == old(self)@),
    {
        let off = self.registers.get(adr);
        if off > (MEMORY_SIZE - 8) as u64 {
            Err(FaultKind::OutOfBounds { offset: off })
        } else {
            let v = self.registers.get(src);
            let o = off as usize;
            let bytes = u64_to_le_bytes(v);
            self.memory.set(o, bytes[0]);
            self.memory.set(o + 1, bytes[1]);
            self.memory.set(o + 2, bytes[2]);
            self.memory.set(o + 3, bytes[3]);
            self.memory.set(o + 4, bytes[4]);
            self.memory.set(o + 5, bytes[5]);
            self.memory.set(o + 6, bytes[6]);
            self.memory.set(o + 7, bytes[7]);
            proof {
                assert(self.memory@ =~= spec_store8(old(self)@.mem, off as int, v));
            }
            Ok(Flow::Next)
        }
    }

    /// Executes one instruction: either the machine state moves as
    /// `spec_step` says and the flow is returned, or the step's fault is
    /// returned and the machine state is unchanged.
    pub fn interpret_inst(&mut self, inst: &Inst) -> (res: Result<Flow, FaultKind>)
        requires
            old(self).wf(),
        ensures
            final(self).wf(),
            (spec_step(*inst, old(self)@) matches StepV::Step { post, flow } ==> res matches Ok(fl)
                && fl@ == flow && final(self)@ == post),
            (spec_step(*inst, old(self)@) matches StepV::Fault { kind } ==> res matches Err(k)
                && k@ == kind && final(self)@ == old(self)@),
    {
        match inst {
            Inst::Dbg(_) | Inst::PrintInt(_) | Inst::PrintUInt(_) | Inst::PrintFloat(_)
            | Inst::Rega(_, _) | Inst::Copy(_, _) | Inst::Load(_, _) | Inst::Store(_, _)
            | Inst::Jump(_) | Inst::CJump(_, _) | Inst::Branch(_, _, _) => self.exec_move_inst(
                inst,
            ),
            _ => self.exec_op_inst(inst),
        }
    }

    #[verifier::rlimit(100)]
    #[verifier::spinoff_prover]
    fn exec_move_inst(&mut self, inst: &Inst) -> (res: Result<Flow, FaultKind>)
        requires
            old(self).wf(),
            !is_op_inst(*inst),
        ensures
            final(self).wf(),
            (spec_step(*inst, old(self)@) matches StepV::Step { post, flow } ==> res matches Ok(fl)
                && fl@ == flow && final(self)@ == post),
            (spec_step(*inst, old(self)@) matches StepV::Fault { kind } ==> res matches Err(k)
                && k@ == kind && final(self)@ == old(self)@),
    {
        match inst {
            Inst::Dbg(r) => {
                let line = dec_u64(self.registers.get(r));
                self.emit_line(line);
                Ok(Flow::Next)
            },
            Inst::PrintInt(r) => {
                let line = dec_i64(self.registers.get(r));
                self.emit_line(line);
                Ok(Flow::Next)
            },
            Inst::PrintUInt(r) => {
                let line = dec_u64(self.registers.get(r));
                self.emit_line(line);
                Ok(Flow::Next)
            },
            Inst::PrintFloat(r) => {
                let line = float_text(self.registers.get(r));
                self.emit_line(line);
                Ok(Flow::Next)
            },
            Inst::Rega(d, imm) => {
                self.registers.set(d, imm.as_u64());
                Ok(Flow::Next)
            },
            Inst::Copy(d, src) => {
                let v = self.registers.get(src);
                self.registers.set(d, v);
                Ok(Flow::Next)
            },
            Inst::Load(d, adr) => self.do_load(d, adr),
            Inst::Store(adr, src) => self.do_store(adr, src),
            Inst::Jump(l) => Ok(Flow::Goto(Label(l.0.clone()))),
            Inst::CJump(c, l) => {
                if self.registers.get(c) != 0 {
                    Ok(Flow::Goto(Label(l.0.clone())))
                } else {
                    Ok(Flow::Next)
                }
            },
            Inst::Branch(c, t, f) => {
                if self.registers.get(c) != 0 {
                    Ok(Flow::Goto(Label(t.0.clone())))
                } else {
                    Ok(Flow::Goto(Label(f.0.clone())))
                }
            },
            _ => {
                proof {
                    assert(false);
                }
                Err(FaultKind::StepLimit)
            },
        }
    }

    #[verifier::rlimit(100)]
    #[verifier::spinoff_prover]
    fn exec_op_inst(&mut self, inst: &Inst) -> (res: Result<Flow, FaultKind>)
        requires
            old(self).wf(),
            is_op_inst(*inst),
        ensures
            final(self).wf(),
            (spec_step(*inst, old(self)@) matches StepV::Step { post, flow } ==> res matches Ok(fl)
                && fl@ == flow && final(self)@ == post),
            (spec_step(*inst, old(self)@) matches StepV::Fault { kind } ==> res matches Err(k)
                && k@ == kind && final(self)@ == old(self)@),
    {
        match inst {
            Inst::SDiv(_, _, _) | Inst::UDiv(_, _, _) | Inst::FDiv(_, _, _) | Inst::SRem(_, _, _)
            | Inst::URem(_, _, _) | Inst::FRem(_, _, _) | Inst::Eq(_, _, _) | Inst::FEq(_, _, _)
            | Inst::SLt(_, _, _) | Inst::ULt(_, _, _) | Inst::FLt(_, _, _) | Inst::SGt(_, _, _)
            | Inst::UGt(_, _, _) | Inst::FGt(_, _, _) => self.exec_cmp_inst(inst),
            Inst::Shl(d, l, r) => {
                let v = shl(self.registers.get(l), self.registers.get(r));
                self.registers.set(d, v);
                Ok(Flow::Next)
            },
            Inst::Shr(d, l, r) => {
                let v = shr(self.registers.get(l), self.registers.get(r));
                self.registers.set(d, v);
                Ok(Flow::Next)
            },
            Inst::And(d, l, r) => {
                let v = self.registers.get(l) & self.registers.get(r);
                self.registers.set(d, v);
                Ok(Flow::Next)
            },
            Inst::Or(d, l, r) => {
                let v = self.registers.get(l) | self.registers.get(r);
                self.registers.set(d, v);
                Ok(Flow::Next)
            },
            Inst::Xor(d, l, r) => {
                let v = self.registers.get(l) ^ self.registers.get(r);
                self.registers.set(d, v);
                Ok(Flow::Next)
            },
            Inst::Not(d, src) => {
                let v = !self.registers.get(src);
                self.registers.set(d, v);
                Ok(Flow::Next)
            },
            Inst::SAdd(_, _, _) | Inst::UAdd(_, _, _) | Inst::FAdd(_, _, _) | Inst::Sub(_, _, _)
            | Inst::FSub(_, _, _) | Inst::SMul(_, _, _) | Inst::UMul(_, _, _)
            | Inst::FMul(_, _, _) => self.exec_arith_inst(inst),
            _ => {
                proof {
                    assert(false);
                }
                Err(FaultKind::StepLimit)
            },
        }
    }

    #[verifier::rlimit(100)]
    #[verifier::spinoff_prover]
    fn exec_arith_inst(&mut self, inst: &Inst) -> (res: Result<Flow, FaultKind>)
        requires
            old(self).wf(),
            is_arith_inst(*inst),
        ensures
            final(self).wf(),
            (spec_step(*inst, old(self)@) matches StepV::Step { post, flow } ==> res matches Ok(fl)
                && fl@ == flow && final(self)@ == post),
            (spec_step(*inst, old(self)@) matches StepV::Fault { kind } ==> res matches Err(k)
                && k@ == kind && final(self)@ == old(self)@),
    {
        match inst {
            Inst::SAdd(d, l, r) => {
                let v = self.registers.get(l).wrapping_add(self.registers.get(r));
                self.registers.set(d, v);
                Ok(Flow::Next)
            },
            Inst::UAdd(d, l, r) => {
                let v = self.registers.get(l).wrapping_add(self.registers.get(r));
                self.registers.set(d, v);
                Ok(Flow::Next)
            },
            Inst::FAdd(d, l, r) => {
                let v = fadd(self.registers.get(l), self.registers.get(r));
                self.registers.set(d, v);
                Ok(Flow::Next)
            },
            Inst::Sub(d, l, r) => {
                let v = self.registers.get(l).wrapping_sub(self.registers.get(r));
                self.registers.set(d, v);
                Ok(Flow::Next)
            },
            Inst::FSub(d, l, r) => {
                let v = fsub(self.registers.get(l), self.registers.get(r));
                self.registers.set(d, v);
                Ok(Flow::Next)
            },
            Inst::SMul(d, l, r) => {
                let v = self.registers.get(l).wrapping_mul(self.registers.get(r));
                self.registers.set(d, v);
                Ok(Flow::Next)
            },
            Inst::UMul(d, l, r) => {
                let v = self.registers.get(l).wrapping_mul(self.registers.get(r));
                self.registers.set(d, v);
                Ok(Flow::Next)
            },
            Inst::FMul(d, l, r) => {
                let v = fmul(self.registers.get(l), self.registers.get(r));
                self.registers.set(d, v);
                Ok(Flow::Next)
            },
            _ => {
                proof {
                    assert(false);
                }
                Err(FaultKind::StepLimit)
            },
        }
    }

    #[verifier::rlimit(100)]
    #[verifier::spinoff_prover]
    fn exec_cmp_inst(&mut self, inst: &Inst) -> (res: Result<Flow, FaultKind>)
        requires
            old(self).wf(),
            is_divcmp_inst(*inst),
        ensures
            final(self).wf(),
            (spec_step(*inst, old(self)@) matches StepV::Step { post, flow } ==> res matches Ok(fl)
                && fl@ == flow && final(self)@ == post),
            (spec_step(*inst, old(self)@) matches StepV::Fault { kind } ==> res matches Err(k)
                && k@ == kind && final(self)@ == old(self)@),
    {
        match inst {
            Inst::SDiv(d, l, r) => {
                let rv = self.registers.get(r);
                if rv == 0 {
                    Err(FaultKind::DivisionByZero)
                } else {
                    let v = sdiv(self.registers.get(l), rv);
                    self.registers.set(d, v);
                    Ok(Flow::Next)
                }
            },
            Inst::UDiv(d, l, r) => {
                let rv = self.registers.get(r);
                if rv == 0 {
                    Err(FaultKind::DivisionByZero)
                } else {
                    let v = self.registers.get(l) / rv;
                    self.registers.set(d, v);
                    Ok(Flow::Next)
                }
            },
            Inst::FDiv(d, l, r) => {
                let v = fdiv(self.registers.get(l), self.registers.get(r));
                self.registers.set(d, v);
                Ok(Flow::Next)
            },
            Inst::SRem(d, l, r) => {
                let rv = self.registers.get(r);
                if rv == 0 {
                    Err(FaultKind::RemainderByZero)
                } else {
                    let v = srem(self.registers.get(l), rv);
                    self.registers.set(d, v);
                    Ok(Flow::Next)
                }
            },
            Inst::URem(d, l, r) => {
                let rv = self.registers.get(r);
                if rv == 0 {
                    Err(FaultKind::RemainderByZero)
                } else {
                    let v = self.registers.get(l) % rv;
                    self.registers.set(d, v);
                    Ok(Flow::Next)
                }
            },
            Inst::FRem(d, l, r) => {
                let v = frem(self.registers.get(l), self.registers.get(r));
                self.registers.set(d, v);
                Ok(Flow::Next)
            },
            Inst::Eq(d, l, r) => {
                let v = if self.registers.get(l) == self.registers.get(r) {
                    TRUE_BITS
                } else {
                    FALSE_BITS
                };
                self.registers.set(d, v);
                Ok(Flow::Next)
            },
            Inst::FEq(d, l, r) => {
                let v = if feq(self.registers.get(l), self.registers.get(r)) {
                    TRUE_BITS
                } else {
                    FALSE_BITS
                };
                self.registers.set(d, v);
                Ok(Flow::Next)
            },
            Inst::SLt(d, l, r) => {
                let v = if slt(self.registers.get(l), self.registers.get(r)) {
                    TRUE_BITS
                } else {
                    FALSE_BITS
                };
                self.registers.set(d, v);
                Ok(Flow::Next)
            },
            Inst::ULt(d, l, r) => {
                let v = if self.registers.get(l) < self.registers.get(r) {
                    TRUE_BITS
                } else {
                    FALSE_BITS
                };
                self.registers.set(d, v);
                Ok(Flow::Next)
            },
            Inst::FLt(d, l, r) => {
                let v = if flt(self.registers.get(l), self.registers.get(r)) {
                    TRUE_BITS
                } else {
                    FALSE_BITS
                };
                self.registers.set(d, v);
                Ok(Flow::Next)
            },
            Inst::SGt(d, l, r) => {
                let v = if slt(self.registers.get(r), self.registers.get(l)) {
                    TRUE_BITS
                } else {
                    FALSE_BITS
                };
                self.registers.set(d, v);
                Ok(Flow::Next)
            },
            Inst::UGt(d, l, r) => {
                let v = if self.registers.get(l) > self.registers.get(r) {
                    TRUE_BITS
                } else {
                    FALSE_BITS
                };
                self.registers.set(d, v);
                Ok(Flow::Next)
            },
            Inst::FGt(d, l, r) => {
                let v = if fgt(self.registers.get(l), self.registers.get(r)) {
                    TRUE_BITS
                } else {
                    FALSE_BITS
                };
                self.registers.set(d, v);
                Ok(Flow::Next)
            },
            _ => {
                proof {
                    assert(false);
                }
                Err(FaultKind::StepLimit)
            },
        }
    }

    /// Runs the program from its `main` block, for at most `fuel` small
    /// steps.  If no block is labeled `main` the machine does nothing.
    /// Otherwise the result and the final machine state are exactly those of
    /// the first terminal state of the step relation, when one is reached
    /// within the budget; an unfinished run reports the step-limit fault
    /// with the machine state after `fuel` steps.
    #[verifier::rlimit(100)]
    #[verifier::spinoff_prover]
    pub fn interpret(&mut self, blocks: &Vec<Block>, fuel: u64) -> (res: Result<(), Fault>)
        requires
            old(self).wf(),
        ensures
            final(self).wf(),
            spec_find_block(blocks@, ("main")@, 0) is None ==> res == Result::<(), Fault>::Ok(())
                && final(self)@ == old(self)@,
            (spec_find_block(blocks@, ("main")@, 0) matches Some(mb) ==> {
                let init = (ExecState { m: old(self)@, ctrl: Ctrl::Run { b: mb, i: 0 } });
                &&& ((exists|n: nat|
                    n <= fuel && is_terminal(#[trigger] run_n(blocks@, init, n))) ==> (exists|
                    n: nat,
                |
                    n <= fuel && is_terminal(#[trigger] run_n(blocks@, init, n)) && final(self)@
                        == run_n(blocks@, init, n).m && outcome_matches(
                        run_n(blocks@, init, n).ctrl,
                        res,
                    )))
                &&& ((forall|n: nat| n <= fuel ==> !is_terminal(#[trigger] run_n(blocks@, init, n)))
                    ==> (res matches Err(f) && f.kind@ == FaultV::StepLimit && final(self)@
                    == run_n(blocks@, init, fuel as nat).m))
            }),
    {
        let main_name = ("main").to_owned();
        let mut cur: usize = match find_block_idx(blocks, &main_name) {
            Some(i) => i,
            None => {
                return Ok(());
            },
        };
        let mut idx: usize = 0;
        let mut gas: u64 = fuel;
        let ghost mb: int = cur as int;
        let ghost init = ExecState { m: self@, ctrl: Ctrl::Run { b: mb, i: 0 } };
        let ghost mut steps: nat = 0;
        loop
            invariant
                self.wf(),
                cur < blocks@.len(),
                steps <= fuel,
                gas == fuel - steps,
                spec_find_block(blocks@, ("main")@, 0) == Some(mb),
                init == (ExecState { m: old(self)@, ctrl: Ctrl::Run { b: mb, i: 0 } }),
                run_n(blocks@, init, steps) == (ExecState {
                    m: self@,
                    ctrl: Ctrl::Run { b: cur as int, i: idx as int },
                }),
                forall|m: nat| m <= steps ==> !is_terminal(#[trigger] run_n(blocks@, init, m)),
            decreases gas,
        {
            if gas == 0 {
                proof {
                    assert(steps == fuel);
                }
                return Err(Fault { kind: FaultKind::StepLimit, block: blocks[cur].label.clone() });
            }
            gas = gas - 1;
            let blk = &blocks[cur];
            let ghost pre = run_n(blocks@, init, steps);
            proof {
                assert(run_n(blocks@, init, steps + 1) == run_step(blocks@, pre));
            }
            if idx >= blk.insts.len() {
                proof {
                    let n1 = steps + 1;
                    lemma_run_step_halt(blocks@, self@, cur as int, idx as int);
                    assert(run_step(blocks@, pre) == (ExecState { m: pre.m, ctrl: Ctrl::Halted }));
                    assert(run_n(blocks@, init, n1).ctrl is Halted);
                    assert(run_n(blocks@, init, n1).m == self@);
                    assert(n1 <= fuel && is_terminal(run_n(blocks@, init, n1)));
                    assert(outcome_matches(
                        run_n(blocks@, init, n1).ctrl,
                        Result::<(), Fault>::Ok(()),
                    ));
                }
                return Ok(());
            }
            let inst = &blk.insts[idx];
            proof {
                lemma_run_step_exec(blocks@, self@, cur as int, idx as int);
            }
            match self.interpret_inst(inst) {
                Ok(Flow::Next) => {
                    proof {
                        assert(run_n(blocks@, init, steps + 1) == (ExecState {
                            m: self@,
                            ctrl: Ctrl::Run { b: cur as int, i: idx as int + 1 },
                        }));
                        assert forall|m: nat| m <= steps + 1 implies !is_terminal(
                            #[trigger] run_n(blocks@, init, m),
                        ) by {
                            assert(run_n(blocks@, init, steps + 1).ctrl is Run);
                        }
                        steps = steps + 1;
                    }
                    idx = idx + 1;
                },
                Ok(Flow::Goto(l)) => {
                    match find_block_idx(blocks, &l.0) {
                        Some(nb) => {
                            proof {
                                assert(run_n(blocks@, init, steps + 1) == (ExecState {
                                    m: self@,
                                    ctrl: Ctrl::Run { b: nb as int, i: 0 },
                                }));
                                assert forall|m: nat| m <= steps + 1 implies !is_terminal(
                                    #[trigger] run_n(blocks@, init, m),
                                ) by {
                                    assert(run_n(blocks@, init, steps + 1).ctrl is Run);
                                }
                                steps = steps + 1;
                            }
                            cur = nb;
                            idx = 0;
                        },
                        None => {
                            proof {
                                let n1 = steps + 1;
                                assert(run_n(blocks@, init, n1).ctrl == (Ctrl::Faulted {
                                    kind: FaultV::UndefinedLabel { label: l.0@ },
                                    block: blk.label@,
                                }));
                                assert(run_n(blocks@, init, n1).m == self@);
                                assert(n1 <= fuel && is_terminal(run_n(blocks@, init, n1)));
                            }
                            return Err(
                                Fault {
                                    kind: FaultKind::UndefinedLabel { label: l.0 },
                                    block: blk.label.clone(),
                                },
                            );
                        },
                    }
                },
                Err(k) => {
                    proof {
                        let n1 = steps + 1;
                        assert(run_n(blocks@, init, n1).ctrl == (Ctrl::Faulted {
                            kind: k@,
                            block: blk.label@,
                        }));
                        assert(run_n(blocks@, init, n1).m == self@);
                        assert(n1 <= fuel && is_terminal(run_n(blocks@, init, n1)));
                    }
                    return Err(Fault { kind: k, block: blk.label.clone() });
                },
            }
        }
    }
}

/// The index of the first block whose label is `name`, if any.
fn find_block_idx(blocks: &Vec<Block>, name: &String) -> (r: Option<usize>)
    ensures
        match r {
            Some(i) => spec_find_block(blocks@, name@, 0) == Some(i as int) && i < blocks@.len(),
            None => spec_find_block(blocks@, name@, 0) is None,
        },
{
    let n = blocks.len();
    let mut i: usize = 0;
    while i < n
        invariant
            n == blocks@.len(),
            i <= n,
            spec_find_block(blocks@, name@, 0) == spec_find_block(blocks@, name@, i as int),
        decreases n - i,
    {
        if blocks[i].label.eq(name) {
            return Some(i);
        }
        i = i + 1;
    }
    None
}

} // verus!
