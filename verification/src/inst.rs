//! The shared instruction-set vocabulary: registers, immediates, labels,
//! basic blocks, and the closed instruction variant type, with the canonical
//! one-line textual rendering of each instruction.
//!
//! Boolean truth is carried in registers as a canonical bit pattern: `1` for
//! true, `0` for false.  Literal materialization and comparison results both
//! write these patterns, and the conditional-transfer instructions treat any
//! nonzero pattern as true, so the three agree on the canonical patterns.

use vstd::prelude::*;

use crate::fpu::{float_text, float_text_of};
use crate::text::{dec_u64, spec_dec_u64};

verus! {

/// Canonical register bit pattern for boolean truth.
pub const TRUE_BITS: u64 = 1;

/// Canonical register bit pattern for boolean falsehood.
pub const FALSE_BITS: u64 = 0;

/// One of the sixteen general-purpose slots, or one of the three reserved
/// roles (stack pointer, frame pointer, instruction pointer).  The reserved
/// registers are addressable but the machines maintain no stack or frame
/// discipline over them.
#[derive(Debug, Clone, Copy, PartialEq, Eq, Hash, Structural)]
pub enum Register {
    R0,
    R1,
    R2,
    R3,
    R4,
    R5,
    R6,
    R7,
    R8,
    R9,
    R10,
    R11,
    R12,
    R13,
    R14,
    R15,
    Rsp,
    Rfp,
    Rip,
}

/// Decoding an integer register ID can fail: the IDs form the closed range
/// 0 to 18.
#[derive(Debug, Clone, Copy, PartialEq, Eq, Structural)]
pub enum DecodeError {
    BadRegisterId { id: u8 },
}

impl Register {
    /// The stable small-integer ID of this register, in 0..=18.
    pub open spec fn spec_id(self) -> int {
        match self {
            Register::R0 => 0,
            Register::R1 => 1,
            Register::R2 => 2,
            Register::R3 => 3,
            Register::R4 => 4,
            Register::R5 => 5,
            Register::R6 => 6,
            Register::R7 => 7,
            Register::R8 => 8,
            Register::R9 => 9,
            Register::R10 => 10,
            Register::R11 => 11,
            Register::R12 => 12,
            Register::R13 => 13,
            Register::R14 => 14,
            Register::R15 => 15,
            Register::Rsp => 16,
            Register::Rfp => 17,
            Register::Rip => 18,
        }
    }

    /// The register with ID `id`, for `id` in 0..=18.
    pub open spec fn spec_of_id(id: int) -> Register {
        if id == 0 {
            Register::R0
        } else if id == 1 {
            Register::R1
        } else if id == 2 {
            Register::R2
        } else if id == 3 {
            Register::R3
        } else if id == 4 {
            Register::R4
        } else if id == 5 {
            Register::R5
        } else if id == 6 {
            Register::R6
        } else if id == 7 {
            Register::R7
        } else if id == 8 {
            Register::R8
        } else if id == 9 {
            Register::R9
        } else if id == 10 {
            Register::R10
        } else if id == 11 {
            Register::R11
        } else if id == 12 {
            Register::R12
        } else if id == 13 {
            Register::R13
        } else if id == 14 {
            Register::R14
        } else if id == 15 {
            Register::R15
        } else if id == 16 {
            Register::Rsp
        } else if id == 17 {
            Register::Rfp
        } else {
            Register::Rip
        }
    }

    /// Decodes an integer register ID; IDs outside 0..=18 are an encoding
    /// error.
    pub fn from_id(id: u8) -> (r: Result<Register, DecodeError>)
        ensures
            id <= 18 ==> r == Ok::<Register, DecodeError>(Register::spec_of_id(id as int)),
            id > 18 ==> r == Err::<Register, DecodeError>(DecodeError::BadRegisterId { id }),
    {
        match id {
            0 => Ok(Register::R0),
            1 => Ok(Register::R1),
            2 => Ok(Register::R2),
            3 => Ok(Register::R3),
            4 => Ok(Register::R4),
            5 => Ok(Register::R5),
            6 => Ok(Register::R6),
            7 => Ok(Register::R7),
            8 => Ok(Register::R8),
            9 => Ok(Register::R9),
            10 => Ok(Register::R10),
            11 => Ok(Register::R11),
            12 => Ok(Register::R12),
            13 => Ok(Register::R13),
            14 => Ok(Register::R14),
            15 => Ok(Register::R15),
            16 => Ok(Register::Rsp),
            17 => Ok(Register::Rfp),
            18 => Ok(Register::Rip),
            _ => Err(DecodeError::BadRegisterId { id }),
        }
    }

    /// Re-encodes this register as its stable integer ID.
    pub fn get_id(&self) -> (id: u8)
        ensures
            id == self.spec_id(),
            id <= 18,
    {
        match self {
            Register::R0 => 0,
            Register::R1 => 1,
            Register::R2 => 2,
            Register::R3 => 3,
            Register::R4 => 4,
            Register::R5 => 5,
            Register::R6 => 6,
            Register::R7 => 7,
            Register::R8 => 8,
            Register::R9 => 9,
            Register::R10 => 10,
            Register::R11 => 11,
            Register::R12 => 12,
            Register::R13 => 13,
            Register::R14 => 14,
            Register::R15 => 15,
            Register::Rsp => 16,
            Register::Rfp => 17,
            Register::Rip => 18,
        }
    }
}

/// Decoding an ID in 0..=18 and re-encoding it is the identity.
pub proof fn lemma_register_id_round_trip(id: int)
    requires
        0 <= id <= 18,
    ensures
        Register::spec_of_id(id).spec_id() == id,
{
}

/// Re-encoding any register and decoding the ID gives the register back.
pub proof fn lemma_register_round_trip(r: Register)
    ensures
        Register::spec_of_id(r.spec_id()) == r,
{
}

/// An opaque name identifying a basic block.  Control-transfer instructions
/// resolve labels to blocks by name lazily, at jump time.
#[derive(Debug, Clone)]
pub struct Label(pub String);

impl Label {
    pub fn new(name: &str) -> (l: Label)
        ensures
            l.0@ == name@,
    {
        Label(name.to_owned())
    }
}

/// A tagged immediate value.  Floats are carried as their IEEE-754 double
/// bit pattern, so the tag alone records that the pattern means a float.
#[derive(Debug, Clone, Copy)]
pub enum Imm {
    Int(u64),
    Float(u64),
    True,
    False,
}

impl Imm {
    /// The canonical 64-bit pattern this immediate materializes into a
    /// register: integers and float patterns pass through; the boolean
    /// literals map to the canonical truth patterns.
    pub open spec fn spec_bits(self) -> u64 {
        match self {
            Imm::Int(v) => v,
            Imm::Float(bits) => bits,
            Imm::True => TRUE_BITS,
            Imm::False => FALSE_BITS,
        }
    }

    pub fn as_u64(&self) -> (r: u64)
        ensures
            r == self.spec_bits(),
    {
        match self {
            Imm::Int(v) => *v,
            Imm::Float(bits) => *bits,
            Imm::True => TRUE_BITS,
            Imm::False => FALSE_BITS,
        }
    }
}

/// A labeled basic block: the unit of control transfer.  Jumps can only
/// enter a block at its start.
#[derive(Debug, Clone)]
pub struct Block {
    pub label: String,
    pub insts: Vec<Inst>,
}

/// The closed instruction variant type shared by both back ends.
#[derive(Debug, Clone)]
pub enum Inst {
    /// Prints the raw register contents (unsigned decimal), for debugging.
    Dbg(Register),
    PrintInt(Register),
    PrintUInt(Register),
    PrintFloat(Register),
    /// Materializes an immediate into a register.
    Rega(Register, Imm),
    Copy(Register, Register),
    /// Loads 8 bytes from the byte offset held in the address register.
    Load(Register, Register),
    /// Stores 8 bytes at the byte offset held in the address register.
    Store(Register, Register),
    Jump(Label),
    CJump(Register, Label),
    Branch(Register, Label, Label),
    Shl(Register, Register, Register),
    Shr(Register, Register, Register),
    And(Register, Register, Register),
    Or(Register, Register, Register),
    Xor(Register, Register, Register),
    Not(Register, Register),
    SAdd(Register, Register, Register),
    UAdd(Register, Register, Register),
    FAdd(Register, Register, Register),
    Sub(Register, Register, Register),
    FSub(Register, Register, Register),
    SMul(Register, Register, Register),
    UMul(Register, Register, Register),
    FMul(Register, Register, Register),
    SDiv(Register, Register, Register),
    UDiv(Register, Register, Register),
    FDiv(Register, Register, Register),
    SRem(Register, Register, Register),
    URem(Register, Register, Register),
    FRem(Register, Register, Register),
    Eq(Register, Register, Register),
    FEq(Register, Register, Register),
    SLt(Register, Register, Register),
    ULt(Register, Register, Register),
    FLt(Register, Register, Register),
    SGt(Register, Register, Register),
    UGt(Register, Register, Register),
    FGt(Register, Register, Register),
}

/// The rendering of one register operand: a space, `%`, and the ID.
pub open spec fn spec_reg_opnd(r: Register) -> Seq<char> {
    (" %")@ + spec_dec_u64(r.spec_id() as nat)
}

/// The rendering of one label operand: a space, `@`, and the name.
pub open spec fn spec_label_opnd(l: Label) -> Seq<char> {
    (" @")@ + l.0@
}

/// The rendering of an immediate operand.
pub open spec fn spec_imm_text(imm: Imm) -> Seq<char> {
    match imm {
        Imm::Int(v) => spec_dec_u64(v as nat),
        Imm::Float(bits) => float_text_of(bits),
        Imm::True => ("true")@,
        Imm::False => ("false")@,
    }
}

fn push_reg(s: &mut String, r: &Register)
    ensures
        final(s)@ == old(s)@ + spec_reg_opnd(*r),
{
    s.append(" %");
    let d = dec_u64(r.get_id() as u64);
    s.append(d.as_str());
}

fn push_label(s: &mut String, l: &Label)
    ensures
        final(s)@ == old(s)@ + spec_label_opnd(*l),
{
    s.append(" @");
    s.append(l.0.as_str());
}

impl Inst {
    /// The canonical one-line text of this instruction: the mnemonic, then
    /// each register operand as `%<id>`, label operands as `@<name>`, and an
    /// immediate in its literal form.
    pub open spec fn spec_asm(self) -> Seq<char> {
        match self {
            Inst::Dbg(r) => ("dbg")@ + spec_reg_opnd(r),
            Inst::PrintInt(r) => ("print_int")@ + spec_reg_opnd(r),
            Inst::PrintUInt(r) => ("print_uint")@ + spec_reg_opnd(r),
            Inst::PrintFloat(r) => ("print_float")@ + spec_reg_opnd(r),
            Inst::Rega(d, imm) => ("rega")@ + spec_reg_opnd(d) + (" ")@ + spec_imm_text(imm),
            Inst::Copy(d, s) => ("copy")@ + spec_reg_opnd(d) + spec_reg_opnd(s),
            Inst::Load(d, a) => ("load")@ + spec_reg_opnd(d) + spec_reg_opnd(a),
            Inst::Store(a, s) => ("store")@ + spec_reg_opnd(a) + spec_reg_opnd(s),
            Inst::Jump(l) => ("jump")@ + spec_label_opnd(l),
            Inst::CJump(c, l) => ("cjump")@ + spec_reg_opnd(c) + spec_label_opnd(l),
            Inst::Branch(c, t, f) => ("branch")@ + spec_reg_opnd(c) + spec_label_opnd(t)
                + spec_label_opnd(f),
            Inst::Shl(d, l, r) => ("shl")@ + spec_reg_opnd(d) + spec_reg_opnd(l) + spec_reg_opnd(r),
            Inst::Shr(d, l, r) => ("shr")@ + spec_reg_opnd(d) + spec_reg_opnd(l) + spec_reg_opnd(r),
            Inst::And(d, l, r) => ("and")@ + spec_reg_opnd(d) + spec_reg_opnd(l) + spec_reg_opnd(r),
            Inst::Or(d, l, r) => ("or")@ + spec_reg_opnd(d) + spec_reg_opnd(l) + spec_reg_opnd(r),
            Inst::Xor(d, l, r) => ("xor")@ + spec_reg_opnd(d) + spec_reg_opnd(l) + spec_reg_opnd(r),
            Inst::Not(d, s) => ("not")@ + spec_reg_opnd(d) + spec_reg_opnd(s),
            Inst::SAdd(d, l, r) => ("sadd")@ + spec_reg_opnd(d) + spec_reg_opnd(l) + spec_reg_opnd(
                r,
            ),
            Inst::UAdd(d, l, r) => ("uadd")@ + spec_reg_opnd(d) + spec_reg_opnd(l) + spec_reg_opnd(
                r,
            ),
            Inst::FAdd(d, l, r) => ("fadd")@ + spec_reg_opnd(d) + spec_reg_opnd(l) + spec_reg_opnd(
                r,
            ),
            Inst::Sub(d, l, r) => ("sub")@ + spec_reg_opnd(d) + spec_reg_opnd(l) + spec_reg_opnd(r),
            Inst::FSub(d, l, r) => ("fsub")@ + spec_reg_opnd(d) + spec_reg_opnd(l) + spec_reg_opnd(
                r,
            ),
            Inst::SMul(d, l, r) => ("smul")@ + spec_reg_opnd(d) + spec_reg_opnd(l) + spec_reg_opnd(
                r,
            ),
            Inst::UMul(d, l, r) => ("umul")@ + spec_reg_opnd(d) + spec_reg_opnd(l) + spec_reg_opnd(
                r,
            ),
            Inst::FMul(d, l, r) => ("fmul")@ + spec_reg_opnd(d) + spec_reg_opnd(l) + spec_reg_opnd(
                r,
            ),
            Inst::SDiv(d, l, r) => ("sdiv")@ + spec_reg_opnd(d) + spec_reg_opnd(l) + spec_reg_opnd(
                r,
            ),
            Inst::UDiv(d, l, r) => ("udiv")@ + spec_reg_opnd(d) + spec_reg_opnd(l) + spec_reg_opnd(
                r,
            ),
            Inst::FDiv(d, l, r) => ("fdiv")@ + spec_reg_opnd(d) + spec_reg_opnd(l) + spec_reg_opnd(
                r,
            ),
            Inst::SRem(d, l, r) => ("srem")@ + spec_reg_opnd(d) + spec_reg_opnd(l) + spec_reg_opnd(
                r,
            ),
            Inst::URem(d, l, r) => ("urem")@ + spec_reg_opnd(d) + spec_reg_opnd(l) + spec_reg_opnd(
                r,
            ),
            Inst::FRem(d, l, r) => ("frem")@ + spec_reg_opnd(d) + spec_reg_opnd(l) + spec_reg_opnd(
                r,
            ),
            Inst::Eq(d, l, r) => ("eq")@ + spec_reg_opnd(d) + spec_reg_opnd(l) + spec_reg_opnd(r),
            Inst::FEq(d, l, r) => ("feq")@ + spec_reg_opnd(d) + spec_reg_opnd(l) + spec_reg_opnd(r),
            Inst::SLt(d, l, r) => ("slt")@ + spec_reg_opnd(d) + spec_reg_opnd(l) + spec_reg_opnd(r),
            Inst::ULt(d, l, r) => ("ult")@ + spec_reg_opnd(d) + spec_reg_opnd(l) + spec_reg_opnd(r),
            Inst::FLt(d, l, r) => ("flt")@ + spec_reg_opnd(d) + spec_reg_opnd(l) + spec_reg_opnd(r),
            Inst::SGt(d, l, r) => ("sgt")@ + spec_reg_opnd(d) + spec_reg_opnd(l) + spec_reg_opnd(r),
            Inst::UGt(d, l, r) => ("ugt")@ + spec_reg_opnd(d) + spec_reg_opnd(l) + spec_reg_opnd(r),
            Inst::FGt(d, l, r) => ("fgt")@ + spec_reg_opnd(d) + spec_reg_opnd(l) + spec_reg_opnd(r),
        }
    }

    /// Renders this instruction to its canonical one-line textual form.
    /// The text is a pure function of the instruction, so repeated calls on
    /// an unchanged instruction return the same line.
    pub fn as_asm(&self) -> (s: String)
        ensures
            s@ == self.spec_asm(),
    {
        match self {
            Inst::Dbg(r) => asm1("dbg", r),
            Inst::PrintInt(r) => asm1("print_int", r),
            Inst::PrintUInt(r) => asm1("print_uint", r),
            Inst::PrintFloat(r) => asm1("print_float", r),
            Inst::Rega(d, imm) => {
                let mut s = ("rega").to_owned();
                push_reg(&mut s, d);
                s.append(" ");
                let t = imm_text(imm);
                s.append(t.as_str());
                s
            },
            Inst::Copy(d, src) => asm2("copy", d, src),
            Inst::Load(d, a) => asm2("load", d, a),
            Inst::Store(a, src) => asm2("store", a, src),
            Inst::Jump(l) => {
                let mut s = ("jump").to_owned();
                push_label(&mut s, l);
                s
            },
            Inst::CJump(c, l) => {
                let mut s = ("cjump").to_owned();
                push_reg(&mut s, c);
                push_label(&mut s, l);
                s
            },
            Inst::Branch(c, t, f) => {
                let mut s = ("branch").to_owned();
                push_reg(&mut s, c);
                push_label(&mut s, t);
                push_label(&mut s, f);
                s
            },
            Inst::Shl(d, l, r) => asm3("shl", d, l, r),
            Inst::Shr(d, l, r) => asm3("shr", d, l, r),
            Inst::And(d, l, r) => asm3("and", d, l, r),
            Inst::Or(d, l, r) => asm3("or", d, l, r),
            Inst::Xor(d, l, r) => asm3("xor", d, l, r),
            Inst::Not(d, s) => asm2("not", d, s),
            Inst::SAdd(d, l, r) => asm3("sadd", d, l, r),
            Inst::UAdd(d, l, r) => asm3("uadd", d, l, r),
            Inst::FAdd(d, l, r) => asm3("fadd", d, l, r),
            Inst::Sub(d, l, r) => asm3("sub", d, l, r),
            Inst::FSub(d, l, r) => asm3("fsub", d, l, r),
            Inst::SMul(d, l, r) => asm3("smul", d, l, r),
            Inst::UMul(d, l, r) => asm3("umul", d, l, r),
            Inst::FMul(d, l, r) => asm3("fmul", d, l, r),
            Inst::SDiv(d, l, r) => asm3("sdiv", d, l, r),
            Inst::UDiv(d, l, r) => asm3("udiv", d, l, r),
            Inst::FDiv(d, l, r) => asm3("fdiv", d, l, r),
            Inst::SRem(d, l, r) => asm3("srem", d, l, r),
            Inst::URem(d, l, r) => asm3("urem", d, l, r),
            Inst::FRem(d, l, r) => asm3("frem", d, l, r),
            Inst::Eq(d, l, r) => asm3("eq", d, l, r),
            Inst::FEq(d, l, r) => asm3("feq", d, l, r),
            Inst::SLt(d, l, r) => asm3("slt", d, l, r),
            Inst::ULt(d, l, r) => asm3("ult", d, l, r),
            Inst::FLt(d, l, r) => asm3("flt", d, l, r),
            Inst::SGt(d, l, r) => asm3("sgt", d, l, r),
            Inst::UGt(d, l, r) => asm3("ugt", d, l, r),
            Inst::FGt(d, l, r) => asm3("fgt", d, l, r),
        }
    }
}

fn imm_text(imm: &Imm) -> (s: String)
    ensures
        s@ == spec_imm_text(*imm),
{
    match imm {
        Imm::Int(v) => dec_u64(*v),
        Imm::Float(bits) => float_text(*bits),
        Imm::True => ("true").to_owned(),
        Imm::False => ("false").to_owned(),
    }
}

fn asm1(mnemonic: &str, a: &Register) -> (s: String)
    ensures
        s@ == mnemonic@ + spec_reg_opnd(*a),
{
    let mut s = mnemonic.to_owned();
    push_reg(&mut s, a);
    s
}

fn asm2(mnemonic: &str, a: &Register, b: &Register) -> (s: String)
    ensures
        s@ == mnemonic@ + spec_reg_opnd(*a) + spec_reg_opnd(*b),
{
    let mut s = mnemonic.to_owned();
    push_reg(&mut s, a);
    push_reg(&mut s, b);
    s
}

fn asm3(mnemonic: &str, a: &Register, b: &Register, c: &Register) -> (s: String)
    ensures
        s@ == mnemonic@ + spec_reg_opnd(*a) + spec_reg_opnd(*b) + spec_reg_opnd(*c),
{
    let mut s = mnemonic.to_owned();
    push_reg(&mut s, a);
    push_reg(&mut s, b);
    push_reg(&mut s, c);
    s
}

/// The rendering of a block's instruction list, two-space indented, one
/// instruction per line.
pub open spec fn spec_insts_asm(insts: Seq<Inst>) -> Seq<char>
    decreases insts.len(),
{
    if insts.len() == 0 {
        Seq::empty()
    } else {
        spec_insts_asm(insts.drop_last()) + ("  ")@ + insts.last().spec_asm() + ("\n")@
    }
}

impl Block {
    /// The debug-dump text of this block: a `<label>:` header line, then
    /// each instruction on its own indented line.
    pub open spec fn spec_asm(self) -> Seq<char> {
        self.label@ + (":\n")@ + spec_insts_asm(self.insts@)
    }

    /// Renders this block for the debug assembly dump.
    pub fn as_asm(&self) -> (s: String)
        ensures
            s@ == self.spec_asm(),
    {
        let mut s = self.label.clone();
        s.append(":\n");
        let n = self.insts.len();
        let mut i: usize = 0;
        while i < n
            invariant
                n == self.insts.len(),
                i <= n,
                s@ == self.label@ + (":\n")@ + spec_insts_asm(self.insts@.take(i as int)),
            decreases n - i,
        {
            s.append("  ");
            let line = self.insts[i].as_asm();
            s.append(line.as_str());
            s.append("\n");
            proof {
                assert(self.insts@.take(i + 1 as int).drop_last() =~= self.insts@.take(i as int));
                assert(self.insts@.take(i + 1 as int).last() == self.insts@[i as int]);
            }
            i = i + 1;
        }
        proof {
            assert(self.insts@.take(n as int) =~= self.insts@);
        }
        s
    }
}

} // verus!
