//! Instruction words and their decoding.
//!
//! An instruction word is a 32-bit unsigned value. In the three-register
//! form the opcode sits at bits [31:28] and the three register operands A,
//! B, C at bits [8:6], [5:3] and [2:0]. The load-value instruction uses the
//! immediate form instead: the register operand sits at bits [27:25] and a
//! 25-bit unsigned immediate at bits [24:0].

use vstd::prelude::*;

verus! {

/// A named bit field of a 32-bit instruction word.
pub struct Field {
    pub width: u32,
    pub lsb: u32,
}

/// The value of a mask of `bits` low one-bits.
pub open spec fn mask_spec(bits: u32) -> u32
    recommends
        bits < 32,
{
    ((1u32 << bits) - 1) as u32
}

/// A word with `bits` low one-bits, used to cut a field out of an
/// instruction word.
pub fn mask(bits: u32) -> (r: u32)
    requires
        bits < 32,
    ensures
        r == mask_spec(bits),
{
    proof {
        assert(1u32 << bits >= 1) by (bit_vector)
            requires
                bits < 32,
        ;
    }
    (1u32 << bits) - 1
}

/// The opcode bits of an instruction word: bits [31:28].
pub open spec fn op_field(w: u32) -> u32 {
    (w >> 28) & 0xf
}

/// The A operand of a three-register instruction: bits [8:6].
pub open spec fn a_field(w: u32) -> u32 {
    (w >> 6) & 7
}

/// The B operand of a three-register instruction: bits [5:3].
pub open spec fn b_field(w: u32) -> u32 {
    (w >> 3) & 7
}

/// The C operand of a three-register instruction: bits [2:0].
pub open spec fn c_field(w: u32) -> u32 {
    w & 7
}

/// The register operand of an immediate-form instruction: bits [27:25].
pub open spec fn ra_field(w: u32) -> u32 {
    (w >> 25) & 7
}

/// The immediate of an immediate-form instruction: bits [24:0].
pub open spec fn val_field(w: u32) -> u32 {
    w & 0x1ff_ffff
}

/// The fourteen operations of the instruction set, plus the `FAIL`
/// sentinel for the two undefined opcode patterns.
#[derive(PartialEq, Eq, Structural, Clone, Copy, Debug)]
pub enum Op {
    CMov,
    Load,
    Stor,
    ADD,
    MULT,
    DIV,
    NAND,
    HALT,
    MapSeg,
    UnMap,
    Output,
    Input,
    LPro,
    LVal,
    FAIL,
}

/// The operation that a 4-bit opcode value names: values 0 through 13 name
/// the fourteen operations in order; 14 and 15 are undefined and decode to
/// the `FAIL` sentinel.
pub open spec fn op_of(code: u32) -> Op {
    if code == 0 {
        Op::CMov
    } else if code == 1 {
        Op::Load
    } else if code == 2 {
        Op::Stor
    } else if code == 3 {
        Op::ADD
    } else if code == 4 {
        Op::MULT
    } else if code == 5 {
        Op::DIV
    } else if code == 6 {
        Op::NAND
    } else if code == 7 {
        Op::HALT
    } else if code == 8 {
        Op::MapSeg
    } else if code == 9 {
        Op::UnMap
    } else if code == 10 {
        Op::Output
    } else if code == 11 {
        Op::Input
    } else if code == 12 {
        Op::LPro
    } else if code == 13 {
        Op::LVal
    } else {
        Op::FAIL
    }
}

/// The 4-bit opcode value of an operation; the `FAIL` sentinel is given an
/// undefined pattern.
pub open spec fn opcode(op: Op) -> u32 {
    match op {
        Op::CMov => 0,
        Op::Load => 1,
        Op::Stor => 2,
        Op::ADD => 3,
        Op::MULT => 4,
        Op::DIV => 5,
        Op::NAND => 6,
        Op::HALT => 7,
        Op::MapSeg => 8,
        Op::UnMap => 9,
        Op::Output => 10,
        Op::Input => 11,
        Op::LPro => 12,
        Op::LVal => 13,
        Op::FAIL => 14,
    }
}

/// Decoding inverts the opcode numbering on every operation.
pub proof fn lemma_op_of_opcode(op: Op)
    ensures
        op != Op::FAIL ==> op_of(opcode(op)) == op,
        opcode(op) < 15,
{
}

/// The instruction word that encodes a three-register operation.
pub open spec fn spec_encode(op: Op, a: u32, b: u32, c: u32) -> u32 {
    (opcode(op) << 28) | (a << 6) | (b << 3) | c
}

/// The instruction word that encodes a load-value operation in the
/// immediate form.
pub open spec fn spec_encode_val(a: u32, val: u32) -> u32 {
    (13u32 << 28) | (a << 25) | val
}

/// Law: decoding the word that encodes a three-register operation yields
/// the original opcode and the original operands, for every operation and
/// every operand triple.
pub proof fn lemma_decode_roundtrip(op: Op, a: u32, b: u32, c: u32)
    requires
        a < 8,
        b < 8,
        c < 8,
        op != Op::FAIL,
        op != Op::LVal,
    ensures
        op_of(op_field(spec_encode(op, a, b, c))) == op,
        a_field(spec_encode(op, a, b, c)) == a,
        b_field(spec_encode(op, a, b, c)) == b,
        c_field(spec_encode(op, a, b, c)) == c,
{
    let code = opcode(op);
    lemma_op_of_opcode(op);
    assert(((code << 28) | (a << 6) | (b << 3) | c) >> 28 & 0xf == code) by (bit_vector)
        requires
            code < 14,
            a < 8,
            b < 8,
            c < 8,
    ;
    assert(((code << 28) | (a << 6) | (b << 3) | c) >> 6 & 7 == a) by (bit_vector)
        requires
            a < 8,
            b < 8,
            c < 8,
    ;
    assert(((code << 28) | (a << 6) | (b << 3) | c) >> 3 & 7 == b) by (bit_vector)
        requires
            a < 8,
            b < 8,
            c < 8,
    ;
    assert(((code << 28) | (a << 6) | (b << 3) | c) & 7 == c) by (bit_vector)
        requires
            a < 8,
            b < 8,
            c < 8,
    ;
}

/// Law: decoding the word that encodes a load-value operation yields the
/// load-value opcode, the original register operand and the original
/// immediate, for every operand and every 25-bit immediate.
pub proof fn lemma_decode_roundtrip_val(a: u32, val: u32)
    requires
        a < 8,
        val < 0x200_0000,
    ensures
        op_of(op_field(spec_encode_val(a, val))) == Op::LVal,
        ra_field(spec_encode_val(a, val)) == a,
        val_field(spec_encode_val(a, val)) == val,
{
    assert(((13u32 << 28) | (a << 25) | val) >> 28 & 0xf == 13) by (bit_vector)
        requires
            a < 8,
            val < 0x200_0000,
    ;
    assert(((13u32 << 28) | (a << 25) | val) >> 25 & 7 == a) by (bit_vector)
        requires
            a < 8,
            val < 0x200_0000,
    ;
    assert(((13u32 << 28) | (a << 25) | val) & 0x1ff_ffff == val) by (bit_vector)
        requires
            a < 8,
            val < 0x200_0000,
    ;
}

/// Builds the instruction word for a three-register operation.
pub fn encode(op: Op, a: u32, b: u32, c: u32) -> (w: u32)
    requires
        a < 8,
        b < 8,
        c < 8,
        op != Op::FAIL,
        op != Op::LVal,
    ensures
        w == spec_encode(op, a, b, c),
{
    let code: u32 = match op {
        Op::CMov => 0,
        Op::Load => 1,
        Op::Stor => 2,
        Op::ADD => 3,
        Op::MULT => 4,
        Op::DIV => 5,
        Op::NAND => 6,
        Op::HALT => 7,
        Op::MapSeg => 8,
        Op::UnMap => 9,
        Op::Output => 10,
        Op::Input => 11,
        Op::LPro => 12,
        Op::LVal => 13,
        Op::FAIL => 14,
    };
    (code << 28) | (a << 6) | (b << 3) | c
}

/// Builds the instruction word for a load-value operation.
pub fn encode_val(a: u32, val: u32) -> (w: u32)
    requires
        a < 8,
        val < 0x200_0000,
    ensures
        w == spec_encode_val(a, val),
{
    (13u32 << 28) | (a << 25) | val
}

/// A decoded instruction. Only the fields that the opcode uses are
/// meaningful; the others keep whatever value they last held.
pub struct Dinst {
    pub op: Op,
    pub a: u32,
    pub b: u32,
    pub c: u32,
    pub val: u32,
}

impl Dinst {
    /// Extracts the A operand of the three-register form into `self.a`.
    pub fn geta(&mut self, instruction: &u32)
        ensures
            final(self).a == a_field(*instruction),
            final(self).a < 8,
            *final(self) == (Dinst { a: final(self).a, ..*old(self) }),
    {
        proof {
            assert((*instruction >> 6) & 7 < 8) by (bit_vector);
            assert((1u32 << 3) - 1 == 7) by (bit_vector);
        }
        let f = Field { width: 3, lsb: 6 };
        self.a = (*instruction >> f.lsb) & mask(f.width);
    }

    /// Extracts the B operand of the three-register form into `self.b`.
    pub fn getb(&mut self, instruction: &u32)
        ensures
            final(self).b == b_field(*instruction),
            final(self).b < 8,
            *final(self) == (Dinst { b: final(self).b, ..*old(self) }),
    {
        proof {
            assert((*instruction >> 3) & 7 < 8) by (bit_vector);
            assert((1u32 << 3) - 1 == 7) by (bit_vector);
        }
        let f = Field { width: 3, lsb: 3 };
        self.b = (*instruction >> f.lsb) & mask(f.width);
    }

    /// Extracts the C operand of the three-register form into `self.c`.
    pub fn getc(&mut self, instruction: &u32)
        ensures
            final(self).c == c_field(*instruction),
            final(self).c < 8,
            *final(self) == (Dinst { c: final(self).c, ..*old(self) }),
    {
        proof {
            assert(*instruction & 7 < 8) by (bit_vector);
            assert((1u32 << 3) - 1 == 7) by (bit_vector);
        }
        let f = Field { width: 3, lsb: 0 };
        self.c = *instruction & mask(f.width);
    }

    /// Extracts the 25-bit immediate of the immediate form into `self.val`.
    pub fn getv(&mut self, instruction: &u32)
        ensures
            final(self).val == val_field(*instruction),
            final(self).val < 0x200_0000,
            *final(self) == (Dinst { val: final(self).val, ..*old(self) }),
    {
        proof {
            assert(*instruction & 0x1ff_ffff < 0x200_0000) by (bit_vector);
            assert((1u32 << 25) - 1 == 0x1ff_ffff) by (bit_vector);
        }
        let f = Field { width: 25, lsb: 0 };
        self.val = *instruction & mask(f.width);
    }

    /// Extracts the register operand of the immediate form into `self.a`.
    pub fn geta2(&mut self, instruction: &u32)
        ensures
            final(self).a == ra_field(*instruction),
            final(self).a < 8,
            *final(self) == (Dinst { a: final(self).a, ..*old(self) }),
    {
        proof {
            assert((*instruction >> 25) & 7 < 8) by (bit_vector);
            assert((1u32 << 3) - 1 == 7) by (bit_vector);
        }
        let f = Field { width: 3, lsb: 25 };
        self.a = (*instruction >> f.lsb) & mask(f.width);
    }

    /// Decodes the opcode bits of an instruction word into `self.op`.
    pub fn op(&mut self, instruction: &u32)
        ensures
            final(self).op == op_of(op_field(*instruction)),
            *final(self) == (Dinst { op: final(self).op, ..*old(self) }),
    {
        proof {
            assert((1u32 << 4) - 1 == 0xf) by (bit_vector);
        }
        let f = Field { width: 4, lsb: 28 };
        let code = (*instruction >> f.lsb) & mask(f.width);
        self.op = if code == 0 {
            Op::CMov
        } else if code == 1 {
            Op::Load
        } else if code == 2 {
            Op::Stor
        } else if code == 3 {
            Op::ADD
        } else if code == 4 {
            Op::MULT
        } else if code == 5 {
            Op::DIV
        } else if code == 6 {
            Op::NAND
        } else if code == 7 {
            Op::HALT
        } else if code == 8 {
            Op::MapSeg
        } else if code == 9 {
            Op::UnMap
        } else if code == 10 {
            Op::Output
        } else if code == 11 {
            Op::Input
        } else if code == 12 {
            Op::LPro
        } else if code == 13 {
            Op::LVal
        } else {
            Op::FAIL
        };
    }
}

} // verus!
