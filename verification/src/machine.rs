//! The execution engine.
//!
//! A machine owns the register file, the segmented memory and a program
//! counter. Each [`UM::step`] call fetches the word at (segment 0,
//! program counter), decodes it and executes it, reporting the outcome as
//! a [`Step`] event. Input and output are carried out by the embedding
//! host: `step` hands it the byte to emit, or asks it for a byte that
//! [`UM::provide_input`] then stores.

use vstd::prelude::*;

use crate::dinst::{a_field, b_field, c_field, op_field, op_of, ra_field, val_field, Dinst, Op};
use crate::memory::{alloc_post, dealloc_post, dup_post, set_post, Memory};

verus! {

/// The four fatal faults of the instruction set, and the fault for an
/// output value outside the byte range.
#[derive(PartialEq, Eq, Structural, Clone, Copy, Debug)]
pub enum Fault {
    /// The opcode bits name no defined operation.
    DecodeFault,
    /// An unmapped segment identifier, or an offset at or beyond the end
    /// of a segment — including a program counter beyond segment 0.
    OutOfBounds,
    /// A division whose divisor register holds 0.
    DivideByZero,
    /// Freeing identifier 0 or an identifier that is not mapped.
    InvalidDeallocation,
    /// An output instruction whose register holds a value above 255.
    InvalidOutput,
}

/// What one executed instruction asks of the embedding host.
#[derive(PartialEq, Eq, Structural, Clone, Copy, Debug)]
pub enum Step {
    /// The instruction completed; fetch the next one.
    Continue,
    /// The machine halted cleanly.
    Halted,
    /// Emit this byte to the output collaborator, then fetch the next
    /// instruction.
    Output(u8),
    /// Read one byte from the input collaborator and hand it to
    /// [`UM::provide_input`] (or `None` at end of stream), then fetch the
    /// next instruction.
    Input,
    /// The machine faulted; execution is over.
    Fault(Fault),
}

/// Unsigned addition modulo 2^32.
pub open spec fn add32(x: u32, y: u32) -> u32 {
    ((x + y) % 0x1_0000_0000) as u32
}

/// Unsigned multiplication modulo 2^32.
pub open spec fn mul32(x: u32, y: u32) -> u32 {
    ((x * y) % 0x1_0000_0000) as u32
}

/// The universal machine: register file, segmented memory, program
/// counter, and the scratch slot for the instruction being decoded.
pub struct UM {
    pub registers: Vec<u32>,
    pub memory: Memory,
    pub prog_counter: usize,
    pub dinst: Dinst,
}

impl UM {
    /// The value of register `r`.
    pub open spec fn reg(self, r: u32) -> u32 {
        self.registers@[r as int]
    }

    /// Well-formedness: exactly eight registers, a well-formed memory,
    /// and decoded register operands inside the register file.
    pub open spec fn wf(self) -> bool {
        &&& self.registers@.len() == 8
        &&& self.memory.wf()
        &&& self.dinst.a < 8
        &&& self.dinst.b < 8
        &&& self.dinst.c < 8
    }

    /// Whether the program counter lies inside segment 0, so that a fetch
    /// can proceed.
    pub open spec fn fetch_ok(self) -> bool {
        (self.prog_counter as int) < self.memory.seg(0).len()
    }

    /// The instruction word that the program counter names.
    pub open spec fn cur_word(self) -> u32
        recommends
            self.fetch_ok(),
    {
        self.memory.seg(0)[self.prog_counter as int]
    }

    /// A machine in its initial state: all registers zero, the program
    /// text mapped as segment 0, and the program counter at its start.
    pub fn new(instructions: Vec<u32>) -> (r: UM)
        ensures
            r.wf(),
            r.registers@ == Seq::new(8, |i: int| 0u32),
            r.memory.segs@.len() == 1,
            r.memory.seg(0) == instructions@,
            r.memory.free().len() == 0,
            r.prog_counter == 0,
    {
        let mut registers: Vec<u32> = Vec::new();
        let mut i: usize = 0;
        while i < 8
            invariant
                i <= 8,
                registers@ == Seq::new(i as nat, |j: int| 0u32),
            decreases 8 - i,
        {
            registers.push(0);
            proof {
                assert(registers@ =~= Seq::new((i + 1) as nat, |j: int| 0u32));
            }
            i = i + 1;
        }
        UM {
            registers,
            memory: Memory::new(instructions),
            prog_counter: 0,
            dinst: Dinst { op: Op::FAIL, a: 0, b: 0, c: 0, val: 0 },
        }
    }

    /// Reads register `register`.
    pub fn read(&self, register: u32) -> (r: u32)
        requires
            self.wf(),
            register < 8,
        ensures
            r == self.reg(register),
    {
        self.registers[register as usize]
    }

    /// Writes `val` to register `register`.
    pub fn write(&mut self, val: u32, register: u32)
        requires
            old(self).wf(),
            register < 8,
        ensures
            final(self).wf(),
            final(self).registers@ == old(self).registers@.update(register as int, val),
            final(self).memory == old(self).memory,
            final(self).prog_counter == old(self).prog_counter,
            final(self).dinst == old(self).dinst,
    {
        self.registers.set(register as usize, val);
    }

    /// Reads the word at `offset` in the segment mapped at `id`.
    pub fn get(&self, id: u32, offset: u32) -> (r: Result<u32, Fault>)
        ensures
            r is Ok <==> self.memory.mapped(id as int) && (offset as int) < self.memory.seg(
                id as int,
            ).len(),
            r is Ok ==> r->Ok_0 == self.memory.seg(id as int)[offset as int],
            r is Err ==> r->Err_0 == Fault::OutOfBounds,
    {
        self.memory.get(id, offset)
    }

    /// Decodes the opcode bits of `instruction` into the scratch slot.
    pub fn op(&mut self, instruction: &u32)
        ensures
            final(self).dinst.op == op_of(op_field(*instruction)),
            final(self).dinst == (Dinst { op: final(self).dinst.op, ..old(self).dinst }),
            final(self).registers@ == old(self).registers@,
            final(self).memory == old(self).memory,
            final(self).prog_counter == old(self).prog_counter,
    {
        self.dinst.op(instruction);
    }

    /// Creates a zero-filled segment of `len` words; see
    /// [`Memory::allocate`].
    pub fn allocate(&mut self, len: usize) -> (id: usize)
        requires
            old(self).wf(),
            old(self).memory.can_allocate(),
        ensures
            final(self).wf(),
            alloc_post(old(self).memory, final(self).memory, len as int, id as int),
            final(self).registers@ == old(self).registers@,
            final(self).prog_counter == old(self).prog_counter,
            final(self).dinst == old(self).dinst,
    {
        self.memory.allocate(len)
    }

    /// Unmaps the segment at `id`; see [`Memory::deallocate`].
    pub fn deallocate(&mut self, id: usize) -> (r: Result<(), Fault>)
        requires
            old(self).wf(),
        ensures
            final(self).wf(),
            r is Ok <==> id != 0 && old(self).memory.mapped(id as int),
            r is Ok ==> dealloc_post(old(self).memory, final(self).memory, id)
                && final(self).registers@ == old(self).registers@ && final(self).prog_counter
                == old(self).prog_counter && final(self).dinst == old(self).dinst,
            r is Err ==> r->Err_0 == Fault::InvalidDeallocation && *final(self) == *old(self),
    {
        self.memory.deallocate(id)
    }

    /// Conditional move: when register C is non-zero, register A takes
    /// the value of register B; otherwise register A is unchanged.
    pub fn cdmov(&mut self)
        requires
            old(self).wf(),
            old(self).prog_counter < usize::MAX,
        ensures
            final(self).wf(),
            final(self).registers@ == (if old(self).reg(old(self).dinst.c) != 0 {
                old(self).registers@.update(
                    old(self).dinst.a as int,
                    old(self).reg(old(self).dinst.b),
                )
            } else {
                old(self).registers@
            }),
            final(self).memory == old(self).memory,
            final(self).prog_counter == old(self).prog_counter + 1,
            final(self).dinst == old(self).dinst,
    {
        self.prog_counter = self.prog_counter + 1;
        let instb = self.read(self.dinst.b);
        let instc = self.read(self.dinst.c);
        if instc != 0 {
            self.write(instb, self.dinst.a);
        }
    }

    /// Addition: register A takes the sum of registers B and C modulo
    /// 2^32.
    pub fn add(&mut self)
        requires
            old(self).wf(),
            old(self).prog_counter < usize::MAX,
        ensures
            final(self).wf(),
            final(self).registers@ == old(self).registers@.update(
                old(self).dinst.a as int,
                add32(old(self).reg(old(self).dinst.b), old(self).reg(old(self).dinst.c)),
            ),
            final(self).memory == old(self).memory,
            final(self).prog_counter == old(self).prog_counter + 1,
            final(self).dinst == old(self).dinst,
    {
        self.prog_counter = self.prog_counter + 1;
        let instb = self.read(self.dinst.b);
        let instc = self.read(self.dinst.c);
        self.write(instb.wrapping_add(instc), self.dinst.a);
    }

    /// Multiplication: register A takes the product of registers B and C
    /// modulo 2^32.
    pub fn mult(&mut self)
        requires
            old(self).wf(),
            old(self).prog_counter < usize::MAX,
        ensures
            final(self).wf(),
            final(self).registers@ == old(self).registers@.update(
                old(self).dinst.a as int,
                mul32(old(self).reg(old(self).dinst.b), old(self).reg(old(self).dinst.c)),
            ),
            final(self).memory == old(self).memory,
            final(self).prog_counter == old(self).prog_counter + 1,
            final(self).dinst == old(self).dinst,
    {
        self.prog_counter = self.prog_counter + 1;
        let instb = self.read(self.dinst.b);
        let instc = self.read(self.dinst.c);
        self.write(instb.wrapping_mul(instc), self.dinst.a);
    }

    /// Division: register A takes the truncating unsigned quotient of
    /// registers B and C. Faults with `DivideByZero`, leaving the machine
    /// unchanged, exactly when register C holds 0.
    pub fn div(&mut self) -> (r: Result<(), Fault>)
        requires
            old(self).wf(),
            old(self).prog_counter < usize::MAX,
        ensures
            final(self).wf(),
            r is Ok <==> old(self).reg(old(self).dinst.c) != 0,
            r is Ok ==> final(self).registers@ == old(self).registers@.update(
                old(self).dinst.a as int,
                old(self).reg(old(self).dinst.b) / old(self).reg(old(self).dinst.c),
            ) && final(self).memory == old(self).memory && final(self).prog_counter == old(
                self,
            ).prog_counter + 1 && final(self).dinst == old(self).dinst,
            r is Err ==> r->Err_0 == Fault::DivideByZero && *final(self) == *old(self),
    {
        let instb = self.read(self.dinst.b);
        let instc = self.read(self.dinst.c);
        if instc == 0 {
            return Err(Fault::DivideByZero);
        }
        self.prog_counter = self.prog_counter + 1;
        self.write(instb / instc, self.dinst.a);
        Ok(())
    }

    /// Nand: register A takes the bitwise complement of the conjunction
    /// of registers B and C.
    pub fn nand(&mut self)
        requires
            old(self).wf(),
            old(self).prog_counter < usize::MAX,
        ensures
            final(self).wf(),
            final(self).registers@ == old(self).registers@.update(
                old(self).dinst.a as int,
                !(old(self).reg(old(self).dinst.b) & old(self).reg(old(self).dinst.c)),
            ),
            final(self).memory == old(self).memory,
            final(self).prog_counter == old(self).prog_counter + 1,
            final(self).dinst == old(self).dinst,
    {
        self.prog_counter = self.prog_counter + 1;
        let instb = self.read(self.dinst.b);
        let instc = self.read(self.dinst.c);
        self.write(!(instb & instc), self.dinst.a);
    }

    /// Load value: register A (of the immediate form) takes the decoded
    /// 25-bit immediate, zero-extended.
    pub fn vload(&mut self)
        requires
            old(self).wf(),
            old(self).prog_counter < usize::MAX,
        ensures
            final(self).wf(),
            final(self).registers@ == old(self).registers@.update(
                old(self).dinst.a as int,
                old(self).dinst.val,
            ),
            final(self).memory == old(self).memory,
            final(self).prog_counter == old(self).prog_counter + 1,
            final(self).dinst == old(self).dinst,
    {
        self.prog_counter = self.prog_counter + 1;
        self.write(self.dinst.val, self.dinst.a);
    }

    /// Segmented load: register A takes the word of segment register-B at
    /// offset register-C. Faults with `OutOfBounds`, leaving the machine
    /// unchanged, exactly when that segment is unmapped or the offset
    /// lies at or beyond its end.
    pub fn sload(&mut self) -> (r: Result<(), Fault>)
        requires
            old(self).wf(),
            old(self).prog_counter < usize::MAX,
        ensures
            final(self).wf(),
            r is Ok <==> old(self).memory.mapped(old(self).reg(old(self).dinst.b) as int) && (old(
                self,
            ).reg(old(self).dinst.c) as int) < old(self).memory.seg(
                old(self).reg(old(self).dinst.b) as int,
            ).len(),
            r is Ok ==> final(self).registers@ == old(self).registers@.update(
                old(self).dinst.a as int,
                old(self).memory.seg(old(self).reg(old(self).dinst.b) as int)[old(self).reg(
                    old(self).dinst.c,
                ) as int],
            ) && final(self).memory == old(self).memory && final(self).prog_counter == old(
                self,
            ).prog_counter + 1 && final(self).dinst == old(self).dinst,
            r is Err ==> r->Err_0 == Fault::OutOfBounds && *final(self) == *old(self),
    {
        let instb = self.read(self.dinst.b);
        let instc = self.read(self.dinst.c);
        match self.get(instb, instc) {
            Ok(got) => {
                self.prog_counter = self.prog_counter + 1;
                self.write(got, self.dinst.a);
                Ok(())
            },
            Err(f) => Err(f),
        }
    }

    /// Segmented store: the word of segment register-A at offset
    /// register-B takes the value of register C. Faults with
    /// `OutOfBounds`, leaving the machine unchanged, exactly when that
    /// segment is unmapped or the offset lies at or beyond its end.
    pub fn store(&mut self) -> (r: Result<(), Fault>)
        requires
            old(self).wf(),
            old(self).prog_counter < usize::MAX,
        ensures
            final(self).wf(),
            r is Ok <==> old(self).memory.mapped(old(self).reg(old(self).dinst.a) as int) && (old(
                self,
            ).reg(old(self).dinst.b) as int) < old(self).memory.seg(
                old(self).reg(old(self).dinst.a) as int,
            ).len(),
            r is Ok ==> set_post(
                old(self).memory,
                final(self).memory,
                old(self).reg(old(self).dinst.a) as int,
                old(self).reg(old(self).dinst.b) as int,
                old(self).reg(old(self).dinst.c),
            ) && final(self).registers@ == old(self).registers@ && final(self).prog_counter == old(
                self,
            ).prog_counter + 1 && final(self).dinst == old(self).dinst,
            r is Err ==> r->Err_0 == Fault::OutOfBounds && *final(self) == *old(self),
    {
        let insta = self.read(self.dinst.a);
        let instb = self.read(self.dinst.b);
        let instc = self.read(self.dinst.c);
        match self.memory.set(insta, instb, instc) {
            Ok(()) => {
                self.prog_counter = self.prog_counter + 1;
                Ok(())
            },
            Err(f) => Err(f),
        }
    }

    /// Map segment: a zero-filled segment of register-C words is mapped
    /// at a fresh identifier — the oldest freed one, else one past the
    /// current maximum — and register B takes that identifier.
    pub fn map(&mut self)
        requires
            old(self).wf(),
            old(self).prog_counter < usize::MAX,
            old(self).memory.can_allocate(),
        ensures
            final(self).wf(),
            alloc_post(
                old(self).memory,
                final(self).memory,
                old(self).reg(old(self).dinst.c) as int,
                old(self).memory.next_id(),
            ),
            final(self).registers@ == old(self).registers@.update(
                old(self).dinst.b as int,
                old(self).memory.next_id() as u32,
            ),
            final(self).prog_counter == old(self).prog_counter + 1,
            final(self).dinst == old(self).dinst,
    {
        self.prog_counter = self.prog_counter + 1;
        let instc = self.read(self.dinst.c);
        let allo_id = self.allocate(instc as usize);
        proof {
            assert(allo_id < 0x1_0000_0000);
        }
        self.write(allo_id as u32, self.dinst.b);
    }

    /// Unmap segment: the segment at identifier register-C is unmapped
    /// and its identifier queued for reuse. Faults with
    /// `InvalidDeallocation`, leaving the machine unchanged, exactly when
    /// register C holds 0 or an unmapped identifier.
    pub fn unmap(&mut self) -> (r: Result<(), Fault>)
        requires
            old(self).wf(),
            old(self).prog_counter < usize::MAX,
        ensures
            final(self).wf(),
            r is Ok <==> old(self).reg(old(self).dinst.c) != 0 && old(self).memory.mapped(
                old(self).reg(old(self).dinst.c) as int,
            ),
            r is Ok ==> dealloc_post(
                old(self).memory,
                final(self).memory,
                old(self).reg(old(self).dinst.c) as usize,
            ) && final(self).registers@ == old(self).registers@ && final(self).prog_counter == old(
                self,
            ).prog_counter + 1 && final(self).dinst == old(self).dinst,
            r is Err ==> r->Err_0 == Fault::InvalidDeallocation && *final(self) == *old(self),
    {
        let instc = self.read(self.dinst.c);
        match self.memory.deallocate(instc as usize) {
            Ok(()) => {
                self.prog_counter = self.prog_counter + 1;
                Ok(())
            },
            Err(f) => Err(f),
        }
    }

    /// Load program: segment 0 is replaced by an independent copy of the
    /// segment at identifier register-B (a no-op copy when that is 0),
    /// and the program counter jumps to register C. Faults with
    /// `OutOfBounds`, leaving the machine unchanged, exactly when that
    /// identifier is unmapped.
    pub fn pload(&mut self) -> (r: Result<(), Fault>)
        requires
            old(self).wf(),
        ensures
            final(self).wf(),
            r is Ok <==> old(self).memory.mapped(old(self).reg(old(self).dinst.b) as int),
            r is Ok ==> dup_post(
                old(self).memory,
                final(self).memory,
                old(self).reg(old(self).dinst.b) as int,
            ) && final(self).registers@ == old(self).registers@ && final(self).prog_counter == old(
                self,
            ).reg(old(self).dinst.c) as usize && final(self).dinst == old(self).dinst,
            r is Err ==> r->Err_0 == Fault::OutOfBounds && *final(self) == *old(self),
    {
        let instb = self.read(self.dinst.b);
        let instc = self.read(self.dinst.c);
        match self.memory.duplicate_into_zero(instb as usize) {
            Ok(()) => {
                self.prog_counter = instc as usize;
                Ok(())
            },
            Err(f) => Err(f),
        }
    }

    /// Stores the byte that the input collaborator yielded into register
    /// C of the pending input instruction; end of stream (`None`) stores
    /// the all-ones word.
    pub fn provide_input(&mut self, byte: Option<u8>)
        requires
            old(self).wf(),
        ensures
            final(self).wf(),
            final(self).registers@ == old(self).registers@.update(
                old(self).dinst.c as int,
                match byte {
                    Some(b) => b as u32,
                    None => 0xffff_ffffu32,
                },
            ),
            final(self).memory == old(self).memory,
            final(self).prog_counter == old(self).prog_counter,
            final(self).dinst == old(self).dinst,
    {
        match byte {
            Some(b) => self.write(b as u32, self.dinst.c),
            None => self.write(0xffff_ffff, self.dinst.c),
        }
    }

    /// The instruction word that the program counter names in segment 0.
    pub fn get_i(&self) -> (r: u32)
        requires
            self.wf(),
            self.fetch_ok(),
        ensures
            r == self.cur_word(),
    {
        match &self.memory.segs[0] {
            Some(s) => s[self.prog_counter],
            None => {
                proof {
                    assert(false);
                }
                0
            },
        }
    }

    /// Fetches, decodes and executes one instruction.
    ///
    /// A program counter outside segment 0 is itself an `OutOfBounds`
    /// fault; otherwise the outcome and the new state are exactly what
    /// [`step_effect`] states for the fetched word. Every fault leaves
    /// registers, memory and program counter as they were.
    pub fn step(&mut self) -> (r: Step)
        requires
            old(self).wf(),
            old(self).memory.can_allocate(),
        ensures
            final(self).wf(),
            !old(self).fetch_ok() ==> r == Step::Fault(Fault::OutOfBounds) && *final(self) == *old(
                self,
            ),
            old(self).fetch_ok() ==> step_effect(*old(self), *final(self), r),
    {
        let len0: usize = match &self.memory.segs[0] {
            Some(s) => s.len(),
            None => {
                proof {
                    assert(false);
                }
                0
            },
        };
        if self.prog_counter >= len0 {
            return Step::Fault(Fault::OutOfBounds);
        }
        let inst = self.get_i();
        self.op(&inst);
        match self.dinst.op {
            Op::CMov => {
                self.dinst.geta(&inst);
                self.dinst.getb(&inst);
                self.dinst.getc(&inst);
                self.cdmov();
                Step::Continue
            },
            Op::Load => {
                self.dinst.geta(&inst);
                self.dinst.getb(&inst);
                self.dinst.getc(&inst);
                match self.sload() {
                    Ok(()) => Step::Continue,
                    Err(f) => Step::Fault(f),
                }
            },
            Op::Stor => {
                self.dinst.geta(&inst);
                self.dinst.getb(&inst);
                self.dinst.getc(&inst);
                match self.store() {
                    Ok(()) => Step::Continue,
                    Err(f) => Step::Fault(f),
                }
            },
            Op::ADD => {
                self.dinst.geta(&inst);
                self.dinst.getb(&inst);
                self.dinst.getc(&inst);
                self.add();
                Step::Continue
            },
            Op::MULT => {
                self.dinst.geta(&inst);
                self.dinst.getb(&inst);
                self.dinst.getc(&inst);
                self.mult();
                Step::Continue
            },
            Op::DIV => {
                self.dinst.geta(&inst);
                self.dinst.getb(&inst);
                self.dinst.getc(&inst);
                match self.div() {
                    Ok(()) => Step::Continue,
                    Err(f) => Step::Fault(f),
                }
            },
            Op::NAND => {
                self.dinst.geta(&inst);
                self.dinst.getb(&inst);
                self.dinst.getc(&inst);
                self.nand();
                Step::Continue
            },
            Op::HALT => Step::Halted,
            Op::MapSeg => {
                self.dinst.getb(&inst);
                self.dinst.getc(&inst);
                self.map();
                Step::Continue
            },
            Op::UnMap => {
                self.dinst.getc(&inst);
                match self.unmap() {
                    Ok(()) => Step::Continue,
                    Err(f) => Step::Fault(f),
                }
            },
            Op::Output => {
                self.dinst.getc(&inst);
                let v = self.read(self.dinst.c);
                if v < 256 {
                    self.prog_counter = self.prog_counter + 1;
                    Step::Output(v as u8)
                } else {
                    Step::Fault(Fault::InvalidOutput)
                }
            },
            Op::Input => {
                self.dinst.getc(&inst);
                self.prog_counter = self.prog_counter + 1;
                Step::Input
            },
            Op::LPro => {
                self.dinst.getb(&inst);
                self.dinst.getc(&inst);
                match self.pload() {
                    Ok(()) => Step::Continue,
                    Err(f) => Step::Fault(f),
                }
            },
            Op::LVal => {
                self.dinst.geta2(&inst);
                self.dinst.getv(&inst);
                self.vload();
                Step::Continue
            },
            Op::FAIL => Step::Fault(Fault::DecodeFault),
        }
    }
}

/// Whether registers, memory and program counter all kept their values —
/// what a fault leaves behind.
pub open spec fn unchanged_state(pre: UM, post: UM) -> bool {
    &&& post.registers@ == pre.registers@
    &&& post.memory == pre.memory
    &&& post.prog_counter == pre.prog_counter
}

/// What one executed instruction does, as a relation between the state
/// before, the state after and the reported outcome, by the opcode of the
/// fetched word `pre.cur_word()`.
pub open spec fn step_effect(pre: UM, post: UM, r: Step) -> bool {
    let w = pre.cur_word();
    let a = a_field(w);
    let b = b_field(w);
    let c = c_field(w);
    let ra = pre.reg(a);
    let rb = pre.reg(b);
    let rc = pre.reg(c);
    match op_of(op_field(w)) {
        Op::CMov => {
            &&& r == Step::Continue
            &&& post.registers@ == (if rc != 0 {
                pre.registers@.update(a as int, rb)
            } else {
                pre.registers@
            })
            &&& post.memory == pre.memory
            &&& post.prog_counter == pre.prog_counter + 1
        },
        Op::Load => {
            if pre.memory.mapped(rb as int) && (rc as int) < pre.memory.seg(rb as int).len() {
                &&& r == Step::Continue
                &&& post.registers@ == pre.registers@.update(
                    a as int,
                    pre.memory.seg(rb as int)[rc as int],
                )
                &&& post.memory == pre.memory
                &&& post.prog_counter == pre.prog_counter + 1
            } else {
                r == Step::Fault(Fault::OutOfBounds) && unchanged_state(pre, post)
            }
        },
        Op::Stor => {
            if pre.memory.mapped(ra as int) && (rb as int) < pre.memory.seg(ra as int).len() {
                &&& r == Step::Continue
                &&& post.registers@ == pre.registers@
                &&& set_post(pre.memory, post.memory, ra as int, rb as int, rc)
                &&& post.prog_counter == pre.prog_counter + 1
            } else {
                r == Step::Fault(Fault::OutOfBounds) && unchanged_state(pre, post)
            }
        },
        Op::ADD => {
            &&& r == Step::Continue
            &&& post.registers@ == pre.registers@.update(a as int, add32(rb, rc))
            &&& post.memory == pre.memory
            &&& post.prog_counter == pre.prog_counter + 1
        },
        Op::MULT => {
            &&& r == Step::Continue
            &&& post.registers@ == pre.registers@.update(a as int, mul32(rb, rc))
            &&& post.memory == pre.memory
            &&& post.prog_counter == pre.prog_counter + 1
        },
        Op::DIV => {
            if rc != 0 {
                &&& r == Step::Continue
                &&& post.registers@ == pre.registers@.update(a as int, rb / rc)
                &&& post.memory == pre.memory
                &&& post.prog_counter == pre.prog_counter + 1
            } else {
                r == Step::Fault(Fault::DivideByZero) && unchanged_state(pre, post)
            }
        },
        Op::NAND => {
            &&& r == Step::Continue
            &&& post.registers@ == pre.registers@.update(a as int, !(rb & rc))
            &&& post.memory == pre.memory
            &&& post.prog_counter == pre.prog_counter + 1
        },
        Op::HALT => r == Step::Halted && unchanged_state(pre, post),
        Op::MapSeg => {
            &&& r == Step::Continue
            &&& alloc_post(pre.memory, post.memory, rc as int, pre.memory.next_id())
            &&& post.registers@ == pre.registers@.update(b as int, pre.memory.next_id() as u32)
            &&& post.prog_counter == pre.prog_counter + 1
        },
        Op::UnMap => {
            if rc != 0 && pre.memory.mapped(rc as int) {
                &&& r == Step::Continue
                &&& dealloc_post(pre.memory, post.memory, rc as usize)
                &&& post.registers@ == pre.registers@
                &&& post.prog_counter == pre.prog_counter + 1
            } else {
                r == Step::Fault(Fault::InvalidDeallocation) && unchanged_state(pre, post)
            }
        },
        Op::Output => {
            if rc < 256 {
                &&& r == Step::Output(rc as u8)
                &&& post.registers@ == pre.registers@
                &&& post.memory == pre.memory
                &&& post.prog_counter == pre.prog_counter + 1
            } else {
                r == Step::Fault(Fault::InvalidOutput) && unchanged_state(pre, post)
            }
        },
        Op::Input => {
            &&& r == Step::Input
            &&& post.registers@ == pre.registers@
            &&& post.memory == pre.memory
            &&& post.prog_counter == pre.prog_counter + 1
            &&& post.dinst.c == c
        },
        Op::LPro => {
            if pre.memory.mapped(rb as int) {
                &&& r == Step::Continue
                &&& dup_post(pre.memory, post.memory, rb as int)
                &&& post.registers@ == pre.registers@
                &&& post.prog_counter == rc as usize
            } else {
                r == Step::Fault(Fault::OutOfBounds) && unchanged_state(pre, post)
            }
        },
        Op::LVal => {
            &&& r == Step::Continue
            &&& post.registers@ == pre.registers@.update(ra_field(w) as int, val_field(w))
            &&& post.memory == pre.memory
            &&& post.prog_counter == pre.prog_counter + 1
        },
        Op::FAIL => r == Step::Fault(Fault::DecodeFault) && unchanged_state(pre, post),
    }
}

} // verus!
