use vstd::prelude::*;

use super::alu::{
    add16, add16_flags, add8, add8_flags, add_signed, add_signed_flags, logic_flags, sub8,
    sub8_flags,
};
use super::instructions::{
    ArithmeticTarget, Instruction, JumpTest, LoadByteSource, LoadByteTarget, LoadType,
    LoadWordSource, LoadWordTarget, StackTarget, WordTarget, PREFIX,
};
use super::registers::{high_byte, low_byte, word, FlagsRegister, Registers};

verus! {

/// Why the processor cannot execute its next instruction.
#[derive(Clone, Copy, Debug, PartialEq, Eq, Structural)]
pub enum Fault {
    /// The fetched opcode, of the prefixed table where `prefixed` is set,
    /// decodes to nothing.
    UnknownOpcode { opcode: u8, prefixed: bool },
    /// The instruction would access `address`, which lies outside the
    /// memory.
    OutOfRange { address: u32 },
}

/// The state of the processor as a mathematical value: the register file,
/// the program counter, the stack pointer and the bytes of memory by
/// address.
pub struct CpuState {
    pub registers: Registers,
    pub pc: u16,
    pub sp: u16,
    pub memory: Seq<u8>,
}

impl CpuState {
    /// The memory holds one byte for each 16-bit address.
    pub open spec fn wf(self) -> bool {
        self.memory.len() == 0x10000
    }

    /// The byte at `address`.
    pub open spec fn read(self, address: u16) -> u8 {
        self.memory[address as int]
    }

    /// The little-endian word at `address`: its low byte there, its high
    /// byte at the address after it, wrapping at the end of memory.
    pub open spec fn read_word(self, address: u16) -> u16 {
        word(self.read(address.wrapping_add(1)), self.read(address))
    }

    /// This state with `val` stored at `address`.
    pub open spec fn write(self, address: u16, val: u8) -> CpuState {
        CpuState { memory: self.memory.update(address as int, val), ..self }
    }

    /// This state with `val` stored as a little-endian word at `address` and
    /// the address after it, which must exist.
    pub open spec fn write_word(self, address: u16, val: u16) -> CpuState
        recommends
            address < 0xFFFF,
    {
        CpuState {
            memory: self.memory.update(address as int, low_byte(val)).update(
                address + 1,
                high_byte(val),
            ),
            ..self
        }
    }

    /// This state with other flags.
    pub open spec fn with_flags(self, flags: FlagsRegister) -> CpuState {
        CpuState { registers: Registers { f: flags, ..self.registers }, ..self }
    }

    /// This state with another accumulator.
    pub open spec fn with_a(self, a: u8) -> CpuState {
        CpuState { registers: Registers { a, ..self.registers }, ..self }
    }

    /// This state with HL set to `value`.
    pub open spec fn with_hl(self, value: u16) -> CpuState {
        CpuState { registers: self.registers.with_hl(value), ..self }
    }

    /// The byte after the opcode.
    pub open spec fn next_byte(self) -> u8 {
        self.read(self.pc.wrapping_add(1))
    }

    /// The little-endian word after the opcode.
    pub open spec fn next_word(self) -> u16 {
        self.read_word(self.pc.wrapping_add(1))
    }

    /// Whether a condition holds of the current flags.
    pub open spec fn holds(self, test: JumpTest) -> bool {
        match test {
            JumpTest::NotZero => !self.registers.f.zero,
            JumpTest::Zero => self.registers.f.zero,
            JumpTest::NotCarry => !self.registers.f.carry,
            JumpTest::Carry => self.registers.f.carry,
            JumpTest::Always => true,
        }
    }

    /// The value of an 8-bit operand.
    pub open spec fn operand(self, target: ArithmeticTarget) -> u8 {
        match target {
            ArithmeticTarget::A => self.registers.a,
            ArithmeticTarget::B => self.registers.b,
            ArithmeticTarget::C => self.registers.c,
            ArithmeticTarget::D => self.registers.d,
            ArithmeticTarget::E => self.registers.e,
            ArithmeticTarget::H => self.registers.h,
            ArithmeticTarget::L => self.registers.l,
            ArithmeticTarget::HL => self.read(self.registers.hl()),
            ArithmeticTarget::N8 => self.next_byte(),
        }
    }

    /// The value of a 16-bit operand.
    pub open spec fn pair(self, target: WordTarget) -> u16 {
        match target {
            WordTarget::BC => self.registers.bc(),
            WordTarget::DE => self.registers.de(),
            WordTarget::HL => self.registers.hl(),
            WordTarget::SP => self.sp,
        }
    }

    /// The value of a register pair that the stack instructions move.
    pub open spec fn stack_pair(self, target: StackTarget) -> u16 {
        match target {
            StackTarget::BC => self.registers.bc(),
            StackTarget::DE => self.registers.de(),
            StackTarget::HL => self.registers.hl(),
            StackTarget::AF => self.registers.af(),
        }
    }

    /// This state with a register pair of the stack instructions set to
    /// `value`.
    pub open spec fn with_stack_pair(self, target: StackTarget, value: u16) -> CpuState {
        CpuState {
            registers: match target {
                StackTarget::BC => self.registers.with_bc(value),
                StackTarget::DE => self.registers.with_de(value),
                StackTarget::HL => self.registers.with_hl(value),
                StackTarget::AF => self.registers.with_af(value),
            },
            ..self
        }
    }

    /// This state after `value` is pushed: the stack pointer goes down by
    /// one and the high byte is stored there, then down by one again and
    /// the low byte is stored there.
    pub open spec fn pushed(self, value: u16) -> CpuState {
        let high_at = self.sp.wrapping_sub(1);
        let low_at = high_at.wrapping_sub(1);
        CpuState { sp: low_at, ..self.write(high_at, high_byte(value)).write(low_at, low_byte(value)) }
    }

    /// The word on top of the stack: its low byte at the stack pointer, its
    /// high byte above.
    pub open spec fn top(self) -> u16 {
        self.read_word(self.sp)
    }

    /// This state after a pop: the stack pointer has gone up by two.
    pub open spec fn popped(self) -> CpuState {
        CpuState { sp: self.sp.wrapping_add(1).wrapping_add(1), ..self }
    }

    /// The byte that a byte load reads.
    pub open spec fn source_byte(self, source: LoadByteSource) -> u8 {
        match source {
            LoadByteSource::A => self.registers.a,
            LoadByteSource::B => self.registers.b,
            LoadByteSource::C => self.registers.c,
            LoadByteSource::D => self.registers.d,
            LoadByteSource::E => self.registers.e,
            LoadByteSource::H => self.registers.h,
            LoadByteSource::L => self.registers.l,
            LoadByteSource::D8 => self.next_byte(),
            LoadByteSource::HL | LoadByteSource::HLI | LoadByteSource::HLD => self.read(
                self.registers.hl(),
            ),
            LoadByteSource::BC => self.read(self.registers.bc()),
            LoadByteSource::DE => self.read(self.registers.de()),
            LoadByteSource::D16 => self.read(self.next_word()),
            LoadByteSource::ADRC => self.read((0xFF00 + self.registers.c) as u16),
            LoadByteSource::A8 => self.read((0xFF00 + self.next_byte()) as u16),
        }
    }

    /// This state after a byte load has stored `val` in its target.
    pub open spec fn store_byte(self, target: LoadByteTarget, val: u8) -> CpuState {
        match target {
            LoadByteTarget::A => CpuState { registers: Registers { a: val, ..self.registers }, ..self },
            LoadByteTarget::B => CpuState { registers: Registers { b: val, ..self.registers }, ..self },
            LoadByteTarget::C => CpuState { registers: Registers { c: val, ..self.registers }, ..self },
            LoadByteTarget::D => CpuState { registers: Registers { d: val, ..self.registers }, ..self },
            LoadByteTarget::E => CpuState { registers: Registers { e: val, ..self.registers }, ..self },
            LoadByteTarget::H => CpuState { registers: Registers { h: val, ..self.registers }, ..self },
            LoadByteTarget::L => CpuState { registers: Registers { l: val, ..self.registers }, ..self },
            LoadByteTarget::HL | LoadByteTarget::HLI | LoadByteTarget::HLD => self.write(
                self.registers.hl(),
                val,
            ),
            LoadByteTarget::BC => self.write(self.registers.bc(), val),
            LoadByteTarget::DE => self.write(self.registers.de(), val),
            LoadByteTarget::D16 => self.write(self.next_word(), val),
            LoadByteTarget::ADRC => self.write((0xFF00 + self.registers.c) as u16, val),
            LoadByteTarget::A8 => self.write((0xFF00 + self.next_byte()) as u16, val),
        }
    }

    /// This state after a byte load: the byte moves from source to target,
    /// then HL goes up by one where either side is tagged with increment,
    /// then down by one where either side is tagged with decrement.
    pub open spec fn byte_loaded(self, target: LoadByteTarget, source: LoadByteSource) -> CpuState {
        let moved = self.store_byte(target, self.source_byte(source));
        let raised = if source == LoadByteSource::HLI || target == LoadByteTarget::HLI {
            moved.with_hl(moved.registers.hl().wrapping_add(1))
        } else {
            moved
        };
        if source == LoadByteSource::HLD || target == LoadByteTarget::HLD {
            raised.with_hl(raised.registers.hl().wrapping_sub(1))
        } else {
            raised
        }
    }

    /// The word that a word load reads. For the stack pointer plus a signed
    /// offset it is their sum; the stack pointer itself stays.
    pub open spec fn source_word(self, source: LoadWordSource) -> u16 {
        match source {
            LoadWordSource::D16 => self.next_word(),
            LoadWordSource::SP => self.sp,
            LoadWordSource::HL => self.registers.hl(),
            LoadWordSource::SP8 => add_signed(self.sp, self.next_byte()),
        }
    }

    /// This state after a word load has stored `val` in its target.
    pub open spec fn store_word(self, target: LoadWordTarget, val: u16) -> CpuState {
        match target {
            LoadWordTarget::BC => CpuState { registers: self.registers.with_bc(val), ..self },
            LoadWordTarget::DE => CpuState { registers: self.registers.with_de(val), ..self },
            LoadWordTarget::HL => CpuState { registers: self.registers.with_hl(val), ..self },
            LoadWordTarget::SP => CpuState { sp: val, ..self },
            LoadWordTarget::A16 => self.write_word(self.next_word(), val),
        }
    }

    /// This state after a word load: reading the stack pointer plus a signed
    /// offset sets the flags of that addition, then the word is stored.
    pub open spec fn word_loaded(self, target: LoadWordTarget, source: LoadWordSource) -> CpuState {
        let val = self.source_word(source);
        let flagged = if source == LoadWordSource::SP8 {
            self.with_flags(add_signed_flags(self.sp, self.next_byte()))
        } else {
            self
        };
        flagged.store_word(target, val)
    }

    /// Whether executing the instruction would access memory that does not
    /// exist: only a word stored at the last address does, as its high byte
    /// would lie beyond the end of memory.
    pub open spec fn faults(self, instruction: Instruction) -> bool {
        instruction matches Instruction::LD(LoadType::Word(LoadWordTarget::A16, _))
            && self.next_word() == 0xFFFF
    }

    /// This state after the instruction has had its effect on registers,
    /// flags, stack pointer and memory. The program counter is left as it
    /// is: `next_pc` says where it goes.
    pub open spec fn executed(self, instruction: Instruction) -> CpuState {
        let a = self.registers.a;
        let carry = self.registers.f.carry;
        match instruction {
            Instruction::NOP => self,
            Instruction::ADD(target) => {
                let val = self.operand(target);
                self.with_flags(add8_flags(a, val, false)).with_a(add8(a, val, false))
            },
            Instruction::ADC(target) => {
                let val = self.operand(target);
                self.with_flags(add8_flags(a, val, carry)).with_a(add8(a, val, carry))
            },
            Instruction::SUB(target) => {
                let val = self.operand(target);
                self.with_flags(sub8_flags(a, val, false)).with_a(sub8(a, val, false))
            },
            Instruction::SBC(target) => {
                let val = self.operand(target);
                self.with_flags(sub8_flags(a, val, carry)).with_a(sub8(a, val, carry))
            },
            Instruction::CP(target) => self.with_flags(
                sub8_flags(a, self.operand(target), false),
            ),
            Instruction::AND(target) => {
                let result = a & self.operand(target);
                self.with_flags(logic_flags(result, true)).with_a(result)
            },
            Instruction::OR(target) => {
                let result = a | self.operand(target);
                self.with_flags(logic_flags(result, false)).with_a(result)
            },
            Instruction::XOR(target) => {
                let result = a ^ self.operand(target);
                self.with_flags(logic_flags(result, false)).with_a(result)
            },
            Instruction::ADDHL(target) => {
                let hl = self.registers.hl();
                let val = self.pair(target);
                self.with_flags(add16_flags(hl, val, self.registers.f)).with_hl(add16(hl, val))
            },
            Instruction::ADDSP => CpuState {
                sp: add_signed(self.sp, self.next_byte()),
                ..self.with_flags(add_signed_flags(self.sp, self.next_byte()))
            },
            Instruction::JP(_) => self,
            Instruction::LD(LoadType::Byte(target, source)) => self.byte_loaded(target, source),
            Instruction::LD(LoadType::Word(target, source)) => self.word_loaded(target, source),
            Instruction::PUSH(target) => self.pushed(self.stack_pair(target)),
            Instruction::POP(target) => self.popped().with_stack_pair(target, self.top()),
            Instruction::CALL(test) => if self.holds(test) {
                self.pushed(self.pc.wrapping_add(3))
            } else {
                self
            },
            Instruction::RET(test) => if self.holds(test) {
                self.popped()
            } else {
                self
            },
        }
    }

    /// The program counter after the instruction. A jump or a call whose
    /// condition holds goes to the word after the opcode, which a call reads
    /// once the return address is on the stack; a return whose condition
    /// holds goes to the word on top of the stack. Everything else goes on
    /// by the length of the instruction.
    pub open spec fn next_pc(self, instruction: Instruction) -> u16 {
        match instruction {
            Instruction::JP(test) if self.holds(test) => self.next_word(),
            Instruction::CALL(test) if self.holds(test) => self.pushed(
                self.pc.wrapping_add(3),
            ).next_word(),
            Instruction::RET(test) if self.holds(test) => self.top(),
            _ => self.pc.wrapping_add(instruction.spec_length() as u16),
        }
    }

    /// The opcode that the next fetch reads, and whether it is of the
    /// prefixed table: the byte at the program counter or, where that byte
    /// is the prefix, the byte after it.
    pub open spec fn fetched(self) -> (u8, bool) {
        if self.read(self.pc) == PREFIX {
            (self.next_byte(), true)
        } else {
            (self.read(self.pc), false)
        }
    }

    /// Why the next instruction cannot be executed, if it cannot: its opcode
    /// decodes to nothing, or the instruction would access memory that does
    /// not exist.
    pub open spec fn fault(self) -> Option<Fault> {
        let (opcode, prefixed) = self.fetched();
        match Instruction::decoded(opcode, prefixed) {
            None => Some(Fault::UnknownOpcode { opcode, prefixed }),
            Some((instruction, _, _)) => if self.faults(instruction) {
                Some(Fault::OutOfRange { address: 0x10000 })
            } else {
                None
            },
        }
    }

    /// This state after one whole instruction: fetched, decoded, executed,
    /// and the program counter set to where the instruction sends it.
    pub open spec fn stepped(self) -> CpuState
        recommends
            self.fault() is None,
    {
        let (opcode, prefixed) = self.fetched();
        let instruction = Instruction::decoded(opcode, prefixed).unwrap().0;
        CpuState { pc: self.next_pc(instruction), ..self.executed(instruction) }
    }
}

impl CpuState {
    /// The 8-bit arithmetic and logic instructions set the accumulator and
    /// the flags by these formulas, where `a` is the accumulator before,
    /// `v` the operand and `c` the carry flag before, as 0 or 1. A compare
    /// sets the flags of a subtraction and changes nothing else.
    pub proof fn lemma_arithmetic_flags(self, target: ArithmeticTarget)
        ensures
            ({
                let a = self.registers.a as int;
                let v = self.operand(target) as int;
                let c: int = if self.registers.f.carry {
                    1
                } else {
                    0
                };
                let added = self.executed(Instruction::ADD(target)).registers;
                let added_c = self.executed(Instruction::ADC(target)).registers;
                let subtracted = self.executed(Instruction::SUB(target)).registers;
                let subtracted_c = self.executed(Instruction::SBC(target)).registers;
                let compared = self.executed(Instruction::CP(target));
                let anded = self.executed(Instruction::AND(target)).registers;
                let ored = self.executed(Instruction::OR(target)).registers;
                let xored = self.executed(Instruction::XOR(target)).registers;
                &&& added.a == (a + v) % 256
                &&& added.f == FlagsRegister {
                    zero: (a + v) % 256 == 0,
                    subtract: false,
                    half_carry: a % 16 + v % 16 > 15,
                    carry: a + v > 255,
                }
                &&& added_c.a == (a + v + c) % 256
                &&& added_c.f == FlagsRegister {
                    zero: (a + v + c) % 256 == 0,
                    subtract: false,
                    half_carry: a % 16 + v % 16 + c > 15,
                    carry: a + v + c > 255,
                }
                &&& subtracted.a == (a - v) % 256
                &&& subtracted.f == FlagsRegister {
                    zero: a == v,
                    subtract: true,
                    half_carry: a % 16 < v % 16,
                    carry: a < v,
                }
                &&& subtracted_c.a == (a - v - c) % 256
                &&& subtracted_c.f == FlagsRegister {
                    zero: (a - v - c) % 256 == 0,
                    subtract: true,
                    half_carry: a % 16 < v % 16 + c,
                    carry: a < v + c,
                }
                &&& compared == self.with_flags(subtracted.f)
                &&& compared.registers.a == a
                &&& anded.a == self.registers.a & self.operand(target)
                &&& anded.f == FlagsRegister {
                    zero: anded.a == 0,
                    subtract: false,
                    half_carry: true,
                    carry: false,
                }
                &&& ored.a == self.registers.a | self.operand(target)
                &&& ored.f == FlagsRegister {
                    zero: ored.a == 0,
                    subtract: false,
                    half_carry: false,
                    carry: false,
                }
                &&& xored.a == self.registers.a ^ self.operand(target)
                &&& xored.f == FlagsRegister {
                    zero: xored.a == 0,
                    subtract: false,
                    half_carry: false,
                    carry: false,
                }
            }),
    {
    }

    /// A push followed by a pop gives back the value pushed and leaves the
    /// stack pointer where it was before the push, whatever that value and
    /// wherever the stack pointer.
    pub proof fn lemma_push_pop(self, value: u16)
        requires
            self.wf(),
        ensures
            self.pushed(value).wf(),
            self.pushed(value).top() == value,
            self.pushed(value).popped().sp == self.sp,
            self.pushed(value).popped().registers == self.registers,
            self.pushed(value).popped().pc == self.pc,
    {
    }

    /// Pushing a register pair and popping it again leaves the registers,
    /// the flags and the stack pointer as they were.
    pub proof fn lemma_push_then_pop(self, target: StackTarget)
        requires
            self.wf(),
        ensures
            ({
                let after = self.executed(Instruction::PUSH(target)).executed(
                    Instruction::POP(target),
                );
                &&& after.registers == self.registers
                &&& after.sp == self.sp
                &&& after.pc == self.pc
            }),
    {
        self.lemma_push_pop(self.stack_pair(target));
        self.registers.lemma_pair_round_trip(0);
        self.registers.lemma_af_round_trip(0);
    }

    /// A byte load moves its byte and then steps HL: up by one where a side
    /// is tagged with increment, down by one where a side is tagged with
    /// decrement, and not at all where neither is. It changes nothing else.
    /// The move itself leaves HL alone unless it stores in H or L.
    pub proof fn lemma_load_steps_hl(self, target: LoadByteTarget, source: LoadByteSource)
        ensures
            ({
                let moved = self.store_byte(target, self.source_byte(source));
                let done = self.executed(Instruction::LD(LoadType::Byte(target, source)));
                let up = source == LoadByteSource::HLI || target == LoadByteTarget::HLI;
                let down = source == LoadByteSource::HLD || target == LoadByteTarget::HLD;
                &&& done == moved.with_hl(done.registers.hl())
                &&& up && !down ==> done.registers.hl() == moved.registers.hl().wrapping_add(1)
                &&& down && !up ==> done.registers.hl() == moved.registers.hl().wrapping_sub(1)
                &&& up == down ==> done == moved
                &&& target != LoadByteTarget::H && target != LoadByteTarget::L
                    ==> moved.registers.hl() == self.registers.hl()
            }),
    {
        let moved = self.store_byte(target, self.source_byte(source));
        moved.registers.lemma_pair_round_trip(moved.registers.hl());
        let raised = moved.with_hl(moved.registers.hl().wrapping_add(1));
        raised.registers.lemma_pair_round_trip(moved.registers.hl().wrapping_add(1));
        moved.registers.lemma_pair_round_trip(moved.registers.hl().wrapping_sub(1));
    }

    /// A jump, call or return branches if and only if its condition holds of
    /// the flags. Where it holds, a jump goes to the word after the opcode,
    /// a call pushes the address after itself and goes to the word after
    /// the opcode, and a return pops the address to go to. Where it does
    /// not, nothing changes and the program counter goes on by the length
    /// of the instruction.
    pub proof fn lemma_conditional_branch(self, test: JumpTest)
        ensures
            self.holds(test) ==> {
                &&& self.executed(Instruction::JP(test)) == self
                &&& self.next_pc(Instruction::JP(test)) == self.next_word()
                &&& self.executed(Instruction::CALL(test)) == self.pushed(self.pc.wrapping_add(3))
                &&& self.next_pc(Instruction::CALL(test)) == self.pushed(
                    self.pc.wrapping_add(3),
                ).next_word()
                &&& self.executed(Instruction::RET(test)) == self.popped()
                &&& self.next_pc(Instruction::RET(test)) == self.top()
            },
            !self.holds(test) ==> {
                &&& self.executed(Instruction::JP(test)) == self
                &&& self.next_pc(Instruction::JP(test)) == self.pc.wrapping_add(
                    Instruction::JP(test).spec_length() as u16,
                )
                &&& self.executed(Instruction::CALL(test)) == self
                &&& self.next_pc(Instruction::CALL(test)) == self.pc.wrapping_add(
                    Instruction::CALL(test).spec_length() as u16,
                )
                &&& self.executed(Instruction::RET(test)) == self
                &&& self.next_pc(Instruction::RET(test)) == self.pc.wrapping_add(
                    Instruction::RET(test).spec_length() as u16,
                )
            },
            Instruction::JP(test).spec_length() == 3,
            Instruction::CALL(test).spec_length() == 3,
            Instruction::RET(test).spec_length() == 1,
    {
    }

    /// Unless it is a jump, call or return whose condition holds, a decoded
    /// instruction sends the program counter on by the length that its
    /// opcode declares.
    pub proof fn lemma_sequential_pc(self, byte: u8, prefixed: bool)
        ensures
            Instruction::decoded(byte, prefixed) matches Some((instruction, length, _)) ==> {
                let branches = match instruction {
                    Instruction::JP(test) | Instruction::CALL(test) | Instruction::RET(test) =>
                        self.holds(test),
                    _ => false,
                };
                !branches ==> self.next_pc(instruction) == self.pc.wrapping_add(length as u16)
            },
    {
    }

    /// A taken call followed by a taken return leaves the stack pointer
    /// where it was before the call and goes on at the address after the
    /// call; registers and flags are as before.
    pub proof fn lemma_call_then_return(self, call_test: JumpTest, return_test: JumpTest)
        requires
            self.wf(),
            self.holds(call_test),
            self.holds(return_test),
        ensures
            ({
                let call = Instruction::CALL(call_test);
                let ret = Instruction::RET(return_test);
                let called = CpuState { pc: self.next_pc(call), ..self.executed(call) };
                let returned = CpuState { pc: called.next_pc(ret), ..called.executed(ret) };
                &&& called.holds(return_test)
                &&& returned.sp == self.sp
                &&& returned.pc == self.pc.wrapping_add(3)
                &&& returned.registers == self.registers
            }),
    {
        self.lemma_push_pop(self.pc.wrapping_add(3));
    }

    /// A taken return in any later state whose stack pointer is where a
    /// taken call left it puts the stack pointer back where it was before
    /// that call.
    pub proof fn lemma_return_restores_sp(
        self,
        call_test: JumpTest,
        later: CpuState,
        return_test: JumpTest,
    )
        requires
            self.holds(call_test),
            later.holds(return_test),
            later.sp == self.executed(Instruction::CALL(call_test)).sp,
        ensures
            later.executed(Instruction::RET(return_test)).sp == self.sp,
    {
    }

    /// Storing a byte keeps the state well formed.
    pub proof fn lemma_store_byte_wf(self, target: LoadByteTarget, val: u8)
        requires
            self.wf(),
        ensures
            self.store_byte(target, val).wf(),
    {
    }

    /// Storing a word keeps the state well formed, unless the word goes to
    /// the last address of memory.
    pub proof fn lemma_store_word_wf(self, target: LoadWordTarget, val: u16)
        requires
            self.wf(),
            target == LoadWordTarget::A16 ==> self.next_word() != 0xFFFF,
        ensures
            self.store_word(target, val).wf(),
    {
    }

    /// Executing an instruction that does not fault keeps the state well
    /// formed.
    pub proof fn lemma_executed_wf(self, instruction: Instruction)
        requires
            self.wf(),
            !self.faults(instruction),
        ensures
            self.executed(instruction).wf(),
    {
        match instruction {
            Instruction::LD(LoadType::Byte(target, source)) => {
                self.lemma_store_byte_wf(target, self.source_byte(source));
            },
            Instruction::LD(LoadType::Word(target, source)) => {
                let flagged = if source == LoadWordSource::SP8 {
                    self.with_flags(add_signed_flags(self.sp, self.next_byte()))
                } else {
                    self
                };
                flagged.lemma_store_word_wf(target, self.source_word(source));
            },
            _ => {},
        }
    }

    /// A whole step, where there is no fault, keeps the state well formed.
    pub proof fn lemma_stepped_wf(self)
        requires
            self.wf(),
            self.fault() is None,
        ensures
            self.stepped().wf(),
    {
        let (opcode, prefixed) = self.fetched();
        self.lemma_executed_wf(Instruction::decoded(opcode, prefixed).unwrap().0);
    }
}

} // verus!
