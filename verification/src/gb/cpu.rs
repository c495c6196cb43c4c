use vstd::prelude::*;

use super::alu::{
    add16, add16_flags, add8, add8_flags, add_signed, add_signed_flags, lemma_high_page,
    lemma_low_bits, lemma_low_nibble, logic_flags, sub8, sub8_flags,
};
use super::instructions::{
    ArithmeticTarget, Instruction, JumpTest, LoadByteSource, LoadByteTarget, LoadType,
    LoadWordSource, LoadWordTarget, StackTarget, WordTarget, PREFIX,
};
use super::ram::MemoryBus;
use super::registers::{lemma_join_bytes, lemma_split_word, Registers};
use super::state::{CpuState, Fault};

verus! {

broadcast use MemoryBus::lemma_size;

/// The processor: its register file, program counter and stack pointer, and
/// the memory that it alone reads and writes.
#[derive(Debug)]
pub struct Cpu {
    pub registers: Registers,
    pub pc: u16,
    pub sp: u16,
    pub bus: MemoryBus,
}

impl View for Cpu {
    type V = CpuState;

    open spec fn view(&self) -> CpuState {
        CpuState { registers: self.registers, pc: self.pc, sp: self.sp, memory: self.bus@ }
    }
}

impl Cpu {
    /// The state of every processor is well formed.
    pub proof fn lemma_wf(&self)
        ensures
            self@.wf(),
    {
    }

    /// Why the next instruction cannot be executed, if it cannot. The
    /// processor is left as it is.
    pub fn fault(&self) -> (fault: Option<Fault>)
        ensures
            fault == self@.fault(),
    {
        let first = self.bus.read_byte(self.pc);
        let prefixed = first == PREFIX;
        let opcode = if prefixed {
            self.read_next_byte()
        } else {
            first
        };
        match Instruction::from_byte(opcode, prefixed) {
            None => Some(Fault::UnknownOpcode { opcode, prefixed }),
            Some((Instruction::LD(LoadType::Word(LoadWordTarget::A16, _)), _, _)) => {
                if self.read_next_word() == 0xFFFF {
                    Some(Fault::OutOfRange { address: 0x10000 })
                } else {
                    None
                }
            },
            Some(_) => None,
        }
    }

    /// Executes the next instruction: fetches the opcode at the program
    /// counter, and the byte after it where that opcode is the prefix;
    /// decodes it; executes the instruction; and sets the program counter
    /// to where the instruction sends it.
    pub fn step(&mut self)
        requires
            old(self)@.fault() is None,
        ensures
            final(self)@ == old(self)@.stepped(),
    {
        let mut instruction_byte = self.bus.read_byte(self.pc);
        let prefixed = instruction_byte == PREFIX;
        if prefixed {
            instruction_byte = self.bus.read_byte(self.pc.wrapping_add(1));
        }
        let (instruction, _length, _cycles) = Instruction::from_byte(
            instruction_byte,
            prefixed,
        ).unwrap();
        let next_pc = self.execute(instruction);
        self.pc = next_pc;
    }

    /// Executes the next instruction where the processor can, as `step`
    /// does. Where it cannot, halts: the processor is left exactly as it
    /// is, and the fault is returned, with the opcode and whether it was
    /// fetched behind the prefix where the opcode is unknown.
    pub fn try_step(&mut self) -> (outcome: Result<(), Fault>)
        ensures
            match outcome {
                Ok(()) => old(self)@.fault() is None && final(self)@ == old(self)@.stepped(),
                Err(fault) => old(self)@.fault() == Some(fault) && *final(self) == *old(self),
            },
    {
        match self.fault() {
            Some(fault) => Err(fault),
            None => {
                self.step();
                Ok(())
            },
        }
    }

    /// Performs the effect of one instruction on registers, flags, stack
    /// pointer and memory, and returns the program counter that follows it.
    /// The program counter itself is left to the caller.
    pub fn execute(&mut self, instruction: Instruction) -> (next_pc: u16)
        requires
            !old(self)@.faults(instruction),
        ensures
            final(self)@ == old(self)@.executed(instruction),
            next_pc == old(self)@.next_pc(instruction),
    {
        match instruction {
            Instruction::NOP => self.pc.wrapping_add(1),
            Instruction::ADD(target) => {
                let val = self.operand(target);
                self.registers.a = self.add(val, false);
                self.pc.wrapping_add(instruction.length() as u16)
            },
            Instruction::ADC(target) => {
                let val = self.operand(target);
                self.registers.a = self.add(val, true);
                self.pc.wrapping_add(instruction.length() as u16)
            },
            Instruction::SUB(target) => {
                let val = self.operand(target);
                self.registers.a = self.sub(val, false);
                self.pc.wrapping_add(instruction.length() as u16)
            },
            Instruction::SBC(target) => {
                let val = self.operand(target);
                self.registers.a = self.sub(val, true);
                self.pc.wrapping_add(instruction.length() as u16)
            },
            Instruction::AND(target) => {
                let val = self.operand(target);
                self.registers.a = self.and(val);
                self.pc.wrapping_add(instruction.length() as u16)
            },
            Instruction::OR(target) => {
                let val = self.operand(target);
                self.registers.a = self.or(val, false);
                self.pc.wrapping_add(instruction.length() as u16)
            },
            Instruction::XOR(target) => {
                let val = self.operand(target);
                self.registers.a = self.or(val, true);
                self.pc.wrapping_add(instruction.length() as u16)
            },
            Instruction::CP(target) => {
                let val = self.operand(target);
                let _difference = self.sub(val, false);
                self.pc.wrapping_add(instruction.length() as u16)
            },
            Instruction::ADDHL(target) => {
                let val = self.pair(target);
                let new_value = self.addhl(val);
                self.registers.set_hl(new_value);
                self.pc.wrapping_add(1)
            },
            Instruction::ADDSP => {
                self.sp = self.add_sign_to_sp();
                self.pc.wrapping_add(2)
            },
            Instruction::JP(test) => {
                let jump_cond = self.condition(test);
                self.jump(jump_cond)
            },
            Instruction::LD(LoadType::Byte(target, source)) => {
                self.load_byte(target, source);
                self.pc.wrapping_add(instruction.length() as u16)
            },
            Instruction::LD(LoadType::Word(target, source)) => {
                self.load_word(target, source);
                self.pc.wrapping_add(instruction.length() as u16)
            },
            Instruction::PUSH(target) => {
                let value = self.stack_pair(target);
                self.push(value);
                self.pc.wrapping_add(1)
            },
            Instruction::POP(target) => {
                let result = self.pop();
                self.set_stack_pair(target, result);
                self.pc.wrapping_add(1)
            },
            Instruction::CALL(test) => {
                let jump_cond = self.condition(test);
                self.call(jump_cond)
            },
            Instruction::RET(test) => {
                let jump_cond = self.condition(test);
                self.return_(jump_cond)
            },
        }
    }

    /// Whether a condition holds of the current flags.
    pub fn condition(&self, test: JumpTest) -> (holds: bool)
        ensures
            holds == self@.holds(test),
    {
        match test {
            JumpTest::NotZero => !self.registers.f.zero,
            JumpTest::NotCarry => !self.registers.f.carry,
            JumpTest::Zero => self.registers.f.zero,
            JumpTest::Carry => self.registers.f.carry,
            JumpTest::Always => true,
        }
    }

    /// The value of an 8-bit operand: a register, the byte that HL
    /// addresses, or the byte after the opcode.
    pub fn operand(&self, target: ArithmeticTarget) -> (val: u8)
        ensures
            val == self@.operand(target),
    {
        match target {
            ArithmeticTarget::A => self.registers.a,
            ArithmeticTarget::B => self.registers.b,
            ArithmeticTarget::C => self.registers.c,
            ArithmeticTarget::D => self.registers.d,
            ArithmeticTarget::E => self.registers.e,
            ArithmeticTarget::H => self.registers.h,
            ArithmeticTarget::L => self.registers.l,
            ArithmeticTarget::HL => self.bus.read_byte(self.registers.get_hl()),
            ArithmeticTarget::N8 => self.read_next_byte(),
        }
    }

    /// The value of a 16-bit operand: a register pair or the stack pointer.
    pub fn pair(&self, target: WordTarget) -> (val: u16)
        ensures
            val == self@.pair(target),
    {
        match target {
            WordTarget::BC => self.registers.get_bc(),
            WordTarget::DE => self.registers.get_de(),
            WordTarget::HL => self.registers.get_hl(),
            WordTarget::SP => self.sp,
        }
    }

    /// The value of a register pair that the stack instructions move.
    pub fn stack_pair(&self, target: StackTarget) -> (val: u16)
        ensures
            val == self@.stack_pair(target),
    {
        match target {
            StackTarget::BC => self.registers.get_bc(),
            StackTarget::DE => self.registers.get_de(),
            StackTarget::HL => self.registers.get_hl(),
            StackTarget::AF => self.registers.get_af(),
        }
    }

    /// Sets a register pair that the stack instructions move.
    pub fn set_stack_pair(&mut self, target: StackTarget, val: u16)
        ensures
            final(self)@ == old(self)@.with_stack_pair(target, val),
    {
        match target {
            StackTarget::BC => self.registers.set_bc(val),
            StackTarget::DE => self.registers.set_de(val),
            StackTarget::HL => self.registers.set_hl(val),
            StackTarget::AF => self.registers.set_af(val),
        }
    }

    /// The byte that a byte load reads from its source.
    pub fn source_byte(&self, source: LoadByteSource) -> (val: u8)
        ensures
            val == self@.source_byte(source),
    {
        match source {
            LoadByteSource::A => self.registers.a,
            LoadByteSource::B => self.registers.b,
            LoadByteSource::C => self.registers.c,
            LoadByteSource::D => self.registers.d,
            LoadByteSource::E => self.registers.e,
            LoadByteSource::H => self.registers.h,
            LoadByteSource::L => self.registers.l,
            LoadByteSource::D8 => self.read_next_byte(),
            LoadByteSource::HL | LoadByteSource::HLI | LoadByteSource::HLD => self.bus.read_byte(
                self.registers.get_hl(),
            ),
            LoadByteSource::BC => self.bus.read_byte(self.registers.get_bc()),
            LoadByteSource::DE => self.bus.read_byte(self.registers.get_de()),
            LoadByteSource::D16 => self.bus.read_byte(self.read_next_word()),
            LoadByteSource::ADRC => self.bus.read_byte(Self::high_page(self.registers.c)),
            LoadByteSource::A8 => self.bus.read_byte(Self::high_page(self.read_next_byte())),
        }
    }

    /// Stores the byte of a byte load in its target.
    pub fn store_byte(&mut self, target: LoadByteTarget, val: u8)
        ensures
            final(self)@ == old(self)@.store_byte(target, val),
    {
        match target {
            LoadByteTarget::A => self.registers.a = val,
            LoadByteTarget::B => self.registers.b = val,
            LoadByteTarget::C => self.registers.c = val,
            LoadByteTarget::D => self.registers.d = val,
            LoadByteTarget::E => self.registers.e = val,
            LoadByteTarget::H => self.registers.h = val,
            LoadByteTarget::L => self.registers.l = val,
            LoadByteTarget::HL | LoadByteTarget::HLI | LoadByteTarget::HLD => {
                let address = self.registers.get_hl();
                self.bus.write_byte(address, val)
            },
            LoadByteTarget::BC => {
                let address = self.registers.get_bc();
                self.bus.write_byte(address, val)
            },
            LoadByteTarget::DE => {
                let address = self.registers.get_de();
                self.bus.write_byte(address, val)
            },
            LoadByteTarget::D16 => {
                let address = self.read_next_word();
                self.bus.write_byte(address, val)
            },
            LoadByteTarget::ADRC => {
                let address = Self::high_page(self.registers.c);
                self.bus.write_byte(address, val)
            },
            LoadByteTarget::A8 => {
                let address = Self::high_page(self.read_next_byte());
                self.bus.write_byte(address, val)
            },
        }
    }

    /// The high-page address with the given offset.
    pub fn high_page(offset: u8) -> (address: u16)
        ensures
            address == 0xFF00 + offset,
    {
        proof {
            lemma_high_page(offset);
        }
        0xFF00 | offset as u16
    }

    /// Moves a byte from source to target, then steps HL where either side
    /// is tagged with increment or decrement.
    pub fn load_byte(&mut self, target: LoadByteTarget, source: LoadByteSource)
        ensures
            final(self)@ == old(self)@.byte_loaded(target, source),
            final(self).pc == old(self).pc,
    {
        let source_value = self.source_byte(source);
        self.store_byte(target, source_value);
        if source == LoadByteSource::HLI || target == LoadByteTarget::HLI {
            let hl = self.registers.get_hl();
            self.registers.set_hl(hl.wrapping_add(1));
        }
        if source == LoadByteSource::HLD || target == LoadByteTarget::HLD {
            let hl = self.registers.get_hl();
            self.registers.set_hl(hl.wrapping_sub(1));
        }
    }

    /// Moves a word from source to target. Reading the stack pointer plus a
    /// signed offset sets the flags and leaves the stack pointer as it is.
    pub fn load_word(&mut self, target: LoadWordTarget, source: LoadWordSource)
        requires
            target == LoadWordTarget::A16 ==> old(self)@.next_word() != 0xFFFF,
        ensures
            final(self)@ == old(self)@.word_loaded(target, source),
            final(self).pc == old(self).pc,
    {
        let source_value = match source {
            LoadWordSource::D16 => self.read_next_word(),
            LoadWordSource::SP => self.sp,
            LoadWordSource::HL => self.registers.get_hl(),
            LoadWordSource::SP8 => self.add_sign_to_sp(),
        };
        match target {
            LoadWordTarget::BC => self.registers.set_bc(source_value),
            LoadWordTarget::DE => self.registers.set_de(source_value),
            LoadWordTarget::HL => self.registers.set_hl(source_value),
            LoadWordTarget::A16 => {
                let address = self.read_next_word();
                self.bus.write_word(address, source_value)
            },
            LoadWordTarget::SP => self.sp = source_value,
        }
    }

    /// A call: where `should_jump` is set, pushes the address of the
    /// instruction after the call and returns the target, read from the word
    /// after the opcode; otherwise returns the address after the call.
    pub fn call(&mut self, should_jump: bool) -> (next_pc: u16)
        ensures
            final(self)@ == if should_jump {
                old(self)@.pushed(old(self).pc.wrapping_add(3))
            } else {
                old(self)@
            },
            next_pc == if should_jump {
                old(self)@.pushed(old(self).pc.wrapping_add(3)).next_word()
            } else {
                old(self).pc.wrapping_add(3)
            },
    {
        let next_pc = self.pc.wrapping_add(3);
        if should_jump {
            self.push(next_pc);
            self.read_next_word()
        } else {
            next_pc
        }
    }

    /// A return: where `should_jump` is set, pops the address to go to;
    /// otherwise returns the address after the instruction.
    pub fn return_(&mut self, should_jump: bool) -> (next_pc: u16)
        ensures
            final(self)@ == if should_jump {
                old(self)@.popped()
            } else {
                old(self)@
            },
            next_pc == if should_jump {
                old(self)@.top()
            } else {
                old(self).pc.wrapping_add(1)
            },
    {
        if should_jump {
            self.pop()
        } else {
            self.pc.wrapping_add(1)
        }
    }

    /// Pops a word: reads its low byte at the stack pointer and its high
    /// byte above, and moves the stack pointer up by two.
    pub fn pop(&mut self) -> (value: u16)
        ensures
            value == old(self)@.top(),
            final(self)@ == old(self)@.popped(),
    {
        let lsb = self.bus.read_byte(self.sp);
        self.sp = self.sp.wrapping_add(1);

        let msb = self.bus.read_byte(self.sp);
        self.sp = self.sp.wrapping_add(1);

        Registers::get_dr(msb, lsb)
    }

    /// Pushes a word: moves the stack pointer down by one and stores the
    /// high byte there, then down by one again and stores the low byte.
    pub fn push(&mut self, value: u16)
        ensures
            final(self)@ == old(self)@.pushed(value),
    {
        proof {
            lemma_split_word(value);
        }
        self.sp = self.sp.wrapping_sub(1);
        self.bus.write_byte(self.sp, ((value & 0xFF00) >> 8) as u8);

        self.sp = self.sp.wrapping_sub(1);
        self.bus.write_byte(self.sp, (value & 0xFF) as u8);
    }

    /// A jump: the word after the opcode where `should_jump` is set,
    /// otherwise the address after the instruction.
    pub fn jump(&self, should_jump: bool) -> (next_pc: u16)
        ensures
            next_pc == if should_jump {
                self@.next_word()
            } else {
                self.pc.wrapping_add(3)
            },
    {
        if should_jump {
            self.read_next_word()
        } else {
            self.pc.wrapping_add(3)
        }
    }

    /// Adds `val` to the accumulator, and the carry flag too where `carry`
    /// is set. Sets the flags and returns the sum; the accumulator is left
    /// to the caller.
    pub fn add(&mut self, val: u8, carry: bool) -> (new_value: u8)
        ensures
            new_value == add8(
                old(self).registers.a,
                val,
                carry && old(self).registers.f.carry,
            ),
            final(self)@ == old(self)@.with_flags(
                add8_flags(old(self).registers.a, val, carry && old(self).registers.f.carry),
            ),
    {
        let a = self.registers.a;
        let carry_in: u8 = if carry && self.registers.f.carry {
            1
        } else {
            0
        };
        let sum: u16 = a as u16 + val as u16 + carry_in as u16;
        proof {
            lemma_low_nibble(a);
            lemma_low_nibble(val);
            lemma_low_bits(sum);
        }
        let new_value = (sum & 0xFF) as u8;

        self.registers.f.zero = new_value == 0;
        self.registers.f.subtract = false;
        self.registers.f.carry = sum > 0xFF;
        self.registers.f.half_carry = (a & 0b1111) + (val & 0b1111) + carry_in > 0b1111;

        new_value
    }

    /// Subtracts `val` from the accumulator, and the carry flag too where
    /// `carry` is set. Sets the flags and returns the difference; the
    /// accumulator is left to the caller.
    pub fn sub(&mut self, val: u8, carry: bool) -> (new_value: u8)
        ensures
            new_value == sub8(
                old(self).registers.a,
                val,
                carry && old(self).registers.f.carry,
            ),
            final(self)@ == old(self)@.with_flags(
                sub8_flags(old(self).registers.a, val, carry && old(self).registers.f.carry),
            ),
    {
        let a = self.registers.a;
        let carry_in: u8 = if carry && self.registers.f.carry {
            1
        } else {
            0
        };
        proof {
            lemma_low_nibble(a);
            lemma_low_nibble(val);
        }
        let new_value = a.wrapping_sub(val).wrapping_sub(carry_in);

        self.registers.f.zero = new_value == 0;
        self.registers.f.subtract = true;
        self.registers.f.carry = (a as u16) < val as u16 + carry_in as u16;
        self.registers.f.half_carry = (a & 0b1111) < (val & 0b1111) + carry_in;

        new_value
    }

    /// Adds `val` to HL. Sets the flags and returns the sum; HL is left to
    /// the caller.
    pub fn addhl(&mut self, val: u16) -> (new_value: u16)
        ensures
            new_value == add16(old(self).registers.hl(), val),
            final(self)@ == old(self)@.with_flags(
                add16_flags(old(self).registers.hl(), val, old(self).registers.f),
            ),
    {
        let hl = self.registers.get_hl();
        proof {
            lemma_low_bits(hl);
            lemma_low_bits(val);
        }
        let new_value = hl.wrapping_add(val);

        self.registers.f.subtract = false;
        self.registers.f.carry = hl as u32 + val as u32 > 0xFFFF;
        self.registers.f.half_carry = (hl & 0xFFF) + (val & 0xFFF) > 0xFFF;

        new_value
    }

    /// The bitwise and of the accumulator and `val`. Sets the flags and
    /// returns the result; the accumulator is left to the caller.
    pub fn and(&mut self, val: u8) -> (result: u8)
        ensures
            result == old(self).registers.a & val,
            final(self)@ == old(self)@.with_flags(logic_flags(result, true)),
    {
        let val = self.registers.a & val;
        self.registers.f.zero = val == 0;
        self.registers.f.half_carry = true;
        self.registers.f.subtract = false;
        self.registers.f.carry = false;

        val
    }

    /// The bitwise or of the accumulator and `val`, or their exclusive or
    /// where `not` is set. Sets the flags and returns the result; the
    /// accumulator is left to the caller.
    pub fn or(&mut self, val: u8, not: bool) -> (result: u8)
        ensures
            result == if not {
                old(self).registers.a ^ val
            } else {
                old(self).registers.a | val
            },
            final(self)@ == old(self)@.with_flags(logic_flags(result, false)),
    {
        let val = if not {
            self.registers.a ^ val
        } else {
            self.registers.a | val
        };
        self.registers.f.zero = val == 0;
        self.registers.f.half_carry = false;
        self.registers.f.subtract = false;
        self.registers.f.carry = false;

        val
    }

    /// The byte after the opcode.
    pub fn read_next_byte(&self) -> (val: u8)
        ensures
            val == self@.next_byte(),
    {
        self.bus.read_byte(self.pc.wrapping_add(1))
    }

    /// The little-endian word after the opcode.
    pub fn read_next_word(&self) -> (val: u16)
        ensures
            val == self@.next_word(),
    {
        let lsb = self.bus.read_byte(self.pc.wrapping_add(1)) as u16;
        let msb = self.bus.read_byte(self.pc.wrapping_add(2)) as u16;
        proof {
            lemma_join_bytes(msb as u8, lsb as u8);
        }
        (msb << 8) | lsb
    }

    /// Adds the byte after the opcode, taken as a signed offset, to the
    /// stack pointer. Sets the flags and returns the sum; the stack pointer
    /// is left to the caller.
    pub fn add_sign_to_sp(&mut self) -> (new_value: u16)
        ensures
            new_value == add_signed(old(self).sp, old(self)@.next_byte()),
            final(self)@ == old(self)@.with_flags(
                add_signed_flags(old(self).sp, old(self)@.next_byte()),
            ),
    {
        let val = self.read_next_byte();
        let sp = self.sp;
        proof {
            lemma_low_bits(sp);
            lemma_low_nibble(val);
        }
        let new_value = if val < 0x80 {
            sp.wrapping_add(val as u16)
        } else {
            sp.wrapping_sub(0x100 - val as u16)
        };

        self.registers.f.zero = false;
        self.registers.f.subtract = false;
        self.registers.f.carry = (sp & 0xFF) + val as u16 > 0xFF;
        self.registers.f.half_carry = (sp & 0b1111) + ((val & 0b1111) as u16) > 0b1111;

        new_value
    }
}

} // verus!
