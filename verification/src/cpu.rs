//! The processor: its registers and the fetch, decode and execute loop.

use crate::machine::{
    advance, flags_after_load, reset_registers, spend, stack_address, word_at, InvalidOpcode,
    Machine, Outcome, Registers, RESET_VECTOR, STACK_PAGE,
};
use crate::mem::Mem;
use crate::ops::Instruction;
use crate::status::{Flag, ProcStatus};
use vstd::prelude::*;

verus! {

/// The registers of the processor.
#[derive(Debug)]
pub struct Cpu {
    /// Program counter: the address of the next byte to fetch.
    pub pc: u16,
    /// Stack pointer: an offset into the stack page.
    pub sp: u8,
    /// Accumulator.
    pub a: u8,
    /// Index register X.
    pub x: u8,
    /// Index register Y.
    pub y: u8,
    /// Processor status.
    pub ps: ProcStatus,
}

impl View for Cpu {
    type V = Registers;

    /// The registers, with the status as the set of flags raised in it.
    open spec fn view(&self) -> Registers {
        Registers { pc: self.pc, sp: self.sp, a: self.a, x: self.x, y: self.y, flags: self.ps@ }
    }
}

/// The machine that a processor, a memory and a cycle budget make up.
pub open spec fn machine_of(cpu: Cpu, mem: Mem, cycles: i32) -> Machine {
    Machine { cpu: cpu@, mem: mem@, cycles: cycles as int }
}

impl Cpu {
    /// A processor in its reset state.
    pub fn new() -> (r: Cpu)
        ensures
            r@ == reset_registers(),
    {
        Cpu { pc: RESET_VECTOR, sp: 0x00, a: 0x00, x: 0x00, y: 0x00, ps: ProcStatus::empty() }
    }

    /// Puts the processor in its reset state and fills the memory with the
    /// no-op filler.
    pub fn reset(&mut self, mem: &mut Mem)
        ensures
            final(self)@ == reset_registers(),
            final(mem)@ == crate::mem::blank(),
    {
        self.pc = RESET_VECTOR;
        self.sp = 0x00;
        self.a = 0x00;
        self.x = 0x00;
        self.y = 0x00;
        self.ps = ProcStatus::empty();
        mem.initialize();
    }

    /// Takes `cost` cycles from the budget, which stops at zero. The budget
    /// that is left must fit the counter, as it does for every cost that is
    /// not negative.
    pub fn decrement_cycles(cycles: &mut i32, cost: i32)
        requires
            *old(cycles) - cost <= i32::MAX,
        ensures
            *final(cycles) == spend(*old(cycles) as int, cost as int),
    {
        let taken: i32 = if *cycles < cost {
            *cycles
        } else {
            cost
        };
        *cycles = *cycles - taken;
    }

    /// Fetches the byte at the program counter and executes the instruction
    /// it stands for. Fails, after the fetch alone, where the byte is no
    /// instruction.
    pub fn step(&mut self, cycles: &mut i32, mem: &mut Mem) -> (r: Result<(), InvalidOpcode>)
        ensures
            machine_of(*final(self), *final(mem), *final(cycles)) == machine_of(
                *old(self),
                *old(mem),
                *old(cycles),
            ).step(),
            r == match machine_of(*old(self), *old(mem), *old(cycles)).fault() {
                Some(fault) => Err::<(), InvalidOpcode>(fault),
                None => Ok(()),
            },
    {
        let ghost before = machine_of(*self, *mem, *cycles);
        let at: u16 = self.pc;
        let opcode: u8 = self.fetch_byte(cycles, mem);
        match Instruction::decode(opcode) {
            None => {
                assert(machine_of(*self, *mem, *cycles) =~= before.step());
                Err(InvalidOpcode { opcode, pc: at })
            },
            Some(Instruction::Jsr) => {
                let sub_addr: u16 = self.fetch_word(cycles, mem);
                mem.write_word(cycles, Cpu::get_stack_addr(self.sp), self.pc.wrapping_sub(1));
                self.sp = self.sp.wrapping_add(1);
                self.pc = sub_addr;
                Cpu::decrement_cycles(cycles, 1);
                assert(machine_of(*self, *mem, *cycles) =~= before.step());
                Ok(())
            },
            Some(Instruction::LdaImmediate) => {
                self.a = self.fetch_byte(cycles, mem);
                self.lda_set_status();
                assert(machine_of(*self, *mem, *cycles) =~= before.step());
                Ok(())
            },
            Some(Instruction::LdaZeroPage) => {
                let zero_page_addr: u8 = self.fetch_byte(cycles, mem);
                self.a = Cpu::read_byte(cycles, mem, zero_page_addr);
                self.lda_set_status();
                assert(machine_of(*self, *mem, *cycles) =~= before.step());
                Ok(())
            },
            Some(Instruction::LdaZeroPageX) => {
                let zero_page_addr: u8 = self.fetch_byte(cycles, mem).wrapping_add(self.x);
                Cpu::decrement_cycles(cycles, 1);
                self.a = Cpu::read_byte(cycles, mem, zero_page_addr);
                self.lda_set_status();
                assert(machine_of(*self, *mem, *cycles) =~= before.step());
                Ok(())
            },
            Some(Instruction::Nop) => {
                Cpu::decrement_cycles(cycles, 1);
                assert(machine_of(*self, *mem, *cycles) =~= before.step());
                Ok(())
            },
        }
    }

    /// Executes instructions while cycles are left in the budget. An
    /// instruction that has begun is completed, though it costs more than
    /// what is left. Stops with a failure at the first byte that is no
    /// instruction.
    pub fn execute(&mut self, cycles: &mut i32, mem: &mut Mem) -> (r: Result<(), InvalidOpcode>)
        ensures
            machine_of(*final(self), *final(mem), *final(cycles)) == machine_of(
                *old(self),
                *old(mem),
                *old(cycles),
            ).run().machine,
            r == match machine_of(*old(self), *old(mem), *old(cycles)).run().fault {
                Some(fault) => Err::<(), InvalidOpcode>(fault),
                None => Ok(()),
            },
    {
        let ghost start = machine_of(*self, *mem, *cycles);
        while *cycles > 0
            invariant
                start == machine_of(*old(self), *old(mem), *old(cycles)),
                machine_of(*self, *mem, *cycles).run() == start.run(),
            decreases *cycles,
        {
            let ghost here = machine_of(*self, *mem, *cycles);
            let stepped = self.step(cycles, mem);
            assert(here.run() == if here.fault().is_some() {
                Outcome { machine: here.step(), fault: here.fault() }
            } else {
                here.step().run()
            });
            if let Err(fault) = stepped {
                return Err(fault);
            }
        }
        Ok(())
    }

    /// Sets Zero and Negative by the value in the accumulator and leaves
    /// the other flags alone.
    fn lda_set_status(&mut self)
        ensures
            final(self)@ == (Registers {
                flags: flags_after_load(old(self)@.flags, old(self).a),
                ..old(self)@
            }),
    {
        let value: u8 = self.a;
        let negative: bool = value & 0b1000_0000 > 0;
        assert(negative == (value >= 0x80)) by (bit_vector)
            requires
                negative == (value & 0b1000_0000 > 0),
        ;
        let ghost before = self.ps@;
        self.ps.set(ProcStatus::Z(), value == 0);
        self.ps.set(ProcStatus::N(), negative);
        assert(self.ps@ =~= flags_after_load(before, value));
    }

    /// Moves the program counter to the next address.
    fn increment_pc(&mut self)
        ensures
            *final(self) == (Cpu { pc: advance(old(self).pc, 1), ..*old(self) }),
    {
        self.pc = self.pc.wrapping_add(1);
    }

    /// Reads the byte at a zero-page address, for one cycle.
    fn read_byte(cycles: &mut i32, mem: &Mem, address: u8) -> (data: u8)
        ensures
            data == mem@[address as int],
            *final(cycles) == spend(*old(cycles) as int, 1),
    {
        let data: u8 = mem.read(address as u16);
        Cpu::decrement_cycles(cycles, 1);
        data
    }

    /// Reads the byte at the program counter and steps past it, for one
    /// cycle.
    fn fetch_byte(&mut self, cycles: &mut i32, mem: &Mem) -> (data: u8)
        ensures
            data == mem@[old(self).pc as int],
            *final(self) == (Cpu { pc: advance(old(self).pc, 1), ..*old(self) }),
            *final(cycles) == spend(*old(cycles) as int, 1),
    {
        let data: u8 = mem.read(self.pc);
        self.increment_pc();
        Cpu::decrement_cycles(cycles, 1);
        data
    }

    /// The address in the stack page that `sp` stands for.
    fn get_stack_addr(sp: u8) -> (addr: u16)
        ensures
            addr == stack_address(sp),
    {
        let addr: u16 = STACK_PAGE | sp as u16;
        assert(addr == 0x0100 + sp) by (bit_vector)
            requires
                addr == 0x0100u16 | sp as u16,
        ;
        addr
    }

    /// Reads the little-endian word at the program counter and steps past
    /// it, for two cycles.
    fn fetch_word(&mut self, cycles: &mut i32, mem: &Mem) -> (data: u16)
        ensures
            data == word_at(mem@, old(self).pc),
            *final(self) == (Cpu { pc: advance(old(self).pc, 2), ..*old(self) }),
            *final(cycles) == spend(*old(cycles) as int, 2),
    {
        let low: u8 = mem.read(self.pc);
        self.increment_pc();
        let high: u8 = mem.read(self.pc);
        self.increment_pc();
        let data: u16 = (low as u16) | ((high as u16) << 8);
        assert(data == low + 0x100 * high) by (bit_vector)
            requires
                data == (low as u16) | ((high as u16) << 8),
        ;
        Cpu::decrement_cycles(cycles, 2);
        data
    }
}

} // verus!
