//! The machine as mathematics: what one instruction does to the registers,
//! the memory and the cycle budget, and what a whole run amounts to.
//!
//! Nothing here is executable. The processor in `cpu` is specified against
//! these definitions.

use crate::mem::MAX_MEM;
use crate::ops::{Instruction, OP_NOP};
use crate::status::Flag;
use vstd::prelude::*;

verus! {

/// The address from which execution starts after a reset.
pub const RESET_VECTOR: u16 = 0xFFFC;

/// The first address of the page that holds the stack.
pub const STACK_PAGE: u16 = 0x0100;

/// The registers of the processor, with the status as a set of flags.
#[verifier::ext_equal]
pub struct Registers {
    pub pc: u16,
    pub sp: u8,
    pub a: u8,
    pub x: u8,
    pub y: u8,
    pub flags: Set<Flag>,
}

/// The processor, its memory and the cycles it may still spend.
#[verifier::ext_equal]
pub struct Machine {
    pub cpu: Registers,
    pub mem: Seq<u8>,
    pub cycles: int,
}

/// The failure of a fetch that met a byte outside the instruction table.
#[derive(Clone, Copy, Debug, PartialEq, Eq, Structural, Hash)]
pub struct InvalidOpcode {
    /// The byte that was fetched.
    pub opcode: u8,
    /// The address it was fetched from.
    pub pc: u16,
}

/// How a run ended: the machine as it was left, and the failure that
/// stopped it, if one did.
#[verifier::ext_equal]
pub struct Outcome {
    pub machine: Machine,
    pub fault: Option<InvalidOpcode>,
}

/// The budget that is left of `cycles` after `cost` is taken: never below zero.
pub open spec fn spend(cycles: int, cost: int) -> int {
    if cycles - cost > 0 {
        cycles - cost
    } else {
        0
    }
}

/// The address `n` bytes after `addr`, wrapping round at the end of memory.
pub open spec fn advance(addr: u16, n: int) -> u16 {
    ((addr + n) % 0x1_0000) as u16
}

/// The low byte of a word.
pub open spec fn low_byte(word: u16) -> u8 {
    (word % 0x100) as u8
}

/// The high byte of a word.
pub open spec fn high_byte(word: u16) -> u8 {
    (word / 0x100) as u8
}

/// The word with the given low and high byte.
pub open spec fn word_of(low: u8, high: u8) -> u16 {
    (low + 0x100 * high) as u16
}

/// The little-endian word stored at `addr` and the address after it.
pub open spec fn word_at(mem: Seq<u8>, addr: u16) -> u16 {
    word_of(mem[addr as int], mem[advance(addr, 1) as int])
}

/// The memory after `word` is stored at `addr`, low byte first.
pub open spec fn store_word(mem: Seq<u8>, addr: u16, word: u16) -> Seq<u8> {
    mem.update(addr as int, low_byte(word)).update(advance(addr, 1) as int, high_byte(word))
}

/// The address in the stack page that a stack pointer stands for.
pub open spec fn stack_address(sp: u8) -> u16 {
    (STACK_PAGE + sp) as u16
}

/// The status after `value` was loaded: Zero and Negative follow the value,
/// every other flag stays as it was.
pub open spec fn flags_after_load(flags: Set<Flag>, value: u8) -> Set<Flag> {
    let others = flags.remove(Flag::Zero).remove(Flag::Negative);
    if value == 0 {
        others.insert(Flag::Zero)
    } else if value >= 0x80 {
        others.insert(Flag::Negative)
    } else {
        others
    }
}

/// The registers right after a reset.
pub open spec fn reset_registers() -> Registers {
    Registers { pc: RESET_VECTOR, sp: 0, a: 0, x: 0, y: 0, flags: Set::empty() }
}

impl Machine {
    /// Memory covers the whole address space.
    pub open spec fn wf(self) -> bool {
        self.mem.len() == MAX_MEM
    }

    /// The byte that the program counter points at.
    pub open spec fn opcode(self) -> u8 {
        self.mem[self.cpu.pc as int]
    }

    /// The instruction that the program counter points at, if the byte
    /// there is one.
    pub open spec fn instruction(self) -> Option<Instruction> {
        Instruction::of(self.opcode())
    }

    /// The failure that the next fetch ends in, if the byte at the program
    /// counter is no instruction.
    pub open spec fn fault(self) -> Option<InvalidOpcode> {
        match self.instruction() {
            Some(_) => None,
            None => Some(InvalidOpcode { opcode: self.opcode(), pc: self.cpu.pc }),
        }
    }

    /// The address that a load reads its value from.
    pub open spec fn operand_address(self, instruction: Instruction) -> u16 {
        let following = self.mem[advance(self.cpu.pc, 1) as int];
        match instruction {
            Instruction::LdaZeroPage => following as u16,
            Instruction::LdaZeroPageX => ((following + self.cpu.x) % 0x100) as u16,
            _ => advance(self.cpu.pc, 1),
        }
    }

    /// The machine after a load of the accumulator.
    pub open spec fn load(self, instruction: Instruction) -> Machine {
        let value = self.mem[self.operand_address(instruction) as int];
        Machine {
            cpu: Registers {
                pc: advance(self.cpu.pc, instruction.length()),
                a: value,
                flags: flags_after_load(self.cpu.flags, value),
                ..self.cpu
            },
            mem: self.mem,
            cycles: spend(self.cycles, instruction.cost()),
        }
    }

    /// The machine after a jump to a subroutine: the address of the
    /// instruction's last byte is stored at the stack address, the stack
    /// pointer moves up by one, and execution goes on at the target.
    pub open spec fn jump_to_subroutine(self) -> Machine {
        Machine {
            cpu: Registers {
                pc: word_at(self.mem, advance(self.cpu.pc, 1)),
                sp: ((self.cpu.sp + 1) % 0x100) as u8,
                ..self.cpu
            },
            mem: store_word(self.mem, stack_address(self.cpu.sp), advance(self.cpu.pc, 2)),
            cycles: spend(self.cycles, Instruction::Jsr.cost()),
        }
    }

    /// The machine after the fetch of the byte at the program counter, and
    /// nothing more.
    pub open spec fn after_fetch(self) -> Machine {
        Machine {
            cpu: Registers { pc: advance(self.cpu.pc, 1), ..self.cpu },
            mem: self.mem,
            cycles: spend(self.cycles, 1),
        }
    }

    /// The machine after the instruction at the program counter. Where the
    /// byte there is no instruction, only its fetch takes place.
    pub open spec fn step(self) -> Machine {
        match self.instruction() {
            None => self.after_fetch(),
            Some(Instruction::Jsr) => self.jump_to_subroutine(),
            Some(Instruction::Nop) => Machine {
                cycles: spend(self.cycles, Instruction::Nop.cost()),
                ..self.after_fetch()
            },
            Some(instruction) => self.load(instruction),
        }
    }

    /// The run of the machine on its budget: instructions are executed while
    /// cycles are left, and the run stops at the first byte that is no
    /// instruction.
    pub open spec fn run(self) -> Outcome
        decreases self.cycles,
    {
        if self.cycles <= 0 {
            Outcome { machine: self, fault: None }
        } else if self.fault().is_some() {
            Outcome { machine: self.step(), fault: self.fault() }
        } else {
            self.step().run()
        }
    }

    /// The machine after a reset: registers at their reset values, memory
    /// filled with the no-op filler. The budget is not touched.
    pub open spec fn reset(self) -> Machine {
        Machine { cpu: reset_registers(), mem: crate::mem::blank(), cycles: self.cycles }
    }
}

/// A load raises Zero exactly if the loaded value is zero and Negative
/// exactly if its bit 7 is set, never both, and changes no other flag.
pub proof fn lemma_flags_after_load(flags: Set<Flag>, value: u8)
    ensures
        flags_after_load(flags, value).contains(Flag::Zero) <==> value == 0,
        flags_after_load(flags, value).contains(Flag::Negative) <==> value >= 0x80,
        !(flags_after_load(flags, value).contains(Flag::Zero) && flags_after_load(
            flags,
            value,
        ).contains(Flag::Negative)),
        forall|f: Flag|
            f != Flag::Zero && f != Flag::Negative ==> (#[trigger] flags_after_load(
                flags,
                value,
            ).contains(f) <==> flags.contains(f)),
{
}

/// A load with an immediate operand puts the byte after the opcode in the
/// accumulator, whatever that byte is, and sets Zero and Negative by it.
pub proof fn lemma_load_immediate(m: Machine)
    requires
        m.instruction() == Some(Instruction::LdaImmediate),
    ensures
        m.step().cpu.a == m.mem[advance(m.cpu.pc, 1) as int],
        m.step().cpu.flags.contains(Flag::Zero) <==> m.step().cpu.a == 0,
        m.step().cpu.flags.contains(Flag::Negative) <==> m.step().cpu.a >= 0x80,
        !(m.step().cpu.flags.contains(Flag::Zero) && m.step().cpu.flags.contains(Flag::Negative)),
        m.step().mem == m.mem,
{
    lemma_flags_after_load(m.cpu.flags, m.mem[advance(m.cpu.pc, 1) as int]);
}

/// Every instruction takes its cost from the budget, which stops at zero;
/// a load or a no-op leaves the program counter just behind itself.
pub proof fn lemma_step_cost(m: Machine, instruction: Instruction)
    requires
        m.instruction() == Some(instruction),
    ensures
        m.step().cycles == spend(m.cycles, instruction.cost()),
        instruction != Instruction::Jsr ==> m.step().cpu.pc == advance(
            m.cpu.pc,
            instruction.length(),
        ),
{
}

/// On a budget of two cycles a load with an immediate operand is the whole
/// run: it takes both cycles and moves the program counter on by two.
pub proof fn lemma_load_immediate_on_two_cycles(m: Machine)
    requires
        m.instruction() == Some(Instruction::LdaImmediate),
        m.cycles == 2,
    ensures
        m.run() == (Outcome { machine: m.step(), fault: None }),
        m.run().machine.cycles == 0,
        m.run().machine.cpu.pc == advance(m.cpu.pc, 2),
{
    reveal_with_fuel(Machine::run, 2);
}

/// A jump to a subroutine leaves the address of its own last byte, which is
/// two after its opcode, as a little-endian word at the stack address that
/// the stack pointer stood for before the jump.
pub proof fn lemma_jump_stores_return_address(m: Machine)
    requires
        m.wf(),
        m.instruction() == Some(Instruction::Jsr),
    ensures
        word_at(m.step().mem, stack_address(m.cpu.sp)) == advance(m.cpu.pc, 2),
        m.step().cpu.pc == word_at(m.mem, advance(m.cpu.pc, 1)),
        m.step().cpu.sp == (m.cpu.sp + 1) % 0x100,
        m.step().wf(),
{
    let word = advance(m.cpu.pc, 2);
    assert(word_of(low_byte(word), high_byte(word)) == word);
}

/// Only a load changes the status, only a jump to a subroutine changes
/// memory or the stack pointer, and no instruction of the table changes an
/// index register.
pub proof fn lemma_step_leaves_the_rest(m: Machine)
    ensures
        m.step().cpu.x == m.cpu.x,
        m.step().cpu.y == m.cpu.y,
        m.instruction() != Some(Instruction::Jsr) ==> m.step().mem == m.mem && m.step().cpu.sp
            == m.cpu.sp,
        m.instruction() is None || m.instruction() == Some(Instruction::Jsr) || m.instruction()
            == Some(Instruction::Nop) ==> m.step().cpu.flags == m.cpu.flags && m.step().cpu.a
            == m.cpu.a,
{
}

/// Whatever the stack pointer, the address it stands for lies in the stack
/// page.
pub proof fn lemma_stack_address_in_page(sp: u8)
    ensures
        0x0100 <= stack_address(sp) <= 0x01FF,
{
}

/// A byte outside the instruction table, met while cycles are left, ends
/// the run with a failure that names the byte and the address it was
/// fetched from. Of the machine only the fetch is seen.
pub proof fn lemma_unmapped_opcode_stops_run(m: Machine)
    requires
        m.cycles > 0,
        Instruction::of(m.opcode()) is None,
    ensures
        m.run().fault == Some(InvalidOpcode { opcode: m.opcode(), pc: m.cpu.pc }),
        m.run().machine == m.after_fetch(),
{
}

/// A run fails only at a byte outside the instruction table.
pub proof fn lemma_run_fails_at_unmapped_opcode(m: Machine)
    ensures
        m.run().fault matches Some(fault) ==> Instruction::of(fault.opcode) is None,
    decreases m.cycles,
{
    if m.cycles > 0 && m.fault().is_none() {
        lemma_run_fails_at_unmapped_opcode(m.step());
    }
}

/// A run that does not fail uses its budget up.
pub proof fn lemma_run_exhausts_budget(m: Machine)
    requires
        m.cycles >= 0,
    ensures
        m.run().fault is None ==> m.run().machine.cycles == 0,
    decreases m.cycles,
{
    if m.cycles > 0 && m.fault().is_none() {
        lemma_run_exhausts_budget(m.step());
    }
}

/// A run keeps memory whole.
pub proof fn lemma_run_keeps_memory_whole(m: Machine)
    requires
        m.wf(),
    ensures
        m.run().machine.wf(),
    decreases m.cycles,
{
    if m.cycles > 0 && m.fault().is_none() {
        lemma_run_keeps_memory_whole(m.step());
    }
}

/// A reset can always be made, leaves the no-op filler in every cell of
/// memory, and a second reset changes nothing.
pub proof fn lemma_reset_idempotent(m: Machine)
    ensures
        m.reset().reset() == m.reset(),
        m.reset().cpu == reset_registers(),
        m.reset().wf(),
        forall|address: int| 0 <= address < MAX_MEM ==> #[trigger] m.reset().mem[address] == OP_NOP,
{
}

} // verus!
