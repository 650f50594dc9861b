//! The memory of the machine: 64 KiB of bytes, one for every 16-bit address.

use crate::cpu::Cpu;
use crate::machine::{high_byte, low_byte, spend, store_word};
use crate::ops::OP_NOP;
use vstd::prelude::*;

verus! {

/// The number of bytes in memory: one for each 16-bit address.
pub const MAX_MEM: usize = 0x1_0000;

/// The whole address space of the machine.
#[derive(Debug)]
pub struct Mem {
    pub data: [u8; MAX_MEM],
}

impl View for Mem {
    type V = Seq<u8>;

    /// The bytes in address order.
    open spec fn view(&self) -> Seq<u8> {
        self.data@
    }
}

impl Mem {
    /// A memory in which every cell holds the no-op filler.
    pub fn new() -> (r: Mem)
        ensures
            r@ == blank(),
    {
        let r = Mem { data: [OP_NOP;MAX_MEM] };
        assert(r@ =~= blank());
        r
    }

    /// Fills every cell with the no-op filler; what was stored is lost.
    pub fn initialize(&mut self)
        ensures
            final(self)@ == blank(),
    {
        self.data = [OP_NOP;MAX_MEM];
        assert(self@ =~= blank());
    }

    /// The byte at `address`.
    pub fn read(&self, address: u16) -> (r: u8)
        ensures
            r == self@[address as int],
    {
        self.data[address as usize]
    }

    /// Stores `value` at `address`.
    pub fn write(&mut self, address: u16, value: u8)
        ensures
            final(self)@ == old(self)@.update(address as int, value),
    {
        self.data[address as usize] = value;
    }

    /// Stores `data` at `addr`, low byte first and high byte at the address
    /// after it, which is address 0 where `addr` is the last one. The store
    /// takes two cycles of the budget.
    pub fn write_word(&mut self, cycles: &mut i32, addr: u16, data: u16)
        ensures
            final(self)@ == store_word(old(self)@, addr, data),
            *final(cycles) == spend(*old(cycles) as int, 2),
    {
        let low: u8 = #[verifier::truncate] (data as u8);
        let high: u8 = #[verifier::truncate] ((data >> 8) as u8);
        assert(low == low_byte(data) && high == high_byte(data)) by (bit_vector)
            requires
                low == data as u8,
                high == (data >> 8) as u8,
        ;
        self.write(addr, low);
        self.write(addr.wrapping_add(1), high);
        Cpu::decrement_cycles(cycles, 2);
    }
}

impl std::ops::Index<usize> for Mem {
    type Output = u8;

    fn index(&self, index: usize) -> (r: &u8)
        ensures
            *r == self@[index as int],
    {
        &self.data[index]
    }
}

impl std::ops::IndexMut<usize> for Mem {
    fn index_mut(&mut self, index: usize) -> (r: &mut u8)
        requires
            index < MAX_MEM,
        ensures
            *r == old(self)@[index as int],
            final(self)@ == old(self)@.update(index as int, *final(r)),
    {
        &mut self.data[index]
    }
}

impl vstd::std_specs::core::IndexSpecImpl<usize> for Mem {
    open spec fn index_req(&self, index: &usize) -> bool {
        *index < MAX_MEM
    }
}

/// The contents of a memory that holds nothing but filler.
pub open spec fn blank() -> Seq<u8> {
    Seq::new(MAX_MEM as nat, |i: int| OP_NOP)
}

} // verus!
