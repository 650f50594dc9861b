//! The processor status register: seven flags packed into one byte.
//!
//! A [`ProcStatus`] is viewed as the set of [`Flag`]s that are raised in it.
//! Every operation is specified on that set; the byte is only the storage.

use vstd::prelude::*;

verus! {

/// One condition of the processor status register.
#[derive(Clone, Copy, Debug, PartialEq, Eq, Structural, Hash)]
pub enum Flag {
    Carry,
    Zero,
    InterruptDisable,
    Decimal,
    Break,
    Overflow,
    Negative,
}

impl Flag {
    /// The bit that holds this flag in the packed status byte.
    pub open spec fn mask(self) -> u8 {
        match self {
            Flag::Carry => 0x01,
            Flag::Zero => 0x02,
            Flag::InterruptDisable => 0x04,
            Flag::Decimal => 0x08,
            Flag::Break => 0x10,
            Flag::Overflow => 0x20,
            Flag::Negative => 0x40,
        }
    }
}

/// The flags whose bit is set in a packed status byte. Bit 7 holds no flag.
pub open spec fn flags_of(bits: u8) -> Set<Flag> {
    Set::new(|f: Flag| bits & f.mask() != 0)
}

/// A set of status flags, stored as one byte with a fixed bit for each flag.
#[derive(Clone, Copy, Debug, PartialEq, Eq, Structural, Hash)]
pub struct ProcStatus {
    bits: u8,
}

impl View for ProcStatus {
    type V = Set<Flag>;

    /// The flags that are raised.
    open spec fn view(&self) -> Set<Flag> {
        flags_of(self.bits())
    }
}

impl ProcStatus {
    /// The packed byte, as a specification.
    pub closed spec fn spec_bits(&self) -> u8 {
        self.bits
    }

    /// Only the seven flag bits are ever set: bit 7 stays clear.
    #[verifier::type_invariant]
    pub open spec fn wf(&self) -> bool {
        self.bits() <= 0x7F
    }

    /// The status in which exactly `flag` is raised.
    fn only(flag: Flag) -> (r: ProcStatus)
        ensures
            r@ == set![flag],
            r.bits() == flag.mask(),
    {
        let bits: u8 = match flag {
            Flag::Carry => 0x01,
            Flag::Zero => 0x02,
            Flag::InterruptDisable => 0x04,
            Flag::Decimal => 0x08,
            Flag::Break => 0x10,
            Flag::Overflow => 0x20,
            Flag::Negative => 0x40,
        };
        let r = ProcStatus { bits };
        proof {
            assert forall|g: Flag| r@.contains(g) == (g == flag) by {
                lemma_bits_disjoint(flag.mask(), g.mask());
            }
            assert(r@ =~= set![flag]);
        }
        r
    }

    /// Carry flag, bit 0.
    #[allow(non_snake_case)]
    pub fn C() -> (r: ProcStatus)
        ensures
            r@ == set![Flag::Carry],
            r.bits() == 0x01,
    {
        Self::only(Flag::Carry)
    }

    /// Zero flag, bit 1.
    #[allow(non_snake_case)]
    pub fn Z() -> (r: ProcStatus)
        ensures
            r@ == set![Flag::Zero],
            r.bits() == 0x02,
    {
        Self::only(Flag::Zero)
    }

    /// Interrupt-disable flag, bit 2.
    #[allow(non_snake_case)]
    pub fn I() -> (r: ProcStatus)
        ensures
            r@ == set![Flag::InterruptDisable],
            r.bits() == 0x04,
    {
        Self::only(Flag::InterruptDisable)
    }

    /// Decimal-mode flag, bit 3.
    #[allow(non_snake_case)]
    pub fn D() -> (r: ProcStatus)
        ensures
            r@ == set![Flag::Decimal],
            r.bits() == 0x08,
    {
        Self::only(Flag::Decimal)
    }

    /// Break-command flag, bit 4.
    #[allow(non_snake_case)]
    pub fn B() -> (r: ProcStatus)
        ensures
            r@ == set![Flag::Break],
            r.bits() == 0x10,
    {
        Self::only(Flag::Break)
    }

    /// Overflow flag, bit 5.
    #[allow(non_snake_case)]
    pub fn V() -> (r: ProcStatus)
        ensures
            r@ == set![Flag::Overflow],
            r.bits() == 0x20,
    {
        Self::only(Flag::Overflow)
    }

    /// Negative flag, bit 6.
    #[allow(non_snake_case)]
    pub fn N() -> (r: ProcStatus)
        ensures
            r@ == set![Flag::Negative],
            r.bits() == 0x40,
    {
        Self::only(Flag::Negative)
    }

    /// The status with no flag raised.
    pub fn empty() -> (r: ProcStatus)
        ensures
            r@ == Set::<Flag>::empty(),
            r.bits() == 0,
    {
        let r = ProcStatus { bits: 0 };
        proof {
            assert forall|f: Flag| !r@.contains(f) by {
                lemma_bit_of_constant(f.mask());
            }
            assert(r@ =~= Set::<Flag>::empty());
        }
        r
    }

    /// The status with every flag raised.
    pub fn all() -> (r: ProcStatus)
        ensures
            r@ == Set::<Flag>::full(),
            r.bits() == 0x7F,
    {
        let r = ProcStatus { bits: 0x7F };
        proof {
            assert forall|f: Flag| r@.contains(f) by {
                lemma_bit_of_constant(f.mask());
            }
            assert(r@ =~= Set::<Flag>::full());
        }
        r
    }

    /// The packed byte of this status.
    #[verifier::when_used_as_spec(spec_bits)]
    pub fn bits(&self) -> (r: u8)
        ensures
            r == self.bits(),
    {
        self.bits
    }

    /// The status stored in `bits`, unless a bit that holds no flag is set.
    pub fn from_bits(bits: u8) -> (r: Option<ProcStatus>)
        ensures
            r.is_some() <==> bits <= 0x7F,
            r matches Some(s) ==> s.bits() == bits,
    {
        if bits <= 0x7F {
            Some(ProcStatus { bits })
        } else {
            None
        }
    }

    /// The status stored in `bits`, without the bit that holds no flag.
    pub fn from_bits_truncate(bits: u8) -> (r: ProcStatus)
        ensures
            r@ == flags_of(bits),
            r.bits() == bits % 0x80,
    {
        let kept: u8 = bits & 0x7F;
        assert(kept == bits % 0x80) by (bit_vector)
            requires
                kept == bits & 0x7F,
        ;
        let r = ProcStatus { bits: kept };
        proof {
            assert forall|f: Flag| r@.contains(f) == flags_of(bits).contains(f) by {
                lemma_bit_of_masked(bits, f.mask());
            }
            assert(r@ =~= flags_of(bits));
        }
        r
    }

    /// Whether every flag of `other` is raised in `self`.
    pub fn contains(&self, other: ProcStatus) -> (r: bool)
        ensures
            r == other@.subset_of(self@),
    {
        let a: u8 = self.bits;
        let b: u8 = other.bits;
        proof {
            use_type_invariant(&other);
            lemma_subset_by_bits(a, b);
            if other@.subset_of(self@) {
                assert forall|f: Flag| holds_in(b, f) implies holds_in(a, f) by {
                    assert(other@.contains(f));
                    assert(self@.contains(f));
                }
                assert(holds_in(b, Flag::Carry) ==> holds_in(a, Flag::Carry));
                assert(holds_in(b, Flag::Zero) ==> holds_in(a, Flag::Zero));
                assert(holds_in(b, Flag::InterruptDisable) ==> holds_in(a, Flag::InterruptDisable));
                assert(holds_in(b, Flag::Decimal) ==> holds_in(a, Flag::Decimal));
                assert(holds_in(b, Flag::Break) ==> holds_in(a, Flag::Break));
                assert(holds_in(b, Flag::Overflow) ==> holds_in(a, Flag::Overflow));
                assert(holds_in(b, Flag::Negative) ==> holds_in(a, Flag::Negative));
            }
        }
        (a & b) == b
    }

    /// Raises every flag of `other`.
    pub fn insert(&mut self, other: ProcStatus)
        ensures
            final(self)@ == old(self)@.union(other@),
    {
        let a: u8 = self.bits;
        let b: u8 = other.bits;
        proof {
            use_type_invariant(&*self);
            use_type_invariant(&other);
        }
        assert(a | b <= 0x7F) by (bit_vector)
            requires
                a <= 0x7F,
                b <= 0x7F,
        ;
        self.bits = a | b;
        proof {
            assert forall|f: Flag| #[trigger]
                self@.contains(f) == (old(self)@.contains(f) || other@.contains(f)) by {
                lemma_bit_of_or(a, b, f.mask());
            }
            assert(self@ =~= old(self)@.union(other@));
        }
    }

    /// Clears every flag of `other`.
    pub fn remove(&mut self, other: ProcStatus)
        ensures
            final(self)@ == old(self)@.difference(other@),
    {
        let a: u8 = self.bits;
        let b: u8 = other.bits;
        proof {
            use_type_invariant(&*self);
        }
        assert(a & !b <= 0x7F) by (bit_vector)
            requires
                a <= 0x7F,
        ;
        self.bits = a & !b;
        proof {
            assert forall|f: Flag| #[trigger]
                self@.contains(f) == (old(self)@.contains(f) && !other@.contains(f)) by {
                lemma_bit_of_and_not(a, b, f.mask());
            }
            assert(self@ =~= old(self)@.difference(other@));
        }
    }

    /// Raises the flags of `other` if `value` holds, and clears them if not.
    pub fn set(&mut self, other: ProcStatus, value: bool)
        ensures
            final(self)@ == if value {
                old(self)@.union(other@)
            } else {
                old(self)@.difference(other@)
            },
    {
        if value {
            self.insert(other);
        } else {
            self.remove(other);
        }
    }
}

/// Whether the bit of `f` is set in `bits`.
spec fn holds_in(bits: u8, f: Flag) -> bool {
    bits & f.mask() != 0
}

/// Whether `m` is the bit of one of the seven flags.
spec fn is_flag_bit(m: u8) -> bool {
    m == 0x01 || m == 0x02 || m == 0x04 || m == 0x08 || m == 0x10 || m == 0x20 || m == 0x40
}

/// Two flag bits overlap only if they are the same bit.
proof fn lemma_bits_disjoint(m: u8, n: u8)
    by (bit_vector)
    requires
        is_flag_bit(m),
        is_flag_bit(n),
    ensures
        (m & n != 0) == (m == n),
{
}

/// No flag bit is set in 0, and each is set in 0x7F.
proof fn lemma_bit_of_constant(m: u8)
    by (bit_vector)
    requires
        is_flag_bit(m),
    ensures
        0u8 & m == 0,
        0x7Fu8 & m != 0,
{
}

/// Dropping bit 7 changes no flag bit.
proof fn lemma_bit_of_masked(bits: u8, m: u8)
    by (bit_vector)
    requires
        is_flag_bit(m),
    ensures
        ((bits & 0x7F) & m != 0) == (bits & m != 0),
{
}

/// A bit is set in `a | b` exactly if it is set in `a` or in `b`.
proof fn lemma_bit_of_or(a: u8, b: u8, m: u8)
    by (bit_vector)
    requires
        is_flag_bit(m),
    ensures
        ((a | b) & m != 0) == (a & m != 0 || b & m != 0),
{
}

/// A bit is set in `a & !b` exactly if it is set in `a` and not in `b`.
proof fn lemma_bit_of_and_not(a: u8, b: u8, m: u8)
    by (bit_vector)
    requires
        is_flag_bit(m),
    ensures
        ((a & !b) & m != 0) == (a & m != 0 && b & m == 0),
{
}

/// `b` is covered by `a` exactly if each flag bit of `b` is set in `a`.
proof fn lemma_subset_by_bits(a: u8, b: u8)
    by (bit_vector)
    requires
        b <= 0x7F,
    ensures
        (a & b == b) == ((b & 0x01 != 0 ==> a & 0x01 != 0) && (b & 0x02 != 0 ==> a & 0x02 != 0) && (
        b & 0x04 != 0 ==> a & 0x04 != 0) && (b & 0x08 != 0 ==> a & 0x08 != 0) && (b & 0x10 != 0
            ==> a & 0x10 != 0) && (b & 0x20 != 0 ==> a & 0x20 != 0) && (b & 0x40 != 0 ==> a & 0x40
            != 0)),
{
}

/// Two bytes without bit 7 that agree on every flag bit are equal.
proof fn lemma_equal_by_bits(a: u8, b: u8)
    by (bit_vector)
    requires
        a <= 0x7F,
        b <= 0x7F,
        (a & 0x01 != 0) == (b & 0x01 != 0),
        (a & 0x02 != 0) == (b & 0x02 != 0),
        (a & 0x04 != 0) == (b & 0x04 != 0),
        (a & 0x08 != 0) == (b & 0x08 != 0),
        (a & 0x10 != 0) == (b & 0x10 != 0),
        (a & 0x20 != 0) == (b & 0x20 != 0),
        (a & 0x40 != 0) == (b & 0x40 != 0),
    ensures
        a == b,
{
}

/// A status is determined by the flags raised in it: two statuses with the
/// same flags are the same value.
pub proof fn lemma_status_determined_by_flags(a: ProcStatus, b: ProcStatus)
    requires
        a.wf(),
        b.wf(),
        a@ == b@,
    ensures
        a == b,
{
    assert forall|f: Flag| holds_in(a.bits(), f) == holds_in(b.bits(), f) by {
        assert(a@.contains(f) == holds_in(a.bits(), f));
        assert(b@.contains(f) == holds_in(b.bits(), f));
    }
    assert(holds_in(a.bits(), Flag::Carry) == holds_in(b.bits(), Flag::Carry));
    assert(holds_in(a.bits(), Flag::Zero) == holds_in(b.bits(), Flag::Zero));
    assert(holds_in(a.bits(), Flag::InterruptDisable) == holds_in(b.bits(), Flag::InterruptDisable));
    assert(holds_in(a.bits(), Flag::Decimal) == holds_in(b.bits(), Flag::Decimal));
    assert(holds_in(a.bits(), Flag::Break) == holds_in(b.bits(), Flag::Break));
    assert(holds_in(a.bits(), Flag::Overflow) == holds_in(b.bits(), Flag::Overflow));
    assert(holds_in(a.bits(), Flag::Negative) == holds_in(b.bits(), Flag::Negative));
    lemma_equal_by_bits(a.bits(), b.bits());
}

} // verus!
