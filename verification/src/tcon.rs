//! The terminal control register as a set of flags.
//!
//! The register is nine bits wide. Bit 8 enables general call commands; bits
//! 7..4 belong to resistor 1 and bits 3..0 to resistor 0, each nibble holding
//! hardware control, terminal A, wiper and terminal B, in that order.
use vstd::prelude::*;

verus! {

/// One flag of the terminal control register.
#[derive(Clone, Copy, PartialEq, Eq, Structural, Debug)]
pub enum TconFlag {
    /// Enable general call commands
    Gcen,
    /// Resistor 1 hardware control (set when enabled)
    R1Hw,
    /// Resistor 1 terminal A connect
    R1A,
    /// Resistor 1 wiper connect
    R1W,
    /// Resistor 1 terminal B connect
    R1B,
    /// Resistor 0 hardware control (set when enabled)
    R0Hw,
    /// Resistor 0 terminal A connect
    R0A,
    /// Resistor 0 wiper connect
    R0W,
    /// Resistor 0 terminal B connect
    R0B,
}

impl TconFlag {
    /// The register bit of this flag, as a mask.
    pub open spec fn spec_mask(self) -> u16 {
        match self {
            TconFlag::Gcen => 0x100,
            TconFlag::R1Hw => 0x080,
            TconFlag::R1A => 0x040,
            TconFlag::R1W => 0x020,
            TconFlag::R1B => 0x010,
            TconFlag::R0Hw => 0x008,
            TconFlag::R0A => 0x004,
            TconFlag::R0W => 0x002,
            TconFlag::R0B => 0x001,
        }
    }

    /// The register bit of this flag, as a mask.
    #[verifier::when_used_as_spec(spec_mask)]
    pub fn mask(self) -> (mask: u16)
        ensures
            mask == self.spec_mask(),
    {
        match self {
            TconFlag::Gcen => 0x100,
            TconFlag::R1Hw => 0x080,
            TconFlag::R1A => 0x040,
            TconFlag::R1W => 0x020,
            TconFlag::R1B => 0x010,
            TconFlag::R0Hw => 0x008,
            TconFlag::R0A => 0x004,
            TconFlag::R0W => 0x002,
            TconFlag::R0B => 0x001,
        }
    }
}

/// The mask of the nine register bits.
pub const ALL_BITS: u16 = 0x1ff;

/// The flags whose bits are set in a raw register value. Bits above bit 8
/// stand for no flag.
pub open spec fn flags_of(bits: u16) -> Set<TconFlag> {
    Set::new(|flag: TconFlag| bits & flag.mask() != 0)
}

/// What one flag adds to the raw register value of a set of flags.
pub open spec fn weight(flags: Set<TconFlag>, flag: TconFlag) -> int {
    if flags.contains(flag) {
        flag.mask() as int
    } else {
        0
    }
}

/// The raw register value of a set of flags: the sum of their masks.
pub open spec fn bits_of(flags: Set<TconFlag>) -> int {
    weight(flags, TconFlag::Gcen) + weight(flags, TconFlag::R1Hw) + weight(flags, TconFlag::R1A)
        + weight(flags, TconFlag::R1W) + weight(flags, TconFlag::R1B) + weight(
        flags,
        TconFlag::R0Hw,
    ) + weight(flags, TconFlag::R0A) + weight(flags, TconFlag::R0W) + weight(
        flags,
        TconFlag::R0B,
    )
}

/// The four flags of resistor 0.
pub open spec fn r0_flags() -> Set<TconFlag> {
    set![TconFlag::R0Hw, TconFlag::R0A, TconFlag::R0W, TconFlag::R0B]
}

/// The four flags of resistor 1.
pub open spec fn r1_flags() -> Set<TconFlag> {
    set![TconFlag::R1Hw, TconFlag::R1A, TconFlag::R1W, TconFlag::R1B]
}

/// A value of the terminal control register.
#[derive(Clone, Copy, PartialEq, Eq, Structural, Debug)]
pub struct Tcon {
    bits: u16,
}

impl View for Tcon {
    type V = Set<TconFlag>;

    closed spec fn view(&self) -> Set<TconFlag> {
        flags_of(self.bits)
    }
}

impl Tcon {
    /// No bit above bit 8 is ever set.
    #[verifier::type_invariant]
    pub closed spec fn wf(self) -> bool {
        self.bits <= ALL_BITS
    }

    /// The raw register value.
    pub closed spec fn spec_bits(&self) -> u16 {
        self.bits
    }

    /// The value that [`Tcon::from_bits_truncate`] makes of a raw register
    /// value.
    pub closed spec fn spec_from_bits_truncate(bits: u16) -> Tcon {
        Tcon { bits: bits & ALL_BITS }
    }

    /// No flag set.
    pub fn empty() -> (tcon: Tcon)
        ensures
            tcon@ == Set::<TconFlag>::empty(),
            tcon.wf(),
    {
        let tcon = Tcon { bits: 0 };
        proof {
            assert forall|flag: TconFlag| !(#[trigger] tcon@.contains(flag)) by {
                lemma_bit_fixed(flag.mask());
            }
            assert(tcon@ =~= Set::<TconFlag>::empty());
        }
        tcon
    }

    /// Every flag set.
    pub fn all() -> (tcon: Tcon)
        ensures
            tcon@ == Set::<TconFlag>::full(),
            tcon.wf(),
    {
        let tcon = Tcon { bits: ALL_BITS };
        proof {
            assert forall|flag: TconFlag| #[trigger] tcon@.contains(flag) by {
                lemma_bit_fixed(flag.mask());
            }
            assert(tcon@ =~= Set::<TconFlag>::full());
        }
        tcon
    }

    /// One flag set and no other.
    pub fn flag(flag: TconFlag) -> (tcon: Tcon)
        ensures
            tcon@ == set![flag],
            tcon.wf(),
    {
        let tcon = Tcon { bits: flag.mask() };
        proof {
            assert forall|other: TconFlag| #[trigger] tcon@.contains(other) == (other == flag) by {
                lemma_bit_single(flag.mask(), other.mask());
            }
            assert(tcon@ =~= set![flag]);
        }
        tcon
    }

    /// Every terminal of resistor 0 connected, under hardware control.
    pub fn r0_all() -> (tcon: Tcon)
        ensures
            tcon@ == r0_flags(),
            tcon.wf(),
    {
        Tcon::flag(TconFlag::R0Hw).union(Tcon::flag(TconFlag::R0A)).union(
            Tcon::flag(TconFlag::R0W),
        ).union(Tcon::flag(TconFlag::R0B))
    }

    /// Every terminal of resistor 1 connected, under hardware control.
    pub fn r1_all() -> (tcon: Tcon)
        ensures
            tcon@ == r1_flags(),
            tcon.wf(),
    {
        Tcon::flag(TconFlag::R1Hw).union(Tcon::flag(TconFlag::R1A)).union(
            Tcon::flag(TconFlag::R1W),
        ).union(Tcon::flag(TconFlag::R1B))
    }

    /// Both resistors as [`Tcon::r0_all`] and [`Tcon::r1_all`] set them.
    pub fn r01() -> (tcon: Tcon)
        ensures
            tcon@ == r0_flags().union(r1_flags()),
            tcon.wf(),
    {
        Tcon::r0_all().union(Tcon::r1_all())
    }

    /// The raw register value: the sum of the masks of the flags that are set.
    #[verifier::when_used_as_spec(spec_bits)]
    pub fn bits(&self) -> (bits: u16)
        ensures
            bits == self.spec_bits(),
            bits == bits_of(self@),
            bits <= ALL_BITS,
            flags_of(bits) == self@,
    {
        proof {
            use_type_invariant(self);
            lemma_bits_of_flags(self.bits);
        }
        self.bits
    }

    /// The flags whose bits are set in `bits`; bits above bit 8 are dropped.
    pub fn from_bits_truncate(bits: u16) -> (tcon: Tcon)
        ensures
            tcon == Tcon::spec_from_bits_truncate(bits),
            tcon@ == flags_of(bits),
            tcon.wf(),
    {
        proof {
            Tcon::lemma_from_bits_truncate(bits);
        }
        Tcon { bits: bits & ALL_BITS }
    }

    /// The flags whose bits are set in `bits`, unless a bit above bit 8 is
    /// set.
    pub fn from_bits(bits: u16) -> (found: Option<Tcon>)
        ensures
            bits <= ALL_BITS ==> found == Some(Tcon::spec_from_bits_truncate(bits)),
            bits > ALL_BITS ==> found is None,
            found matches Some(tcon) ==> tcon.wf() && tcon@ == flags_of(bits) && tcon.bits()
                == bits,
    {
        if bits <= ALL_BITS {
            proof {
                Tcon::lemma_from_bits_truncate(bits);
                lemma_truncate(bits);
            }
            Some(Tcon { bits })
        } else {
            None
        }
    }

    /// Whether no flag is set.
    pub fn is_empty(&self) -> (none: bool)
        ensures
            none == (self@ == Set::<TconFlag>::empty()),
    {
        proof {
            use_type_invariant(self);
            Tcon::lemma_equal_by_flags(*self, Tcon { bits: 0 });
            assert forall|flag: TconFlag| !(#[trigger] flags_of(0).contains(flag)) by {
                lemma_bit_fixed(flag.mask());
            }
            assert(flags_of(0) =~= Set::<TconFlag>::empty());
        }
        self.bits == 0
    }

    /// Whether every flag of `other` is set in `self`.
    pub fn contains(&self, other: Tcon) -> (all: bool)
        ensures
            all == other@.subset_of(self@),
    {
        let common = self.intersection(other);
        proof {
            use_type_invariant(other);
            use_type_invariant(common);
            Tcon::lemma_equal_by_flags(common, other);
            if other@.subset_of(self@) {
                assert(common@ =~= other@);
            }
        }
        common.bits == other.bits
    }

    /// The flags that are set in `self` or in `other`.
    pub fn union(self, other: Tcon) -> (tcon: Tcon)
        ensures
            tcon@ == self@.union(other@),
            tcon.wf(),
    {
        let bits: u16 = self.bits | other.bits;
        proof {
            use_type_invariant(self);
            use_type_invariant(other);
            lemma_bits_stay_low(self.bits, other.bits);
            assert forall|flag: TconFlag| #[trigger]
                flags_of(bits).contains(flag) == self@.union(other@).contains(flag) by {
                lemma_bit_or(self.bits, other.bits, flag.mask());
            }
            assert(flags_of(bits) =~= self@.union(other@));
        }
        Tcon { bits }
    }

    /// The flags that are set in `self` and in `other`.
    pub fn intersection(self, other: Tcon) -> (tcon: Tcon)
        ensures
            tcon@ == self@.intersect(other@),
            tcon.wf(),
    {
        let bits: u16 = self.bits & other.bits;
        proof {
            use_type_invariant(self);
            use_type_invariant(other);
            lemma_bits_stay_low(self.bits, other.bits);
            assert forall|flag: TconFlag| #[trigger]
                flags_of(bits).contains(flag) == self@.intersect(other@).contains(flag) by {
                lemma_bit_and(self.bits, other.bits, flag.mask());
            }
            assert(flags_of(bits) =~= self@.intersect(other@));
        }
        Tcon { bits }
    }

    /// The flags that are set in `self` and not in `other`.
    pub fn difference(self, other: Tcon) -> (tcon: Tcon)
        ensures
            tcon@ == self@.difference(other@),
            tcon.wf(),
    {
        let bits: u16 = self.bits & !other.bits;
        proof {
            use_type_invariant(self);
            use_type_invariant(other);
            lemma_bits_stay_low(self.bits, other.bits);
            assert forall|flag: TconFlag| #[trigger]
                flags_of(bits).contains(flag) == self@.difference(other@).contains(flag) by {
                lemma_bit_and_not(self.bits, other.bits, flag.mask());
            }
            assert(flags_of(bits) =~= self@.difference(other@));
        }
        Tcon { bits }
    }

    /// Sets every flag of `other`.
    pub fn insert(&mut self, other: Tcon)
        ensures
            final(self)@ == old(self)@.union(other@),
            final(self).wf(),
    {
        *self = self.union(other);
    }

    /// Clears every flag of `other`.
    pub fn remove(&mut self, other: Tcon)
        ensures
            final(self)@ == old(self)@.difference(other@),
            final(self).wf(),
    {
        *self = self.difference(other);
    }

    /// Sets the flags of `other` where `value` holds, and clears them where
    /// it does not.
    pub fn set(&mut self, other: Tcon, value: bool)
        ensures
            value ==> final(self)@ == old(self)@.union(other@),
            !value ==> final(self)@ == old(self)@.difference(other@),
            final(self).wf(),
    {
        if value {
            self.insert(other);
        } else {
            self.remove(other);
        }
    }

    /// Truncation keeps the flags of a raw value and nothing else.
    pub proof fn lemma_from_bits_truncate(bits: u16)
        ensures
            Tcon::spec_from_bits_truncate(bits).wf(),
            Tcon::spec_from_bits_truncate(bits)@ == flags_of(bits),
            Tcon::spec_from_bits_truncate(bits).spec_bits() == bits % 0x200,
    {
        let kept: u16 = bits & ALL_BITS;
        lemma_truncate(bits);
        assert forall|flag: TconFlag| #[trigger]
            flags_of(kept).contains(flag) == flags_of(bits).contains(flag) by {
            lemma_bit_truncate(bits, flag.mask());
        }
        assert(flags_of(kept) =~= flags_of(bits));
    }

    /// The raw value of a register value is the sum of the masks of its
    /// flags, and gives those flags back.
    pub proof fn lemma_bits(self)
        requires
            self.wf(),
        ensures
            self.spec_bits() == bits_of(self@),
            self.spec_bits() <= ALL_BITS,
            flags_of(self.spec_bits()) == self@,
            Tcon::spec_from_bits_truncate(self.spec_bits()) == self,
    {
        lemma_bits_of_flags(self.bits);
        lemma_truncate(self.bits);
    }

    /// Two register values are equal exactly when they hold the same flags.
    pub proof fn lemma_equal_by_flags(a: Tcon, b: Tcon)
        requires
            a.wf(),
            b.wf(),
        ensures
            (a == b) == (a@ == b@),
            (a == b) == (a.spec_bits() == b.spec_bits()),
    {
        if a@ == b@ {
            lemma_bits_of_flags(a.bits);
            lemma_bits_of_flags(b.bits);
        }
    }
}

/// The masks of the nine flags.
pub open spec fn is_flag_mask(m: u16) -> bool {
    m == 0x100 || m == 0x80 || m == 0x40 || m == 0x20 || m == 0x10 || m == 0x08 || m == 0x04 || m
        == 0x02 || m == 0x01
}

proof fn lemma_bit_fixed(m: u16)
    by (bit_vector)
    requires
        is_flag_mask(m),
    ensures
        0u16 & m == 0,
        0x1ffu16 & m != 0,
{
}

proof fn lemma_bit_single(m: u16, n: u16)
    by (bit_vector)
    requires
        is_flag_mask(m),
        is_flag_mask(n),
    ensures
        (m & n != 0) == (m == n),
        m <= 0x1ff,
{
}

proof fn lemma_bit_or(a: u16, b: u16, m: u16)
    by (bit_vector)
    ensures
        ((a | b) & m != 0) == (a & m != 0 || b & m != 0),
{
}

proof fn lemma_bit_and(a: u16, b: u16, m: u16)
    by (bit_vector)
    requires
        is_flag_mask(m),
    ensures
        ((a & b) & m != 0) == (a & m != 0 && b & m != 0),
{
}

proof fn lemma_bit_and_not(a: u16, b: u16, m: u16)
    by (bit_vector)
    requires
        is_flag_mask(m),
    ensures
        ((a & !b) & m != 0) == (a & m != 0 && !(b & m != 0)),
{
}

proof fn lemma_bit_truncate(a: u16, m: u16)
    by (bit_vector)
    requires
        is_flag_mask(m),
    ensures
        ((a & 0x1ff) & m != 0) == (a & m != 0),
{
}

proof fn lemma_truncate(a: u16)
    by (bit_vector)
    ensures
        (a & 0x1ff) <= 0x1ff,
        (a & 0x1ff) == a % 0x200,
        a <= 0x1ff ==> (a & 0x1ff) == a,
{
}

proof fn lemma_bits_stay_low(a: u16, b: u16)
    by (bit_vector)
    requires
        a <= 0x1ff,
        b <= 0x1ff,
    ensures
        (a | b) <= 0x1ff,
        (a & b) <= 0x1ff,
        (a & !b) <= 0x1ff,
{
}

/// A register value without stray high bits is the sum of the masks of its
/// flags.
proof fn lemma_bits_of_flags(bits: u16)
    requires
        bits <= ALL_BITS,
    ensures
        bits_of(flags_of(bits)) == bits,
{
    assert(bits <= 0x1ff ==> bits == (if bits & 0x100 != 0 {
        0x100int
    } else {
        0
    }) + (if bits & 0x80 != 0 {
        0x80int
    } else {
        0
    }) + (if bits & 0x40 != 0 {
        0x40int
    } else {
        0
    }) + (if bits & 0x20 != 0 {
        0x20int
    } else {
        0
    }) + (if bits & 0x10 != 0 {
        0x10int
    } else {
        0
    }) + (if bits & 0x08 != 0 {
        0x08int
    } else {
        0
    }) + (if bits & 0x04 != 0 {
        0x04int
    } else {
        0
    }) + (if bits & 0x02 != 0 {
        0x02int
    } else {
        0
    }) + (if bits & 0x01 != 0 {
        0x01int
    } else {
        0
    })) by (bit_vector);
}

} // verus!
