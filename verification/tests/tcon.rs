use mcp4xxx::tcon::{Tcon, TconFlag, ALL_BITS};

const FLAGS: [(TconFlag, u16); 9] = [
    (TconFlag::Gcen, 1 << 8),
    (TconFlag::R1Hw, 1 << 7),
    (TconFlag::R1A, 1 << 6),
    (TconFlag::R1W, 1 << 5),
    (TconFlag::R1B, 1 << 4),
    (TconFlag::R0Hw, 1 << 3),
    (TconFlag::R0A, 1 << 2),
    (TconFlag::R0W, 1 << 1),
    (TconFlag::R0B, 1 << 0),
];

#[test]
fn flag_masks_match_the_register_layout() {
    for (flag, mask) in FLAGS {
        assert_eq!(flag.mask(), mask);
        assert_eq!(Tcon::flag(flag).bits(), mask);
    }
}

#[test]
fn empty_and_all() {
    assert_eq!(Tcon::empty().bits(), 0);
    assert!(Tcon::empty().is_empty());
    assert_eq!(Tcon::all().bits(), 0x1ff);
    assert_eq!(ALL_BITS, 0x1ff);
    assert!(!Tcon::all().is_empty());
}

#[test]
fn resistor_helpers_are_unions_of_four_flags() {
    assert_eq!(Tcon::r0_all().bits(), 0x0f);
    assert_eq!(Tcon::r1_all().bits(), 0xf0);
    assert_eq!(Tcon::r01().bits(), 0xff);
    assert_eq!(Tcon::r01(), Tcon::r0_all().union(Tcon::r1_all()));
    assert!(!Tcon::r01().contains(Tcon::flag(TconFlag::Gcen)));
}

#[test]
fn from_bits_truncate_keeps_nine_bits() {
    for bits in 0u16..=0x1ff {
        assert_eq!(Tcon::from_bits_truncate(bits).bits(), bits);
    }
    assert_eq!(Tcon::from_bits_truncate(0xffff).bits(), 0x1ff);
    assert_eq!(Tcon::from_bits_truncate(0x0200).bits(), 0);
    assert_eq!(Tcon::from_bits_truncate(0xfe0f).bits(), 0x00f);
    assert_eq!(Tcon::from_bits_truncate(0x020f), Tcon::r0_all());
}

#[test]
fn from_bits_refuses_stray_bits() {
    assert_eq!(Tcon::from_bits(0x1ff), Some(Tcon::all()));
    assert_eq!(Tcon::from_bits(0x00f), Some(Tcon::r0_all()));
    assert_eq!(Tcon::from_bits(0), Some(Tcon::empty()));
    assert_eq!(Tcon::from_bits(0x200), None);
    assert_eq!(Tcon::from_bits(0x8001), None);
}

#[test]
fn union_intersection_difference() {
    let a = Tcon::from_bits_truncate(0b1_0110_0101);
    let b = Tcon::from_bits_truncate(0b0_0011_1100);
    assert_eq!(a.union(b).bits(), 0b1_0111_1101);
    assert_eq!(a.intersection(b).bits(), 0b0_0010_0100);
    assert_eq!(a.difference(b).bits(), 0b1_0100_0001);
    assert_eq!(b.difference(a).bits(), 0b0_0001_1000);
    assert_eq!(a.union(Tcon::empty()), a);
    assert_eq!(a.intersection(Tcon::all()), a);
    assert_eq!(Tcon::all().difference(Tcon::all()), Tcon::empty());
}

#[test]
fn contains_is_subset() {
    let r0 = Tcon::r0_all();
    assert!(r0.contains(Tcon::flag(TconFlag::R0A)));
    assert!(r0.contains(Tcon::empty()));
    assert!(r0.contains(r0));
    assert!(!r0.contains(Tcon::flag(TconFlag::R1A)));
    assert!(!r0.contains(Tcon::r01()));
    assert!(Tcon::all().contains(Tcon::r01()));
}

#[test]
fn insert_remove_set() {
    let mut tcon = Tcon::empty();
    tcon.insert(Tcon::flag(TconFlag::R0Hw));
    assert_eq!(tcon.bits(), 0x008);
    tcon.insert(Tcon::r1_all());
    assert_eq!(tcon.bits(), 0x0f8);
    tcon.remove(Tcon::flag(TconFlag::R1W));
    assert_eq!(tcon.bits(), 0x0d8);
    tcon.remove(Tcon::flag(TconFlag::Gcen));
    assert_eq!(tcon.bits(), 0x0d8);
    tcon.set(Tcon::flag(TconFlag::Gcen), true);
    assert_eq!(tcon.bits(), 0x1d8);
    tcon.set(Tcon::r1_all(), false);
    assert_eq!(tcon.bits(), 0x108);
    tcon.set(Tcon::flag(TconFlag::R0Hw), true);
    assert_eq!(tcon.bits(), 0x108);
}

#[test]
fn every_flag_can_be_set_and_cleared_alone() {
    for (flag, mask) in FLAGS {
        let mut tcon = Tcon::empty();
        tcon.set(Tcon::flag(flag), true);
        assert_eq!(tcon.bits(), mask);
        for (other, _) in FLAGS {
            assert_eq!(tcon.contains(Tcon::flag(other)), other == flag);
        }
        let mut tcon = Tcon::all();
        tcon.set(Tcon::flag(flag), false);
        assert_eq!(tcon.bits(), 0x1ff & !mask);
    }
}

#[test]
fn equality_is_bit_for_bit() {
    for a in 0u16..=0x1ff {
        let left = Tcon::from_bits_truncate(a);
        assert_eq!(left, Tcon::from_bits_truncate(a));
        assert_eq!(left, Tcon::from_bits_truncate(a | 0x8000));
        for bit in 0..9 {
            assert_ne!(left, Tcon::from_bits_truncate(a ^ (1 << bit)));
        }
    }
}
