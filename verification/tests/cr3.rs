use x86_regs::{Cr3, Cr3Flags, Cr4};

fn pcid_off() -> Cr4 {
    Cr4::from_bits_truncate(Cr4::PAGE_GLOBAL | Cr4::SMEP)
}

fn pcid_on() -> Cr4 {
    Cr4::from_bits_truncate(Cr4::PCID | Cr4::PAGE_GLOBAL)
}

#[test]
fn accessors_read_the_three_parts_of_a_word() {
    let cr3 = Cr3::new(0x1234_5678_9abc_def0);
    assert_eq!(cr3.bits(), 0x1234_5678_9abc_def0);
    assert_eq!(cr3.pml4(), 0x1234_5678_9abc_d000);
    assert_eq!(cr3.pcid(pcid_on()), 0xef0);
    assert_eq!(cr3.flags(pcid_off()).bits(), 0x10);
}

#[test]
fn flags_ignore_everything_but_bits_three_and_four() {
    assert_eq!(Cr3::new(u64::MAX).flags(pcid_off()), Cr3Flags::all());
    assert_eq!(Cr3::new(!0x18).flags(pcid_off()), Cr3Flags::empty());
    assert_eq!(Cr3::new(0x8).flags(pcid_off()).bits(), Cr3Flags::PAGE_LEVEL_WRITETHROUGH);
    assert_eq!(Cr3::new(0x10).flags(pcid_off()).bits(), Cr3Flags::PAGE_LEVEL_CACHE_DISABLE);
    assert_eq!(Cr3::default().flags(Cr4::empty()), Cr3Flags::empty());
}

#[test]
fn flags_are_read_back_after_set_flags() {
    let every = [
        Cr3Flags::empty(),
        Cr3Flags::from_bits_truncate(Cr3Flags::PAGE_LEVEL_WRITETHROUGH),
        Cr3Flags::from_bits_truncate(Cr3Flags::PAGE_LEVEL_CACHE_DISABLE),
        Cr3Flags::all(),
    ];
    for word in [0u64, 0xfff, 0x7, u64::MAX, 0x0000_1234_5678_9aef] {
        for flags in every {
            let mut cr3 = Cr3::new(word);
            cr3.set_flags(pcid_off(), flags);
            assert_eq!(cr3.flags(pcid_off()), flags);
            assert_eq!(cr3.bits() & 0x7, 0);
            assert_eq!(cr3.bits() & 0xfff, flags.bits());
            assert_eq!(cr3.bits(), (word & !0xfff) | flags.bits());
            assert_eq!(cr3.pml4(), word & !0xfff);
        }
    }
}

#[test]
fn set_flags_clears_the_reserved_low_bits() {
    let mut cr3 = Cr3::new(0x5007);
    cr3.set_flags(pcid_off(), Cr3Flags::from_bits_truncate(Cr3Flags::PAGE_LEVEL_WRITETHROUGH));
    assert_eq!(cr3.bits(), 0x5008);
}

#[test]
fn pcid_is_read_back_after_set_pcid() {
    for word in [0u64, 0xfff, u64::MAX, 0x0000_1234_5678_9aef] {
        for pcid in [0u16, 1, 2, 0x18, 0x7ff, 0x800, 4094, 4095] {
            let mut cr3 = Cr3::new(word);
            cr3.set_pcid(pcid_on(), pcid);
            assert_eq!(cr3.pcid(pcid_on()), pcid);
            assert_eq!(cr3.bits(), (word & !0xfff) | pcid as u64);
            assert_eq!(cr3.pml4(), word & !0xfff);
        }
    }
}

#[test]
fn the_largest_pcid_fills_the_low_twelve_bits() {
    let mut cr3 = Cr3::new(0xabc_d000);
    cr3.set_pcid(pcid_on(), 4095);
    assert_eq!(cr3.bits(), 0xabc_dfff);
    assert_eq!(cr3.pcid(pcid_on()), 4095);
    assert_eq!(Cr3::PCID_MAX, 4095);
}

#[test]
fn page_table_base_is_read_back_after_set_pml4() {
    let bases =
        [0u64, 0x1000, 0x2000, 0xdead_b000, 0x000f_ffff_ffff_f000, 0x0008_0000_0000_0000];
    for word in [0u64, 0xfff, u64::MAX, 0x0000_1234_5678_9aef] {
        for base in bases {
            let mut cr3 = Cr3::new(word);
            cr3.set_pml4(base);
            assert_eq!(cr3.pml4(), base);
            assert_eq!(cr3.bits(), (word & 0xfff) | base);
            assert_eq!(cr3.bits() & 0xfff, word & 0xfff);
        }
    }
}

#[test]
fn set_pml4_keeps_pcid_and_flags() {
    let mut cr3 = Cr3::default();
    cr3.set_pcid(pcid_on(), 0x123);
    cr3.set_pml4(0x7000);
    assert_eq!(cr3.pcid(pcid_on()), 0x123);
    assert_eq!(cr3.bits(), 0x7123);

    let mut cr3 = Cr3::default();
    cr3.set_flags(pcid_off(), Cr3Flags::all());
    cr3.set_pml4(0x7000);
    assert_eq!(cr3.flags(pcid_off()), Cr3Flags::all());
    assert_eq!(cr3.bits(), 0x7018);
}

#[test]
fn the_widest_base_is_fifty_two_bits() {
    assert_eq!(Cr3::ADDRESS_MAX, u64::MAX >> 12);
    assert_eq!(Cr3::MASK, 0b1111_1111_1111);
    assert_eq!(Cr3::BASE, !Cr3::MASK);
    let mut cr3 = Cr3::new(u64::MAX);
    cr3.set_pml4(Cr3::ADDRESS_MAX & Cr3::BASE);
    assert_eq!(cr3.bits(), Cr3::ADDRESS_MAX);
    assert_eq!(cr3.pml4(), 0x000f_ffff_ffff_f000);
}

#[test]
fn the_mode_is_read_from_the_pcid_flag_alone() {
    assert!(pcid_on().contains(Cr4::from_bits_truncate(Cr4::PCID)));
    assert!(!pcid_off().contains(Cr4::from_bits_truncate(Cr4::PCID)));
    let cr3 = Cr3::new(0x18);
    assert_eq!(cr3.flags(Cr4::empty()), cr3.flags(pcid_off()));
    assert_eq!(cr3.pcid(Cr4::all()), cr3.pcid(pcid_on()));
    assert_eq!(cr3.pcid(pcid_on()), 0x18);
}
