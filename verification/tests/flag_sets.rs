use x86_regs::{Cr0, Cr3, Cr3Flags, Cr4, Efer, InvalidBits, RFlags};

#[test]
fn defaults_are_the_reset_values() {
    assert_eq!(RFlags::default().bits(), 0b10);
    assert_eq!(Cr0::default().bits(), 0);
    assert_eq!(Cr4::default().bits(), 0);
    assert_eq!(Efer::default().bits(), 0);
    assert_eq!(Cr3Flags::default().bits(), 0);
    assert_eq!(Cr3::default().bits(), 0);
}

#[test]
fn cr0_flags_sit_at_their_architectural_bits() {
    assert_eq!(Cr0::PROTECTED_MODE_ENABLE, 1 << 0);
    assert_eq!(Cr0::MONITOR_COPROCESSOR, 1 << 1);
    assert_eq!(Cr0::EMULATE_COPROCESSOR, 1 << 2);
    assert_eq!(Cr0::TASK_SWITCHED, 1 << 3);
    assert_eq!(Cr0::EXTENSION_TYPE, 1 << 4);
    assert_eq!(Cr0::NUMERIC_ERROR, 1 << 5);
    assert_eq!(Cr0::WRITE_PROTECT, 1 << 16);
    assert_eq!(Cr0::ALIGNMENT_MASK, 1 << 18);
    assert_eq!(Cr0::NOT_WRITE_THROUGH, 1 << 29);
    assert_eq!(Cr0::CACHE_DISABLE, 1 << 30);
    assert_eq!(Cr0::PAGING, 1 << 31);
    assert_eq!(Cr0::ALL, 0xe005_003f);
}

#[test]
fn cr4_flags_sit_at_their_architectural_bits() {
    let flags: [u64; 21] = [
        Cr4::VIRTUAL_MODE_EXTENSIONS,
        Cr4::PROTECTED_VIRTUAL_INTERRUPTS,
        Cr4::NO_TIMESTAMP,
        Cr4::DEBUGGING_EXTENSIONS,
        Cr4::PAGE_SIZE_EXTENSION,
        Cr4::PHYSICAL_ADDRESS_EXTENSION,
        Cr4::MACHINE_CHECK_EXTENSION,
        Cr4::PAGE_GLOBAL,
        Cr4::PERFORMANCE_COUNTER,
        Cr4::FXSR,
        Cr4::XMM_EXCEPTIONS,
        Cr4::USE_MODE_INSTRUCTION_PREVENTION,
        Cr4::FIVE_LEVEL_PAGING,
        Cr4::VIRTUAL_MACHINE_EXTENSIONS,
        Cr4::SAFER_MODE_EXTENSIONS,
        Cr4::FSGSBASE,
        Cr4::PCID,
        Cr4::XSAVE,
        Cr4::SMEP,
        Cr4::SMAP,
        Cr4::PROTECTION_KEY,
    ];
    let positions: [u32; 21] =
        [0, 1, 2, 3, 4, 5, 6, 7, 8, 9, 10, 11, 12, 13, 14, 16, 17, 18, 20, 21, 22];
    let mut union = 0u64;
    for (flag, position) in flags.iter().zip(positions.iter()) {
        assert_eq!(*flag, 1u64 << position);
        union |= flag;
    }
    assert_eq!(Cr4::ALL, union);
    assert_eq!(Cr4::all().bits(), union);
}

#[test]
fn efer_flags_sit_at_their_architectural_bits() {
    assert_eq!(Efer::SYSTEM_CALL_EXTENSIONS, 1 << 0);
    assert_eq!(Efer::LONG_MODE_ENABLE, 1 << 8);
    assert_eq!(Efer::LONG_MODE_ACTIVE, 1 << 10);
    assert_eq!(Efer::NO_EXECUTE_ENABLE, 1 << 11);
    assert_eq!(Efer::SECURE_VIRTUAL_MACHINE_ENABLE, 1 << 12);
    assert_eq!(Efer::LONG_MODE_SEGMENT_LIMIT_ENABLE, 1 << 13);
    assert_eq!(Efer::FAST_FXSAVE_FXRSTOR, 1 << 14);
    assert_eq!(Efer::TRANSLATION_CACHE_EXTENSION, 1 << 15);
    assert_eq!(Efer::ALL, 0xfd01);
}

#[test]
fn cr3_flags_sit_at_bits_three_and_four() {
    assert_eq!(Cr3Flags::PAGE_LEVEL_WRITETHROUGH, 1 << 3);
    assert_eq!(Cr3Flags::PAGE_LEVEL_CACHE_DISABLE, 1 << 4);
    assert_eq!(Cr3Flags::ALL, 0x18);
}

#[test]
fn rflags_flags_sit_at_their_architectural_bits() {
    let flags: [u64; 16] = [
        RFlags::CARRY_FLAG,
        RFlags::PARITY_FLAG,
        RFlags::AUXILIARY_CARRY_FLAG,
        RFlags::ZERO_FLAG,
        RFlags::SIGN_FLAG,
        RFlags::TRAP_FLAG,
        RFlags::INTERRUPT_FLAG,
        RFlags::DIRECTION_FLAG,
        RFlags::OVERFLOW_FLAG,
        RFlags::NESTED_TASK,
        RFlags::RESUME_FLAG,
        RFlags::VIRTUAL_8086_MODE,
        RFlags::ALIGNMENT_CHECK,
        RFlags::VIRTUAL_INTERRUPT,
        RFlags::VIRTUAL_INTERRUPT_PENDING,
        RFlags::ID,
    ];
    let positions: [u32; 16] = [0, 2, 4, 6, 7, 8, 9, 10, 11, 14, 16, 17, 18, 19, 20, 21];
    let mut union = 0u64;
    for (flag, position) in flags.iter().zip(positions.iter()) {
        assert_eq!(*flag, 1u64 << position);
        union |= flag;
    }
    assert_eq!(RFlags::ALL, union);
    assert_eq!(RFlags::IOPL, 0b11 << 12);
    assert_eq!(RFlags::RESERVED_ONE, 1 << 1);
    assert_eq!(RFlags::LAYOUT, union | RFlags::IOPL | RFlags::RESERVED_ONE);
}

#[test]
fn strict_construction_round_trips_known_bits() {
    for bits in [0u64, Cr0::PAGING, Cr0::PAGING | Cr0::WRITE_PROTECT, Cr0::ALL] {
        assert_eq!(Cr0::from_bits(bits).unwrap().bits(), bits);
    }
    for bits in [0u64, Cr4::PCID, Cr4::SMEP | Cr4::SMAP, Cr4::ALL] {
        assert_eq!(Cr4::from_bits(bits).unwrap().bits(), bits);
    }
    for bits in [0u64, Efer::LONG_MODE_ENABLE, Efer::ALL] {
        assert_eq!(Efer::from_bits(bits).unwrap().bits(), bits);
    }
    for bits in [0u64, 0x8, 0x10, 0x18] {
        assert_eq!(Cr3Flags::from_bits(bits).unwrap().bits(), bits);
    }
    for bits in [0u64, RFlags::INTERRUPT_FLAG, RFlags::ID | RFlags::CARRY_FLAG, RFlags::ALL] {
        assert_eq!(RFlags::from_bits(bits).unwrap().bits(), bits);
    }
}

#[test]
fn strict_construction_rejects_unknown_bits() {
    assert_eq!(Cr0::from_bits(1 << 6), Err(InvalidBits { unknown: 1 << 6 }));
    assert_eq!(
        Cr0::from_bits(Cr0::PAGING | (1 << 63) | (1 << 17)),
        Err(InvalidBits { unknown: (1 << 63) | (1 << 17) })
    );
    assert_eq!(Cr4::from_bits(1 << 15), Err(InvalidBits { unknown: 1 << 15 }));
    assert_eq!(Cr4::from_bits(Cr4::PCID | (1 << 19)), Err(InvalidBits { unknown: 1 << 19 }));
    assert_eq!(Efer::from_bits(1 << 9), Err(InvalidBits { unknown: 1 << 9 }));
    assert_eq!(Cr3Flags::from_bits(0x7), Err(InvalidBits { unknown: 0x7 }));
    assert_eq!(Cr3Flags::from_bits(0x1018), Err(InvalidBits { unknown: 0x1000 }));
    assert_eq!(RFlags::from_bits(1 << 3), Err(InvalidBits { unknown: 1 << 3 }));
    assert_eq!(RFlags::from_bits(u64::MAX), Err(InvalidBits { unknown: !RFlags::ALL }));
}

#[test]
fn truncating_construction_clears_unknown_bits() {
    assert_eq!(Cr0::from_bits_truncate(u64::MAX).bits(), Cr0::ALL);
    assert_eq!(Cr0::from_bits_truncate(Cr0::PAGING | (1 << 6)).bits(), Cr0::PAGING);
    assert_eq!(Cr4::from_bits_truncate(u64::MAX).bits(), Cr4::ALL);
    assert_eq!(Cr4::from_bits_truncate(Cr4::PCID | (1 << 15)).bits(), Cr4::PCID);
    assert_eq!(Efer::from_bits_truncate(u64::MAX).bits(), Efer::ALL);
    assert_eq!(Efer::from_bits_truncate(0x1ff).bits(), 0x101);
    assert_eq!(Cr3Flags::from_bits_truncate(0xfff).bits(), 0x18);
    assert_eq!(RFlags::from_bits_truncate(u64::MAX).bits(), RFlags::ALL);
    assert_eq!(RFlags::from_bits_truncate(1 << 3).bits(), 0);
}

#[test]
fn rflags_constructors_take_named_flags_only() {
    assert_eq!(RFlags::from_bits(0b10), Err(InvalidBits { unknown: 0b10 }));
    assert_eq!(RFlags::from_bits(0x3000), Err(InvalidBits { unknown: 0x3000 }));
    assert_eq!(RFlags::from_bits_truncate(0x3002 | RFlags::ZERO_FLAG).bits(), RFlags::ZERO_FLAG);
    assert_eq!(RFlags::from_bits(RFlags::default().bits()), Err(InvalidBits { unknown: 0b10 }));
}

#[test]
fn empty_and_all_bound_every_set() {
    assert!(Cr0::empty().is_empty());
    assert!(!Cr0::all().is_empty());
    assert_eq!(Cr0::all().bits(), Cr0::ALL);
    assert_eq!(Efer::all().bits(), Efer::ALL);
    assert_eq!(Cr3Flags::all().bits(), Cr3Flags::ALL);
    assert_eq!(RFlags::all().bits(), RFlags::ALL);
    assert!(RFlags::empty().is_empty());
    assert!(!RFlags::default().is_empty());
    assert!(Cr4::all().contains(Cr4::from_bits_truncate(Cr4::PCID)));
    assert!(Cr4::all().contains(Cr4::empty()));
    assert!(!Cr4::empty().contains(Cr4::from_bits_truncate(Cr4::PCID)));
}

#[test]
fn contains_asks_for_every_flag_of_the_other() {
    let both = Cr4::from_bits_truncate(Cr4::SMEP | Cr4::SMAP);
    let one = Cr4::from_bits_truncate(Cr4::SMEP);
    let other = Cr4::from_bits_truncate(Cr4::PCID);
    assert!(both.contains(one));
    assert!(!one.contains(both));
    assert!(!both.contains(other));
    assert!(both.contains(both));
}

#[test]
fn union_intersection_difference_and_complement() {
    let a = Cr0::from_bits_truncate(Cr0::PAGING | Cr0::WRITE_PROTECT);
    let b = Cr0::from_bits_truncate(Cr0::WRITE_PROTECT | Cr0::CACHE_DISABLE);
    assert_eq!(a.union(b).bits(), Cr0::PAGING | Cr0::WRITE_PROTECT | Cr0::CACHE_DISABLE);
    assert_eq!(a.intersection(b).bits(), Cr0::WRITE_PROTECT);
    assert_eq!(a.difference(b).bits(), Cr0::PAGING);
    assert_eq!(b.difference(a).bits(), Cr0::CACHE_DISABLE);
    assert_eq!(a.complement().bits(), Cr0::ALL & !(Cr0::PAGING | Cr0::WRITE_PROTECT));
    assert_eq!(a.complement().complement(), a);
    assert_eq!(Cr0::empty().complement(), Cr0::all());
    assert_eq!(Cr0::all().complement(), Cr0::empty());
}

#[test]
fn complement_of_rflags_stays_among_the_named_flags() {
    let mut flags = RFlags::default();
    flags.set_iopl(3);
    assert_eq!(flags.complement().bits(), RFlags::ALL);
    assert_eq!(RFlags::all().complement().bits(), 0);
}

#[test]
fn insert_remove_and_toggle_change_the_named_flags_only() {
    let mut efer = Efer::from_bits_truncate(Efer::LONG_MODE_ENABLE);
    efer.insert(Efer::from_bits_truncate(Efer::NO_EXECUTE_ENABLE));
    assert_eq!(efer.bits(), Efer::LONG_MODE_ENABLE | Efer::NO_EXECUTE_ENABLE);
    efer.insert(Efer::from_bits_truncate(Efer::NO_EXECUTE_ENABLE));
    assert_eq!(efer.bits(), Efer::LONG_MODE_ENABLE | Efer::NO_EXECUTE_ENABLE);
    efer.remove(Efer::from_bits_truncate(Efer::LONG_MODE_ENABLE));
    assert_eq!(efer.bits(), Efer::NO_EXECUTE_ENABLE);
    efer.remove(Efer::from_bits_truncate(Efer::LONG_MODE_ENABLE));
    assert_eq!(efer.bits(), Efer::NO_EXECUTE_ENABLE);
    efer.toggle(Efer::from_bits_truncate(Efer::NO_EXECUTE_ENABLE | Efer::LONG_MODE_ACTIVE));
    assert_eq!(efer.bits(), Efer::LONG_MODE_ACTIVE);
    efer.toggle(Efer::all());
    assert_eq!(efer.bits(), Efer::ALL & !Efer::LONG_MODE_ACTIVE);
}

#[test]
fn flag_changes_keep_the_privilege_level_of_rflags() {
    let mut flags = RFlags::default();
    flags.set_iopl(2);
    flags.insert(RFlags::from_bits_truncate(RFlags::INTERRUPT_FLAG));
    assert_eq!(flags.bits(), 0x2000 | 0b10 | RFlags::INTERRUPT_FLAG);
    assert_eq!(flags.iopl(), 2);
    flags.remove(RFlags::from_bits_truncate(RFlags::INTERRUPT_FLAG));
    assert_eq!(flags.bits(), 0x2002);
    flags.toggle(RFlags::from_bits_truncate(RFlags::CARRY_FLAG));
    assert_eq!(flags.bits(), 0x2003);
    assert_eq!(flags.iopl(), 2);
}

#[test]
fn equal_bits_make_equal_values() {
    assert_eq!(Cr4::from_bits(Cr4::PCID).unwrap(), Cr4::from_bits_truncate(Cr4::PCID | (1 << 40)));
    assert_ne!(Cr4::from_bits_truncate(Cr4::PCID), Cr4::empty());
    assert_eq!(Cr3::new(7), Cr3::new(7));
    assert_ne!(Cr3::new(7), Cr3::new(8));
}
