//! The ABI selector's convention must match each architecture's
//! documented size/category rule, across all the return-value shapes the
//! rules distinguish.

use loaf::{select_entry, select_super_entry, Arch, Convention, EntryPoint, ReturnShape};

const SIZES: [usize; 8] = [0, 1, 2, 4, 8, 16, 17, 32];

fn shape(size: usize) -> ReturnShape {
    ReturnShape { size, is_float: false, is_double_word_primitive: false }
}

#[test]
fn x86_size_rule() {
    for size in SIZES {
        let sel = select_entry(Arch::X86, shape(size)).unwrap();
        let expected = if [0, 1, 2, 4, 8].contains(&size) {
            (Convention::RegisterReturn, EntryPoint::MsgSend)
        } else {
            (Convention::MemoryReturn, EntryPoint::MsgSendStret)
        };
        assert_eq!((sel.convention, sel.entry), expected, "x86 size {}", size);
    }
}

#[test]
fn x86_floats_use_float_register_return() {
    for size in [4usize, 8] {
        let sel = select_entry(
            Arch::X86,
            ReturnShape { size, is_float: true, is_double_word_primitive: size == 8 },
        )
        .unwrap();
        assert_eq!(sel.convention, Convention::FloatRegisterReturn);
        assert_eq!(sel.entry, EntryPoint::MsgSendFpret);
    }
}

#[test]
fn x86_super_has_no_float_register_return() {
    // A float falls through to the plain size rule on the super variant.
    for size in [4usize, 8] {
        let sel = select_super_entry(
            Arch::X86,
            ReturnShape { size, is_float: true, is_double_word_primitive: size == 8 },
        )
        .unwrap();
        assert_eq!(sel.convention, Convention::RegisterReturn);
        assert_eq!(sel.entry, EntryPoint::MsgSendSuper);
    }
    let sel = select_super_entry(Arch::X86, shape(32)).unwrap();
    assert_eq!(sel.convention, Convention::MemoryReturn);
    assert_eq!(sel.entry, EntryPoint::MsgSendSuperStret);
}

#[test]
fn x86_64_memory_return_above_16_bytes() {
    for size in SIZES {
        let sel = select_entry(Arch::X86_64, shape(size)).unwrap();
        let expected = if size > 16 {
            Convention::MemoryReturn
        } else {
            Convention::RegisterReturn
        };
        assert_eq!(sel.convention, expected, "x86_64 size {}", size);
    }
    // The documented boundary: 16 in registers, 17 through memory.
    assert_eq!(
        select_entry(Arch::X86_64, shape(16)).unwrap().convention,
        Convention::RegisterReturn
    );
    assert_eq!(
        select_entry(Arch::X86_64, shape(17)).unwrap().convention,
        Convention::MemoryReturn
    );
    // Floats use the same entry point at this width.
    let f = ReturnShape { size: 8, is_float: true, is_double_word_primitive: true };
    assert_eq!(select_entry(Arch::X86_64, f).unwrap().entry, EntryPoint::MsgSend);
}

#[test]
fn arm_memory_return_above_4_bytes_except_double_word_primitives() {
    for size in SIZES {
        let sel = select_entry(Arch::Arm, shape(size)).unwrap();
        let expected = if size > 4 {
            Convention::MemoryReturn
        } else {
            Convention::RegisterReturn
        };
        assert_eq!(sel.convention, expected, "arm size {}", size);
    }
    // 64-bit integers and 64-bit floats still return in registers.
    let wide_int = ReturnShape { size: 8, is_float: false, is_double_word_primitive: true };
    assert_eq!(select_entry(Arch::Arm, wide_int).unwrap().convention, Convention::RegisterReturn);
    let wide_float = ReturnShape { size: 8, is_float: true, is_double_word_primitive: true };
    assert_eq!(
        select_entry(Arch::Arm, wide_float).unwrap().convention,
        Convention::RegisterReturn
    );
    assert_eq!(
        select_super_entry(Arch::Arm, wide_int).unwrap().entry,
        EntryPoint::MsgSendSuper
    );
}

#[test]
fn aarch64_never_uses_memory_return() {
    for size in SIZES {
        let sel = select_entry(Arch::Aarch64, shape(size)).unwrap();
        assert_eq!(sel.convention, Convention::RegisterReturn, "aarch64 size {}", size);
        assert_eq!(sel.entry, EntryPoint::MsgSend);
        let sup = select_super_entry(Arch::Aarch64, shape(size)).unwrap();
        assert_eq!(sup.convention, Convention::RegisterReturn);
        assert_eq!(sup.entry, EntryPoint::MsgSendSuper);
    }
}

#[test]
fn unsupported_architecture_is_refused() {
    for size in SIZES {
        assert!(select_entry(Arch::Other, shape(size)).is_err());
        assert!(select_super_entry(Arch::Other, shape(size)).is_err());
    }
}

#[test]
fn super_selection_follows_the_same_size_rule() {
    for arch in [Arch::X86, Arch::X86_64, Arch::Arm, Arch::Aarch64] {
        for size in SIZES {
            let plain = select_entry(arch, shape(size)).unwrap();
            let sup = select_super_entry(arch, shape(size)).unwrap();
            assert_eq!(plain.convention, sup.convention, "{:?} size {}", arch, size);
            let expected_entry = match sup.convention {
                Convention::MemoryReturn => EntryPoint::MsgSendSuperStret,
                _ => EntryPoint::MsgSendSuper,
            };
            assert_eq!(sup.entry, expected_entry);
        }
    }
}
