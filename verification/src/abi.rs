//! Selection of the native message-dispatch entry point.
//!
//! For every message send the runtime offers several entry points, and
//! which one is correct depends on the target architecture and on the
//! shape of the statically known return value: small values travel back
//! in registers, larger ones through a hidden caller-allocated slot
//! ("stret"), and one architecture routes floating-point results through
//! an entry point of its own. Calling the wrong entry point corrupts the
//! stack, so on an architecture these rules do not cover the selection
//! refuses outright instead of guessing.

use vstd::prelude::*;

verus! {

/// A target architecture the dispatch rules are written for.
#[derive(Clone, Copy, PartialEq, Eq, Structural, Debug)]
pub enum Arch {
    /// 32-bit x86.
    X86,
    /// 64-bit x86.
    X86_64,
    /// 32-bit ARM.
    Arm,
    /// 64-bit ARM.
    Aarch64,
    /// Any architecture without documented dispatch rules.
    Other,
}

/// The shape of a message's return value, computed from its statically
/// known type at the call site.
#[derive(Clone, Copy, PartialEq, Eq, Structural, Debug)]
pub struct ReturnShape {
    /// Size of the value in bytes.
    pub size: usize,
    /// Whether the type is a floating-point primitive.
    pub is_float: bool,
    /// Whether the type is a 64-bit integer or 64-bit float primitive,
    /// which some 32-bit architectures still return in registers.
    pub is_double_word_primitive: bool,
}

/// How a return value travels back to the caller.
#[derive(Clone, Copy, PartialEq, Eq, Structural, Debug)]
pub enum Convention {
    /// The value is returned in ordinary registers.
    RegisterReturn,
    /// The value is returned through a distinct floating-point entry
    /// point (only some architectures have one).
    FloatRegisterReturn,
    /// The caller pre-allocates a hidden output slot and a distinct
    /// "stret" entry point fills it.
    MemoryReturn,
}

/// A native entry-point symbol of the dispatch family.
#[derive(Clone, Copy, PartialEq, Eq, Structural, Debug)]
pub enum EntryPoint {
    /// Plain dispatch, register return.
    MsgSend,
    /// Plain dispatch, floating-point register return.
    MsgSendFpret,
    /// Plain dispatch, memory return.
    MsgSendStret,
    /// Super dispatch, register return.
    MsgSendSuper,
    /// Super dispatch, memory return.
    MsgSendSuperStret,
}

/// Why an entry point could not be selected.
#[derive(Clone, Copy, PartialEq, Eq, Structural, Debug)]
pub enum AbiError {
    /// The target architecture has no documented dispatch rules; no
    /// message can ever be safely sent on it.
    UnsupportedArchitecture,
}

/// A selected entry point together with the convention it implements.
#[derive(Clone, Copy, PartialEq, Eq, Structural, Debug)]
pub struct Selection {
    /// The native symbol to call.
    pub entry: EntryPoint,
    /// The calling convention that symbol implements.
    pub convention: Convention,
}

/// On 32-bit x86 a value returns in registers exactly when its size is
/// one of 0, 1, 2, 4 or 8 bytes.
pub open spec fn x86_register_size(size: usize) -> bool {
    size == 0 || size == 1 || size == 2 || size == 4 || size == 8
}

/// The documented convention for a plain send, or `None` on an
/// architecture the rules do not cover.
pub open spec fn plain_convention(arch: Arch, shape: ReturnShape) -> Option<Convention> {
    match arch {
        Arch::X86 => Some(
            if shape.is_float {
                Convention::FloatRegisterReturn
            } else if x86_register_size(shape.size) {
                Convention::RegisterReturn
            } else {
                Convention::MemoryReturn
            },
        ),
        Arch::X86_64 => Some(
            if shape.size > 16 {
                Convention::MemoryReturn
            } else {
                Convention::RegisterReturn
            },
        ),
        Arch::Arm => Some(
            if shape.size > 4 && !shape.is_double_word_primitive {
                Convention::MemoryReturn
            } else {
                Convention::RegisterReturn
            },
        ),
        Arch::Aarch64 => Some(Convention::RegisterReturn),
        Arch::Other => None,
    }
}

/// The documented convention for a super-dispatch send. It follows the
/// same size rule as the plain send, but no floating-point entry point
/// exists for super dispatch: on 32-bit x86 a float falls through to the
/// plain size rule.
pub open spec fn super_convention(arch: Arch, shape: ReturnShape) -> Option<Convention> {
    match arch {
        Arch::X86 => Some(
            if x86_register_size(shape.size) {
                Convention::RegisterReturn
            } else {
                Convention::MemoryReturn
            },
        ),
        _ => plain_convention(arch, shape),
    }
}

/// The entry-point symbol that implements a convention for plain sends.
pub open spec fn plain_entry(convention: Convention) -> EntryPoint {
    match convention {
        Convention::RegisterReturn => EntryPoint::MsgSend,
        Convention::FloatRegisterReturn => EntryPoint::MsgSendFpret,
        Convention::MemoryReturn => EntryPoint::MsgSendStret,
    }
}

/// The entry-point symbol that implements a convention for super
/// dispatch. Super dispatch never selects a floating-point convention.
pub open spec fn super_entry(convention: Convention) -> EntryPoint {
    match convention {
        Convention::MemoryReturn => EntryPoint::MsgSendSuperStret,
        _ => EntryPoint::MsgSendSuper,
    }
}

/// Selects the entry point and convention for a plain message send.
///
/// The selection matches the documented per-architecture rule exactly;
/// an architecture without such a rule is refused, because calling a
/// wrongly chosen entry point corrupts the stack.
pub fn select_entry(arch: Arch, shape: ReturnShape) -> (r: Result<Selection, AbiError>)
    ensures
        r is Ok <==> plain_convention(arch, shape) is Some,
        r matches Ok(s) ==> Some(s.convention) == plain_convention(arch, shape) && s.entry
            == plain_entry(s.convention),
        r matches Err(e) ==> e == AbiError::UnsupportedArchitecture && arch == Arch::Other,
{
    let convention = match arch {
        Arch::X86 => {
            if shape.is_float {
                Convention::FloatRegisterReturn
            } else if is_x86_register_size(shape.size) {
                Convention::RegisterReturn
            } else {
                Convention::MemoryReturn
            }
        },
        Arch::X86_64 => {
            if shape.size > 16 {
                Convention::MemoryReturn
            } else {
                Convention::RegisterReturn
            }
        },
        Arch::Arm => {
            if shape.size > 4 && !shape.is_double_word_primitive {
                Convention::MemoryReturn
            } else {
                Convention::RegisterReturn
            }
        },
        Arch::Aarch64 => Convention::RegisterReturn,
        Arch::Other => {
            return Err(AbiError::UnsupportedArchitecture);
        },
    };
    let entry = match convention {
        Convention::RegisterReturn => EntryPoint::MsgSend,
        Convention::FloatRegisterReturn => EntryPoint::MsgSendFpret,
        Convention::MemoryReturn => EntryPoint::MsgSendStret,
    };
    Ok(Selection { entry, convention })
}

/// Selects the entry point and convention for a super-dispatch send,
/// by the same per-architecture rule keyed off the super entry points.
pub fn select_super_entry(arch: Arch, shape: ReturnShape) -> (r: Result<Selection, AbiError>)
    ensures
        r is Ok <==> super_convention(arch, shape) is Some,
        r matches Ok(s) ==> Some(s.convention) == super_convention(arch, shape) && s.entry
            == super_entry(s.convention),
        r matches Err(e) ==> e == AbiError::UnsupportedArchitecture && arch == Arch::Other,
{
    let convention = match arch {
        Arch::X86 => {
            if is_x86_register_size(shape.size) {
                Convention::RegisterReturn
            } else {
                Convention::MemoryReturn
            }
        },
        Arch::X86_64 => {
            if shape.size > 16 {
                Convention::MemoryReturn
            } else {
                Convention::RegisterReturn
            }
        },
        Arch::Arm => {
            if shape.size > 4 && !shape.is_double_word_primitive {
                Convention::MemoryReturn
            } else {
                Convention::RegisterReturn
            }
        },
        Arch::Aarch64 => Convention::RegisterReturn,
        Arch::Other => {
            return Err(AbiError::UnsupportedArchitecture);
        },
    };
    let entry = match convention {
        Convention::MemoryReturn => EntryPoint::MsgSendSuperStret,
        _ => EntryPoint::MsgSendSuper,
    };
    Ok(Selection { entry, convention })
}

/// Executable form of `x86_register_size`.
fn is_x86_register_size(size: usize) -> (r: bool)
    ensures
        r == x86_register_size(size),
{
    size == 0 || size == 1 || size == 2 || size == 4 || size == 8
}

/// Law: on every supported architecture the chosen convention obeys the
/// documented size/category rule, for plain and super dispatch alike.
///
/// In particular: 32-bit x86 routes floats to the float entry point and
/// sizes 0, 1, 2, 4 and 8 to registers; 64-bit x86 uses memory return
/// exactly above 16 bytes; 32-bit ARM uses memory return above 4 bytes
/// except for 64-bit primitives; 64-bit ARM has no memory return at all;
/// and super dispatch never uses a floating-point convention.
pub proof fn lemma_convention_rule(arch: Arch, shape: ReturnShape)
    ensures
        arch == Arch::X86 && shape.is_float ==> plain_convention(arch, shape) == Some(
            Convention::FloatRegisterReturn,
        ),
        arch == Arch::X86 && !shape.is_float && x86_register_size(shape.size) ==> plain_convention(
            arch,
            shape,
        ) == Some(Convention::RegisterReturn),
        arch == Arch::X86 && !shape.is_float && !x86_register_size(shape.size)
            ==> plain_convention(arch, shape) == Some(Convention::MemoryReturn),
        arch == Arch::X86_64 ==> plain_convention(arch, shape) == Some(
            if shape.size > 16 {
                Convention::MemoryReturn
            } else {
                Convention::RegisterReturn
            },
        ),
        arch == Arch::Arm ==> plain_convention(arch, shape) == Some(
            if shape.size > 4 && !shape.is_double_word_primitive {
                Convention::MemoryReturn
            } else {
                Convention::RegisterReturn
            },
        ),
        arch == Arch::Aarch64 ==> plain_convention(arch, shape) == Some(
            Convention::RegisterReturn,
        ) && super_convention(arch, shape) == Some(Convention::RegisterReturn),
        arch == Arch::Other ==> plain_convention(arch, shape) is None && super_convention(
            arch,
            shape,
        ) is None,
        arch != Arch::X86 ==> super_convention(arch, shape) == plain_convention(arch, shape),
        arch == Arch::X86 ==> super_convention(arch, shape) == Some(
            if x86_register_size(shape.size) {
                Convention::RegisterReturn
            } else {
                Convention::MemoryReturn
            },
        ),
        super_convention(arch, shape) != Some(Convention::FloatRegisterReturn),
{
}

} // verus!
