use vstd::prelude::*;

verus! {

/// The type of a syscall argument in a syzlang description, as far as the
/// translator tells types apart.
pub enum ArgTy {
    Intptr,
    Int8,
    Int16,
    Int32,
    Int64,
    Flags,
    String,
    StringNoz,
    Array,
    Ptr,
    Ptr64,
    /// A named type (resource, struct, union, flags, ...): its name, and what
    /// the description defines it as, if it defines it.
    Ident(String, Option<IdentKind>),
    /// Any other syzlang type, with the parser's name for it.
    Other(String),
}

/// The direction of an argument, from the caller's view.
#[derive(PartialEq, Eq, Structural, Clone, Copy, Debug)]
pub enum Dir {
    In,
    Out,
    InOut,
}

/// An argument of a syscall: its name, its type, its direction and, for
/// arrays and pointers, the argument that describes the element or the
/// pointee.
pub struct SyzArg {
    pub name: String,
    pub ty: ArgTy,
    pub dir: Dir,
    pub subarg: Option<Box<SyzArg>>,
}

/// A syscall of the description.
pub struct SyzFunction {
    pub name: String,
    pub args: Vec<SyzArg>,
    /// Whether the syscall returns something other than `void`.
    pub has_output: bool,
}

/// What a named type of the description is.
#[derive(PartialEq, Eq, Structural, Clone, Copy, Debug)]
pub enum IdentKind {
    /// A resource: a value that one syscall returns and later ones take.
    Resource,
    Struct,
    Union,
    Flag,
    Template,
    Alias,
    Function,
}

/// The architectures that syzlang constants can be given for.
#[derive(PartialEq, Eq, Structural, Clone, Copy, Debug)]
pub enum TargetArch {
    X86,
    X86_64,
    Aarch64,
    Aarch32,
    Mips64le,
    Ppc64le,
    Riscv64,
    S390x,
    Mips32,
    Native,
}

/// A named constant of the description.
pub struct SyzConst {
    pub name: String,
    /// The value, when it is an integer.
    pub value: Option<i64>,
    /// The architectures that the constant holds for; none for a constant
    /// that names no architecture.
    pub arches: Vec<TargetArch>,
}

/// A parsed syzlang description: its syscalls and constants.
pub struct SyzDescription {
    pub functions: Vec<SyzFunction>,
    pub consts: Vec<SyzConst>,
}

/// Whether the type is one of the integer-like types.
pub open spec fn is_int_like(t: ArgTy) -> bool {
    match t {
        ArgTy::Intptr | ArgTy::Int8 | ArgTy::Int16 | ArgTy::Int32 | ArgTy::Int64 | ArgTy::Flags => true,
        _ => false,
    }
}

/// Whether the type is a pointer type.
pub open spec fn is_ptr_ty(t: ArgTy) -> bool {
    match t {
        ArgTy::Ptr | ArgTy::Ptr64 => true,
        _ => false,
    }
}

/// Whether the type is a pointer type.
pub fn is_ptr(t: &ArgTy) -> (res: bool)
    ensures
        res == is_ptr_ty(*t),
{
    match t {
        ArgTy::Ptr | ArgTy::Ptr64 => true,
        _ => false,
    }
}

} // verus!
