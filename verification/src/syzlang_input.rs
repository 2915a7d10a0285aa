//! What the library reads through `syzlang_parser`: the parse of the
//! description and constant texts, and the parts of the parse that the
//! translator works on. Each function here makes one call into the parser
//! (or reads one field of its types) and states what it gives back.

use vstd::prelude::*;

use syzlang_parser::parser::{
    Arch, ArgOpt, ArgType, Argument, Const, Consts, Direction, IdentType, Identifier, Parsed,
    Statement, Value,
};

use crate::syzlang::{ArgTy, Dir, IdentKind, TargetArch};

verus! {

#[verifier::external_type_specification]
#[verifier::external_body]
pub struct ExStatement(syzlang_parser::parser::Statement);

#[verifier::external_type_specification]
#[verifier::external_body]
pub struct ExConst(syzlang_parser::parser::Const);

#[verifier::external_type_specification]
#[verifier::external_body]
pub struct ExConsts(syzlang_parser::parser::Consts);

#[verifier::external_type_specification]
#[verifier::external_body]
pub struct ExArch(syzlang_parser::parser::Arch);

#[verifier::external_type_specification]
#[verifier::external_body]
pub struct ExParsed(syzlang_parser::parser::Parsed);

#[verifier::external_type_specification]
#[verifier::external_body]
pub struct ExSyzFunction(syzlang_parser::parser::Function);

#[verifier::external_type_specification]
#[verifier::external_body]
pub struct ExArgument(syzlang_parser::parser::Argument);

#[verifier::external_type_specification]
#[verifier::external_body]
pub struct ExIdentifier(syzlang_parser::parser::Identifier);

/// The contents of a vector, if there is one.
pub open spec fn seq_of<T>(v: Option<Vec<T>>) -> Option<Seq<T>> {
    match v {
        Some(v) => Some(v@),
        None => None,
    }
}

/// What `Statement::parse_from_str` does on a text: `None` where it does
/// not return (it panics on some malformed texts, such as a character
/// literal holding a character of more than one byte), else the statements
/// that it reads, or `None` inside where it reports an error.
pub uninterp spec fn statements_of(text: Seq<char>) -> Option<Option<Seq<Statement>>>;

/// The architecture that `Consts::get_arch_from_path` reads from the name
/// of a constant file (`None` inside for a `.txt.const` file, which holds
/// for every architecture that the file lists), or `None` where it reports
/// an error.
pub uninterp spec fn const_file_arch_of(name: Seq<char>) -> Option<Option<Arch>>;

/// What `Consts::create_from_str` does on a text, with the architecture of
/// the file: `None` where it does not return (it panics on some malformed
/// texts), else the constants that it reads, or `None` inside where it
/// reports an error.
pub uninterp spec fn consts_of(text: Seq<char>, arch: Option<Arch>) -> Option<Option<Seq<Const>>>;

/// The constants that a `Consts` holds.
pub uninterp spec fn consts_content(c: Consts) -> Seq<Const>;

/// The constants that `Consts::add_vec` leaves after adding `added` to
/// `held` (merging the architectures of equal constants).
pub uninterp spec fn consts_merged(held: Seq<Const>, added: Seq<Const>) -> Seq<Const>;

/// Whether `p` is a parse that `Parsed::new` can build from the constants
/// and statements: it sorts the statements by kind into the parse, and
/// records the kind of each name in a hash table. Which of such parses
/// comes back depends on the seed that the table's hasher gets in each
/// process, so this is a relation and not a function.
pub uninterp spec fn built_from(p: Parsed, consts: Seq<Const>, stmts: Seq<Statement>) -> bool;

/// What `Parsed::postprocess` does on a parse: `None` where it does not
/// return (template expansion panics on some malformed templates, and the
/// loop that repeats the steps until nothing changes has no bound), else
/// the parse with aliases and templates resolved, or `None` inside where
/// it reports an error.
pub uninterp spec fn postprocessed(p: Parsed) -> Option<Option<Parsed>>;

/// The syscalls of a parse, in the order of the statements.
pub uninterp spec fn parsed_functions_of(p: Parsed) -> Seq<syzlang_parser::parser::Function>;

/// The constants of a parse.
pub uninterp spec fn parsed_consts_of(p: Parsed) -> Seq<Const>;

/// What `Parsed::identifier_to_ident_type` says a named type is, if the
/// parse defines it.
pub uninterp spec fn ident_kind_of(p: Parsed, id: Identifier) -> Option<IdentKind>;

/// The name of a syscall.
pub uninterp spec fn function_name_of(f: syzlang_parser::parser::Function) -> Seq<char>;

/// The arguments of a syscall.
pub uninterp spec fn function_args_of(f: syzlang_parser::parser::Function) -> Seq<Argument>;

/// Whether a syscall's result type is not `void`.
pub uninterp spec fn function_has_output_of(f: syzlang_parser::parser::Function) -> bool;

/// The name of an argument.
pub uninterp spec fn argument_name_of(a: Argument) -> Seq<char>;

/// The direction of an argument, as `Argument::direction` gives it.
pub uninterp spec fn argument_dir_of(a: Argument) -> Dir;

/// The type of an argument, with every named type as `ArgTy::Other`
/// (holding the `Debug` text of the parser's type).
pub uninterp spec fn argument_basic_type_of(a: Argument) -> ArgTy;

/// The named type of an argument, if its type is one.
pub uninterp spec fn argument_ident_of(a: Argument) -> Option<Identifier>;

/// The argument that `ArgOpt::get_subarg` finds among an argument's
/// options (the element of an array, the pointee of a pointer).
pub uninterp spec fn argument_subarg_of(a: Argument) -> Option<Argument>;

/// How deeply arguments nest inside an argument's options.
pub uninterp spec fn argument_depth(a: Argument) -> nat;

/// The name of a named type, as `Identifier::unique_name` writes it.
pub uninterp spec fn identifier_text(id: Identifier) -> Seq<char>;

/// The name of a constant.
pub uninterp spec fn const_name_of(c: Const) -> Seq<char>;

/// The value of a constant, when it is an integer.
pub uninterp spec fn const_value_of(c: Const) -> Option<i64>;

/// The architectures that a constant holds for.
pub uninterp spec fn const_arches_of(c: Const) -> Seq<TargetArch>;

/// `Statement::parse_from_str`: the statements of a text, `None` on a
/// parse error. Only for texts on which the parser returns.
#[verifier::external_body]
pub(crate) fn parse_statements(text: &str) -> (res: Option<Vec<Statement>>)
    requires
        statements_of(text@) is Some,
    ensures
        Some(seq_of(res)) == statements_of(text@),
{
    Statement::parse_from_str(text).ok()
}

/// `Consts::get_arch_from_path`: the architecture named in a constant
/// file's name, `None` when the name gives none it knows.
#[verifier::external_body]
pub(crate) fn const_file_arch(name: &str) -> (res: Option<Option<Arch>>)
    ensures
        res == const_file_arch_of(name@),
{
    Consts::get_arch_from_path(std::path::Path::new(name)).ok()
}

/// `Consts::create_from_str`: the constants of a text, `None` on a parse
/// error. Only for texts on which the parser returns.
#[verifier::external_body]
pub(crate) fn parse_consts(text: &str, arch: Option<Arch>) -> (res: Option<Vec<Const>>)
    requires
        consts_of(text@, arch) is Some,
    ensures
        Some(seq_of(res)) == consts_of(text@, arch),
{
    Consts::create_from_str(text, arch).ok()
}

/// `Consts::new` with no constants.
#[verifier::external_body]
pub(crate) fn consts_new() -> (res: Consts)
    ensures
        consts_content(res) == Seq::<Const>::empty(),
{
    Consts::new(Vec::new())
}

/// `Consts::add_vec`: adds the constants, merging equal ones.
#[verifier::external_body]
pub(crate) fn consts_add_vec(c: &mut Consts, added: Vec<Const>)
    ensures
        consts_content(*final(c)) == consts_merged(consts_content(*old(c)), added@),
{
    c.add_vec(added);
}

/// `Parsed::new`: sorts the statements into a parse. It never reports an
/// error (its body ends in `Ok`).
#[verifier::external_body]
pub(crate) fn parsed_new(consts: Consts, stmts: Vec<Statement>) -> (res: Parsed)
    ensures
        built_from(res, consts_content(consts), stmts@),
{
    Parsed::new(consts, stmts).unwrap_or_default()
}

/// `Parsed::postprocess`: the parse with aliases and templates resolved,
/// `None` on an error. Only for parses on which it returns.
#[verifier::external_body]
pub(crate) fn parsed_postprocess(p: Parsed) -> (res: Option<Parsed>)
    requires
        postprocessed(p) is Some,
    ensures
        Some(res) == postprocessed(p),
{
    let mut p = p;
    match p.postprocess() {
        Ok(_) => Some(p),
        Err(_) => None,
    }
}

/// The `functions` field of a parse.
#[verifier::external_body]
pub(crate) fn parsed_functions(p: &Parsed) -> (res: &Vec<syzlang_parser::parser::Function>)
    ensures
        res@ == parsed_functions_of(*p),
{
    &p.functions
}

/// The constants held by the `consts` field of a parse.
#[verifier::external_body]
pub(crate) fn parsed_consts(p: &Parsed) -> (res: &Vec<Const>)
    ensures
        res@ == parsed_consts_of(*p),
{
    &p.consts.consts
}

/// `Parsed::identifier_to_ident_type`, variant for variant.
#[verifier::external_body]
pub(crate) fn parsed_ident_kind(p: &Parsed, id: &Identifier) -> (res: Option<IdentKind>)
    ensures
        res == ident_kind_of(*p, *id),
{
    match p.identifier_to_ident_type(id) {
        Some(IdentType::Resource) => Some(IdentKind::Resource),
        Some(IdentType::Struct) => Some(IdentKind::Struct),
        Some(IdentType::Union) => Some(IdentKind::Union),
        Some(IdentType::Flag) => Some(IdentKind::Flag),
        Some(IdentType::Template) => Some(IdentKind::Template),
        Some(IdentType::Alias) => Some(IdentKind::Alias),
        Some(IdentType::Function) => Some(IdentKind::Function),
        None => None,
    }
}

/// The `name.name` field of a syscall.
#[verifier::external_body]
pub(crate) fn function_name(f: &syzlang_parser::parser::Function) -> (res: String)
    ensures
        res@ == function_name_of(*f),
{
    f.name.name.clone()
}

/// The `args` field of a syscall.
#[verifier::external_body]
pub(crate) fn function_args(f: &syzlang_parser::parser::Function) -> (res: &Vec<Argument>)
    ensures
        res@ == function_args_of(*f),
{
    &f.args
}

/// Whether the `output` field of a syscall is another type than `void`.
#[verifier::external_body]
pub(crate) fn function_has_output(f: &syzlang_parser::parser::Function) -> (res: bool)
    ensures
        res == function_has_output_of(*f),
{
    match f.output {
        ArgType::Void => false,
        _ => true,
    }
}

/// The `name.name` field of an argument.
#[verifier::external_body]
pub(crate) fn argument_name(a: &Argument) -> (res: String)
    ensures
        res@ == argument_name_of(*a),
{
    a.name.name.clone()
}

/// `Argument::direction`, variant for variant.
#[verifier::external_body]
pub(crate) fn argument_dir(a: &Argument) -> (res: Dir)
    ensures
        res == argument_dir_of(*a),
{
    match a.direction() {
        Direction::In => Dir::In,
        Direction::Out => Dir::Out,
        Direction::InOut => Dir::InOut,
    }
}

/// `Argument::arg_type`, variant for variant for the types that the
/// library tells apart, and `ArgTy::Other` with the `Debug` text of the
/// parser's type for the rest.
#[verifier::external_body]
pub(crate) fn argument_basic_type(a: &Argument) -> (res: ArgTy)
    ensures
        res == argument_basic_type_of(*a),
{
    match a.arg_type() {
        ArgType::Intptr => ArgTy::Intptr,
        ArgType::Int8 => ArgTy::Int8,
        ArgType::Int16 => ArgTy::Int16,
        ArgType::Int32 => ArgTy::Int32,
        ArgType::Int64 => ArgTy::Int64,
        ArgType::Flags => ArgTy::Flags,
        ArgType::String => ArgTy::String,
        ArgType::StringNoz => ArgTy::StringNoz,
        ArgType::Array => ArgTy::Array,
        ArgType::Ptr => ArgTy::Ptr,
        ArgType::Ptr64 => ArgTy::Ptr64,
        other => ArgTy::Other(format!("{:?}", other)),
    }
}

/// The identifier of an argument whose type is `ArgType::Ident`.
#[verifier::external_body]
pub(crate) fn argument_ident(a: &Argument) -> (res: Option<&Identifier>)
    ensures
        match res {
            Some(id) => argument_ident_of(*a) == Some(*id),
            None => argument_ident_of(*a) is None,
        },
{
    match a.arg_type() {
        ArgType::Ident(id) => Some(id),
        _ => None,
    }
}

/// `ArgOpt::get_subarg` on an argument's options. The argument found sits
/// inside the options, so it nests less deeply.
#[verifier::external_body]
pub(crate) fn argument_subarg(a: &Argument) -> (res: Option<&Argument>)
    ensures
        match res {
            Some(sub) => argument_subarg_of(*a) == Some(*sub) && argument_depth(*sub) < argument_depth(*a),
            None => argument_subarg_of(*a) is None,
        },
{
    ArgOpt::get_subarg(&a.opts)
}

/// `Identifier::unique_name`.
#[verifier::external_body]
pub(crate) fn identifier_unique_name(id: &Identifier) -> (res: String)
    ensures
        res@ == identifier_text(*id),
{
    id.unique_name()
}

/// The `name` field of a constant.
#[verifier::external_body]
pub(crate) fn const_name(c: &Const) -> (res: String)
    ensures
        res@ == const_name_of(*c),
{
    c.name.clone()
}

/// The `value` field of a constant, when it is `Value::Int`.
#[verifier::external_body]
pub(crate) fn const_int_value(c: &Const) -> (res: Option<i64>)
    ensures
        res == const_value_of(*c),
{
    match c.value {
        Value::Int(n) => Some(n),
        _ => None,
    }
}

/// The length of the `arch` field of a constant.
#[verifier::external_body]
pub(crate) fn const_arch_count(c: &Const) -> (res: usize)
    ensures
        res == const_arches_of(*c).len(),
{
    c.arch.len()
}

/// Element `i` of the `arch` field of a constant, variant for variant.
#[verifier::external_body]
pub(crate) fn const_arch_at(c: &Const, i: usize) -> (res: TargetArch)
    requires
        i < const_arches_of(*c).len(),
    ensures
        res == const_arches_of(*c)[i as int],
{
    match c.arch[i] {
        Arch::X86 => TargetArch::X86,
        Arch::X86_64 => TargetArch::X86_64,
        Arch::Aarch64 => TargetArch::Aarch64,
        Arch::Aarch32 => TargetArch::Aarch32,
        Arch::Mips64le => TargetArch::Mips64le,
        Arch::Ppc64le => TargetArch::Ppc64le,
        Arch::Riscv64 => TargetArch::Riscv64,
        Arch::S390x => TargetArch::S390x,
        Arch::Mips32 => TargetArch::Mips32,
        Arch::Native => TargetArch::Native,
    }
}

} // verus!
