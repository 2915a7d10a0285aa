use vstd::prelude::*;

use syzlang_parser::parser::Parsed;

use crate::code_builder::{
    FieldModel, ItemModel, ScopeModel, StructModel, field_annotation, field_new, field_vis,
    rendered_scope, field_model, scope_import, scope_model, scope_new, scope_push_struct, scope_to_string,
    scope_with_import, empty_scope, struct_attr, struct_derive, struct_model, struct_new,
    struct_push_field, struct_vis,
};
use crate::naming::{TargetCase, case_converted, to_case};
use crate::syzlang::{
    ArgTy, Dir, IdentKind, SyzArg, SyzConst, SyzDescription, SyzFunction, TargetArch, is_int_like,
    is_ptr, is_ptr_ty,
};
use crate::loader::{
    LoadError, describes, load_description, load_inputs, load_result, loads, parse_of,
    parser_returns,
};
use crate::syzlang_input::{built_from, postprocessed};
use crate::text::{concat, decimal_text, u64_text};

verus! {

/// The maximum length of a string or buffer argument.
pub const MAX_BUFFER_LENGTH: usize = 4096;

/// The maximum length of an array argument.
pub const MAX_ARRAY_LENGTH: usize = 10;

/// Why a description cannot be translated.
#[derive(PartialEq, Eq, Debug)]
pub enum TranslateError {
    /// No constant gives the number of the named syscall.
    SyscallNumberNotFound(String),
    /// The architecture-independent constant for the named syscall is not
    /// an integer.
    InvalidSyscallNumber(String),
    /// An array or pointer without a described element.
    MissingSubArgument,
    /// A pointer to a pointer.
    NestedPointer,
    /// A named type that the description does not define.
    UnknownIdentifier(String),
    /// A named type that is not a resource: its name and what it is.
    UnsupportedIdentifier(String, IdentKind),
    /// A syzlang type that has no Rust counterpart here, by the parser's
    /// name for it.
    UnsupportedType(String),
}

/// Whether `c` is the name of the number constant of syscall `f`.
pub open spec fn is_sysno_name(c: Seq<char>, f: Seq<char>) -> bool {
    c == "__NR_"@ + f || c == "SYS_"@ + f
}

/// The architecture that the generated harness runs on: only RISC-V 64 is
/// supported.
pub open spec fn target_arch() -> TargetArch {
    TargetArch::Riscv64
}

/// Whether `arch` is one of `arches`.
pub fn has_arch(arches: &Vec<TargetArch>, arch: TargetArch) -> (res: bool)
    ensures
        res == arches@.contains(arch),
{
    let mut i: usize = 0;
    while i < arches.len()
        invariant
            0 <= i <= arches.len(),
            forall|k: int| 0 <= k < i ==> arches@[k] != arch,
        decreases arches.len() - i,
    {
        if arches[i] == arch {
            assert(arches@[i as int] == arch);
            return true;
        }
        i = i + 1;
    }
    false
}

/// The number of syscall `f` on the target architecture: the value of the
/// first constant named for `f` that holds there, if that value is an
/// integer.
pub open spec fn arch_sysno(consts: Seq<SyzConst>, f: Seq<char>) -> Option<u64>
    decreases consts.len(),
{
    if consts.len() == 0 {
        None
    } else if is_sysno_name(consts[0].name@, f) && consts[0].arches@.contains(target_arch()) {
        match consts[0].value {
            Some(v) => Some(v as u64),
            None => None,
        }
    } else {
        arch_sysno(consts.drop_first(), f)
    }
}

/// The number of syscall `f` from the first constant named for it that
/// names no architecture.
pub open spec fn default_sysno(consts: Seq<SyzConst>, f: String) -> Result<u64, TranslateError>
    decreases consts.len(),
{
    if consts.len() == 0 {
        Err(TranslateError::SyscallNumberNotFound(f))
    } else if is_sysno_name(consts[0].name@, f@) && consts[0].arches@.len() == 0 {
        match consts[0].value {
            Some(v) => Ok(v as u64),
            None => Err(TranslateError::InvalidSyscallNumber(f)),
        }
    } else {
        default_sysno(consts.drop_first(), f)
    }
}

/// The number of syscall `f`: for the target architecture if known, else
/// the architecture-independent one.
pub open spec fn syscall_number(consts: Seq<SyzConst>, f: String) -> Result<u64, TranslateError> {
    match arch_sysno(consts, f@) {
        Some(n) => Ok(n),
        None => default_sysno(consts, f),
    }
}

/// The Rust type of a syscall argument.
pub open spec fn underlying_type(arg: SyzArg) -> Result<Seq<char>, TranslateError>
    decreases arg,
{
    if is_int_like(arg.ty) {
        Ok("u64"@)
    } else {
        match arg.ty {
            ArgTy::String | ArgTy::StringNoz => Ok("Vec<u8, 4096>"@),
            ArgTy::Array => match arg.subarg {
                None => Err(TranslateError::MissingSubArgument),
                Some(sub) => if sub.ty is Int8 {
                    Ok("Vec<u8, 10>"@)
                } else {
                    match underlying_type(*sub) {
                        Ok(t) => Ok("Vec<"@ + t + ", 10>"@),
                        Err(e) => Err(e),
                    }
                },
            },
            ArgTy::Ptr | ArgTy::Ptr64 => match arg.subarg {
                None => Err(TranslateError::MissingSubArgument),
                Some(sub) => if is_ptr_ty(sub.ty) {
                    Err(TranslateError::NestedPointer)
                } else {
                    match underlying_type(*sub) {
                        Ok(t) => Ok("Pointer<"@ + t + ">"@),
                        Err(e) => Err(e),
                    }
                },
            },
            ArgTy::Ident(id, kind) => match kind {
                None => Err(TranslateError::UnknownIdentifier(id)),
                Some(IdentKind::Resource) => Ok("SyscallResult"@),
                Some(k) => Err(TranslateError::UnsupportedIdentifier(id, k)),
            },
            ArgTy::Other(t) => Err(TranslateError::UnsupportedType(t)),
            _ => Ok("u64"@),
        }
    }
}

/// The annotation that marks a pointer field by its direction.
pub open spec fn pointer_annotations(arg: SyzArg) -> Seq<Seq<char>> {
    if is_ptr_ty(arg.ty) {
        if arg.dir == Dir::In {
            seq!["#[in_ptr]"@]
        } else {
            seq!["#[out_ptr]"@]
        }
    } else {
        Seq::empty()
    }
}

/// The struct field of a syscall argument.
pub open spec fn arg_field(arg: SyzArg) -> Result<FieldModel, TranslateError> {
    match underlying_type(arg) {
        Err(e) => Err(e),
        Ok(t) => Ok(
            FieldModel {
                name: case_converted(arg.name@, TargetCase::Snake),
                ty: t,
                annotations: pointer_annotations(arg),
                vis: Some("pub"@),
            },
        ),
    }
}

/// The struct fields of the arguments, in order, or the first rejection.
pub open spec fn arg_fields(args: Seq<SyzArg>) -> Result<Seq<FieldModel>, TranslateError>
    decreases args.len(),
{
    if args.len() == 0 {
        Ok(Seq::empty())
    } else {
        match arg_fields(args.drop_last()) {
            Err(e) => Err(e),
            Ok(prefix) => match arg_field(args.last()) {
                Err(e) => Err(e),
                Ok(f) => Ok(prefix.push(f)),
            },
        }
    }
}

/// Whether some argument is a pointer that the syscall writes through.
pub open spec fn has_out_pointer(args: Seq<SyzArg>) -> bool {
    exists|i: int| 0 <= i < args.len() && is_ptr_ty(#[trigger] args[i].ty) && args[i].dir != Dir::In
}

/// The field that receives the id of the syscall's result.
pub open spec fn result_id_field() -> FieldModel {
    FieldModel { name: "id"@, ty: "Uuid"@, annotations: seq!["#[ret_val]"@], vis: Some("pub"@) }
}

/// The `sysno(..)` attribute for syscall number `nr`.
pub open spec fn sysno_attr(nr: u64) -> Seq<char> {
    "sysno("@ + decimal_text(nr as nat) + ")"@
}

/// The struct that stands for syscall `f` with number `nr`.
pub open spec fn syscall_struct(nr: u64, f: SyzFunction) -> Result<StructModel, TranslateError> {
    match arg_fields(f.args@) {
        Err(e) => Err(e),
        Ok(fields) => Ok(
            StructModel {
                name: case_converted(f.name@, TargetCase::Pascal),
                vis: Some("pub"@),
                derives: seq![
                    "Debug"@,
                    "Deserialize"@,
                    if has_out_pointer(f.args@) { "MakeSyscallMut"@ } else { "MakeSyscall"@ },
                ],
                attrs: seq![sysno_attr(nr)],
                fields: if f.has_output { fields.push(result_id_field()) } else { fields },
            },
        ),
    }
}

/// The struct that stands for syscall `f`, with its number looked up.
pub open spec fn function_struct(desc: SyzDescription, f: SyzFunction) -> Result<StructModel, TranslateError> {
    match syscall_number(desc.consts@, f.name) {
        Err(e) => Err(e),
        Ok(nr) => syscall_struct(nr, f),
    }
}

/// The structs for the syscalls `fs`, in order, or the first rejection.
pub open spec fn function_structs(desc: SyzDescription, fs: Seq<SyzFunction>) -> Result<Seq<StructModel>, TranslateError>
    decreases fs.len(),
{
    if fs.len() == 0 {
        Ok(Seq::empty())
    } else {
        match function_structs(desc, fs.drop_last()) {
            Err(e) => Err(e),
            Ok(prefix) => match function_struct(desc, fs.last()) {
                Err(e) => Err(e),
                Ok(s) => Ok(prefix.push(s)),
            },
        }
    }
}

/// The scope after the imports that the generated syscall module needs.
pub open spec fn with_generated_imports(m: ScopeModel) -> ScopeModel {
    let m = scope_with_import(m, "serde"@, "Deserialize"@);
    let m = scope_with_import(m, "heapless"@, "Vec"@);
    let m = scope_with_import(m, "syscalls::raw"@, "*"@);
    let m = scope_with_import(m, "syscall2struct_derive"@, "*"@);
    let m = scope_with_import(m, "syscall2struct_helpers"@, "*"@);
    scope_with_import(m, "uuid"@, "Uuid"@)
}

/// The scope of the generated syscall module: the imports, then one
/// struct per syscall.
pub open spec fn syscall_module(structs: Seq<StructModel>) -> ScopeModel {
    ScopeModel {
        imports: with_generated_imports(empty_scope()).imports,
        items: structs.map_values(|s: StructModel| ItemModel::Struct(s)),
    }
}

/// A translator that converts syscall description to Rust code
pub struct SyscallTranslator {
    parsed: SyzDescription,
}

impl SyscallTranslator {
    /// The description that the translator works on.
    pub closed spec fn description(&self) -> SyzDescription {
        self.parsed
    }

    /// Create a new translator from the texts of the builtin description,
    /// the description and the constant file, and the name of the
    /// constant file (which gives the architecture of its constants). The
    /// texts must load; `try_new` says whether they do.
    pub fn new(builtin: &str, desc: &str, consts: &str, const_file_name: &str) -> (res: Self)
        requires
            parser_returns(builtin@, desc@, consts@, const_file_name@),
            loads(builtin@, desc@, consts@, const_file_name@),
        ensures
            exists|q: Parsed| #[trigger] parse_of(builtin@, desc@, consts@, const_file_name@, q) && describes(q, res.description()),
    {
        match Self::try_new(builtin, desc, consts, const_file_name) {
            Ok(t) => t,
            Err(_) => {
                proof {
                    let (cs, stmts) = load_inputs(builtin@, desc@, consts@, const_file_name@)->Ok_0;
                    let p = choose|p: Parsed| #[trigger] built_from(p, cs, stmts) && postprocessed(p) == Some(None::<Parsed>);
                    assert(postprocessed(p) matches Some(Some(_)));
                }
                Self::from_description(SyzDescription { functions: Vec::new(), consts: Vec::new() })
            },
        }
    }

    /// Create a new translator from the texts, as `new` does, or say which
    /// step of loading them failed.
    pub fn try_new(builtin: &str, desc: &str, consts: &str, const_file_name: &str) -> (res: Result<Self, LoadError>)
        requires
            parser_returns(builtin@, desc@, consts@, const_file_name@),
        ensures
            load_result(builtin@, desc@, consts@, const_file_name@, match res {
                Ok(t) => Ok(t.description()),
                Err(e) => Err(e),
            }),
    {
        match load_description(builtin, desc, consts, const_file_name) {
            Ok(parsed) => Ok(Self { parsed }),
            Err(e) => Err(e),
        }
    }

    /// Create a translator for a description that is already parsed.
    pub fn from_description(parsed: SyzDescription) -> (res: Self)
        ensures
            res.description() == parsed,
    {
        Self { parsed }
    }

    /// Translate the syscall description to Rust code: one struct per
    /// syscall, in the order of the description. Every syscall must have a
    /// struct; `try_translate` says whether they do.
    pub fn translate(&self) -> (res: String)
        requires
            function_structs(self.description(), self.description().functions@) is Ok,
        ensures
            res@ == rendered_scope(
                syscall_module(function_structs(self.description(), self.description().functions@)->Ok_0),
            ),
    {
        let mut scope = scope_new();
        self.generate_import(&mut scope);
        let ghost header = scope_model(scope);
        let functions = &self.parsed.functions;
        let ghost desc = self.parsed;
        proof {
            law_one_struct_per_syscall(desc, functions@);
        }
        let mut i: usize = 0;
        assert(functions@.take(0) =~= Seq::<SyzFunction>::empty());
        assert(Seq::<StructModel>::empty().map_values(|s: StructModel| ItemModel::Struct(s)) =~= Seq::empty());
        while i < functions.len()
            invariant
                0 <= i <= functions.len(),
                functions == &desc.functions,
                desc == self.parsed,
                header == with_generated_imports(empty_scope()),
                forall|k: int| 0 <= k < functions@.len() ==> #[trigger] function_struct(desc, functions@[k]) is Ok,
                function_structs(desc, functions@.take(i as int)) matches Ok(structs) && scope_model(
                    scope,
                ) == (ScopeModel {
                    imports: header.imports,
                    items: structs.map_values(|s: StructModel| ItemModel::Struct(s)),
                }),
            decreases functions.len() - i,
        {
            let f = &functions[i];
            assert(functions@.take(i + 1).drop_last() =~= functions@.take(i as int));
            assert(functions@.take(i + 1).last() == *f);
            assert(function_struct(desc, functions@[i as int]) is Ok);
            let ghost structs = function_structs(desc, functions@.take(i as int))->Ok_0;
            let nr = match self.find_sysno(&f.name) {
                Ok(nr) => nr,
                Err(_) => {
                    proof {
                        assert(false);
                    }
                    0
                },
            };
            let st = self.translate_syscall(nr, f);
            let ghost sm = struct_model(st);
            scope_push_struct(&mut scope, st);
            assert(structs.push(sm).map_values(|s: StructModel| ItemModel::Struct(s))
                =~= structs.map_values(|s: StructModel| ItemModel::Struct(s)).push(ItemModel::Struct(sm)));
            i = i + 1;
        }
        assert(functions@.take(functions.len() as int) =~= functions@);
        scope_to_string(&scope)
    }

    /// Translate the syscall description to Rust code, as `translate`
    /// does, or give the first syscall's rejection: a syscall whose number
    /// is not found, or an argument whose type has no Rust counterpart.
    pub fn try_translate(&self) -> (res: Result<String, TranslateError>)
        ensures
            match (res, function_structs(self.description(), self.description().functions@)) {
                (Ok(text), Ok(structs)) => text@ == rendered_scope(syscall_module(structs)),
                (Err(e1), Err(e2)) => e1 == e2,
                _ => false,
            },
    {
        let functions = &self.parsed.functions;
        let ghost desc = self.parsed;
        let mut i: usize = 0;
        assert(functions@.take(0) =~= Seq::<SyzFunction>::empty());
        while i < functions.len()
            invariant
                0 <= i <= functions.len(),
                functions == &desc.functions,
                desc == self.parsed,
                function_structs(desc, functions@.take(i as int)) is Ok,
            decreases functions.len() - i,
        {
            let f = &functions[i];
            assert(functions@.take(i + 1).drop_last() =~= functions@.take(i as int));
            assert(functions@.take(i + 1).last() == *f);
            if let Err(e) = self.find_sysno(&f.name) {
                proof {
                    lemma_function_structs_error_persists(desc, functions@, i + 1);
                    assert(functions@.take(functions@.len() as int) =~= functions@);
                }
                return Err(e);
            }
            if let Err(e) = check_arguments(&f.args) {
                proof {
                    lemma_function_structs_error_persists(desc, functions@, i + 1);
                    assert(functions@.take(functions@.len() as int) =~= functions@);
                }
                return Err(e);
            }
            i = i + 1;
        }
        assert(functions@.take(functions.len() as int) =~= functions@);
        Ok(self.translate())
    }

    /// The imports that the generated syscall module needs.
    fn generate_import(&self, scope: &mut codegen::Scope)
        ensures
            scope_model(*final(scope)) == with_generated_imports(scope_model(*old(scope))),
    {
        scope_import(scope, "serde", "Deserialize");
        scope_import(scope, "heapless", "Vec");
        scope_import(scope, "syscalls::raw", "*");
        scope_import(scope, "syscall2struct_derive", "*");
        scope_import(scope, "syscall2struct_helpers", "*");
        scope_import(scope, "uuid", "Uuid");
    }

    /// The number of syscall `name`: for the target architecture if known,
    /// else the architecture-independent one.
    fn find_sysno(&self, name: &String) -> (res: Result<u64, TranslateError>)
        ensures
            res == syscall_number(self.description().consts@, *name),
    {
        let nr_name = concat("__NR_", name.as_str());
        let sys_name = concat("SYS_", name.as_str());
        match find_arch_sysno(&self.parsed.consts, name, &nr_name, &sys_name) {
            Some(n) => Ok(n),
            None => find_default_sysno(&self.parsed.consts, name, &nr_name, &sys_name),
        }
    }

    /// The struct that stands for syscall `function` with number `nr`.
    fn translate_syscall(&self, nr: u64, function: &SyzFunction) -> (res: codegen::Struct)
        requires
            arg_fields(function.args@) is Ok,
        ensures
            struct_model(res) == syscall_struct(nr, *function)->Ok_0,
    {
        proof {
            law_fields_follow_arguments(function.args@);
        }
        let struct_name = to_case(function.name.as_str(), TargetCase::Pascal);
        let mut s = struct_new(struct_name.as_str());
        struct_vis(&mut s, "pub");
        struct_derive(&mut s, "Debug");
        struct_derive(&mut s, "Deserialize");
        let nr_text = u64_text(nr);
        let attr_head = concat("sysno(", nr_text.as_str());
        let attr = concat(attr_head.as_str(), ")");
        struct_attr(&mut s, attr.as_str());
        let ghost desc = self.parsed;
        let args = &function.args;
        let mut has_mut = false;
        let mut i: usize = 0;
        assert(args@.take(0) =~= Seq::<SyzArg>::empty());
        assert(arg_fields(args@.take(0)) == Ok::<Seq<FieldModel>, TranslateError>(Seq::empty()));
        assert(!has_out_pointer(args@.take(0)));
        assert(attr@ == sysno_attr(nr));
        assert(struct_model(s).derives =~= seq!["Debug"@, "Deserialize"@]);
        assert(struct_model(s).attrs =~= seq![sysno_attr(nr)]);
        while i < args.len()
            invariant
                0 <= i <= args.len(),
                desc == self.parsed,
                args == &function.args,
                has_mut == has_out_pointer(args@.take(i as int)),
                forall|k: int| 0 <= k < args@.len() ==> #[trigger] arg_field(args@[k]) is Ok,
                arg_fields(args@.take(i as int)) matches Ok(fields) && struct_model(s) == (
                StructModel {
                    name: case_converted(function.name@, TargetCase::Pascal),
                    vis: Some("pub"@),
                    derives: seq!["Debug"@, "Deserialize"@],
                    attrs: seq![sysno_attr(nr)],
                    fields,
                }),
            decreases args.len() - i,
        {
            let arg = &args[i];
            assert(args@.take(i + 1).drop_last() =~= args@.take(i as int));
            assert(args@.take(i + 1).last() == *arg);
            assert(arg_field(args@[i as int]) is Ok);
            let ty = self.get_underlying_type(arg);
            let field_name = to_case(arg.name.as_str(), TargetCase::Snake);
            let mut field = field_new(field_name.as_str(), ty.as_str());
            field_vis(&mut field, "pub");
            if is_ptr(&arg.ty) {
                if arg.dir == Dir::In {
                    field_annotation(&mut field, "#[in_ptr]");
                } else {
                    field_annotation(&mut field, "#[out_ptr]");
                    has_mut = true;
                }
            }
            struct_push_field(&mut s, field);
            proof {
                let pre = args@.take(i as int);
                let post = args@.take(i + 1);
                if has_out_pointer(post) {
                    let k = choose|k: int| 0 <= k < post.len() && is_ptr_ty(#[trigger] post[k].ty) && post[k].dir != Dir::In;
                    if k < i {
                        assert(pre[k] == post[k]);
                    }
                }
                if has_out_pointer(pre) {
                    let k = choose|k: int| 0 <= k < pre.len() && is_ptr_ty(#[trigger] pre[k].ty) && pre[k].dir != Dir::In;
                    assert(post[k] == pre[k]);
                }
                if is_ptr_ty(arg.ty) && arg.dir != Dir::In {
                    assert(post[i as int] == *arg);
                }
            }
            i = i + 1;
        }
        assert(args@.take(args.len() as int) =~= args@);
        if function.has_output {
            let mut id = field_new("id", "Uuid");
            field_vis(&mut id, "pub");
            field_annotation(&mut id, "#[ret_val]");
            assert(field_model(id).annotations =~= seq!["#[ret_val]"@]);
            struct_push_field(&mut s, id);
        }
        if has_mut {
            struct_derive(&mut s, "MakeSyscallMut");
        } else {
            struct_derive(&mut s, "MakeSyscall");
        }
        assert(struct_model(s).derives =~= seq![
            "Debug"@,
            "Deserialize"@,
            if has_out_pointer(function.args@) { "MakeSyscallMut"@ } else { "MakeSyscall"@ },
        ]);
        s
    }

    /// The Rust type of a syscall argument whose type has a Rust
    /// counterpart (`check_underlying_type` says whether it has).
    fn get_underlying_type(&self, arg: &SyzArg) -> (res: String)
        requires
            underlying_type(*arg) is Ok,
        ensures
            res@ == underlying_type(*arg)->Ok_0,
        decreases arg,
    {
        match &arg.ty {
            ArgTy::Intptr | ArgTy::Int8 | ArgTy::Int16 | ArgTy::Int32 | ArgTy::Int64 | ArgTy::Flags => "u64".to_owned(),
            ArgTy::String | ArgTy::StringNoz => "Vec<u8, 4096>".to_owned(),
            ArgTy::Array => match &arg.subarg {
                Some(sub) => if let ArgTy::Int8 = sub.ty {
                    "Vec<u8, 10>".to_owned()
                } else {
                    let inner = self.get_underlying_type(sub);
                    let head = concat("Vec<", inner.as_str());
                    concat(head.as_str(), ", 10>")
                },
                None => {
                    proof {
                        assert(false);
                    }
                    String::new()
                },
            },
            ArgTy::Ptr | ArgTy::Ptr64 => match &arg.subarg {
                Some(sub) => {
                    let inner = self.get_underlying_type(sub);
                    let head = concat("Pointer<", inner.as_str());
                    concat(head.as_str(), ">")
                },
                None => {
                    proof {
                        assert(false);
                    }
                    String::new()
                },
            },
            _ => "SyscallResult".to_owned(),
        }
    }
}

/// Whether the argument's type has a Rust counterpart, or why not.
pub fn check_underlying_type(arg: &SyzArg) -> (res: Result<(), TranslateError>)
    ensures
        match underlying_type(*arg) {
            Ok(_) => res is Ok,
            Err(e) => res == Err::<(), TranslateError>(e),
        },
    decreases arg,
{
    match &arg.ty {
        ArgTy::Intptr | ArgTy::Int8 | ArgTy::Int16 | ArgTy::Int32 | ArgTy::Int64 | ArgTy::Flags => Ok(()),
        ArgTy::String | ArgTy::StringNoz => Ok(()),
        ArgTy::Array => match &arg.subarg {
            None => Err(TranslateError::MissingSubArgument),
            Some(sub) => if let ArgTy::Int8 = sub.ty {
                Ok(())
            } else {
                check_underlying_type(sub)
            },
        },
        ArgTy::Ptr | ArgTy::Ptr64 => match &arg.subarg {
            None => Err(TranslateError::MissingSubArgument),
            Some(sub) => if is_ptr(&sub.ty) {
                Err(TranslateError::NestedPointer)
            } else {
                check_underlying_type(sub)
            },
        },
        ArgTy::Ident(id, kind) => match kind {
            None => Err(TranslateError::UnknownIdentifier(id.clone())),
            Some(IdentKind::Resource) => Ok(()),
            Some(k) => Err(TranslateError::UnsupportedIdentifier(id.clone(), *k)),
        },
        ArgTy::Other(t) => Err(TranslateError::UnsupportedType(t.clone())),
    }
}

/// Whether every argument's type has a Rust counterpart, or the first
/// argument's reason why not.
pub fn check_arguments(args: &Vec<SyzArg>) -> (res: Result<(), TranslateError>)
    ensures
        match arg_fields(args@) {
            Ok(_) => res is Ok,
            Err(e) => res == Err::<(), TranslateError>(e),
        },
{
    let mut i: usize = 0;
    assert(args@.take(0) =~= Seq::<SyzArg>::empty());
    while i < args.len()
        invariant
            0 <= i <= args.len(),
            arg_fields(args@.take(i as int)) is Ok,
        decreases args.len() - i,
    {
        assert(args@.take(i + 1).drop_last() =~= args@.take(i as int));
        assert(args@.take(i + 1).last() == args@[i as int]);
        if let Err(e) = check_underlying_type(&args[i]) {
            proof {
                lemma_arg_fields_error_persists(args@, i + 1);
                assert(args@.take(args@.len() as int) =~= args@);
            }
            return Err(e);
        }
        i = i + 1;
    }
    assert(args@.take(args.len() as int) =~= args@);
    Ok(())
}

/// The number of syscall `name` on the target architecture, by the first
/// constant named for it that holds there.
fn find_arch_sysno(consts: &Vec<SyzConst>, name: &String, nr_name: &String, sys_name: &String) -> (res: Option<u64>)
    requires
        nr_name@ == "__NR_"@ + name@,
        sys_name@ == "SYS_"@ + name@,
    ensures
        res == arch_sysno(consts@, name@),
{
    let mut i: usize = 0;
    assert(consts@.skip(0) =~= consts@);
    while i < consts.len()
        invariant
            0 <= i <= consts.len(),
            nr_name@ == "__NR_"@ + name@,
            sys_name@ == "SYS_"@ + name@,
            arch_sysno(consts@, name@) == arch_sysno(consts@.skip(i as int), name@),
        decreases consts.len() - i,
    {
        assert(consts@.skip(i as int).drop_first() =~= consts@.skip(i + 1));
        assert(consts@.skip(i as int)[0] == consts@[i as int]);
        let c = &consts[i];
        if (c.name == *nr_name || c.name == *sys_name) && has_arch(&c.arches, TargetArch::Riscv64) {
            return match c.value {
                Some(v) => Some(v as u64),
                None => None,
            };
        }
        i = i + 1;
    }
    None
}

/// The number of syscall `name` by the first constant named for it that
/// names no architecture.
fn find_default_sysno(consts: &Vec<SyzConst>, name: &String, nr_name: &String, sys_name: &String) -> (res: Result<u64, TranslateError>)
    requires
        nr_name@ == "__NR_"@ + name@,
        sys_name@ == "SYS_"@ + name@,
    ensures
        res == default_sysno(consts@, *name),
{
    let mut j: usize = 0;
    assert(consts@.skip(0) =~= consts@);
    while j < consts.len()
        invariant
            0 <= j <= consts.len(),
            nr_name@ == "__NR_"@ + name@,
            sys_name@ == "SYS_"@ + name@,
            default_sysno(consts@, *name) == default_sysno(consts@.skip(j as int), *name),
        decreases consts.len() - j,
    {
        assert(consts@.skip(j as int).drop_first() =~= consts@.skip(j + 1));
        assert(consts@.skip(j as int)[0] == consts@[j as int]);
        let c = &consts[j];
        if (c.name == *nr_name || c.name == *sys_name) && c.arches.len() == 0 {
            return match c.value {
                Some(v) => Ok(v as u64),
                None => Err(TranslateError::InvalidSyscallNumber(name.clone())),
            };
        }
        j = j + 1;
    }
    Err(TranslateError::SyscallNumberNotFound(name.clone()))
}

proof fn lemma_arg_fields_error_persists(args: Seq<SyzArg>, i: int)
    requires
        0 <= i <= args.len(),
        arg_fields(args.take(i)) is Err,
    ensures
        arg_fields(args) == arg_fields(args.take(i)),
    decreases args.len() - i,
{
    if i < args.len() {
        assert(args.take(i + 1).drop_last() =~= args.take(i));
        lemma_arg_fields_error_persists(args, i + 1);
    } else {
        assert(args.take(i) =~= args);
    }
}

proof fn lemma_function_structs_error_persists(desc: SyzDescription, fs: Seq<SyzFunction>, i: int)
    requires
        0 <= i <= fs.len(),
        function_structs(desc, fs.take(i)) is Err,
    ensures
        function_structs(desc, fs) == function_structs(desc, fs.take(i)),
    decreases fs.len() - i,
{
    if i < fs.len() {
        assert(fs.take(i + 1).drop_last() =~= fs.take(i));
        lemma_function_structs_error_persists(desc, fs, i + 1);
    } else {
        assert(fs.take(i) =~= fs);
    }
}

/// Argument `i` becomes field `i`: the fields of the arguments are
/// produced exactly when every argument has a field, and then they are
/// those fields in order.
pub proof fn law_fields_follow_arguments(args: Seq<SyzArg>)
    ensures
        arg_fields(args) is Ok <==> forall|i: int| 0 <= i < args.len() ==> #[trigger] arg_field(args[i]) is Ok,
        arg_fields(args) matches Ok(fields) ==> {
            &&& fields.len() == args.len()
            &&& forall|i: int| 0 <= i < args.len() ==> #[trigger] arg_field(args[i]) == Ok::<FieldModel, TranslateError>(fields[i])
        },
    decreases args.len(),
{
    if args.len() > 0 {
        let pre = args.drop_last();
        law_fields_follow_arguments(pre);
        assert forall|i: int| 0 <= i < pre.len() implies #[trigger] pre[i] == args[i] by {}
        if arg_fields(args) is Ok {
            let fields = arg_fields(args)->Ok_0;
            assert forall|i: int| 0 <= i < args.len() implies #[trigger] arg_field(args[i]) == Ok::<FieldModel, TranslateError>(fields[i]) by {
                if i < pre.len() {
                    assert(pre[i] == args[i]);
                }
            }
        } else if arg_fields(pre) is Ok {
            assert(arg_field(args[args.len() - 1]) is Err);
        } else {
            let k = choose|k: int| 0 <= k < pre.len() && !(#[trigger] arg_field(pre[k]) is Ok);
            assert(pre[k] == args[k]);
        }
    }
}

/// The struct of a syscall has one field per argument, in order, followed
/// by the `id` field exactly when the syscall returns something.
pub proof fn law_struct_fields(nr: u64, f: SyzFunction)
    ensures
        syscall_struct(nr, f) matches Ok(m) ==> {
            &&& m.fields.len() == f.args.len() + (if f.has_output { 1int } else { 0int })
            &&& forall|i: int| 0 <= i < f.args.len() ==> #[trigger] arg_field(f.args@[i]) == Ok::<FieldModel, TranslateError>(m.fields[i])
            &&& f.has_output ==> m.fields[f.args.len() as int] == result_id_field()
        },
{
    law_fields_follow_arguments(f.args@);
}

/// A syscall struct derives `MakeSyscallMut` exactly when one of its fields
/// is marked `#[out_ptr]`, and `MakeSyscall` otherwise.
pub proof fn law_mutable_exactly_with_out_pointer(nr: u64, f: SyzFunction)
    ensures
        syscall_struct(nr, f) matches Ok(m) ==> (m.derives[2] == "MakeSyscallMut"@ <==> exists|i: int|
            0 <= i < m.fields.len() && (#[trigger] m.fields[i]).annotations.contains("#[out_ptr]"@)),
{
    reveal_strlit("MakeSyscallMut");
    reveal_strlit("MakeSyscall");
    reveal_strlit("#[out_ptr]");
    reveal_strlit("#[in_ptr]");
    reveal_strlit("#[ret_val]");
    law_struct_fields(nr, f);
    if syscall_struct(nr, f) is Ok {
        let m = syscall_struct(nr, f)->Ok_0;
        let args = f.args@;
        assert("MakeSyscallMut"@ != "MakeSyscall"@) by {
            assert("MakeSyscallMut"@.len() != "MakeSyscall"@.len());
        }
        assert(seq!["#[in_ptr]"@][0] != "#[out_ptr]"@) by {
            assert("#[in_ptr]"@.len() != "#[out_ptr]"@.len());
        }
        assert(seq!["#[ret_val]"@][0] != "#[out_ptr]"@) by {
            assert("#[ret_val]"@[2] != "#[out_ptr]"@[2]);
        }
        if has_out_pointer(args) {
            let k = choose|k: int| 0 <= k < args.len() && is_ptr_ty(#[trigger] args[k].ty) && args[k].dir != Dir::In;
            assert(arg_field(args[k]) == Ok::<FieldModel, TranslateError>(m.fields[k]));
            assert(m.fields[k].annotations[0] == "#[out_ptr]"@);
        }
        if exists|i: int| 0 <= i < m.fields.len() && (#[trigger] m.fields[i]).annotations.contains("#[out_ptr]"@) {
            let i = choose|i: int| 0 <= i < m.fields.len() && (#[trigger] m.fields[i]).annotations.contains("#[out_ptr]"@);
            if i < args.len() {
                assert(arg_field(args[i]) == Ok::<FieldModel, TranslateError>(m.fields[i]));
                let j = choose|j: int| 0 <= j < m.fields[i].annotations.len() && m.fields[i].annotations[j] == "#[out_ptr]"@;
                assert(is_ptr_ty(args[i].ty) && args[i].dir != Dir::In);
            } else {
                assert(m.fields[i] == result_id_field());
                let j = choose|j: int| 0 <= j < m.fields[i].annotations.len() && m.fields[i].annotations[j] == "#[out_ptr]"@;
                assert(j == 0);
            }
        }
    }
}

/// The translator gives one struct per syscall, in the order of the
/// description, exactly when every syscall has one.
pub proof fn law_one_struct_per_syscall(desc: SyzDescription, fs: Seq<SyzFunction>)
    ensures
        function_structs(desc, fs) is Ok <==> forall|i: int| 0 <= i < fs.len() ==> #[trigger] function_struct(desc, fs[i]) is Ok,
        function_structs(desc, fs) matches Ok(structs) ==> {
            &&& structs.len() == fs.len()
            &&& forall|i: int| 0 <= i < fs.len() ==> #[trigger] function_struct(desc, fs[i]) == Ok::<StructModel, TranslateError>(structs[i])
        },
    decreases fs.len(),
{
    if fs.len() > 0 {
        let pre = fs.drop_last();
        law_one_struct_per_syscall(desc, pre);
        assert forall|i: int| 0 <= i < pre.len() implies #[trigger] pre[i] == fs[i] by {}
        if function_structs(desc, fs) is Ok {
            let structs = function_structs(desc, fs)->Ok_0;
            assert forall|i: int| 0 <= i < fs.len() implies #[trigger] function_struct(desc, fs[i]) == Ok::<StructModel, TranslateError>(structs[i]) by {
                if i < pre.len() {
                    assert(pre[i] == fs[i]);
                }
            }
        } else if function_structs(desc, pre) is Ok {
            assert(function_struct(desc, fs[fs.len() - 1]) is Err);
        } else {
            let k = choose|k: int| 0 <= k < pre.len() && !(#[trigger] function_struct(desc, pre[k]) is Ok);
            assert(pre[k] == fs[k]);
        }
    }
}

/// The types of the argument table: every integer-like argument (the
/// integers and flags) is a `u64`, every string a buffer of at most
/// `MAX_BUFFER_LENGTH` bytes, and every resource a `SyscallResult`.
pub proof fn law_type_mapping(arg: SyzArg)
    ensures
        is_int_like(arg.ty) ==> underlying_type(arg) == Ok::<Seq<char>, TranslateError>("u64"@),
        (arg.ty is String || arg.ty is StringNoz) ==> underlying_type(arg) == Ok::<Seq<char>, TranslateError>("Vec<u8, 4096>"@),
        arg.ty matches ArgTy::Ident(_, Some(IdentKind::Resource))
            ==> underlying_type(arg) == Ok::<Seq<char>, TranslateError>("SyscallResult"@),
{
}

/// A `ptr` or `ptr64` argument is typed `Pointer<t>`, where `t` is the
/// Rust type of what it points at; it is rejected when it points at
/// nothing described or at another pointer, and otherwise fails exactly
/// as its element does.
pub proof fn law_pointer_arguments_are_pointers(arg: SyzArg)
    ensures
        (arg.ty is Ptr || arg.ty is Ptr64) ==> match arg.subarg {
            None => underlying_type(arg) == Err::<Seq<char>, TranslateError>(TranslateError::MissingSubArgument),
            Some(sub) => if sub.ty is Ptr || sub.ty is Ptr64 {
                underlying_type(arg) == Err::<Seq<char>, TranslateError>(TranslateError::NestedPointer)
            } else {
                match underlying_type(*sub) {
                    Ok(t) => underlying_type(arg) == Ok::<Seq<char>, TranslateError>("Pointer<"@ + t + ">"@),
                    Err(e) => underlying_type(arg) == Err::<Seq<char>, TranslateError>(e),
                }
            },
        },
{
}

/// `ptr` and `ptr64` are translated alike: two arguments that differ only
/// in which of the two pointer kinds they are give the same field.
pub proof fn law_pointer_kinds_alike(a: SyzArg, b: SyzArg)
    requires
        a.ty is Ptr,
        b.ty is Ptr64,
        a.name == b.name,
        a.dir == b.dir,
        a.subarg == b.subarg,
    ensures
        underlying_type(a) == underlying_type(b),
        arg_field(a) == arg_field(b),
{
}

/// An `array` argument is typed `Vec<u8, 10>` for bytes and otherwise
/// `Vec<t, 10>`, where `t` is the Rust type of its element, whatever that
/// is (a pointer included); it fails exactly as its element does.
pub proof fn law_array_arguments_are_bounded_vectors(arg: SyzArg)
    ensures
        arg.ty is Array ==> match arg.subarg {
            None => underlying_type(arg) == Err::<Seq<char>, TranslateError>(TranslateError::MissingSubArgument),
            Some(sub) => if sub.ty is Int8 {
                underlying_type(arg) == Ok::<Seq<char>, TranslateError>("Vec<u8, 10>"@)
            } else {
                match underlying_type(*sub) {
                    Ok(t) => underlying_type(arg) == Ok::<Seq<char>, TranslateError>("Vec<"@ + t + ", 10>"@),
                    Err(e) => underlying_type(arg) == Err::<Seq<char>, TranslateError>(e),
                }
            },
        },
{
}

/// In the struct of a syscall, field `i` has the Rust type of argument
/// `i`, and is marked `#[in_ptr]` (direction in) or `#[out_ptr]` (any
/// other direction) exactly when the argument is a `ptr` or `ptr64`; the
/// struct derives `MakeSyscallMut` exactly when some `ptr` or `ptr64`
/// argument has a direction other than in, and `MakeSyscall` otherwise.
pub proof fn law_pointer_marks_and_mutability(nr: u64, f: SyzFunction)
    ensures
        syscall_struct(nr, f) is Ok ==> syscall_struct(nr, f)->Ok_0.derives == seq![
            "Debug"@,
            "Deserialize"@,
            if exists|i: int|
                #![auto]
                0 <= i < f.args@.len() && (f.args@[i].ty is Ptr || f.args@[i].ty is Ptr64) && f.args@[i].dir
                    != Dir::In {
                "MakeSyscallMut"@
            } else {
                "MakeSyscall"@
            },
        ],
        syscall_struct(nr, f) is Ok ==> forall|i: int|
            0 <= i < f.args@.len() ==> underlying_type(#[trigger] f.args@[i]) == Ok::<Seq<char>, TranslateError>(
                syscall_struct(nr, f)->Ok_0.fields[i].ty,
            ) && syscall_struct(nr, f)->Ok_0.fields[i].annotations == (if f.args@[i].ty is Ptr
                || f.args@[i].ty is Ptr64 {
                if f.args@[i].dir == Dir::In {
                    seq!["#[in_ptr]"@]
                } else {
                    seq!["#[out_ptr]"@]
                }
            } else {
                Seq::<Seq<char>>::empty()
            }),
{
    law_struct_fields(nr, f);
    if syscall_struct(nr, f) is Ok {
        let m = syscall_struct(nr, f)->Ok_0;
        assert forall|i: int| 0 <= i < f.args@.len() implies underlying_type(#[trigger] f.args@[i]) == Ok::<
            Seq<char>,
            TranslateError,
        >(m.fields[i].ty) && m.fields[i].annotations == (if f.args@[i].ty is Ptr || f.args@[i].ty is Ptr64 {
            if f.args@[i].dir == Dir::In {
                seq!["#[in_ptr]"@]
            } else {
                seq!["#[out_ptr]"@]
            }
        } else {
            Seq::<Seq<char>>::empty()
        }) by {
            assert(arg_field(f.args@[i]) == Ok::<FieldModel, TranslateError>(m.fields[i]));
        }
        let mutable = exists|i: int|
            #![auto]
            0 <= i < f.args@.len() && (f.args@[i].ty is Ptr || f.args@[i].ty is Ptr64) && f.args@[i].dir != Dir::In;
        if mutable {
            let k = choose|i: int|
                #![auto]
                0 <= i < f.args@.len() && (f.args@[i].ty is Ptr || f.args@[i].ty is Ptr64) && f.args@[i].dir
                    != Dir::In;
            assert(is_ptr_ty(f.args@[k].ty));
            assert(has_out_pointer(f.args@));
        }
        if has_out_pointer(f.args@) {
            let k = choose|k: int| 0 <= k < f.args@.len() && is_ptr_ty(#[trigger] f.args@[k].ty) && f.args@[k].dir != Dir::In;
            assert(f.args@[k].ty is Ptr || f.args@[k].ty is Ptr64);
        }
        assert(has_out_pointer(f.args@) == mutable);
    }
}

/// Whether constant `c` is a number of syscall `f` (`__NR_f` or `SYS_f`)
/// that holds on RISC-V 64, wherever that architecture stands in its list.
pub open spec fn riscv_number_of(c: SyzConst, f: Seq<char>) -> bool {
    &&& c.name@ == "__NR_"@ + f || c.name@ == "SYS_"@ + f
    &&& exists|k: int| 0 <= k < c.arches@.len() && c.arches@[k] == TargetArch::Riscv64
}

/// The architecture-specific number of syscall `f` is the value of the
/// first constant that is a RISC-V 64 number of `f` (if that value is an
/// integer), and there is none when no constant is.
pub proof fn law_arch_number_is_first_riscv_constant(consts: Seq<SyzConst>, f: Seq<char>)
    ensures
        (forall|i: int| 0 <= i < consts.len() ==> !riscv_number_of(#[trigger] consts[i], f))
            ==> arch_sysno(consts, f) is None,
        forall|i: int|
            0 <= i < consts.len() && riscv_number_of(#[trigger] consts[i], f) && (forall|j: int|
                0 <= j < i ==> !riscv_number_of(#[trigger] consts[j], f)) ==> arch_sysno(consts, f) == match consts[i].value {
                Some(v) => Some(v as u64),
                None => None::<u64>,
            },
    decreases consts.len(),
{
    if consts.len() > 0 {
        let rest = consts.drop_first();
        law_arch_number_is_first_riscv_constant(rest, f);
        assert forall|i: int| 0 <= i < rest.len() implies #[trigger] rest[i] == consts[i + 1] by {}
        let c = consts[0];
        assert(riscv_number_of(c, f) <==> (is_sysno_name(c.name@, f) && c.arches@.contains(target_arch())));
        if !riscv_number_of(c, f) {
            assert forall|i: int|
                0 <= i < consts.len() && riscv_number_of(#[trigger] consts[i], f) && (forall|j: int|
                    0 <= j < i ==> !riscv_number_of(#[trigger] consts[j], f)) implies arch_sysno(consts, f) == match consts[i].value {
                    Some(v) => Some(v as u64),
                    None => None::<u64>,
                } by {
                assert(i > 0);
                assert(rest[i - 1] == consts[i]);
                assert forall|j: int| 0 <= j < i - 1 implies !riscv_number_of(#[trigger] rest[j], f) by {
                    assert(rest[j] == consts[j + 1]);
                }
            }
            if forall|i: int| 0 <= i < consts.len() ==> !riscv_number_of(#[trigger] consts[i], f) {
                assert forall|i: int| 0 <= i < rest.len() implies !riscv_number_of(#[trigger] rest[i], f) by {
                    assert(rest[i] == consts[i + 1]);
                }
            }
        } else {
            assert forall|i: int|
                0 <= i < consts.len() && riscv_number_of(#[trigger] consts[i], f) && (forall|j: int|
                    0 <= j < i ==> !riscv_number_of(#[trigger] consts[j], f)) implies arch_sysno(consts, f) == match consts[i].value {
                    Some(v) => Some(v as u64),
                    None => None::<u64>,
                } by {
                if i > 0 {
                    assert(!riscv_number_of(consts[0], f));
                }
            }
        }
    }
}

/// Whether constant `c` is a number of syscall `f` (`__NR_f` or `SYS_f`)
/// that names no architecture.
pub open spec fn archless_number_of(c: SyzConst, f: Seq<char>) -> bool {
    &&& c.name@ == "__NR_"@ + f || c.name@ == "SYS_"@ + f
    &&& c.arches@.len() == 0
}

/// The architecture-independent number of syscall `f` is the value of the
/// first constant for `f` that names no architecture; it is rejected as
/// not an integer when that value is not one, and as not found when no
/// such constant exists.
pub proof fn law_default_number_is_first_archless_constant(consts: Seq<SyzConst>, f: String)
    ensures
        (forall|i: int| 0 <= i < consts.len() ==> !archless_number_of(#[trigger] consts[i], f@))
            ==> default_sysno(consts, f) == Err::<u64, TranslateError>(TranslateError::SyscallNumberNotFound(f)),
        forall|i: int|
            0 <= i < consts.len() && archless_number_of(#[trigger] consts[i], f@) && (forall|j: int|
                0 <= j < i ==> !archless_number_of(#[trigger] consts[j], f@)) ==> default_sysno(consts, f) == match consts[i].value {
                Some(v) => Ok(v as u64),
                None => Err::<u64, TranslateError>(TranslateError::InvalidSyscallNumber(f)),
            },
    decreases consts.len(),
{
    if consts.len() > 0 {
        let rest = consts.drop_first();
        law_default_number_is_first_archless_constant(rest, f);
        let c = consts[0];
        assert(archless_number_of(c, f@) <==> (is_sysno_name(c.name@, f@) && c.arches@.len() == 0));
        if !archless_number_of(c, f@) {
            assert forall|i: int|
                0 <= i < consts.len() && archless_number_of(#[trigger] consts[i], f@) && (forall|j: int|
                    0 <= j < i ==> !archless_number_of(#[trigger] consts[j], f@)) implies default_sysno(consts, f) == match consts[i].value {
                    Some(v) => Ok(v as u64),
                    None => Err::<u64, TranslateError>(TranslateError::InvalidSyscallNumber(f)),
                } by {
                assert(i > 0);
                assert(rest[i - 1] == consts[i]);
                assert forall|j: int| 0 <= j < i - 1 implies !archless_number_of(#[trigger] rest[j], f@) by {
                    assert(rest[j] == consts[j + 1]);
                }
            }
            if forall|i: int| 0 <= i < consts.len() ==> !archless_number_of(#[trigger] consts[i], f@) {
                assert forall|i: int| 0 <= i < rest.len() implies !archless_number_of(#[trigger] rest[i], f@) by {
                    assert(rest[i] == consts[i + 1]);
                }
            }
        } else {
            assert forall|i: int|
                0 <= i < consts.len() && archless_number_of(#[trigger] consts[i], f@) && (forall|j: int|
                    0 <= j < i ==> !archless_number_of(#[trigger] consts[j], f@)) implies default_sysno(consts, f) == match consts[i].value {
                    Some(v) => Ok(v as u64),
                    None => Err::<u64, TranslateError>(TranslateError::InvalidSyscallNumber(f)),
                } by {
                if i > 0 {
                    assert(!archless_number_of(consts[0], f@));
                }
            }
        }
    }
}

/// The number of a syscall is the RISC-V 64 one when the first RISC-V 64
/// constant for it holds an integer; when no constant for it holds on
/// RISC-V 64, or the first one does not hold an integer, the number is the
/// architecture-independent one.
pub proof fn law_number_prefers_riscv(consts: Seq<SyzConst>, f: String)
    ensures
        forall|i: int|
            0 <= i < consts.len() && riscv_number_of(#[trigger] consts[i], f@) && (forall|j: int|
                0 <= j < i ==> !riscv_number_of(#[trigger] consts[j], f@)) ==> syscall_number(consts, f) == match consts[i].value {
                Some(v) => Ok::<u64, TranslateError>(v as u64),
                None => default_sysno(consts, f),
            },
        (forall|i: int| 0 <= i < consts.len() ==> !riscv_number_of(#[trigger] consts[i], f@))
            ==> syscall_number(consts, f) == default_sysno(consts, f),
{
    law_arch_number_is_first_riscv_constant(consts, f@);
}

/// The types of the argument table: the integers and flags are `u64`,
/// strings are buffers of 4096 bytes, a resource is a `SyscallResult`; a
/// named type that the description does not define, or that is not a
/// resource, and any other type are rejected, naming what they are.
pub proof fn law_argument_type_table(arg: SyzArg)
    ensures
        (arg.ty is Intptr || arg.ty is Int8 || arg.ty is Int16 || arg.ty is Int32 || arg.ty is Int64
            || arg.ty is Flags) ==> underlying_type(arg) == Ok::<Seq<char>, TranslateError>("u64"@),
        (arg.ty is String || arg.ty is StringNoz) ==> underlying_type(arg) == Ok::<Seq<char>, TranslateError>(
            "Vec<u8, 4096>"@,
        ),
        arg.ty matches ArgTy::Ident(id, kind) ==> underlying_type(arg) == match kind {
            None => Err(TranslateError::UnknownIdentifier(id)),
            Some(IdentKind::Resource) => Ok("SyscallResult"@),
            Some(k) => Err::<Seq<char>, TranslateError>(TranslateError::UnsupportedIdentifier(id, k)),
        },
        arg.ty matches ArgTy::Other(t) ==> underlying_type(arg) == Err::<Seq<char>, TranslateError>(
            TranslateError::UnsupportedType(t),
        ),
{
}

/// The struct of a syscall is public, is named after the syscall in
/// Pascal case, carries `#[sysno(nr)]` with `nr` in decimal, names field
/// `i` after argument `i` in snake case and makes it public, and ends with
/// a public `#[ret_val] id: Uuid` field exactly when the syscall returns
/// something.
pub proof fn law_struct_shape(nr: u64, f: SyzFunction)
    ensures
        syscall_struct(nr, f) is Ok ==> {
            let m = syscall_struct(nr, f)->Ok_0;
            &&& m.name == case_converted(f.name@, TargetCase::Pascal)
            &&& m.vis == Some("pub"@)
            &&& m.attrs == seq!["sysno("@ + decimal_text(nr as nat) + ")"@]
            &&& m.fields.len() == f.args@.len() + (if f.has_output { 1int } else { 0int })
            &&& forall|i: int|
                0 <= i < f.args@.len() ==> (#[trigger] m.fields[i]).name == case_converted(
                    f.args@[i].name@,
                    TargetCase::Snake,
                ) && m.fields[i].vis == Some("pub"@)
            &&& f.has_output ==> m.fields[f.args@.len() as int] == (FieldModel {
                name: "id"@,
                ty: "Uuid"@,
                annotations: seq!["#[ret_val]"@],
                vis: Some("pub"@),
            })
        },
{
    law_struct_fields(nr, f);
    if syscall_struct(nr, f) is Ok {
        let m = syscall_struct(nr, f)->Ok_0;
        assert forall|i: int| 0 <= i < f.args@.len() implies (#[trigger] m.fields[i]).name == case_converted(
            f.args@[i].name@,
            TargetCase::Snake,
        ) && m.fields[i].vis == Some("pub"@) by {
            assert(arg_field(f.args@[i]) == Ok::<FieldModel, TranslateError>(m.fields[i]));
        }
    }
}

} // verus!
