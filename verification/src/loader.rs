//! Parsing the texts of a syzlang description into the library's
//! description: the builtin and the described statements, the constants
//! with the architecture of their file, then the parse's syscalls and
//! constants converted one for one.

use vstd::prelude::*;

use syzlang_parser::parser::{Argument, Const, Parsed, Statement};

use crate::syzlang::{ArgTy, SyzArg, SyzConst, SyzDescription, SyzFunction, TargetArch};
use crate::syzlang_input::{
    argument_basic_type, argument_basic_type_of, argument_depth, argument_dir, argument_dir_of,
    argument_ident, argument_ident_of, argument_name, argument_name_of, argument_subarg,
    argument_subarg_of, const_arch_at, const_arch_count, const_arches_of, const_file_arch,
    const_file_arch_of, const_int_value, const_name, const_name_of, const_value_of,
    consts_add_vec, consts_content, consts_merged, consts_new, consts_of, function_args, function_args_of,
    function_has_output, function_has_output_of, function_name, function_name_of,
    ident_kind_of, identifier_text, identifier_unique_name, parse_consts, parse_statements,
    built_from, parsed_consts, parsed_consts_of, parsed_functions, parsed_functions_of,
    parsed_ident_kind, parsed_new, parsed_postprocess, postprocessed, statements_of,
};

verus! {

/// Why the texts of a description cannot be parsed.
#[derive(PartialEq, Eq, Structural, Clone, Copy, Debug)]
pub enum LoadError {
    /// The builtin description does not parse.
    Builtin,
    /// The description does not parse.
    Description,
    /// The name of the constant file names no architecture that is known.
    ConstFileName,
    /// The constant file does not parse.
    Consts,
    /// The parse cannot be post-processed.
    Postprocess,
}

/// The constants and the statements that the texts give: the constants of
/// the constant file (read with the architecture that its name gives), and
/// the builtin statements followed by the described ones; or the first
/// text that does not parse.
pub open spec fn load_inputs(builtin: Seq<char>, desc: Seq<char>, consts: Seq<char>, const_file_name: Seq<char>) -> Result<(Seq<Const>, Seq<Statement>), LoadError> {
    match statements_of(builtin) {
        Some(Some(bs)) => match statements_of(desc) {
            Some(Some(ds)) => match const_file_arch_of(const_file_name) {
                Some(arch) => match consts_of(consts, arch) {
                    Some(Some(cs)) => Ok((consts_merged(Seq::empty(), cs), bs + ds)),
                    _ => Err(LoadError::Consts),
                },
                None => Err(LoadError::ConstFileName),
            },
            _ => Err(LoadError::Description),
        },
        _ => Err(LoadError::Builtin),
    }
}

/// The parser returns on the texts: each of its steps that the loading
/// reaches gives back a value (the parser panics on some malformed texts).
pub open spec fn parser_returns(builtin: Seq<char>, desc: Seq<char>, consts: Seq<char>, const_file_name: Seq<char>) -> bool {
    &&& statements_of(builtin) is Some
    &&& statements_of(builtin) matches Some(Some(_)) ==> statements_of(desc) is Some
    &&& statements_of(builtin) matches Some(Some(_)) ==> statements_of(desc) matches Some(Some(_))
        ==> const_file_arch_of(const_file_name) matches Some(arch) ==> consts_of(consts, arch) is Some
    &&& match load_inputs(builtin, desc, consts, const_file_name) {
        Ok((cs, stmts)) => forall|p: Parsed| #[trigger] built_from(p, cs, stmts) ==> postprocessed(p) is Some,
        Err(_) => true,
    }
}

/// `q` is a parse of the texts: a parse built from their constants and
/// statements, post-processed.
pub open spec fn parse_of(builtin: Seq<char>, desc: Seq<char>, consts: Seq<char>, const_file_name: Seq<char>, q: Parsed) -> bool {
    match load_inputs(builtin, desc, consts, const_file_name) {
        Ok((cs, stmts)) => exists|p: Parsed| #[trigger] built_from(p, cs, stmts) && postprocessed(p) == Some(Some(q)),
        Err(_) => false,
    }
}

/// The texts load: they parse, and every parse built from them can be
/// post-processed.
pub open spec fn loads(builtin: Seq<char>, desc: Seq<char>, consts: Seq<char>, const_file_name: Seq<char>) -> bool {
    match load_inputs(builtin, desc, consts, const_file_name) {
        Ok((cs, stmts)) => forall|p: Parsed| #[trigger] built_from(p, cs, stmts) ==> postprocessed(p) matches Some(Some(_)),
        Err(_) => false,
    }
}

/// What loading the texts gives: the first text that does not parse;
/// else, for the parse that was built, the failure to post-process it or
/// a description of the post-processed parse.
pub open spec fn load_result(builtin: Seq<char>, desc: Seq<char>, consts: Seq<char>, const_file_name: Seq<char>, res: Result<SyzDescription, LoadError>) -> bool {
    match load_inputs(builtin, desc, consts, const_file_name) {
        Err(e) => res == Err::<SyzDescription, LoadError>(e),
        Ok((cs, stmts)) => match res {
            Ok(d) => exists|q: Parsed| #[trigger] parse_of(builtin, desc, consts, const_file_name, q) && describes(q, d),
            Err(e) => e == LoadError::Postprocess && exists|p: Parsed|
                #[trigger] built_from(p, cs, stmts) && postprocessed(p) == Some(None::<Parsed>),
        },
    }
}

/// `t` is the library's type of argument `a` of parse `p`: a named type
/// with its name and what the parse defines it as, any other type as the
/// parser gives it.
pub open spec fn type_converted(p: Parsed, a: Argument, t: ArgTy) -> bool {
    match argument_ident_of(a) {
        Some(id) => t matches ArgTy::Ident(name, kind) && name@ == identifier_text(id) && kind
            == ident_kind_of(p, id),
        None => t == argument_basic_type_of(a),
    }
}

/// `s` is the library's view of argument `a` of parse `p`, and so are its
/// nested arguments.
pub open spec fn arg_converted(p: Parsed, a: Argument, s: SyzArg) -> bool
    decreases s,
{
    &&& s.name@ == argument_name_of(a)
    &&& s.dir == argument_dir_of(a)
    &&& type_converted(p, a, s.ty)
    &&& match (argument_subarg_of(a), s.subarg) {
        (Some(b), Some(t)) => arg_converted(p, b, *t),
        (None, None) => true,
        _ => false,
    }
}

/// `g` is the library's view of syscall `f` of parse `p`.
pub open spec fn function_converted(p: Parsed, f: syzlang_parser::parser::Function, g: SyzFunction) -> bool {
    &&& g.name@ == function_name_of(f)
    &&& g.has_output == function_has_output_of(f)
    &&& g.args@.len() == function_args_of(f).len()
    &&& forall|j: int|
        0 <= j < g.args@.len() ==> arg_converted(p, function_args_of(f)[j], #[trigger] g.args@[j])
}

/// `k` is the library's view of constant `c`.
pub open spec fn const_converted(c: Const, k: SyzConst) -> bool {
    &&& k.name@ == const_name_of(c)
    &&& k.value == const_value_of(c)
    &&& k.arches@ == const_arches_of(c)
}

/// `d` is the library's view of parse `p`: its syscalls and its constants,
/// one for one and in order.
pub open spec fn describes(p: Parsed, d: SyzDescription) -> bool {
    &&& d.functions@.len() == parsed_functions_of(p).len()
    &&& forall|i: int|
        0 <= i < d.functions@.len() ==> function_converted(
            p,
            parsed_functions_of(p)[i],
            #[trigger] d.functions@[i],
        )
    &&& d.consts@.len() == parsed_consts_of(p).len()
    &&& forall|i: int|
        0 <= i < d.consts@.len() ==> const_converted(parsed_consts_of(p)[i], #[trigger] d.consts@[i])
}

/// The library's view of argument `a` of parse `p`.
fn convert_argument(p: &Parsed, a: &Argument) -> (res: SyzArg)
    ensures
        arg_converted(*p, *a, res),
    decreases argument_depth(*a),
{
    let name = argument_name(a);
    let dir = argument_dir(a);
    let ty = match argument_ident(a) {
        Some(id) => ArgTy::Ident(identifier_unique_name(id), parsed_ident_kind(p, id)),
        None => argument_basic_type(a),
    };
    let subarg = match argument_subarg(a) {
        Some(sub) => Some(Box::new(convert_argument(p, sub))),
        None => None,
    };
    SyzArg { name, ty, dir, subarg }
}

/// The library's view of syscall `f` of parse `p`.
fn convert_function(p: &Parsed, f: &syzlang_parser::parser::Function) -> (res: SyzFunction)
    ensures
        function_converted(*p, *f, res),
{
    let args = function_args(f);
    let mut out: Vec<SyzArg> = Vec::new();
    let mut i: usize = 0;
    while i < args.len()
        invariant
            0 <= i <= args.len(),
            args@ == function_args_of(*f),
            out@.len() == i,
            forall|j: int| 0 <= j < i ==> arg_converted(*p, args@[j], #[trigger] out@[j]),
        decreases args.len() - i,
    {
        let a = convert_argument(p, &args[i]);
        out.push(a);
        i = i + 1;
    }
    SyzFunction { name: function_name(f), args: out, has_output: function_has_output(f) }
}

/// The library's view of constant `c`.
fn convert_const(c: &Const) -> (res: SyzConst)
    ensures
        const_converted(*c, res),
{
    let n = const_arch_count(c);
    let mut arches: Vec<TargetArch> = Vec::new();
    let mut i: usize = 0;
    while i < n
        invariant
            0 <= i <= n,
            n == const_arches_of(*c).len(),
            arches@ == const_arches_of(*c).take(i as int),
        decreases n - i,
    {
        let arch = const_arch_at(c, i);
        arches.push(arch);
        assert(const_arches_of(*c).take(i + 1) =~= const_arches_of(*c).take(i as int).push(arch));
        i = i + 1;
    }
    assert(const_arches_of(*c).take(n as int) =~= const_arches_of(*c));
    SyzConst { name: const_name(c), value: const_int_value(c), arches }
}

/// The library's view of parse `p`.
fn convert_parsed(p: &Parsed) -> (res: SyzDescription)
    ensures
        describes(*p, res),
{
    let fs = parsed_functions(p);
    let mut functions: Vec<SyzFunction> = Vec::new();
    let mut i: usize = 0;
    while i < fs.len()
        invariant
            0 <= i <= fs.len(),
            fs@ == parsed_functions_of(*p),
            functions@.len() == i,
            forall|j: int| 0 <= j < i ==> function_converted(*p, fs@[j], #[trigger] functions@[j]),
        decreases fs.len() - i,
    {
        let g = convert_function(p, &fs[i]);
        functions.push(g);
        i = i + 1;
    }
    let cs = parsed_consts(p);
    let mut consts: Vec<SyzConst> = Vec::new();
    let mut k: usize = 0;
    while k < cs.len()
        invariant
            0 <= k <= cs.len(),
            cs@ == parsed_consts_of(*p),
            consts@.len() == k,
            forall|j: int| 0 <= j < k ==> const_converted(cs@[j], #[trigger] consts@[j]),
        decreases cs.len() - k,
    {
        let c = convert_const(&cs[k]);
        consts.push(c);
        k = k + 1;
    }
    SyzDescription { functions, consts }
}

/// Parses the builtin description, the description and the constant file
/// (whose name gives the architecture of its constants) into the
/// library's description, or says which step failed.
pub fn load_description(builtin: &str, desc: &str, consts: &str, const_file_name: &str) -> (res: Result<SyzDescription, LoadError>)
    requires
        parser_returns(builtin@, desc@, consts@, const_file_name@),
    ensures
        load_result(builtin@, desc@, consts@, const_file_name@, res),
{
    let mut stmts = match parse_statements(builtin) {
        Some(s) => s,
        None => {
            return Err(LoadError::Builtin);
        },
    };
    let mut described = match parse_statements(desc) {
        Some(s) => s,
        None => {
            return Err(LoadError::Description);
        },
    };
    let ghost bs = stmts@;
    let ghost ds = described@;
    stmts.append(&mut described);
    let arch = match const_file_arch(const_file_name) {
        Some(arch) => arch,
        None => {
            return Err(LoadError::ConstFileName);
        },
    };
    let read = match parse_consts(consts, arch) {
        Some(cs) => cs,
        None => {
            return Err(LoadError::Consts);
        },
    };
    let mut all = consts_new();
    consts_add_vec(&mut all, read);
    assert(stmts@ =~= bs + ds);
    let ghost cs = consts_content(all);
    let ghost st = stmts@;
    assert(load_inputs(builtin@, desc@, consts@, const_file_name@) == Ok::<(Seq<Const>, Seq<Statement>), LoadError>((cs, st)));
    let parsed = parsed_new(all, stmts);
    let ghost built = parsed;
    proof {
        let (cs2, st2) = load_inputs(builtin@, desc@, consts@, const_file_name@)->Ok_0;
        assert(cs2 == cs && st2 == st);
        assert(built_from(built, cs2, st2));
        assert(postprocessed(built) is Some);
    }
    match parsed_postprocess(parsed) {
        Some(q) => {
            let d = convert_parsed(&q);
            assert(postprocessed(built) == Some(Some(q)));
            assert(parse_of(builtin@, desc@, consts@, const_file_name@, q));
            Ok(d)
        },
        None => {
            assert(postprocessed(built) == Some(None::<Parsed>));
            Err(LoadError::Postprocess)
        },
    }
}

} // verus!
