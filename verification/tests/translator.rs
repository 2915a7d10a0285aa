use syscall2struct::loader::LoadError;
use syscall2struct::syzlang::{
    ArgTy, Dir, IdentKind, SyzArg, SyzConst, SyzDescription, SyzFunction, TargetArch,
};
use syscall2struct::translator::{SyscallTranslator, TranslateError};

fn arg(name: &str, ty: ArgTy) -> SyzArg {
    SyzArg { name: name.to_string(), ty, dir: Dir::In, subarg: None }
}

fn ptr(name: &str, dir: Dir, sub: SyzArg) -> SyzArg {
    SyzArg { name: name.to_string(), ty: ArgTy::Ptr, dir, subarg: Some(Box::new(sub)) }
}

fn konst(name: &str, value: Option<i64>, arches: Vec<TargetArch>) -> SyzConst {
    SyzConst { name: name.to_string(), value, arches }
}

fn riscv() -> Vec<TargetArch> {
    vec![TargetArch::X86_64, TargetArch::Riscv64]
}

fn other_arch() -> Vec<TargetArch> {
    vec![TargetArch::Aarch64]
}

fn fd() -> ArgTy {
    ArgTy::Ident("fd".to_string(), Some(IdentKind::Resource))
}

fn readme_description() -> SyzDescription {
    SyzDescription {
        functions: vec![
            SyzFunction {
                name: "foo".to_string(),
                args: vec![
                    arg("a", ArgTy::Int32),
                    ptr("in_buf", Dir::In, arg("", ArgTy::String)),
                    arg("handle", fd()),
                ],
                has_output: false,
            },
            SyzFunction {
                name: "bar".to_string(),
                args: vec![arg("b", ArgTy::Int64), ptr("out_buf", Dir::Out, arg("", ArgTy::String))],
                has_output: true,
            },
        ],
        consts: vec![
            konst("__NR_foo", Some(123), riscv()),
            konst("SYS_bar", Some(456), vec![]),
        ],
    }
}

fn lines(text: &str) -> Vec<String> {
    text.lines().map(|l| l.trim().to_string()).collect()
}

#[test]
fn translate_readme_example() {
    let text = SyscallTranslator::from_description(readme_description()).translate();
    assert!(text.starts_with(
        "use serde::Deserialize;\nuse heapless::Vec;\nuse syscalls::raw::*;\nuse syscall2struct_derive::*;\nuse syscall2struct_helpers::*;\nuse uuid::Uuid;\n"
    ), "{text}");
    let l = lines(&text);
    let foo = l.iter().position(|x| x == "pub struct Foo {").expect("struct Foo");
    assert_eq!(l[foo - 2], "#[derive(Debug, Deserialize, MakeSyscall)]");
    assert_eq!(l[foo - 1], "#[sysno(123)]");
    assert_eq!(l[foo + 1], "pub a: u64,");
    assert_eq!(l[foo + 2], "#[in_ptr]");
    assert_eq!(l[foo + 3], "pub in_buf: Pointer<Vec<u8, 4096>>,");
    assert_eq!(l[foo + 4], "pub handle: SyscallResult,");
    assert_eq!(l[foo + 5], "}");
    let bar = l.iter().position(|x| x == "pub struct Bar {").expect("struct Bar");
    assert!(bar > foo);
    assert_eq!(l[bar - 2], "#[derive(Debug, Deserialize, MakeSyscallMut)]");
    assert_eq!(l[bar - 1], "#[sysno(456)]");
    assert_eq!(l[bar + 1], "pub b: u64,");
    assert_eq!(l[bar + 2], "#[out_ptr]");
    assert_eq!(l[bar + 3], "pub out_buf: Pointer<Vec<u8, 4096>>,");
    assert_eq!(l[bar + 4], "#[ret_val]");
    assert_eq!(l[bar + 5], "pub id: Uuid,");
    assert_eq!(l[bar + 6], "}");
}

#[test]
fn translate_type_mapping() {
    let mut desc = readme_description();
    let mut array = arg("arr", ArgTy::Array);
    array.subarg = Some(Box::new(arg("", ArgTy::Int8)));
    let mut array64 = arg("arr64", ArgTy::Array);
    array64.subarg = Some(Box::new(arg("", ArgTy::Int64)));
    desc.functions = vec![SyzFunction {
        name: "sched_yield".to_string(),
        args: vec![
            arg("Flag", ArgTy::Flags),
            arg("p", ArgTy::Intptr),
            arg("s", ArgTy::StringNoz),
            array,
            array64,
            ptr("inout", Dir::InOut, arg("", ArgTy::Int16)),
        ],
        has_output: false,
    }];
    desc.consts = vec![konst("__NR_sched_yield", Some(7), riscv())];
    let text = SyscallTranslator::from_description(desc).try_translate().unwrap();
    let l = lines(&text);
    let at = l.iter().position(|x| x == "pub struct SchedYield {").expect("struct SchedYield");
    assert_eq!(l[at - 2], "#[derive(Debug, Deserialize, MakeSyscallMut)]");
    assert_eq!(l[at - 1], "#[sysno(7)]");
    assert_eq!(l[at + 1], "pub flag: u64,");
    assert_eq!(l[at + 2], "pub p: u64,");
    assert_eq!(l[at + 3], "pub s: Vec<u8, 4096>,");
    assert_eq!(l[at + 4], "pub arr: Vec<u8, 10>,");
    assert_eq!(l[at + 5], "pub arr_64: Vec<u64, 10>,");
    assert_eq!(l[at + 6], "#[out_ptr]");
    assert_eq!(l[at + 7], "pub inout: Pointer<u64>,");
}

#[test]
fn translate_prefers_the_target_arch_number() {
    let mut desc = readme_description();
    desc.consts = vec![
        konst("__NR_foo", Some(1), vec![]),
        konst("__NR_foo", Some(2), riscv()),
        konst("SYS_bar", Some(-1), riscv()),
    ];
    let text = SyscallTranslator::from_description(desc).try_translate().unwrap();
    assert!(text.contains("#[sysno(2)]"), "{text}");
    assert!(text.contains("#[sysno(18446744073709551615)]"), "{text}");
}

#[test]
fn translate_falls_back_when_the_target_value_is_not_an_integer() {
    let mut desc = readme_description();
    desc.consts = vec![
        konst("__NR_foo", None, riscv()),
        konst("__NR_foo", Some(9), riscv()),
        konst("SYS_foo", Some(8), vec![]),
        konst("SYS_bar", Some(456), vec![]),
    ];
    let text = SyscallTranslator::from_description(desc).try_translate().unwrap();
    assert!(text.contains("#[sysno(8)]"), "{text}");
}

#[test]
fn translate_errors() {
    let mut desc = readme_description();
    desc.consts = vec![konst("__NR_foo", Some(1), riscv())];
    assert_eq!(
        SyscallTranslator::from_description(desc).try_translate().err(),
        Some(TranslateError::SyscallNumberNotFound("bar".to_string()))
    );

    let mut desc = readme_description();
    desc.consts.push(konst("SYS_foo", None, vec![]));
    desc.consts.remove(0);
    assert_eq!(
        SyscallTranslator::from_description(desc).try_translate().err(),
        Some(TranslateError::InvalidSyscallNumber("foo".to_string()))
    );

    let mut desc = readme_description();
    desc.functions[0].args[2] = arg("handle", ArgTy::Ident("fd".to_string(), None));
    assert_eq!(
        SyscallTranslator::from_description(desc).try_translate().err(),
        Some(TranslateError::UnknownIdentifier("fd".to_string()))
    );

    let mut desc = readme_description();
    desc.functions[0].args[2] = arg("handle", ArgTy::Ident("fd".to_string(), Some(IdentKind::Struct)));
    assert_eq!(
        SyscallTranslator::from_description(desc).try_translate().err(),
        Some(TranslateError::UnsupportedIdentifier("fd".to_string(), IdentKind::Struct))
    );

    let mut desc = readme_description();
    desc.functions[0].args[1] = ptr("pp", Dir::In, ptr("", Dir::In, arg("", ArgTy::Int8)));
    assert_eq!(SyscallTranslator::from_description(desc).try_translate().err(), Some(TranslateError::NestedPointer));

    let mut desc = readme_description();
    desc.functions[0].args[1] = arg("arr", ArgTy::Array);
    assert_eq!(SyscallTranslator::from_description(desc).try_translate().err(), Some(TranslateError::MissingSubArgument));

    let mut desc = readme_description();
    desc.functions[1].args[0] = arg("v", ArgTy::Other("Vma".to_string()));
    assert_eq!(
        SyscallTranslator::from_description(desc).try_translate().err(),
        Some(TranslateError::UnsupportedType("Vma".to_string()))
    );
}

#[test]
fn translate_reports_the_first_failing_syscall() {
    let mut desc = readme_description();
    desc.consts.clear();
    assert_eq!(
        SyscallTranslator::from_description(desc).try_translate().err(),
        Some(TranslateError::SyscallNumberNotFound("foo".to_string()))
    );
}

#[test]
fn translate_resources_take_syscall_results() {
    let mut desc = readme_description();
    desc.functions[1].args.push(arg("fd_arg", fd()));
    let text = SyscallTranslator::from_description(desc).try_translate().unwrap();
    assert!(text.contains("pub fd_arg: SyscallResult,"), "{text}");
}

#[test]
fn translate_ignores_numbers_for_other_architectures() {
    let mut desc = readme_description();
    desc.consts = vec![
        konst("__NR_foo", Some(5), other_arch()),
        konst("__NR_foo", Some(6), vec![]),
        konst("SYS_bar", Some(456), vec![]),
    ];
    let text = SyscallTranslator::from_description(desc).try_translate().unwrap();
    assert!(text.contains("#[sysno(6)]"), "{text}");
    assert!(!text.contains("#[sysno(5)]"), "{text}");
}

const BUILTIN: &str = "resource fd[int32]\n";
const DESC: &str = "write(fd fd, buf ptr[in, string], count int64)\nread(fd fd, buf ptr[out, array[int8]], count int64) intptr\n";
const CONSTS: &str = "arches = riscv64, amd64\n__NR_write = 64, amd64:1\n__NR_read = 63, amd64:0\n";

#[test]
fn new_parses_the_texts() {
    let translator = SyscallTranslator::try_new(BUILTIN, DESC, CONSTS, "desc/test.txt.const").unwrap();
    let text = translator.try_translate().unwrap();
    let l = lines(&text);
    let write = l.iter().position(|x| x == "pub struct Write {").expect("struct Write");
    assert_eq!(l[write - 2], "#[derive(Debug, Deserialize, MakeSyscall)]");
    assert_eq!(l[write - 1], "#[sysno(64)]");
    assert_eq!(l[write + 1], "pub fd: SyscallResult,");
    assert_eq!(l[write + 2], "#[in_ptr]");
    assert_eq!(l[write + 3], "pub buf: Pointer<Vec<u8, 4096>>,");
    assert_eq!(l[write + 4], "pub count: u64,");
    let read = l.iter().position(|x| x == "pub struct Read {").expect("struct Read");
    assert_eq!(l[read - 2], "#[derive(Debug, Deserialize, MakeSyscallMut)]");
    assert_eq!(l[read - 1], "#[sysno(63)]");
    assert_eq!(l[read + 2], "#[out_ptr]");
    assert_eq!(l[read + 3], "pub buf: Pointer<Vec<u8, 10>>,");
    assert_eq!(l[read + 5], "#[ret_val]");
    assert_eq!(l[read + 6], "pub id: Uuid,");
}

#[test]
fn new_reports_an_unknown_architecture_in_the_file_name() {
    let res = SyscallTranslator::try_new(BUILTIN, DESC, CONSTS, "desc/test_nosucharch.const");
    assert_eq!(res.err(), Some(LoadError::ConstFileName));
}

#[test]
fn new_reports_each_text_that_does_not_parse() {
    assert_eq!(SyscallTranslator::try_new("resource", DESC, CONSTS, "desc/test.txt.const").err(), Some(LoadError::Builtin));
    assert_eq!(SyscallTranslator::try_new(BUILTIN, ")", CONSTS, "desc/test.txt.const").err(), Some(LoadError::Description));
    assert_eq!(
        SyscallTranslator::try_new(BUILTIN, DESC, "__NR_x = 1, bogus:2\n", "desc/test.txt.const").err(),
        Some(LoadError::Consts)
    );
}

#[test]
fn new_reads_the_architecture_from_the_file_name() {
    let consts = "__NR_write = 64\n__NR_read = 63\n";
    let riscv = SyscallTranslator::try_new(BUILTIN, DESC, consts, "desc/test_riscv64.const").unwrap();
    let text = riscv.try_translate().unwrap();
    assert!(text.contains("#[sysno(64)]"), "{text}");
    let other = SyscallTranslator::try_new(BUILTIN, DESC, consts, "desc/test_arm64.const").unwrap();
    assert_eq!(other.try_translate().err(), Some(TranslateError::SyscallNumberNotFound("write".to_string())));
}

#[test]
fn new_and_translate_on_texts_that_load() {
    let text = SyscallTranslator::new(BUILTIN, DESC, CONSTS, "desc/test.txt.const").translate();
    assert!(text.contains("pub struct Write {"), "{text}");
    assert!(text.contains("pub struct Read {"), "{text}");
}

#[test]
fn translate_and_try_translate_agree() {
    let t = SyscallTranslator::from_description(readme_description());
    assert_eq!(t.try_translate().unwrap(), t.translate());
}
