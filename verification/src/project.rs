use vstd::prelude::*;

use crate::code_builder::{
    FunctionModel, ItemModel, ScopeModel, empty_scope, function_line, function_model, function_new, rendered_scope,
    scope_import, scope_model, scope_new, scope_push_fn, scope_raw, scope_to_string,
    scope_with_import,
};
use crate::text::concat;

verus! {

/// A command to run: the program, its arguments, the directory to run it
/// in (the current one when `None`), and the message to fail with when it
/// cannot be started or does not succeed.
pub struct CommandStep {
    pub program: String,
    pub args: Vec<String>,
    pub dir: Option<String>,
    pub failure: String,
}

/// A file to write: the path `base` joined with each of `parts`, and the
/// content.
pub struct FileStep {
    pub base: String,
    pub parts: Vec<String>,
    pub content: String,
}

/// One step of creating the harness project.
pub enum CrateStep {
    Run(CommandStep),
    Write(FileStep),
}

/// A step as plain text values.
pub enum StepView {
    Run { program: Seq<char>, args: Seq<Seq<char>>, dir: Option<Seq<char>>, failure: Seq<char> },
    Write { base: Seq<char>, parts: Seq<Seq<char>>, content: Seq<char> },
}

pub open spec fn texts(v: Seq<String>) -> Seq<Seq<char>> {
    v.map_values(|s: String| s@)
}

pub open spec fn str_texts(v: Seq<&str>) -> Seq<Seq<char>> {
    v.map_values(|s: &str| s@)
}

impl CrateStep {
    pub open spec fn view(&self) -> StepView {
        match self {
            CrateStep::Run(c) => StepView::Run {
                program: c.program@,
                args: texts(c.args@),
                dir: match c.dir {
                    Some(d) => Some(d@),
                    None => None,
                },
                failure: c.failure@,
            },
            CrateStep::Write(f) => StepView::Write {
                base: f.base@,
                parts: texts(f.parts@),
                content: f.content@,
            },
        }
    }
}

/// The steps as plain text values.
pub open spec fn steps_view(steps: Seq<CrateStep>) -> Seq<StepView> {
    steps.map_values(|s: CrateStep| s.view())
}

fn owned_texts(items: &[&str]) -> (res: Vec<String>)
    ensures
        texts(res@) == str_texts(items@),
{
    let mut res: Vec<String> = Vec::new();
    let mut i: usize = 0;
    while i < items.len()
        invariant
            0 <= i <= items.len(),
            texts(res@) == str_texts(items@.take(i as int)),
        decreases items.len() - i,
    {
        let s: String = items[i].to_owned();
        let ghost prev = res@;
        res.push(s);
        assert(res@ == prev.push(s));
        assert(texts(prev.push(s)) =~= texts(prev).push(s@));
        assert(items@.take(i + 1) =~= items@.take(i as int).push(items@[i as int]));
        assert(str_texts(items@.take(i as int).push(items@[i as int])) =~= str_texts(
            items@.take(i as int),
        ).push(items@[i as int]@));
        i = i + 1;
    }
    assert(items@.take(items.len() as int) =~= items@);
    res
}

fn run_step(program: &str, args: &[&str], dir: Option<&str>, failure: &str) -> (res: CrateStep)
    ensures
        res.view() == (StepView::Run {
            program: program@,
            args: str_texts(args@),
            dir: match dir {
                Some(d) => Some(d@),
                None => None,
            },
            failure: failure@,
        }),
{
    let dir = match dir {
        Some(d) => Some(d.to_owned()),
        None => None,
    };
    CrateStep::Run(
        CommandStep {
            program: program.to_owned(),
            args: owned_texts(args),
            dir,
            failure: failure.to_owned(),
        },
    )
}

fn write_step(base: &str, parts: &[&str], content: &str) -> (res: CrateStep)
    ensures
        res.view() == (StepView::Write { base: base@, parts: str_texts(parts@), content: content@ }),
{
    CrateStep::Write(
        FileStep { base: base.to_owned(), parts: owned_texts(parts), content: content.to_owned() },
    )
}

/// A command run in `dir`.
pub open spec fn run_in(program: Seq<char>, args: Seq<Seq<char>>, dir: Seq<char>, failure: Seq<char>) -> StepView {
    StepView::Run { program, args, dir: Some(dir), failure }
}

/// The steps that create the harness project at `path`: a new crate, its
/// dependencies, `src/main.rs` and `src/syscall.rs`, then formatting.
pub open spec fn make_crate_plan(path: Seq<char>, main: Seq<char>, syscall: Seq<char>) -> Seq<StepView> {
    seq![
        StepView::Run {
            program: "mkdir"@,
            args: seq!["-p"@, path],
            dir: None,
            failure: "Failed to create project"@,
        },
        run_in("cargo"@, seq!["init"@, "."@], path, "Failed to create project"@),
        run_in(
            "cargo"@,
            seq![
                "add"@,
                "serde"@,
                "syscalls"@,
                "uuid"@,
                "--no-default-features"@,
                "--features"@,
                "uuid/serde"@,
            ],
            path,
            "Failed to add dependencies"@,
        ),
        run_in(
            "cargo"@,
            seq!["add"@, "heapless"@, "postcard"@, "--features"@, "heapless/serde"@],
            path,
            "Failed to add dependencies"@,
        ),
        run_in(
            "cargo"@,
            seq![
                "add"@,
                "--git"@,
                "https://github.com/nine-point-eight-p/libafl_qemu_cmd"@,
                "libafl_qemu_cmd"@,
            ],
            path,
            "Failed to add dependencies"@,
        ),
        run_in(
            "cargo"@,
            seq![
                "add"@,
                "--git"@,
                "https://github.com/nine-point-eight-p/syscall2struct"@,
                "syscall2struct-derive"@,
                "syscall2struct-helpers"@,
            ],
            path,
            "Failed to add dependencies"@,
        ),
        StepView::Write { base: path, parts: seq!["src"@, "main.rs"@], content: main },
        StepView::Write { base: path, parts: seq!["src"@, "syscall.rs"@], content: syscall },
        run_in("cargo"@, seq!["fmt"@], path, "Failed to format code"@),
    ]
}

/// The steps that create the harness project at `path` (which must not
/// exist yet), with `main` as `src/main.rs` and `syscall` as
/// `src/syscall.rs`.
pub fn make_crate(path: &str, main: &str, syscall: &str) -> (res: Vec<CrateStep>)
    ensures
        steps_view(res@) == make_crate_plan(path@, main@, syscall@),
{
    let mut steps: Vec<CrateStep> = Vec::new();
    let a0 = ["-p", path];
    assert(str_texts(a0@) =~= seq!["-p"@, path@]);
    steps.push(run_step("mkdir", &a0, None, "Failed to create project"));
    let a1 = ["init", "."];
    assert(str_texts(a1@) =~= seq!["init"@, "."@]);
    steps.push(run_step("cargo", &a1, Some(path), "Failed to create project"));
    let a2 = ["add", "serde", "syscalls", "uuid", "--no-default-features", "--features", "uuid/serde"];
    assert(str_texts(a2@) =~= seq![
        "add"@,
        "serde"@,
        "syscalls"@,
        "uuid"@,
        "--no-default-features"@,
        "--features"@,
        "uuid/serde"@,
    ]);
    steps.push(run_step("cargo", &a2, Some(path), "Failed to add dependencies"));
    let a3 = ["add", "heapless", "postcard", "--features", "heapless/serde"];
    assert(str_texts(a3@) =~= seq!["add"@, "heapless"@, "postcard"@, "--features"@, "heapless/serde"@]);
    steps.push(run_step("cargo", &a3, Some(path), "Failed to add dependencies"));
    let a4 = ["add", "--git", "https://github.com/nine-point-eight-p/libafl_qemu_cmd", "libafl_qemu_cmd"];
    assert(str_texts(a4@) =~= seq![
        "add"@,
        "--git"@,
        "https://github.com/nine-point-eight-p/libafl_qemu_cmd"@,
        "libafl_qemu_cmd"@,
    ]);
    steps.push(run_step("cargo", &a4, Some(path), "Failed to add dependencies"));
    let a5 = [
        "add",
        "--git",
        "https://github.com/nine-point-eight-p/syscall2struct",
        "syscall2struct-derive",
        "syscall2struct-helpers",
    ];
    assert(str_texts(a5@) =~= seq![
        "add"@,
        "--git"@,
        "https://github.com/nine-point-eight-p/syscall2struct"@,
        "syscall2struct-derive"@,
        "syscall2struct-helpers"@,
    ]);
    steps.push(run_step("cargo", &a5, Some(path), "Failed to add dependencies"));
    let p6 = ["src", "main.rs"];
    assert(str_texts(p6@) =~= seq!["src"@, "main.rs"@]);
    steps.push(write_step(path, &p6, main));
    let p7 = ["src", "syscall.rs"];
    assert(str_texts(p7@) =~= seq!["src"@, "syscall.rs"@]);
    steps.push(write_step(path, &p7, syscall));
    let a8 = ["fmt"];
    assert(str_texts(a8@) =~= seq!["fmt"@]);
    steps.push(run_step("cargo", &a8, Some(path), "Failed to format code"));
    assert(steps_view(steps@) =~= make_crate_plan(path@, main@, syscall@));
    steps
}

/// The step that adds dependencies to the crate at `path`:
/// `cargo add <args>` run there.
pub open spec fn add_dependency_plan(path: Seq<char>, args: Seq<Seq<char>>) -> StepView {
    run_in("cargo"@, seq!["add"@] + args, path, "Failed to add crate"@)
}

/// The step that adds dependencies to the crate at `path`.
pub fn add_dependency(path: &str, args: &[&str]) -> (res: CrateStep)
    ensures
        res.view() == add_dependency_plan(path@, str_texts(args@)),
{
    let mut all: Vec<&str> = Vec::new();
    all.push("add");
    let mut i: usize = 0;
    while i < args.len()
        invariant
            0 <= i <= args.len(),
            all@ == seq!["add"] + args@.take(i as int),
        decreases args.len() - i,
    {
        all.push(args[i]);
        assert(args@.take(i + 1) =~= args@.take(i as int).push(args@[i as int]));
        assert(all@ =~= seq!["add"] + args@.take(i + 1));
        i = i + 1;
    }
    assert(args@.take(args.len() as int) =~= args@);
    assert(str_texts(all@) =~= seq!["add"@] + str_texts(args@));
    run_step("cargo", all.as_slice(), Some(path), "Failed to add crate")
}

/// The steps that create a library crate at `path` holding `content` as
/// `src/lib.rs`: a new crate, its dependencies, the file, then formatting.
pub open spec fn export_to_crate_plan(path: Seq<char>, content: Seq<char>) -> Seq<StepView> {
    seq![
        StepView::Run {
            program: "cargo"@,
            args: seq!["new"@, "--lib"@, path],
            dir: None,
            failure: "Failed to create project"@,
        },
        add_dependency_plan(path, seq!["serde"@, "--no-default-features"@, "--features=derive"@]),
        add_dependency_plan(path, seq!["syscalls"@]),
        add_dependency_plan(path, seq!["--git"@, "https://github.com/nine-point-eight-p/syscall2struct"@]),
        StepView::Write { base: path, parts: seq!["src"@, "lib.rs"@], content },
        run_in("cargo"@, seq!["fmt"@], path, "Failed to format code"@),
    ]
}

/// The steps that create a library crate at `path` with `content` as its
/// `src/lib.rs`.
pub fn export_to_crate(path: &str, content: &str) -> (res: Vec<CrateStep>)
    ensures
        steps_view(res@) == export_to_crate_plan(path@, content@),
{
    let mut steps: Vec<CrateStep> = Vec::new();
    let a0 = ["new", "--lib", path];
    assert(str_texts(a0@) =~= seq!["new"@, "--lib"@, path@]);
    steps.push(run_step("cargo", &a0, None, "Failed to create project"));
    let a1 = ["serde", "--no-default-features", "--features=derive"];
    assert(str_texts(a1@) =~= seq!["serde"@, "--no-default-features"@, "--features=derive"@]);
    steps.push(add_dependency(path, &a1));
    let a2 = ["syscalls"];
    assert(str_texts(a2@) =~= seq!["syscalls"@]);
    steps.push(add_dependency(path, &a2));
    let a3 = ["--git", "https://github.com/nine-point-eight-p/syscall2struct"];
    assert(str_texts(a3@) =~= seq!["--git"@, "https://github.com/nine-point-eight-p/syscall2struct"@]);
    steps.push(add_dependency(path, &a3));
    let p4 = ["src", "lib.rs"];
    assert(str_texts(p4@) =~= seq!["src"@, "lib.rs"@]);
    steps.push(write_step(path, &p4, content));
    let a5 = ["fmt"];
    assert(str_texts(a5@) =~= seq!["fmt"@]);
    steps.push(run_step("cargo", &a5, Some(path), "Failed to format code"));
    assert(steps_view(steps@) =~= export_to_crate_plan(path@, content@));
    steps
}

/// The scope of the harness's `main.rs`: its imports, the `syscall`
/// module, and a `main` to be filled in.
pub open spec fn harness_main_scope() -> ScopeModel {
    let m = scope_with_import(empty_scope(), "syscall"@, "*"@);
    let m = scope_with_import(m, "libafl_qemu_cmd"@, "*"@);
    let m = scope_with_import(m, "postcard"@, "take_from_bytes"@);
    let m = scope_with_import(m, "syscall2struct_helpers"@, "*"@);
    ScopeModel {
        imports: m.imports,
        items: seq![
            ItemModel::Raw("mod syscall;"@),
            ItemModel::Function(
                FunctionModel {
                    name: "main"@,
                    lines: seq!["// Add harness logic here"@, "todo!()"@],
                },
            ),
        ],
    }
}

/// The source of the harness's `main.rs`, a `no_std` program.
pub fn generate_main() -> (res: String)
    ensures
        res@ == "#![no_std]\n"@ + rendered_scope(harness_main_scope()),
{
    let mut s = scope_new();
    scope_import(&mut s, "syscall", "*");
    scope_import(&mut s, "libafl_qemu_cmd", "*");
    scope_import(&mut s, "postcard", "take_from_bytes");
    scope_import(&mut s, "syscall2struct_helpers", "*");
    scope_raw(&mut s, "mod syscall;");
    let mut main_fn = function_new("main");
    function_line(&mut main_fn, "// Add harness logic here");
    function_line(&mut main_fn, "todo!()");
    assert(function_model(main_fn).lines =~= seq!["// Add harness logic here"@, "todo!()"@]);
    scope_push_fn(&mut s, main_fn);
    assert(scope_model(s).items =~= harness_main_scope().items);
    let text = scope_to_string(&s);
    concat("#![no_std]\n", text.as_str())
}

/// The harness project is made in the given directory itself: the
/// directory is created first, the crate is initialised in it (`cargo init
/// .` run there, not in a subdirectory), every later command runs in it,
/// and `main` and `syscall` are written to its `src/main.rs` and
/// `src/syscall.rs`.
pub proof fn law_crate_is_made_in_its_directory(path: Seq<char>, main: Seq<char>, syscall: Seq<char>)
    ensures
        make_crate_plan(path, main, syscall)[0] matches StepView::Run { program, args, dir, .. } && program
            == "mkdir"@ && args == seq!["-p"@, path] && dir is None,
        make_crate_plan(path, main, syscall)[1] matches StepView::Run { program, args, dir, .. } && program
            == "cargo"@ && args == seq!["init"@, "."@] && dir == Some(path),
        forall|i: int|
            1 <= i < make_crate_plan(path, main, syscall).len() ==> match #[trigger] make_crate_plan(
                path,
                main,
                syscall,
            )[i] {
                StepView::Run { dir, .. } => dir == Some(path),
                StepView::Write { base, .. } => base == path,
            },
        exists|i: int|
            0 <= i < make_crate_plan(path, main, syscall).len() && #[trigger] make_crate_plan(path, main, syscall)[i]
                == (StepView::Write { base: path, parts: seq!["src"@, "main.rs"@], content: main }),
        exists|i: int|
            0 <= i < make_crate_plan(path, main, syscall).len() && #[trigger] make_crate_plan(path, main, syscall)[i]
                == (StepView::Write { base: path, parts: seq!["src"@, "syscall.rs"@], content: syscall }),
{
    let plan = make_crate_plan(path, main, syscall);
    assert(plan[6] == StepView::Write { base: path, parts: seq!["src"@, "main.rs"@], content: main });
    assert(plan[7] == StepView::Write { base: path, parts: seq!["src"@, "syscall.rs"@], content: syscall });
}

} // verus!
