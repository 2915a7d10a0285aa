use syscall2struct::project::{add_dependency, export_to_crate, generate_main, make_crate, CrateStep};

fn describe(step: &CrateStep) -> String {
    match step {
        CrateStep::Run(c) => format!(
            "run[{}] {} {} ! {}",
            c.dir.clone().unwrap_or_default(),
            c.program,
            c.args.join(" "),
            c.failure
        ),
        CrateStep::Write(f) => format!("write {}/{} = {}", f.base, f.parts.join("/"), f.content),
    }
}

#[test]
fn make_crate_steps() {
    let steps: Vec<String> = make_crate("../my-harness", "MAIN", "SYSCALL").iter().map(describe).collect();
    assert_eq!(
        steps,
        vec![
            "run[] mkdir -p ../my-harness ! Failed to create project",
            "run[../my-harness] cargo init . ! Failed to create project",
            "run[../my-harness] cargo add serde syscalls uuid --no-default-features --features uuid/serde ! Failed to add dependencies",
            "run[../my-harness] cargo add heapless postcard --features heapless/serde ! Failed to add dependencies",
            "run[../my-harness] cargo add --git https://github.com/nine-point-eight-p/libafl_qemu_cmd libafl_qemu_cmd ! Failed to add dependencies",
            "run[../my-harness] cargo add --git https://github.com/nine-point-eight-p/syscall2struct syscall2struct-derive syscall2struct-helpers ! Failed to add dependencies",
            "write ../my-harness/src/main.rs = MAIN",
            "write ../my-harness/src/syscall.rs = SYSCALL",
            "run[../my-harness] cargo fmt ! Failed to format code",
        ]
    );
}

#[test]
fn export_to_crate_steps() {
    let steps: Vec<String> = export_to_crate("my-syscalls", "LIB").iter().map(describe).collect();
    assert_eq!(
        steps,
        vec![
            "run[] cargo new --lib my-syscalls ! Failed to create project",
            "run[my-syscalls] cargo add serde --no-default-features --features=derive ! Failed to add crate",
            "run[my-syscalls] cargo add syscalls ! Failed to add crate",
            "run[my-syscalls] cargo add --git https://github.com/nine-point-eight-p/syscall2struct ! Failed to add crate",
            "write my-syscalls/src/lib.rs = LIB",
            "run[my-syscalls] cargo fmt ! Failed to format code",
        ]
    );
}

#[test]
fn add_dependency_step() {
    assert_eq!(describe(&add_dependency("p", &["a", "b"])), "run[p] cargo add a b ! Failed to add crate");
    assert_eq!(describe(&add_dependency("p", &[])), "run[p] cargo add ! Failed to add crate");
}

#[test]
fn generate_main_is_a_no_std_harness() {
    let text = generate_main();
    assert!(text.starts_with("#![no_std]\nuse syscall::*;\nuse libafl_qemu_cmd::*;\nuse postcard::take_from_bytes;\nuse syscall2struct_helpers::*;\n"), "{text}");
    assert!(text.contains("mod syscall;"), "{text}");
    assert!(text.contains("fn main() {"), "{text}");
    assert!(text.contains("// Add harness logic here"), "{text}");
}

#[test]
fn make_crate_initialises_the_given_directory() {
    let steps: Vec<String> = make_crate("out/harness", "M", "S").iter().map(describe).collect();
    assert_eq!(steps[0], "run[] mkdir -p out/harness ! Failed to create project");
    assert_eq!(steps[1], "run[out/harness] cargo init . ! Failed to create project");
    assert_eq!(steps[6], "write out/harness/src/main.rs = M");
    assert_eq!(steps[7], "write out/harness/src/syscall.rs = S");
}
