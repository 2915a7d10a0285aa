# syscall2struct

A library for building fuzzing harnesses from syzlang syscall descriptions,
with its behaviour stated in contracts and checked by Verus.

- `src/helpers.rs`: the values a harness works with (`Pointer`,
  `SyscallResult`, the fixed-size `ResultContainer` and the growing
  `UnboundedResultContainer`) and the `MakeSyscall` traits.
- `src/derive_plan.rs`: what the `MakeSyscall` / `MakeSyscallMut` derives
  generate for a struct, or why they reject it.
- `src/translator.rs`, `src/syzlang.rs`: the translator from a parsed
  syzlang description to one Rust struct per syscall.
- `src/loader.rs`, `src/syzlang_input.rs`: parsing the texts of a syzlang
  description and its constant file with `syzlang_parser`, and converting
  the parse into the library's description (the target architecture,
  RISC-V 64, is chosen by the translator).
- `src/project.rs`: the harness's `main.rs` and the steps that create the
  harness project.
- `src/code_builder.rs`, `src/naming.rs`, `src/result_map.rs`: the calls
  into `codegen`, `convert_case` and `heapless`, with their contracts.
- `app/`: the command-line tool (argument parsing, reading the syzlang
  files from disk, running commands, writing files), the `syn`/`quote` side of the
  derives, and the `serde` forms of the value types.

`SyscallTranslator::new`, `SyscallTranslator::translate` and the derives
require inputs that they accept; beside each stands a checking form (`try_new`, `try_translate`,
`plan_make_syscall`) that says why an input is rejected.
