//! Building blocks of a generator of syscall harness code: the value types
//! that a harness deserializes, the plan that the `MakeSyscall` derive
//! follows, and the translator of syscall descriptions into Rust structs.

pub mod number;
pub mod text;
pub mod derive_plan;
pub mod result_map;
pub mod helpers;
pub mod code_builder;
pub mod naming;
pub mod syzlang;
pub mod syzlang_input;
pub mod loader;
pub mod translator;
pub mod project;
