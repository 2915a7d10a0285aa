use syscall2struct::derive_plan::{
    make_syscall, make_syscall_mut, plan_make_syscall, ArgSource, AttrInput, DataInput, DeriveError, DeriveInput,
    FieldInput,
};

fn attr(name: &str, literal: Option<&str>) -> AttrInput {
    AttrInput { name: Some(name.to_string()), integer_literal: literal.map(|s| s.to_string()) }
}

fn field(name: &str, attrs: &[&str], ty: &str) -> FieldInput {
    FieldInput {
        ident: Some(name.to_string()),
        attrs: attrs.iter().map(|s| s.to_string()).collect(),
        type_last_segment: Some(ty.to_string()),
    }
}

fn foo() -> DeriveInput {
    DeriveInput {
        ident: "Foo".to_string(),
        attrs: vec![attr("derive", None), attr("sysno", Some("123"))],
        data: DataInput::Struct(vec![
            field("a", &[], "u64"),
            field("in_buf", &["in_ptr"], "Pointer"),
            field("handle", &[], "SyscallResult"),
        ]),
    }
}

fn bar() -> DeriveInput {
    DeriveInput {
        ident: "Bar".to_string(),
        attrs: vec![attr("sysno", Some("456"))],
        data: DataInput::Struct(vec![
            field("b", &[], "u64"),
            field("out_buf", &["out_ptr"], "Pointer"),
            field("id", &["ret_val"], "Uuid"),
        ]),
    }
}

fn sources(plan: &syscall2struct::derive_plan::SyscallImpl) -> Vec<(String, ArgSource)> {
    plan.args.iter().map(|a| (a.field.clone(), a.source)).collect()
}

#[test]
fn make_syscall_plans_readme_foo() {
    let plan = make_syscall(&foo());
    assert!(!plan.mutable);
    assert_eq!(plan.struct_name, "Foo");
    assert_eq!(plan.sysno, 123);
    assert_eq!(
        sources(&plan),
        vec![
            ("a".to_string(), ArgSource::Plain),
            ("in_buf".to_string(), ArgSource::InPtr),
            ("handle".to_string(), ArgSource::Resource),
        ]
    );
}

#[test]
fn make_syscall_mut_plans_readme_bar() {
    let plan = make_syscall_mut(&bar());
    assert!(plan.mutable);
    assert_eq!(plan.struct_name, "Bar");
    assert_eq!(plan.sysno, 456);
    assert_eq!(
        sources(&plan),
        vec![("b".to_string(), ArgSource::Plain), ("out_buf".to_string(), ArgSource::OutPtr)]
    );
}

#[test]
fn both_derives_plan_the_same_arguments() {
    let a = make_syscall(&bar());
    let b = make_syscall_mut(&bar());
    assert_eq!(sources(&a), sources(&b));
    assert_eq!(a.sysno, b.sysno);
    assert!(!a.mutable && b.mutable);
}

#[test]
fn derive_rejects_enums_and_unions() {
    let mut input = foo();
    input.data = DataInput::Enum;
    assert_eq!(plan_make_syscall(&input, false).err(), Some(DeriveError::NotAStruct));
    input.data = DataInput::Union;
    assert_eq!(plan_make_syscall(&input, true).err(), Some(DeriveError::NotAStruct));
}

#[test]
fn derive_needs_a_sysno() {
    let mut input = foo();
    input.attrs = vec![attr("derive", None)];
    assert_eq!(plan_make_syscall(&input, false).err(), Some(DeriveError::MissingSysno));
}

#[test]
fn derive_needs_an_i32_sysno() {
    let mut input = foo();
    input.attrs = vec![attr("sysno", None)];
    assert_eq!(plan_make_syscall(&input, false).err(), Some(DeriveError::InvalidSysno));
    input.attrs = vec![attr("sysno", Some("4294967296"))];
    assert_eq!(plan_make_syscall(&input, false).err(), Some(DeriveError::InvalidSysno));
    input.attrs = vec![attr("sysno", Some("-1")), attr("sysno", Some("5"))];
    assert_eq!(make_syscall(&input).sysno, -1);
}

#[test]
fn derive_uses_the_first_sysno() {
    let mut input = foo();
    input.attrs = vec![attr("sysno", Some("oops")), attr("sysno", Some("5"))];
    assert_eq!(plan_make_syscall(&input, false).err(), Some(DeriveError::InvalidSysno));
}

#[test]
fn derive_rejects_tuple_fields() {
    let mut input = foo();
    input.data = DataInput::Struct(vec![FieldInput {
        ident: None,
        attrs: vec![],
        type_last_segment: Some("u64".to_string()),
    }]);
    assert_eq!(plan_make_syscall(&input, false).err(), Some(DeriveError::UnnamedField));
}

#[test]
fn derive_rejects_resource_pointers() {
    let mut input = foo();
    input.data = DataInput::Struct(vec![field("handle", &["in_ptr"], "SyscallResult")]);
    assert_eq!(plan_make_syscall(&input, false).err(), Some(DeriveError::ResourcePointer));
}

#[test]
fn derive_rejects_in_out_pointers() {
    let mut input = foo();
    input.data = DataInput::Struct(vec![
        field("a", &[], "u64"),
        field("buf", &["in_ptr", "out_ptr"], "Pointer"),
    ]);
    assert_eq!(plan_make_syscall(&input, true).err(), Some(DeriveError::InOutPointer("buf".to_string())));
}

#[test]
fn derive_skips_checks_on_return_value_fields() {
    let mut input = foo();
    input.data = DataInput::Struct(vec![
        field("id", &["ret_val", "in_ptr", "out_ptr"], "SyscallResult"),
        field("a", &[], "u64"),
    ]);
    let plan = make_syscall(&input);
    assert_eq!(sources(&plan), vec![("a".to_string(), ArgSource::Plain)]);
}

#[test]
fn derive_reports_the_first_bad_field() {
    let mut input = foo();
    input.data = DataInput::Struct(vec![
        field("x", &["in_ptr", "out_ptr"], "Pointer"),
        field("y", &["in_ptr", "out_ptr"], "Pointer"),
    ]);
    assert_eq!(plan_make_syscall(&input, false).err(), Some(DeriveError::InOutPointer("x".to_string())));
}
