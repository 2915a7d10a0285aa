use vstd::prelude::*;

use crate::number::{i32_from_text, parse_i32};
use crate::text::{contains_text, same_text};

verus! {

/// An attribute on the struct that the derive is applied to.
pub struct AttrInput {
    /// The attribute's path, when that path is a single identifier.
    pub name: Option<String>,
    /// The base-10 digits of the attribute's argument, when the argument
    /// is an integer literal.
    pub integer_literal: Option<String>,
}

/// A field of the struct that the derive is applied to.
pub struct FieldInput {
    /// The field's name; `None` for a tuple field.
    pub ident: Option<String>,
    /// The attributes of the field whose path is a single identifier.
    pub attrs: Vec<String>,
    /// The last path segment of the field's type, when the type is a path.
    pub type_last_segment: Option<String>,
}

/// The shape of the item that the derive is applied to.
pub enum DataInput {
    Struct(Vec<FieldInput>),
    Enum,
    Union,
}

/// The item that `MakeSyscall` or `MakeSyscallMut` is derived for.
pub struct DeriveInput {
    pub ident: String,
    pub attrs: Vec<AttrInput>,
    pub data: DataInput,
}

/// Where a syscall argument comes from.
#[derive(PartialEq, Eq, Structural, Clone, Copy, Debug)]
pub enum ArgSource {
    /// A `SyscallResult` field: a recorded result or a given value.
    Resource,
    /// An `#[in_ptr]` field: its pointer.
    InPtr,
    /// An `#[out_ptr]` field: its mutable pointer.
    OutPtr,
    /// Any other field: its value.
    Plain,
}

/// One argument of the generated syscall, in order.
pub struct SyscallArg {
    pub field: String,
    pub source: ArgSource,
}

/// What the derive generates: `impl MakeSyscall(Mut) for <struct_name>`
/// with `NR = sysno`, whose `call` passes `args` in order to
/// `syscall<args.len()>`.
pub struct SyscallImpl {
    pub mutable: bool,
    pub struct_name: String,
    pub sysno: i32,
    pub args: Vec<SyscallArg>,
}

/// Why the derive rejects its input.
#[derive(PartialEq, Eq, Debug)]
pub enum DeriveError {
    /// The item is an enum or a union.
    NotAStruct,
    /// No `#[sysno(..)]` attribute.
    MissingSysno,
    /// The first `#[sysno(..)]` does not hold an integer literal that fits
    /// in an `i32`.
    InvalidSysno,
    /// A tuple field.
    UnnamedField,
    /// A `SyscallResult` field marked as a pointer.
    ResourcePointer,
    /// A field marked both `#[in_ptr]` and `#[out_ptr]`.
    InOutPointer(String),
}

/// Whether one of `attrs` is exactly `name`.
pub open spec fn has_attr(attrs: Seq<String>, name: Seq<char>) -> bool {
    exists|i: int| 0 <= i < attrs.len() && #[trigger] attrs[i]@ == name
}

/// Whether the field's type is `SyscallResult` (by its last path segment).
pub open spec fn is_resource_field(f: FieldInput) -> bool {
    match f.type_last_segment {
        Some(s) => s@ == "SyscallResult"@,
        None => false,
    }
}

/// What one field contributes: no argument (`#[ret_val]`), one argument,
/// or a rejection.
pub open spec fn field_plan(f: FieldInput) -> Result<Option<(Seq<char>, ArgSource)>, DeriveError> {
    match f.ident {
        None => Err(DeriveError::UnnamedField),
        Some(name) => {
            let is_in = has_attr(f.attrs@, "in_ptr"@);
            let is_out = has_attr(f.attrs@, "out_ptr"@);
            let is_ret = has_attr(f.attrs@, "ret_val"@);
            let is_res = is_resource_field(f);
            if is_ret {
                Ok(None)
            } else if is_res && (is_in || is_out) {
                Err(DeriveError::ResourcePointer)
            } else if is_in && is_out {
                Err(DeriveError::InOutPointer(name))
            } else if is_res {
                Ok(Some((name@, ArgSource::Resource)))
            } else if is_in {
                Ok(Some((name@, ArgSource::InPtr)))
            } else if is_out {
                Ok(Some((name@, ArgSource::OutPtr)))
            } else {
                Ok(Some((name@, ArgSource::Plain)))
            }
        },
    }
}

/// The arguments that `fields` give, in order, or the rejection of the
/// first field that is rejected.
pub open spec fn fields_plan(fields: Seq<FieldInput>) -> Result<Seq<(Seq<char>, ArgSource)>, DeriveError>
    decreases fields.len(),
{
    if fields.len() == 0 {
        Ok(Seq::empty())
    } else {
        match fields_plan(fields.drop_last()) {
            Err(e) => Err(e),
            Ok(prefix) => match field_plan(fields.last()) {
                Err(e) => Err(e),
                Ok(None) => Ok(prefix),
                Ok(Some(a)) => Ok(prefix.push(a)),
            },
        }
    }
}

/// The first attribute named `sysno`, if any.
pub open spec fn first_sysno_attr(attrs: Seq<AttrInput>) -> Option<AttrInput>
    decreases attrs.len(),
{
    if attrs.len() == 0 {
        None
    } else if attrs[0].name matches Some(n) && n@ == "sysno"@ {
        Some(attrs[0])
    } else {
        first_sysno_attr(attrs.drop_first())
    }
}

/// The syscall number that the attributes give, or its rejection.
pub open spec fn sysno_plan(attrs: Seq<AttrInput>) -> Result<i32, DeriveError> {
    match first_sysno_attr(attrs) {
        None => Err(DeriveError::MissingSysno),
        Some(a) => match a.integer_literal {
            None => Err(DeriveError::InvalidSysno),
            Some(digits) => match i32_from_text(digits@) {
                None => Err(DeriveError::InvalidSysno),
                Some(v) => Ok(v),
            },
        },
    }
}

/// The plan of the derive as plain values.
pub struct SyscallImplView {
    pub mutable: bool,
    pub struct_name: Seq<char>,
    pub sysno: i32,
    pub args: Seq<(Seq<char>, ArgSource)>,
}

impl SyscallImpl {
    pub open spec fn view(&self) -> SyscallImplView {
        SyscallImplView {
            mutable: self.mutable,
            struct_name: self.struct_name@,
            sysno: self.sysno,
            args: self.args@.map_values(|a: SyscallArg| (a.field@, a.source)),
        }
    }
}

/// What deriving `MakeSyscall` (`mutable == false`) or `MakeSyscallMut`
/// (`mutable == true`) on `input` gives.
pub open spec fn syscall_impl_plan(input: DeriveInput, mutable: bool) -> Result<SyscallImplView, DeriveError> {
    match input.data {
        DataInput::Struct(fields) => match sysno_plan(input.attrs@) {
            Err(e) => Err(e),
            Ok(sysno) => match fields_plan(fields@) {
                Err(e) => Err(e),
                Ok(args) => Ok(
                    SyscallImplView { mutable, struct_name: input.ident@, sysno, args },
                ),
            },
        },
        _ => Err(DeriveError::NotAStruct),
    }
}

fn plan_field(f: &FieldInput) -> (res: Result<Option<SyscallArg>, DeriveError>)
    ensures
        match (res, field_plan(*f)) {
            (Ok(None), Ok(None)) => true,
            (Ok(Some(a)), Ok(Some(p))) => p == (a.field@, a.source),
            (Err(e1), Err(e2)) => e1 == e2,
            _ => false,
        },
{
    let name = match &f.ident {
        None => {
            return Err(DeriveError::UnnamedField);
        },
        Some(n) => n,
    };
    let is_in = contains_text(&f.attrs, "in_ptr");
    let is_out = contains_text(&f.attrs, "out_ptr");
    let is_ret = contains_text(&f.attrs, "ret_val");
    let is_res = match &f.type_last_segment {
        Some(s) => same_text(s, "SyscallResult"),
        None => false,
    };
    if is_ret {
        return Ok(None);
    }
    if is_res && (is_in || is_out) {
        return Err(DeriveError::ResourcePointer);
    }
    if is_in && is_out {
        return Err(DeriveError::InOutPointer(name.clone()));
    }
    let source = if is_res {
        ArgSource::Resource
    } else if is_in {
        ArgSource::InPtr
    } else if is_out {
        ArgSource::OutPtr
    } else {
        ArgSource::Plain
    };
    Ok(Some(SyscallArg { field: name.clone(), source }))
}

fn plan_sysno(attrs: &Vec<AttrInput>) -> (res: Result<i32, DeriveError>)
    ensures
        res == sysno_plan(attrs@),
{
    let mut i: usize = 0;
    assert(attrs@.skip(0) =~= attrs@);
    while i < attrs.len()
        invariant
            0 <= i <= attrs.len(),
            first_sysno_attr(attrs@) == first_sysno_attr(attrs@.skip(i as int)),
        decreases attrs.len() - i,
    {
        assert(attrs@.skip(i as int).drop_first() =~= attrs@.skip(i + 1));
        assert(attrs@.skip(i as int)[0] == attrs@[i as int]);
        let a = &attrs[i];
        let is_sysno = match &a.name {
            Some(n) => same_text(n, "sysno"),
            None => false,
        };
        if is_sysno {
            return match &a.integer_literal {
                None => Err(DeriveError::InvalidSysno),
                Some(digits) => match parse_i32(digits.as_str()) {
                    None => Err(DeriveError::InvalidSysno),
                    Some(v) => Ok(v),
                },
            };
        }
        i = i + 1;
    }
    assert(attrs@.skip(i as int).len() == 0);
    Err(DeriveError::MissingSysno)
}

/// Checks the input of a derive and lists the syscall's arguments, or says
/// why the derive rejects the input.
pub fn plan_make_syscall(input: &DeriveInput, mutable: bool) -> (res: Result<SyscallImpl, DeriveError>)
    ensures
        match (res, syscall_impl_plan(*input, mutable)) {
            (Ok(r), Ok(p)) => r.view() == p,
            (Err(e1), Err(e2)) => e1 == e2,
            _ => false,
        },
{
    let fields = match &input.data {
        DataInput::Struct(fields) => fields,
        _ => {
            return Err(DeriveError::NotAStruct);
        },
    };
    let sysno = match plan_sysno(&input.attrs) {
        Ok(v) => v,
        Err(e) => {
            return Err(e);
        },
    };
    let mut args: Vec<SyscallArg> = Vec::new();
    let mut i: usize = 0;
    assert(fields@.take(0) =~= Seq::<FieldInput>::empty());
    assert(args@.map_values(|a: SyscallArg| (a.field@, a.source)) =~= Seq::empty());
    while i < fields.len()
        invariant
            0 <= i <= fields.len(),
            syscall_impl_plan(*input, mutable) == match fields_plan(fields@) {
                Err(e) => Err(e),
                Ok(a) => Ok(
                    SyscallImplView { mutable, struct_name: input.ident@, sysno, args: a },
                ),
            },
            fields_plan(fields@.take(i as int)) == Ok::<_, DeriveError>(
                args@.map_values(|a: SyscallArg| (a.field@, a.source)),
            ),
        decreases fields.len() - i,
    {
        assert(fields@.take(i + 1).drop_last() =~= fields@.take(i as int));
        assert(fields@.take(i + 1).last() == fields@[i as int]);
        let ghost before = args@;
        match plan_field(&fields[i]) {
            Err(e) => {
                assert(fields_plan(fields@.take(i + 1)) == Err::<Seq<(Seq<char>, ArgSource)>, _>(e));
                assert(fields_plan(fields@) == Err::<Seq<(Seq<char>, ArgSource)>, _>(e)) by {
                    lemma_fields_plan_error_persists(fields@, i + 1);
                    assert(fields@.take(fields@.len() as int) =~= fields@);
                }
                return Err(e);
            },
            Ok(None) => {},
            Ok(Some(a)) => {
                args.push(a);
                assert(args@.map_values(|a: SyscallArg| (a.field@, a.source)) =~= before.map_values(
                    |a: SyscallArg| (a.field@, a.source),
                ).push((args@.last().field@, args@.last().source)));
            },
        }
        i = i + 1;
    }
    assert(fields@.take(fields.len() as int) =~= fields@);
    Ok(SyscallImpl { mutable, struct_name: input.ident.clone(), sysno, args })
}

proof fn lemma_fields_plan_error_persists(fields: Seq<FieldInput>, i: int)
    requires
        0 <= i <= fields.len(),
        fields_plan(fields.take(i)) is Err,
    ensures
        fields_plan(fields) == fields_plan(fields.take(i)),
    decreases fields.len() - i,
{
    if i < fields.len() {
        assert(fields.take(i + 1).drop_last() =~= fields.take(i));
        lemma_fields_plan_error_persists(fields, i + 1);
    } else {
        assert(fields.take(i) =~= fields);
    }
}

/// The plan shared by both derives, for an input that they accept
/// (`plan_make_syscall` says whether they do): the syscall's arguments.
pub fn impl_make_syscall(input: &DeriveInput, mutable: bool) -> (res: SyscallImpl)
    requires
        syscall_impl_plan(*input, mutable) is Ok,
    ensures
        res.view() == syscall_impl_plan(*input, mutable)->Ok_0,
{
    match plan_make_syscall(input, mutable) {
        Ok(r) => r,
        Err(_) => {
            proof {
                assert(false);
            }
            SyscallImpl { mutable, struct_name: String::new(), sysno: 0, args: Vec::new() }
        },
    }
}

/// The derive of `MakeSyscall`: a syscall whose arguments are only read.
pub fn make_syscall(input: &DeriveInput) -> (res: SyscallImpl)
    requires
        syscall_impl_plan(*input, false) is Ok,
    ensures
        res.view() == syscall_impl_plan(*input, false)->Ok_0,
{
    impl_make_syscall(input, false)
}

/// The derive of `MakeSyscallMut`: a syscall that may write through its
/// `#[out_ptr]` arguments.
pub fn make_syscall_mut(input: &DeriveInput) -> (res: SyscallImpl)
    requires
        syscall_impl_plan(*input, true) is Ok,
    ensures
        res.view() == syscall_impl_plan(*input, true)->Ok_0,
{
    impl_make_syscall(input, true)
}

/// The number of fields that are not marked `#[ret_val]`.
pub open spec fn argument_field_count(fields: Seq<FieldInput>) -> nat
    decreases fields.len(),
{
    if fields.len() == 0 {
        0
    } else if has_attr(fields.last().attrs@, "ret_val"@) {
        argument_field_count(fields.drop_last())
    } else {
        argument_field_count(fields.drop_last()) + 1
    }
}

/// Every field that is not marked `#[ret_val]` gives exactly one argument,
/// and a `#[ret_val]` field gives none.
pub proof fn law_one_argument_per_plain_field(fields: Seq<FieldInput>)
    ensures
        fields_plan(fields) matches Ok(args) ==> args.len() == argument_field_count(fields),
    decreases fields.len(),
{
    if fields.len() > 0 {
        law_one_argument_per_plain_field(fields.drop_last());
    }
}

/// `MakeSyscall` and `MakeSyscallMut` accept the same structs and plan the
/// same syscall; they differ only in whether `call` takes `&mut self`.
pub proof fn law_derives_differ_only_in_mutability(input: DeriveInput)
    ensures
        match (syscall_impl_plan(input, false), syscall_impl_plan(input, true)) {
            (Ok(a), Ok(b)) => !a.mutable && b.mutable && a.struct_name == b.struct_name
                && a.sysno == b.sysno && a.args == b.args,
            (Err(e1), Err(e2)) => e1 == e2,
            _ => false,
        },
{
}

/// Whether one of `attrs` is exactly `name`, written out.
pub open spec fn marked(attrs: Seq<String>, name: Seq<char>) -> bool {
    exists|i: int| #![auto] 0 <= i < attrs.len() && attrs[i]@ == name
}

/// A named field that is not `#[ret_val]`, whose type's last segment is
/// `SyscallResult` and that is marked `#[in_ptr]` or `#[out_ptr]` is
/// rejected with `ResourcePointer`, whether or not it carries both marks.
pub proof fn law_resource_pointer_fields_are_rejected(f: FieldInput)
    requires
        f.ident is Some,
        !marked(f.attrs@, "ret_val"@),
        f.type_last_segment matches Some(s) && s@ == "SyscallResult"@,
        marked(f.attrs@, "in_ptr"@) || marked(f.attrs@, "out_ptr"@),
    ensures
        field_plan(f) == Err::<Option<(Seq<char>, ArgSource)>, DeriveError>(DeriveError::ResourcePointer),
{
    assert(has_attr(f.attrs@, "ret_val"@) == marked(f.attrs@, "ret_val"@));
    assert(has_attr(f.attrs@, "in_ptr"@) == marked(f.attrs@, "in_ptr"@));
    assert(has_attr(f.attrs@, "out_ptr"@) == marked(f.attrs@, "out_ptr"@));
}

proof fn lemma_fields_plan_ok_prefix(fields: Seq<FieldInput>)
    requires
        forall|j: int| 0 <= j < fields.len() ==> #[trigger] field_plan(fields[j]) is Ok,
    ensures
        fields_plan(fields) is Ok,
    decreases fields.len(),
{
    if fields.len() > 0 {
        let pre = fields.drop_last();
        assert forall|j: int| 0 <= j < pre.len() implies #[trigger] field_plan(pre[j]) is Ok by {
            assert(pre[j] == fields[j]);
        }
        lemma_fields_plan_ok_prefix(pre);
        assert(field_plan(fields[fields.len() - 1]) is Ok);
    }
}

/// The derive rejects a struct with the rejection of its first rejected
/// field: when the number is valid, the fields before field `k` are
/// accepted and field `k` is rejected with `e`, both derives give `e`.
pub proof fn law_first_rejected_field_decides(input: DeriveInput, mutable: bool, k: int, e: DeriveError)
    requires
        input.data matches DataInput::Struct(fields) && 0 <= k < fields.len() && field_plan(fields@[k])
            == Err::<Option<(Seq<char>, ArgSource)>, DeriveError>(e) && (forall|j: int|
            0 <= j < k ==> #[trigger] field_plan(fields@[j]) is Ok),
        sysno_plan(input.attrs@) is Ok,
    ensures
        syscall_impl_plan(input, mutable) == Err::<SyscallImplView, DeriveError>(e),
{
    let fields = input.data->Struct_0@;
    lemma_fields_plan_first_error(fields, k, e);
}

proof fn lemma_fields_plan_first_error(fields: Seq<FieldInput>, k: int, e: DeriveError)
    requires
        0 <= k < fields.len(),
        field_plan(fields[k]) == Err::<Option<(Seq<char>, ArgSource)>, DeriveError>(e),
        forall|j: int| 0 <= j < k ==> #[trigger] field_plan(fields[j]) is Ok,
    ensures
        fields_plan(fields) == Err::<Seq<(Seq<char>, ArgSource)>, DeriveError>(e),
    decreases fields.len(),
{
    let pre = fields.drop_last();
    if k == fields.len() - 1 {
        assert forall|j: int| 0 <= j < pre.len() implies #[trigger] field_plan(pre[j]) is Ok by {
            assert(pre[j] == fields[j]);
        }
        lemma_fields_plan_ok_prefix(pre);
    } else {
        assert(pre[k] == fields[k]);
        assert forall|j: int| 0 <= j < k implies #[trigger] field_plan(pre[j]) is Ok by {
            assert(pre[j] == fields[j]);
        }
        lemma_fields_plan_first_error(pre, k, e);
    }
}

/// What each field gives: a tuple field is rejected; a `#[ret_val]` field
/// gives no argument; otherwise a `SyscallResult` field marked as a
/// pointer is rejected, a field marked both `#[in_ptr]` and `#[out_ptr]`
/// is rejected by its name, and a field gives one argument under its name:
/// a resource, an in-pointer, an out-pointer, or a plain value.
pub proof fn law_field_roles(f: FieldInput)
    ensures
        ({
            let is_in = marked(f.attrs@, "in_ptr"@);
            let is_out = marked(f.attrs@, "out_ptr"@);
            let is_res = f.type_last_segment matches Some(s) && s@ == "SyscallResult"@;
            field_plan(f) == match f.ident {
                None => Err(DeriveError::UnnamedField),
                Some(name) => if marked(f.attrs@, "ret_val"@) {
                    Ok(None)
                } else if is_res && (is_in || is_out) {
                    Err(DeriveError::ResourcePointer)
                } else if is_in && is_out {
                    Err(DeriveError::InOutPointer(name))
                } else if is_res {
                    Ok(Some((name@, ArgSource::Resource)))
                } else if is_in {
                    Ok(Some((name@, ArgSource::InPtr)))
                } else if is_out {
                    Ok(Some((name@, ArgSource::OutPtr)))
                } else {
                    Ok::<Option<(Seq<char>, ArgSource)>, DeriveError>(Some((name@, ArgSource::Plain)))
                },
            }
        }),
{
    assert(has_attr(f.attrs@, "ret_val"@) == marked(f.attrs@, "ret_val"@));
    assert(has_attr(f.attrs@, "in_ptr"@) == marked(f.attrs@, "in_ptr"@));
    assert(has_attr(f.attrs@, "out_ptr"@) == marked(f.attrs@, "out_ptr"@));
}

/// Whether the attribute is named `sysno`.
pub open spec fn names_sysno(a: AttrInput) -> bool {
    a.name matches Some(n) && n@ == "sysno"@
}

/// The syscall number is read from the first attribute named `sysno`: it
/// is the `i32` that its integer literal spells, and the derive rejects a
/// missing literal or one outside `i32` as invalid; with no such
/// attribute, the derive rejects the struct as missing its number.
pub proof fn law_first_sysno_attribute_decides(attrs: Seq<AttrInput>)
    ensures
        (forall|i: int| 0 <= i < attrs.len() ==> !names_sysno(#[trigger] attrs[i])) ==> sysno_plan(attrs)
            == Err::<i32, DeriveError>(DeriveError::MissingSysno),
        forall|i: int|
            0 <= i < attrs.len() && names_sysno(#[trigger] attrs[i]) && (forall|j: int|
                0 <= j < i ==> !names_sysno(#[trigger] attrs[j])) ==> sysno_plan(attrs) == match attrs[i].integer_literal {
                None => Err(DeriveError::InvalidSysno),
                Some(d) => match i32_from_text(d@) {
                    None => Err(DeriveError::InvalidSysno),
                    Some(v) => Ok::<i32, DeriveError>(v),
                },
            },
{
    lemma_first_sysno_attr(attrs);
}

proof fn lemma_first_sysno_attr(attrs: Seq<AttrInput>)
    ensures
        (forall|i: int| 0 <= i < attrs.len() ==> !names_sysno(#[trigger] attrs[i])) ==> first_sysno_attr(attrs) is None,
        forall|i: int|
            0 <= i < attrs.len() && names_sysno(#[trigger] attrs[i]) && (forall|j: int|
                0 <= j < i ==> !names_sysno(#[trigger] attrs[j])) ==> first_sysno_attr(attrs) == Some(attrs[i]),
    decreases attrs.len(),
{
    if attrs.len() > 0 {
        let rest = attrs.drop_first();
        lemma_first_sysno_attr(rest);
        if !names_sysno(attrs[0]) {
            assert forall|i: int|
                0 <= i < attrs.len() && names_sysno(#[trigger] attrs[i]) && (forall|j: int|
                    0 <= j < i ==> !names_sysno(#[trigger] attrs[j])) implies first_sysno_attr(attrs) == Some(attrs[i]) by {
                assert(i > 0);
                assert(rest[i - 1] == attrs[i]);
                assert forall|j: int| 0 <= j < i - 1 implies !names_sysno(#[trigger] rest[j]) by {
                    assert(rest[j] == attrs[j + 1]);
                }
            }
            if forall|i: int| 0 <= i < attrs.len() ==> !names_sysno(#[trigger] attrs[i]) {
                assert forall|i: int| 0 <= i < rest.len() implies !names_sysno(#[trigger] rest[i]) by {
                    assert(rest[i] == attrs[i + 1]);
                }
            }
        } else {
            assert forall|i: int|
                0 <= i < attrs.len() && names_sysno(#[trigger] attrs[i]) && (forall|j: int|
                    0 <= j < i ==> !names_sysno(#[trigger] attrs[j])) implies first_sysno_attr(attrs) == Some(attrs[i]) by {
                if i > 0 {
                    assert(!names_sysno(attrs[0]));
                }
            }
        }
    }
}

} // verus!
