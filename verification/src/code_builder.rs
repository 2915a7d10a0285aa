use vstd::prelude::*;

verus! {

/// The parts of a `codegen::Field` that the builders below set.
pub struct FieldModel {
    pub name: Seq<char>,
    pub ty: Seq<char>,
    pub annotations: Seq<Seq<char>>,
    pub vis: Option<Seq<char>>,
}

/// The parts of a `codegen::Struct` that the builders below set: its name,
/// visibility, derives (in order), attributes (in order) and named fields
/// (in order; none means a unit struct).
pub struct StructModel {
    pub name: Seq<char>,
    pub vis: Option<Seq<char>>,
    pub derives: Seq<Seq<char>>,
    pub attrs: Seq<Seq<char>>,
    pub fields: Seq<FieldModel>,
}

/// The parts of a `codegen::Function` that the builders below set: its
/// name and the lines of its body.
pub struct FunctionModel {
    pub name: Seq<char>,
    pub lines: Seq<Seq<char>>,
}

/// An item of a scope.
pub enum ItemModel {
    Struct(StructModel),
    Function(FunctionModel),
    Raw(Seq<char>),
}

/// The parts of a `codegen::Scope` that the builders below set: the
/// imports, grouped by path in the order the paths were first added, each
/// with its types in the order they were first added; and the items in
/// order.
pub struct ScopeModel {
    pub imports: Seq<(Seq<char>, Seq<Seq<char>>)>,
    pub items: Seq<ItemModel>,
}

/// The text of `t` before its first `::` (all of `t` when there is none).
pub open spec fn first_path_segment(t: Seq<char>) -> Seq<char>
    decreases t.len(),
{
    if t.len() == 0 {
        t
    } else if t.len() >= 2 && t[0] == ':' && t[1] == ':' {
        Seq::empty()
    } else {
        seq![t[0]] + first_path_segment(t.drop_first())
    }
}

/// The position of the import group of `path`, if there is one.
pub open spec fn import_group(imports: Seq<(Seq<char>, Seq<Seq<char>>)>, path: Seq<char>) -> Option<int>
    decreases imports.len(),
{
    if imports.len() == 0 {
        None
    } else if imports.last().0 == path {
        Some(imports.len() - 1)
    } else {
        import_group(imports.drop_last(), path)
    }
}

/// The scope after `use <path>::<ty>` is asked for: the type (up to its
/// first `::`) joins the group of its path, which is created last when
/// there is none; nothing changes when the group holds the type already.
pub open spec fn scope_with_import(m: ScopeModel, path: Seq<char>, ty: Seq<char>) -> ScopeModel {
    let t = first_path_segment(ty);
    match import_group(m.imports, path) {
        Some(k) => if m.imports[k].1.contains(t) {
            m
        } else {
            ScopeModel { imports: m.imports.update(k, (path, m.imports[k].1.push(t))), items: m.items }
        },
        None => ScopeModel { imports: m.imports.push((path, seq![t])), items: m.items },
    }
}

/// A scope with nothing in it.
pub open spec fn empty_scope() -> ScopeModel {
    ScopeModel { imports: Seq::empty(), items: Seq::empty() }
}

#[verifier::external_type_specification]
#[verifier::external_body]
pub struct ExScope(codegen::Scope);

#[verifier::external_type_specification]
#[verifier::external_body]
pub struct ExStruct(codegen::Struct);

#[verifier::external_type_specification]
#[verifier::external_body]
pub struct ExField(codegen::Field);

#[verifier::external_type_specification]
#[verifier::external_body]
pub struct ExFunction(codegen::Function);

/// What a `codegen::Scope` holds.
pub uninterp spec fn scope_model(s: codegen::Scope) -> ScopeModel;

/// What a `codegen::Struct` holds.
pub uninterp spec fn struct_model(s: codegen::Struct) -> StructModel;

/// What a `codegen::Field` holds.
pub uninterp spec fn field_model(f: codegen::Field) -> FieldModel;

/// What a `codegen::Function` holds.
pub uninterp spec fn function_model(f: codegen::Function) -> FunctionModel;

/// The Rust source text that `codegen::Scope::to_string` writes for a
/// scope that holds `m`.
pub uninterp spec fn rendered_scope(m: ScopeModel) -> Seq<char>;

/// `Scope::new`: an empty scope.
#[verifier::external_body]
pub(crate) fn scope_new() -> (res: codegen::Scope)
    ensures
        scope_model(res) == empty_scope(),
{
    codegen::Scope::new()
}

/// `Scope::import`: adds `use <path>::<ty>`, where only the part of `ty`
/// before its first `::` is kept, to the imports grouped by path.
#[verifier::external_body]
pub(crate) fn scope_import(s: &mut codegen::Scope, path: &str, ty: &str)
    ensures
        scope_model(*final(s)) == scope_with_import(scope_model(*old(s)), path@, ty@),
{
    s.import(path, ty);
}

/// `Scope::push_struct`: appends the struct as an item.
#[verifier::external_body]
pub(crate) fn scope_push_struct(s: &mut codegen::Scope, item: codegen::Struct)
    ensures
        scope_model(*final(s)) == (ScopeModel {
            imports: scope_model(*old(s)).imports,
            items: scope_model(*old(s)).items.push(ItemModel::Struct(struct_model(item))),
        }),
{
    s.push_struct(item);
}

/// `Scope::push_fn`: appends the function as an item.
#[verifier::external_body]
pub(crate) fn scope_push_fn(s: &mut codegen::Scope, item: codegen::Function)
    ensures
        scope_model(*final(s)) == (ScopeModel {
            imports: scope_model(*old(s)).imports,
            items: scope_model(*old(s)).items.push(ItemModel::Function(function_model(item))),
        }),
{
    s.push_fn(item);
}

/// `Scope::raw`: appends a raw line as an item.
#[verifier::external_body]
pub(crate) fn scope_raw(s: &mut codegen::Scope, val: &str)
    ensures
        scope_model(*final(s)) == (ScopeModel {
            imports: scope_model(*old(s)).imports,
            items: scope_model(*old(s)).items.push(ItemModel::Raw(val@)),
        }),
{
    s.raw(val);
}

/// `Scope::to_string`: the source text of the scope.
#[verifier::external_body]
pub(crate) fn scope_to_string(s: &codegen::Scope) -> (res: String)
    ensures
        res@ == rendered_scope(scope_model(*s)),
{
    s.to_string()
}

/// `Struct::new`: a struct with that name and nothing else.
#[verifier::external_body]
pub(crate) fn struct_new(name: &str) -> (res: codegen::Struct)
    ensures
        struct_model(res) == (StructModel {
            name: name@,
            vis: None,
            derives: Seq::empty(),
            attrs: Seq::empty(),
            fields: Seq::empty(),
        }),
{
    codegen::Struct::new(name)
}

/// `Struct::vis`: sets the visibility.
#[verifier::external_body]
pub(crate) fn struct_vis(s: &mut codegen::Struct, vis: &str)
    ensures
        struct_model(*final(s)) == (StructModel { vis: Some(vis@), ..struct_model(*old(s)) }),
{
    s.vis(vis);
}

/// `Struct::derive`: appends a derive.
#[verifier::external_body]
pub(crate) fn struct_derive(s: &mut codegen::Struct, name: &str)
    ensures
        struct_model(*final(s)) == (StructModel {
            derives: struct_model(*old(s)).derives.push(name@),
            ..struct_model(*old(s))
        }),
{
    s.derive(name);
}

/// `Struct::attr`: appends an attribute.
#[verifier::external_body]
pub(crate) fn struct_attr(s: &mut codegen::Struct, attr: &str)
    ensures
        struct_model(*final(s)) == (StructModel {
            attrs: struct_model(*old(s)).attrs.push(attr@),
            ..struct_model(*old(s))
        }),
{
    s.attr(attr);
}

/// `Struct::push_field`: appends a named field.
#[verifier::external_body]
pub(crate) fn struct_push_field(s: &mut codegen::Struct, field: codegen::Field)
    ensures
        struct_model(*final(s)) == (StructModel {
            fields: struct_model(*old(s)).fields.push(field_model(field)),
            ..struct_model(*old(s))
        }),
{
    s.push_field(field);
}

/// `Field::new`: a field with that name and type and nothing else.
#[verifier::external_body]
pub(crate) fn field_new(name: &str, ty: &str) -> (res: codegen::Field)
    ensures
        field_model(res) == (FieldModel {
            name: name@,
            ty: ty@,
            annotations: Seq::empty(),
            vis: None,
        }),
{
    codegen::Field::new(name, ty)
}

/// `Field::vis`: sets the visibility.
#[verifier::external_body]
pub(crate) fn field_vis(f: &mut codegen::Field, vis: &str)
    ensures
        field_model(*final(f)) == (FieldModel { vis: Some(vis@), ..field_model(*old(f)) }),
{
    f.vis(vis);
}

/// `Field::annotation`: appends an annotation line.
#[verifier::external_body]
pub(crate) fn field_annotation(f: &mut codegen::Field, annotation: &str)
    ensures
        field_model(*final(f)) == (FieldModel {
            annotations: field_model(*old(f)).annotations.push(annotation@),
            ..field_model(*old(f))
        }),
{
    f.annotation(annotation);
}

/// `Function::new`: a function with that name and an empty body.
#[verifier::external_body]
pub(crate) fn function_new(name: &str) -> (res: codegen::Function)
    ensures
        function_model(res) == (FunctionModel { name: name@, lines: Seq::empty() }),
{
    codegen::Function::new(name)
}

/// `Function::line`: appends a line to the body.
#[verifier::external_body]
pub(crate) fn function_line(f: &mut codegen::Function, line: &str)
    ensures
        function_model(*final(f)) == (FunctionModel {
            lines: function_model(*old(f)).lines.push(line@),
            ..function_model(*old(f))
        }),
{
    f.line(line);
}

} // verus!
