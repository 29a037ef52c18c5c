//! The source tree that generation fills: the builder types of the `codegen`
//! crate, what the library reads of them, and the calls it makes on them.
//!
//! Nothing in this file is proved. A model names the fields of a builder that
//! the library sets; its `bare` says that every other field is as `new` left
//! it and that every type in it is written as one name, without a list of
//! generics of its own. Each function states what the `codegen` method of the
//! same name does to those fields of a bare builder.

use vstd::prelude::*;

verus! {

/// `codegen::Scope`, carried as a value that nothing here looks into.
#[verifier::external_type_specification]
#[verifier::external_body]
pub struct ExScope(codegen::Scope);

/// `codegen::Function`, carried as a value that nothing here looks into.
#[verifier::external_type_specification]
#[verifier::external_body]
pub struct ExFunction(codegen::Function);

/// `codegen::Struct`, carried as a value that nothing here looks into.
#[verifier::external_type_specification]
#[verifier::external_body]
pub struct ExStruct(codegen::Struct);

/// `codegen::Field`, carried as a value that nothing here looks into.
#[verifier::external_type_specification]
#[verifier::external_body]
pub struct ExField(codegen::Field);

/// `codegen::Impl`, carried as a value that nothing here looks into.
#[verifier::external_type_specification]
#[verifier::external_body]
pub struct ExImpl(codegen::Impl);

/// A function definition: name, visibility, receiver, arguments as (name,
/// type) pairs, attributes and body lines. It is `bare` when it has a body
/// made of lines only and no documentation, lint, generics, return type,
/// bounds or ABI, is not async, and the type of each argument is one name.
pub struct FunctionModel {
    pub name: Seq<char>,
    pub vis: Option<Seq<char>>,
    pub receiver: Option<Seq<char>>,
    pub args: Seq<(Seq<char>, Seq<char>)>,
    pub attrs: Seq<Seq<char>>,
    pub lines: Seq<Seq<char>>,
    pub bare: bool,
}

/// A named field: name, type and visibility. It is `bare` when it has no
/// documentation and no annotation, and its type is one name.
pub struct FieldModel {
    pub name: Seq<char>,
    pub ty: Seq<char>,
    pub vis: Option<Seq<char>>,
    pub bare: bool,
}

/// A struct definition: name, visibility, named fields and derives. It is
/// `bare` when its fields are not those of a tuple struct and it has no
/// documentation, lints, attributes, representation, bounds, macros or
/// generics.
pub struct StructModel {
    pub name: Seq<char>,
    pub vis: Option<Seq<char>>,
    pub fields: Seq<FieldModel>,
    pub derives: Seq<Seq<char>>,
    pub bare: bool,
}

/// An `impl` block: the type it is for, the trait it implements and its
/// functions. It is `bare` when it has no generics, associated constants or
/// types, bounds or macros, and the type and the trait are one name each.
pub struct ImplModel {
    pub target: Seq<char>,
    pub trait_name: Option<Seq<char>>,
    pub fns: Seq<FunctionModel>,
    pub bare: bool,
}

/// One item of a scope. `Other` stands for the kinds of item that the
/// library never makes.
pub enum ItemModel {
    Function(FunctionModel),
    Struct(StructModel),
    Impl(ImplModel),
    Other,
}

/// The fields of a `codegen::Function` that the library sets.
pub uninterp spec fn function_model(f: codegen::Function) -> FunctionModel;

/// The fields of a `codegen::Field` that the library sets.
pub uninterp spec fn field_model(f: codegen::Field) -> FieldModel;

/// The fields of a `codegen::Struct` that the library sets.
pub uninterp spec fn struct_model(s: codegen::Struct) -> StructModel;

/// The fields of a `codegen::Impl` that the library sets.
pub uninterp spec fn impl_model(i: codegen::Impl) -> ImplModel;

/// The items of a `codegen::Scope`, in the order in which they were pushed.
pub uninterp spec fn scope_items(s: codegen::Scope) -> Seq<ItemModel>;

/// The number of paths from which a `codegen::Scope` imports.
pub uninterp spec fn scope_imports(s: codegen::Scope) -> nat;

/// The text that `codegen::Scope::to_string` gives for a scope without
/// imports whose items are as `items` says, each of them bare.
pub uninterp spec fn scope_text(items: Seq<ItemModel>) -> Seq<char>;

/// Whether every function of `fns` is bare.
pub open spec fn functions_bare(fns: Seq<FunctionModel>) -> bool {
    forall|i: int| 0 <= i < fns.len() ==> (#[trigger] fns[i]).bare
}

/// Whether every field of `fields` is bare.
pub open spec fn fields_bare(fields: Seq<FieldModel>) -> bool {
    forall|i: int| 0 <= i < fields.len() ==> (#[trigger] fields[i]).bare
}

/// Whether an item is all that its model says, inside and out.
pub open spec fn item_bare(item: ItemModel) -> bool {
    match item {
        ItemModel::Function(f) => f.bare,
        ItemModel::Struct(s) => s.bare && fields_bare(s.fields),
        ItemModel::Impl(i) => i.bare && functions_bare(i.fns),
        ItemModel::Other => false,
    }
}

/// Whether every item of `items` is bare.
pub open spec fn items_bare(items: Seq<ItemModel>) -> bool {
    forall|i: int| 0 <= i < items.len() ==> item_bare(#[trigger] items[i])
}

/// `codegen::Scope::new`: a scope without items and without imports.
#[verifier::external_body]
pub(crate) fn scope_new() -> (scope: codegen::Scope)
    ensures
        scope_items(scope) == Seq::<ItemModel>::empty(),
        scope_imports(scope) == 0,
{
    codegen::Scope::new()
}

/// `codegen::Scope::push_fn`: the function becomes the last item.
#[verifier::external_body]
pub(crate) fn scope_push_fn(scope: &mut codegen::Scope, item: codegen::Function)
    ensures
        scope_items(*final(scope)) == scope_items(*old(scope)).push(
            ItemModel::Function(function_model(item)),
        ),
        scope_imports(*final(scope)) == scope_imports(*old(scope)),
{
    scope.push_fn(item);
}

/// `codegen::Scope::push_struct`: the struct becomes the last item.
#[verifier::external_body]
pub(crate) fn scope_push_struct(scope: &mut codegen::Scope, item: codegen::Struct)
    ensures
        scope_items(*final(scope)) == scope_items(*old(scope)).push(
            ItemModel::Struct(struct_model(item)),
        ),
        scope_imports(*final(scope)) == scope_imports(*old(scope)),
{
    scope.push_struct(item);
}

/// `codegen::Scope::push_impl`: the block becomes the last item.
#[verifier::external_body]
pub(crate) fn scope_push_impl(scope: &mut codegen::Scope, item: codegen::Impl)
    ensures
        scope_items(*final(scope)) == scope_items(*old(scope)).push(
            ItemModel::Impl(impl_model(item)),
        ),
        scope_imports(*final(scope)) == scope_imports(*old(scope)),
{
    scope.push_impl(item);
}

/// `codegen::Scope::to_string`: the text of the scope. It panics on a
/// function without a body, which no bare item holds.
#[verifier::external_body]
pub(crate) fn scope_to_string(scope: &codegen::Scope) -> (out: String)
    requires
        scope_imports(*scope) == 0,
        items_bare(scope_items(*scope)),
    ensures
        out@ == scope_text(scope_items(*scope)),
{
    scope.to_string()
}

/// `codegen::Function::new`: a function of that name with an empty body and
/// nothing else set.
#[verifier::external_body]
pub(crate) fn function_new(name: &str) -> (f: codegen::Function)
    ensures
        function_model(f) == (FunctionModel {
            name: name@,
            vis: None,
            receiver: None,
            args: Seq::empty(),
            attrs: Seq::empty(),
            lines: Seq::empty(),
            bare: true,
        }),
{
    codegen::Function::new(name)
}

/// `codegen::Function::vis`: sets the visibility.
#[verifier::external_body]
pub(crate) fn function_vis(f: &mut codegen::Function, vis: &str)
    requires
        function_model(*old(f)).bare,
    ensures
        function_model(*final(f)) == (FunctionModel {
            vis: Some(vis@),
            ..function_model(*old(f))
        }),
{
    f.vis(vis);
}

/// `codegen::Function::arg_ref_self`: makes `&self` the receiver.
#[verifier::external_body]
pub(crate) fn function_arg_ref_self(f: &mut codegen::Function)
    requires
        function_model(*old(f)).bare,
    ensures
        function_model(*final(f)) == (FunctionModel {
            receiver: Some("&self"@),
            ..function_model(*old(f))
        }),
{
    f.arg_ref_self();
}

/// `codegen::Function::arg`: appends an argument of that name and type.
#[verifier::external_body]
pub(crate) fn function_arg(f: &mut codegen::Function, name: &str, ty: &str)
    requires
        function_model(*old(f)).bare,
    ensures
        function_model(*final(f)) == (FunctionModel {
            args: function_model(*old(f)).args.push((name@, ty@)),
            ..function_model(*old(f))
        }),
{
    f.arg(name, ty);
}

/// `codegen::Function::attr`: appends an attribute.
#[verifier::external_body]
pub(crate) fn function_attr(f: &mut codegen::Function, attribute: &str)
    requires
        function_model(*old(f)).bare,
    ensures
        function_model(*final(f)) == (FunctionModel {
            attrs: function_model(*old(f)).attrs.push(attribute@),
            ..function_model(*old(f))
        }),
{
    f.attr(attribute);
}

/// `codegen::Function::line`: appends a line to the body.
#[verifier::external_body]
pub(crate) fn function_line(f: &mut codegen::Function, line: &str)
    requires
        function_model(*old(f)).bare,
    ensures
        function_model(*final(f)) == (FunctionModel {
            lines: function_model(*old(f)).lines.push(line@),
            ..function_model(*old(f))
        }),
{
    f.line(line);
}

/// `codegen::Field::new`: a field of that name and type with nothing else set.
#[verifier::external_body]
pub(crate) fn field_new(name: &str, ty: &str) -> (f: codegen::Field)
    ensures
        field_model(f) == (FieldModel { name: name@, ty: ty@, vis: None, bare: true }),
{
    codegen::Field::new(name, ty)
}

/// `codegen::Field::vis`: sets the visibility.
#[verifier::external_body]
pub(crate) fn field_vis(f: &mut codegen::Field, vis: &str)
    requires
        field_model(*old(f)).bare,
    ensures
        field_model(*final(f)) == (FieldModel { vis: Some(vis@), ..field_model(*old(f)) }),
{
    f.vis(vis);
}

/// `codegen::Struct::new`: a struct of that name without fields and with
/// nothing else set.
#[verifier::external_body]
pub(crate) fn struct_new(name: &str) -> (s: codegen::Struct)
    ensures
        struct_model(s) == (StructModel {
            name: name@,
            vis: None,
            fields: Seq::empty(),
            derives: Seq::empty(),
            bare: true,
        }),
{
    codegen::Struct::new(name)
}

/// `codegen::Struct::vis`: sets the visibility.
#[verifier::external_body]
pub(crate) fn struct_vis(s: &mut codegen::Struct, vis: &str)
    requires
        struct_model(*old(s)).bare,
    ensures
        struct_model(*final(s)) == (StructModel { vis: Some(vis@), ..struct_model(*old(s)) }),
{
    s.vis(vis);
}

/// `codegen::Struct::push_field`: appends a named field. It panics on a
/// struct with tuple fields, which no bare struct is.
#[verifier::external_body]
pub(crate) fn struct_push_field(s: &mut codegen::Struct, field: codegen::Field)
    requires
        struct_model(*old(s)).bare,
    ensures
        struct_model(*final(s)) == (StructModel {
            fields: struct_model(*old(s)).fields.push(field_model(field)),
            ..struct_model(*old(s))
        }),
{
    s.push_field(field);
}

/// `codegen::Struct::derive`: appends a derive.
#[verifier::external_body]
pub(crate) fn struct_derive(s: &mut codegen::Struct, name: &str)
    requires
        struct_model(*old(s)).bare,
    ensures
        struct_model(*final(s)) == (StructModel {
            derives: struct_model(*old(s)).derives.push(name@),
            ..struct_model(*old(s))
        }),
{
    s.derive(name);
}

/// `codegen::Impl::new`: a block for that type without a trait or functions
/// and with nothing else set.
#[verifier::external_body]
pub(crate) fn impl_new(target: &str) -> (i: codegen::Impl)
    ensures
        impl_model(i) == (ImplModel {
            target: target@,
            trait_name: None,
            fns: Seq::empty(),
            bare: true,
        }),
{
    codegen::Impl::new(target)
}

/// `codegen::Impl::impl_trait`: sets the trait that the block implements.
#[verifier::external_body]
pub(crate) fn impl_trait(i: &mut codegen::Impl, ty: &str)
    requires
        impl_model(*old(i)).bare,
    ensures
        impl_model(*final(i)) == (ImplModel { trait_name: Some(ty@), ..impl_model(*old(i)) }),
{
    i.impl_trait(ty);
}

/// `codegen::Impl::push_fn`: appends a function.
#[verifier::external_body]
pub(crate) fn impl_push_fn(i: &mut codegen::Impl, item: codegen::Function)
    requires
        impl_model(*old(i)).bare,
    ensures
        impl_model(*final(i)) == (ImplModel {
            fns: impl_model(*old(i)).fns.push(function_model(item)),
            ..impl_model(*old(i))
        }),
{
    i.push_fn(item);
}

} // verus!
