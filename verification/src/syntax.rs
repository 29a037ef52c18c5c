//! The part of a source file that parsing reads: its import declarations and
//! the chain of method calls that opens its entry function.

use vstd::prelude::*;
use crate::model::clone_optional;

verus! {

/// The tree of an import declaration.
#[derive(Debug, PartialEq, Eq)]
pub enum UseTree {
    /// A path segment and what follows it.
    Path(String, Box<UseTree>),
    /// A name that ends a path.
    Name(String),
    /// A name that ends a path and is given another name.
    Rename,
    /// A `*` that ends a path.
    Glob,
    /// A set of trees in braces.
    Group(Vec<UseTree>),
}

/// What a [`UseTree`] holds, with every string seen as its characters.
pub enum UseTreeView {
    Path(Seq<char>, Box<UseTreeView>),
    Name(Seq<char>),
    Rename,
    Glob,
    Group(Seq<UseTreeView>),
}

/// The view of an import tree: that of each of its names.
pub open spec fn tree_view(tree: UseTree) -> UseTreeView
    decreases tree, 0nat,
{
    match tree {
        UseTree::Path(name, rest) => UseTreeView::Path(name@, Box::new(tree_view(*rest))),
        UseTree::Name(name) => UseTreeView::Name(name@),
        UseTree::Rename => UseTreeView::Rename,
        UseTree::Glob => UseTreeView::Glob,
        UseTree::Group(items) => UseTreeView::Group(tree_views(items@, items@.len())),
    }
}

/// The views of the first `count` of `items`.
pub open spec fn tree_views(items: Seq<UseTree>, count: nat) -> Seq<UseTreeView>
    decreases items, count,
{
    if count == 0 || count > items.len() {
        Seq::empty()
    } else {
        tree_views(items, (count - 1) as nat).push(tree_view(items[count - 1]))
    }
}

impl DeepView for UseTree {
    type V = UseTreeView;

    open spec fn deep_view(&self) -> UseTreeView {
        tree_view(*self)
    }
}

impl View for UseTree {
    type V = UseTreeView;

    open spec fn view(&self) -> UseTreeView {
        self.deep_view()
    }
}

/// One field of a record literal: its name, if it has one, and the text of
/// its value as it stands in the source, if the value is a literal.
#[derive(Debug, PartialEq, Eq)]
pub struct FieldValue {
    pub member: Option<String>,
    pub value: Option<String>,
}

/// What a [`FieldValue`] holds, with every string seen as its characters.
pub struct FieldValueView {
    pub member: Option<Seq<char>>,
    pub value: Option<Seq<char>>,
}

impl DeepView for FieldValue {
    type V = FieldValueView;

    open spec fn deep_view(&self) -> FieldValueView {
        FieldValueView { member: self.member.deep_view(), value: self.value.deep_view() }
    }
}

impl View for FieldValue {
    type V = FieldValueView;

    open spec fn view(&self) -> FieldValueView {
        self.deep_view()
    }
}

/// An argument of a call.
#[derive(Debug, PartialEq, Eq)]
pub enum Argument {
    /// A path, with the name of its first segment if it has one.
    Path(Option<String>),
    /// A record literal: the first segment of its type and its fields.
    Struct(Option<String>, Vec<FieldValue>),
    /// Any other expression.
    Other,
}

/// What a [`Argument`] holds, with every string seen as its characters.
pub enum ArgumentView {
    Path(Option<Seq<char>>),
    Struct(Option<Seq<char>>, Seq<FieldValueView>),
    Other,
}

impl DeepView for Argument {
    type V = ArgumentView;

    open spec fn deep_view(&self) -> ArgumentView {
        match self {
            Argument::Path(name) => ArgumentView::Path(name.deep_view()),
            Argument::Struct(name, fields) => ArgumentView::Struct(
                name.deep_view(),
                fields.deep_view(),
            ),
            Argument::Other => ArgumentView::Other,
        }
    }
}

impl View for Argument {
    type V = ArgumentView;

    open spec fn view(&self) -> ArgumentView {
        self.deep_view()
    }
}

/// An expression, as far as the entry chain goes.
#[derive(Debug, PartialEq, Eq)]
pub enum Expr {
    /// A method call: what it is called on, the name of the method, the
    /// explicit generic arguments if any (for each the first segment of its
    /// type path, or nothing where it is no type path) and the arguments.
    MethodCall(Box<Expr>, String, Option<Vec<Option<String>>>, Vec<Argument>),
    /// Any other expression.
    Other,
}

/// What a [`Expr`] holds, with every string seen as its characters.
pub enum ExprView {
    MethodCall(Box<ExprView>, Seq<char>, Option<Seq<Option<Seq<char>>>>, Seq<ArgumentView>),
    Other,
}

impl DeepView for Expr {
    type V = ExprView;

    open spec fn deep_view(&self) -> ExprView
        decreases self,
    {
        match self {
            Expr::MethodCall(receiver, method, turbofish, args) => ExprView::MethodCall(
                Box::new((**receiver).deep_view()),
                method@,
                turbofish.deep_view(),
                args.deep_view(),
            ),
            Expr::Other => ExprView::Other,
        }
    }
}

impl View for Expr {
    type V = ExprView;

    open spec fn view(&self) -> ExprView {
        self.deep_view()
    }
}

/// A declaration at the top of a file.
#[derive(Debug, PartialEq, Eq)]
pub enum Item {
    /// A function: its name and its first statement, where that is an
    /// expression.
    Fn(String, Option<Expr>),
    /// An import declaration.
    Use(UseTree),
    /// Any other declaration.
    Other,
}

/// What a [`Item`] holds, with every string seen as its characters.
pub enum ItemView {
    Fn(Seq<char>, Option<ExprView>),
    Use(UseTreeView),
    Other,
}

impl DeepView for Item {
    type V = ItemView;

    open spec fn deep_view(&self) -> ItemView {
        match self {
            Item::Fn(name, first) => ItemView::Fn(name@, first.deep_view()),
            Item::Use(tree) => ItemView::Use(tree@),
            Item::Other => ItemView::Other,
        }
    }
}

impl View for Item {
    type V = ItemView;

    open spec fn view(&self) -> ItemView {
        self.deep_view()
    }
}

/// A source file: its declarations in order.
#[derive(Debug, PartialEq, Eq)]
pub struct File {
    pub items: Vec<Item>,
}

impl DeepView for File {
    type V = Seq<ItemView>;

    open spec fn deep_view(&self) -> Seq<ItemView> {
        self.items.deep_view()
    }
}

impl View for File {
    type V = Seq<ItemView>;

    open spec fn view(&self) -> Seq<ItemView> {
        self.deep_view()
    }
}

/// The views of the first `count` trees, one by one.
pub proof fn lemma_tree_views(items: Seq<UseTree>, count: nat)
    requires
        count <= items.len(),
    ensures
        tree_views(items, count).len() == count,
        forall|k: int| 0 <= k < count ==> tree_views(items, count)[k] == tree_view(items[k]),
    decreases count,
{
    if count > 0 {
        lemma_tree_views(items, (count - 1) as nat);
    }
}

/// The view of a group is the group of the views of its members.
pub proof fn lemma_group_view(items: Vec<UseTree>)
    ensures
        UseTree::Group(items).deep_view() == UseTreeView::Group(items.deep_view()),
{
    lemma_tree_views(items@, items@.len());
    assert(tree_views(items@, items@.len()) =~= items.deep_view());
}

impl Clone for UseTree {
    fn clone(&self) -> (out: Self)
        ensures
            out@ == self@,
        decreases self,
    {
        match self {
            UseTree::Path(name, rest) => UseTree::Path(name.clone(), Box::new((**rest).clone())),
            UseTree::Name(name) => UseTree::Name(name.clone()),
            UseTree::Rename => UseTree::Rename,
            UseTree::Glob => UseTree::Glob,
            UseTree::Group(items) => {
                let copies = clone_trees(items);
                proof {
                    lemma_group_view(copies);
                    lemma_group_view(*items);
                }
                UseTree::Group(copies)
            },
        }
    }
}

/// A copy of `trees`, one by one.
pub fn clone_trees(trees: &Vec<UseTree>) -> (out: Vec<UseTree>)
    ensures
        out.deep_view() == trees.deep_view(),
    decreases trees,
{
    let mut out: Vec<UseTree> = Vec::new();
    let mut i: usize = 0;
    assert(out.deep_view() =~= trees.deep_view().take(0));
    while i < trees.len()
        invariant
            i <= trees.len(),
            out.deep_view() == trees.deep_view().take(i as int),
        decreases trees.len() - i,
    {
        let ghost before = out.deep_view();
        let copy = trees[i].clone();
        out.push(copy);
        proof {
            assert(out.deep_view() =~= before.push(copy@));
            assert(trees.deep_view().take(i + 1) =~= trees.deep_view().take(i as int).push(
                trees[i as int]@,
            ));
        }
        i += 1;
    }
    assert(trees.deep_view().take(trees.len() as int) =~= trees.deep_view());
    out
}

impl Clone for FieldValue {
    fn clone(&self) -> (out: Self)
        ensures
            out@ == self@,
    {
        FieldValue { member: clone_optional(&self.member), value: clone_optional(&self.value) }
    }
}

/// A copy of `fields`, one by one.
pub fn clone_fields(fields: &Vec<FieldValue>) -> (out: Vec<FieldValue>)
    ensures
        out.deep_view() == fields.deep_view(),
{
    let mut out: Vec<FieldValue> = Vec::new();
    let mut i: usize = 0;
    assert(out.deep_view() =~= fields.deep_view().take(0));
    while i < fields.len()
        invariant
            i <= fields.len(),
            out.deep_view() == fields.deep_view().take(i as int),
        decreases fields.len() - i,
    {
        let ghost before = out.deep_view();
        let copy = fields[i].clone();
        out.push(copy);
        proof {
            assert(out.deep_view() =~= before.push(copy@));
            assert(fields.deep_view().take(i + 1) =~= fields.deep_view().take(i as int).push(
                fields[i as int]@,
            ));
        }
        i += 1;
    }
    assert(fields.deep_view().take(fields.len() as int) =~= fields.deep_view());
    out
}

impl Clone for Argument {
    fn clone(&self) -> (out: Self)
        ensures
            out@ == self@,
    {
        match self {
            Argument::Path(name) => Argument::Path(clone_optional(name)),
            Argument::Struct(name, fields) => Argument::Struct(
                clone_optional(name),
                clone_fields(fields),
            ),
            Argument::Other => Argument::Other,
        }
    }
}

/// A copy of `arguments`, one by one.
pub fn clone_arguments(arguments: &Vec<Argument>) -> (out: Vec<Argument>)
    ensures
        out.deep_view() == arguments.deep_view(),
{
    let mut out: Vec<Argument> = Vec::new();
    let mut i: usize = 0;
    assert(out.deep_view() =~= arguments.deep_view().take(0));
    while i < arguments.len()
        invariant
            i <= arguments.len(),
            out.deep_view() == arguments.deep_view().take(i as int),
        decreases arguments.len() - i,
    {
        let ghost before = out.deep_view();
        let copy = arguments[i].clone();
        out.push(copy);
        proof {
            assert(out.deep_view() =~= before.push(copy@));
            assert(arguments.deep_view().take(i + 1) =~= arguments.deep_view().take(
                i as int,
            ).push(arguments[i as int]@));
        }
        i += 1;
    }
    assert(arguments.deep_view().take(arguments.len() as int) =~= arguments.deep_view());
    out
}

/// A copy of the names of generic arguments, one by one.
pub fn clone_generics(generics: &Vec<Option<String>>) -> (out: Vec<Option<String>>)
    ensures
        out.deep_view() == generics.deep_view(),
{
    let mut out: Vec<Option<String>> = Vec::new();
    let mut i: usize = 0;
    assert(out.deep_view() =~= generics.deep_view().take(0));
    while i < generics.len()
        invariant
            i <= generics.len(),
            out.deep_view() == generics.deep_view().take(i as int),
        decreases generics.len() - i,
    {
        let ghost before = out.deep_view();
        let copy = clone_optional(&generics[i]);
        out.push(copy);
        proof {
            assert(out.deep_view() =~= before.push(copy.deep_view()));
            assert(generics.deep_view().take(i + 1) =~= generics.deep_view().take(i as int).push(
                generics[i as int].deep_view(),
            ));
        }
        i += 1;
    }
    assert(generics.deep_view().take(generics.len() as int) =~= generics.deep_view());
    out
}

impl Clone for Expr {
    fn clone(&self) -> (out: Self)
        ensures
            out@ == self@,
        decreases self,
    {
        match self {
            Expr::MethodCall(receiver, method, turbofish, arguments) => Expr::MethodCall(
                Box::new((**receiver).clone()),
                method.clone(),
                match turbofish {
                    Some(generics) => Some(clone_generics(generics)),
                    None => None,
                },
                clone_arguments(arguments),
            ),
            Expr::Other => Expr::Other,
        }
    }
}

impl Clone for Item {
    fn clone(&self) -> (out: Self)
        ensures
            out@ == self@,
    {
        match self {
            Item::Fn(name, first) => Item::Fn(
                name.clone(),
                match first {
                    Some(expr) => Some(expr.clone()),
                    None => None,
                },
            ),
            Item::Use(tree) => Item::Use(tree.clone()),
            Item::Other => Item::Other,
        }
    }
}

impl Clone for File {
    fn clone(&self) -> (out: Self)
        ensures
            out@ == self@,
    {
        let mut items: Vec<Item> = Vec::new();
        let mut i: usize = 0;
        assert(items.deep_view() =~= self.items.deep_view().take(0));
        while i < self.items.len()
            invariant
                i <= self.items.len(),
                items.deep_view() == self.items.deep_view().take(i as int),
            decreases self.items.len() - i,
        {
            let ghost before = items.deep_view();
            let copy = self.items[i].clone();
            items.push(copy);
            proof {
                assert(items.deep_view() =~= before.push(copy@));
                assert(self.items.deep_view().take(i + 1) =~= self.items.deep_view().take(
                    i as int,
                ).push(self.items[i as int]@));
            }
            i += 1;
        }
        assert(self.items.deep_view().take(self.items.len() as int) =~= self.items.deep_view());
        File { items }
    }
}

} // verus!
