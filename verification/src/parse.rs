//! From a source file to the imports it declares and the calls that its
//! entry function chains.

use vstd::prelude::*;
use vstd::string::*;
use crate::syntax::{
    lemma_group_view, Argument, ArgumentView, Expr, ExprView, FieldValue, FieldValueView, File, Item, ItemView,
    UseTree, UseTreeView,
};
use crate::text::{join, join_text, text};

verus! {

/// What parsing finds: the imports, each as one path, and the calls of the
/// entry chain, each as the name of the method and the text of its arguments.
#[derive(Debug, PartialEq, Eq)]
pub struct ParseBevyModel {
    pub imports: Vec<String>,
    pub app_builder: Vec<(String, String)>,
}

/// What a [`ParseBevyModel`] holds, with every string seen as its characters.
pub struct ParseBevyModelView {
    pub imports: Seq<Seq<char>>,
    pub app_builder: Seq<(Seq<char>, Seq<char>)>,
}

impl DeepView for ParseBevyModel {
    type V = ParseBevyModelView;

    open spec fn deep_view(&self) -> ParseBevyModelView {
        ParseBevyModelView {
            imports: self.imports.deep_view(),
            app_builder: self.app_builder.deep_view(),
        }
    }
}

impl View for ParseBevyModel {
    type V = ParseBevyModelView;

    open spec fn view(&self) -> ParseBevyModelView {
        self.deep_view()
    }
}

impl Default for ParseBevyModel {
    fn default() -> (out: Self)
        ensures
            out@ == (ParseBevyModelView { imports: Seq::empty(), app_builder: Seq::empty() }),
    {
        let out = ParseBevyModel { imports: Vec::new(), app_builder: Vec::new() };
        proof {
            assert(out@.imports =~= Seq::empty());
            assert(out@.app_builder =~= Seq::empty());
        }
        out
    }
}

/// The texts of `items` that are there, in order.
pub open spec fn present(items: Seq<Option<Seq<char>>>) -> Seq<Seq<char>>
    decreases items.len(),
{
    if items.len() == 0 {
        Seq::empty()
    } else {
        match items.last() {
            Some(t) => present(items.drop_last()).push(t),
            None => present(items.drop_last()),
        }
    }
}

/// The text of a field: `name:value`, or the one of the two that is there.
pub open spec fn field_text(field: FieldValueView) -> Option<Seq<char>> {
    match (field.member, field.value) {
        (None, None) => None,
        (None, Some(value)) => Some(value),
        (Some(name), None) => Some(name),
        (Some(name), Some(value)) => Some(name + ":"@ + value),
    }
}

/// The texts of the fields of a record literal with commas between them.
pub open spec fn fields_text(fields: Seq<FieldValueView>) -> Seq<char> {
    join_text(present(fields.map_values(|f: FieldValueView| field_text(f))), ","@)
}

/// The text of an argument: the name of a path, or the type of a record
/// literal with its fields in braces. Other arguments have none.
pub open spec fn argument_text(argument: ArgumentView) -> Option<Seq<char>> {
    match argument {
        ArgumentView::Path(name) => name,
        ArgumentView::Struct(Some(name), fields) => Some(name + "{"@ + fields_text(fields) + "}"@),
        ArgumentView::Struct(None, fields) => Some(fields_text(fields)),
        ArgumentView::Other => None,
    }
}

/// The texts of the arguments of a call with commas between them.
pub open spec fn arguments_text(arguments: Seq<ArgumentView>) -> Seq<char> {
    join_text(present(arguments.map_values(|a: ArgumentView| argument_text(a))), ","@)
}

/// The name of a generic argument, empty where it has none.
pub open spec fn generic_text(generic: Option<Seq<char>>) -> Seq<char> {
    match generic {
        Some(name) => name,
        None => Seq::empty(),
    }
}

/// The names of explicit generic arguments with commas between them.
pub open spec fn generics_text(generics: Seq<Option<Seq<char>>>) -> Seq<char> {
    join_text(generics.map_values(|g: Option<Seq<char>>| generic_text(g)), ","@)
}

/// The name of a call: that of the method, followed by its explicit generic
/// arguments between `::<` and `>` unless their text is empty.
pub open spec fn call_name(method: Seq<char>, turbofish: Option<Seq<Option<Seq<char>>>>) -> Seq<
    char,
> {
    match turbofish {
        Some(generics) => if generics_text(generics).len() == 0 {
            method
        } else {
            method + "::<"@ + generics_text(generics) + ">"@
        },
        None => method,
    }
}

/// The calls of a chain in the order in which they are made: those of the
/// receiver first, then the call itself.
pub open spec fn entry_calls(expr: ExprView) -> Seq<(Seq<char>, Seq<char>)>
    decreases expr,
{
    match expr {
        ExprView::MethodCall(receiver, method, turbofish, arguments) => entry_calls(
            *receiver,
        ).push((call_name(method, turbofish), arguments_text(arguments))),
        ExprView::Other => Seq::empty(),
    }
}

/// The segments of an import tree after `prefix`: each path segment adds its
/// name, a name ends the path, a glob ends it with `*`, a renamed name adds
/// nothing, and a group adds one segment that holds all its members.
pub open spec fn use_segments(prefix: Seq<Seq<char>>, tree: UseTreeView) -> Seq<Seq<char>>
    decreases tree, 0nat,
{
    match tree {
        UseTreeView::Path(name, rest) => use_segments(prefix.push(name), *rest),
        UseTreeView::Name(name) => prefix.push(name),
        UseTreeView::Rename => prefix,
        UseTreeView::Glob => prefix.push("*"@),
        UseTreeView::Group(items) => prefix.push(group_text(items)),
    }
}

/// The texts of the first `count` members of a group: for each member its
/// own segments with `::` between them. A member without segments has none.
pub open spec fn member_texts(items: Seq<UseTreeView>, count: nat) -> Seq<Seq<char>>
    decreases items, count,
{
    if count == 0 || count > items.len() {
        Seq::empty()
    } else {
        let segments = use_segments(Seq::empty(), items[count - 1]);
        if segments.len() == 0 {
            member_texts(items, (count - 1) as nat)
        } else {
            member_texts(items, (count - 1) as nat).push(join_text(segments, "::"@))
        }
    }
}

/// The text of a group: its members in braces with commas between them.
pub open spec fn group_text(items: Seq<UseTreeView>) -> Seq<char>
    decreases items, items.len() + 1,
{
    "{"@ + join_text(member_texts(items, items.len()), ","@) + "}"@
}

/// The path of an import declaration: its segments with `::` between them.
pub open spec fn use_text(tree: UseTreeView) -> Seq<char> {
    join_text(use_segments(Seq::empty(), tree), "::"@)
}

/// The paths of the import declarations of a file, in order.
pub open spec fn file_imports(items: Seq<ItemView>) -> Seq<Seq<char>>
    decreases items.len(),
{
    if items.len() == 0 {
        Seq::empty()
    } else {
        match items.last() {
            ItemView::Use(tree) => file_imports(items.drop_last()).push(use_text(tree)),
            _ => file_imports(items.drop_last()),
        }
    }
}

/// Whether `item` is an entry function that opens with an expression.
pub open spec fn is_entry_point(item: ItemView) -> bool {
    item matches ItemView::Fn(name, Some(_)) && name == "main"@
}

/// The calls of the entry chain of a file: those of the last function named
/// `main` whose first statement is an expression; none without such a function.
pub open spec fn file_builder(items: Seq<ItemView>) -> Seq<(Seq<char>, Seq<char>)>
    decreases items.len(),
{
    if items.len() == 0 {
        Seq::empty()
    } else {
        match items.last() {
            ItemView::Fn(name, Some(first)) => if name == "main"@ {
                entry_calls(first)
            } else {
                file_builder(items.drop_last())
            },
            _ => file_builder(items.drop_last()),
        }
    }
}

/// What parsing a file gives: nothing where it has neither imports nor
/// calls of an entry chain, else both.
pub open spec fn parsed(items: Seq<ItemView>) -> Option<ParseBevyModelView> {
    if file_imports(items).len() == 0 && file_builder(items).len() == 0 {
        None
    } else {
        Some(ParseBevyModelView { imports: file_imports(items), app_builder: file_builder(items) })
    }
}

/// The text of a field, if it has one.
pub fn field_value_text(field: &FieldValue) -> (out: Option<String>)
    ensures
        out.deep_view() == field_text(field@),
{
    match (&field.member, &field.value) {
        (None, None) => None,
        (None, Some(value)) => Some(value.clone()),
        (Some(name), None) => Some(name.clone()),
        (Some(name), Some(value)) => {
            let mut out = name.clone();
            out.append(":");
            out.append(value.as_str());
            Some(out)
        },
    }
}

/// The texts of the fields of a record literal with commas between them.
pub fn record_fields_text(fields: &Vec<FieldValue>) -> (out: String)
    ensures
        out@ == fields_text(fields.deep_view()),
{
    let ghost all = fields.deep_view().map_values(|f: FieldValueView| field_text(f));
    let mut parts: Vec<String> = Vec::new();
    let mut i: usize = 0;
    assert(all.take(0) =~= Seq::empty());
    assert(parts.deep_view() =~= present(all.take(0)));
    while i < fields.len()
        invariant
            i <= fields.len(),
            all == fields.deep_view().map_values(|f: FieldValueView| field_text(f)),
            parts.deep_view() == present(all.take(i as int)),
        decreases fields.len() - i,
    {
        proof {
            assert(all.take(i + 1).drop_last() =~= all.take(i as int));
            assert(all.take(i + 1).last() == field_text(fields[i as int]@));
        }
        match field_value_text(&fields[i]) {
            Some(t) => {
                let ghost before = parts.deep_view();
                parts.push(t);
                assert(parts.deep_view() =~= before.push(t@));
            },
            None => {},
        }
        i += 1;
    }
    assert(all.take(fields.len() as int) =~= all);
    join(&parts, ",")
}

/// The text of an argument, if it has one.
pub fn argument_signature(argument: &Argument) -> (out: Option<String>)
    ensures
        out.deep_view() == argument_text(argument@),
{
    match argument {
        Argument::Path(name) => match name {
            Some(n) => Some(n.clone()),
            None => None,
        },
        Argument::Struct(name, fields) => {
            let joined = record_fields_text(fields);
            match name {
                Some(n) => {
                    let mut out = n.clone();
                    out.append("{");
                    out.append(joined.as_str());
                    out.append("}");
                    Some(out)
                },
                None => Some(joined),
            }
        },
        Argument::Other => None,
    }
}

/// The texts of the arguments of a call with commas between them.
pub fn arguments_signature(arguments: &Vec<Argument>) -> (out: String)
    ensures
        out@ == arguments_text(arguments.deep_view()),
{
    let ghost all = arguments.deep_view().map_values(|a: ArgumentView| argument_text(a));
    let mut parts: Vec<String> = Vec::new();
    let mut i: usize = 0;
    assert(all.take(0) =~= Seq::empty());
    assert(parts.deep_view() =~= present(all.take(0)));
    while i < arguments.len()
        invariant
            i <= arguments.len(),
            all == arguments.deep_view().map_values(|a: ArgumentView| argument_text(a)),
            parts.deep_view() == present(all.take(i as int)),
        decreases arguments.len() - i,
    {
        proof {
            assert(all.take(i + 1).drop_last() =~= all.take(i as int));
            assert(all.take(i + 1).last() == argument_text(arguments[i as int]@));
        }
        match argument_signature(&arguments[i]) {
            Some(t) => {
                let ghost before = parts.deep_view();
                parts.push(t);
                assert(parts.deep_view() =~= before.push(t@));
            },
            None => {},
        }
        i += 1;
    }
    assert(all.take(arguments.len() as int) =~= all);
    join(&parts, ",")
}

/// The name of a call with its explicit generic arguments.
pub fn method_signature(method: &String, turbofish: &Option<Vec<Option<String>>>) -> (out: String)
    ensures
        out@ == call_name(method@, turbofish.deep_view()),
{
    match turbofish {
        Some(generics) => {
            let ghost all = generics.deep_view().map_values(
                |g: Option<Seq<char>>| generic_text(g),
            );
            let mut names: Vec<String> = Vec::new();
            let mut i: usize = 0;
            assert(names.deep_view() =~= all.take(0));
            while i < generics.len()
                invariant
                    i <= generics.len(),
                    all == generics.deep_view().map_values(|g: Option<Seq<char>>| generic_text(g)),
                    names.deep_view() == all.take(i as int),
                decreases generics.len() - i,
            {
                let ghost before = names.deep_view();
                match &generics[i] {
                    Some(name) => {
                        names.push(name.clone());
                        assert(names.deep_view() =~= before.push(name@));
                    },
                    None => {
                        let empty = String::new();
                        names.push(empty);
                        assert(names.deep_view() =~= before.push(empty@));
                    },
                }
                proof {
                    assert(all[i as int] == generic_text(generics[i as int].deep_view()));
                    assert(all.take(i + 1) =~= all.take(i as int).push(all[i as int]));
                }
                i += 1;
            }
            assert(all.take(generics.len() as int) =~= all);
            let joined = join(&names, ",");
            if joined.as_str().is_empty() {
                method.clone()
            } else {
                let mut out = method.clone();
                out.append("::<");
                out.append(joined.as_str());
                out.append(">");
                out
            }
        },
        None => method.clone(),
    }
}

/// `s.push(x)` read backwards starts with `x`.
pub proof fn lemma_reverse_push<T>(s: Seq<T>, x: T)
    ensures
        s.push(x).reverse() == seq![x] + s.reverse(),
{
    assert(s.push(x).reverse() =~= seq![x] + s.reverse());
}

/// Adds to the calls of `init_app_builder` those of the chain `expr`, the
/// call made last first, and leaves its imports as they are.
pub fn parse_fn(init_app_builder: ParseBevyModel, expr: &Expr) -> (out: ParseBevyModel)
    ensures
        out@.imports == init_app_builder@.imports,
        out@.app_builder == init_app_builder@.app_builder + entry_calls(expr@).reverse(),
    decreases expr,
{
    let mut found = init_app_builder;
    match expr {
        Expr::MethodCall(receiver, method, turbofish, arguments) => {
            let name = method_signature(method, turbofish);
            let signature = arguments_signature(arguments);
            let ghost before = found@.app_builder;
            found.app_builder.push((name, signature));
            proof {
                let pair = (name@, signature@);
                assert(found@.app_builder =~= before.push(pair));
                lemma_reverse_push(entry_calls((**receiver)@), pair);
                assert(before.push(pair) + entry_calls((**receiver)@).reverse() =~= before + (
                seq![pair] + entry_calls((**receiver)@).reverse()));
            }
            parse_fn(found, receiver)
        },
        Expr::Other => {
            proof {
                assert(entry_calls(expr@).reverse() =~= Seq::empty());
                assert(found@.app_builder + Seq::empty() =~= found@.app_builder);
            }
            found
        },
    }
}

/// The calls of `calls` in the opposite order.
pub fn reversed(calls: &Vec<(String, String)>) -> (out: Vec<(String, String)>)
    ensures
        out.deep_view() == calls.deep_view().reverse(),
{
    let ghost all = calls.deep_view();
    let mut out: Vec<(String, String)> = Vec::new();
    let mut i: usize = calls.len();
    assert(out.deep_view() =~= all.subrange(calls.len() as int, calls.len() as int).reverse());
    while i > 0
        invariant
            i <= calls.len(),
            all == calls.deep_view(),
            out.deep_view() == all.subrange(i as int, calls.len() as int).reverse(),
        decreases i,
    {
        i -= 1;
        let ghost before = out.deep_view();
        out.push((calls[i].0.clone(), calls[i].1.clone()));
        proof {
            assert(out.deep_view() =~= before.push(all[i as int]));
            assert(out.deep_view() =~= all.subrange(i as int, calls.len() as int).reverse());
        }
    }
    assert(all.subrange(0, calls.len() as int) =~= all);
    out
}

/// Adds to `imports` the segments of `use_tree`.
pub fn parse_use(imports: Vec<String>, use_tree: &UseTree) -> (out: Vec<String>)
    ensures
        out.deep_view() == use_segments(imports.deep_view(), use_tree@),
    decreases use_tree,
{
    let mut imports = imports;
    let ghost before = imports.deep_view();
    match use_tree {
        UseTree::Path(name, rest) => {
            imports.push(name.clone());
            assert(imports.deep_view() =~= before.push(name@));
            parse_use(imports, rest)
        },
        UseTree::Name(name) => {
            imports.push(name.clone());
            assert(imports.deep_view() =~= before.push(name@));
            imports
        },
        UseTree::Rename => imports,
        UseTree::Glob => {
            let star = text("*");
            imports.push(star);
            assert(imports.deep_view() =~= before.push("*"@));
            imports
        },
        UseTree::Group(items) => {
            let group = parse_group(items);
            proof {
                lemma_group_view(*items);
            }
            imports.push(group);
            assert(imports.deep_view() =~= before.push(group@));
            imports
        },
    }
}

/// The text of a group of import trees: each member flattened on its own,
/// its segments joined with `::`, and the members set in braces with commas
/// between them.
pub fn parse_group(group: &Vec<UseTree>) -> (out: String)
    ensures
        out@ == group_text(group.deep_view()),
    decreases group,
{
    let ghost items = group.deep_view();
    let mut members: Vec<String> = Vec::new();
    let mut i: usize = 0;
    assert(members.deep_view() =~= member_texts(items, 0));
    while i < group.len()
        invariant
            i <= group.len(),
            items == group.deep_view(),
            members.deep_view() == member_texts(items, i as nat),
        decreases group.len() - i,
    {
        let fresh: Vec<String> = Vec::new();
        proof {
            assert(fresh.deep_view() =~= Seq::<Seq<char>>::empty());
            assert(items[i as int] == group[i as int]@);
        }
        let segments = parse_use(fresh, &group[i]);
        if segments.len() > 0 {
            let ghost before = members.deep_view();
            let member = join(&segments, "::");
            members.push(member);
            assert(members.deep_view() =~= before.push(member@));
        }
        i += 1;
    }
    let joined = join(&members, ",");
    let mut out = text("{");
    out.append(joined.as_str());
    out.append("}");
    out
}

/// What the file declares: the path of each import declaration, and the
/// calls of the chain that opens its entry function `main`, in the order in
/// which they are made. Nothing where the file has neither.
pub fn parse_file(file: File) -> (out: Option<ParseBevyModel>)
    ensures
        out.deep_view() == parsed(file@),
{
    let ghost items = file@;
    let mut imports: Vec<String> = Vec::new();
    let mut app_builder: Vec<(String, String)> = Vec::new();
    let mut i: usize = 0;
    assert(items.take(0) =~= Seq::empty());
    assert(imports.deep_view() =~= file_imports(items.take(0)));
    assert(app_builder.deep_view() =~= file_builder(items.take(0)));
    while i < file.items.len()
        invariant
            i <= file.items.len(),
            items == file@,
            imports.deep_view() == file_imports(items.take(i as int)),
            app_builder.deep_view() == file_builder(items.take(i as int)),
        decreases file.items.len() - i,
    {
        proof {
            assert(items.take(i + 1).drop_last() =~= items.take(i as int));
            assert(items.take(i + 1).last() == file.items[i as int]@);
        }
        match &file.items[i] {
            Item::Fn(name, first) => {
                let entry = text("main");
                if *name == entry {
                    match first {
                        Some(expr) => {
                            let found = parse_fn(ParseBevyModel::default(), expr);
                            app_builder = reversed(&found.app_builder);
                            proof {
                                assert(Seq::<(Seq<char>, Seq<char>)>::empty() + entry_calls(
                                    expr@,
                                ).reverse() =~= entry_calls(expr@).reverse());
                                assert(entry_calls(expr@).reverse().reverse() =~= entry_calls(
                                    expr@,
                                ));
                            }
                        },
                        None => {},
                    }
                }
            },
            Item::Use(tree) => {
                let fresh: Vec<String> = Vec::new();
                proof {
                    assert(fresh.deep_view() =~= Seq::<Seq<char>>::empty());
                }
                let segments = parse_use(fresh, tree);
                let ghost before = imports.deep_view();
                let path = join(&segments, "::");
                imports.push(path);
                assert(imports.deep_view() =~= before.push(path@));
            },
            Item::Other => {},
        }
        i += 1;
    }
    assert(items.take(file.items.len() as int) =~= items);
    if imports.len() == 0 && app_builder.len() == 0 {
        None
    } else {
        Some(ParseBevyModel { imports, app_builder })
    }
}

/// One call of a chain: the method, its explicit generic arguments and its
/// arguments.
pub struct CallView {
    pub method: Seq<char>,
    pub turbofish: Option<Seq<Option<Seq<char>>>>,
    pub arguments: Seq<ArgumentView>,
}

/// The pair that parsing gives for a call.
pub open spec fn call_pair(call: CallView) -> (Seq<char>, Seq<char>) {
    (call_name(call.method, call.turbofish), arguments_text(call.arguments))
}

/// The expression that makes `calls` on `base`, one after another.
pub open spec fn chain_of(base: ExprView, calls: Seq<CallView>) -> ExprView
    decreases calls.len(),
{
    if calls.len() == 0 {
        base
    } else {
        ExprView::MethodCall(
            Box::new(chain_of(base, calls.drop_last())),
            calls.last().method,
            calls.last().turbofish,
            calls.last().arguments,
        )
    }
}

/// A chain of calls on something that is no method call parses to exactly
/// one pair for each call, in the order in which the calls are made; and a
/// file whose only declaration is an entry function that opens with the
/// chain parses to those pairs.
pub proof fn law_chain_round_trip(base: ExprView, calls: Seq<CallView>)
    requires
        base is Other,
    ensures
        entry_calls(chain_of(base, calls)) == calls.map_values(|c: CallView| call_pair(c)),
        entry_calls(chain_of(base, calls)).len() == calls.len(),
        file_builder(seq![ItemView::Fn("main"@, Some(chain_of(base, calls)))])
            == calls.map_values(|c: CallView| call_pair(c)),
    decreases calls.len(),
{
    let pairs = calls.map_values(|c: CallView| call_pair(c));
    if calls.len() == 0 {
        assert(entry_calls(chain_of(base, calls)) =~= pairs);
    } else {
        law_chain_round_trip(base, calls.drop_last());
        assert(entry_calls(chain_of(base, calls)) =~= pairs);
    }
    let items = seq![ItemView::Fn("main"@, Some(chain_of(base, calls)))];
    assert(items.last() == ItemView::Fn("main"@, Some(chain_of(base, calls))));
}

} // verus!
