//! From a model to the source tree of one generation target, and to its text.

use vstd::prelude::*;
use vstd::string::*;
use codegen::Scope;
use crate::model::{
    BevyModel, BevyModelView, BevyType, BevyTypeView, Component, ComponentView, Custom, CustomCode,
    CustomCodeView, CustomView, Import, ImportView, Plugin, PluginView, System, SystemView, Used,
};
use crate::scope::{
    field_model, field_new, field_vis, function_arg, function_arg_ref_self, function_attr,
    function_line, function_model, function_new, function_vis, impl_model, impl_new, impl_push_fn,
    impl_trait, items_bare, scope_imports, scope_items, scope_new, scope_push_fn,
    scope_push_impl, scope_push_struct, scope_text, scope_to_string, struct_derive, struct_model,
    struct_new, struct_push_field, struct_vis, FieldModel, FunctionModel, ImplModel, ItemModel,
    StructModel,
};
use crate::templates::{
    components_manifest, default_cargo_components_template, default_cargo_src_template,
    default_cargo_systems_template, project_manifest, systems_manifest,
};
use crate::text::{concat_text, join, join_text, lemma_concat_push, remove_all, text, without_all};

verus! {

/// What to generate: the entry point, the components, the systems, or all
/// three one after another.
#[derive(Clone, Copy, Debug, PartialEq, Eq, Structural)]
pub enum GenerationType {
    All,
    Main,
    Components,
    Systems,
}

/// The call that adds `plugin` to the application builder.
pub open spec fn plugin_call(plugin: PluginView) -> Seq<char> {
    if plugin.is_group {
        ".add_plugins("@ + plugin.name + ")"@
    } else {
        ".add_plugin("@ + plugin.name + ")"@
    }
}

/// The call that adds `system` as a startup system.
pub open spec fn startup_call(system: SystemView) -> Seq<char> {
    ".add_startup_system(systems::"@ + system.name + ")"@
}

/// The call that adds `system` as a system that runs every frame.
pub open spec fn system_call(system: SystemView) -> Seq<char> {
    ".add_system("@ + system.name + ")"@
}

/// The calls of the builder chain of `model`, one for each plugin, then one
/// for each startup system, then one for each system, each list in its order.
pub open spec fn chain_calls(model: BevyModelView) -> Seq<Seq<char>> {
    model.plugins.map_values(|p: PluginView| plugin_call(p)) + model.startup_systems.map_values(
        |s: SystemView| startup_call(s),
    ) + model.systems.map_values(|s: SystemView| system_call(s))
}

/// The builder chain of `model`: its calls written one after another.
pub open spec fn builder_chain(model: BevyModelView) -> Seq<char> {
    concat_text(chain_calls(model))
}

/// The one line of an entry function: a new application, the chain, the run.
pub open spec fn app_line(chain: Seq<char>) -> Seq<char> {
    "App::new()"@ + chain + ".run();"@
}

/// The entry function `main` around the chain.
pub open spec fn app_item(chain: Seq<char>) -> ItemModel {
    ItemModel::Function(
        FunctionModel {
            name: "main"@,
            vis: None,
            receiver: None,
            args: Seq::empty(),
            attrs: Seq::empty(),
            lines: seq![app_line(chain)],
            bare: true,
        },
    )
}

/// The trait that a plugin, or a group of plugins, implements.
pub open spec fn plugin_trait(is_group: bool) -> Seq<char> {
    if is_group {
        "Plugins"@
    } else {
        "Plugin"@
    }
}

/// The public unit struct of a plugin named `name`.
pub open spec fn plugin_struct(name: Seq<char>) -> ItemModel {
    ItemModel::Struct(
        StructModel {
            name,
            vis: Some("pub"@),
            fields: Seq::empty(),
            derives: Seq::empty(),
            bare: true,
        },
    )
}

/// The `build` method of a plugin: the chain applied to the builder handed in.
pub open spec fn build_function(chain: Seq<char>) -> FunctionModel {
    FunctionModel {
        name: "build"@,
        vis: None,
        receiver: Some("&self"@),
        args: seq![("app"@, "&mut App"@)],
        attrs: Seq::empty(),
        lines: seq!["app"@, chain, ";"@],
        bare: true,
    }
}

/// The block that implements the plugin trait for the struct named `name`.
pub open spec fn plugin_impl(name: Seq<char>, is_group: bool, chain: Seq<char>) -> ItemModel {
    ItemModel::Impl(
        ImplModel {
            target: name,
            trait_name: Some(plugin_trait(is_group)),
            fns: seq![build_function(chain)],
            bare: true,
        },
    )
}

/// The function of `system`: its parameters and attributes as given, its
/// visibility unless that is empty, and its content as the only body line.
pub open spec fn system_item(system: SystemView) -> ItemModel {
    ItemModel::Function(
        FunctionModel {
            name: system.name,
            vis: if system.visibility.len() == 0 {
                None
            } else {
                Some(system.visibility)
            },
            receiver: None,
            args: system.param,
            attrs: system.attributes,
            lines: seq![system.content],
            bare: true,
        },
    )
}

/// A public field of that name and type.
pub open spec fn component_field(pair: (Seq<char>, Seq<char>)) -> FieldModel {
    FieldModel { name: pair.0, ty: pair.1, vis: Some("pub"@), bare: true }
}

/// The public struct of `component`, with one public field for each pair
/// and the derive that makes it a component.
pub open spec fn component_item(component: ComponentView) -> ItemModel {
    ItemModel::Struct(
        StructModel {
            name: component.name,
            vis: Some("pub"@),
            fields: component.content.map_values(|p: (Seq<char>, Seq<char>)| component_field(p)),
            derives: seq!["Component"@],
            bare: true,
        },
    )
}

/// The items of the entry point: for an application one `main` function; for
/// a plugin or a group of plugins its struct and the block that builds it.
pub open spec fn main_items(model: BevyModelView) -> Seq<ItemModel> {
    match model.meta.bevy_type {
        BevyTypeView::Plugin(name) => seq![
            plugin_struct(name),
            plugin_impl(name, false, builder_chain(model)),
        ],
        BevyTypeView::PluginGroup(name) => seq![
            plugin_struct(name),
            plugin_impl(name, true, builder_chain(model)),
        ],
        _ => seq![app_item(builder_chain(model))],
    }
}

/// One struct for each component, in order.
pub open spec fn component_items(model: BevyModelView) -> Seq<ItemModel> {
    model.components.map_values(|c: ComponentView| component_item(c))
}

/// One function for each startup system, then one for each system.
pub open spec fn system_items(model: BevyModelView) -> Seq<ItemModel> {
    model.startup_systems.map_values(|s: SystemView| system_item(s)) + model.systems.map_values(
        |s: SystemView| system_item(s),
    )
}

/// The items that generation adds to a scope for `target`.
pub open spec fn generated_items(model: BevyModelView, target: GenerationType) -> Seq<ItemModel> {
    match target {
        GenerationType::Main => main_items(model),
        GenerationType::Components => component_items(model),
        GenerationType::Systems => system_items(model),
        GenerationType::All => main_items(model) + component_items(model) + system_items(model),
    }
}

/// Writing two lists of parts one after the other writes the first, then
/// the second.
pub proof fn lemma_concat_append(a: Seq<Seq<char>>, b: Seq<Seq<char>>)
    ensures
        concat_text(a + b) == concat_text(a) + concat_text(b),
    decreases b.len(),
{
    if b.len() == 0 {
        assert(a + b =~= a);
        assert(concat_text(a) + concat_text(b) =~= concat_text(a));
    } else {
        assert((a + b).drop_last() =~= a + b.drop_last());
        lemma_concat_append(a, b.drop_last());
        assert(concat_text(a + b) =~= concat_text(a) + concat_text(b));
    }
}

/// The chain holds every call whole, after the calls that stand before it in
/// the model and before those that stand after it: plugins first, then
/// startup systems, then systems, each list in its own order. Nothing else
/// in the model has a part in it.
pub proof fn law_chain_keeps_order(model: BevyModelView, at: int)
    requires
        0 <= at < chain_calls(model).len(),
    ensures
        chain_calls(model).len() == model.plugins.len() + model.startup_systems.len()
            + model.systems.len(),
        builder_chain(model) == concat_text(chain_calls(model).take(at)) + chain_calls(model)[at]
            + concat_text(chain_calls(model).skip(at + 1)),
        at < model.plugins.len() ==> chain_calls(model)[at] == plugin_call(model.plugins[at]),
        model.plugins.len() <= at < model.plugins.len() + model.startup_systems.len()
            ==> chain_calls(model)[at] == startup_call(
            model.startup_systems[at - model.plugins.len()],
        ),
        model.plugins.len() + model.startup_systems.len() <= at ==> chain_calls(model)[at]
            == system_call(model.systems[at - model.plugins.len() - model.startup_systems.len()]),
{
    let calls = chain_calls(model);
    assert(calls =~= calls.take(at).push(calls[at]) + calls.skip(at + 1));
    lemma_concat_append(calls.take(at).push(calls[at]), calls.skip(at + 1));
    lemma_concat_push(calls.take(at), calls[at]);
}

/// The builder chain of `model` as text.
pub fn chain_text(model: &BevyModel) -> (out: String)
    ensures
        out@ == builder_chain(model@),
{
    let ghost plugins = model@.plugins.map_values(|p: PluginView| plugin_call(p));
    let ghost startups = model@.startup_systems.map_values(|s: SystemView| startup_call(s));
    let ghost systems = model@.systems.map_values(|s: SystemView| system_call(s));
    let mut out = String::new();
    let mut i: usize = 0;
    while i < model.plugins.len()
        invariant
            i <= model.plugins.len(),
            plugins == model@.plugins.map_values(|p: PluginView| plugin_call(p)),
            out@ == concat_text(plugins.take(i as int)),
        decreases model.plugins.len() - i,
    {
        proof {
            assert(plugins.take(i + 1) =~= plugins.take(i as int).push(plugins[i as int]));
            lemma_concat_push(plugins.take(i as int), plugins[i as int]);
        }
        let plugin = &model.plugins[i];
        assert(plugin@ == model@.plugins[i as int]);
        if plugin.is_group {
            out.append(".add_plugins(");
        } else {
            out.append(".add_plugin(");
        }
        out.append(plugin.name.as_str());
        out.append(")");
        assert(out@ =~= concat_text(plugins.take(i as int)) + plugin_call(plugin@));
        i += 1;
    }
    assert(plugins.take(model.plugins.len() as int) =~= plugins);
    let mut j: usize = 0;
    assert(plugins + startups.take(0) =~= plugins);
    while j < model.startup_systems.len()
        invariant
            j <= model.startup_systems.len(),
            startups == model@.startup_systems.map_values(|s: SystemView| startup_call(s)),
            out@ == concat_text(plugins + startups.take(j as int)),
        decreases model.startup_systems.len() - j,
    {
        proof {
            assert(plugins + startups.take(j + 1) =~= (plugins + startups.take(j as int)).push(
                startups[j as int],
            ));
            lemma_concat_push(plugins + startups.take(j as int), startups[j as int]);
        }
        let system = &model.startup_systems[j];
        assert(system@ == model@.startup_systems[j as int]);
        out.append(".add_startup_system(systems::");
        out.append(system.name.as_str());
        out.append(")");
        assert(out@ =~= concat_text(plugins + startups.take(j as int)) + startup_call(system@));
        j += 1;
    }
    assert(startups.take(model.startup_systems.len() as int) =~= startups);
    let mut k: usize = 0;
    assert(plugins + startups + systems.take(0) =~= plugins + startups);
    while k < model.systems.len()
        invariant
            k <= model.systems.len(),
            systems == model@.systems.map_values(|s: SystemView| system_call(s)),
            out@ == concat_text(plugins + startups + systems.take(k as int)),
        decreases model.systems.len() - k,
    {
        proof {
            assert(plugins + startups + systems.take(k + 1) =~= (plugins + startups
                + systems.take(k as int)).push(systems[k as int]));
            lemma_concat_push(plugins + startups + systems.take(k as int), systems[k as int]);
        }
        let system = &model.systems[k];
        assert(system@ == model@.systems[k as int]);
        out.append(".add_system(");
        out.append(system.name.as_str());
        out.append(")");
        assert(out@ =~= concat_text(plugins + startups + systems.take(k as int)) + system_call(
            system@,
        ));
        k += 1;
    }
    assert(systems.take(model.systems.len() as int) =~= systems);
    out
}

/// Adds the entry function `main`, which builds an application, chains
/// `inner_content` to it and runs it.
pub fn create_app(scope: &mut Scope, inner_content: &str)
    ensures
        scope_items(*final(scope)) == scope_items(*old(scope)).push(app_item(inner_content@)),
        scope_imports(*final(scope)) == scope_imports(*old(scope)),
{
    let mut line = text("App::new()");
    line.append(inner_content);
    line.append(".run();");
    let mut function = function_new("main");
    function_line(&mut function, line.as_str());
    proof {
        assert(function_model(function).lines =~= seq![app_line(inner_content@)]);
    }
    scope_push_fn(scope, function);
}

/// Adds the struct of `plugin` and the block that implements the plugin
/// trait for it, or the trait of groups where `plugin` is one; its `build`
/// chains `content` to the builder handed in.
pub fn create_plugin(scope: &mut Scope, plugin: &Plugin, content: &str)
    ensures
        scope_items(*final(scope)) == scope_items(*old(scope)).push(
            plugin_struct(plugin.name@),
        ).push(plugin_impl(plugin.name@, plugin.is_group, content@)),
        scope_imports(*final(scope)) == scope_imports(*old(scope)),
{
    let mut definition = struct_new(plugin.name.as_str());
    struct_vis(&mut definition, "pub");
    scope_push_struct(scope, definition);
    let mut block = impl_new(plugin.name.as_str());
    if plugin.is_group {
        impl_trait(&mut block, "Plugins");
    } else {
        impl_trait(&mut block, "Plugin");
    }
    let mut build = function_new("build");
    function_arg_ref_self(&mut build);
    function_arg(&mut build, "app", "&mut App");
    function_line(&mut build, "app");
    function_line(&mut build, content);
    function_line(&mut build, ";");
    proof {
        assert(function_model(build).args =~= seq![("app"@, "&mut App"@)]);
        assert(function_model(build).lines =~= seq!["app"@, content@, ";"@]);
    }
    impl_push_fn(&mut block, build);
    proof {
        assert(impl_model(block).fns =~= seq![build_function(content@)]);
    }
    scope_push_impl(scope, block);
}

/// Adds the function of `system`.
pub fn create_query(scope: &mut Scope, system: &System)
    ensures
        scope_items(*final(scope)) == scope_items(*old(scope)).push(system_item(system@)),
        scope_imports(*final(scope)) == scope_imports(*old(scope)),
{
    let mut function = function_new(system.name.as_str());
    let mut i: usize = 0;
    assert(system@.param.take(0) =~= Seq::empty());
    while i < system.param.len()
        invariant
            i <= system.param.len(),
            function_model(function) == (FunctionModel {
                name: system.name@,
                vis: None,
                receiver: None,
                args: system@.param.take(i as int),
                attrs: Seq::empty(),
                lines: Seq::empty(),
                bare: true,
            }),
        decreases system.param.len() - i,
    {
        function_arg(&mut function, system.param[i].0.as_str(), system.param[i].1.as_str());
        proof {
            assert(system@.param.take(i + 1) =~= system@.param.take(i as int).push(
                system@.param[i as int],
            ));
        }
        i += 1;
    }
    assert(system@.param.take(system.param.len() as int) =~= system@.param);
    if !system.visibility.as_str().is_empty() {
        function_vis(&mut function, system.visibility.as_str());
    }
    let ghost vis = function_model(function).vis;
    let mut j: usize = 0;
    assert(system@.attributes.take(0) =~= Seq::empty());
    while j < system.attributes.len()
        invariant
            j <= system.attributes.len(),
            function_model(function) == (FunctionModel {
                name: system.name@,
                vis,
                receiver: None,
                args: system@.param,
                attrs: system@.attributes.take(j as int),
                lines: Seq::empty(),
                bare: true,
            }),
        decreases system.attributes.len() - j,
    {
        function_attr(&mut function, system.attributes[j].as_str());
        proof {
            assert(system@.attributes.take(j + 1) =~= system@.attributes.take(j as int).push(
                system@.attributes[j as int],
            ));
        }
        j += 1;
    }
    assert(system@.attributes.take(system.attributes.len() as int) =~= system@.attributes);
    function_line(&mut function, system.content.as_str());
    proof {
        assert(function_model(function).lines =~= seq![system@.content]);
    }
    scope_push_fn(scope, function);
}

/// Adds the struct of `component`.
pub fn create_component(scope: &mut Scope, component: &Component)
    ensures
        scope_items(*final(scope)) == scope_items(*old(scope)).push(component_item(component@)),
        scope_imports(*final(scope)) == scope_imports(*old(scope)),
{
    let ghost fields = component@.content.map_values(
        |p: (Seq<char>, Seq<char>)| component_field(p),
    );
    let mut definition = struct_new(component.name.as_str());
    struct_vis(&mut definition, "pub");
    let mut i: usize = 0;
    assert(fields.take(0) =~= Seq::empty());
    while i < component.content.len()
        invariant
            i <= component.content.len(),
            fields == component@.content.map_values(
                |p: (Seq<char>, Seq<char>)| component_field(p),
            ),
            struct_model(definition) == (StructModel {
                name: component.name@,
                vis: Some("pub"@),
                fields: fields.take(i as int),
                derives: Seq::empty(),
                bare: true,
            }),
        decreases component.content.len() - i,
    {
        let mut field = field_new(
            component.content[i].0.as_str(),
            component.content[i].1.as_str(),
        );
        field_vis(&mut field, "pub");
        struct_push_field(&mut definition, field);
        proof {
            assert(field_model(field) == fields[i as int]);
            assert(fields.take(i + 1) =~= fields.take(i as int).push(fields[i as int]));
        }
        i += 1;
    }
    assert(fields.take(component.content.len() as int) =~= fields);
    struct_derive(&mut definition, "Component");
    proof {
        assert(struct_model(definition).derives =~= seq!["Component"@]);
    }
    scope_push_struct(scope, definition);
}

/// What generation makes is bare: nothing but what its models say.
pub proof fn lemma_generated_bare(model: BevyModelView, target: GenerationType)
    ensures
        items_bare(generated_items(model, target)),
{
    assert(items_bare(main_items(model)));
    assert(items_bare(component_items(model)));
    assert(items_bare(system_items(model)));
}

impl BevyModel {
    /// Adds the items of the entry point to `scope`.
    fn fill_main(&self, scope: &mut Scope)
        ensures
            scope_items(*final(scope)) == scope_items(*old(scope)) + main_items(self@),
            scope_imports(*final(scope)) == scope_imports(*old(scope)),
    {
        let chain = chain_text(self);
        match &self.meta.bevy_type {
            BevyType::Plugin(name) => {
                let plugin = Plugin { name: name.clone(), is_group: false, dependencies: Vec::new() };
                create_plugin(scope, &plugin, chain.as_str());
            },
            BevyType::PluginGroup(name) => {
                let plugin = Plugin { name: name.clone(), is_group: true, dependencies: Vec::new() };
                create_plugin(scope, &plugin, chain.as_str());
            },
            _ => {
                create_app(scope, chain.as_str());
            },
        }
        assert(scope_items(*scope) =~= scope_items(*old(scope)) + main_items(self@));
    }

    /// Adds one struct for each component to `scope`.
    fn fill_components(&self, scope: &mut Scope)
        ensures
            scope_items(*final(scope)) == scope_items(*old(scope)) + component_items(self@),
            scope_imports(*final(scope)) == scope_imports(*old(scope)),
    {
        let ghost items = component_items(self@);
        let mut i: usize = 0;
        assert(scope_items(*scope) =~= scope_items(*old(scope)) + items.take(0));
        while i < self.components.len()
            invariant
                i <= self.components.len(),
                items == component_items(self@),
                scope_items(*scope) == scope_items(*old(scope)) + items.take(i as int),
                scope_imports(*scope) == scope_imports(*old(scope)),
            decreases self.components.len() - i,
        {
            create_component(scope, &self.components[i]);
            proof {
                assert(items[i as int] == component_item(self.components[i as int]@));
                assert(scope_items(*old(scope)) + items.take(i + 1) =~= (scope_items(*old(scope))
                    + items.take(i as int)).push(items[i as int]));
            }
            i += 1;
        }
        assert(items.take(self.components.len() as int) =~= items);
    }

    /// Adds one function for each startup system, then one for each system.
    fn fill_systems(&self, scope: &mut Scope)
        ensures
            scope_items(*final(scope)) == scope_items(*old(scope)) + system_items(self@),
            scope_imports(*final(scope)) == scope_imports(*old(scope)),
    {
        let ghost first = self@.startup_systems.map_values(|s: SystemView| system_item(s));
        let ghost second = self@.systems.map_values(|s: SystemView| system_item(s));
        let mut i: usize = 0;
        assert(scope_items(*scope) =~= scope_items(*old(scope)) + first.take(0));
        while i < self.startup_systems.len()
            invariant
                i <= self.startup_systems.len(),
                first == self@.startup_systems.map_values(|s: SystemView| system_item(s)),
                scope_items(*scope) == scope_items(*old(scope)) + first.take(i as int),
                scope_imports(*scope) == scope_imports(*old(scope)),
            decreases self.startup_systems.len() - i,
        {
            create_query(scope, &self.startup_systems[i]);
            proof {
                assert(first[i as int] == system_item(self.startup_systems[i as int]@));
                assert(scope_items(*old(scope)) + first.take(i + 1) =~= (scope_items(*old(scope))
                    + first.take(i as int)).push(first[i as int]));
            }
            i += 1;
        }
        assert(first.take(self.startup_systems.len() as int) =~= first);
        let mut j: usize = 0;
        assert(scope_items(*scope) =~= scope_items(*old(scope)) + (first + second.take(0)));
        while j < self.systems.len()
            invariant
                j <= self.systems.len(),
                second == self@.systems.map_values(|s: SystemView| system_item(s)),
                scope_items(*scope) == scope_items(*old(scope)) + (first + second.take(j as int)),
                scope_imports(*scope) == scope_imports(*old(scope)),
            decreases self.systems.len() - j,
        {
            create_query(scope, &self.systems[j]);
            proof {
                assert(second[j as int] == system_item(self.systems[j as int]@));
                assert(scope_items(*old(scope)) + (first + second.take(j + 1)) =~= (scope_items(
                    *old(scope),
                ) + (first + second.take(j as int))).push(second[j as int]));
            }
            j += 1;
        }
        assert(second.take(self.systems.len() as int) =~= second);
    }

    /// Adds to `scope`, after what it holds, the items of `gen_type`: for
    /// all targets those of the entry point, then those of the components,
    /// then those of the systems. The imports of the scope stay as they are.
    pub fn generate_code(&self, scope: Scope, gen_type: GenerationType) -> (out: Scope)
        ensures
            scope_items(out) == scope_items(scope) + generated_items(self@, gen_type),
            scope_imports(out) == scope_imports(scope),
    {
        let mut out = scope;
        match gen_type {
            GenerationType::Main => {
                self.fill_main(&mut out);
            },
            GenerationType::Components => {
                self.fill_components(&mut out);
            },
            GenerationType::Systems => {
                self.fill_systems(&mut out);
            },
            GenerationType::All => {
                self.fill_main(&mut out);
                self.fill_components(&mut out);
                self.fill_systems(&mut out);
                assert(scope_items(out) =~= scope_items(scope) + generated_items(
                    self@,
                    gen_type,
                ));
            },
        }
        out
    }

    /// The text of the items of `gen_type`, as the source tree writes them
    /// before any formatter sees them.
    pub fn source_text(&self, gen_type: GenerationType) -> (out: String)
        ensures
            out@ == scope_text(generated_items(self@, gen_type)),
    {
        let scope = self.generate_code(scope_new(), gen_type);
        proof {
            lemma_generated_bare(self@, gen_type);
            assert(scope_items(scope) =~= generated_items(self@, gen_type));
        }
        render(&scope)
    }
}

/// The text of a scope that has no imports and holds bare items only.
pub fn render(scope: &Scope) -> (out: String)
    requires
        scope_imports(*scope) == 0,
        items_bare(scope_items(*scope)),
    ensures
        out@ == scope_text(scope_items(*scope)),
{
    scope_to_string(scope)
}

/// A scope without items and without imports.
pub fn new_scope() -> (scope: Scope)
    ensures
        scope_items(scope) == Seq::<ItemModel>::empty(),
        scope_imports(scope) == 0,
{
    scope_new()
}

/// What the entry file of a project holds so that its systems can be
/// reloaded while it runs.
pub const HOT_RELOAD_BLOCK: &'static str = "#[cfg(not(feature = \"reload\"))]\nuse systems::*;\n#[cfg(feature = \"reload\")]\nuse systems_hot::*;\n        \n#[cfg(feature = \"reload\")]\n#[hot_lib_reloader::hot_module(dylib = \"systems\")]\nmod systems_hot {\n    use bevy::prelude::*;\n    pub use components::*;\n    hot_functions_from_file!(\"systems/src/lib.rs\");\n}\n\n";

/// The declaration that imports the symbol paths of `import` from its
/// dependency: the name, then the paths in braces with `, ` between them.
pub open spec fn import_line(import: ImportView) -> Seq<char> {
    "use "@ + import.dependency.name + "::{"@ + join_text(import.dependency.paths, ", "@)
        + "};\n"@
}

/// The declaration that imports the symbol paths of `import`.
pub fn import_format(import: Import) -> (out: String)
    ensures
        out@ == import_line(import@),
{
    let paths = join(&import.dependency.paths, ", ");
    let mut out = text("use ");
    out.append(import.dependency.name.as_str());
    out.append("::{");
    out.append(paths.as_str());
    out.append("};\n");
    out
}

/// The code of `custom` if it belongs to `target`.
pub open spec fn custom_for(custom: CustomView, target: GenerationType) -> Option<CustomCodeView> {
    match (custom, target) {
        (CustomView::Main(code), GenerationType::Main) => Some(code),
        (CustomView::Component(code), GenerationType::Components) => Some(code),
        (CustomView::System(code), GenerationType::Systems) => Some(code),
        _ => None,
    }
}

/// Whether an import used in `used` belongs to `target`.
pub open spec fn used_for(used: Used, target: GenerationType) -> bool {
    match (used, target) {
        (Used::Main, GenerationType::Main) => true,
        (Used::Components, GenerationType::Components) => true,
        (Used::Systems, GenerationType::Systems) => true,
        _ => false,
    }
}

/// The declaration of the module that holds `code`: its file name without
/// any `.rs`.
pub open spec fn module_line(code: CustomCodeView) -> Seq<char> {
    "mod "@ + without_all(code.name, ".rs"@) + ";\n"@
}

/// The module declarations of the custom code of `target`, in order.
pub open spec fn module_lines(custom: Seq<CustomView>, target: GenerationType) -> Seq<char>
    decreases custom.len(),
{
    if custom.len() == 0 {
        Seq::empty()
    } else {
        module_lines(custom.drop_last(), target) + match custom_for(custom.last(), target) {
            Some(code) => module_line(code),
            None => Seq::empty(),
        }
    }
}

/// The declarations of the imports of `target`, in order.
pub open spec fn import_lines(imports: Seq<ImportView>, target: GenerationType) -> Seq<char>
    decreases imports.len(),
{
    if imports.len() == 0 {
        Seq::empty()
    } else {
        import_lines(imports.drop_last(), target) + if used_for(imports.last().used, target) {
            import_line(imports.last())
        } else {
            Seq::empty()
        }
    }
}

/// Whether `target` writes the entry file of an application.
pub open spec fn is_entry(model: BevyModelView, target: GenerationType) -> bool {
    model.meta.bevy_type is App && (target == GenerationType::Main || target
        == GenerationType::All)
}

/// What stands in the source file of `target` before its generated items:
/// the modules of its custom code, the prelude of the engine, its imports,
/// for systems the components and for the entry point the reload block, and
/// the mark of the entry function of an application.
pub open spec fn header_text(model: BevyModelView, target: GenerationType) -> Seq<char> {
    module_lines(model.custom, target) + "\n"@ + "use bevy::prelude::*;\n"@ + import_lines(
        model.imports,
        target,
    ) + (if target == GenerationType::Systems {
        "use components::*;\n\n"@
    } else {
        "\n"@
    }) + (if target == GenerationType::Main {
        HOT_RELOAD_BLOCK@
    } else {
        Seq::empty()
    }) + (if is_entry(model, target) {
        "#[bevy_main]\n"@
    } else {
        Seq::empty()
    })
}

/// A file to write: the directory to make first, its path and its text.
#[derive(Debug, PartialEq, Eq)]
pub struct GeneratedFile {
    pub directory: String,
    pub path: String,
    pub content: String,
}

/// What a [`GeneratedFile`] holds, with every string seen as its characters.
pub struct GeneratedFileView {
    pub directory: Seq<char>,
    pub path: Seq<char>,
    pub content: Seq<char>,
}

impl DeepView for GeneratedFile {
    type V = GeneratedFileView;

    open spec fn deep_view(&self) -> GeneratedFileView {
        GeneratedFileView { directory: self.directory@, path: self.path@, content: self.content@ }
    }
}

impl View for GeneratedFile {
    type V = GeneratedFileView;

    open spec fn view(&self) -> GeneratedFileView {
        self.deep_view()
    }
}

/// The files of one generation target, as paths below the working
/// directory. The source file gets `header` and after it the generated
/// items; `assets`, where given, is the directory to copy and where to.
#[derive(Debug, PartialEq, Eq)]
pub struct ProjectFiles {
    pub root: String,
    pub manifest: GeneratedFile,
    pub source: GeneratedFile,
    pub custom: Vec<GeneratedFile>,
    pub assets: Option<(String, String)>,
}

/// What a [`ProjectFiles`] holds, with every string seen as its characters.
pub struct ProjectFilesView {
    pub root: Seq<char>,
    pub manifest: GeneratedFileView,
    pub source: GeneratedFileView,
    pub custom: Seq<GeneratedFileView>,
    pub assets: Option<(Seq<char>, Seq<char>)>,
}

impl DeepView for ProjectFiles {
    type V = ProjectFilesView;

    open spec fn deep_view(&self) -> ProjectFilesView {
        ProjectFilesView {
            root: self.root@,
            manifest: self.manifest@,
            source: self.source@,
            custom: self.custom.deep_view(),
            assets: self.assets.deep_view(),
        }
    }
}

impl View for ProjectFiles {
    type V = ProjectFilesView;

    open spec fn view(&self) -> ProjectFilesView {
        self.deep_view()
    }
}

/// The directory of `target` below the project, with its slash, or nothing
/// for the entry point.
pub open spec fn target_folder(target: GenerationType) -> Seq<char> {
    match target {
        GenerationType::Components => "components/"@,
        GenerationType::Systems => "systems/"@,
        _ => Seq::empty(),
    }
}

/// The directory that holds the manifest of `target`.
pub open spec fn manifest_directory(model: BevyModelView, target: GenerationType) -> Seq<char> {
    match target {
        GenerationType::Components | GenerationType::Systems => model.meta.name + "/"@
            + target_folder(target),
        _ => model.meta.name,
    }
}

/// The manifest of `target`.
pub open spec fn manifest_text(model: BevyModelView, target: GenerationType) -> Seq<char> {
    match target {
        GenerationType::Components => components_manifest(),
        GenerationType::Systems => systems_manifest(),
        _ => project_manifest(model),
    }
}

/// The file of one block of custom code: below `src` of the crate of its
/// target. For the entry point the file name follows `src` directly.
pub open spec fn custom_file(root: Seq<char>, custom: CustomView) -> GeneratedFileView {
    match custom {
        CustomView::Main(code) => GeneratedFileView {
            directory: root + "/src"@,
            path: root + "/src"@ + code.name,
            content: code.content,
        },
        CustomView::Component(code) => GeneratedFileView {
            directory: root + "/components/src"@,
            path: root + "/components/src"@ + "/"@ + code.name,
            content: code.content,
        },
        CustomView::System(code) => GeneratedFileView {
            directory: root + "/systems/src"@,
            path: root + "/systems/src"@ + "/"@ + code.name,
            content: code.content,
        },
    }
}

/// The files of the custom code of `target`, in order.
pub open spec fn custom_files(
    root: Seq<char>,
    custom: Seq<CustomView>,
    target: GenerationType,
) -> Seq<GeneratedFileView>
    decreases custom.len(),
{
    if custom.len() == 0 {
        Seq::empty()
    } else if custom_for(custom.last(), target) is Some {
        custom_files(root, custom.drop_last(), target).push(custom_file(root, custom.last()))
    } else {
        custom_files(root, custom.drop_last(), target)
    }
}

/// The name of the source file: `main.rs` for the entry of an application,
/// `lib.rs` for everything else.
pub open spec fn source_file_name(model: BevyModelView, target: GenerationType) -> Seq<char> {
    if is_entry(model, target) {
        "/main.rs"@
    } else {
        "/lib.rs"@
    }
}

/// The files of `target` for `model`.
pub open spec fn structure_of(model: BevyModelView, target: GenerationType) -> ProjectFilesView {
    let root = model.meta.name;
    let source_directory = root + "/"@ + target_folder(target) + "src"@;
    ProjectFilesView {
        root,
        manifest: GeneratedFileView {
            directory: manifest_directory(model, target),
            path: manifest_directory(model, target) + "/Cargo.toml"@,
            content: manifest_text(model, target),
        },
        source: GeneratedFileView {
            directory: source_directory,
            path: source_directory + source_file_name(model, target),
            content: header_text(model, target),
        },
        custom: custom_files(root, model.custom, target),
        assets: if target == GenerationType::Main {
            Some((model.meta.asset_path, root + "/assets"@))
        } else {
            None
        },
    }
}

/// Whether `custom` belongs to `gen_type`.
fn custom_matches(custom: &Custom, gen_type: GenerationType) -> (code: Option<&CustomCode>)
    ensures
        code.deep_view() == custom_for(custom@, gen_type),
{
    match custom {
        Custom::Main(code) => if gen_type == GenerationType::Main {
            Some(code)
        } else {
            None
        },
        Custom::Component(code) => if gen_type == GenerationType::Components {
            Some(code)
        } else {
            None
        },
        Custom::System(code) => if gen_type == GenerationType::Systems {
            Some(code)
        } else {
            None
        },
    }
}

/// Whether an import used in `used` belongs to `gen_type`.
fn used_matches(used: Used, gen_type: GenerationType) -> (yes: bool)
    ensures
        yes == used_for(used, gen_type),
{
    match used {
        Used::Main => gen_type == GenerationType::Main,
        Used::Components => gen_type == GenerationType::Components,
        Used::Systems => gen_type == GenerationType::Systems,
    }
}

/// What stands in the source file of `gen_type` before its generated items.
pub fn source_header(model: &BevyModel, gen_type: GenerationType) -> (out: String)
    ensures
        out@ == header_text(model@, gen_type),
{
    let ghost custom = model@.custom;
    let ghost imports = model@.imports;
    let mut out = String::new();
    let mut i: usize = 0;
    assert(custom.take(0) =~= Seq::empty());
    while i < model.custom.len()
        invariant
            i <= model.custom.len(),
            custom == model@.custom,
            out@ == module_lines(custom.take(i as int), gen_type),
        decreases model.custom.len() - i,
    {
        proof {
            assert(custom.take(i + 1).drop_last() =~= custom.take(i as int));
            assert(custom.take(i + 1).last() == model.custom[i as int]@);
        }
        match custom_matches(&model.custom[i], gen_type) {
            Some(code) => {
                let name = remove_all(code.name.as_str(), ".rs");
                let ghost before = out@;
                out.append("mod ");
                out.append(name.as_str());
                out.append(";\n");
                assert(out@ =~= before + module_line(code@));
            },
            None => {
                assert(out@ =~= out@ + Seq::<char>::empty());
            },
        }
        i += 1;
    }
    assert(custom.take(model.custom.len() as int) =~= custom);
    out.append("\n");
    out.append("use bevy::prelude::*;\n");
    let ghost head = out@;
    let mut j: usize = 0;
    assert(imports.take(0) =~= Seq::empty());
    assert(head + import_lines(imports.take(0), gen_type) =~= head);
    while j < model.imports.len()
        invariant
            j <= model.imports.len(),
            imports == model@.imports,
            out@ == head + import_lines(imports.take(j as int), gen_type),
        decreases model.imports.len() - j,
    {
        proof {
            assert(imports.take(j + 1).drop_last() =~= imports.take(j as int));
            assert(imports.take(j + 1).last() == model.imports[j as int]@);
        }
        let import = &model.imports[j];
        if used_matches(import.used, gen_type) {
            let paths = join(&import.dependency.paths, ", ");
            let ghost before = out@;
            out.append("use ");
            out.append(import.dependency.name.as_str());
            out.append("::{");
            out.append(paths.as_str());
            out.append("};\n");
            assert(out@ =~= before + import_line(import@));
            assert(out@ =~= head + import_lines(imports.take(j + 1), gen_type));
        } else {
            assert(out@ =~= head + import_lines(imports.take(j + 1), gen_type));
        }
        j += 1;
    }
    assert(imports.take(model.imports.len() as int) =~= imports);
    if gen_type == GenerationType::Systems {
        out.append("use components::*;\n\n");
    } else {
        out.append("\n");
    }
    let ghost middle = out@;
    if gen_type == GenerationType::Main {
        out.append(HOT_RELOAD_BLOCK);
    }
    let is_app = match &model.meta.bevy_type {
        BevyType::App => true,
        _ => false,
    };
    if is_app && (gen_type == GenerationType::Main || gen_type == GenerationType::All) {
        out.append("#[bevy_main]\n");
    }
    assert(out@ =~= header_text(model@, gen_type));
    out
}

/// The file of one block of custom code of the project in `root`.
fn custom_code_file(root: &str, custom: &Custom) -> (file: GeneratedFile)
    ensures
        file@ == custom_file(root@, custom@),
{
    let mut directory = text(root);
    match custom {
        Custom::Main(code) => {
            directory.append("/src");
            let mut path = directory.clone();
            path.append(code.name.as_str());
            GeneratedFile { directory, path, content: code.content.clone() }
        },
        Custom::Component(code) => {
            directory.append("/components/src");
            let mut path = directory.clone();
            path.append("/");
            path.append(code.name.as_str());
            GeneratedFile { directory, path, content: code.content.clone() }
        },
        Custom::System(code) => {
            directory.append("/systems/src");
            let mut path = directory.clone();
            path.append("/");
            path.append(code.name.as_str());
            GeneratedFile { directory, path, content: code.content.clone() }
        },
    }
}

/// The files that one generation target writes: the manifest, the source
/// file with what stands in it before the generated items, the files of the
/// custom code of the target, and for the entry point the assets to copy.
/// No layout is defined for all targets at once.
pub fn generate_structure(bm: &BevyModel, gen_type: GenerationType) -> (out: ProjectFiles)
    requires
        gen_type != GenerationType::All,
    ensures
        out@ == structure_of(bm@, gen_type),
{
    let root = bm.meta.name.clone();
    let mut manifest_directory = root.clone();
    let mut source_directory = root.clone();
    source_directory.append("/");
    let content = match gen_type {
        GenerationType::Components => {
            manifest_directory.append("/");
            manifest_directory.append("components/");
            source_directory.append("components/");
            default_cargo_components_template()
        },
        GenerationType::Systems => {
            manifest_directory.append("/");
            manifest_directory.append("systems/");
            source_directory.append("systems/");
            default_cargo_systems_template()
        },
        _ => default_cargo_src_template(bm),
    };
    source_directory.append("src");
    let mut manifest_path = manifest_directory.clone();
    manifest_path.append("/Cargo.toml");
    let is_app = match &bm.meta.bevy_type {
        BevyType::App => true,
        _ => false,
    };
    let mut source_path = source_directory.clone();
    if is_app && gen_type == GenerationType::Main {
        source_path.append("/main.rs");
    } else {
        source_path.append("/lib.rs");
    }
    let ghost all = bm@.custom;
    let mut custom: Vec<GeneratedFile> = Vec::new();
    let mut i: usize = 0;
    assert(all.take(0) =~= Seq::empty());
    assert(custom.deep_view() =~= custom_files(root@, all.take(0), gen_type));
    while i < bm.custom.len()
        invariant
            i <= bm.custom.len(),
            all == bm@.custom,
            custom.deep_view() == custom_files(root@, all.take(i as int), gen_type),
        decreases bm.custom.len() - i,
    {
        proof {
            assert(all.take(i + 1).drop_last() =~= all.take(i as int));
            assert(all.take(i + 1).last() == bm.custom[i as int]@);
        }
        if custom_matches(&bm.custom[i], gen_type).is_some() {
            let ghost before = custom.deep_view();
            let file = custom_code_file(root.as_str(), &bm.custom[i]);
            custom.push(file);
            assert(custom.deep_view() =~= before.push(file@));
        }
        i += 1;
    }
    assert(all.take(bm.custom.len() as int) =~= all);
    let assets = if gen_type == GenerationType::Main {
        let mut to = root.clone();
        to.append("/assets");
        Some((bm.meta.asset_path.clone(), to))
    } else {
        None
    };
    let out = ProjectFiles {
        root,
        manifest: GeneratedFile { directory: manifest_directory, path: manifest_path, content },
        source: GeneratedFile {
            directory: source_directory,
            path: source_path,
            content: source_header(bm, gen_type),
        },
        custom,
        assets,
    };
    proof {
        assert(out@.manifest.directory =~= structure_of(bm@, gen_type).manifest.directory);
        assert(out@.manifest.path =~= structure_of(bm@, gen_type).manifest.path);
        assert(out@.source.directory =~= structure_of(bm@, gen_type).source.directory);
        assert(out@.source.path =~= structure_of(bm@, gen_type).source.path);
    }
    out
}

} // verus!
