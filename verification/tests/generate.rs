use codegen::Scope;
use potoo::generate::{
    chain_text, create_app, create_component, create_plugin, create_query, generate_structure,
    import_format, new_scope, render, source_header, GenerationType, HOT_RELOAD_BLOCK,
};
use potoo::model::{
    BevyModel, BevyType, CargoDependency, Component, Custom, CustomCode, DependencyType, Import,
    Plugin, System, Used,
};
use rust_format::{Formatter, PrettyPlease};

fn starts_an_item(line: &str) -> bool {
    !line.is_empty() && !line.starts_with(' ') && !line.starts_with('}')
}

fn generate(scope: &Scope) -> String {
    let text = render(scope);
    let mut items: Vec<String> = vec![String::new()];
    let mut after_blank = false;
    for line in text.lines() {
        if after_blank && starts_an_item(line) {
            items.push(String::new());
        }
        after_blank = line.is_empty();
        let item = items.last_mut().unwrap();
        item.push_str(line);
        item.push('\n');
    }
    let formatted: Vec<String> =
        items.into_iter().map(|item| PrettyPlease::default().format_str(item).unwrap()).collect();
    formatted.join("\n")
}

fn named_system(name: &str) -> System {
    System {
        name: name.to_string(),
        param: vec![],
        content: "".to_string(),
        visibility: "".to_string(),
        attributes: vec![],
    }
}

fn plugin(name: &str, is_group: bool) -> Plugin {
    Plugin { name: name.to_string(), is_group, dependencies: vec![] }
}

#[test]
fn create_app_works() {
    let mut scp = Scope::new();
    create_app(&mut scp, ".add_plugins(DefaultPlugins)");
    assert_eq!(
        generate(&scp),
        "fn main() {\n    App::new().add_plugins(DefaultPlugins).run();\n}\n"
    );
}

#[test]
fn create_plugin_works() {
    let mut scp = Scope::new();
    create_plugin(&mut scp, &plugin("TestPlugin", false), "");
    assert_eq!(
        generate(&scp),
        "pub struct TestPlugin;\n\nimpl Plugin for TestPlugin {\n    fn build(&self, app: &mut App) {\n        app;\n    }\n}\n"
    );
}

#[test]
fn create_plugin_group_works() {
    let mut scp = Scope::new();
    create_plugin(&mut scp, &plugin("TestPlugins", true), "");
    assert_eq!(
        generate(&scp),
        "pub struct TestPlugins;\n\nimpl Plugins for TestPlugins {\n    fn build(&self, app: &mut App) {\n        app;\n    }\n}\n"
    );
}

#[test]
fn create_simple_query_works() {
    let mut scp = Scope::new();
    create_query(
        &mut scp,
        &System {
            name: "test".to_string(),
            param: vec![],
            content: "".to_string(),
            visibility: "".to_string(),
            attributes: vec![],
        },
    );
    assert_eq!(generate(&scp), "fn test() {}\n");
}

#[test]
fn create_query_with_params_and_attribute_works() {
    let mut scp = Scope::new();
    create_query(
        &mut scp,
        &System {
            name: "test2".to_string(),
            param: vec![("field".to_string(), "Type".to_string())],
            content: "".to_string(),
            visibility: "pub".to_string(),
            attributes: vec!["no_mangle".to_string()],
        },
    );
    assert_eq!(generate(&scp), "#[no_mangle]\npub fn test2(field: Type) {}\n");
}

#[test]
fn create_component_works() {
    let mut scp = Scope::new();
    create_component(
        &mut scp,
        &Component { name: "TestPlugin".to_string(), content: vec![], ..Component::default() },
    );
    assert_eq!(generate(&scp), "#[derive(Component)]\npub struct TestPlugin;\n");
}

#[test]
fn app_text_before_formatting() {
    let mut scope = new_scope();
    create_app(&mut scope, ".add_plugins(DefaultPlugins)");
    assert_eq!(
        render(&scope),
        "fn main() {\n    App::new().add_plugins(DefaultPlugins).run();\n}"
    );
}

#[test]
fn plugin_text_before_formatting() {
    let mut scope = new_scope();
    create_plugin(&mut scope, &plugin("TestPlugin", false), ".add_system(tick)");
    assert_eq!(
        render(&scope),
        "pub struct TestPlugin;\n\nimpl Plugin for TestPlugin {\n    fn build(&self, app: &mut App) {\n        app\n        .add_system(tick)\n        ;\n    }\n}"
    );
}

#[test]
fn query_text_before_formatting() {
    let mut scope = new_scope();
    create_query(
        &mut scope,
        &System {
            name: "tick".to_string(),
            param: vec![
                ("time".to_string(), "Res<Time>".to_string()),
                ("mut query".to_string(), "Query<&mut Transform>".to_string()),
            ],
            content: "let a = 1;\nlet b = 2;".to_string(),
            visibility: "pub".to_string(),
            attributes: vec!["no_mangle".to_string(), "inline".to_string()],
        },
    );
    assert_eq!(
        render(&scope),
        "#[no_mangle]\n#[inline]\npub fn tick(time: Res<Time>, mut query: Query<&mut Transform>) {\n    let a = 1;\n    let b = 2;\n}"
    );
}

#[test]
fn query_without_visibility_has_no_qualifier() {
    let mut scope = new_scope();
    create_query(&mut scope, &named_system("tick"));
    assert_eq!(render(&scope), "fn tick() {\n\n}");
}

#[test]
fn component_text_before_formatting() {
    let mut scope = new_scope();
    create_component(
        &mut scope,
        &Component {
            name: "Player".to_string(),
            content: vec![
                ("velocity".to_string(), "Vec3".to_string()),
                ("timer".to_string(), "Option<f32>".to_string()),
            ],
            ..Component::default()
        },
    );
    assert_eq!(
        render(&scope),
        "#[derive(Component)]\npub struct Player {\n    pub velocity: Vec3,\n    pub timer: Option<f32>,\n}"
    );
}

fn ordered_model() -> BevyModel {
    let mut model = BevyModel::default();
    model.plugins.push(plugin("First", true));
    model.plugins.push(plugin("Second", false));
    model.startup_systems.push(named_system("Start"));
    model.systems.push(named_system("Tick"));
    model.systems.push(named_system("Tock"));
    model
}

#[test]
fn chain_keeps_the_order_of_the_model() {
    let model = ordered_model();
    assert_eq!(
        chain_text(&model),
        ".add_plugins(First).add_plugin(Second).add_startup_system(systems::Start).add_system(Tick).add_system(Tock)"
    );
    assert_eq!(
        model.source_text(GenerationType::Main),
        "fn main() {\n    App::new().add_plugins(First).add_plugin(Second).add_startup_system(systems::Start).add_system(Tick).add_system(Tock).run();\n}"
    );
}

#[test]
fn chain_ignores_the_rest_of_the_model() {
    let mut model = ordered_model();
    let chain = chain_text(&model);
    model.components.push(Component::default());
    model.imports.push(Import::default());
    model.meta.name = "other".to_string();
    model.custom.push(Custom::Main(CustomCode { name: "x.rs".to_string(), content: "".to_string() }));
    assert_eq!(chain_text(&model), chain);
}

#[test]
fn chain_of_an_empty_model_is_empty() {
    assert_eq!(chain_text(&BevyModel::default()), "");
    assert_eq!(
        BevyModel::default().source_text(GenerationType::Main),
        "fn main() {\n    App::new().run();\n}"
    );
}

#[test]
fn concrete_example_generates_one_entry_function() {
    let mut model = BevyModel::default();
    model.plugins.push(plugin("DefaultPlugins", true));
    model.startup_systems.push(named_system("setup"));
    model.systems.push(named_system("tick"));
    assert_eq!(
        model.source_text(GenerationType::Main),
        "fn main() {\n    App::new().add_plugins(DefaultPlugins).add_startup_system(systems::setup).add_system(tick).run();\n}"
    );
}

#[test]
fn plugin_model_generates_struct_and_impl() {
    let mut model = ordered_model();
    model.meta.bevy_type = BevyType::Plugin("Game".to_string());
    assert_eq!(
        model.source_text(GenerationType::Main),
        "pub struct Game;\n\nimpl Plugin for Game {\n    fn build(&self, app: &mut App) {\n        app\n        .add_plugins(First).add_plugin(Second).add_startup_system(systems::Start).add_system(Tick).add_system(Tock)\n        ;\n    }\n}"
    );
    model.meta.bevy_type = BevyType::PluginGroup("Games".to_string());
    assert!(model.source_text(GenerationType::Main).starts_with("pub struct Games;\n\nimpl Plugins for Games {"));
    model.meta.bevy_type = BevyType::Example;
    assert!(model.source_text(GenerationType::Main).starts_with("fn main() {"));
}

#[test]
fn systems_target_writes_startup_systems_first() {
    let model = ordered_model();
    assert_eq!(
        model.source_text(GenerationType::Systems),
        "fn Start() {\n\n}\n\nfn Tick() {\n\n}\n\nfn Tock() {\n\n}"
    );
}

#[test]
fn all_targets_are_written_one_after_another() {
    let mut model = ordered_model();
    model.components.push(Component { name: "C".to_string(), ..Component::default() });
    let main = model.source_text(GenerationType::Main);
    let components = model.source_text(GenerationType::Components);
    let systems = model.source_text(GenerationType::Systems);
    assert_eq!(components, "#[derive(Component)]\npub struct C;");
    assert_eq!(
        model.source_text(GenerationType::All),
        format!("{main}\n\n{components}\n\n{systems}")
    );
}

#[test]
fn generate_code_adds_after_what_the_scope_holds() {
    let model = ordered_model();
    let mut scope = new_scope();
    create_component(&mut scope, &Component { name: "First".to_string(), ..Component::default() });
    let scope = model.generate_code(scope, GenerationType::Systems);
    assert_eq!(
        render(&scope),
        format!("#[derive(Component)]\npub struct First;\n\n{}", model.source_text(GenerationType::Systems))
    );
}

fn import(used: Used, name: &str, paths: Vec<&str>) -> Import {
    Import {
        used,
        dependency: CargoDependency {
            name: name.to_string(),
            dependency_type: DependencyType::Crate("1".to_string()),
            paths: paths.into_iter().map(|p| p.to_string()).collect(),
            features: vec![],
        },
    }
}

#[test]
fn import_is_one_declaration_with_grouped_paths() {
    assert_eq!(
        import_format(import(Used::Systems, "rand", vec!["thread_rng", "Rng"])),
        "use rand::{thread_rng, Rng};\n"
    );
    assert_eq!(
        import_format(import(Used::Main, "bevy", vec!["sprite::collide_aabb"])),
        "use bevy::{sprite::collide_aabb};\n"
    );
    assert_eq!(import_format(import(Used::Main, "x", vec![])), "use x::{};\n");
}

fn layout_model() -> BevyModel {
    let mut model = BevyModel::default();
    model.meta.name = "game".to_string();
    model.custom.push(Custom::System(CustomCode {
        name: "utilities.rs".to_string(),
        content: "pub fn f() {}".to_string(),
    }));
    model.custom.push(Custom::Main(CustomCode { name: "extra.rs".to_string(), content: "m".to_string() }));
    model.custom.push(Custom::Component(CustomCode { name: "parts.rs".to_string(), content: "c".to_string() }));
    model.imports.push(import(Used::Systems, "rand", vec!["thread_rng", "Rng"]));
    model.imports.push(import(Used::Main, "log", vec!["info"]));
    model.imports.push(import(Used::Systems, "crate", vec!["utilities::BOUNDS"]));
    model
}

#[test]
fn header_of_the_systems_file() {
    assert_eq!(
        source_header(&layout_model(), GenerationType::Systems),
        "mod utilities;\n\nuse bevy::prelude::*;\nuse rand::{thread_rng, Rng};\nuse crate::{utilities::BOUNDS};\nuse components::*;\n\n"
    );
}

#[test]
fn header_of_the_components_file() {
    assert_eq!(
        source_header(&layout_model(), GenerationType::Components),
        "mod parts;\n\nuse bevy::prelude::*;\n\n"
    );
}

#[test]
fn header_of_the_entry_file() {
    let expected = format!(
        "mod extra;\n\nuse bevy::prelude::*;\nuse log::{{info}};\n\n{}#[bevy_main]\n",
        HOT_RELOAD_BLOCK
    );
    assert_eq!(source_header(&layout_model(), GenerationType::Main), expected);
    assert!(HOT_RELOAD_BLOCK.starts_with("#[cfg(not(feature = \"reload\"))]\nuse systems::*;\n"));
    assert!(HOT_RELOAD_BLOCK.ends_with("hot_functions_from_file!(\"systems/src/lib.rs\");\n}\n\n"));
}

#[test]
fn header_of_a_plugin_has_no_entry_mark() {
    let mut model = layout_model();
    model.meta.bevy_type = BevyType::Plugin("P".to_string());
    assert!(!source_header(&model, GenerationType::Main).contains("#[bevy_main]"));
    assert_eq!(
        source_header(&BevyModel::default(), GenerationType::All),
        "\nuse bevy::prelude::*;\n\n#[bevy_main]\n"
    );
}

#[test]
fn structure_of_the_entry_point() {
    let model = layout_model();
    let layout = generate_structure(&model, GenerationType::Main);
    assert_eq!(layout.root, "game");
    assert_eq!(layout.manifest.directory, "game");
    assert_eq!(layout.manifest.path, "game/Cargo.toml");
    assert_eq!(layout.manifest.content, potoo::templates::default_cargo_src_template(&model));
    assert_eq!(layout.source.directory, "game/src");
    assert_eq!(layout.source.path, "game/src/main.rs");
    assert_eq!(layout.source.content, source_header(&model, GenerationType::Main));
    assert_eq!(layout.custom.len(), 1);
    assert_eq!(layout.custom[0].directory, "game/src");
    assert_eq!(layout.custom[0].path, "game/srcextra.rs");
    assert_eq!(layout.custom[0].content, "m");
    assert_eq!(layout.assets, Some(("assets".to_string(), "game/assets".to_string())));
}

#[test]
fn structure_of_the_systems() {
    let model = layout_model();
    let layout = generate_structure(&model, GenerationType::Systems);
    assert_eq!(layout.manifest.directory, "game/systems/");
    assert_eq!(layout.manifest.path, "game/systems//Cargo.toml");
    assert_eq!(layout.manifest.content, potoo::templates::default_cargo_systems_template());
    assert_eq!(layout.source.directory, "game/systems/src");
    assert_eq!(layout.source.path, "game/systems/src/lib.rs");
    assert_eq!(layout.custom.len(), 1);
    assert_eq!(layout.custom[0].directory, "game/systems/src");
    assert_eq!(layout.custom[0].path, "game/systems/src/utilities.rs");
    assert_eq!(layout.custom[0].content, "pub fn f() {}");
    assert_eq!(layout.assets, None);
}

#[test]
fn structure_of_the_components() {
    let mut model = layout_model();
    model.meta.bevy_type = BevyType::Plugin("P".to_string());
    let layout = generate_structure(&model, GenerationType::Components);
    assert_eq!(layout.manifest.path, "game/components//Cargo.toml");
    assert_eq!(layout.manifest.content, potoo::templates::default_cargo_components_template());
    assert_eq!(layout.source.path, "game/components/src/lib.rs");
    assert_eq!(layout.custom[0].path, "game/components/src/parts.rs");
    let main = generate_structure(&model, GenerationType::Main);
    assert_eq!(main.source.path, "game/src/lib.rs");
}
