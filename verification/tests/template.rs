use potoo::bevy_model_template::{default_game_template, UTILITIES_CODE};
use potoo::generate::GenerationType;
use potoo::model::{BevyType, Custom, DependencyType, Feature, Used};

#[test]
fn game_template_has_its_parts() {
    let model = default_game_template();
    assert_eq!(model.meta.name, "bevy_test");
    assert_eq!(model.meta.bevy_type, BevyType::App);
    assert_eq!(model.meta.asset_path, "assets");
    assert_eq!(model.components.len(), 1);
    assert_eq!(model.components[0].name, "Player");
    assert_eq!(
        model.components[0].content,
        vec![
            ("velocity".to_string(), "Vec3".to_string()),
            ("rotation_speed".to_string(), "f32".to_string()),
            ("shooting_timer".to_string(), "Option<f32>".to_string()),
        ]
    );
    assert_eq!(model.plugins.len(), 1);
    assert_eq!(
        model.plugins[0].name,
        "DefaultPlugins.set(AssetPlugin{watch_for_changes: true, ..default()})"
    );
    assert!(model.plugins[0].is_group);
    assert_eq!(model.startup_systems.len(), 1);
    assert_eq!(model.startup_systems[0].name, "setup");
    assert!(model.startup_systems[0].attributes.is_empty());
    assert_eq!(model.startup_systems[0].visibility, "pub");
    assert!(model.startup_systems[0].content.starts_with("\n\ncommands.spawn(Camera2dBundle::default());"));
    let names: Vec<&str> = model.systems.iter().map(|s| s.name.as_str()).collect();
    assert_eq!(
        names,
        vec![
            "player_movement_system",
            "player_shooting_system",
            "bullet_movement_system",
            "bullet_hit_system",
            "spawn_other_ships",
            "move_other_ships",
        ]
    );
    for system in &model.systems {
        assert_eq!(system.attributes, vec!["no_mangle".to_string()]);
        assert_eq!(system.visibility, "pub");
    }
    assert_eq!(model.systems[5].param.len(), 2);
    assert_eq!(model.systems[5].param[1].1, "Query<&mut Transform, With<OtherShip>>");
    assert!(model.systems[0].content.starts_with("const SPEED: f32 = 500.0;"));
    assert!(model.systems[5].content.ends_with("tfm.translation += x;\n}"));
    assert_eq!(model.custom.len(), 1);
    match &model.custom[0] {
        Custom::System(code) => {
            assert_eq!(code.name, "utilities.rs");
            assert_eq!(code.content, UTILITIES_CODE);
        }
        _ => panic!("the custom code belongs to the systems"),
    }
    assert_eq!(model.imports.len(), 3);
    assert_eq!(model.imports[0].used, Used::Systems);
    assert_eq!(model.imports[0].dependency.name, "rand");
    assert_eq!(model.imports[0].dependency.dependency_type, DependencyType::Crate("0.8".to_string()));
    assert_eq!(model.imports[0].dependency.paths, vec!["thread_rng".to_string(), "Rng".to_string()]);
    assert_eq!(model.imports[2].dependency.name, "crate");
    assert_eq!(model.imports[2].dependency.paths, vec!["utilities::BOUNDS".to_string()]);
    assert_eq!(model.bevy_settings.features, vec![Feature::Dynamic]);
    assert!(model.bevy_settings.dev_features.is_empty());
    assert!(model.examples.is_empty());
}

#[test]
fn game_template_generates_every_target() {
    let model = default_game_template();
    let main = model.source_text(GenerationType::Main);
    assert!(main.starts_with("fn main() {\n    App::new().add_plugins(DefaultPlugins.set("));
    assert!(main.ends_with(".add_system(move_other_ships).run();\n}"));
    let components = model.source_text(GenerationType::Components);
    assert_eq!(
        components,
        "#[derive(Component)]\npub struct Player {\n    pub velocity: Vec3,\n    pub rotation_speed: f32,\n    pub shooting_timer: Option<f32>,\n}"
    );
    let systems = model.source_text(GenerationType::Systems);
    assert!(systems.starts_with("pub fn setup(mut commands: Commands, asset_server: Res<AssetServer>) {"));
    assert!(systems.contains("#[no_mangle]\npub fn bullet_hit_system("));
}
