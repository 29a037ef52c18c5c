//! The model of a small game, ready to be generated.

use vstd::prelude::*;
use vstd::string::*;
use crate::model::{
    BevyModel, BevyModelView, BevyType, BevyTypeView, CargoDependency, CargoDependencyView,
    Component, ComponentView, Custom, CustomCode, CustomCodeView, CustomView, DependencyType,
    DependencyTypeView, Feature, Import, ImportView, Meta, MetaView, Plugin, PluginView,
    Po2Version, Settings, SettingsView, System, SystemView, Used,
};
use crate::text::text;

verus! {

/// The body of the system that sets the scene up.
pub const SETUP_BODY: &'static str = "\n\ncommands.spawn(Camera2dBundle::default());\n\n// player\nlet ship_handle = asset_server.load(\"ship_C.png\");\ncommands\n.spawn(SpriteBundle {\n    texture: ship_handle,\n    ..default()\n})\n.insert(Player {\n    velocity: Vec3::ZERO,\n    rotation_speed: f32::to_radians(180.0),\n    shooting_timer: None,\n});\n\n";

/// The body of the system that moves the player.
pub const PLAYER_MOVEMENT_BODY: &'static str = "const SPEED: f32 = 500.0;\n\nlet (ship, mut transform) = query.single_mut();\n\nlet mut rotation_factor = 0.0;\nlet mut movement_factor = 0.0;\n\nif keyboard_input.pressed(KeyCode::Left) {\n    rotation_factor += 1.0;\n}\n\nif keyboard_input.pressed(KeyCode::Right) {\n    rotation_factor -= 4.0;\n}\n\nif keyboard_input.pressed(KeyCode::Up) {\n    movement_factor += 1.0;\n}\n\n// update the ship rotation around the Z axis (perpendicular to the 2D plane of the screen)\ntransform.rotate_z(rotation_factor * ship.rotation_speed * time.delta_seconds());\n\n// get the ship's forward vector by applying the current rotation to the ships initial facing vector\nlet movement_direction = transform.rotation * Vec3::Y;\n// get the distance the ship will move based on direction, the ship's movement speed and delta time\nlet movement_distance = movement_factor * SPEED * time.delta_seconds();\n// create the change in translation using the new movement direction and distance\nlet translation_delta = movement_direction * movement_distance;\n// update the ship translation with our new translation delta\ntransform.translation += translation_delta;\n\n// bound the ship within the invisible level bounds\nlet extents = Vec3::from((BOUNDS / 2.0, 0.0));\ntransform.translation = transform.translation.min(extents).max(-extents);";

/// The body of the system that lets the player shoot.
pub const PLAYER_SHOOTING_BODY: &'static str = "const SIZE: f32 = 10.0;\n\nif keyboard_input.just_pressed(KeyCode::Space) {\n    if let Ok(tfm) = query.get_single() {\n        commands\n            .spawn(SpriteBundle {\n                transform: *tfm,\n                sprite: Sprite {\n                    color: Color::rgb(0.9, 0.8, 0.0),\n                    custom_size: Some(Vec2::new(SIZE, SIZE)),\n                    ..Default::default()\n                },\n                ..Default::default()\n            })\n            .insert(Bullet);\n    }\n        }";

/// The body of the system that moves the bullets.
pub const BULLET_MOVEMENT_BODY: &'static str = "let screen_size = cam.single().logical_viewport_size().unwrap() * 0.5;\nlet speed = 500.0;\nfor (entity, mut tfm) in &mut query {\n    let x = tfm\n        .rotation\n        .mul_vec3(Vec3::new(0.0, speed * time.delta_seconds(), 0.0));\n    tfm.translation += x;\n\n    if utilities::is_outside_bounds(\n        tfm.translation.truncate(),\n        (\n            (-screen_size.x),\n            screen_size.y,\n            screen_size.x,\n            (-screen_size.y),\n        ),\n    ) {\n        log::info!(\"pufff\");\n        commands.entity(entity).despawn();\n    }\n}";

/// The body of the system that takes out the ships that a bullet hits.
pub const BULLET_HIT_BODY: &'static str = "for bullet_tfm in bullet_query.iter() {\nfor (entity, ship_tfm) in ship_query.iter() {\n    if collide_aabb::collide(\n        bullet_tfm.translation,\n        Vec2::new(10.0, 10.0),\n        ship_tfm.translation,\n        Vec2::new(30.0, 30.0),\n    )\n    .is_some()\n        {\n            log::info!(\"BUUMMMM\");\n            commands.entity(entity).despawn();\n        }\n    }\n}\n";

/// The body of the system that keeps enough other ships about.
pub const SPAWN_OTHER_SHIPS_BODY: &'static str = "const MARGIN: f32 = 30.0;\nconst MIN_SHIP_COUNT: usize = 10;\n\nlet screen_size = cam.single().logical_viewport_size().unwrap() * 0.5;\nlet mut other_ships_count = 0;\n\nfor (entity, tfm) in others.iter() {\n    if utilities::is_outside_bounds(\n        tfm.translation.truncate(),\n        (\n            (-screen_size.x) - MARGIN,\n            screen_size.y + MARGIN,\n            screen_size.x + MARGIN,\n            (-screen_size.y) - MARGIN,\n        ),\n    ) {\n        commands.entity(entity).despawn();\n    } else {\n        other_ships_count += 1;\n    }\n}\n\nif other_ships_count < MIN_SHIP_COUNT {\n    let x = if thread_rng().gen::<bool>() {\n        thread_rng().gen_range(((-screen_size.x) - MARGIN)..(-screen_size.x))\n    } else {\n        thread_rng().gen_range(screen_size.x..(screen_size.x + MARGIN))\n    };\n    let y = if thread_rng().gen::<bool>() {\n        thread_rng().gen_range(((-screen_size.y) - MARGIN)..(-screen_size.y))\n    } else {\n        thread_rng().gen_range(screen_size.y..(screen_size.y + MARGIN))\n    };\n    let dir = thread_rng().gen_range(0.0f32..360.0f32);\n    let mut transform = Transform::from_xyz(x, y, 0.0);\n    transform.rotate_z(dir.to_radians());\n\n    commands\n        .spawn(SpriteBundle {\n            texture: asset_server.load(\"enemy_A.png\"),\n            transform,\n            ..default()\n        })\n        .insert(OtherShip);\n}";

/// The body of the system that moves the other ships.
pub const MOVE_OTHER_SHIPS_BODY: &'static str = "const SPEED: f32 = 100.0;\nfor mut tfm in &mut query {\n    let x = tfm\n        .rotation\n        .mul_vec3(Vec3::new(0.0, SPEED * time.delta_seconds(), 0.0));\n\n    tfm.translation += x;\n}";

/// The hand-written helpers of the systems.
pub const UTILITIES_CODE: &'static str = "use bevy::prelude::*;\n\npub const BOUNDS: Vec2 = Vec2::new(1200.0, 640.0);\n\npub(crate) fn is_outside_bounds(point: Vec2, bounds: (f32, f32, f32, f32)) -> bool {\n    let (left, top, right, bottom) = bounds;\n    point.x < left || point.x > right || point.y < bottom || point.y > top\n}";

/// The plugins of the engine, set to watch the assets for changes.
pub const WATCHING_PLUGINS: &'static str = "DefaultPlugins.set(AssetPlugin{watch_for_changes: true, ..default()})";

/// A public system of that name, parameters, body and attributes.
pub open spec fn game_system(
    name: Seq<char>,
    param: Seq<(Seq<char>, Seq<char>)>,
    content: Seq<char>,
    attributes: Seq<Seq<char>>,
) -> SystemView {
    SystemView { name, param, content, visibility: "pub"@, attributes }
}

/// An import of the systems file: the symbol paths taken from a registry
/// crate of that name and version.
pub open spec fn game_import(name: Seq<char>, version: Seq<char>, paths: Seq<Seq<char>>) -> ImportView {
    ImportView {
        used: Used::Systems,
        dependency: CargoDependencyView {
            name,
            dependency_type: DependencyTypeView::Crate(version),
            paths,
            features: Seq::empty(),
        },
    }
}

/// The startup systems of the game.
pub open spec fn game_startup_systems() -> Seq<SystemView> {
    seq![
        game_system("setup"@, seq![("mut commands"@, "Commands"@), ("asset_server"@, "Res<AssetServer>"@)], SETUP_BODY@, Seq::empty()),
    ]
}

/// The systems of the game that run every frame.
pub open spec fn game_systems() -> Seq<SystemView> {
    seq![
        game_system(
            "player_movement_system"@,
            seq![("keyboard_input"@, "Res<Input<KeyCode>>"@), ("mut query"@, "Query<(&Player, &mut Transform)>"@), ("time"@, "Res<Time>"@)],
            PLAYER_MOVEMENT_BODY@,
            seq!["no_mangle"@],
        ),
        game_system(
            "player_shooting_system"@,
            seq![("mut commands"@, "Commands"@), ("keyboard_input"@, "Res<Input<KeyCode>>"@), ("query"@, "Query<&Transform, With<Player>>"@)],
            PLAYER_SHOOTING_BODY@,
            seq!["no_mangle"@],
        ),
        game_system(
            "bullet_movement_system"@,
            seq![("mut commands"@, "Commands"@), ("mut query"@, "Query<(Entity, &mut Transform), With<Bullet>>"@), ("cam"@, "Query<&Camera>"@), ("time"@, "Res<Time>"@)],
            BULLET_MOVEMENT_BODY@,
            seq!["no_mangle"@],
        ),
        game_system(
            "bullet_hit_system"@,
            seq![("mut commands"@, "Commands"@), ("bullet_query"@, "Query<&Transform, With<Bullet>>"@), ("ship_query"@, "Query<(Entity, &Transform), With<OtherShip>>"@)],
            BULLET_HIT_BODY@,
            seq!["no_mangle"@],
        ),
        game_system(
            "spawn_other_ships"@,
            seq![("mut commands"@, "Commands"@), ("asset_server"@, "Res<AssetServer>"@), ("others"@, "Query<(Entity, &Transform), With<OtherShip>>"@), ("cam"@, "Query<&Camera>"@)],
            SPAWN_OTHER_SHIPS_BODY@,
            seq!["no_mangle"@],
        ),
        game_system(
            "move_other_ships"@,
            seq![("time"@, "Res<Time>"@), ("mut query"@, "Query<&mut Transform, With<OtherShip>>"@)],
            MOVE_OTHER_SHIPS_BODY@,
            seq!["no_mangle"@],
        ),
    ]
}

/// The imports of the game.
pub open spec fn game_imports() -> Seq<ImportView> {
    seq![
        game_import("rand"@, "0.8"@, seq!["thread_rng"@, "Rng"@]),
        game_import("bevy"@, "0.9"@, seq!["sprite::collide_aabb"@]),
        game_import("crate"@, "0.0"@, seq!["utilities::BOUNDS"@]),
    ]
}

/// The game: an application named `bevy_test` with one component for the
/// player, the plugins of the engine, one startup system, six systems, the
/// helpers of the systems as custom code, three imports and the flag that
/// lets its code be reloaded.
pub open spec fn game_template() -> BevyModelView {
    BevyModelView {
        meta: MetaView {
            name: "bevy_test"@,
            bevy_type: BevyTypeView::App,
            asset_path: "assets"@,
            po2_version: Po2Version::V0_0_1,
        },
        bevy_settings: SettingsView { features: seq![Feature::Dynamic], dev_features: Seq::empty() },
        plugins: seq![
            PluginView { name: WATCHING_PLUGINS@, is_group: true, dependencies: Seq::empty() },
        ],
        components: seq![
            ComponentView {
                name: "Player"@,
                content: seq![
                    ("velocity"@, "Vec3"@),
                    ("rotation_speed"@, "f32"@),
                    ("shooting_timer"@, "Option<f32>"@),
                ],
                is_reflected: true,
                attributes: Seq::empty(),
                derives: Seq::empty(),
            },
        ],
        startup_systems: game_startup_systems(),
        systems: game_systems(),
        custom: seq![
            CustomView::System(CustomCodeView { name: "utilities.rs"@, content: UTILITIES_CODE@ }),
        ],
        imports: game_imports(),
        examples: Seq::empty(),
    }
}

fn pair(name: &str, ty: &str) -> (out: (String, String))
    ensures
        out.deep_view() == (name@, ty@),
{
    (text(name), text(ty))
}

fn system(name: &str, param: Vec<(String, String)>, content: &str, attributes: Vec<String>) -> (out:
    System)
    ensures
        out@ == game_system(name@, param.deep_view(), content@, attributes.deep_view()),
{
    System { name: text(name), param, content: text(content), visibility: text("pub"), attributes }
}

fn no_mangle() -> (out: Vec<String>)
    ensures
        out.deep_view() == seq!["no_mangle"@],
{
    let mut out: Vec<String> = Vec::new();
    out.push(text("no_mangle"));
    assert(out.deep_view() =~= seq!["no_mangle"@]);
    out
}

fn import(name: &str, version: &str, paths: Vec<String>) -> (out: Import)
    ensures
        out@ == game_import(name@, version@, paths.deep_view()),
{
    let out = Import {
        used: Used::Systems,
        dependency: CargoDependency {
            name: text(name),
            dependency_type: DependencyType::Crate(text(version)),
            paths,
            features: Vec::new(),
        },
    };
    assert(out.dependency.features.deep_view() =~= Seq::empty());
    out
}

/// The model of the game.
pub fn default_game_template() -> (out: BevyModel)
    ensures
        out@ == game_template(),
{

    let mut fields: Vec<(String, String)> = Vec::new();
    fields.push(pair("velocity", "Vec3"));
    fields.push(pair("rotation_speed", "f32"));
    fields.push(pair("shooting_timer", "Option<f32>"));
    assert(fields.deep_view() =~= seq![("velocity"@, "Vec3"@), ("rotation_speed"@, "f32"@), ("shooting_timer"@, "Option<f32>"@)]);
    let player = Component {
        name: text("Player"),
        content: fields,
        is_reflected: true,
        attributes: Vec::new(),
        derives: Vec::new(),
    };
    assert(player.attributes.deep_view() =~= Seq::empty());
    assert(player.derives.deep_view() =~= Seq::empty());
    let mut components: Vec<Component> = Vec::new();
    components.push(player);
    assert(components.deep_view() =~= game_template().components);
    let watching = Plugin { name: text(WATCHING_PLUGINS), is_group: true, dependencies: Vec::new() };
    assert(watching.dependencies.deep_view() =~= Seq::empty());
    let mut plugins: Vec<Plugin> = Vec::new();
    plugins.push(watching);
    assert(plugins.deep_view() =~= game_template().plugins);

    let mut startup_systems: Vec<System> = Vec::new();
    let mut param_0: Vec<(String, String)> = Vec::new();
    param_0.push(pair("mut commands", "Commands"));
    param_0.push(pair("asset_server", "Res<AssetServer>"));
    assert(param_0.deep_view() =~= seq![("mut commands"@, "Commands"@), ("asset_server"@, "Res<AssetServer>"@)]);
    let attributes_0: Vec<String> = Vec::new();
    assert(attributes_0.deep_view() =~= Seq::<Seq<char>>::empty());
    startup_systems.push(system("setup", param_0, SETUP_BODY, attributes_0));
    assert(startup_systems.deep_view() =~= game_startup_systems());
    let mut systems: Vec<System> = Vec::new();
    let mut param_1: Vec<(String, String)> = Vec::new();
    param_1.push(pair("keyboard_input", "Res<Input<KeyCode>>"));
    param_1.push(pair("mut query", "Query<(&Player, &mut Transform)>"));
    param_1.push(pair("time", "Res<Time>"));
    assert(param_1.deep_view() =~= seq![("keyboard_input"@, "Res<Input<KeyCode>>"@), ("mut query"@, "Query<(&Player, &mut Transform)>"@), ("time"@, "Res<Time>"@)]);
    systems.push(system("player_movement_system", param_1, PLAYER_MOVEMENT_BODY, no_mangle()));
    assert(systems.deep_view() =~= game_systems().take(1));
    let mut param_2: Vec<(String, String)> = Vec::new();
    param_2.push(pair("mut commands", "Commands"));
    param_2.push(pair("keyboard_input", "Res<Input<KeyCode>>"));
    param_2.push(pair("query", "Query<&Transform, With<Player>>"));
    assert(param_2.deep_view() =~= seq![("mut commands"@, "Commands"@), ("keyboard_input"@, "Res<Input<KeyCode>>"@), ("query"@, "Query<&Transform, With<Player>>"@)]);
    systems.push(system("player_shooting_system", param_2, PLAYER_SHOOTING_BODY, no_mangle()));
    assert(systems.deep_view() =~= game_systems().take(2));
    let mut param_3: Vec<(String, String)> = Vec::new();
    param_3.push(pair("mut commands", "Commands"));
    param_3.push(pair("mut query", "Query<(Entity, &mut Transform), With<Bullet>>"));
    param_3.push(pair("cam", "Query<&Camera>"));
    param_3.push(pair("time", "Res<Time>"));
    assert(param_3.deep_view() =~= seq![("mut commands"@, "Commands"@), ("mut query"@, "Query<(Entity, &mut Transform), With<Bullet>>"@), ("cam"@, "Query<&Camera>"@), ("time"@, "Res<Time>"@)]);
    systems.push(system("bullet_movement_system", param_3, BULLET_MOVEMENT_BODY, no_mangle()));
    assert(systems.deep_view() =~= game_systems().take(3));
    let mut param_4: Vec<(String, String)> = Vec::new();
    param_4.push(pair("mut commands", "Commands"));
    param_4.push(pair("bullet_query", "Query<&Transform, With<Bullet>>"));
    param_4.push(pair("ship_query", "Query<(Entity, &Transform), With<OtherShip>>"));
    assert(param_4.deep_view() =~= seq![("mut commands"@, "Commands"@), ("bullet_query"@, "Query<&Transform, With<Bullet>>"@), ("ship_query"@, "Query<(Entity, &Transform), With<OtherShip>>"@)]);
    systems.push(system("bullet_hit_system", param_4, BULLET_HIT_BODY, no_mangle()));
    assert(systems.deep_view() =~= game_systems().take(4));
    let mut param_5: Vec<(String, String)> = Vec::new();
    param_5.push(pair("mut commands", "Commands"));
    param_5.push(pair("asset_server", "Res<AssetServer>"));
    param_5.push(pair("others", "Query<(Entity, &Transform), With<OtherShip>>"));
    param_5.push(pair("cam", "Query<&Camera>"));
    assert(param_5.deep_view() =~= seq![("mut commands"@, "Commands"@), ("asset_server"@, "Res<AssetServer>"@), ("others"@, "Query<(Entity, &Transform), With<OtherShip>>"@), ("cam"@, "Query<&Camera>"@)]);
    systems.push(system("spawn_other_ships", param_5, SPAWN_OTHER_SHIPS_BODY, no_mangle()));
    assert(systems.deep_view() =~= game_systems().take(5));
    let mut param_6: Vec<(String, String)> = Vec::new();
    param_6.push(pair("time", "Res<Time>"));
    param_6.push(pair("mut query", "Query<&mut Transform, With<OtherShip>>"));
    assert(param_6.deep_view() =~= seq![("time"@, "Res<Time>"@), ("mut query"@, "Query<&mut Transform, With<OtherShip>>"@)]);
    systems.push(system("move_other_ships", param_6, MOVE_OTHER_SHIPS_BODY, no_mangle()));
    assert(systems.deep_view() =~= game_systems().take(6));
    assert(game_systems().take(6) =~= game_systems());
    let mut custom: Vec<Custom> = Vec::new();
    custom.push(Custom::System(CustomCode { name: text("utilities.rs"), content: text(UTILITIES_CODE) }));
    assert(custom.deep_view() =~= game_template().custom);
    let mut imports: Vec<Import> = Vec::new();
    let mut paths_0: Vec<String> = Vec::new();
    paths_0.push(text("thread_rng"));
    paths_0.push(text("Rng"));
    assert(paths_0.deep_view() =~= seq!["thread_rng"@, "Rng"@]);
    imports.push(import("rand", "0.8", paths_0));
    let mut paths_1: Vec<String> = Vec::new();
    paths_1.push(text("sprite::collide_aabb"));
    assert(paths_1.deep_view() =~= seq!["sprite::collide_aabb"@]);
    imports.push(import("bevy", "0.9", paths_1));
    let mut paths_2: Vec<String> = Vec::new();
    paths_2.push(text("utilities::BOUNDS"));
    assert(paths_2.deep_view() =~= seq!["utilities::BOUNDS"@]);
    imports.push(import("crate", "0.0", paths_2));
    assert(imports.deep_view() =~= game_imports());
    let mut features: Vec<Feature> = Vec::new();
    features.push(Feature::Dynamic);
    let out = BevyModel {
        meta: Meta {
            name: text("bevy_test"),
            bevy_type: BevyType::App,
            asset_path: text("assets"),
            po2_version: Po2Version::V0_0_1,
        },
        bevy_settings: Settings { features, dev_features: Vec::new() },
        plugins,
        components,
        startup_systems,
        systems,
        custom,
        imports,
        examples: Vec::new(),
    };
    proof {
        assert(out@.bevy_settings.features =~= seq![Feature::Dynamic]);
        assert(out@.bevy_settings.dev_features =~= Seq::empty());
        assert(out@.examples =~= Seq::empty());
    }
    out
}

} // verus!
