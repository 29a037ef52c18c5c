use potoo::generate::GenerationType;
use potoo::model::{BevyModel, Plugin, System};
use potoo::parse::{
    argument_signature, arguments_signature, field_value_text, method_signature, parse_file,
    parse_fn, parse_group, reversed, ParseBevyModel,
};
use potoo::syntax::{Argument, Expr, FieldValue, File, Item, UseTree};

fn lower_use(tree: &syn::UseTree) -> UseTree {
    match tree {
        syn::UseTree::Path(x) => UseTree::Path(x.ident.to_string(), Box::new(lower_use(&x.tree))),
        syn::UseTree::Name(x) => UseTree::Name(x.ident.to_string()),
        syn::UseTree::Rename(_) => UseTree::Rename,
        syn::UseTree::Glob(_) => UseTree::Glob,
        syn::UseTree::Group(x) => UseTree::Group(x.items.iter().map(lower_use).collect()),
    }
}

fn lower_literal(lit: &syn::Lit) -> String {
    match lit {
        syn::Lit::Str(x) => x.token().to_string(),
        syn::Lit::ByteStr(x) => x.token().to_string(),
        syn::Lit::Byte(x) => x.token().to_string(),
        syn::Lit::Char(x) => x.token().to_string(),
        syn::Lit::Int(x) => x.token().to_string(),
        syn::Lit::Float(x) => x.token().to_string(),
        syn::Lit::Bool(x) => x.token().to_string(),
        syn::Lit::Verbatim(x) => x.to_string(),
        _ => panic!("a literal of this form is not read"),
    }
}

fn lower_field(field: &syn::FieldValue) -> FieldValue {
    FieldValue {
        member: match &field.member {
            syn::Member::Named(x) => Some(x.to_string()),
            syn::Member::Unnamed(_) => None,
        },
        value: match &field.expr {
            syn::Expr::Lit(a) => Some(lower_literal(&a.lit)),
            _ => None,
        },
    }
}

fn lower_argument(argument: &syn::Expr) -> Argument {
    match argument {
        syn::Expr::Path(x) => Argument::Path(x.path.segments.first().map(|s| s.ident.to_string())),
        syn::Expr::Struct(x) => Argument::Struct(
            x.path.segments.first().map(|s| s.ident.to_string()),
            x.fields.iter().map(lower_field).collect(),
        ),
        _ => Argument::Other,
    }
}

fn lower_generic(generic: &syn::GenericArgument) -> Option<String> {
    match generic {
        syn::GenericArgument::Type(syn::Type::Path(z)) => {
            Some(z.path.segments.first().unwrap().ident.to_string())
        }
        _ => None,
    }
}

fn lower_expr(expr: &syn::Expr) -> Expr {
    match expr {
        syn::Expr::MethodCall(x) => Expr::MethodCall(
            Box::new(lower_expr(&x.receiver)),
            x.method.to_string(),
            x.turbofish.as_ref().map(|t| t.args.iter().map(lower_generic).collect()),
            x.args.iter().map(lower_argument).collect(),
        ),
        _ => Expr::Other,
    }
}

fn lower(file: syn::File) -> File {
    File {
        items: file
            .items
            .iter()
            .map(|item| match item {
                syn::Item::Fn(f) => Item::Fn(
                    f.sig.ident.to_string(),
                    match f.block.stmts.first() {
                        Some(syn::Stmt::Expr(x, _)) => Some(lower_expr(x)),
                        _ => None,
                    },
                ),
                syn::Item::Use(u) => Item::Use(lower_use(&u.tree)),
                _ => Item::Other,
            })
            .collect(),
    }
}

#[test]
fn parse_building_a_bevy_app_finds_systems() {
    let syntax = syn::parse_file(
        r#"fn main() {
    App::new()
        .insert_resource(Msaa { samples: 4 })
        .add_plugins(DefaultPlugins)
        .add_startup_system(setup)
        .test::<A,B>()
        .add_system(fade_transparency)
        .run();
    }"#,
    )
    .expect("Unable to parse file");
    let res = parse_file(lower(syntax));
    assert_eq!(
        res,
        Some(ParseBevyModel {
            app_builder: vec![
                ("insert_resource".to_string(), "Msaa{samples:4}".to_string()),
                ("add_plugins".to_string(), "DefaultPlugins".to_string()),
                ("add_startup_system".to_string(), "setup".to_string()),
                ("test::<A,B>".to_string(), "".to_string()),
                ("add_system".to_string(), "fade_transparency".to_string()),
                ("run".to_string(), "".to_string())
            ],
            ..Default::default()
        })
    );
}

#[test]
fn parse_use() {
    let bevy_file = r#"
        use bevy::{
            asset::{AssetIo, AssetIoError, Metadata},
            prelude::*,
            utils::BoxedFuture,
        };
        use std::path::{Path, PathBuf};
        "#;

    let res = parse_file(lower(syn::parse_file(bevy_file).expect("Unable to parse file")));
    println!("{res:?}");
    assert_eq!(
        res,
        Some(ParseBevyModel {
            imports: vec![
                "bevy::{asset::{AssetIo,AssetIoError,Metadata},prelude::*,utils::BoxedFuture}"
                    .to_string(),
                "std::path::{Path,PathBuf}".to_string()
            ],
            ..Default::default()
        })
    );
}

#[test]
fn parse_full_bevy_file() {
    let bevy_file = r#"
        use bevy::prelude::*;

        fn main() {
            App::new()
                .insert_resource(Msaa { samples: 4 })
                .add_plugins(DefaultPlugins)
                .add_startup_system(setup)
                .add_system(fade_transparency)
                .run();
        }
        
        fn setup(
            mut commands: Commands,
            mut meshes: ResMut<Assets<Mesh>>,
            mut materials: ResMut<Assets<StandardMaterial>>,
        ) {
            commands.spawn(PbrBundle {
                mesh: meshes.add(Mesh::from(shape::Plane { size: 6.0 })),
                material: materials.add(Color::rgb(0.3, 0.5, 0.3).into()),
                ..default()
            });
            
            commands.spawn(PbrBundle {
                mesh: meshes.add(Mesh::from(shape::Icosphere {
                    radius: 0.5,
                    subdivisions: 3,
                })),
                material: materials.add(StandardMaterial {
                    base_color: Color::rgba(0.2, 0.7, 0.1, 0.0),
                    alpha_mode: AlphaMode::Mask(0.5),
                    ..default()
                }),
                transform: Transform::from_xyz(1.0, 0.5, -1.5),
                ..default()
            });
            
            commands.spawn(PbrBundle {
                mesh: meshes.add(Mesh::from(shape::Icosphere {
                    radius: 0.5,
                    subdivisions: 3,
                })),
                material: materials.add(StandardMaterial {
                    base_color: Color::rgba(0.2, 0.7, 0.1, 0.0),
                    alpha_mode: AlphaMode::Mask(0.5),
                    unlit: true,
                    ..default()
                }),
                transform: Transform::from_xyz(-1.0, 0.5, -1.5),
                ..default()
            });
            
            commands.spawn(PbrBundle {
                mesh: meshes.add(Mesh::from(shape::Cube { size: 1.0 })),
                material: materials.add(Color::rgba(0.5, 0.5, 1.0, 0.0).into()),
                transform: Transform::from_xyz(0.0, 0.5, 0.0),
                ..default()
            });
            
            commands.spawn(PbrBundle {
                mesh: meshes.add(Mesh::from(shape::Icosphere {
                    radius: 0.5,
                    subdivisions: 3,
                })),
                material: materials.add(Color::rgb(0.7, 0.2, 0.1).into()),
                transform: Transform::from_xyz(0.0, 0.5, -1.5),
                ..default()
            });
            
            commands.spawn(PointLightBundle {
                point_light: PointLight {
                    intensity: 1500.0,
                    shadows_enabled: true,
                    ..default()
                },
                transform: Transform::from_xyz(4.0, 8.0, 4.0),
                ..default()
            });
            
            commands.spawn(Camera3dBundle {
                transform: Transform::from_xyz(-2.0, 3.0, 5.0).looking_at(Vec3::ZERO, Vec3::Y),
                ..default()
            });
        }
        
        pub fn fade_transparency(time: Res<Time>, mut materials: ResMut<Assets<StandardMaterial>>) {
            let alpha = (time.elapsed_seconds().sin() / 2.0) + 0.5;
            for (_, material) in materials.iter_mut() {
                material.base_color.set_a(alpha);
            }
        }
        "#;

    let res = parse_file(lower(syn::parse_file(bevy_file).expect("Unable to parse file")));
    assert_eq!(
        res,
        Some(ParseBevyModel {
            imports: vec!["bevy::prelude::*".to_string()],
            app_builder: vec![
                ("insert_resource".to_string(), "Msaa{samples:4}".to_string()),
                ("add_plugins".to_string(), "DefaultPlugins".to_string()),
                ("add_startup_system".to_string(), "setup".to_string()),
                ("add_system".to_string(), "fade_transparency".to_string()),
                ("run".to_string(), "".to_string())
            ],
            ..Default::default()
        })
    );
}

fn name(text: &str) -> UseTree {
    UseTree::Name(text.to_string())
}

fn path(segment: &str, rest: UseTree) -> UseTree {
    UseTree::Path(segment.to_string(), Box::new(rest))
}

#[test]
fn grouped_import_keeps_each_member_under_its_prefix() {
    let tree = path("pkg", UseTree::Group(vec![name("a"), path("b", UseTree::Group(vec![name("c"), name("d")]))]));
    let file = File { items: vec![Item::Use(tree)] };
    assert_eq!(
        parse_file(file),
        Some(ParseBevyModel { imports: vec!["pkg::{a,b::{c,d}}".to_string()], app_builder: vec![] })
    );
    let parsed = syn::parse_file("use pkg::{a, b::{c,d}};").expect("Unable to parse file");
    assert_eq!(
        parse_file(lower(parsed)),
        Some(ParseBevyModel { imports: vec!["pkg::{a,b::{c,d}}".to_string()], app_builder: vec![] })
    );
}

#[test]
fn use_tree_segments() {
    assert_eq!(potoo::parse::parse_use(vec![], &name("a")), vec!["a".to_string()]);
    assert_eq!(
        potoo::parse::parse_use(vec!["x".to_string()], &path("a", path("b", UseTree::Glob))),
        vec!["x".to_string(), "a".to_string(), "b".to_string(), "*".to_string()]
    );
    assert_eq!(potoo::parse::parse_use(vec!["x".to_string()], &UseTree::Rename), vec!["x".to_string()]);
    assert_eq!(potoo::parse::parse_use(vec![], &path("a", UseTree::Rename)), vec!["a".to_string()]);
    assert_eq!(potoo::parse::parse_use(vec![], &UseTree::Group(vec![])), vec!["{}".to_string()]);
}

#[test]
fn group_text_skips_members_without_segments() {
    assert_eq!(parse_group(&vec![]), "{}");
    assert_eq!(parse_group(&vec![name("a")]), "{a}");
    assert_eq!(parse_group(&vec![name("a"), UseTree::Rename, path("b", UseTree::Glob)]), "{a,b::*}");
    assert_eq!(
        parse_group(&vec![UseTree::Group(vec![name("a"), name("b")]), name("c")]),
        "{{a,b},c}"
    );
}

#[test]
fn renamed_import_gives_only_its_path() {
    let parsed = syn::parse_file("use a::b as c;").expect("Unable to parse file");
    assert_eq!(
        parse_file(lower(parsed)),
        Some(ParseBevyModel { imports: vec!["a".to_string()], app_builder: vec![] })
    );
}

fn field(member: Option<&str>, value: Option<&str>) -> FieldValue {
    FieldValue { member: member.map(|m| m.to_string()), value: value.map(|v| v.to_string()) }
}

#[test]
fn field_text_joins_name_and_value() {
    assert_eq!(field_value_text(&field(None, None)), None);
    assert_eq!(field_value_text(&field(None, Some("4"))), Some("4".to_string()));
    assert_eq!(field_value_text(&field(Some("samples"), None)), Some("samples".to_string()));
    assert_eq!(field_value_text(&field(Some("samples"), Some("4"))), Some("samples:4".to_string()));
}

#[test]
fn argument_text_by_shape() {
    assert_eq!(argument_signature(&Argument::Path(Some("setup".to_string()))), Some("setup".to_string()));
    assert_eq!(argument_signature(&Argument::Path(None)), None);
    assert_eq!(argument_signature(&Argument::Other), None);
    assert_eq!(
        argument_signature(&Argument::Struct(
            Some("Msaa".to_string()),
            vec![field(Some("samples"), Some("4")), field(None, None), field(Some("x"), None)]
        )),
        Some("Msaa{samples:4,x}".to_string())
    );
    assert_eq!(
        argument_signature(&Argument::Struct(None, vec![field(Some("a"), Some("\"s\""))])),
        Some("a:\"s\"".to_string())
    );
    assert_eq!(
        arguments_signature(&vec![
            Argument::Path(Some("a".to_string())),
            Argument::Other,
            Argument::Struct(Some("B".to_string()), vec![]),
        ]),
        "a,B{}"
    );
    assert_eq!(arguments_signature(&vec![]), "");
}

#[test]
fn method_name_with_generic_arguments() {
    let method = "test".to_string();
    assert_eq!(method_signature(&method, &None), "test");
    assert_eq!(method_signature(&method, &Some(vec![])), "test");
    assert_eq!(method_signature(&method, &Some(vec![None])), "test");
    assert_eq!(
        method_signature(&method, &Some(vec![Some("A".to_string()), Some("B".to_string())])),
        "test::<A,B>"
    );
    assert_eq!(method_signature(&method, &Some(vec![Some("A".to_string()), None])), "test::<A,>");
}

fn call(receiver: Expr, method: &str, argument: &str) -> Expr {
    Expr::MethodCall(
        Box::new(receiver),
        method.to_string(),
        None,
        vec![Argument::Path(Some(argument.to_string()))],
    )
}

#[test]
fn chain_is_collected_from_the_last_call_back() {
    let chain = call(call(call(Expr::Other, "a", "x"), "b", "y"), "c", "z");
    let init = ParseBevyModel {
        imports: vec!["kept".to_string()],
        app_builder: vec![("first".to_string(), "".to_string())],
    };
    let found = parse_fn(init, &chain);
    assert_eq!(found.imports, vec!["kept".to_string()]);
    assert_eq!(
        found.app_builder,
        vec![
            ("first".to_string(), "".to_string()),
            ("c".to_string(), "z".to_string()),
            ("b".to_string(), "y".to_string()),
            ("a".to_string(), "x".to_string()),
        ]
    );
    assert_eq!(
        reversed(&found.app_builder),
        vec![
            ("a".to_string(), "x".to_string()),
            ("b".to_string(), "y".to_string()),
            ("c".to_string(), "z".to_string()),
            ("first".to_string(), "".to_string()),
        ]
    );
    assert_eq!(parse_fn(ParseBevyModel::default(), &Expr::Other), ParseBevyModel::default());
}

#[test]
fn file_without_imports_or_entry_chain_gives_nothing() {
    assert_eq!(parse_file(File { items: vec![] }), None);
    assert_eq!(parse_file(File { items: vec![Item::Other] }), None);
    assert_eq!(parse_file(File { items: vec![Item::Fn("main".to_string(), None)] }), None);
    assert_eq!(parse_file(File { items: vec![Item::Fn("main".to_string(), Some(Expr::Other))] }), None);
    assert_eq!(
        parse_file(File { items: vec![Item::Fn("other".to_string(), Some(call(Expr::Other, "a", "x")))] }),
        None
    );
    let parsed = syn::parse_file("fn main() { let x = 1; }").expect("Unable to parse file");
    assert_eq!(parse_file(lower(parsed)), None);
}

#[test]
fn last_entry_function_with_a_chain_wins() {
    let file = File {
        items: vec![
            Item::Fn("main".to_string(), Some(call(Expr::Other, "a", "x"))),
            Item::Fn("main".to_string(), Some(call(Expr::Other, "b", "y"))),
            Item::Fn("main".to_string(), None),
        ],
    };
    assert_eq!(
        parse_file(file),
        Some(ParseBevyModel { imports: vec![], app_builder: vec![("b".to_string(), "y".to_string())] })
    );
}

#[test]
fn generated_entry_chain_parses_back_call_by_call() {
    let mut model = BevyModel::default();
    model.plugins.push(Plugin { name: "DefaultPlugins".to_string(), is_group: true, dependencies: vec![] });
    model.plugins.push(Plugin { name: "Extra".to_string(), is_group: false, dependencies: vec![] });
    model.startup_systems.push(System { name: "setup".to_string(), ..System::default() });
    model.systems.push(System { name: "tick".to_string(), ..System::default() });
    model.systems.push(System { name: "tock".to_string(), ..System::default() });
    let text = model.source_text(GenerationType::Main);
    let parsed = parse_file(lower(syn::parse_file(&text).expect("Unable to parse file")));
    assert_eq!(
        parsed,
        Some(ParseBevyModel {
            imports: vec![],
            app_builder: vec![
                ("add_plugins".to_string(), "DefaultPlugins".to_string()),
                ("add_plugin".to_string(), "Extra".to_string()),
                ("add_startup_system".to_string(), "systems".to_string()),
                ("add_system".to_string(), "tick".to_string()),
                ("add_system".to_string(), "tock".to_string()),
                ("run".to_string(), "".to_string()),
            ],
        })
    );
}
