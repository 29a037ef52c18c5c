use potoo::model::{
    BevyModel, BevyType, CargoDependency, Component, ConfirmPo2Version, DependencyType, Feature,
    Import, Meta, Plugin, Po2Version, ReadPo2Version, Settings, System, Used,
};
use potoo::parse::ParseBevyModel;

#[test]
fn converts_to_the_correct_version() {
    assert_eq!("0.0.1", Po2Version::V0_0_1.to_string())
}

#[test]
fn version_tag_is_the_variant_name() {
    assert_eq!(Po2Version::V0_0_1.tag(), "V0_0_1");
    assert_eq!(Po2Version::default(), Po2Version::V0_0_1);
}

#[test]
fn defaults_are_as_documented() {
    let meta = Meta::default();
    assert_eq!(meta.name, "bevy_default_meta");
    assert_eq!(meta.bevy_type, BevyType::App);
    assert_eq!(meta.asset_path, "assets");
    assert_eq!(meta.po2_version, Po2Version::V0_0_1);

    let system = System::default();
    assert_eq!(system.name, "test_system");
    assert!(system.param.is_empty());
    assert_eq!(system.content, "println(\"Hello Bevy!\")");
    assert_eq!(system.attributes, vec!["no_mangle".to_string()]);
    assert_eq!(system.visibility, "pub");

    let component = Component::default();
    assert_eq!(component.name, "TestComponent");
    assert!(component.content.is_empty());
    assert!(component.attributes.is_empty());
    assert!(component.derives.is_empty());
    assert!(component.is_reflected);

    let plugin = Plugin::default();
    assert_eq!(plugin.name, "DefaultPlugins");
    assert!(plugin.is_group);
    assert!(plugin.dependencies.is_empty());

    assert_eq!(DependencyType::default(), DependencyType::Crate("*".to_string()));
    assert_eq!(Used::default(), Used::Main);

    let dependency = CargoDependency::default();
    assert_eq!(dependency.name, "");
    assert_eq!(dependency.dependency_type, DependencyType::Crate("*".to_string()));
    assert!(dependency.paths.is_empty());
    assert!(dependency.features.is_empty());

    let import = Import::default();
    assert_eq!(import.used, Used::Main);
    assert_eq!(import.dependency, dependency);

    let settings = Settings::default();
    assert!(settings.features.is_empty());
    assert!(settings.dev_features.is_empty());
}

#[test]
fn default_model_is_empty() {
    let model = BevyModel::default();
    assert_eq!(model.meta, Meta::default());
    assert!(model.plugins.is_empty());
    assert!(model.components.is_empty());
    assert!(model.startup_systems.is_empty());
    assert!(model.systems.is_empty());
    assert!(model.custom.is_empty());
    assert!(model.imports.is_empty());
    assert!(model.examples.is_empty());
}

#[test]
fn clones_keep_every_field() {
    let system = System {
        name: "tick".to_string(),
        param: vec![("time".to_string(), "Res<Time>".to_string())],
        content: "body".to_string(),
        visibility: "".to_string(),
        attributes: vec!["a".to_string(), "b".to_string()],
    };
    assert_eq!(system.clone(), system);
    let component = Component {
        name: "Player".to_string(),
        content: vec![("x".to_string(), "f32".to_string())],
        is_reflected: false,
        attributes: vec!["a".to_string()],
        derives: vec!["Debug".to_string()],
    };
    assert_eq!(component.clone(), component);
}

#[test]
fn features_have_their_manifest_names() {
    assert_eq!(Feature::Default.to_feature(), "default");
    assert_eq!(Feature::BevyAudio.to_feature(), "bevy_audio");
    assert_eq!(Feature::X11.to_feature(), "x11");
    assert_eq!(Feature::FilesystemWatcher.to_feature(), "filesystem_watcher");
    assert_eq!(Feature::SubpixelGlyphAtlas.to_feature(), "subpixel_glyph_atlas");
    assert_eq!(Feature::Dynamic.to_feature(), "dynamic");
    assert_eq!(Feature::BevyAsset.to_feature(), "bevy_asset");
    assert_eq!(Feature::BevyDylib.to_feature(), "bevy_dylib");
}

#[test]
fn dependency_type_reads_as_debug() {
    assert_eq!(DependencyType::Crate("0.8".to_string()).to_string(), "Crate(\"0.8\")");
    assert_eq!(DependencyType::Path("../x".to_string()).to_string(), "Path(\"../x\")");
    assert_eq!(DependencyType::Internal.to_string(), "Internal");
    assert_eq!(
        DependencyType::Git("url".to_string(), Some("main".to_string()), None).to_string(),
        "Git(\"url\", Some(\"main\"), None)"
    );
    assert_eq!(
        DependencyType::Crate("a\"b".to_string()).to_string(),
        format!("{:?}", DependencyType::Crate("a\"b".to_string()))
    );
}

#[test]
fn meta_reads_as_debug() {
    let meta = Meta::default();
    assert_eq!(meta.debug_text(), format!("{:?}", meta));
    let plugin = Meta { bevy_type: BevyType::Plugin("My\"Plugin".to_string()), ..Meta::default() };
    assert_eq!(plugin.debug_text(), format!("{:?}", plugin));
    let group = Meta { bevy_type: BevyType::PluginGroup("G".to_string()), ..Meta::default() };
    assert_eq!(group.debug_text(), format!("{:?}", group));
    let example = Meta { bevy_type: BevyType::Example, ..Meta::default() };
    assert_eq!(example.debug_text(), format!("{:?}", example));
}

#[test]
fn summary_lists_names_under_titles() {
    let mut model = BevyModel::default();
    model.components.push(Component { name: "Player".to_string(), ..Component::default() });
    model.startup_systems.push(System { name: "setup".to_string(), ..System::default() });
    model.systems.push(System { name: "tick".to_string(), ..System::default() });
    model.systems.push(System { name: "tock".to_string(), ..System::default() });
    model.plugins.push(Plugin::default());
    let expected = "BevyModel:\n   Meta:\n       Meta { name: \"bevy_default_meta\", bevy_type: App, asset_path: \"assets\", po2_version: V0_0_1 }\n   Components:\n       Player\n\n   Startup Systems:\n       setup\n\n   Runtime Systems:\n       tick,\n       tock,\n\n   Plugins:\n       DefaultPlugins,\n";
    assert_eq!(model.to_string(), expected);
}

#[test]
fn summary_of_an_empty_model_has_only_titles() {
    let expected = "BevyModel:\n   Meta:\n       Meta { name: \"bevy_default_meta\", bevy_type: App, asset_path: \"assets\", po2_version: V0_0_1 }\n   Components:\n\n   Startup Systems:\n\n   Runtime Systems:\n\n   Plugins:\n";
    assert_eq!(BevyModel::default().to_string(), expected);
}

#[test]
fn parsed_imports_seed_a_model() {
    let parsed = ParseBevyModel {
        imports: vec![
            "bevy::prelude::*".to_string(),
            "std::path::{Path,PathBuf}".to_string(),
            "rand".to_string(),
        ],
        app_builder: vec![("run".to_string(), "".to_string())],
    };
    let model = BevyModel::from(parsed);
    assert_eq!(model.imports.len(), 3);
    assert_eq!(model.imports[0].used, Used::Main);
    assert_eq!(model.imports[0].dependency.name, "bevy");
    assert_eq!(model.imports[0].dependency.dependency_type, DependencyType::Crate("bevy".to_string()));
    assert_eq!(model.imports[0].dependency.paths, vec!["bevy::prelude::*".to_string()]);
    assert!(model.imports[0].dependency.features.is_empty());
    assert_eq!(model.imports[1].dependency.name, "std");
    assert_eq!(model.imports[1].dependency.paths, vec!["std::path::{Path,PathBuf}".to_string()]);
    assert_eq!(model.imports[2].dependency.name, "rand");
    assert_eq!(model.meta, Meta::default());
    assert!(model.systems.is_empty());
    assert!(model.plugins.is_empty());
}

#[test]
fn seeding_from_nothing_gives_the_default_model() {
    let model = BevyModel::from_parsed(ParseBevyModel::default());
    assert_eq!(model, BevyModel::default());
}

#[test]
fn saving_stamps_the_current_version() {
    let mut model = BevyModel::default();
    model.meta.name = "saved".to_string();
    let envelope = ReadPo2Version::save(model);
    assert_eq!(envelope.po2_version, Po2Version::V0_0_1);
    assert_eq!(envelope.model.meta.name, "saved");
    assert_eq!(ReadPo2Version::default().po2_version, Po2Version::V0_0_1);
    assert_eq!(ConfirmPo2Version::default().model, BevyModel::default());
}

#[test]
fn supported_version_loads_without_warning() {
    let mut model = BevyModel::default();
    model.meta.name = "kept".to_string();
    let loaded = ConfirmPo2Version::load("V0_0_1", model);
    assert_eq!(loaded.model.meta.name, "kept");
    assert_eq!(loaded.warning, None);
    assert_eq!(ConfirmPo2Version::version_of("V0_0_1"), Some(Po2Version::V0_0_1));
}

#[test]
fn unsupported_version_still_loads_with_a_warning() {
    let mut model = BevyModel::default();
    model.meta.name = "kept".to_string();
    model.systems.push(System::default());
    let loaded = ConfirmPo2Version::load("V9_9_9", model);
    assert_eq!(loaded.model.meta.name, "kept");
    assert_eq!(loaded.model.systems.len(), 1);
    assert_eq!(
        loaded.warning,
        Some("Warning: File is not compatible (V9_9_9) with current version 0.0.1".to_string())
    );
    assert_eq!(ConfirmPo2Version::version_of("V9_9_9"), None);
    assert_eq!(ConfirmPo2Version::version_of(""), None);
}
