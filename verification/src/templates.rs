//! The manifests of a generated project.

use vstd::prelude::*;
use vstd::string::*;
use crate::model::{
    BevyModel, BevyModelView, CargoDependency, CargoDependencyView, DependencyType,
    DependencyTypeView, Feature, Plugin, PluginView,
};
use crate::text::{join_text, lemma_join_push, text};

verus! {

/// The version of the engine that generated manifests ask for.
pub const BEVY_VERSION: &'static str = "0.9";

/// The manifest of the components crate up to the engine version.
pub const COMPONENTS_MANIFEST_HEAD: &'static str = "[package]\nname = \"components\"\nversion = \"0.1.0\"\nedition = \"2021\"\n\n# See more keys and their definitions at https://doc.rust-lang.org/cargo/reference/manifest.html\n\n[dependencies]\nbevy = \"";

/// The manifest of the components crate after the engine version.
pub const COMPONENTS_MANIFEST_TAIL: &'static str = "\"\n\n[features]\ndefault = []\ndynamic = [\"bevy/dynamic\"]\n";

/// The manifest of the systems crate up to the engine version.
pub const SYSTEMS_MANIFEST_HEAD: &'static str = "[package]\nname = \"systems\"\nversion = \"0.1.0\"\nedition = \"2021\"\n\n[lib]\ncrate-type = [\"rlib\", \"dylib\"]\n\n[dependencies]\nbevy = \"";

/// The manifest of the systems crate after the engine version.
pub const SYSTEMS_MANIFEST_TAIL: &'static str = "\"\ncomponents = { path = \"../components\" }\nlog = \"0.4.17\"\nrand = \"0.8.5\"\n\n[features]\ndefault = []\ndynamic = [\"bevy/dynamic\", \"components/dynamic\"]\n";

/// The manifest of the project up to its name.
pub const MANIFEST_PACKAGE: &'static str = "[package]\nname = \"";

/// The manifest of the project from its name to the dependencies of its plugins.
pub const MANIFEST_WORKSPACE: &'static str = "\"\nversion = \"0.1.0\"\nedition = \"2021\"\n\n[workspace]\nresolver = \"2\"\nmembers = [\"systems\", \"components\"]\n\n# Enable only a small amount of optimization in debug mode\n[profile.dev]\nopt-level = 1\n\n# Enable high optimizations for dependencies (incl. Bevy), but not for our code:\n[profile.dev.package.\"*\"]\nopt-level = 3\n\n# Maximize release performance with Link-Time-Optimization\n[profile.release]\nlto = \"thin\"\ncodegen-units = 1\n\n[features]\ndefault = []\nreload = [\n  \"dep:hot-lib-reloader\",\n  # Make sure that the types don't change:\n  \"components/dynamic\",\n  # This is important on windows for avoiding file locking issues:\n  \"bevy/dynamic\",\n]\n\n[dependencies]\ncomponents = { path = \"components\" }\nsystems = { path = \"systems\" }\nhot-lib-reloader = { version = \"0.6.5\", optional = true }\n";

/// The manifest of the project from those dependencies to the engine version.
pub const MANIFEST_ENGINE: &'static str = "\n\n[dependencies.bevy]\nversion = \"";

/// The manifest of the project from the flags of a build to the engine version of a development build.
pub const MANIFEST_DEV_ENGINE: &'static str = "\n\n[dev-dependencies.bevy]\nversion = \"";

/// A flag between double quotes.
pub open spec fn quoted_feature(feature: Feature) -> Seq<char> {
    "\""@ + feature.feature_name() + "\""@
}

/// The line that switches the default flags off when `features` is empty,
/// and else lists `features`, quoted, with commas between them.
pub open spec fn feature_line(features: Seq<Feature>) -> Seq<char> {
    if features.len() == 0 {
        "default-features = false"@
    } else {
        "features = ["@ + join_text(features.map_values(|f: Feature| quoted_feature(f)), ","@)
            + "]"@
    }
}

/// The manifest line of the flags of the engine.
pub fn feature_write(features: &Vec<Feature>) -> (out: String)
    ensures
        out@ == feature_line(features@),
{
    if features.len() == 0 {
        return text("default-features = false");
    }
    let ghost quoted = features@.map_values(|f: Feature| quoted_feature(f));
    let mut list = String::new();
    let mut i: usize = 0;
    assert(quoted.take(0) =~= Seq::empty());
    while i < features.len()
        invariant
            i <= features.len(),
            quoted == features@.map_values(|f: Feature| quoted_feature(f)),
            list@ == join_text(quoted.take(i as int), ","@),
        decreases features.len() - i,
    {
        proof {
            assert(quoted.take(i + 1) =~= quoted.take(i as int).push(quoted[i as int]));
            lemma_join_push(quoted.take(i as int), ","@, quoted[i as int]);
        }
        let ghost before = list@;
        if i != 0 {
            list.append(",");
        }
        let ghost sep = list@;
        list.append("\"");
        list.append(features[i].to_feature());
        list.append("\"");
        assert(list@ =~= sep + quoted_feature(features@[i as int]));
        assert(i != 0 ==> list@ =~= before + ","@ + quoted[i as int]);
        i += 1;
    }
    assert(quoted.take(features.len() as int) =~= quoted);
    let mut out = text("features = [");
    out.append(list.as_str());
    out.append("]");
    out
}

/// The manifest of the components crate.
pub open spec fn components_manifest() -> Seq<char> {
    COMPONENTS_MANIFEST_HEAD@ + BEVY_VERSION@ + COMPONENTS_MANIFEST_TAIL@
}

/// The manifest of the components crate.
pub fn default_cargo_components_template() -> (out: String)
    ensures
        out@ == components_manifest(),
{
    let mut out = text(COMPONENTS_MANIFEST_HEAD);
    out.append(BEVY_VERSION);
    out.append(COMPONENTS_MANIFEST_TAIL);
    out
}

/// The manifest of the systems crate.
pub open spec fn systems_manifest() -> Seq<char> {
    SYSTEMS_MANIFEST_HEAD@ + BEVY_VERSION@ + SYSTEMS_MANIFEST_TAIL@
}

/// The manifest of the systems crate.
pub fn default_cargo_systems_template() -> (out: String)
    ensures
        out@ == systems_manifest(),
{
    let mut out = text(SYSTEMS_MANIFEST_HEAD);
    out.append(BEVY_VERSION);
    out.append(SYSTEMS_MANIFEST_TAIL);
    out
}

/// `, key ="value"` for a value that is given, nothing for one that is not.
pub open spec fn optional_key(key: Seq<char>, value: Option<Seq<char>>) -> Seq<char> {
    match value {
        Some(v) => ", "@ + key + " =\""@ + v + "\""@,
        None => Seq::empty(),
    }
}

/// The manifest entry of one dependency: a version for a registry crate, a
/// table for a repository or a directory, nothing for a part of the project.
pub open spec fn dependency_line(dependency: CargoDependencyView) -> Seq<char> {
    match dependency.dependency_type {
        DependencyTypeView::Crate(version) => dependency.name + " = \""@ + version + "\""@,
        DependencyTypeView::Git(git, branch, rev) => dependency.name + " = { git = \""@ + git
            + "\""@ + optional_key("branch"@, branch) + optional_key("rev"@, rev) + " }"@,
        DependencyTypeView::Path(path) => dependency.name + " = { path = \""@ + path + "\" }"@,
        DependencyTypeView::Internal => Seq::empty(),
    }
}

/// The entries of `dependencies` written one after another.
pub open spec fn dependency_lines(dependencies: Seq<CargoDependencyView>) -> Seq<char>
    decreases dependencies.len(),
{
    if dependencies.len() == 0 {
        Seq::empty()
    } else {
        dependency_lines(dependencies.drop_last()) + dependency_line(dependencies.last())
    }
}

/// For each plugin the entries of its dependencies, with a line break
/// between one plugin and the next.
pub open spec fn plugin_dependencies(plugins: Seq<PluginView>) -> Seq<char> {
    join_text(plugins.map_values(|p: PluginView| dependency_lines(p.dependencies)), "\n"@)
}

/// The manifest of the project of `model`.
pub open spec fn project_manifest(model: BevyModelView) -> Seq<char> {
    MANIFEST_PACKAGE@ + model.meta.name + MANIFEST_WORKSPACE@ + plugin_dependencies(model.plugins)
        + MANIFEST_ENGINE@ + BEVY_VERSION@ + "\"\n"@ + feature_line(model.bevy_settings.features)
        + MANIFEST_DEV_ENGINE@ + BEVY_VERSION@ + "\"\n"@ + feature_line(
        model.bevy_settings.dev_features,
    ) + "\n"@
}

fn append_optional_key(out: &mut String, key: &str, value: &Option<String>)
    ensures
        final(out)@ == old(out)@ + optional_key(key@, value.deep_view()),
{
    match value {
        Some(v) => {
            out.append(", ");
            out.append(key);
            out.append(" =\"");
            out.append(v.as_str());
            out.append("\"");
            assert(out@ =~= old(out)@ + optional_key(key@, value.deep_view()));
        },
        None => {
            assert(out@ =~= old(out)@ + optional_key(key@, value.deep_view()));
        },
    }
}

fn append_dependency(out: &mut String, dependency: &CargoDependency)
    ensures
        final(out)@ == old(out)@ + dependency_line(dependency@),
{
    match &dependency.dependency_type {
        DependencyType::Crate(version) => {
            out.append(dependency.name.as_str());
            out.append(" = \"");
            out.append(version.as_str());
            out.append("\"");
        },
        DependencyType::Git(git, branch, rev) => {
            out.append(dependency.name.as_str());
            out.append(" = { git = \"");
            out.append(git.as_str());
            out.append("\"");
            append_optional_key(out, "branch", branch);
            append_optional_key(out, "rev", rev);
            out.append(" }");
        },
        DependencyType::Path(path) => {
            out.append(dependency.name.as_str());
            out.append(" = { path = \"");
            out.append(path.as_str());
            out.append("\" }");
        },
        DependencyType::Internal => {},
    }
    assert(out@ =~= old(out)@ + dependency_line(dependency@));
}

fn plugin_dependency_lines(plugin: &Plugin) -> (out: String)
    ensures
        out@ == dependency_lines(plugin@.dependencies),
{
    let ghost all = plugin@.dependencies;
    let mut out = String::new();
    let mut i: usize = 0;
    assert(all.take(0) =~= Seq::empty());
    while i < plugin.dependencies.len()
        invariant
            i <= plugin.dependencies.len(),
            all == plugin@.dependencies,
            out@ == dependency_lines(all.take(i as int)),
        decreases plugin.dependencies.len() - i,
    {
        proof {
            assert(all.take(i + 1).drop_last() =~= all.take(i as int));
            assert(all.take(i + 1).last() == plugin.dependencies[i as int]@);
        }
        append_dependency(&mut out, &plugin.dependencies[i]);
        i += 1;
    }
    assert(all.take(plugin.dependencies.len() as int) =~= all);
    out
}

/// The manifest of the project of `model`: its name, the workspace it forms
/// with its two crates, the dependencies of its plugins, and the engine with
/// the flags of a build and of a development build.
pub fn default_cargo_src_template(model: &BevyModel) -> (out: String)
    ensures
        out@ == project_manifest(model@),
{
    let ghost parts = model@.plugins.map_values(|p: PluginView| dependency_lines(p.dependencies));
    let mut crate_deps = String::new();
    let mut i: usize = 0;
    assert(parts.take(0) =~= Seq::empty());
    while i < model.plugins.len()
        invariant
            i <= model.plugins.len(),
            parts == model@.plugins.map_values(|p: PluginView| dependency_lines(p.dependencies)),
            crate_deps@ == join_text(parts.take(i as int), "\n"@),
        decreases model.plugins.len() - i,
    {
        proof {
            assert(parts.take(i + 1) =~= parts.take(i as int).push(parts[i as int]));
            lemma_join_push(parts.take(i as int), "\n"@, parts[i as int]);
            assert(parts[i as int] == dependency_lines(model.plugins[i as int]@.dependencies));
        }
        if i != 0 {
            crate_deps.append("\n");
        }
        let lines = plugin_dependency_lines(&model.plugins[i]);
        crate_deps.append(lines.as_str());
        i += 1;
    }
    assert(parts.take(model.plugins.len() as int) =~= parts);
    let features = feature_write(&model.bevy_settings.features);
    let dev_features = feature_write(&model.bevy_settings.dev_features);
    let mut out = text(MANIFEST_PACKAGE);
    out.append(model.meta.name.as_str());
    out.append(MANIFEST_WORKSPACE);
    out.append(crate_deps.as_str());
    out.append(MANIFEST_ENGINE);
    out.append(BEVY_VERSION);
    out.append("\"\n");
    out.append(features.as_str());
    out.append(MANIFEST_DEV_ENGINE);
    out.append(BEVY_VERSION);
    out.append("\"\n");
    out.append(dev_features.as_str());
    out.append("\n");
    out
}

} // verus!
