//! The structural model of an application: plugins, components, systems,
//! imports, custom code and settings.
//!
//! Every type has a view made of sequences, and the contracts of the library
//! speak of those views.

use vstd::prelude::*;
use vstd::string::*;
use crate::parse::{ParseBevyModel, ParseBevyModelView};
use crate::text::{before_first, debug_quoted, prefix_before, quoted, text};

verus! {

/// A copy of `pairs`, string by string.
pub fn clone_pairs(pairs: &Vec<(String, String)>) -> (out: Vec<(String, String)>)
    ensures
        out.deep_view() == pairs.deep_view(),
{
    let mut out: Vec<(String, String)> = Vec::new();
    let mut i: usize = 0;
    while i < pairs.len()
        invariant
            i <= pairs.len(),
            out.deep_view() == pairs.deep_view().take(i as int),
        decreases pairs.len() - i,
    {
        let ghost before = out.deep_view();
        out.push((pairs[i].0.clone(), pairs[i].1.clone()));
        proof {
            assert(out.deep_view() =~= before.push(pairs[i as int].deep_view()));
            assert(pairs.deep_view().take(i + 1) =~= pairs.deep_view().take(i as int).push(
                pairs[i as int].deep_view(),
            ));
        }
        i += 1;
    }
    proof {
        assert(pairs.deep_view().take(pairs.len() as int) =~= pairs.deep_view());
    }
    out
}

/// A copy of `items`, string by string.
pub fn clone_strings(items: &Vec<String>) -> (out: Vec<String>)
    ensures
        out.deep_view() == items.deep_view(),
{
    let out = items.clone();
    proof {
        assert(out.deep_view() =~= items.deep_view());
    }
    out
}

/// The version of the persisted format.
#[derive(Clone, Copy, Debug, PartialEq, Eq, Structural)]
#[non_exhaustive]
pub enum Po2Version {
    /// The latest format version, and the one that `default` gives.
    V0_0_1,
}

impl DeepView for Po2Version {
    type V = Po2Version;

    open spec fn deep_view(&self) -> Po2Version {
        *self
    }
}

impl Po2Version {
    /// The dotted text of the version.
    pub open spec fn dotted(self) -> Seq<char> {
        match self {
            Po2Version::V0_0_1 => "0.0.1"@,
        }
    }

    /// The version in dotted form, as in `0.0.1`.
    pub fn to_string(&self) -> (out: String)
        ensures
            out@ == self.dotted(),
    {
        match self {
            Po2Version::V0_0_1 => text("0.0.1"),
        }
    }
}

impl Default for Po2Version {
    fn default() -> (out: Self)
        ensures
            out == Po2Version::V0_0_1,
    {
        Po2Version::V0_0_1
    }
}

/// What kind of thing the model describes.
#[derive(Debug, PartialEq, Eq)]
pub enum BevyType {
    App,
    Plugin(String),
    PluginGroup(String),
    Example,
}

/// What a [`BevyType`] holds, with every string seen as its characters.
pub enum BevyTypeView {
    App,
    Plugin(Seq<char>),
    PluginGroup(Seq<char>),
    Example,
}

impl DeepView for BevyType {
    type V = BevyTypeView;

    open spec fn deep_view(&self) -> BevyTypeView {
        match self {
            BevyType::App => BevyTypeView::App,
            BevyType::Plugin(name) => BevyTypeView::Plugin(name@),
            BevyType::PluginGroup(name) => BevyTypeView::PluginGroup(name@),
            BevyType::Example => BevyTypeView::Example,
        }
    }
}

impl View for BevyType {
    type V = BevyTypeView;

    open spec fn view(&self) -> BevyTypeView {
        self.deep_view()
    }
}

impl Clone for BevyType {
    fn clone(&self) -> (out: Self)
        ensures
            out@ == self@,
    {
        match self {
            BevyType::App => BevyType::App,
            BevyType::Plugin(name) => BevyType::Plugin(name.clone()),
            BevyType::PluginGroup(name) => BevyType::PluginGroup(name.clone()),
            BevyType::Example => BevyType::Example,
        }
    }
}

/// Name, kind, asset path and format version of a model.
#[derive(Debug, PartialEq, Eq)]
pub struct Meta {
    pub name: String,
    pub bevy_type: BevyType,
    pub asset_path: String,
    pub po2_version: Po2Version,
}

/// What a [`Meta`] holds, with every string seen as its characters.
pub struct MetaView {
    pub name: Seq<char>,
    pub bevy_type: BevyTypeView,
    pub asset_path: Seq<char>,
    pub po2_version: Po2Version,
}

impl DeepView for Meta {
    type V = MetaView;

    open spec fn deep_view(&self) -> MetaView {
        MetaView {
            name: self.name@,
            bevy_type: self.bevy_type@,
            asset_path: self.asset_path@,
            po2_version: self.po2_version,
        }
    }
}

impl View for Meta {
    type V = MetaView;

    open spec fn view(&self) -> MetaView {
        self.deep_view()
    }
}

impl Clone for Meta {
    fn clone(&self) -> (out: Self)
        ensures
            out@ == self@,
    {
        Meta {
            name: self.name.clone(),
            bevy_type: self.bevy_type.clone(),
            asset_path: self.asset_path.clone(),
            po2_version: self.po2_version,
        }
    }
}

impl Meta {
    /// What `default` gives.
    pub open spec fn default_view() -> MetaView {
        MetaView {
            name: "bevy_default_meta"@,
            bevy_type: BevyTypeView::App,
            asset_path: "assets"@,
            po2_version: Po2Version::V0_0_1,
        }
    }
}

impl Default for Meta {
    fn default() -> (out: Self)
        ensures
            out@ == Meta::default_view(),
    {
        Meta {
            name: text("bevy_default_meta"),
            bevy_type: BevyType::App,
            asset_path: text("assets"),
            po2_version: Po2Version::V0_0_1,
        }
    }
}

/// A unit of behaviour: a function with parameters, attributes and a body
/// that is kept as opaque text.
#[derive(Debug, PartialEq, Eq)]
pub struct System {
    pub name: String,
    pub param: Vec<(String, String)>,
    pub content: String,
    pub visibility: String,
    pub attributes: Vec<String>,
}

/// What a [`System`] holds, with every string seen as its characters.
pub struct SystemView {
    pub name: Seq<char>,
    pub param: Seq<(Seq<char>, Seq<char>)>,
    pub content: Seq<char>,
    pub visibility: Seq<char>,
    pub attributes: Seq<Seq<char>>,
}

impl DeepView for System {
    type V = SystemView;

    open spec fn deep_view(&self) -> SystemView {
        SystemView {
            name: self.name@,
            param: self.param.deep_view(),
            content: self.content@,
            visibility: self.visibility@,
            attributes: self.attributes.deep_view(),
        }
    }
}

impl View for System {
    type V = SystemView;

    open spec fn view(&self) -> SystemView {
        self.deep_view()
    }
}

impl Clone for System {
    fn clone(&self) -> (out: Self)
        ensures
            out@ == self@,
    {
        System {
            name: self.name.clone(),
            param: clone_pairs(&self.param),
            content: self.content.clone(),
            visibility: self.visibility.clone(),
            attributes: clone_strings(&self.attributes),
        }
    }
}

/// A copy of `items`, entry by entry.
pub fn clone_systems(items: &Vec<System>) -> (out: Vec<System>)
    ensures
        out.deep_view() == items.deep_view(),
{
    let mut out: Vec<System> = Vec::new();
    let mut i: usize = 0;
    assert(out.deep_view() =~= items.deep_view().take(0));
    while i < items.len()
        invariant
            i <= items.len(),
            out.deep_view() == items.deep_view().take(i as int),
        decreases items.len() - i,
    {
        let ghost before = out.deep_view();
        let copy = items[i].clone();
        out.push(copy);
        proof {
            assert(out.deep_view() =~= before.push(copy@));
            assert(items.deep_view().take(i + 1) =~= items.deep_view().take(i as int).push(
                items[i as int]@,
            ));
        }
        i += 1;
    }
    assert(items.deep_view().take(items.len() as int) =~= items.deep_view());
    out
}

impl System {
    /// What `default` gives.
    pub open spec fn default_view() -> SystemView {
        SystemView {
            name: "test_system"@,
            param: Seq::empty(),
            content: "println(\"Hello Bevy!\")"@,
            visibility: "pub"@,
            attributes: seq!["no_mangle"@],
        }
    }
}

impl Default for System {
    fn default() -> (out: Self)
        ensures
            out@ == System::default_view(),
    {
        let mut attributes: Vec<String> = Vec::new();
        attributes.push(text("no_mangle"));
        let out = System {
            name: text("test_system"),
            param: Vec::new(),
            content: text("println(\"Hello Bevy!\")"),
            attributes,
            visibility: text("pub"),
        };
        proof {
            assert(out.param.deep_view() =~= Seq::empty());
            assert(out.attributes.deep_view() =~= seq!["no_mangle"@]);
        }
        out
    }
}

/// A typed data record: a name and its fields as (name, type) pairs.
#[derive(Debug, PartialEq, Eq)]
pub struct Component {
    pub name: String,
    pub content: Vec<(String, String)>,
    pub is_reflected: bool,
    pub attributes: Vec<String>,
    pub derives: Vec<String>,
}

/// What a [`Component`] holds, with every string seen as its characters.
pub struct ComponentView {
    pub name: Seq<char>,
    pub content: Seq<(Seq<char>, Seq<char>)>,
    pub is_reflected: bool,
    pub attributes: Seq<Seq<char>>,
    pub derives: Seq<Seq<char>>,
}

impl DeepView for Component {
    type V = ComponentView;

    open spec fn deep_view(&self) -> ComponentView {
        ComponentView {
            name: self.name@,
            content: self.content.deep_view(),
            is_reflected: self.is_reflected,
            attributes: self.attributes.deep_view(),
            derives: self.derives.deep_view(),
        }
    }
}

impl View for Component {
    type V = ComponentView;

    open spec fn view(&self) -> ComponentView {
        self.deep_view()
    }
}

impl Clone for Component {
    fn clone(&self) -> (out: Self)
        ensures
            out@ == self@,
    {
        Component {
            name: self.name.clone(),
            content: clone_pairs(&self.content),
            is_reflected: self.is_reflected,
            attributes: clone_strings(&self.attributes),
            derives: clone_strings(&self.derives),
        }
    }
}

/// A copy of `items`, entry by entry.
pub fn clone_components(items: &Vec<Component>) -> (out: Vec<Component>)
    ensures
        out.deep_view() == items.deep_view(),
{
    let mut out: Vec<Component> = Vec::new();
    let mut i: usize = 0;
    assert(out.deep_view() =~= items.deep_view().take(0));
    while i < items.len()
        invariant
            i <= items.len(),
            out.deep_view() == items.deep_view().take(i as int),
        decreases items.len() - i,
    {
        let ghost before = out.deep_view();
        let copy = items[i].clone();
        out.push(copy);
        proof {
            assert(out.deep_view() =~= before.push(copy@));
            assert(items.deep_view().take(i + 1) =~= items.deep_view().take(i as int).push(
                items[i as int]@,
            ));
        }
        i += 1;
    }
    assert(items.deep_view().take(items.len() as int) =~= items.deep_view());
    out
}

impl Component {
    /// What `default` gives.
    pub open spec fn default_view() -> ComponentView {
        ComponentView {
            name: "TestComponent"@,
            content: Seq::empty(),
            is_reflected: true,
            attributes: Seq::empty(),
            derives: Seq::empty(),
        }
    }
}

impl Default for Component {
    fn default() -> (out: Self)
        ensures
            out@ == Component::default_view(),
    {
        let out = Component {
            name: text("TestComponent"),
            content: Vec::new(),
            attributes: Vec::new(),
            derives: Vec::new(),
            is_reflected: true,
        };
        proof {
            assert(out.content.deep_view() =~= Seq::empty());
            assert(out.attributes.deep_view() =~= Seq::empty());
            assert(out.derives.deep_view() =~= Seq::empty());
        }
        out
    }
}

/// Where a dependency comes from.
#[derive(Debug, PartialEq, Eq)]
pub enum DependencyType {
    /// A registry crate, with its version requirement.
    Crate(String),
    /// A git repository: its address, then a branch and a revision if given.
    Git(String, Option<String>, Option<String>),
    /// A directory.
    Path(String),
    /// Part of the generated project itself.
    Internal,
}

/// What a [`DependencyType`] holds, with every string seen as its characters.
pub enum DependencyTypeView {
    Crate(Seq<char>),
    Git(Seq<char>, Option<Seq<char>>, Option<Seq<char>>),
    Path(Seq<char>),
    Internal,
}

impl DeepView for DependencyType {
    type V = DependencyTypeView;

    open spec fn deep_view(&self) -> DependencyTypeView {
        match self {
            DependencyType::Crate(version) => DependencyTypeView::Crate(version@),
            DependencyType::Git(git, branch, rev) => DependencyTypeView::Git(
                git@,
                branch.deep_view(),
                rev.deep_view(),
            ),
            DependencyType::Path(path) => DependencyTypeView::Path(path@),
            DependencyType::Internal => DependencyTypeView::Internal,
        }
    }
}

impl View for DependencyType {
    type V = DependencyTypeView;

    open spec fn view(&self) -> DependencyTypeView {
        self.deep_view()
    }
}

/// A copy of a string that may be missing.
pub fn clone_optional(value: &Option<String>) -> (out: Option<String>)
    ensures
        out.deep_view() == value.deep_view(),
{
    match value {
        Some(v) => Some(v.clone()),
        None => None,
    }
}

impl Clone for DependencyType {
    fn clone(&self) -> (out: Self)
        ensures
            out@ == self@,
    {
        match self {
            DependencyType::Crate(version) => DependencyType::Crate(version.clone()),
            DependencyType::Git(git, branch, rev) => DependencyType::Git(
                git.clone(),
                clone_optional(branch),
                clone_optional(rev),
            ),
            DependencyType::Path(path) => DependencyType::Path(path.clone()),
            DependencyType::Internal => DependencyType::Internal,
        }
    }
}

impl Default for DependencyType {
    fn default() -> (out: Self)
        ensures
            out@ == DependencyTypeView::Crate("*"@),
    {
        DependencyType::Crate(text("*"))
    }
}

/// A dependency: its name, its source, the symbol paths imported from it and
/// the features asked of it.
#[derive(Debug, PartialEq, Eq)]
pub struct CargoDependency {
    pub name: String,
    pub dependency_type: DependencyType,
    pub paths: Vec<String>,
    pub features: Vec<String>,
}

/// What a [`CargoDependency`] holds, with every string seen as its characters.
pub struct CargoDependencyView {
    pub name: Seq<char>,
    pub dependency_type: DependencyTypeView,
    pub paths: Seq<Seq<char>>,
    pub features: Seq<Seq<char>>,
}

impl DeepView for CargoDependency {
    type V = CargoDependencyView;

    open spec fn deep_view(&self) -> CargoDependencyView {
        CargoDependencyView {
            name: self.name@,
            dependency_type: self.dependency_type@,
            paths: self.paths.deep_view(),
            features: self.features.deep_view(),
        }
    }
}

impl View for CargoDependency {
    type V = CargoDependencyView;

    open spec fn view(&self) -> CargoDependencyView {
        self.deep_view()
    }
}

impl Clone for CargoDependency {
    fn clone(&self) -> (out: Self)
        ensures
            out@ == self@,
    {
        CargoDependency {
            name: self.name.clone(),
            dependency_type: self.dependency_type.clone(),
            paths: clone_strings(&self.paths),
            features: clone_strings(&self.features),
        }
    }
}

/// A copy of `items`, entry by entry.
pub fn clone_dependencies(items: &Vec<CargoDependency>) -> (out: Vec<CargoDependency>)
    ensures
        out.deep_view() == items.deep_view(),
{
    let mut out: Vec<CargoDependency> = Vec::new();
    let mut i: usize = 0;
    assert(out.deep_view() =~= items.deep_view().take(0));
    while i < items.len()
        invariant
            i <= items.len(),
            out.deep_view() == items.deep_view().take(i as int),
        decreases items.len() - i,
    {
        let ghost before = out.deep_view();
        let copy = items[i].clone();
        out.push(copy);
        proof {
            assert(out.deep_view() =~= before.push(copy@));
            assert(items.deep_view().take(i + 1) =~= items.deep_view().take(i as int).push(
                items[i as int]@,
            ));
        }
        i += 1;
    }
    assert(items.deep_view().take(items.len() as int) =~= items.deep_view());
    out
}

impl CargoDependency {
    /// What `default` gives.
    pub open spec fn default_view() -> CargoDependencyView {
        CargoDependencyView {
            name: Seq::empty(),
            dependency_type: DependencyTypeView::Crate("*"@),
            paths: Seq::empty(),
            features: Seq::empty(),
        }
    }
}

impl Default for CargoDependency {
    fn default() -> (out: Self)
        ensures
            out@ == CargoDependency::default_view(),
    {
        let out = CargoDependency {
            name: String::new(),
            dependency_type: DependencyType::default(),
            paths: Vec::new(),
            features: Vec::new(),
        };
        proof {
            assert(out.paths.deep_view() =~= Seq::empty());
            assert(out.features.deep_view() =~= Seq::empty());
        }
        out
    }
}

/// A pluggable module of the application.
#[derive(Debug, PartialEq, Eq)]
pub struct Plugin {
    pub name: String,
    pub is_group: bool,
    pub dependencies: Vec<CargoDependency>,
}

/// What a [`Plugin`] holds, with every string seen as its characters.
pub struct PluginView {
    pub name: Seq<char>,
    pub is_group: bool,
    pub dependencies: Seq<CargoDependencyView>,
}

impl DeepView for Plugin {
    type V = PluginView;

    open spec fn deep_view(&self) -> PluginView {
        PluginView {
            name: self.name@,
            is_group: self.is_group,
            dependencies: self.dependencies.deep_view(),
        }
    }
}

impl View for Plugin {
    type V = PluginView;

    open spec fn view(&self) -> PluginView {
        self.deep_view()
    }
}

impl Clone for Plugin {
    fn clone(&self) -> (out: Self)
        ensures
            out@ == self@,
    {
        Plugin {
            name: self.name.clone(),
            is_group: self.is_group,
            dependencies: clone_dependencies(&self.dependencies),
        }
    }
}

/// A copy of `items`, entry by entry.
pub fn clone_plugins(items: &Vec<Plugin>) -> (out: Vec<Plugin>)
    ensures
        out.deep_view() == items.deep_view(),
{
    let mut out: Vec<Plugin> = Vec::new();
    let mut i: usize = 0;
    assert(out.deep_view() =~= items.deep_view().take(0));
    while i < items.len()
        invariant
            i <= items.len(),
            out.deep_view() == items.deep_view().take(i as int),
        decreases items.len() - i,
    {
        let ghost before = out.deep_view();
        let copy = items[i].clone();
        out.push(copy);
        proof {
            assert(out.deep_view() =~= before.push(copy@));
            assert(items.deep_view().take(i + 1) =~= items.deep_view().take(i as int).push(
                items[i as int]@,
            ));
        }
        i += 1;
    }
    assert(items.deep_view().take(items.len() as int) =~= items.deep_view());
    out
}

impl Plugin {
    /// What `default` gives.
    pub open spec fn default_view() -> PluginView {
        PluginView { name: "DefaultPlugins"@, is_group: true, dependencies: Seq::empty() }
    }
}

impl Default for Plugin {
    fn default() -> (out: Self)
        ensures
            out@ == Plugin::default_view(),
    {
        let out = Plugin { name: text("DefaultPlugins"), is_group: true, dependencies: Vec::new() };
        proof {
            assert(out.dependencies.deep_view() =~= Seq::empty());
        }
        out
    }
}

/// A file of hand-written code: its file name and its text.
#[derive(Debug, PartialEq, Eq)]
pub struct CustomCode {
    pub name: String,
    pub content: String,
}

/// What a [`CustomCode`] holds, with every string seen as its characters.
pub struct CustomCodeView {
    pub name: Seq<char>,
    pub content: Seq<char>,
}

impl DeepView for CustomCode {
    type V = CustomCodeView;

    open spec fn deep_view(&self) -> CustomCodeView {
        CustomCodeView { name: self.name@, content: self.content@ }
    }
}

impl View for CustomCode {
    type V = CustomCodeView;

    open spec fn view(&self) -> CustomCodeView {
        self.deep_view()
    }
}

impl Clone for CustomCode {
    fn clone(&self) -> (out: Self)
        ensures
            out@ == self@,
    {
        CustomCode { name: self.name.clone(), content: self.content.clone() }
    }
}

/// Hand-written code, tagged by the generation target it belongs to.
#[derive(Debug, PartialEq, Eq)]
pub enum Custom {
    Main(CustomCode),
    Component(CustomCode),
    System(CustomCode),
}

/// What a [`Custom`] holds, with every string seen as its characters.
pub enum CustomView {
    Main(CustomCodeView),
    Component(CustomCodeView),
    System(CustomCodeView),
}

impl DeepView for Custom {
    type V = CustomView;

    open spec fn deep_view(&self) -> CustomView {
        match self {
            Custom::Main(code) => CustomView::Main(code@),
            Custom::Component(code) => CustomView::Component(code@),
            Custom::System(code) => CustomView::System(code@),
        }
    }
}

impl View for Custom {
    type V = CustomView;

    open spec fn view(&self) -> CustomView {
        self.deep_view()
    }
}

impl Clone for Custom {
    fn clone(&self) -> (out: Self)
        ensures
            out@ == self@,
    {
        match self {
            Custom::Main(code) => Custom::Main(code.clone()),
            Custom::Component(code) => Custom::Component(code.clone()),
            Custom::System(code) => Custom::System(code.clone()),
        }
    }
}

/// A copy of `items`, entry by entry.
pub fn clone_custom(items: &Vec<Custom>) -> (out: Vec<Custom>)
    ensures
        out.deep_view() == items.deep_view(),
{
    let mut out: Vec<Custom> = Vec::new();
    let mut i: usize = 0;
    assert(out.deep_view() =~= items.deep_view().take(0));
    while i < items.len()
        invariant
            i <= items.len(),
            out.deep_view() == items.deep_view().take(i as int),
        decreases items.len() - i,
    {
        let ghost before = out.deep_view();
        let copy = items[i].clone();
        out.push(copy);
        proof {
            assert(out.deep_view() =~= before.push(copy@));
            assert(items.deep_view().take(i + 1) =~= items.deep_view().take(i as int).push(
                items[i as int]@,
            ));
        }
        i += 1;
    }
    assert(items.deep_view().take(items.len() as int) =~= items.deep_view());
    out
}

/// The generated file in which an import is used.
#[derive(Clone, Copy, Debug, PartialEq, Eq, Structural)]
pub enum Used {
    Main,
    Components,
    Systems,
}

impl DeepView for Used {
    type V = Used;

    open spec fn deep_view(&self) -> Used {
        *self
    }
}

impl Default for Used {
    fn default() -> (out: Self)
        ensures
            out == Used::Main,
    {
        Used::Main
    }
}

/// An import: where it is used and what it brings in.
#[derive(Debug, PartialEq, Eq)]
pub struct Import {
    pub used: Used,
    pub dependency: CargoDependency,
}

/// What a [`Import`] holds, with every string seen as its characters.
pub struct ImportView {
    pub used: Used,
    pub dependency: CargoDependencyView,
}

impl DeepView for Import {
    type V = ImportView;

    open spec fn deep_view(&self) -> ImportView {
        ImportView { used: self.used, dependency: self.dependency@ }
    }
}

impl View for Import {
    type V = ImportView;

    open spec fn view(&self) -> ImportView {
        self.deep_view()
    }
}

impl Clone for Import {
    fn clone(&self) -> (out: Self)
        ensures
            out@ == self@,
    {
        Import { used: self.used, dependency: self.dependency.clone() }
    }
}

/// A copy of `items`, entry by entry.
pub fn clone_imports(items: &Vec<Import>) -> (out: Vec<Import>)
    ensures
        out.deep_view() == items.deep_view(),
{
    let mut out: Vec<Import> = Vec::new();
    let mut i: usize = 0;
    assert(out.deep_view() =~= items.deep_view().take(0));
    while i < items.len()
        invariant
            i <= items.len(),
            out.deep_view() == items.deep_view().take(i as int),
        decreases items.len() - i,
    {
        let ghost before = out.deep_view();
        let copy = items[i].clone();
        out.push(copy);
        proof {
            assert(out.deep_view() =~= before.push(copy@));
            assert(items.deep_view().take(i + 1) =~= items.deep_view().take(i as int).push(
                items[i as int]@,
            ));
        }
        i += 1;
    }
    assert(items.deep_view().take(items.len() as int) =~= items.deep_view());
    out
}

impl Default for Import {
    fn default() -> (out: Self)
        ensures
            out@ == (ImportView { used: Used::Main, dependency: CargoDependency::default_view() }),
    {
        Import { used: Used::Main, dependency: CargoDependency::default() }
    }
}

/// A capability flag of the engine, as its manifest knows it.
#[derive(Clone, Copy, Debug, PartialEq, Eq, Structural)]
pub enum Feature {
    Default,
    BevyAudio,
    BevyGilrs,
    BevyWinit,
    Render,
    Png,
    Hdr,
    Vorbis,
    X11,
    FilesystemWatcher,
    TraceChrome,
    TraceTracy,
    Wayland,
    WgpuTrace,
    BevyCiTesting,
    BevySprite,
    Dynamic,
    BevyUi,
    Tga,
    Serialize,
    Mp3,
    BevyCorePipeline,
    Wav,
    Trace,
    SubpixelGlyphAtlas,
    Bmp,
    BevyGltf,
    Dds,
    BevyDynamicPlugin,
    BevyRender,
    BevyText,
    BevyAsset,
    Flac,
    BevyPbr,
    Jpeg,
    BevyDylib,
}

impl DeepView for Feature {
    type V = Feature;

    open spec fn deep_view(&self) -> Feature {
        *self
    }
}

impl Feature {
    /// The name of the flag in a manifest.
    pub open spec fn feature_name(self) -> Seq<char> {
        match self {
            Feature::Default => "default"@,
            Feature::BevyAudio => "bevy_audio"@,
            Feature::BevyGilrs => "bevy_gilrs"@,
            Feature::BevyWinit => "bevy_winit"@,
            Feature::Render => "render"@,
            Feature::Png => "png"@,
            Feature::Hdr => "hdr"@,
            Feature::Vorbis => "vorbis"@,
            Feature::X11 => "x11"@,
            Feature::FilesystemWatcher => "filesystem_watcher"@,
            Feature::TraceChrome => "trace_chrome"@,
            Feature::TraceTracy => "trace_tracy"@,
            Feature::Wayland => "wayland"@,
            Feature::WgpuTrace => "wgpu_trace"@,
            Feature::BevyCiTesting => "bevy_ci_testing"@,
            Feature::BevySprite => "bevy_sprite"@,
            Feature::Dynamic => "dynamic"@,
            Feature::BevyUi => "bevy_ui"@,
            Feature::Tga => "tga"@,
            Feature::Serialize => "serialize"@,
            Feature::Mp3 => "mp3"@,
            Feature::BevyCorePipeline => "bevy_core_pipeline"@,
            Feature::Wav => "wav"@,
            Feature::Trace => "trace"@,
            Feature::SubpixelGlyphAtlas => "subpixel_glyph_atlas"@,
            Feature::Bmp => "bmp"@,
            Feature::BevyGltf => "bevy_gltf"@,
            Feature::Dds => "dds"@,
            Feature::BevyDynamicPlugin => "bevy_dynamic_plugin"@,
            Feature::BevyRender => "bevy_render"@,
            Feature::BevyText => "bevy_text"@,
            Feature::BevyAsset => "bevy_asset"@,
            Feature::Flac => "flac"@,
            Feature::BevyPbr => "bevy_pbr"@,
            Feature::Jpeg => "jpeg"@,
            Feature::BevyDylib => "bevy_dylib"@,
        }
    }

    /// The name of the flag in a manifest.
    pub fn to_feature(&self) -> (out: &'static str)
        ensures
            out@ == self.feature_name(),
    {
        match self {
            Feature::Default => "default",
            Feature::BevyAudio => "bevy_audio",
            Feature::BevyGilrs => "bevy_gilrs",
            Feature::BevyWinit => "bevy_winit",
            Feature::Render => "render",
            Feature::Png => "png",
            Feature::Hdr => "hdr",
            Feature::Vorbis => "vorbis",
            Feature::X11 => "x11",
            Feature::FilesystemWatcher => "filesystem_watcher",
            Feature::TraceChrome => "trace_chrome",
            Feature::TraceTracy => "trace_tracy",
            Feature::Wayland => "wayland",
            Feature::WgpuTrace => "wgpu_trace",
            Feature::BevyCiTesting => "bevy_ci_testing",
            Feature::BevySprite => "bevy_sprite",
            Feature::Dynamic => "dynamic",
            Feature::BevyUi => "bevy_ui",
            Feature::Tga => "tga",
            Feature::Serialize => "serialize",
            Feature::Mp3 => "mp3",
            Feature::BevyCorePipeline => "bevy_core_pipeline",
            Feature::Wav => "wav",
            Feature::Trace => "trace",
            Feature::SubpixelGlyphAtlas => "subpixel_glyph_atlas",
            Feature::Bmp => "bmp",
            Feature::BevyGltf => "bevy_gltf",
            Feature::Dds => "dds",
            Feature::BevyDynamicPlugin => "bevy_dynamic_plugin",
            Feature::BevyRender => "bevy_render",
            Feature::BevyText => "bevy_text",
            Feature::BevyAsset => "bevy_asset",
            Feature::Flac => "flac",
            Feature::BevyPbr => "bevy_pbr",
            Feature::Jpeg => "jpeg",
            Feature::BevyDylib => "bevy_dylib",
        }
    }
}

/// The capability flags of a build and of a development build, each in order.
#[derive(Debug, PartialEq, Eq)]
pub struct Settings {
    pub features: Vec<Feature>,
    pub dev_features: Vec<Feature>,
}

/// What a [`Settings`] holds, with every string seen as its characters.
pub struct SettingsView {
    pub features: Seq<Feature>,
    pub dev_features: Seq<Feature>,
}

impl DeepView for Settings {
    type V = SettingsView;

    open spec fn deep_view(&self) -> SettingsView {
        SettingsView { features: self.features@, dev_features: self.dev_features@ }
    }
}

impl View for Settings {
    type V = SettingsView;

    open spec fn view(&self) -> SettingsView {
        self.deep_view()
    }
}

impl Clone for Settings {
    fn clone(&self) -> (out: Self)
        ensures
            out@ == self@,
    {
        Settings { features: self.features.clone(), dev_features: self.dev_features.clone() }
    }
}

impl Default for Settings {
    fn default() -> (out: Self)
        ensures
            out@ == (SettingsView { features: Seq::empty(), dev_features: Seq::empty() }),
    {
        Settings { features: Vec::new(), dev_features: Vec::new() }
    }
}

/// The description of one application: what it is made of, in generation
/// order. Names are the only identity of plugins, components and systems.
#[derive(Debug, PartialEq, Eq)]
pub struct BevyModel {
    pub meta: Meta,
    pub bevy_settings: Settings,
    pub plugins: Vec<Plugin>,
    pub components: Vec<Component>,
    pub startup_systems: Vec<System>,
    pub systems: Vec<System>,
    pub custom: Vec<Custom>,
    pub imports: Vec<Import>,
    pub examples: Vec<BevyModel>,
}

/// What a [`BevyModel`] holds, with every string seen as its characters.
pub struct BevyModelView {
    pub meta: MetaView,
    pub bevy_settings: SettingsView,
    pub plugins: Seq<PluginView>,
    pub components: Seq<ComponentView>,
    pub startup_systems: Seq<SystemView>,
    pub systems: Seq<SystemView>,
    pub custom: Seq<CustomView>,
    pub imports: Seq<ImportView>,
    pub examples: Seq<BevyModelView>,
}

/// The view of a model: that of each of its parts, and for its examples the
/// views of the models that they are.
pub open spec fn model_view(model: BevyModel) -> BevyModelView
    decreases model, 0nat,
{
    BevyModelView {
        meta: model.meta@,
        bevy_settings: model.bevy_settings@,
        plugins: model.plugins.deep_view(),
        components: model.components.deep_view(),
        startup_systems: model.startup_systems.deep_view(),
        systems: model.systems.deep_view(),
        custom: model.custom.deep_view(),
        imports: model.imports.deep_view(),
        examples: model_views(model.examples@, model.examples@.len()),
    }
}

/// The views of the first `count` of `models`.
pub open spec fn model_views(models: Seq<BevyModel>, count: nat) -> Seq<BevyModelView>
    decreases models, count,
{
    if count == 0 || count > models.len() {
        Seq::empty()
    } else {
        model_views(models, (count - 1) as nat).push(model_view(models[count - 1]))
    }
}

/// The views of the first `count` models, one by one.
pub proof fn lemma_model_views(models: Seq<BevyModel>, count: nat)
    requires
        count <= models.len(),
    ensures
        model_views(models, count).len() == count,
        forall|k: int| 0 <= k < count ==> model_views(models, count)[k] == model_view(models[k]),
    decreases count,
{
    if count > 0 {
        lemma_model_views(models, (count - 1) as nat);
    }
}

/// The examples of a model are seen as the views of its example models.
pub proof fn lemma_examples_view(model: BevyModel)
    ensures
        model@.examples == model.examples.deep_view(),
{
    lemma_model_views(model.examples@, model.examples@.len());
    assert(model@.examples =~= model.examples.deep_view());
}

impl DeepView for BevyModel {
    type V = BevyModelView;

    open spec fn deep_view(&self) -> BevyModelView {
        model_view(*self)
    }
}

impl View for BevyModel {
    type V = BevyModelView;

    open spec fn view(&self) -> BevyModelView {
        self.deep_view()
    }
}

impl Clone for BevyModel {
    fn clone(&self) -> (out: Self)
        ensures
            out@ == self@,
        decreases self,
    {
        let mut examples: Vec<BevyModel> = Vec::new();
        let mut i: usize = 0;
        assert(examples.deep_view() =~= self.examples.deep_view().take(0));
        while i < self.examples.len()
            invariant
                i <= self.examples.len(),
                examples.deep_view() == self.examples.deep_view().take(i as int),
            decreases self.examples.len() - i,
        {
            let ghost before = examples.deep_view();
            let copy = self.examples[i].clone();
            examples.push(copy);
            proof {
                assert(examples.deep_view() =~= before.push(copy@));
                assert(self.examples.deep_view().take(i + 1) =~= self.examples.deep_view().take(
                    i as int,
                ).push(self.examples[i as int]@));
            }
            i += 1;
        }
        assert(self.examples.deep_view().take(self.examples.len() as int)
            =~= self.examples.deep_view());
        let out = BevyModel {
            meta: self.meta.clone(),
            bevy_settings: self.bevy_settings.clone(),
            plugins: clone_plugins(&self.plugins),
            components: clone_components(&self.components),
            startup_systems: clone_systems(&self.startup_systems),
            systems: clone_systems(&self.systems),
            custom: clone_custom(&self.custom),
            imports: clone_imports(&self.imports),
            examples,
        };
        proof {
            lemma_examples_view(out);
            lemma_examples_view(*self);
        }
        out
    }
}

impl BevyModel {
    /// What `default` gives.
    pub open spec fn default_view() -> BevyModelView {
        BevyModelView {
            meta: Meta::default_view(),
            bevy_settings: SettingsView { features: Seq::empty(), dev_features: Seq::empty() },
            plugins: Seq::empty(),
            components: Seq::empty(),
            startup_systems: Seq::empty(),
            systems: Seq::empty(),
            custom: Seq::empty(),
            imports: Seq::empty(),
            examples: Seq::empty(),
        }
    }
}

impl Default for BevyModel {
    fn default() -> (out: Self)
        ensures
            out@ == BevyModel::default_view(),
    {
        let out = BevyModel {
            meta: Meta::default(),
            bevy_settings: Settings::default(),
            plugins: Vec::new(),
            components: Vec::new(),
            startup_systems: Vec::new(),
            systems: Vec::new(),
            custom: Vec::new(),
            imports: Vec::new(),
            examples: Vec::new(),
        };
        proof {
            assert(out@.plugins =~= Seq::empty());
            assert(out@.components =~= Seq::empty());
            assert(out@.startup_systems =~= Seq::empty());
            assert(out@.systems =~= Seq::empty());
            assert(out@.custom =~= Seq::empty());
            assert(out@.imports =~= Seq::empty());
            assert(out@.examples =~= Seq::empty());
        }
        out
    }
}

/// A value that may be missing, as `Debug` writes it.
pub open spec fn optional_debug(value: Option<Seq<char>>) -> Seq<char> {
    match value {
        Some(v) => "Some("@ + debug_quoted(v) + ")"@,
        None => "None"@,
    }
}

/// The source of a dependency as `Debug` writes it.
pub open spec fn dependency_type_debug(kind: DependencyTypeView) -> Seq<char> {
    match kind {
        DependencyTypeView::Crate(version) => "Crate("@ + debug_quoted(version) + ")"@,
        DependencyTypeView::Git(git, branch, rev) => "Git("@ + debug_quoted(git) + ", "@
            + optional_debug(branch) + ", "@ + optional_debug(rev) + ")"@,
        DependencyTypeView::Path(path) => "Path("@ + debug_quoted(path) + ")"@,
        DependencyTypeView::Internal => "Internal"@,
    }
}

fn append_optional_debug(out: &mut String, value: &Option<String>)
    ensures
        final(out)@ == old(out)@ + optional_debug(value.deep_view()),
{
    match value {
        Some(v) => {
            let q = quoted(v.as_str());
            out.append("Some(");
            out.append(q.as_str());
            out.append(")");
            assert(out@ =~= old(out)@ + optional_debug(value.deep_view()));
        },
        None => {
            out.append("None");
        },
    }
}

impl DependencyType {
    /// The source of the dependency as `Debug` writes it.
    pub fn to_string(&self) -> (out: String)
        ensures
            out@ == dependency_type_debug(self@),
    {
        match self {
            DependencyType::Crate(version) => {
                let mut out = text("Crate(");
                out.append(quoted(version.as_str()).as_str());
                out.append(")");
                out
            },
            DependencyType::Git(git, branch, rev) => {
                let mut out = text("Git(");
                out.append(quoted(git.as_str()).as_str());
                out.append(", ");
                append_optional_debug(&mut out, branch);
                out.append(", ");
                append_optional_debug(&mut out, rev);
                out.append(")");
                out
            },
            DependencyType::Path(path) => {
                let mut out = text("Path(");
                out.append(quoted(path.as_str()).as_str());
                out.append(")");
                out
            },
            DependencyType::Internal => text("Internal"),
        }
    }
}

/// The kind of a model as `Debug` writes it.
pub open spec fn bevy_type_debug(kind: BevyTypeView) -> Seq<char> {
    match kind {
        BevyTypeView::App => "App"@,
        BevyTypeView::Plugin(name) => "Plugin("@ + debug_quoted(name) + ")"@,
        BevyTypeView::PluginGroup(name) => "PluginGroup("@ + debug_quoted(name) + ")"@,
        BevyTypeView::Example => "Example"@,
    }
}

/// The name of a version as `Debug` writes it, which is also its tag in a
/// persisted file.
pub open spec fn version_tag(version: Po2Version) -> Seq<char> {
    match version {
        Po2Version::V0_0_1 => "V0_0_1"@,
    }
}

/// The head of a model as `Debug` writes it.
pub open spec fn meta_debug(meta: MetaView) -> Seq<char> {
    "Meta { name: "@ + debug_quoted(meta.name) + ", bevy_type: "@ + bevy_type_debug(
        meta.bevy_type,
    ) + ", asset_path: "@ + debug_quoted(meta.asset_path) + ", po2_version: "@ + version_tag(
        meta.po2_version,
    ) + " }"@
}

impl Po2Version {
    /// The tag of the version in a persisted file.
    pub fn tag(&self) -> (out: &'static str)
        ensures
            out@ == version_tag(*self),
    {
        match self {
            Po2Version::V0_0_1 => "V0_0_1",
        }
    }
}

impl Meta {
    /// The head as `Debug` writes it.
    pub fn debug_text(&self) -> (out: String)
        ensures
            out@ == meta_debug(self@),
    {
        let mut out = text("Meta { name: ");
        out.append(quoted(self.name.as_str()).as_str());
        out.append(", bevy_type: ");
        let ghost before = out@;
        match &self.bevy_type {
            BevyType::App => {
                out.append("App");
            },
            BevyType::Plugin(name) => {
                out.append("Plugin(");
                out.append(quoted(name.as_str()).as_str());
                out.append(")");
            },
            BevyType::PluginGroup(name) => {
                out.append("PluginGroup(");
                out.append(quoted(name.as_str()).as_str());
                out.append(")");
            },
            BevyType::Example => {
                out.append("Example");
            },
        }
        assert(out@ =~= before + bevy_type_debug(self@.bevy_type));
        out.append(", asset_path: ");
        out.append(quoted(self.asset_path.as_str()).as_str());
        out.append(", po2_version: ");
        out.append(self.po2_version.tag());
        out.append(" }");
        out
    }
}

/// One line for each of `names`: seven spaces, the name, then `end`.
pub open spec fn listing(names: Seq<Seq<char>>, end: Seq<char>) -> Seq<char>
    decreases names.len(),
{
    if names.len() == 0 {
        Seq::empty()
    } else {
        listing(names.drop_last(), end) + "       "@ + names.last() + end
    }
}

/// The summary of a model: its head, then the names of its components, of
/// its startup systems, of its systems and of its plugins, each list under
/// its title.
pub open spec fn summary_text(model: BevyModelView) -> Seq<char> {
    "BevyModel:\n"@ + "   Meta:\n"@ + "       "@ + meta_debug(model.meta) + "\n"@
        + "   Components:\n"@ + listing(
        model.components.map_values(|c: ComponentView| c.name),
        "\n"@,
    ) + "\n"@ + "   Startup Systems:\n"@ + listing(
        model.startup_systems.map_values(|s: SystemView| s.name),
        "\n"@,
    ) + "\n"@ + "   Runtime Systems:\n"@ + listing(
        model.systems.map_values(|s: SystemView| s.name),
        ",\n"@,
    ) + "\n"@ + "   Plugins:\n"@ + listing(
        model.plugins.map_values(|p: PluginView| p.name),
        ",\n"@,
    )
}

fn append_line(out: &mut String, name: &str, end: &str)
    ensures
        final(out)@ == old(out)@ + "       "@ + name@ + end@,
{
    out.append("       ");
    out.append(name);
    out.append(end);
}

fn append_system_names(out: &mut String, systems: &Vec<System>, end: &str)
    ensures
        final(out)@ == old(out)@ + listing(
            systems.deep_view().map_values(|s: SystemView| s.name),
            end@,
        ),
{
    let ghost names = systems.deep_view().map_values(|s: SystemView| s.name);
    let mut i: usize = 0;
    assert(names.take(0) =~= Seq::empty());
    assert(out@ =~= old(out)@ + listing(names.take(0), end@));
    while i < systems.len()
        invariant
            i <= systems.len(),
            names == systems.deep_view().map_values(|s: SystemView| s.name),
            out@ == old(out)@ + listing(names.take(i as int), end@),
        decreases systems.len() - i,
    {
        proof {
            assert(names.take(i + 1).drop_last() =~= names.take(i as int));
            assert(names.take(i + 1).last() == systems[i as int]@.name);
        }
        let ghost before = out@;
        append_line(out, systems[i].name.as_str(), end);
        assert(out@ =~= old(out)@ + listing(names.take(i + 1), end@));
        i += 1;
    }
    assert(names.take(systems.len() as int) =~= names);
}

impl BevyModel {
    /// The summary of the model.
    pub fn to_string(&self) -> (out: String)
        ensures
            out@ == summary_text(self@),
    {
        let mut out = text("BevyModel:\n");
        out.append("   Meta:\n");
        out.append("       ");
        out.append(self.meta.debug_text().as_str());
        out.append("\n");
        out.append("   Components:\n");
        let ghost head = out@;
        let ghost names = self@.components.map_values(|c: ComponentView| c.name);
        let mut i: usize = 0;
        assert(names.take(0) =~= Seq::empty());
        assert(out@ =~= head + listing(names.take(0), "\n"@));
        while i < self.components.len()
            invariant
                i <= self.components.len(),
                names == self@.components.map_values(|c: ComponentView| c.name),
                out@ == head + listing(names.take(i as int), "\n"@),
            decreases self.components.len() - i,
        {
            proof {
                assert(names.take(i + 1).drop_last() =~= names.take(i as int));
                assert(names.take(i + 1).last() == self.components[i as int]@.name);
            }
            append_line(&mut out, self.components[i].name.as_str(), "\n");
            assert(out@ =~= head + listing(names.take(i + 1), "\n"@));
            i += 1;
        }
        assert(names.take(self.components.len() as int) =~= names);
        out.append("\n");
        out.append("   Startup Systems:\n");
        append_system_names(&mut out, &self.startup_systems, "\n");
        out.append("\n");
        out.append("   Runtime Systems:\n");
        append_system_names(&mut out, &self.systems, ",\n");
        out.append("\n");
        out.append("   Plugins:\n");
        let ghost head = out@;
        let ghost names = self@.plugins.map_values(|p: PluginView| p.name);
        let mut j: usize = 0;
        assert(names.take(0) =~= Seq::empty());
        assert(out@ =~= head + listing(names.take(0), ",\n"@));
        while j < self.plugins.len()
            invariant
                j <= self.plugins.len(),
                names == self@.plugins.map_values(|p: PluginView| p.name),
                out@ == head + listing(names.take(j as int), ",\n"@),
            decreases self.plugins.len() - j,
        {
            proof {
                assert(names.take(j + 1).drop_last() =~= names.take(j as int));
                assert(names.take(j + 1).last() == self.plugins[j as int]@.name);
            }
            append_line(&mut out, self.plugins[j].name.as_str(), ",\n");
            assert(out@ =~= head + listing(names.take(j + 1), ",\n"@));
            j += 1;
        }
        assert(names.take(self.plugins.len() as int) =~= names);
        assert(out@ =~= summary_text(self@));
        out
    }
}

/// The import that stands for one parsed path: used in the entry file, from
/// the registry crate named by the first segment of the path, bringing in
/// the path itself.
pub open spec fn parsed_import(path: Seq<char>) -> ImportView {
    ImportView {
        used: Used::Main,
        dependency: CargoDependencyView {
            name: before_first(path, "::"@),
            dependency_type: DependencyTypeView::Crate(before_first(path, "::"@)),
            paths: seq![path],
            features: Seq::empty(),
        },
    }
}

/// The model that a parsed file seeds: its imports, and nothing else.
pub open spec fn seeded(parsed: ParseBevyModelView) -> BevyModelView {
    BevyModelView {
        imports: parsed.imports.map_values(|p: Seq<char>| parsed_import(p)),
        ..BevyModel::default_view()
    }
}

impl BevyModel {
    /// The model that a parsed file seeds.
    pub fn from_parsed(value: ParseBevyModel) -> (out: BevyModel)
        ensures
            out@ == seeded(value@),
    {
        let mut out = BevyModel::default();
        let ghost all = value@.imports.map_values(|p: Seq<char>| parsed_import(p));
        let mut i: usize = 0;
        assert(out.imports.deep_view() =~= all.take(0));
        while i < value.imports.len()
            invariant
                i <= value.imports.len(),
                all == value@.imports.map_values(|p: Seq<char>| parsed_import(p)),
                out.imports.deep_view() == all.take(i as int),
                out@ == (BevyModelView { imports: out@.imports, ..BevyModel::default_view() }),
            decreases value.imports.len() - i,
        {
            let path = &value.imports[i];
            let name = prefix_before(path.as_str(), "::");
            let mut paths: Vec<String> = Vec::new();
            paths.push(path.clone());
            let import = Import {
                used: Used::Main,
                dependency: CargoDependency {
                    dependency_type: DependencyType::Crate(name.clone()),
                    name,
                    paths,
                    features: Vec::new(),
                },
            };
            proof {
                assert(import.dependency.paths.deep_view() =~= seq![path@]);
                assert(import.dependency.features.deep_view() =~= Seq::empty());
                assert(import@ == parsed_import(value@.imports[i as int]));
                assert(all.take(i + 1) =~= all.take(i as int).push(all[i as int]));
            }
            let ghost before = out.imports.deep_view();
            let ghost examples = out@.examples;
            out.imports.push(import);
            proof {
                assert(out.imports.deep_view() =~= before.push(import@));
                assert(out@.examples =~= examples);
            }
            i += 1;
        }
        assert(all.take(value.imports.len() as int) =~= all);
        out
    }
}

impl From<ParseBevyModel> for BevyModel {
    fn from(value: ParseBevyModel) -> (out: Self)
        ensures
            out@ == seeded(value@),
    {
        BevyModel::from_parsed(value)
    }
}

impl vstd::std_specs::convert::FromSpecImpl<ParseBevyModel> for BevyModel {
    open spec fn obeys_from_spec() -> bool {
        false
    }

    open spec fn from_spec(value: ParseBevyModel) -> BevyModel {
        arbitrary()
    }
}

/// A persisted model as it is read first: only the version counts, and the
/// model is the default one until the version is confirmed.
#[derive(Debug, PartialEq, Eq)]
pub struct ReadPo2Version {
    pub po2_version: Po2Version,
    pub model: BevyModel,
}

/// A persisted model whose version is confirmed.
#[derive(Debug, PartialEq, Eq)]
pub struct ConfirmPo2Version {
    pub po2_version: Po2Version,
    pub model: BevyModel,
}

impl Default for ReadPo2Version {
    fn default() -> (out: Self)
        ensures
            out.po2_version == Po2Version::V0_0_1,
            out.model@ == BevyModel::default_view(),
    {
        ReadPo2Version { po2_version: Po2Version::V0_0_1, model: BevyModel::default() }
    }
}

impl Default for ConfirmPo2Version {
    fn default() -> (out: Self)
        ensures
            out.po2_version == Po2Version::V0_0_1,
            out.model@ == BevyModel::default_view(),
    {
        ConfirmPo2Version { po2_version: Po2Version::V0_0_1, model: BevyModel::default() }
    }
}

impl ReadPo2Version {
    /// The envelope in which `model` is saved: it carries the current version.
    pub fn save(model: BevyModel) -> (out: Self)
        ensures
            out.po2_version == Po2Version::V0_0_1,
            out.model == model,
    {
        ReadPo2Version { po2_version: Po2Version::V0_0_1, model }
    }
}

/// Whether a persisted file that carries `tag` is of the supported version.
pub open spec fn supported(tag: Seq<char>) -> bool {
    tag == version_tag(Po2Version::V0_0_1)
}

/// What is said of a file of another version.
pub open spec fn version_warning(tag: Seq<char>) -> Seq<char> {
    "Warning: File is not compatible ("@ + tag + ") with current version "@
        + Po2Version::V0_0_1.dotted()
}

/// A model that was loaded, and what there is to say about its version.
#[derive(Debug, PartialEq, Eq)]
pub struct Loaded {
    pub model: BevyModel,
    pub warning: Option<String>,
}

impl ConfirmPo2Version {
    /// The version that `tag` names, if it is a supported one.
    pub fn version_of(tag: &str) -> (out: Option<Po2Version>)
        ensures
            out is Some <==> supported(tag@),
            out matches Some(v) ==> version_tag(v) == tag@,
    {
        let given = text(tag);
        let current = text(Po2Version::V0_0_1.tag());
        if given == current {
            Some(Po2Version::V0_0_1)
        } else {
            None
        }
    }

    /// Finishes a load: the model that was read is handed on whatever the
    /// version tag of its file says; a tag other than that of the supported
    /// version only adds a warning.
    pub fn load(tag: &str, model: BevyModel) -> (out: Loaded)
        ensures
            out.model == model,
            out.warning is Some <==> !supported(tag@),
            out.warning matches Some(w) ==> w@ == version_warning(tag@),
    {
        match ConfirmPo2Version::version_of(tag) {
            Some(_) => Loaded { model, warning: None },
            None => {
                let mut warning = text("Warning: File is not compatible (");
                warning.append(tag);
                warning.append(") with current version ");
                warning.append(Po2Version::V0_0_1.to_string().as_str());
                Loaded { model, warning: Some(warning) }
            },
        }
    }
}

} // verus!
