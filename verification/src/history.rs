//! Edits of a model as actions that can be applied, undone and redone, and
//! the log that keeps them.

use vstd::prelude::*;
use vstd::string::*;
use crate::model::{
    clone_pairs, clone_strings, BevyModel, BevyModelView, Component, ComponentView, Po2Version,
    ReadPo2Version, System, SystemView,
};

verus! {

/// The position of the first of `names` at or after `from` that equals
/// `name`, or the length of `names` when there is none.
pub open spec fn first_named(names: Seq<Seq<char>>, name: Seq<char>, from: int) -> int
    decreases names.len() - from,
{
    if from < 0 || from >= names.len() {
        names.len() as int
    } else if names[from] == name {
        from
    } else {
        first_named(names, name, from + 1)
    }
}

/// Whether exactly one of `names` equals `name`.
pub open spec fn named_once(names: Seq<Seq<char>>, name: Seq<char>) -> bool {
    let at = first_named(names, name, 0);
    at < names.len() && first_named(names, name, at + 1) == names.len()
}

/// The names of the components of `list`, in order.
pub open spec fn component_names(list: Seq<ComponentView>) -> Seq<Seq<char>> {
    list.map_values(|c: ComponentView| c.name)
}

/// The names of the systems of `list`, in order.
pub open spec fn system_names(list: Seq<SystemView>) -> Seq<Seq<char>> {
    list.map_values(|s: SystemView| s.name)
}

/// Where the first `name` at or after `from` stands: in the list or at its
/// end, on an entry of that name, with no such entry before it.
pub proof fn lemma_first_named(names: Seq<Seq<char>>, name: Seq<char>, from: int)
    requires
        0 <= from <= names.len(),
    ensures
        from <= first_named(names, name, from) <= names.len(),
        first_named(names, name, from) < names.len() ==> names[first_named(names, name, from)]
            == name,
        forall|k: int| from <= k < first_named(names, name, from) ==> names[k] != name,
    decreases names.len() - from,
{
    if from < names.len() && names[from] != name {
        lemma_first_named(names, name, from + 1);
    }
}

/// The first position is the only one at which a name that occurs once stands.
pub proof fn lemma_named_once(names: Seq<Seq<char>>, name: Seq<char>, at: int)
    requires
        0 <= at < names.len(),
        names[at] == name,
        forall|k: int| 0 <= k < names.len() && k != at ==> names[k] != name,
    ensures
        first_named(names, name, 0) == at,
        named_once(names, name),
{
    lemma_first_named(names, name, 0);
    lemma_first_named(names, name, at + 1);
}

/// Something that is found by its name.
pub trait Named: Sized {
    spec fn name_view(&self) -> Seq<char>;

    fn name(&self) -> (n: &String)
        ensures
            n@ == self.name_view(),
    ;
}

impl Named for Component {
    open spec fn name_view(&self) -> Seq<char> {
        self.name@
    }

    fn name(&self) -> (n: &String) {
        &self.name
    }
}

impl Named for System {
    open spec fn name_view(&self) -> Seq<char> {
        self.name@
    }

    fn name(&self) -> (n: &String) {
        &self.name
    }
}

/// The names of the entries of `list`, in order.
pub open spec fn names_of<T: Named>(list: Seq<T>) -> Seq<Seq<char>> {
    list.map_values(|t: T| t.name_view())
}

/// The position of the first entry of `list` at or after `from` that is
/// called `name`, or the length of `list`.
pub fn find_named<T: Named>(list: &Vec<T>, name: &String, from: usize) -> (at: usize)
    requires
        from <= list.len(),
    ensures
        at as int == first_named(names_of(list@), name@, from as int),
        from <= at <= list.len(),
{
    let mut i: usize = from;
    while i < list.len()
        invariant
            from <= i <= list.len(),
            first_named(names_of(list@), name@, from as int) == first_named(
                names_of(list@),
                name@,
                i as int,
            ),
        decreases list.len() - i,
    {
        assert(names_of(list@)[i as int] == list@[i as int].name_view());
        if *list[i].name() == *name {
            return i;
        }
        i += 1;
    }
    i
}

/// The position of the one entry of `list` called `name`; `None` when no
/// entry or more than one carries that name.
pub fn find_once<T: Named>(list: &Vec<T>, name: &String) -> (at: Option<usize>)
    ensures
        at is Some <==> named_once(names_of(list@), name@),
        at matches Some(i) ==> i as int == first_named(names_of(list@), name@, 0) && i
            < list.len(),
{
    let first = find_named(list, name, 0);
    if first == list.len() {
        return None;
    }
    let next = find_named(list, name, first + 1);
    if next == list.len() {
        Some(first)
    } else {
        None
    }
}

/// Takes out of `list` the one entry called `name`.
pub fn remove_named<T: Named>(list: &mut Vec<T>, name: &String)
    requires
        named_once(names_of(old(list)@), name@),
    ensures
        final(list)@ == old(list)@.remove(first_named(names_of(old(list)@), name@, 0)),
{
    let at = find_named(list, name, 0);
    let _ = list.remove(at);
}

/// Puts `with` in the place of the one entry of `list` called `name`.
pub fn replace_named<T: Named>(list: &mut Vec<T>, name: &String, with: T)
    requires
        named_once(names_of(old(list)@), name@),
    ensures
        final(list)@ == old(list)@.update(first_named(names_of(old(list)@), name@, 0), with),
{
    let at = find_named(list, name, 0);
    let _ = list.remove(at);
    list.insert(at, with);
    assert(list@ =~= old(list)@.update(at as int, with));
}

/// The names of components are those of their views.
pub proof fn lemma_component_names(list: Vec<Component>)
    ensures
        names_of(list@) == component_names(list.deep_view()),
{
    assert(names_of(list@) =~= component_names(list.deep_view()));
}

/// The names of systems are those of their views.
pub proof fn lemma_system_names(list: Vec<System>)
    ensures
        names_of(list@) == system_names(list.deep_view()),
{
    assert(names_of(list@) =~= system_names(list.deep_view()));
}

/// An edit of a model. An update carries the entry as it was before and as
/// it is to be after, in that order, so that it can be taken back.
#[derive(Debug)]
#[non_exhaustive]
pub enum PotooEvent {
    AddComponent(Component),
    AddStartupSystem(System),
    AddRunTimeSystem(System),
    RemoveComponent(Component),
    RemoveStartupSystem(System),
    RemoveRunTimeSystem(System),
    UpdateComponent(Component, Component),
    UpdateStartupSystem(System, System),
    UpdateRunTimeSystem(System, System),
}

/// What a [`PotooEvent`] holds, with every string seen as its characters.
pub enum PotooEventView {
    AddComponent(ComponentView),
    AddStartupSystem(SystemView),
    AddRunTimeSystem(SystemView),
    RemoveComponent(ComponentView),
    RemoveStartupSystem(SystemView),
    RemoveRunTimeSystem(SystemView),
    UpdateComponent(ComponentView, ComponentView),
    UpdateStartupSystem(SystemView, SystemView),
    UpdateRunTimeSystem(SystemView, SystemView),
}

impl DeepView for PotooEvent {
    type V = PotooEventView;

    open spec fn deep_view(&self) -> PotooEventView {
        match self {
            PotooEvent::AddComponent(c) => PotooEventView::AddComponent(c@),
            PotooEvent::AddStartupSystem(s) => PotooEventView::AddStartupSystem(s@),
            PotooEvent::AddRunTimeSystem(s) => PotooEventView::AddRunTimeSystem(s@),
            PotooEvent::RemoveComponent(c) => PotooEventView::RemoveComponent(c@),
            PotooEvent::RemoveStartupSystem(s) => PotooEventView::RemoveStartupSystem(s@),
            PotooEvent::RemoveRunTimeSystem(s) => PotooEventView::RemoveRunTimeSystem(s@),
            PotooEvent::UpdateComponent(a, b) => PotooEventView::UpdateComponent(a@, b@),
            PotooEvent::UpdateStartupSystem(a, b) => PotooEventView::UpdateStartupSystem(a@, b@),
            PotooEvent::UpdateRunTimeSystem(a, b) => PotooEventView::UpdateRunTimeSystem(a@, b@),
        }
    }
}

impl View for PotooEvent {
    type V = PotooEventView;

    open spec fn view(&self) -> PotooEventView {
        self.deep_view()
    }
}

impl Clone for PotooEvent {
    fn clone(&self) -> (out: Self)
        ensures
            out@ == self@,
    {
        match self {
            PotooEvent::AddComponent(c) => PotooEvent::AddComponent(c.clone()),
            PotooEvent::AddStartupSystem(s) => PotooEvent::AddStartupSystem(s.clone()),
            PotooEvent::AddRunTimeSystem(s) => PotooEvent::AddRunTimeSystem(s.clone()),
            PotooEvent::RemoveComponent(c) => PotooEvent::RemoveComponent(c.clone()),
            PotooEvent::RemoveStartupSystem(s) => PotooEvent::RemoveStartupSystem(s.clone()),
            PotooEvent::RemoveRunTimeSystem(s) => PotooEvent::RemoveRunTimeSystem(s.clone()),
            PotooEvent::UpdateComponent(a, b) => PotooEvent::UpdateComponent(a.clone(), b.clone()),
            PotooEvent::UpdateStartupSystem(a, b) => PotooEvent::UpdateStartupSystem(
                a.clone(),
                b.clone(),
            ),
            PotooEvent::UpdateRunTimeSystem(a, b) => PotooEvent::UpdateRunTimeSystem(
                a.clone(),
                b.clone(),
            ),
        }
    }
}

/// Whether an edit can be served by reloading code into the running
/// application or needs the project rebuilt.
#[derive(Clone, Copy, Debug, PartialEq, Eq, Structural)]
pub enum ReloadType {
    /// The project has to be generated and built again.
    RequireReload,
    /// The running application takes the change as it is.
    NoReload,
}

/// Only the update of a runtime system is served without a rebuild.
pub fn reload_get_type(event: PotooEvent) -> (kind: ReloadType)
    ensures
        kind == if event@ is UpdateRunTimeSystem {
            ReloadType::NoReload
        } else {
            ReloadType::RequireReload
        },
{
    match event {
        PotooEvent::UpdateRunTimeSystem(_, _) => ReloadType::NoReload,
        _ => ReloadType::RequireReload,
    }
}

/// `list` without the one entry whose name, among `names`, is `name`.
pub open spec fn without_named<V>(list: Seq<V>, names: Seq<Seq<char>>, name: Seq<char>) -> Seq<V> {
    list.remove(first_named(names, name, 0))
}

/// `list` with `with` in the place of the one entry whose name is `name`.
pub open spec fn with_named<V>(
    list: Seq<V>,
    names: Seq<Seq<char>>,
    name: Seq<char>,
    with: V,
) -> Seq<V> {
    list.update(first_named(names, name, 0), with)
}

/// Whether `event` can be applied to `model`: an entry that it removes or
/// updates is there, and is the only one of its name.
pub open spec fn forward_ready(event: PotooEventView, model: BevyModelView) -> bool {
    match event {
        PotooEventView::RemoveComponent(c) => named_once(
            component_names(model.components),
            c.name,
        ),
        PotooEventView::RemoveStartupSystem(s) => named_once(
            system_names(model.startup_systems),
            s.name,
        ),
        PotooEventView::RemoveRunTimeSystem(s) => named_once(system_names(model.systems), s.name),
        PotooEventView::UpdateComponent(before, _) => named_once(
            component_names(model.components),
            before.name,
        ),
        PotooEventView::UpdateStartupSystem(before, _) => named_once(
            system_names(model.startup_systems),
            before.name,
        ),
        PotooEventView::UpdateRunTimeSystem(before, _) => named_once(
            system_names(model.systems),
            before.name,
        ),
        _ => true,
    }
}

/// `model` after `event`: an addition goes to the end of its list, a removal
/// takes the entry of that name out, an update replaces it where it stands.
pub open spec fn forward(event: PotooEventView, model: BevyModelView) -> BevyModelView {
    match event {
        PotooEventView::AddComponent(c) => BevyModelView {
            components: model.components.push(c),
            ..model
        },
        PotooEventView::AddStartupSystem(s) => BevyModelView {
            startup_systems: model.startup_systems.push(s),
            ..model
        },
        PotooEventView::AddRunTimeSystem(s) => BevyModelView {
            systems: model.systems.push(s),
            ..model
        },
        PotooEventView::RemoveComponent(c) => BevyModelView {
            components: without_named(
                model.components,
                component_names(model.components),
                c.name,
            ),
            ..model
        },
        PotooEventView::RemoveStartupSystem(s) => BevyModelView {
            startup_systems: without_named(
                model.startup_systems,
                system_names(model.startup_systems),
                s.name,
            ),
            ..model
        },
        PotooEventView::RemoveRunTimeSystem(s) => BevyModelView {
            systems: without_named(model.systems, system_names(model.systems), s.name),
            ..model
        },
        PotooEventView::UpdateComponent(before, after) => BevyModelView {
            components: with_named(
                model.components,
                component_names(model.components),
                before.name,
                after,
            ),
            ..model
        },
        PotooEventView::UpdateStartupSystem(before, after) => BevyModelView {
            startup_systems: with_named(
                model.startup_systems,
                system_names(model.startup_systems),
                before.name,
                after,
            ),
            ..model
        },
        PotooEventView::UpdateRunTimeSystem(before, after) => BevyModelView {
            systems: with_named(model.systems, system_names(model.systems), before.name, after),
            ..model
        },
    }
}

/// The edit that takes `event` back.
pub open spec fn inverse(event: PotooEventView) -> PotooEventView {
    match event {
        PotooEventView::AddComponent(c) => PotooEventView::RemoveComponent(c),
        PotooEventView::AddStartupSystem(s) => PotooEventView::RemoveStartupSystem(s),
        PotooEventView::AddRunTimeSystem(s) => PotooEventView::RemoveRunTimeSystem(s),
        PotooEventView::RemoveComponent(c) => PotooEventView::AddComponent(c),
        PotooEventView::RemoveStartupSystem(s) => PotooEventView::AddStartupSystem(s),
        PotooEventView::RemoveRunTimeSystem(s) => PotooEventView::AddRunTimeSystem(s),
        PotooEventView::UpdateComponent(a, b) => PotooEventView::UpdateComponent(b, a),
        PotooEventView::UpdateStartupSystem(a, b) => PotooEventView::UpdateStartupSystem(b, a),
        PotooEventView::UpdateRunTimeSystem(a, b) => PotooEventView::UpdateRunTimeSystem(b, a),
    }
}

/// Whether `event` can be taken back on `model`.
pub open spec fn backward_ready(event: PotooEventView, model: BevyModelView) -> bool {
    forward_ready(inverse(event), model)
}

/// `model` after `event` is taken back: an addition is removed by name, a
/// removal is added again at the end of its list, an update puts the entry of
/// before in the place of the one that carries the new name.
pub open spec fn backward(event: PotooEventView, model: BevyModelView) -> BevyModelView {
    forward(inverse(event), model)
}

/// Adds a copy of `entry` at the end of `list`.
pub fn push_component(list: &mut Vec<Component>, entry: &Component)
    ensures
        final(list).deep_view() == old(list).deep_view().push(entry@),
{
    list.push(entry.clone());
    assert(list.deep_view() =~= old(list).deep_view().push(entry@));
}

/// Takes out of `list` the one entry called `name`.
pub fn remove_component(list: &mut Vec<Component>, name: &String)
    requires
        named_once(component_names(old(list).deep_view()), name@),
    ensures
        final(list).deep_view() == without_named(
            old(list).deep_view(),
            component_names(old(list).deep_view()),
            name@,
        ),
{
    proof {
        lemma_component_names(*list);
        lemma_first_named(component_names(list.deep_view()), name@, 0);
    }
    remove_named(list, name);
    assert(list.deep_view() =~= without_named(
        old(list).deep_view(),
        component_names(old(list).deep_view()),
        name@,
    ));
}

/// Puts a copy of `with` in the place of the one entry of `list` called `name`.
pub fn replace_component(list: &mut Vec<Component>, name: &String, with: &Component)
    requires
        named_once(component_names(old(list).deep_view()), name@),
    ensures
        final(list).deep_view() == with_named(
            old(list).deep_view(),
            component_names(old(list).deep_view()),
            name@,
            with@,
        ),
{
    proof {
        lemma_component_names(*list);
        lemma_first_named(component_names(list.deep_view()), name@, 0);
    }
    replace_named(list, name, with.clone());
    assert(list.deep_view() =~= with_named(
        old(list).deep_view(),
        component_names(old(list).deep_view()),
        name@,
        with@,
    ));
}

/// Adds a copy of `entry` at the end of `list`.
pub fn push_system(list: &mut Vec<System>, entry: &System)
    ensures
        final(list).deep_view() == old(list).deep_view().push(entry@),
{
    list.push(entry.clone());
    assert(list.deep_view() =~= old(list).deep_view().push(entry@));
}

/// Takes out of `list` the one entry called `name`.
pub fn remove_system(list: &mut Vec<System>, name: &String)
    requires
        named_once(system_names(old(list).deep_view()), name@),
    ensures
        final(list).deep_view() == without_named(
            old(list).deep_view(),
            system_names(old(list).deep_view()),
            name@,
        ),
{
    proof {
        lemma_system_names(*list);
        lemma_first_named(system_names(list.deep_view()), name@, 0);
    }
    remove_named(list, name);
    assert(list.deep_view() =~= without_named(
        old(list).deep_view(),
        system_names(old(list).deep_view()),
        name@,
    ));
}

/// Puts a copy of `with` in the place of the one entry of `list` called `name`.
pub fn replace_system(list: &mut Vec<System>, name: &String, with: &System)
    requires
        named_once(system_names(old(list).deep_view()), name@),
    ensures
        final(list).deep_view() == with_named(
            old(list).deep_view(),
            system_names(old(list).deep_view()),
            name@,
            with@,
        ),
{
    proof {
        lemma_system_names(*list);
        lemma_first_named(system_names(list.deep_view()), name@, 0);
    }
    replace_named(list, name, with.clone());
    assert(list.deep_view() =~= with_named(
        old(list).deep_view(),
        system_names(old(list).deep_view()),
        name@,
        with@,
    ));
}

impl PotooEvent {
    /// Whether the edit can be applied to `model`.
    pub fn can_apply(&self, model: &BevyModel) -> (ready: bool)
        ensures
            ready == forward_ready(self@, model@),
    {
        proof {
            lemma_component_names(model.components);
            lemma_system_names(model.startup_systems);
            lemma_system_names(model.systems);
        }
        match self {
            PotooEvent::RemoveComponent(c) => find_once(&model.components, &c.name).is_some(),
            PotooEvent::RemoveStartupSystem(s) => find_once(
                &model.startup_systems,
                &s.name,
            ).is_some(),
            PotooEvent::RemoveRunTimeSystem(s) => find_once(&model.systems, &s.name).is_some(),
            PotooEvent::UpdateComponent(before, _) => find_once(
                &model.components,
                &before.name,
            ).is_some(),
            PotooEvent::UpdateStartupSystem(before, _) => find_once(
                &model.startup_systems,
                &before.name,
            ).is_some(),
            PotooEvent::UpdateRunTimeSystem(before, _) => find_once(
                &model.systems,
                &before.name,
            ).is_some(),
            _ => true,
        }
    }

    /// Whether the edit can be taken back on `model`.
    pub fn can_undo(&self, model: &BevyModel) -> (ready: bool)
        ensures
            ready == backward_ready(self@, model@),
    {
        proof {
            lemma_component_names(model.components);
            lemma_system_names(model.startup_systems);
            lemma_system_names(model.systems);
        }
        match self {
            PotooEvent::AddComponent(c) => find_once(&model.components, &c.name).is_some(),
            PotooEvent::AddStartupSystem(s) => find_once(&model.startup_systems, &s.name).is_some(),
            PotooEvent::AddRunTimeSystem(s) => find_once(&model.systems, &s.name).is_some(),
            PotooEvent::UpdateComponent(_, after) => find_once(
                &model.components,
                &after.name,
            ).is_some(),
            PotooEvent::UpdateStartupSystem(_, after) => find_once(
                &model.startup_systems,
                &after.name,
            ).is_some(),
            PotooEvent::UpdateRunTimeSystem(_, after) => find_once(
                &model.systems,
                &after.name,
            ).is_some(),
            _ => true,
        }
    }

    /// Applies the edit to `target`.
    pub fn forward(&self, target: &mut BevyModel)
        requires
            forward_ready(self@, old(target)@),
        ensures
            final(target)@ == forward(self@, old(target)@),
    {
        match self {
            PotooEvent::AddComponent(c) => push_component(&mut target.components, c),
            PotooEvent::AddStartupSystem(s) => push_system(&mut target.startup_systems, s),
            PotooEvent::AddRunTimeSystem(s) => push_system(&mut target.systems, s),
            PotooEvent::RemoveComponent(c) => remove_component(&mut target.components, &c.name),
            PotooEvent::RemoveStartupSystem(s) => remove_system(
                &mut target.startup_systems,
                &s.name,
            ),
            PotooEvent::RemoveRunTimeSystem(s) => remove_system(&mut target.systems, &s.name),
            PotooEvent::UpdateComponent(before, after) => replace_component(
                &mut target.components,
                &before.name,
                after,
            ),
            PotooEvent::UpdateStartupSystem(before, after) => replace_system(
                &mut target.startup_systems,
                &before.name,
                after,
            ),
            PotooEvent::UpdateRunTimeSystem(before, after) => replace_system(
                &mut target.systems,
                &before.name,
                after,
            ),
        }
        proof {
            assert(target@.examples =~= old(target)@.examples);
        }
    }

    /// Takes the edit back on `target`.
    pub fn backward(&self, target: &mut BevyModel)
        requires
            backward_ready(self@, old(target)@),
        ensures
            final(target)@ == backward(self@, old(target)@),
    {
        match self {
            PotooEvent::AddComponent(c) => remove_component(&mut target.components, &c.name),
            PotooEvent::AddStartupSystem(s) => remove_system(&mut target.startup_systems, &s.name),
            PotooEvent::AddRunTimeSystem(s) => remove_system(&mut target.systems, &s.name),
            PotooEvent::RemoveComponent(c) => push_component(&mut target.components, c),
            PotooEvent::RemoveStartupSystem(s) => push_system(&mut target.startup_systems, s),
            PotooEvent::RemoveRunTimeSystem(s) => push_system(&mut target.systems, s),
            PotooEvent::UpdateComponent(before, after) => replace_component(
                &mut target.components,
                &after.name,
                before,
            ),
            PotooEvent::UpdateStartupSystem(before, after) => replace_system(
                &mut target.startup_systems,
                &after.name,
                before,
            ),
            PotooEvent::UpdateRunTimeSystem(before, after) => replace_system(
                &mut target.systems,
                &after.name,
                before,
            ),
        }
        proof {
            assert(target@.examples =~= old(target)@.examples);
        }
    }
}

/// An edit in the form that the log keeps.
#[derive(Debug)]
pub struct PotooEvents(pub PotooEvent);

impl DeepView for PotooEvents {
    type V = PotooEventView;

    open spec fn deep_view(&self) -> PotooEventView {
        self.0@
    }
}

impl View for PotooEvents {
    type V = PotooEventView;

    open spec fn view(&self) -> PotooEventView {
        self.0@
    }
}

impl Clone for PotooEvents {
    fn clone(&self) -> (out: Self)
        ensures
            out@ == self@,
    {
        PotooEvents(self.0.clone())
    }
}

impl undo::Action for PotooEvents {
    type Target = BevyModel;

    type Output = ();

    fn apply(&mut self, target: &mut BevyModel)
        requires
            forward_ready(old(self)@, old(target)@),
        ensures
            final(self)@ == old(self)@,
            final(target)@ == forward(old(self)@, old(target)@),
    {
        self.0.forward(target)
    }

    fn undo(&mut self, target: &mut BevyModel)
        requires
            backward_ready(old(self)@, old(target)@),
        ensures
            final(self)@ == old(self)@,
            final(target)@ == backward(old(self)@, old(target)@),
    {
        self.0.backward(target)
    }

    fn redo(&mut self, target: &mut BevyModel)
        requires
            forward_ready(old(self)@, old(target)@),
        ensures
            final(self)@ == old(self)@,
            final(target)@ == forward(old(self)@, old(target)@),
    {
        self.0.forward(target)
    }
}

/// A model together with the log of the edits made to it: the edits before
/// `cursor` are applied, those from `cursor` on can be redone. `limit` is the
/// number of edits that the log keeps at most.
pub struct SessionView {
    pub model: BevyModelView,
    pub log: Seq<PotooEventView>,
    pub cursor: nat,
    pub limit: nat,
}

impl SessionView {
    /// What holds of every session: the cursor stands in the log, and the
    /// log keeps at least one edit.
    pub open spec fn well_formed(self) -> bool {
        self.cursor <= self.log.len() && 0 < self.limit
    }

    /// The session after `event` is applied: the edits that could be redone
    /// are dropped and `event` becomes the last edit. A log that is full
    /// loses its oldest edit.
    pub open spec fn applied(self, event: PotooEventView) -> SessionView {
        let kept = self.log.take(self.cursor as int);
        if self.cursor == self.limit {
            SessionView {
                model: forward(event, self.model),
                log: kept.drop_first().push(event),
                ..self
            }
        } else {
            SessionView {
                model: forward(event, self.model),
                log: kept.push(event),
                cursor: self.cursor + 1,
                ..self
            }
        }
    }

    /// Whether the next `undo` meets what the edit it takes back asks for.
    pub open spec fn undo_ready(self) -> bool {
        self.cursor > 0 ==> backward_ready(self.log[self.cursor - 1], self.model)
    }

    /// The session after `undo`: nothing changes at the start of the log.
    pub open spec fn undone(self) -> SessionView {
        if self.cursor == 0 {
            self
        } else {
            SessionView {
                model: backward(self.log[self.cursor - 1], self.model),
                cursor: (self.cursor - 1) as nat,
                ..self
            }
        }
    }

    /// Whether the next `redo` meets what the edit it applies again asks for.
    pub open spec fn redo_ready(self) -> bool {
        self.cursor < self.log.len() ==> forward_ready(self.log[self.cursor as int], self.model)
    }

    /// The session after `redo`: nothing changes at the end of the log.
    pub open spec fn redone(self) -> SessionView {
        if self.cursor >= self.log.len() {
            self
        } else {
            SessionView {
                model: forward(self.log[self.cursor as int], self.model),
                cursor: self.cursor + 1,
                ..self
            }
        }
    }
}

/// `undo::History`, carried as a value that nothing here looks into.
#[verifier::external_type_specification]
#[verifier::external_body]
#[verifier::reject_recursive_types(A)]
#[verifier::reject_recursive_types(S)]
pub struct ExHistory<A, S>(undo::History<A, S>);

/// `undo::Nop`, carried as a value that nothing here looks into.
#[verifier::external_type_specification]
#[verifier::external_body]
pub struct ExNop(undo::Nop);

/// The edits of the current branch of a history, oldest first.
pub uninterp spec fn history_actions(h: undo::History<PotooEvents>) -> Seq<PotooEventView>;

/// The number of edits of the current branch that are applied.
pub uninterp spec fn history_current(h: undo::History<PotooEvents>) -> nat;

/// The number of edits that a history keeps at most.
pub uninterp spec fn history_limit(h: undo::History<PotooEvents>) -> nat;

/// What `target` and `h` are together.
pub open spec fn session_of(target: BevyModel, h: undo::History<PotooEvents>) -> SessionView {
    SessionView {
        model: target@,
        log: history_actions(h),
        cursor: history_current(h),
        limit: history_limit(h),
    }
}

/// `undo::History::new`: an empty history whose limit is `usize::MAX`.
#[verifier::external_body]
fn history_new() -> (h: undo::History<PotooEvents>)
    ensures
        history_actions(h) == Seq::<PotooEventView>::empty(),
        history_current(h) == 0,
        history_limit(h) == usize::MAX,
{
    undo::History::new()
}

/// `undo::History::apply`: calls `apply` of the action on the target, drops
/// the edits after the current one from the branch, and pushes the action;
/// at the limit it pops the oldest edit first and leaves the position as it is.
#[verifier::external_body]
fn history_apply(h: &mut undo::History<PotooEvents>, target: &mut BevyModel, action: PotooEvents)
    requires
        forward_ready(action@, old(target)@),
    ensures
        session_of(*final(target), *final(h)) == session_of(*old(target), *old(h)).applied(
            action@,
        ),
        session_of(*final(target), *final(h)).well_formed(),
{
    h.apply(target, action)
}

/// `undo::History::undo`: with no applied edit it does nothing and returns
/// `None`; else it calls `undo` of the current edit on the target and steps back.
#[verifier::external_body]
fn history_undo(h: &mut undo::History<PotooEvents>, target: &mut BevyModel) -> (done: bool)
    requires
        session_of(*old(target), *old(h)).undo_ready(),
    ensures
        done == (history_current(*old(h)) > 0),
        session_of(*final(target), *final(h)) == session_of(*old(target), *old(h)).undone(),
        session_of(*final(target), *final(h)).well_formed(),
{
    h.undo(target).is_some()
}

/// `undo::History::redo`: with no edit to redo it does nothing and returns
/// `None`; else it calls `redo` of the next edit on the target and steps on.
#[verifier::external_body]
fn history_redo(h: &mut undo::History<PotooEvents>, target: &mut BevyModel) -> (done: bool)
    requires
        session_of(*old(target), *old(h)).redo_ready(),
    ensures
        done == (history_current(*old(h)) < history_actions(*old(h)).len()),
        session_of(*final(target), *final(h)) == session_of(*old(target), *old(h)).redone(),
        session_of(*final(target), *final(h)).well_formed(),
{
    h.redo(target).is_some()
}

/// `undo::History::current`: the position in the current branch.
#[verifier::external_body]
fn history_position(h: &undo::History<PotooEvents>) -> (at: usize)
    ensures
        at == history_current(*h),
        at <= history_actions(*h).len(),
{
    h.current()
}

/// `undo::History::actions`: a copy of the edit at `index` of the current
/// branch, if there is one.
#[verifier::external_body]
fn history_action(h: &undo::History<PotooEvents>, index: usize) -> (found: Option<PotooEvents>)
    ensures
        found is Some <==> index < history_actions(*h).len(),
        found matches Some(a) ==> a@ == history_actions(*h)[index as int],
{
    h.actions().nth(index).cloned()
}

/// A model and the history of the edits made to it.
#[derive(Debug)]
pub struct ProjectModel {
    pub model: BevyModel,
    pub history: undo::History<PotooEvents>,
}

impl View for ProjectModel {
    type V = SessionView;

    open spec fn view(&self) -> SessionView {
        session_of(self.model, self.history)
    }
}

impl ProjectModel {
    /// A session on `model` with an empty history.
    pub fn new(model: BevyModel) -> (out: Self)
        ensures
            out@.model == model@,
            out@.log == Seq::<PotooEventView>::empty(),
            out@.cursor == 0,
            out@.limit == usize::MAX,
            out@.well_formed(),
    {
        ProjectModel { model, history: history_new() }
    }

    /// Applies `event` to the model and makes it the last edit of the log.
    /// Returns whether the edit needs the project rebuilt.
    pub fn apply(&mut self, event: PotooEvents) -> (kind: ReloadType)
        requires
            forward_ready(event@, old(self)@.model),
        ensures
            final(self)@ == old(self)@.applied(event@),
            final(self)@.well_formed(),
            kind == if event@ is UpdateRunTimeSystem {
                ReloadType::NoReload
            } else {
                ReloadType::RequireReload
            },
    {
        let kind = reload_get_type(event.0.clone());
        history_apply(&mut self.history, &mut self.model, event);
        kind
    }

    /// The envelope in which the model is saved. The history is not saved
    /// with it.
    pub fn save(self) -> (out: ReadPo2Version)
        ensures
            out.po2_version == Po2Version::V0_0_1,
            out.model == self.model,
    {
        ReadPo2Version::save(self.model)
    }

    /// Whether `undo` may be called.
    pub fn undo_ready(&self) -> (ready: bool)
        ensures
            ready == self@.undo_ready(),
    {
        let at = history_position(&self.history);
        if at == 0 {
            return true;
        }
        match history_action(&self.history, at - 1) {
            Some(action) => action.0.can_undo(&self.model),
            None => true,
        }
    }

    /// Whether `redo` may be called.
    pub fn redo_ready(&self) -> (ready: bool)
        ensures
            ready == self@.redo_ready(),
    {
        let at = history_position(&self.history);
        match history_action(&self.history, at) {
            Some(action) => action.0.can_apply(&self.model),
            None => true,
        }
    }

    /// Takes the last applied edit back; does nothing at the start of the log.
    pub fn undo(&mut self)
        requires
            old(self)@.undo_ready(),
        ensures
            final(self)@ == old(self)@.undone(),
            final(self)@.well_formed(),
    {
        let _ = history_undo(&mut self.history, &mut self.model);
    }

    /// Applies the next edit again; does nothing at the end of the log.
    pub fn redo(&mut self)
        requires
            old(self)@.redo_ready(),
        ensures
            final(self)@ == old(self)@.redone(),
            final(self)@.well_formed(),
    {
        let _ = history_redo(&mut self.history, &mut self.model);
    }
}

/// Whether `event` adds an entry whose name no entry of its list carries.
pub open spec fn adds_new_name(event: PotooEventView, model: BevyModelView) -> bool {
    match event {
        PotooEventView::AddComponent(c) => !component_names(model.components).contains(c.name),
        PotooEventView::AddStartupSystem(s) => !system_names(model.startup_systems).contains(
            s.name,
        ),
        PotooEventView::AddRunTimeSystem(s) => !system_names(model.systems).contains(s.name),
        _ => false,
    }
}

/// Whether `before`, found by its name, is what `list` holds, and `after`
/// keeps that name or takes one that no entry carries.
pub open spec fn replaces_in_place<V>(
    list: Seq<V>,
    names: Seq<Seq<char>>,
    before: V,
    old_name: Seq<char>,
    new_name: Seq<char>,
) -> bool {
    &&& named_once(names, old_name)
    &&& list[first_named(names, old_name, 0)] == before
    &&& (new_name == old_name || !names.contains(new_name))
}

/// Whether `event` updates the entry that the model holds under that name,
/// in a way that leaves names unambiguous.
pub open spec fn updates_in_place(event: PotooEventView, model: BevyModelView) -> bool {
    match event {
        PotooEventView::UpdateComponent(before, after) => replaces_in_place(
            model.components,
            component_names(model.components),
            before,
            before.name,
            after.name,
        ),
        PotooEventView::UpdateStartupSystem(before, after) => replaces_in_place(
            model.startup_systems,
            system_names(model.startup_systems),
            before,
            before.name,
            after.name,
        ),
        PotooEventView::UpdateRunTimeSystem(before, after) => replaces_in_place(
            model.systems,
            system_names(model.systems),
            before,
            before.name,
            after.name,
        ),
        _ => false,
    }
}

proof fn lemma_push_then_remove<V>(list: Seq<V>, names: Seq<Seq<char>>, entry: V, name: Seq<char>)
    requires
        names.len() == list.len(),
        !names.contains(name),
    ensures
        named_once(names.push(name), name),
        without_named(list.push(entry), names.push(name), name) == list,
{
    let pushed = names.push(name);
    assert forall|k: int| 0 <= k < pushed.len() && k != names.len() implies pushed[k] != name by {
        assert(names.contains(names[k]));
    }
    lemma_named_once(pushed, name, names.len() as int);
    assert(list.push(entry).remove(list.len() as int) =~= list);
}

proof fn lemma_update_then_restore<V>(
    list: Seq<V>,
    names: Seq<Seq<char>>,
    before: V,
    after: V,
    old_name: Seq<char>,
    new_name: Seq<char>,
)
    requires
        names.len() == list.len(),
        replaces_in_place(list, names, before, old_name, new_name),
    ensures
        named_once(names.update(first_named(names, old_name, 0), new_name), new_name),
        with_named(
            list.update(first_named(names, old_name, 0), after),
            names.update(first_named(names, old_name, 0), new_name),
            new_name,
            before,
        ) == list,
{
    let at = first_named(names, old_name, 0);
    let renamed = names.update(at, new_name);
    lemma_first_named(names, old_name, 0);
    lemma_first_named(names, old_name, at + 1);
    assert forall|k: int| 0 <= k < renamed.len() && k != at implies renamed[k] != new_name by {
        assert(names.contains(names[k]));
    }
    lemma_named_once(renamed, new_name, at);
    assert(list.update(at, after).update(at, before) =~= list);
}

/// Applying an addition and then undoing it leaves the model as it was
/// before, whenever no entry of that list carried the name of the new one.
pub proof fn law_add_then_undo(session: SessionView, event: PotooEventView)
    requires
        session.well_formed(),
        adds_new_name(event, session.model),
    ensures
        session.applied(event).undo_ready(),
        session.applied(event).undone().model == session.model,
        session.applied(event).undone().model.components == session.model.components,
{
    let after = session.applied(event);
    assert(after.cursor > 0 && after.log[after.cursor - 1] == event);
    match event {
        PotooEventView::AddComponent(c) => {
            let list = session.model.components;
            assert(component_names(list.push(c)) =~= component_names(list).push(c.name));
            lemma_push_then_remove(list, component_names(list), c, c.name);
        },
        PotooEventView::AddStartupSystem(s) => {
            let list = session.model.startup_systems;
            assert(system_names(list.push(s)) =~= system_names(list).push(s.name));
            lemma_push_then_remove(list, system_names(list), s, s.name);
        },
        PotooEventView::AddRunTimeSystem(s) => {
            let list = session.model.systems;
            assert(system_names(list.push(s)) =~= system_names(list).push(s.name));
            lemma_push_then_remove(list, system_names(list), s, s.name);
        },
        _ => {},
    }
}

/// Applying an update and then undoing it puts back the very entry that the
/// update replaced, at the place where it stood.
pub proof fn law_update_then_undo(session: SessionView, event: PotooEventView)
    requires
        session.well_formed(),
        updates_in_place(event, session.model),
    ensures
        forward_ready(event, session.model),
        session.applied(event).undo_ready(),
        session.applied(event).undone().model == session.model,
{
    let after = session.applied(event);
    assert(after.cursor > 0 && after.log[after.cursor - 1] == event);
    match event {
        PotooEventView::UpdateComponent(a, b) => {
            let list = session.model.components;
            let at = first_named(component_names(list), a.name, 0);
            lemma_first_named(component_names(list), a.name, 0);
            assert(component_names(list.update(at, b)) =~= component_names(list).update(
                at,
                b.name,
            ));
            lemma_update_then_restore(list, component_names(list), a, b, a.name, b.name);
        },
        PotooEventView::UpdateStartupSystem(a, b) => {
            let list = session.model.startup_systems;
            let at = first_named(system_names(list), a.name, 0);
            lemma_first_named(system_names(list), a.name, 0);
            assert(system_names(list.update(at, b)) =~= system_names(list).update(at, b.name));
            lemma_update_then_restore(list, system_names(list), a, b, a.name, b.name);
        },
        PotooEventView::UpdateRunTimeSystem(a, b) => {
            let list = session.model.systems;
            let at = first_named(system_names(list), a.name, 0);
            lemma_first_named(system_names(list), a.name, 0);
            assert(system_names(list.update(at, b)) =~= system_names(list).update(at, b.name));
            lemma_update_then_restore(list, system_names(list), a, b, a.name, b.name);
        },
        _ => {},
    }
}

/// Undoing and then redoing an edit that was just applied gives the model
/// that the edit gave: to redo is to apply again.
pub proof fn law_redo_applies_again(session: SessionView, event: PotooEventView)
    requires
        session.well_formed(),
        session.applied(event).undo_ready(),
        session.applied(event).undone().model == session.model,
    ensures
        session.applied(event).undone().redone() == session.applied(event),
{
    let after = session.applied(event);
    assert(after.cursor > 0 && after.log[after.cursor - 1] == event);
}

/// The edit that gives the runtime system called `name` the new body
/// `content`: the system as the model holds it, and the same system with
/// that body. There is none where no system, or more than one, has the name.
pub fn update_system_body(model: &BevyModel, name: &String, content: &str) -> (event: Option<
    PotooEvent,
>)
    ensures
        event is Some <==> named_once(system_names(model@.systems), name@),
        event matches Some(e) ==> {
            let at = first_named(system_names(model@.systems), name@, 0);
            &&& e@ == PotooEventView::UpdateRunTimeSystem(
                model@.systems[at],
                SystemView { content: content@, ..model@.systems[at] },
            )
            &&& updates_in_place(e@, model@)
        },
{
    proof {
        lemma_system_names(model.systems);
        lemma_first_named(system_names(model@.systems), name@, 0);
    }
    match find_once(&model.systems, name) {
        Some(at) => {
            let before = model.systems[at].clone();
            let after = System {
                name: before.name.clone(),
                param: clone_pairs(&before.param),
                content: String::from_str(content),
                visibility: before.visibility.clone(),
                attributes: clone_strings(&before.attributes),
            };
            Some(PotooEvent::UpdateRunTimeSystem(before, after))
        },
        None => None,
    }
}

} // verus!
