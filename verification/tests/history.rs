use potoo::history::{
    find_named, find_once, reload_get_type, update_system_body, PotooEvent, PotooEvents,
    ProjectModel, ReloadType,
};
use potoo::model::{BevyModel, Component, System};
use undo::Action;

fn component(name: &str) -> Component {
    Component { name: name.to_string(), ..Component::default() }
}

fn system(name: &str, content: &str) -> System {
    System { name: name.to_string(), content: content.to_string(), ..System::default() }
}

fn model_with(components: Vec<&str>) -> BevyModel {
    let mut model = BevyModel::default();
    for name in components {
        model.components.push(component(name));
    }
    model
}

fn names(model: &BevyModel) -> Vec<String> {
    model.components.iter().map(|c| c.name.clone()).collect()
}

#[test]
fn only_runtime_system_updates_need_no_rebuild() {
    let s = System::default();
    let c = Component::default();
    assert_eq!(reload_get_type(PotooEvent::UpdateRunTimeSystem(s.clone(), s.clone())), ReloadType::NoReload);
    assert_eq!(reload_get_type(PotooEvent::UpdateStartupSystem(s.clone(), s.clone())), ReloadType::RequireReload);
    assert_eq!(reload_get_type(PotooEvent::UpdateComponent(c.clone(), c.clone())), ReloadType::RequireReload);
    assert_eq!(reload_get_type(PotooEvent::AddComponent(c.clone())), ReloadType::RequireReload);
    assert_eq!(reload_get_type(PotooEvent::AddStartupSystem(s.clone())), ReloadType::RequireReload);
    assert_eq!(reload_get_type(PotooEvent::AddRunTimeSystem(s.clone())), ReloadType::RequireReload);
    assert_eq!(reload_get_type(PotooEvent::RemoveComponent(c)), ReloadType::RequireReload);
    assert_eq!(reload_get_type(PotooEvent::RemoveStartupSystem(s.clone())), ReloadType::RequireReload);
    assert_eq!(reload_get_type(PotooEvent::RemoveRunTimeSystem(s)), ReloadType::RequireReload);
}

#[test]
fn lookup_by_name() {
    let list = vec![component("a"), component("b"), component("a"), component("c")];
    assert_eq!(find_named(&list, &"a".to_string(), 0), 0);
    assert_eq!(find_named(&list, &"a".to_string(), 1), 2);
    assert_eq!(find_named(&list, &"c".to_string(), 0), 3);
    assert_eq!(find_named(&list, &"x".to_string(), 0), 4);
    assert_eq!(find_once(&list, &"a".to_string()), None);
    assert_eq!(find_once(&list, &"b".to_string()), Some(1));
    assert_eq!(find_once(&list, &"x".to_string()), None);
}

#[test]
fn add_then_undo_leaves_the_components_unchanged() {
    let mut pm = ProjectModel::new(model_with(vec!["Player", "Bullet"]));
    let kind = pm.apply(PotooEvents(PotooEvent::AddComponent(component("OtherShip"))));
    assert_eq!(kind, ReloadType::RequireReload);
    assert_eq!(names(&pm.model), vec!["Player", "Bullet", "OtherShip"]);
    assert!(pm.undo_ready());
    pm.undo();
    assert_eq!(pm.model, model_with(vec!["Player", "Bullet"]));
}

#[test]
fn add_system_then_undo_and_redo() {
    let mut pm = ProjectModel::new(BevyModel::default());
    pm.apply(PotooEvents(PotooEvent::AddStartupSystem(system("setup", "a"))));
    pm.apply(PotooEvents(PotooEvent::AddRunTimeSystem(system("tick", "b"))));
    assert_eq!(pm.model.startup_systems.len(), 1);
    assert_eq!(pm.model.systems.len(), 1);
    pm.undo();
    assert!(pm.model.systems.is_empty());
    pm.undo();
    assert!(pm.model.startup_systems.is_empty());
    assert!(pm.redo_ready());
    pm.redo();
    pm.redo();
    assert_eq!(pm.model.startup_systems, vec![system("setup", "a")]);
    assert_eq!(pm.model.systems, vec![system("tick", "b")]);
}

#[test]
fn undo_at_the_start_and_redo_at_the_end_do_nothing() {
    let mut pm = ProjectModel::new(model_with(vec!["Player"]));
    assert!(pm.undo_ready());
    pm.undo();
    assert_eq!(pm.model, model_with(vec!["Player"]));
    assert!(pm.redo_ready());
    pm.redo();
    assert_eq!(pm.model, model_with(vec!["Player"]));
    pm.apply(PotooEvents(PotooEvent::AddComponent(component("Bullet"))));
    pm.redo();
    assert_eq!(names(&pm.model), vec!["Player", "Bullet"]);
}

#[test]
fn apply_drops_what_could_be_redone() {
    let mut pm = ProjectModel::new(BevyModel::default());
    pm.apply(PotooEvents(PotooEvent::AddComponent(component("a"))));
    pm.apply(PotooEvents(PotooEvent::AddComponent(component("b"))));
    pm.undo();
    pm.apply(PotooEvents(PotooEvent::AddComponent(component("c"))));
    assert_eq!(names(&pm.model), vec!["a", "c"]);
    pm.redo();
    assert_eq!(names(&pm.model), vec!["a", "c"]);
    pm.undo();
    pm.undo();
    assert!(pm.model.components.is_empty());
    pm.redo();
    pm.redo();
    assert_eq!(names(&pm.model), vec!["a", "c"]);
}

#[test]
fn remove_then_undo_appends_the_entry_again() {
    let mut pm = ProjectModel::new(model_with(vec!["a", "b", "c"]));
    let event = PotooEvent::RemoveComponent(component("b"));
    assert!(event.can_apply(&pm.model));
    pm.apply(PotooEvents(event));
    assert_eq!(names(&pm.model), vec!["a", "c"]);
    pm.undo();
    assert_eq!(names(&pm.model), vec!["a", "c", "b"]);
}

#[test]
fn update_replaces_in_place_and_undo_restores_the_entry() {
    let mut model = BevyModel::default();
    model.systems.push(system("first", "1"));
    model.systems.push(system("tick", "old body"));
    model.systems.push(system("last", "3"));
    let before = model.systems[1].clone();
    let mut after = before.clone();
    after.content = "new body".to_string();
    after.param.push(("time".to_string(), "Res<Time>".to_string()));
    let mut pm = ProjectModel::new(model);
    let kind = pm.apply(PotooEvents(PotooEvent::UpdateRunTimeSystem(before.clone(), after.clone())));
    assert_eq!(kind, ReloadType::NoReload);
    assert_eq!(pm.model.systems, vec![system("first", "1"), after, system("last", "3")]);
    assert!(pm.undo_ready());
    pm.undo();
    assert_eq!(pm.model.systems, vec![system("first", "1"), before, system("last", "3")]);
}

#[test]
fn update_component_and_startup_system() {
    let mut model = model_with(vec!["a", "b"]);
    model.startup_systems.push(system("setup", "x"));
    let mut pm = ProjectModel::new(model);
    let mut changed = component("b");
    changed.is_reflected = false;
    pm.apply(PotooEvents(PotooEvent::UpdateComponent(component("b"), changed.clone())));
    assert_eq!(pm.model.components, vec![component("a"), changed]);
    pm.apply(PotooEvents(PotooEvent::UpdateStartupSystem(system("setup", "x"), system("setup", "y"))));
    assert_eq!(pm.model.startup_systems, vec![system("setup", "y")]);
    pm.undo();
    pm.undo();
    assert_eq!(pm.model.components, vec![component("a"), component("b")]);
    assert_eq!(pm.model.startup_systems, vec![system("setup", "x")]);
}

#[test]
fn readiness_tells_ambiguous_names() {
    let model = model_with(vec!["a", "a", "b"]);
    assert!(!PotooEvent::RemoveComponent(component("a")).can_apply(&model));
    assert!(!PotooEvent::RemoveComponent(component("x")).can_apply(&model));
    assert!(PotooEvent::RemoveComponent(component("b")).can_apply(&model));
    assert!(!PotooEvent::UpdateComponent(component("a"), component("a")).can_apply(&model));
    assert!(PotooEvent::AddComponent(component("a")).can_apply(&model));
    assert!(!PotooEvent::AddComponent(component("a")).can_undo(&model));
    assert!(PotooEvent::AddComponent(component("b")).can_undo(&model));
    assert!(PotooEvent::RemoveComponent(component("x")).can_undo(&model));
    assert!(!PotooEvent::RemoveRunTimeSystem(System::default()).can_apply(&model));
    assert!(!PotooEvent::UpdateStartupSystem(System::default(), System::default()).can_apply(&model));
}

#[test]
fn undo_is_not_ready_when_the_added_name_is_taken_twice() {
    let mut pm = ProjectModel::new(model_with(vec!["a"]));
    pm.apply(PotooEvents(PotooEvent::AddComponent(component("a"))));
    assert!(!pm.undo_ready());
}

#[test]
fn action_applies_and_takes_back_one_edit() {
    let mut model = model_with(vec!["a"]);
    let mut event = PotooEvents(PotooEvent::AddComponent(component("b")));
    event.apply(&mut model);
    assert_eq!(names(&model), vec!["a", "b"]);
    event.undo(&mut model);
    assert_eq!(names(&model), vec!["a"]);
    event.redo(&mut model);
    assert_eq!(names(&model), vec!["a", "b"]);
    let copy = event.clone();
    assert_eq!(format!("{:?}", copy), format!("{:?}", event));
}

#[test]
fn live_edit_becomes_an_update_of_the_named_system() {
    let mut model = BevyModel::default();
    model.systems.push(system("tick", "old"));
    model.systems.push(system("tock", "other"));
    let event = update_system_body(&model, &"tick".to_string(), "new").expect("the system is there");
    match &event {
        PotooEvent::UpdateRunTimeSystem(before, after) => {
            assert_eq!(before, &system("tick", "old"));
            assert_eq!(after, &system("tick", "new"));
        }
        _ => panic!("a live edit updates a runtime system"),
    }
    assert_eq!(reload_get_type(event.clone()), ReloadType::NoReload);
    let mut pm = ProjectModel::new(model);
    pm.apply(PotooEvents(event));
    assert_eq!(pm.model.systems, vec![system("tick", "new"), system("tock", "other")]);
    pm.undo();
    assert_eq!(pm.model.systems, vec![system("tick", "old"), system("tock", "other")]);
    assert!(update_system_body(&pm.model, &"missing".to_string(), "x").is_none());
    pm.model.systems.push(system("tick", "twice"));
    assert!(update_system_body(&pm.model, &"tick".to_string(), "x").is_none());
}
