use cockpit_storage::error::StorageError;
use cockpit_storage::instances::{
    choose_target_instance_dir, instance_leaf, instance_user_dirs, InstanceMigration, InstanceMove,
    InstanceProfile, InstanceStore, UsedTargets,
};

fn profile(id: &str, name: &str, dir: &str) -> InstanceProfile {
    InstanceProfile { id: id.to_string(), name: name.to_string(), user_data_dir: dir.to_string() }
}

#[test]
fn used_targets_behave_as_a_set() {
    let mut used = UsedTargets::new();
    assert!(!used.contains(&"a".to_string()));
    assert!(used.insert("a".to_string()));
    assert!(!used.insert("a".to_string()));
    assert!(used.insert("b".to_string()));
    assert!(used.contains(&"a".to_string()));
    assert!(!used.contains(&"A".to_string()));
}

#[test]
fn leaf_is_last_component_or_id() {
    assert_eq!(instance_leaf(&profile("id1", "n", "/data/inst/Work")), "Work");
    assert_eq!(instance_leaf(&profile("id2", "n", "/")), "id2");
    assert_eq!(instance_leaf(&profile("id3", "n", "/data/ ")), "id3");
    assert_eq!(instance_leaf(&profile("id4", "n", "/data/..")), "id4");
}

#[test]
fn first_choice_is_plain_name() {
    let mut used = UsedTargets::new();
    let t = choose_target_instance_dir("cursor", &profile("i", "n", "/old/Work"), "/new", &mut used);
    assert_eq!(t, Some("/new/cursor/Work".to_string()));
    assert!(used.contains(&"/new/cursor/work".to_string()));
}

#[test]
fn collisions_ignore_ascii_case_and_get_numbered() {
    let mut used = UsedTargets::new();
    let a = choose_target_instance_dir("kiro", &profile("1", "a", "/x/Work"), "/T", &mut used);
    let b = choose_target_instance_dir("kiro", &profile("2", "b", "/y/work"), "/T", &mut used);
    let c = choose_target_instance_dir("kiro", &profile("3", "c", "/z/WORK"), "/T", &mut used);
    assert_eq!(a, Some("/T/kiro/Work".to_string()));
    assert_eq!(b, Some("/T/kiro/work-1".to_string()));
    assert_eq!(c, Some("/T/kiro/WORK-2".to_string()));
    assert!(used.contains(&"/t/kiro/work-2".to_string()));
}

#[test]
fn numbering_skips_taken_numbers() {
    let mut used = UsedTargets::new();
    used.insert("/t/p/a".to_string());
    used.insert("/t/p/a-1".to_string());
    used.insert("/t/p/a-3".to_string());
    let t = choose_target_instance_dir("p", &profile("id", "n", "/src/a"), "/t", &mut used);
    assert_eq!(t, Some("/t/p/a-2".to_string()));
}

#[test]
fn user_dirs_in_order() {
    let store = InstanceStore { instances: vec![profile("1", "a", "/a"), profile("2", "b", "/b")] };
    assert_eq!(instance_user_dirs(&store), vec!["/a".to_string(), "/b".to_string()]);
}

#[test]
fn migration_steps_through_instances() {
    let store = InstanceStore {
        instances: vec![
            profile("1", "one", "/old/One"),
            profile("2", "two", "/gone/Two"),
            profile("3", "three", "/old/one"),
            profile("4", "four", "/new/gemini/Four"),
        ],
    };
    let mut m = InstanceMigration::new("gemini".to_string(), "/new".to_string(), store);
    assert!(!m.is_done());
    assert_eq!(m.current_dir(), "/old/One");
    assert_eq!(
        m.step(true),
        Ok(Some(InstanceMove { from: "/old/One".to_string(), to: "/new/gemini/One".to_string() }))
    );
    assert_eq!(m.current_dir(), "/gone/Two");
    assert_eq!(m.step(false), Ok(None));
    assert_eq!(
        m.step(true),
        Ok(Some(InstanceMove { from: "/old/one".to_string(), to: "/new/gemini/one-1".to_string() }))
    );
    // Already in its target place: nothing to move.
    assert_eq!(m.step(true), Ok(None));
    assert!(m.is_done());
    let (store, migrated) = m.finish();
    assert_eq!(migrated, 2);
    assert_eq!(store.instances[0].user_data_dir, "/new/gemini/One");
    assert_eq!(store.instances[1].user_data_dir, "/gone/Two");
    assert_eq!(store.instances[2].user_data_dir, "/new/gemini/one-1");
    assert_eq!(store.instances[3].user_data_dir, "/new/gemini/Four");
    assert_eq!(store.instances[0].id, "1");
    assert_eq!(store.instances[2].name, "three");
}

#[test]
fn exhausted_names_error_text() {
    assert_eq!(StorageError::TargetNamesExhausted.message(), "目标实例目录名称已用尽");
}
