use cockpit_storage::platform::DirLookup;
use cockpit_storage::error::StorageError;
use cockpit_storage::storage_manager::{
    accept_target_root, plan_default_instance_base_dir, sanitize_target_root, target_root_verdict,
    BaseDirUpdate,
};
use cockpit_storage::storage_paths::{
    get_app_data_dir, get_instance_base_dir, get_local_app_data_dir, normalize_absolute_path,
    set_app_data_dir, set_instance_base_dir, set_local_app_data_dir, Environment, StorageBootstrap,
};

fn windows_env() -> Environment {
    Environment {
        windows: true,
        home: Some("/home/c".to_string()),
        data_local: DirLookup::Found("/home/c/local".to_string()),
        config: Some("/home/c/config".to_string()),
        appdata: Some("/home/c/appdata".to_string()),
    }
}

#[test]
fn recorded_locations_are_read_back_trimmed() {
    let env = windows_env();
    let mut b = StorageBootstrap::default();
    set_app_data_dir(&mut b, Some("  /srv/app ".to_string()));
    set_local_app_data_dir(&mut b, Some("/srv/local".to_string()));
    assert_eq!(get_app_data_dir(&env, &b), Ok("/srv/app".to_string()));
    assert_eq!(get_local_app_data_dir(&env, &b), Ok("/srv/local".to_string()));
}

#[test]
fn accepted_default_instance_dir_round_trips() {
    let env = windows_env();
    let mut b = StorageBootstrap::default();
    match plan_default_instance_base_dir(true, Some("\t/srv/instances  ")) {
        Ok(BaseDirUpdate::Record(target)) => set_instance_base_dir(&mut b, Some(target)),
        other => panic!("unexpected {other:?}"),
    }
    assert_eq!(get_instance_base_dir(&env, &b), Ok("/srv/instances".to_string()));
}

#[test]
fn target_root_and_configured_location_agree() {
    for raw in ["", "  ", "rel", " rel/x ", "/abs", "  /abs/y\n"] {
        let sanitized = sanitize_target_root(raw).ok();
        assert_eq!(sanitized, normalize_absolute_path(Some(raw)), "{raw:?}");
    }
}

#[test]
fn target_root_acceptance_given_absoluteness() {
    assert_eq!(accept_target_root("", true), Err(StorageError::EmptyTargetRoot));
    assert_eq!(accept_target_root("x", false), Err(StorageError::RelativeTargetRoot));
    assert_eq!(accept_target_root("/x", true), Ok("/x".to_string()));
}

#[test]
fn target_root_verdicts() {
    assert_eq!(target_root_verdict(true, true), Err(StorageError::TargetInsideAppData));
    assert_eq!(target_root_verdict(false, true), Err(StorageError::TargetInsideLocalAppData));
    assert_eq!(target_root_verdict(false, false), Ok(()));
    assert_eq!(
        StorageError::TargetInsideLocalAppData.message(),
        "目标目录不能位于当前本地应用数据目录内部"
    );
}
