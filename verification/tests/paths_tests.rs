use cockpit_storage::platform::DirLookup;
use cockpit_storage::error::StorageError;
use cockpit_storage::storage_paths::{
    bootstrap_file_path, bootstrap_location, build_target_app_data_dir, build_target_instance_base_dir,
    build_target_local_app_data_dir, custom_location, get_app_data_dir, get_instance_base_dir,
    get_instance_root_dir, get_local_app_data_dir, legacy_app_data_dir, legacy_instance_base_dir,
    legacy_local_app_data_dir, normalize_absolute_path, set_app_data_dir, set_instance_base_dir,
    set_local_app_data_dir, Environment, StorageBootstrap,
};

fn unix_env(windows: bool) -> Environment {
    Environment {
        windows,
        home: Some("/home/alice".to_string()),
        data_local: DirLookup::Found("/home/alice/.local/share".to_string()),
        config: Some("/home/alice/.config".to_string()),
        appdata: Some("/appdata".to_string()),
    }
}

fn bootstrap(app: Option<&str>, base: Option<&str>, local: Option<&str>) -> StorageBootstrap {
    StorageBootstrap {
        app_data_dir: app.map(String::from),
        instance_base_dir: base.map(String::from),
        local_app_data_dir: local.map(String::from),
    }
}

#[test]
fn normalize_keeps_trimmed_absolute_paths_only() {
    assert_eq!(normalize_absolute_path(None), None);
    assert_eq!(normalize_absolute_path(Some("   ")), None);
    assert_eq!(normalize_absolute_path(Some("relative/dir")), None);
    assert_eq!(normalize_absolute_path(Some("  /data/app \t")), Some("/data/app".to_string()));
}

#[test]
fn custom_location_only_on_windows() {
    let configured = Some(" /data/app ".to_string());
    assert_eq!(custom_location(true, &configured), Some("/data/app".to_string()));
    assert_eq!(custom_location(false, &configured), None);
    assert_eq!(custom_location(true, &None), None);
}

#[test]
fn legacy_locations() {
    let env = unix_env(false);
    assert_eq!(legacy_app_data_dir(&env), Ok("/home/alice/.antigravity_cockpit".to_string()));
    assert_eq!(
        legacy_instance_base_dir(&env),
        Ok("/home/alice/.antigravity_cockpit/instances".to_string())
    );
    assert_eq!(
        legacy_local_app_data_dir(&env),
        Ok("/home/alice/.local/share/com.antigravity.cockpit-tools".to_string())
    );
}

#[test]
fn legacy_locations_without_directories() {
    let env = Environment { windows: false, home: None, data_local: DirLookup::Missing, config: None, appdata: None };
    assert_eq!(legacy_app_data_dir(&env), Err(StorageError::HomeDirUnavailable));
    assert_eq!(legacy_instance_base_dir(&env), Err(StorageError::HomeDirUnavailable));
    assert_eq!(legacy_local_app_data_dir(&env), Err(StorageError::LocalAppDataDirUnavailable));
    let win = Environment { windows: true, home: None, data_local: DirLookup::Missing, config: None, appdata: None };
    assert_eq!(legacy_instance_base_dir(&win), Err(StorageError::AppDataVarUnavailable));
}

#[test]
fn local_app_data_falls_back_to_home() {
    let env = Environment { data_local: DirLookup::Missing, ..unix_env(false) };
    assert_eq!(
        legacy_local_app_data_dir(&env),
        Ok("/home/alice/com.antigravity.cockpit-tools".to_string())
    );
}

#[test]
fn windows_legacy_instances_under_appdata() {
    let env = unix_env(true);
    assert_eq!(
        legacy_instance_base_dir(&env),
        Ok("/appdata/.antigravity_cockpit\\instances".to_string())
    );
}

#[test]
fn bootstrap_file_only_on_windows() {
    assert_eq!(bootstrap_file_path(&unix_env(false)), Err(StorageError::BootstrapUnsupported));
    assert_eq!(
        bootstrap_file_path(&unix_env(true)),
        Ok("/home/alice/.config/AntigravityCockpit/storage-bootstrap.json".to_string())
    );
    let no_config = Environment { config: None, ..unix_env(true) };
    assert_eq!(bootstrap_file_path(&no_config), Err(StorageError::ConfigDirUnavailable));
    assert_eq!(bootstrap_location(&unix_env(false)), Ok(None));
    assert_eq!(
        bootstrap_location(&unix_env(true)),
        Ok(Some("/home/alice/.config/AntigravityCockpit/storage-bootstrap.json".to_string()))
    );
}

#[test]
fn custom_dirs_win_on_windows() {
    let b = bootstrap(Some("/d/app"), Some(" /d/inst "), Some("relative"));
    let env = unix_env(true);
    assert_eq!(get_app_data_dir(&env, &b), Ok("/d/app".to_string()));
    assert_eq!(get_instance_base_dir(&env, &b), Ok("/d/inst".to_string()));
    assert_eq!(
        get_local_app_data_dir(&env, &b),
        Ok("/home/alice/.local/share/com.antigravity.cockpit-tools".to_string())
    );
    assert_eq!(get_instance_root_dir(&env, &b, "cursor"), Ok("/d/inst/cursor".to_string()));
}

#[test]
fn custom_dirs_ignored_elsewhere() {
    let b = bootstrap(Some("/d/app"), Some("/d/inst"), Some("/d/local"));
    let env = unix_env(false);
    assert_eq!(get_app_data_dir(&env, &b), Ok("/home/alice/.antigravity_cockpit".to_string()));
    assert_eq!(
        get_instance_root_dir(&env, &b, "kiro"),
        Ok("/home/alice/.antigravity_cockpit/instances/kiro".to_string())
    );
}

#[test]
fn setters_change_one_field() {
    let mut b = StorageBootstrap::default();
    set_app_data_dir(&mut b, Some("/x".to_string()));
    assert_eq!(b, bootstrap(Some("/x"), None, None));
    set_instance_base_dir(&mut b, Some("/y".to_string()));
    set_local_app_data_dir(&mut b, Some("/z".to_string()));
    assert_eq!(b, bootstrap(Some("/x"), Some("/y"), Some("/z")));
    set_app_data_dir(&mut b, None);
    assert_eq!(b, bootstrap(None, Some("/y"), Some("/z")));
}

#[test]
fn read_after_write_of_custom_location() {
    let env = unix_env(true);
    let mut b = StorageBootstrap::default();
    set_instance_base_dir(&mut b, Some("/mnt/big/instances".to_string()));
    assert_eq!(get_instance_base_dir(&env, &b), Ok("/mnt/big/instances".to_string()));
    set_instance_base_dir(&mut b, None);
    assert_eq!(
        get_instance_base_dir(&env, &b),
        Ok("/appdata/.antigravity_cockpit\\instances".to_string())
    );
}

#[test]
fn migration_target_layout() {
    assert_eq!(build_target_app_data_dir("/mnt/t"), "/mnt/t/app-data");
    assert_eq!(build_target_instance_base_dir("/mnt/t"), "/mnt/t/instances");
    assert_eq!(build_target_local_app_data_dir("/mnt/t/"), "/mnt/t/local-app-data");
}

#[test]
fn environment_read_keeps_given_values() {
    let env = Environment::read(false, Some("/ad".to_string()));
    assert!(!env.windows);
    assert_eq!(env.appdata, Some("/ad".to_string()));
}

#[test]
fn unreadable_local_data_dir_does_not_fall_back_to_home() {
    let env = Environment { data_local: DirLookup::NotText, ..unix_env(false) };
    assert_eq!(legacy_local_app_data_dir(&env), Err(StorageError::LocalAppDataDirUnavailable));
}
