use cockpit_storage::platform::DirLookup;
use cockpit_storage::error::StorageError;
use cockpit_storage::instances::InstanceProfile;
use cockpit_storage::storage_manager::{
    build_state, check_migration_request, collect_storage_overview, ensure_empty_or_missing,
    finish_storage_migration, get_storage_state, instance_root_stat_key, managed_instance_stat,
    managed_platforms, measure_directory, path_stat, plan_default_instance_base_dir,
    plan_storage_migration, resolve_storage_dirs, sanitize_target_root, timestamp_from_epoch_seconds,
    validate_target_root, BaseDirUpdate, DirProbe, ManagedInstanceStat, MeasuredInstance, PlatformSnapshot, StorageDirs,
    StorageMigrationRequest, StoragePathStat, StorageState, now_ts,
};
use cockpit_storage::storage_paths::{Environment, StorageBootstrap};

fn env(windows: bool) -> Environment {
    Environment {
        windows,
        home: Some("/home/bo".to_string()),
        data_local: DirLookup::Missing,
        config: Some("/home/bo/.config".to_string()),
        appdata: Some("/appdata".to_string()),
    }
}

fn state(supported: bool) -> StorageState {
    StorageState {
        supported,
        app_data_path: "/a".to_string(),
        legacy_app_data_path: "/a".to_string(),
        app_data_customized: false,
        local_app_data_path: "/l".to_string(),
        legacy_local_app_data_path: "/l".to_string(),
        local_app_data_customized: false,
        instance_base_dir: "/b".to_string(),
        legacy_instance_base_dir: "/b".to_string(),
        instance_base_customized: false,
    }
}

#[test]
fn directory_measure_adds_with_saturation() {
    assert_eq!(measure_directory(&vec![]), (0, 0));
    assert_eq!(measure_directory(&vec![(10, 1), (5, 0), (7, 3)]), (22, 7));
    assert_eq!(measure_directory(&vec![(u64::MAX, 0), (1, u64::MAX)]), (u64::MAX, u64::MAX));
}

#[test]
fn path_stats_of_present_and_missing_locations() {
    let s = path_stat("appData", "/a", Some((100, 4)));
    assert_eq!(s, StoragePathStat { key: "appData".into(), path: "/a".into(), exists: true, size_bytes: 100, item_count: 4 });
    let m = path_stat("localAppData", "/l", None);
    assert_eq!(m, StoragePathStat { key: "localAppData".into(), path: "/l".into(), exists: false, size_bytes: 0, item_count: 0 });
    assert_eq!(instance_root_stat_key("kiro"), "instanceRoot:kiro");
}

#[test]
fn instance_stat_copies_the_profile() {
    let p = InstanceProfile { id: "7".into(), name: "Seven".into(), user_data_dir: "/u/7".into() };
    let s = managed_instance_stat("cursor", p, Some((9, 2)));
    assert_eq!(s, ManagedInstanceStat {
        platform: "cursor".into(), instance_id: "7".into(), name: "Seven".into(),
        user_data_dir: "/u/7".into(), size_bytes: 9, item_count: 2,
    });
}

#[test]
fn state_marks_customized_locations() {
    let dirs = StorageDirs {
        app_data: "/custom/app".into(),
        legacy_app_data: "/home/bo/.antigravity_cockpit".into(),
        local_app_data: "/x/local".into(),
        legacy_local_app_data: "/x/local/".into(),
        instance_base: "/b".into(),
        legacy_instance_base: "/b".into(),
    };
    let s = build_state(true, &dirs);
    assert!(s.supported);
    assert!(s.app_data_customized);
    assert!(!s.local_app_data_customized);
    assert!(!s.instance_base_customized);
    assert_eq!(s.app_data_path, "/custom/app");
    assert_eq!(s.legacy_local_app_data_path, "/x/local/");
}

#[test]
fn storage_state_from_environment() {
    let b = StorageBootstrap { app_data_dir: Some("/c/app".into()), instance_base_dir: None, local_app_data_dir: None };
    let s = get_storage_state(&env(true), &b).unwrap();
    assert_eq!(s.app_data_path, "/c/app");
    assert!(s.app_data_customized);
    assert_eq!(s.local_app_data_path, "/home/bo/com.antigravity.cockpit-tools");
    assert_eq!(s.instance_base_dir, "/appdata/.antigravity_cockpit\\instances");
    assert!(!s.instance_base_customized);
    let plain = get_storage_state(&env(false), &b).unwrap();
    assert!(!plain.supported);
    assert!(!plain.app_data_customized);
}

#[test]
fn storage_dirs_report_first_failure() {
    let no_home = Environment { windows: false, home: None, data_local: DirLookup::Missing, config: None, appdata: None };
    let b = StorageBootstrap::default();
    assert_eq!(resolve_storage_dirs(&no_home, &b), Err(StorageError::HomeDirUnavailable));
    let custom = StorageBootstrap { app_data_dir: Some("/c".into()), instance_base_dir: None, local_app_data_dir: None };
    let win_no_home = Environment { windows: true, ..no_home };
    assert_eq!(resolve_storage_dirs(&win_no_home, &custom), Err(StorageError::HomeDirUnavailable));
}

fn measured(profile_id: &str, name: &str, size: u64) -> MeasuredInstance {
    MeasuredInstance {
        profile: InstanceProfile { id: profile_id.into(), name: name.into(), user_data_dir: format!("/i/{profile_id}") },
        measured: Some((size, 0)),
    }
}

fn snapshot(root: &str, size: Option<u64>, instances: Vec<MeasuredInstance>) -> PlatformSnapshot {
    PlatformSnapshot { root_dir: root.to_string(), root_measured: size.map(|s| (s, 1)), instances }
}

fn seven(mut given: Vec<(usize, PlatformSnapshot)>) -> Vec<PlatformSnapshot> {
    let mut out: Vec<PlatformSnapshot> = (0..7).map(|i| snapshot(&format!("/r{i}"), None, vec![])).collect();
    for (i, p) in given.drain(..) {
        out[i] = p;
    }
    out
}

#[test]
fn overview_sorts_and_totals() {
    // managed platforms: antigravity, github_copilot, windsurf, kiro, cursor, gemini, codebuddy
    let platforms = seven(vec![
        (0, snapshot("/r/ag", Some(5), vec![measured("4", "a", 10)])),
        (3, snapshot("/r/kiro", Some(50), vec![measured("1", "b", 10), measured("3", "a", 10), measured("5", "a", 10)])),
        (4, snapshot("/r/cursor", Some(300), vec![measured("2", "z", 30)])),
        (5, snapshot("/r/gemini", Some(50), vec![])),
    ]);
    let o = collect_storage_overview(state(true), 42, Some((100, 3)), Some((7, 1)), platforms);
    assert!(o.supported);
    assert_eq!(o.scanned_at, 42);
    assert_eq!(o.instances_total_bytes, 405);
    assert_eq!(o.app_data_size_bytes, 107);
    assert_eq!(o.total_bytes, 512);
    let keys: Vec<&str> = o.path_stats.iter().map(|s| s.key.as_str()).collect();
    assert_eq!(keys, vec![
        "instanceRoot:cursor", "appData", "instanceRoot:gemini", "instanceRoot:kiro", "localAppData",
        "instanceRoot:antigravity", "instanceRoot:codebuddy", "instanceRoot:github_copilot", "instanceRoot:windsurf",
    ]);
    let app = o.path_stats.iter().find(|s| s.key == "appData").unwrap();
    assert_eq!((app.path.as_str(), app.exists, app.item_count), ("/a", true, 3));
    let local = o.path_stats.iter().find(|s| s.key == "localAppData").unwrap();
    assert_eq!(local.path, "/l");
    let missing = o.path_stats.iter().find(|s| s.key == "instanceRoot:windsurf").unwrap();
    assert_eq!((missing.path.as_str(), missing.exists, missing.size_bytes), ("/r2", false, 0));
    let ids: Vec<&str> = o.managed_instances.iter().map(|s| s.instance_id.as_str()).collect();
    assert_eq!(ids, vec!["2", "4", "3", "5", "1"]);
    let platforms_of: Vec<&str> = o.managed_instances.iter().map(|s| s.platform.as_str()).collect();
    assert_eq!(platforms_of, vec!["cursor", "antigravity", "kiro", "kiro", "kiro"]);
    assert_eq!(o.notes.len(), 2);
    assert_eq!(o.notes[1], "官方客户端自身的默认目录不会在此页自动迁移。");
}

#[test]
fn overview_totals_saturate_and_notes_off_windows() {
    let platforms = seven(vec![(6, snapshot("/r/cb", Some(u64::MAX), vec![]))]);
    let o = collect_storage_overview(state(false), 0, Some((u64::MAX, 0)), Some((1, 0)), platforms);
    assert_eq!(o.app_data_size_bytes, u64::MAX);
    assert_eq!(o.total_bytes, u64::MAX);
    assert_eq!(o.instances_total_bytes, u64::MAX);
    assert_eq!(o.notes, vec!["当前版本的目录迁移仅在 Windows 上可用。".to_string()]);
}

#[test]
fn managed_platform_keys_in_order() {
    assert_eq!(
        managed_platforms(),
        vec!["antigravity", "github_copilot", "windsurf", "kiro", "cursor", "gemini", "codebuddy"]
    );
}

#[test]
fn timestamps() {
    assert_eq!(timestamp_from_epoch_seconds(None), 0);
    assert_eq!(timestamp_from_epoch_seconds(Some(1_700_000_000)), 1_700_000_000);
    assert_eq!(timestamp_from_epoch_seconds(Some(u64::MAX)), -1);
    assert!(now_ts() > 1_600_000_000);
}

#[test]
fn target_root_sanitizing() {
    assert_eq!(sanitize_target_root("  "), Err(StorageError::EmptyTargetRoot));
    assert_eq!(sanitize_target_root("data/here"), Err(StorageError::RelativeTargetRoot));
    assert_eq!(sanitize_target_root(" /mnt/data "), Ok("/mnt/data".to_string()));
    assert_eq!(StorageError::EmptyTargetRoot.message(), "目标目录不能为空");
    assert_eq!(StorageError::RelativeTargetRoot.message(), "目标目录必须是绝对路径");
}

#[test]
fn target_root_validation() {
    assert_eq!(validate_target_root("/a", "/a", "/l"), Err(StorageError::TargetInsideAppData));
    assert_eq!(validate_target_root("/a/sub", "/a", "/l"), Err(StorageError::TargetInsideAppData));
    assert_eq!(validate_target_root("/l/x", "/a", "/l"), Err(StorageError::TargetInsideLocalAppData));
    assert_eq!(validate_target_root("/ab", "/a", "/l"), Ok(()));
    assert_eq!(validate_target_root("/", "/a", "/l"), Ok(()));
    assert_eq!(StorageError::TargetInsideAppData.message(), "目标目录不能位于当前应用数据目录内部");
}

#[test]
fn empty_or_missing_directories() {
    assert_eq!(ensure_empty_or_missing("/t", "目标实例目录", DirProbe::Missing), Ok(()));
    assert_eq!(ensure_empty_or_missing("/t", "目标实例目录", DirProbe::Listed { has_entries: false }), Ok(()));
    let e = ensure_empty_or_missing("/t", "目标实例目录", DirProbe::Listed { has_entries: true }).unwrap_err();
    assert_eq!(e.message(), "目标实例目录 已存在且不为空: /t");
    let f = ensure_empty_or_missing("/t", "目标应用数据目录", DirProbe::NotADirectory).unwrap_err();
    assert_eq!(f.message(), "目标应用数据目录 不是目录: /t");
    let g = ensure_empty_or_missing("/t", "X", DirProbe::Unreadable { detail: "denied".into() }).unwrap_err();
    assert_eq!(g.message(), "读取 X 失败: denied");
}

#[test]
fn default_instance_dir_requests() {
    assert_eq!(plan_default_instance_base_dir(false, Some("/x")), Ok(BaseDirUpdate::Keep));
    assert_eq!(plan_default_instance_base_dir(true, None), Ok(BaseDirUpdate::Clear));
    assert_eq!(plan_default_instance_base_dir(true, Some(" /x ")), Ok(BaseDirUpdate::Record("/x".into())));
    assert_eq!(plan_default_instance_base_dir(true, Some("x")), Err(StorageError::RelativeTargetRoot));
}

fn request(root: &str, app: bool, inst: bool) -> StorageMigrationRequest {
    StorageMigrationRequest { target_root: root.to_string(), migrate_app_data: app, migrate_instances: inst }
}

#[test]
fn migration_request_checks() {
    assert_eq!(check_migration_request(false, &request("/t", true, true)), Err(StorageError::MigrationUnsupported));
    assert_eq!(check_migration_request(true, &request("/t", false, false)), Err(StorageError::NoMigrationScope));
    assert_eq!(check_migration_request(true, &request("/t", false, true)), Ok(()));
    assert_eq!(StorageError::NoMigrationScope.message(), "至少需要选择一项迁移范围");
}

#[test]
fn migration_plan_and_result() {
    let p = plan_storage_migration(&request(" /t ", true, true), "/old/app", "/t/local-app-data").unwrap();
    assert_eq!(p.target_root, "/t");
    assert_eq!(p.target_app_data, "/t/app-data");
    assert_eq!(p.target_local_app_data, "/t/local-app-data");
    assert_eq!(p.target_instance_base, "/t/instances");
    assert!(p.copy_app_data);
    assert!(!p.copy_local_app_data);
    assert!(p.migrate_instances);
    let r = finish_storage_migration(&p, state(true), &vec![1, 0, 2]);
    assert!(r.migrated_app_data);
    assert!(r.requires_restart);
    assert_eq!(r.migrated_instances, 3);
    assert_eq!(r.app_data_path, "/a");
    assert_eq!(r.instance_base_dir, "/b");
    assert_eq!(r.notes, vec![
        "应用数据目录已复制到新目录，旧目录保留作为回滚备份。".to_string(),
        "已更新多开实例记录中的实例目录路径。".to_string(),
    ]);
}

#[test]
fn migration_plan_refusals() {
    assert_eq!(plan_storage_migration(&request("", true, false), "/a", "/l"), Err(StorageError::EmptyTargetRoot));
    assert_eq!(plan_storage_migration(&request("/a/in", true, false), "/a", "/l"), Err(StorageError::TargetInsideAppData));
    let only_instances = plan_storage_migration(&request("/t", false, true), "/a", "/l").unwrap();
    assert!(!only_instances.copy_app_data && !only_instances.copy_local_app_data);
    let r = finish_storage_migration(&only_instances, state(true), &vec![]);
    assert_eq!(r.migrated_instances, 0);
    assert!(!r.migrated_app_data && !r.requires_restart);
    assert_eq!(r.notes, vec!["已更新多开实例记录中的实例目录路径。".to_string()]);
    let no_instances = plan_storage_migration(&request("/t", true, false), "/a", "/l").unwrap();
    let r2 = finish_storage_migration(&no_instances, state(true), &vec![4]);
    assert_eq!(r2.migrated_instances, 0);
}
