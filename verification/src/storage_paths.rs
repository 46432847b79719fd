//! Where the application keeps its data: the legacy locations under the
//! user's directories, the custom locations recorded in the bootstrap
//! configuration (Windows only), and the directory layout of a migration
//! target.

use vstd::prelude::*;
use vstd::string::*;
use crate::error::StorageError;
use crate::path::{join_path, is_absolute_path, path_join, path_is_absolute};
use crate::platform::{home_dir, data_local_dir, config_dir, DirLookup};
use crate::text::{trim_whitespace, trim_spec};

verus! {

/// Directory under the home directory that holds the legacy application data.
pub const LEGACY_DATA_DIR: &'static str = ".antigravity_cockpit";
/// Directory that holds the managed instances.
pub const INSTANCES_DIR: &'static str = "instances";
/// Directory under the local data directory that holds private application data.
pub const LOCAL_APP_DATA_DIR: &'static str = "com.antigravity.cockpit-tools";
/// Directory under the configuration directory that holds the bootstrap file (Windows).
pub const WINDOWS_BOOTSTRAP_DIR: &'static str = "AntigravityCockpit";
/// Name of the bootstrap file (Windows).
pub const WINDOWS_BOOTSTRAP_FILE: &'static str = "storage-bootstrap.json";
/// Legacy instance directory relative to `%APPDATA%` (Windows).
pub const WINDOWS_LEGACY_INSTANCES: &'static str = ".antigravity_cockpit\\instances";
/// Application data directory inside a migration target.
pub const TARGET_APP_DATA_DIR: &'static str = "app-data";
/// Local application data directory inside a migration target.
pub const TARGET_LOCAL_APP_DATA_DIR: &'static str = "local-app-data";

/// The custom storage locations recorded in the bootstrap configuration.
#[derive(Debug, Clone, PartialEq, Eq)]
pub struct StorageBootstrap {
    pub app_data_dir: Option<String>,
    pub instance_base_dir: Option<String>,
    pub local_app_data_dir: Option<String>,
}

impl Default for StorageBootstrap {
    /// A bootstrap that records no custom location.
    fn default() -> (r: Self)
        ensures
            r.app_data_dir is None,
            r.instance_base_dir is None,
            r.local_app_data_dir is None,
    {
        StorageBootstrap { app_data_dir: None, instance_base_dir: None, local_app_data_dir: None }
    }
}

/// What the running system reported about the user's directories.
#[derive(Debug, Clone, PartialEq, Eq)]
pub struct Environment {
    /// Whether the application runs on Windows, where custom locations are honoured.
    pub windows: bool,
    /// The user's home directory.
    pub home: Option<String>,
    /// The user's local data directory.
    pub data_local: DirLookup,
    /// The user's configuration directory.
    pub config: Option<String>,
    /// The value of the `APPDATA` environment variable.
    pub appdata: Option<String>,
}

impl Environment {
    /// Asks the system for the user's directories.
    pub fn read(windows: bool, appdata: Option<String>) -> (r: Self)
        ensures
            r.windows == windows,
            r.appdata == appdata,
    {
        Environment {
            windows,
            home: home_dir(),
            data_local: data_local_dir(),
            config: config_dir(),
            appdata,
        }
    }
}

/// A path result seen as text.
pub open spec fn text_result(r: Result<String, StorageError>) -> Result<Seq<char>, StorageError> {
    match r {
        Ok(s) => Ok(s@),
        Err(e) => Err(e),
    }
}

/// A configured path, trimmed, when it is non-empty and absolute.
pub open spec fn normalized_path(raw: Option<Seq<char>>) -> Option<Seq<char>> {
    match raw {
        None => None,
        Some(s) => {
            let t = trim_spec(s);
            if t.len() == 0 || !path_is_absolute(t) {
                None
            } else {
                Some(t)
            }
        },
    }
}

/// The custom location that applies: only Windows honours the bootstrap.
pub open spec fn custom_dir(windows: bool, configured: Option<Seq<char>>) -> Option<Seq<char>> {
    if windows {
        normalized_path(configured)
    } else {
        None
    }
}

pub open spec fn legacy_app_data_dir_spec(home: Option<Seq<char>>) -> Result<Seq<char>, StorageError> {
    match home {
        None => Err(StorageError::HomeDirUnavailable),
        Some(h) => Ok(path_join(h, LEGACY_DATA_DIR@)),
    }
}

pub open spec fn legacy_instance_base_dir_spec(
    windows: bool,
    home: Option<Seq<char>>,
    appdata: Option<Seq<char>>,
) -> Result<Seq<char>, StorageError> {
    if windows {
        match appdata {
            None => Err(StorageError::AppDataVarUnavailable),
            Some(a) => Ok(path_join(a, WINDOWS_LEGACY_INSTANCES@)),
        }
    } else {
        match home {
            None => Err(StorageError::HomeDirUnavailable),
            Some(h) => Ok(path_join(path_join(h, LEGACY_DATA_DIR@), INSTANCES_DIR@)),
        }
    }
}

pub open spec fn legacy_local_app_data_dir_spec(
    data_local: DirLookup,
    home: Option<Seq<char>>,
) -> Result<Seq<char>, StorageError> {
    match data_local {
        DirLookup::Found(d) => Ok(path_join(d@, LOCAL_APP_DATA_DIR@)),
        DirLookup::NotText => Err(StorageError::LocalAppDataDirUnavailable),
        DirLookup::Missing => match home {
            None => Err(StorageError::LocalAppDataDirUnavailable),
            Some(h) => Ok(path_join(h, LOCAL_APP_DATA_DIR@)),
        },
    }
}

pub open spec fn bootstrap_file_path_spec(windows: bool, config: Option<Seq<char>>) -> Result<Seq<char>, StorageError> {
    if !windows {
        Err(StorageError::BootstrapUnsupported)
    } else {
        match config {
            None => Err(StorageError::ConfigDirUnavailable),
            Some(c) => Ok(path_join(path_join(c, WINDOWS_BOOTSTRAP_DIR@), WINDOWS_BOOTSTRAP_FILE@)),
        }
    }
}

/// A custom location when one applies, the legacy one otherwise.
pub open spec fn resolve_dir(custom: Option<Seq<char>>, legacy: Result<Seq<char>, StorageError>) -> Result<Seq<char>, StorageError> {
    match custom {
        Some(c) => Ok(c),
        None => legacy,
    }
}

pub open spec fn app_data_dir_spec(env: Environment, b: StorageBootstrap) -> Result<Seq<char>, StorageError> {
    resolve_dir(
        custom_dir(env.windows, b.app_data_dir.deep_view()),
        legacy_app_data_dir_spec(env.home.deep_view()),
    )
}

pub open spec fn instance_base_dir_spec(env: Environment, b: StorageBootstrap) -> Result<Seq<char>, StorageError> {
    resolve_dir(
        custom_dir(env.windows, b.instance_base_dir.deep_view()),
        legacy_instance_base_dir_spec(env.windows, env.home.deep_view(), env.appdata.deep_view()),
    )
}

pub open spec fn local_app_data_dir_spec(env: Environment, b: StorageBootstrap) -> Result<Seq<char>, StorageError> {
    resolve_dir(
        custom_dir(env.windows, b.local_app_data_dir.deep_view()),
        legacy_local_app_data_dir_spec(env.data_local, env.home.deep_view()),
    )
}

/// The configured path, trimmed, when it is non-empty and absolute; `None` otherwise.
pub fn normalize_absolute_path(raw: Option<&str>) -> (r: Option<String>)
    ensures
        r.deep_view() == normalized_path(raw.deep_view()),
{
    match raw {
        None => None,
        Some(s) => {
            let t = trim_whitespace(s);
            if t.is_empty() {
                None
            } else if !is_absolute_path(t) {
                None
            } else {
                Some(t.to_owned())
            }
        },
    }
}

/// The custom location recorded for one directory, when it applies.
pub fn custom_location(windows: bool, configured: &Option<String>) -> (r: Option<String>)
    ensures
        r.deep_view() == custom_dir(windows, configured.deep_view()),
{
    if !windows {
        return None;
    }
    match configured {
        None => normalize_absolute_path(None),
        Some(s) => normalize_absolute_path(Some(s.as_str())),
    }
}

/// The legacy application data directory: `.antigravity_cockpit` in the home directory.
pub fn legacy_app_data_dir(env: &Environment) -> (r: Result<String, StorageError>)
    ensures
        text_result(r) == legacy_app_data_dir_spec(env.home.deep_view()),
{
    match &env.home {
        None => Err(StorageError::HomeDirUnavailable),
        Some(h) => Ok(join_path(h.as_str(), LEGACY_DATA_DIR)),
    }
}

/// The legacy instance directory: `%APPDATA%\.antigravity_cockpit\instances`
/// on Windows, `.antigravity_cockpit/instances` in the home directory elsewhere.
pub fn legacy_instance_base_dir(env: &Environment) -> (r: Result<String, StorageError>)
    ensures
        text_result(r) == legacy_instance_base_dir_spec(
            env.windows,
            env.home.deep_view(),
            env.appdata.deep_view(),
        ),
{
    if env.windows {
        match &env.appdata {
            None => Err(StorageError::AppDataVarUnavailable),
            Some(a) => Ok(join_path(a.as_str(), WINDOWS_LEGACY_INSTANCES)),
        }
    } else {
        match &env.home {
            None => Err(StorageError::HomeDirUnavailable),
            Some(h) => {
                let data = join_path(h.as_str(), LEGACY_DATA_DIR);
                Ok(join_path(data.as_str(), INSTANCES_DIR))
            },
        }
    }
}

/// The legacy local application data directory: `com.antigravity.cockpit-tools`
/// in the local data directory, or in the home directory when the system does
/// not know a local data directory.
pub fn legacy_local_app_data_dir(env: &Environment) -> (r: Result<String, StorageError>)
    ensures
        text_result(r) == legacy_local_app_data_dir_spec(env.data_local, env.home.deep_view()),
{
    match &env.data_local {
        DirLookup::Found(d) => Ok(join_path(d.as_str(), LOCAL_APP_DATA_DIR)),
        DirLookup::NotText => Err(StorageError::LocalAppDataDirUnavailable),
        DirLookup::Missing => match &env.home {
            None => Err(StorageError::LocalAppDataDirUnavailable),
            Some(h) => Ok(join_path(h.as_str(), LOCAL_APP_DATA_DIR)),
        },
    }
}

/// The bootstrap file: `AntigravityCockpit/storage-bootstrap.json` in the
/// configuration directory. Only Windows keeps one.
pub fn bootstrap_file_path(env: &Environment) -> (r: Result<String, StorageError>)
    ensures
        text_result(r) == bootstrap_file_path_spec(env.windows, env.config.deep_view()),
{
    if !env.windows {
        return Err(StorageError::BootstrapUnsupported);
    }
    match &env.config {
        None => Err(StorageError::ConfigDirUnavailable),
        Some(c) => {
            let dir = join_path(c.as_str(), WINDOWS_BOOTSTRAP_DIR);
            Ok(join_path(dir.as_str(), WINDOWS_BOOTSTRAP_FILE))
        },
    }
}

/// Where the bootstrap configuration is read from and written to: nowhere off
/// Windows (the default bootstrap applies), the bootstrap file on Windows.
pub fn bootstrap_location(env: &Environment) -> (r: Result<Option<String>, StorageError>)
    ensures
        !env.windows ==> r == Ok::<Option<String>, StorageError>(None),
        env.windows ==> match bootstrap_file_path_spec(true, env.config.deep_view()) {
            Ok(p) => r matches Ok(Some(s)) && s@ == p,
            Err(e) => r == Err::<Option<String>, StorageError>(e),
        },
{
    if !env.windows {
        return Ok(None);
    }
    let path = bootstrap_file_path(env)?;
    Ok(Some(path))
}

/// The application data directory in use: the custom one on Windows when the
/// bootstrap records a usable one, the legacy one otherwise.
pub fn get_app_data_dir(env: &Environment, bootstrap: &StorageBootstrap) -> (r: Result<String, StorageError>)
    ensures
        text_result(r) == app_data_dir_spec(*env, *bootstrap),
{
    match custom_location(env.windows, &bootstrap.app_data_dir) {
        Some(c) => Ok(c),
        None => legacy_app_data_dir(env),
    }
}

/// The instance directory in use: the custom one on Windows when the bootstrap
/// records a usable one, the legacy one otherwise.
pub fn get_instance_base_dir(env: &Environment, bootstrap: &StorageBootstrap) -> (r: Result<String, StorageError>)
    ensures
        text_result(r) == instance_base_dir_spec(*env, *bootstrap),
{
    match custom_location(env.windows, &bootstrap.instance_base_dir) {
        Some(c) => Ok(c),
        None => legacy_instance_base_dir(env),
    }
}

/// The local application data directory in use: the custom one on Windows when
/// the bootstrap records a usable one, the legacy one otherwise.
pub fn get_local_app_data_dir(env: &Environment, bootstrap: &StorageBootstrap) -> (r: Result<String, StorageError>)
    ensures
        text_result(r) == local_app_data_dir_spec(*env, *bootstrap),
{
    match custom_location(env.windows, &bootstrap.local_app_data_dir) {
        Some(c) => Ok(c),
        None => legacy_local_app_data_dir(env),
    }
}

/// The directory of one platform's instances: named after the platform, inside
/// the instance directory in use.
pub fn get_instance_root_dir(env: &Environment, bootstrap: &StorageBootstrap, platform: &str) -> (r: Result<String, StorageError>)
    ensures
        text_result(r) == match instance_base_dir_spec(*env, *bootstrap) {
            Ok(base) => Ok(path_join(base, platform@)),
            Err(e) => Err(e),
        },
{
    let base = get_instance_base_dir(env, bootstrap)?;
    Ok(join_path(base.as_str(), platform))
}

/// Records `path` as the custom application data directory (`None` clears it).
pub fn set_app_data_dir(bootstrap: &mut StorageBootstrap, path: Option<String>)
    ensures
        final(bootstrap).app_data_dir == path,
        final(bootstrap).instance_base_dir == old(bootstrap).instance_base_dir,
        final(bootstrap).local_app_data_dir == old(bootstrap).local_app_data_dir,
{
    bootstrap.app_data_dir = path;
}

/// Records `path` as the custom instance directory (`None` clears it).
pub fn set_instance_base_dir(bootstrap: &mut StorageBootstrap, path: Option<String>)
    ensures
        final(bootstrap).instance_base_dir == path,
        final(bootstrap).app_data_dir == old(bootstrap).app_data_dir,
        final(bootstrap).local_app_data_dir == old(bootstrap).local_app_data_dir,
{
    bootstrap.instance_base_dir = path;
}

/// Records `path` as the custom local application data directory (`None` clears it).
pub fn set_local_app_data_dir(bootstrap: &mut StorageBootstrap, path: Option<String>)
    ensures
        final(bootstrap).local_app_data_dir == path,
        final(bootstrap).app_data_dir == old(bootstrap).app_data_dir,
        final(bootstrap).instance_base_dir == old(bootstrap).instance_base_dir,
{
    bootstrap.local_app_data_dir = path;
}

/// The application data directory inside a migration target: `app-data`.
pub fn build_target_app_data_dir(target_root: &str) -> (r: String)
    ensures
        r@ == path_join(target_root@, TARGET_APP_DATA_DIR@),
{
    join_path(target_root, TARGET_APP_DATA_DIR)
}

/// The instance directory inside a migration target: `instances`.
pub fn build_target_instance_base_dir(target_root: &str) -> (r: String)
    ensures
        r@ == path_join(target_root@, INSTANCES_DIR@),
{
    join_path(target_root, INSTANCES_DIR)
}

/// The local application data directory inside a migration target: `local-app-data`.
pub fn build_target_local_app_data_dir(target_root: &str) -> (r: String)
    ensures
        r@ == path_join(target_root@, TARGET_LOCAL_APP_DATA_DIR@),
{
    join_path(target_root, TARGET_LOCAL_APP_DATA_DIR)
}

} // verus!
