//! The storage overview and the migration of the application's data: the
//! records handed to the user interface, their assembly from measurements,
//! and the checks and plan of a migration.

use vstd::prelude::*;
use vstd::string::*;
use crate::error::StorageError;
use crate::ordering::{StableOrder, stable_sort, stably_sorted_from};
use crate::path::{is_absolute_path, path_has_prefix, same_path, path_eq, path_is_absolute, path_join, path_starts_with};
use crate::storage_paths::{
    Environment, StorageBootstrap, app_data_dir_spec, build_target_app_data_dir,
    build_target_instance_base_dir, build_target_local_app_data_dir, get_app_data_dir,
    get_instance_base_dir, get_local_app_data_dir, instance_base_dir_spec, legacy_app_data_dir,
    legacy_app_data_dir_spec, legacy_instance_base_dir, legacy_instance_base_dir_spec,
    legacy_local_app_data_dir, legacy_local_app_data_dir_spec, local_app_data_dir_spec,
    text_result, INSTANCES_DIR, TARGET_APP_DATA_DIR, TARGET_LOCAL_APP_DATA_DIR,
};
use crate::text::{lemma_text_less_irreflexive, lemma_text_less_total, lemma_text_less_transitive, str_less, text_less, trim_spec, trim_whitespace};

verus! {

/// Size and entry count of one storage location.
#[derive(Debug, Clone, PartialEq, Eq)]
pub struct StoragePathStat {
    pub key: String,
    pub path: String,
    pub exists: bool,
    pub size_bytes: u64,
    pub item_count: u64,
}

/// Size and entry count of one managed instance's directory.
#[derive(Debug, Clone, PartialEq, Eq)]
pub struct ManagedInstanceStat {
    pub platform: String,
    pub instance_id: String,
    pub name: String,
    pub user_data_dir: String,
    pub size_bytes: u64,
    pub item_count: u64,
}

/// The storage locations in use and whether each differs from its legacy one.
#[derive(Debug, Clone, PartialEq, Eq)]
pub struct StorageState {
    pub supported: bool,
    pub app_data_path: String,
    pub legacy_app_data_path: String,
    pub app_data_customized: bool,
    pub local_app_data_path: String,
    pub legacy_local_app_data_path: String,
    pub local_app_data_customized: bool,
    pub instance_base_dir: String,
    pub legacy_instance_base_dir: String,
    pub instance_base_customized: bool,
}

/// Everything the storage page shows.
#[derive(Debug, Clone, PartialEq, Eq)]
pub struct StorageOverview {
    pub supported: bool,
    pub scanned_at: i64,
    pub total_bytes: u64,
    pub app_data_size_bytes: u64,
    pub instances_total_bytes: u64,
    pub state: StorageState,
    pub path_stats: Vec<StoragePathStat>,
    pub managed_instances: Vec<ManagedInstanceStat>,
    pub notes: Vec<String>,
}

/// A request to move the application's data under a new root directory.
#[derive(Debug, Clone, PartialEq, Eq)]
pub struct StorageMigrationRequest {
    pub target_root: String,
    pub migrate_app_data: bool,
    pub migrate_instances: bool,
}

/// The outcome of a completed migration.
#[derive(Debug, Clone, PartialEq, Eq)]
pub struct StorageMigrationResult {
    pub app_data_path: String,
    pub instance_base_dir: String,
    pub migrated_app_data: bool,
    pub migrated_instances: usize,
    pub requires_restart: bool,
    pub notes: Vec<String>,
}

/// The six locations a storage state is built from.
#[derive(Debug, Clone, PartialEq, Eq)]
pub struct StorageDirs {
    pub app_data: String,
    pub legacy_app_data: String,
    pub local_app_data: String,
    pub legacy_local_app_data: String,
    pub instance_base: String,
    pub legacy_instance_base: String,
}

// ---------------------------------------------------------------------------
// Ordering of the overview's lists
// ---------------------------------------------------------------------------

/// Larger sizes first; equal sizes by the first text, then by the second.
pub open spec fn ranks_before(sa: u64, a1: Seq<char>, a2: Seq<char>, sb: u64, b1: Seq<char>, b2: Seq<char>) -> bool {
    sa > sb || (sa == sb && (text_less(a1, b1) || (a1 == b1 && text_less(a2, b2))))
}

pub proof fn lemma_ranks_irreflexive(s: u64, a1: Seq<char>, a2: Seq<char>)
    ensures
        !ranks_before(s, a1, a2, s, a1, a2),
{
    lemma_text_less_irreflexive(a1);
    lemma_text_less_irreflexive(a2);
}

pub proof fn lemma_ranks_transitive(
    sa: u64, a1: Seq<char>, a2: Seq<char>,
    sb: u64, b1: Seq<char>, b2: Seq<char>,
    sc: u64, c1: Seq<char>, c2: Seq<char>,
)
    requires
        ranks_before(sa, a1, a2, sb, b1, b2),
        ranks_before(sb, b1, b2, sc, c1, c2),
    ensures
        ranks_before(sa, a1, a2, sc, c1, c2),
{
    if sa == sb && sb == sc {
        if text_less(a1, b1) && text_less(b1, c1) {
            lemma_text_less_transitive(a1, b1, c1);
        }
        if a1 == b1 && b1 == c1 {
            lemma_text_less_transitive(a2, b2, c2);
        }
    }
}

pub proof fn lemma_ranks_split(
    sa: u64, a1: Seq<char>, a2: Seq<char>,
    sb: u64, b1: Seq<char>, b2: Seq<char>,
    sc: u64, c1: Seq<char>, c2: Seq<char>,
)
    requires
        ranks_before(sa, a1, a2, sb, b1, b2),
    ensures
        ranks_before(sa, a1, a2, sc, c1, c2) || ranks_before(sc, c1, c2, sb, b1, b2),
{
    if sa == sb && sc == sa {
        lemma_text_less_total(a1, c1);
        lemma_text_less_total(a2, c2);
        if text_less(c1, a1) && text_less(a1, b1) {
            lemma_text_less_transitive(c1, a1, b1);
        }
        if a1 == c1 && a1 == b1 && text_less(c2, a2) {
            lemma_text_less_transitive(c2, a2, b2);
        }
    }
}

impl StableOrder for StoragePathStat {
    /// Larger first, then by key.
    open spec fn before(self, other: Self) -> bool {
        ranks_before(self.size_bytes, self.key@, Seq::empty(), other.size_bytes, other.key@, Seq::empty())
    }

    fn is_before(&self, other: &Self) -> (r: bool) {
        self.size_bytes > other.size_bytes || (self.size_bytes == other.size_bytes && str_less(
            self.key.as_str(),
            other.key.as_str(),
        ))
    }

    proof fn lemma_irreflexive(a: Self) {
        lemma_ranks_irreflexive(a.size_bytes, a.key@, Seq::empty());
    }

    proof fn lemma_transitive(a: Self, b: Self, c: Self) {
        lemma_ranks_transitive(
            a.size_bytes, a.key@, Seq::empty(),
            b.size_bytes, b.key@, Seq::empty(),
            c.size_bytes, c.key@, Seq::empty(),
        );
    }

    proof fn lemma_split(a: Self, b: Self, c: Self) {
        lemma_ranks_split(
            a.size_bytes, a.key@, Seq::empty(),
            b.size_bytes, b.key@, Seq::empty(),
            c.size_bytes, c.key@, Seq::empty(),
        );
    }
}

impl StableOrder for ManagedInstanceStat {
    /// Larger first, then by platform, then by name.
    open spec fn before(self, other: Self) -> bool {
        ranks_before(self.size_bytes, self.platform@, self.name@, other.size_bytes, other.platform@, other.name@)
    }

    fn is_before(&self, other: &Self) -> (r: bool) {
        if self.size_bytes != other.size_bytes {
            return self.size_bytes > other.size_bytes;
        }
        if str_less(self.platform.as_str(), other.platform.as_str()) {
            return true;
        }
        if self.platform == other.platform {
            str_less(self.name.as_str(), other.name.as_str())
        } else {
            false
        }
    }

    proof fn lemma_irreflexive(a: Self) {
        lemma_ranks_irreflexive(a.size_bytes, a.platform@, a.name@);
    }

    proof fn lemma_transitive(a: Self, b: Self, c: Self) {
        lemma_ranks_transitive(
            a.size_bytes, a.platform@, a.name@,
            b.size_bytes, b.platform@, b.name@,
            c.size_bytes, c.platform@, c.name@,
        );
    }

    proof fn lemma_split(a: Self, b: Self, c: Self) {
        lemma_ranks_split(
            a.size_bytes, a.platform@, a.name@,
            b.size_bytes, b.platform@, b.name@,
            c.size_bytes, c.platform@, c.name@,
        );
    }
}

// ---------------------------------------------------------------------------
// Measurements
// ---------------------------------------------------------------------------

/// Total size of a directory's children, adding with saturation.
pub open spec fn children_size(children: Seq<(u64, u64)>) -> u64
    decreases children.len(),
{
    if children.len() == 0 {
        0
    } else {
        children_size(children.drop_last()).saturating_add(children.last().0)
    }
}

/// Entry count of a directory: each child counts itself and its own entries,
/// adding with saturation.
pub open spec fn children_items(children: Seq<(u64, u64)>) -> u64
    decreases children.len(),
{
    if children.len() == 0 {
        0
    } else {
        children_items(children.drop_last()).saturating_add(children.last().1.saturating_add(1))
    }
}

/// `n`, capped at `u64::MAX`.
pub open spec fn capped(n: nat) -> u64 {
    if n > u64::MAX {
        u64::MAX
    } else {
        n as u64
    }
}

/// The sum of a sequence of counts.
pub open spec fn total_of(counts: Seq<nat>) -> nat
    decreases counts.len(),
{
    if counts.len() == 0 {
        0
    } else {
        total_of(counts.drop_last()) + counts.last()
    }
}

proof fn lemma_capped_sum(a: nat, b: nat)
    ensures
        capped(a).saturating_add(capped(b)) == capped(a + b),
{
}

/// Measuring level by level loses nothing but the cap: when each child's
/// measurement is its true size and entry count capped at `u64::MAX`, the
/// directory's measurement is its true total size, and its true entry count
/// (each child's entries plus the child itself), capped the same way. By
/// induction over the tree, the measurement of any directory is its true
/// total, capped.
pub proof fn law_directory_measure_is_capped_total(children: Seq<(u64, u64)>, sizes: Seq<nat>, items: Seq<nat>)
    requires
        sizes.len() == children.len(),
        items.len() == children.len(),
        forall|i: int| 0 <= i < children.len() ==> #[trigger] children[i] == (capped(sizes[i]), capped(items[i])),
    ensures
        children_size(children) == capped(total_of(sizes)),
        children_items(children) == capped(total_of(items) + children.len()),
    decreases children.len(),
{
    if children.len() > 0 {
        let k = children.len() - 1;
        assert(children[k] == (capped(sizes[k]), capped(items[k])));
        law_directory_measure_is_capped_total(children.drop_last(), sizes.drop_last(), items.drop_last());
        lemma_capped_sum(total_of(sizes.drop_last()), sizes.last());
        lemma_capped_sum(items.last(), 1);
        lemma_capped_sum((total_of(items.drop_last()) + k) as nat, items.last() + 1);
        assert(total_of(items) + children.len() == (total_of(items.drop_last()) + k) + (items.last() + 1));
    }
}

/// The (size, entry count) of a directory from those of its children.
pub fn measure_directory(children: &Vec<(u64, u64)>) -> (r: (u64, u64))
    ensures
        r.0 == children_size(children@),
        r.1 == children_items(children@),
{
    let mut total_size: u64 = 0;
    let mut total_items: u64 = 0;
    let mut i: usize = 0;
    while i < children.len()
        invariant
            i <= children.len(),
            total_size == children_size(children@.take(i as int)),
            total_items == children_items(children@.take(i as int)),
        decreases children.len() - i,
    {
        let (child_size, child_items) = children[i];
        assert(children@.take(i + 1).drop_last() == children@.take(i as int));
        total_size = total_size.saturating_add(child_size);
        total_items = total_items.saturating_add(child_items.saturating_add(1));
        i = i + 1;
    }
    assert(children@.take(i as int) == children@);
    (total_size, total_items)
}

/// The size of a measurement; 0 for a location that does not exist.
pub open spec fn measured_size(measured: Option<(u64, u64)>) -> u64 {
    match measured {
        Some(m) => m.0,
        None => 0,
    }
}

/// The entry count of a measurement; 0 for a location that does not exist.
pub open spec fn measured_items(measured: Option<(u64, u64)>) -> u64 {
    match measured {
        Some(m) => m.1,
        None => 0,
    }
}

/// `s` lists the location `path` under `key`, measured as `measured`
/// (`None`: the location does not exist).
pub open spec fn stat_of(s: StoragePathStat, key: Seq<char>, path: Seq<char>, measured: Option<(u64, u64)>) -> bool {
    &&& s.key@ == key
    &&& s.path@ == path
    &&& s.exists == measured is Some
    &&& s.size_bytes == measured_size(measured)
    &&& s.item_count == measured_items(measured)
}

/// One managed instance with the measurement of its directory (`None`: the
/// directory does not exist).
#[derive(Debug, Clone, PartialEq, Eq)]
pub struct MeasuredInstance {
    pub profile: crate::instances::InstanceProfile,
    pub measured: Option<(u64, u64)>,
}

/// What was found of one managed platform: its instance directory with the
/// measurement of it, and its instances with theirs.
#[derive(Debug, Clone, PartialEq, Eq)]
pub struct PlatformSnapshot {
    pub root_dir: String,
    pub root_measured: Option<(u64, u64)>,
    pub instances: Vec<MeasuredInstance>,
}

/// `s` lists the instance `mi` of the platform `platform`.
pub open spec fn instance_stat_of(s: ManagedInstanceStat, platform: Seq<char>, mi: MeasuredInstance) -> bool {
    &&& s.platform@ == platform
    &&& s.instance_id == mi.profile.id
    &&& s.name == mi.profile.name
    &&& s.user_data_dir == mi.profile.user_data_dir
    &&& s.size_bytes == measured_size(mi.measured)
    &&& s.item_count == measured_items(mi.measured)
}

/// The statistics of a location; `measured` is its (size, entry count), or
/// `None` when it does not exist.
pub fn path_stat(key: &str, path: &str, measured: Option<(u64, u64)>) -> (r: StoragePathStat)
    ensures
        stat_of(r, key@, path@, measured),
{
    let (size_bytes, item_count) = match measured {
        Some(m) => m,
        None => (0, 0),
    };
    StoragePathStat {
        key: String::from_str(key),
        path: String::from_str(path),
        exists: measured.is_some(),
        size_bytes,
        item_count,
    }
}

/// The key under which a platform's instance directory is listed: `instanceRoot:<platform>`.
pub fn instance_root_stat_key(platform_key: &str) -> (r: String)
    ensures
        r@ == "instanceRoot:"@ + platform_key@,
{
    let mut r = String::from_str("instanceRoot:");
    r.append(platform_key);
    r
}

/// The statistics of one instance; `measured` is its directory's (size, entry
/// count), or `None` when the directory does not exist.
pub fn managed_instance_stat(platform: &str, instance: crate::instances::InstanceProfile, measured: Option<(u64, u64)>) -> (r: ManagedInstanceStat)
    ensures
        instance_stat_of(r, platform@, MeasuredInstance { profile: instance, measured }),
{
    let (size_bytes, item_count) = match measured {
        Some(m) => m,
        None => (0, 0),
    };
    ManagedInstanceStat {
        platform: String::from_str(platform),
        instance_id: instance.id,
        name: instance.name,
        user_data_dir: instance.user_data_dir,
        size_bytes,
        item_count,
    }
}


// ---------------------------------------------------------------------------
// Storage state
// ---------------------------------------------------------------------------

/// The storage state: the locations in use, their legacy counterparts, and
/// whether each location in use is a different path from its legacy one.
pub fn build_state(windows: bool, dirs: &StorageDirs) -> (r: StorageState)
    ensures
        r.supported == windows,
        r.app_data_path == dirs.app_data,
        r.legacy_app_data_path == dirs.legacy_app_data,
        r.app_data_customized == !path_eq(dirs.app_data@, dirs.legacy_app_data@),
        r.local_app_data_path == dirs.local_app_data,
        r.legacy_local_app_data_path == dirs.legacy_local_app_data,
        r.local_app_data_customized == !path_eq(dirs.local_app_data@, dirs.legacy_local_app_data@),
        r.instance_base_dir == dirs.instance_base,
        r.legacy_instance_base_dir == dirs.legacy_instance_base,
        r.instance_base_customized == !path_eq(dirs.instance_base@, dirs.legacy_instance_base@),
        dirs.app_data@ == dirs.legacy_app_data@ ==> !r.app_data_customized,
        dirs.local_app_data@ == dirs.legacy_local_app_data@ ==> !r.local_app_data_customized,
        dirs.instance_base@ == dirs.legacy_instance_base@ ==> !r.instance_base_customized,
{
    StorageState {
        supported: windows,
        app_data_path: dirs.app_data.clone(),
        legacy_app_data_path: dirs.legacy_app_data.clone(),
        app_data_customized: !same_path(dirs.app_data.as_str(), dirs.legacy_app_data.as_str()),
        local_app_data_path: dirs.local_app_data.clone(),
        legacy_local_app_data_path: dirs.legacy_local_app_data.clone(),
        local_app_data_customized: !same_path(dirs.local_app_data.as_str(), dirs.legacy_local_app_data.as_str()),
        instance_base_dir: dirs.instance_base.clone(),
        legacy_instance_base_dir: dirs.legacy_instance_base.clone(),
        instance_base_customized: !same_path(dirs.instance_base.as_str(), dirs.legacy_instance_base.as_str()),
    }
}

/// The first of the six locations, in the order they are resolved, that
/// cannot be determined, with its error.
pub open spec fn storage_dirs_error(env: Environment, b: StorageBootstrap) -> Option<StorageError> {
    if let Err(e) = app_data_dir_spec(env, b) {
        Some(e)
    } else if let Err(e) = legacy_app_data_dir_spec(env.home.deep_view()) {
        Some(e)
    } else if let Err(e) = local_app_data_dir_spec(env, b) {
        Some(e)
    } else if let Err(e) = legacy_local_app_data_dir_spec(env.data_local, env.home.deep_view()) {
        Some(e)
    } else if let Err(e) = instance_base_dir_spec(env, b) {
        Some(e)
    } else if let Err(e) = legacy_instance_base_dir_spec(env.windows, env.home.deep_view(), env.appdata.deep_view()) {
        Some(e)
    } else {
        None
    }
}

/// The six locations: in use and legacy, for the application data, the local
/// application data and the instances.
pub fn resolve_storage_dirs(env: &Environment, bootstrap: &StorageBootstrap) -> (r: Result<StorageDirs, StorageError>)
    ensures
        match r {
            Ok(d) => {
                &&& storage_dirs_error(*env, *bootstrap) is None
                &&& app_data_dir_spec(*env, *bootstrap) == Ok::<Seq<char>, StorageError>(d.app_data@)
                &&& legacy_app_data_dir_spec(env.home.deep_view()) == Ok::<Seq<char>, StorageError>(d.legacy_app_data@)
                &&& local_app_data_dir_spec(*env, *bootstrap) == Ok::<Seq<char>, StorageError>(d.local_app_data@)
                &&& legacy_local_app_data_dir_spec(env.data_local, env.home.deep_view())
                    == Ok::<Seq<char>, StorageError>(d.legacy_local_app_data@)
                &&& instance_base_dir_spec(*env, *bootstrap) == Ok::<Seq<char>, StorageError>(d.instance_base@)
                &&& legacy_instance_base_dir_spec(env.windows, env.home.deep_view(), env.appdata.deep_view())
                    == Ok::<Seq<char>, StorageError>(d.legacy_instance_base@)
            },
            Err(e) => storage_dirs_error(*env, *bootstrap) == Some(e),
        },
{
    let app_data = get_app_data_dir(env, bootstrap)?;
    let legacy_app_data = legacy_app_data_dir(env)?;
    let local_app_data = get_local_app_data_dir(env, bootstrap)?;
    let legacy_local_app_data = legacy_local_app_data_dir(env)?;
    let instance_base = get_instance_base_dir(env, bootstrap)?;
    let legacy_instance_base = legacy_instance_base_dir(env)?;
    Ok(StorageDirs {
        app_data,
        legacy_app_data,
        local_app_data,
        legacy_local_app_data,
        instance_base,
        legacy_instance_base,
    })
}

/// The current storage state.
pub fn get_storage_state(env: &Environment, bootstrap: &StorageBootstrap) -> (r: Result<StorageState, StorageError>)
    ensures
        match r {
            Ok(state) => {
                &&& storage_dirs_error(*env, *bootstrap) is None
                &&& state.supported == env.windows
                &&& app_data_dir_spec(*env, *bootstrap) == Ok::<Seq<char>, StorageError>(state.app_data_path@)
                &&& legacy_app_data_dir_spec(env.home.deep_view()) == Ok::<Seq<char>, StorageError>(state.legacy_app_data_path@)
                &&& state.app_data_customized == !path_eq(state.app_data_path@, state.legacy_app_data_path@)
                &&& local_app_data_dir_spec(*env, *bootstrap) == Ok::<Seq<char>, StorageError>(state.local_app_data_path@)
                &&& legacy_local_app_data_dir_spec(env.data_local, env.home.deep_view())
                    == Ok::<Seq<char>, StorageError>(state.legacy_local_app_data_path@)
                &&& state.local_app_data_customized == !path_eq(state.local_app_data_path@, state.legacy_local_app_data_path@)
                &&& instance_base_dir_spec(*env, *bootstrap) == Ok::<Seq<char>, StorageError>(state.instance_base_dir@)
                &&& legacy_instance_base_dir_spec(env.windows, env.home.deep_view(), env.appdata.deep_view())
                    == Ok::<Seq<char>, StorageError>(state.legacy_instance_base_dir@)
                &&& state.instance_base_customized == !path_eq(state.instance_base_dir@, state.legacy_instance_base_dir@)
                &&& state.app_data_path@ == state.legacy_app_data_path@ ==> !state.app_data_customized
                &&& state.local_app_data_path@ == state.legacy_local_app_data_path@ ==> !state.local_app_data_customized
                &&& state.instance_base_dir@ == state.legacy_instance_base_dir@ ==> !state.instance_base_customized
            },
            Err(e) => storage_dirs_error(*env, *bootstrap) == Some(e),
        },
{
    let dirs = resolve_storage_dirs(env, bootstrap)?;
    Ok(build_state(env.windows, &dirs))
}

// ---------------------------------------------------------------------------
// Overview
// ---------------------------------------------------------------------------

pub const NOTE_UNSUPPORTED: &'static str = "当前版本的目录迁移仅在 Windows 上可用。";
pub const NOTE_SCOPE: &'static str = "当前页会统计并迁移 Antigravity 管理的应用数据目录、本地私有数据目录与多开实例目录。";
pub const NOTE_OFFICIAL_CLIENTS: &'static str = "官方客户端自身的默认目录不会在此页自动迁移。";

/// The notes shown under the overview.
pub open spec fn overview_notes(supported: bool) -> Seq<Seq<char>> {
    if !supported {
        seq![NOTE_UNSUPPORTED@]
    } else {
        seq![NOTE_SCOPE@, NOTE_OFFICIAL_CLIENTS@]
    }
}

/// The key under which a platform's instance directory is listed.
pub open spec fn root_stat_key(platform_key: Seq<char>) -> Seq<char> {
    "instanceRoot:"@ + platform_key
}

/// Total size of the platforms' instance directories, adding with saturation.
pub open spec fn roots_size(platforms: Seq<PlatformSnapshot>) -> u64
    decreases platforms.len(),
{
    if platforms.len() == 0 {
        0
    } else {
        roots_size(platforms.drop_last()).saturating_add(measured_size(platforms.last().root_measured))
    }
}

/// The locations the overview lists, before sorting: the application data
/// directory, the local application data directory, then each managed
/// platform's instance directory in the order of `managed_platform_keys`.
pub open spec fn listed_locations(
    listed: Seq<StoragePathStat>,
    state: StorageState,
    app_data_measured: Option<(u64, u64)>,
    local_app_data_measured: Option<(u64, u64)>,
    platforms: Seq<PlatformSnapshot>,
) -> bool {
    &&& listed.len() == platforms.len() + 2
    &&& stat_of(listed[0], "appData"@, state.app_data_path@, app_data_measured)
    &&& stat_of(listed[1], "localAppData"@, state.local_app_data_path@, local_app_data_measured)
    &&& forall|i: int|
        0 <= i < platforms.len() ==> stat_of(
            #[trigger] listed[i + 2],
            root_stat_key(managed_platform_keys()[i]),
            platforms[i].root_dir@,
            platforms[i].root_measured,
        )
}

/// The (platform, instance) positions of every instance, platform by platform
/// and each platform's instances in order.
pub open spec fn instance_slots(platforms: Seq<PlatformSnapshot>) -> Seq<(int, int)>
    decreases platforms.len(),
{
    if platforms.len() == 0 {
        Seq::empty()
    } else {
        let last = platforms.len() - 1;
        instance_slots(platforms.drop_last()) + Seq::new(
            platforms.last().instances@.len(),
            |j: int| (last, j),
        )
    }
}

/// `listed` holds, position by position, the instances at `slots`, each
/// under its managed platform's key.
pub open spec fn instances_at(listed: Seq<ManagedInstanceStat>, slots: Seq<(int, int)>, platforms: Seq<PlatformSnapshot>) -> bool {
    &&& listed.len() == slots.len()
    &&& forall|k: int|
        0 <= k < slots.len() ==> instance_stat_of(
            #[trigger] listed[k],
            managed_platform_keys()[slots[k].0],
            platforms[slots[k].0].instances@[slots[k].1],
        )
}

/// The instances the overview lists, before sorting: every managed platform's
/// instances, platform by platform in the order of `managed_platform_keys`.
pub open spec fn listed_instances(listed: Seq<ManagedInstanceStat>, platforms: Seq<PlatformSnapshot>) -> bool {
    instances_at(listed, instance_slots(platforms), platforms)
}

/// The storage overview from the state and the measurements: the application
/// data and local application data directories of the state, then for each
/// managed platform (`platforms[i]` is the platform `managed_platforms()[i]`)
/// its instance directory, keyed `instanceRoot:<platform>`, and its instances.
/// Locations and instances are listed largest first, ties by key (locations)
/// or by platform and name (instances), otherwise in the order above.
pub fn collect_storage_overview(
    state: StorageState,
    scanned_at: i64,
    app_data_measured: Option<(u64, u64)>,
    local_app_data_measured: Option<(u64, u64)>,
    platforms: Vec<PlatformSnapshot>,
) -> (r: StorageOverview)
    requires
        platforms@.len() == managed_platform_keys().len(),
    ensures
        r.supported == state.supported,
        r.scanned_at == scanned_at,
        r.state == state,
        r.instances_total_bytes == roots_size(platforms@),
        r.app_data_size_bytes == measured_size(app_data_measured).saturating_add(measured_size(local_app_data_measured)),
        r.total_bytes == r.app_data_size_bytes.saturating_add(r.instances_total_bytes),
        exists|listed: Seq<StoragePathStat>|
            #![trigger listed_locations(listed, state, app_data_measured, local_app_data_measured, platforms@)]
            listed_locations(listed, state, app_data_measured, local_app_data_measured, platforms@)
                && stably_sorted_from(r.path_stats@, listed),
        exists|listed: Seq<ManagedInstanceStat>|
            #![trigger listed_instances(listed, platforms@)]
            listed_instances(listed, platforms@) && stably_sorted_from(r.managed_instances@, listed),
        r.notes.deep_view() == overview_notes(state.supported),
{
    let keys = managed_platforms();
    let app_data_stat = path_stat("appData", state.app_data_path.as_str(), app_data_measured);
    let local_app_data_stat = path_stat("localAppData", state.local_app_data_path.as_str(), local_app_data_measured);
    let app_data_size_bytes = app_data_stat.size_bytes.saturating_add(local_app_data_stat.size_bytes);

    let mut locations: Vec<StoragePathStat> = Vec::new();
    locations.push(app_data_stat);
    locations.push(local_app_data_stat);
    let mut instances: Vec<ManagedInstanceStat> = Vec::new();
    let mut instances_total_bytes: u64 = 0;
    let n = platforms.len();
    let mut i: usize = 0;
    while i < n
        invariant
            n == platforms@.len(),
            n == managed_platform_keys().len(),
            keys.deep_view() == managed_platform_keys(),
            i <= n,
            instances_total_bytes == roots_size(platforms@.take(i as int)),
            locations@.len() == i + 2,
            stat_of(locations@[0], "appData"@, state.app_data_path@, app_data_measured),
            stat_of(locations@[1], "localAppData"@, state.local_app_data_path@, local_app_data_measured),
            forall|a: int|
                0 <= a < i ==> stat_of(
                    #[trigger] locations@[a + 2],
                    root_stat_key(managed_platform_keys()[a]),
                    platforms@[a].root_dir@,
                    platforms@[a].root_measured,
                ),
            instances_at(instances@, instance_slots(platforms@.take(i as int)), platforms@),
        decreases n - i,
    {
        let platform = &platforms[i];
        let key = &keys[i];
        assert(key@ == managed_platform_keys()[i as int]) by {
            assert(keys.deep_view()[i as int] == keys@[i as int]@);
        }
        let root_key = instance_root_stat_key(key.as_str());
        let ghost before_locations = locations@;
        locations.push(path_stat(root_key.as_str(), platform.root_dir.as_str(), platform.root_measured));
        assert forall|a: int| 0 <= a < i + 1 implies stat_of(
            #[trigger] locations@[a + 2],
            root_stat_key(managed_platform_keys()[a]),
            platforms@[a].root_dir@,
            platforms@[a].root_measured,
        ) by {
            if a < i {
                assert(locations@[a + 2] == before_locations[a + 2]);
            }
        }
        let root_size: u64 = match platform.root_measured {
            Some(m) => m.0,
            None => 0,
        };
        assert(platforms@.take(i + 1).drop_last() =~= platforms@.take(i as int));
        instances_total_bytes = instances_total_bytes.saturating_add(root_size);

        let ghost done = instance_slots(platforms@.take(i as int));
        let m = platform.instances.len();
        let mut j: usize = 0;
        while j < m
            invariant
                m == platform.instances@.len(),
                platform == platforms@[i as int],
                i < n,
                n == platforms@.len(),
                key@ == managed_platform_keys()[i as int],
                j <= m,
                instances_at(
                    instances@,
                    done + Seq::new(j as nat, |jj: int| (i as int, jj)),
                    platforms@,
                ),
            decreases m - j,
        {
            let mi = &platform.instances[j];
            let profile = crate::instances::InstanceProfile {
                id: mi.profile.id.clone(),
                name: mi.profile.name.clone(),
                user_data_dir: mi.profile.user_data_dir.clone(),
            };
            assert(profile == mi.profile);
            let ghost before = instances@;
            let ghost slots = done + Seq::new(j as nat, |jj: int| (i as int, jj));
            instances.push(managed_instance_stat(key.as_str(), profile, mi.measured));
            let ghost slots2 = done + Seq::new((j + 1) as nat, |jj: int| (i as int, jj));
            assert(slots2 =~= slots.push((i as int, j as int)));
            assert forall|k: int| 0 <= k < slots2.len() implies instance_stat_of(
                #[trigger] instances@[k],
                managed_platform_keys()[slots2[k].0],
                platforms@[slots2[k].0].instances@[slots2[k].1],
            ) by {
                if k < slots.len() {
                    assert(instances@[k] == before[k]);
                    assert(slots2[k] == slots[k]);
                }
            }
            j = j + 1;
        }
        assert(instance_slots(platforms@.take(i + 1)) =~= done + Seq::new(m as nat, |jj: int| (i as int, jj))) by {
            let t = platforms@.take(i + 1);
            assert(t.drop_last() =~= platforms@.take(i as int));
            assert(t.last() == platforms@[i as int]);
            assert(Seq::new(t.last().instances@.len(), |jj: int| ((t.len() - 1) as int, jj)) =~= Seq::new(
                m as nat,
                |jj: int| (i as int, jj),
            ));
        }
        i = i + 1;
    }
    assert(platforms@.take(n as int) =~= platforms@);
    let ghost listed = locations@;
    let ghost listed_inst = instances@;
    assert(listed_locations(listed, state, app_data_measured, local_app_data_measured, platforms@));
    assert(listed_instances(listed_inst, platforms@));
    let path_stats = stable_sort(locations);
    let managed = stable_sort(instances);

    let mut notes: Vec<String> = Vec::new();
    if !state.supported {
        notes.push(String::from_str(NOTE_UNSUPPORTED));
    } else {
        notes.push(String::from_str(NOTE_SCOPE));
        notes.push(String::from_str(NOTE_OFFICIAL_CLIENTS));
    }
    assert(notes.deep_view() =~= overview_notes(state.supported));

    StorageOverview {
        supported: state.supported,
        scanned_at,
        total_bytes: app_data_size_bytes.saturating_add(instances_total_bytes),
        app_data_size_bytes,
        instances_total_bytes,
        state,
        path_stats,
        managed_instances: managed,
        notes,
    }
}

// ---------------------------------------------------------------------------
// Platforms and time
// ---------------------------------------------------------------------------

/// The keys of the platforms whose instances are managed, in the order their
/// stores are loaded, measured and migrated.
pub open spec fn managed_platform_keys() -> Seq<Seq<char>> {
    seq![
        "antigravity"@,
        "github_copilot"@,
        "windsurf"@,
        "kiro"@,
        "cursor"@,
        "gemini"@,
        "codebuddy"@,
    ]
}

/// The keys of the managed platforms.
pub fn managed_platforms() -> (r: Vec<String>)
    ensures
        r.deep_view() == managed_platform_keys(),
{
    let mut r: Vec<String> = Vec::new();
    r.push(String::from_str("antigravity"));
    r.push(String::from_str("github_copilot"));
    r.push(String::from_str("windsurf"));
    r.push(String::from_str("kiro"));
    r.push(String::from_str("cursor"));
    r.push(String::from_str("gemini"));
    r.push(String::from_str("codebuddy"));
    assert(r.deep_view() =~= managed_platform_keys());
    r
}

/// Seconds since the Unix epoch as a signed timestamp (`as i64`), or 0 when
/// the clock reads a time before the epoch.
pub fn timestamp_from_epoch_seconds(secs: Option<u64>) -> (r: i64)
    ensures
        r == match secs {
            Some(s) => s as i64,
            None => 0i64,
        },
{
    match secs {
        Some(s) => s as i64,
        None => 0,
    }
}

/// The current time as seconds since the Unix epoch.
pub fn now_ts() -> i64 {
    let now = crate::platform::system_time_now();
    timestamp_from_epoch_seconds(crate::platform::whole_seconds_since_epoch(&now))
}

// ---------------------------------------------------------------------------
// Target directory checks
// ---------------------------------------------------------------------------

/// The target root a request names: its text trimmed, which must be non-empty
/// and absolute.
pub open spec fn target_root_spec(raw: Seq<char>) -> Result<Seq<char>, StorageError> {
    let t = trim_spec(raw);
    if t.len() == 0 {
        Err(StorageError::EmptyTargetRoot)
    } else if !path_is_absolute(t) {
        Err(StorageError::RelativeTargetRoot)
    } else {
        Ok(t)
    }
}

/// The target must not start with a current data directory, whole
/// components only; a target equal to one starts with it.
pub open spec fn target_root_check(target: Seq<char>, app_data: Seq<char>, local_app_data: Seq<char>) -> Result<(), StorageError> {
    if path_starts_with(target, app_data) {
        Err(StorageError::TargetInsideAppData)
    } else if path_starts_with(target, local_app_data) {
        Err(StorageError::TargetInsideLocalAppData)
    } else {
        Ok(())
    }
}

/// A trimmed target root, given whether it is an absolute path: refused when
/// empty, or when not absolute.
pub fn accept_target_root(trimmed: &str, absolute: bool) -> (r: Result<String, StorageError>)
    ensures
        trimmed@.len() == 0 ==> r == Err::<String, StorageError>(StorageError::EmptyTargetRoot),
        trimmed@.len() > 0 && !absolute ==> r == Err::<String, StorageError>(StorageError::RelativeTargetRoot),
        trimmed@.len() > 0 && absolute ==> (r matches Ok(s) && s@ == trimmed@),
{
    if trimmed.is_empty() {
        return Err(StorageError::EmptyTargetRoot);
    }
    if !absolute {
        return Err(StorageError::RelativeTargetRoot);
    }
    Ok(trimmed.to_owned())
}

/// The target root of a request: trimmed, non-empty and absolute.
pub fn sanitize_target_root(raw: &str) -> (r: Result<String, StorageError>)
    ensures
        text_result(r) == target_root_spec(raw@),
{
    let trimmed = trim_whitespace(raw);
    let absolute = if trimmed.is_empty() {
        false
    } else {
        is_absolute_path(trimmed)
    };
    accept_target_root(trimmed, absolute)
}

/// The verdict on a target root, given whether it is (or lies inside) the
/// current application data directory, and the same for the current local
/// application data directory.
pub fn target_root_verdict(inside_app_data: bool, inside_local_app_data: bool) -> (r: Result<(), StorageError>)
    ensures
        r == if inside_app_data {
            Err(StorageError::TargetInsideAppData)
        } else if inside_local_app_data {
            Err(StorageError::TargetInsideLocalAppData)
        } else {
            Ok(())
        },
{
    if inside_app_data {
        Err(StorageError::TargetInsideAppData)
    } else if inside_local_app_data {
        Err(StorageError::TargetInsideLocalAppData)
    } else {
        Ok(())
    }
}

/// Refuses a target root that is, or lies inside, a current data directory.
pub fn validate_target_root(target_root: &str, current_app_data: &str, current_local_app_data: &str) -> (r: Result<(), StorageError>)
    ensures
        r == target_root_check(target_root@, current_app_data@, current_local_app_data@),
{
    let equals_app_data = same_path(target_root, current_app_data);
    let under_app_data = path_has_prefix(target_root, current_app_data);
    let equals_local_app_data = same_path(target_root, current_local_app_data);
    let under_local_app_data = path_has_prefix(target_root, current_local_app_data);
    let inside_app_data = equals_app_data || under_app_data;
    let inside_local_app_data = equals_local_app_data || under_local_app_data;
    target_root_verdict(inside_app_data, inside_local_app_data)
}

/// What was found at a path that must be an empty directory or nothing.
#[derive(Debug, Clone, PartialEq, Eq)]
pub enum DirProbe {
    /// Nothing is there.
    Missing,
    /// Something other than a directory is there.
    NotADirectory,
    /// A directory is there; whether it holds any entry.
    Listed { has_entries: bool },
    /// A directory is there but could not be listed, for the reason given.
    Unreadable { detail: String },
}

/// Accepts a path that is missing or an empty directory; `label` names it in the error.
pub fn ensure_empty_or_missing(path: &str, label: &str, probe: DirProbe) -> (r: Result<(), StorageError>)
    ensures
        match probe {
            DirProbe::Missing => r is Ok,
            DirProbe::NotADirectory => r matches Err(StorageError::NotADirectory { label: l, path: p })
                && l@ == label@ && p@ == path@,
            DirProbe::Listed { has_entries } => if has_entries {
                r matches Err(StorageError::DirectoryNotEmpty { label: l, path: p }) && l@ == label@ && p@ == path@
            } else {
                r is Ok
            },
            DirProbe::Unreadable { detail } => r matches Err(StorageError::ReadDirFailed { label: l, detail: d })
                && l@ == label@ && d == detail,
        },
{
    match probe {
        DirProbe::Missing => Ok(()),
        DirProbe::NotADirectory => Err(StorageError::NotADirectory { label: String::from_str(label), path: String::from_str(path) }),
        DirProbe::Listed { has_entries } => {
            if has_entries {
                Err(StorageError::DirectoryNotEmpty { label: String::from_str(label), path: String::from_str(path) })
            } else {
                Ok(())
            }
        },
        DirProbe::Unreadable { detail } => Err(StorageError::ReadDirFailed { label: String::from_str(label), detail }),
    }
}

// ---------------------------------------------------------------------------
// Default instance directory
// ---------------------------------------------------------------------------

/// What to record as the custom instance directory.
#[derive(Debug, Clone, PartialEq, Eq)]
pub enum BaseDirUpdate {
    /// Leave the bootstrap alone (custom locations are not kept on this system).
    Keep,
    /// Forget the custom instance directory.
    Clear,
    /// Create this directory and record it.
    Record(String),
}

/// The change a request for a default instance directory makes: nothing off
/// Windows; forget the custom one for `None`; else record the sanitized path.
pub fn plan_default_instance_base_dir(windows: bool, path: Option<&str>) -> (r: Result<BaseDirUpdate, StorageError>)
    ensures
        !windows ==> r == Ok::<BaseDirUpdate, StorageError>(BaseDirUpdate::Keep),
        windows && path is None ==> r == Ok::<BaseDirUpdate, StorageError>(BaseDirUpdate::Clear),
        windows && path is Some ==> match target_root_spec(path->0@) {
            Ok(t) => r matches Ok(BaseDirUpdate::Record(s)) && s@ == t,
            Err(e) => r == Err::<BaseDirUpdate, StorageError>(e),
        },
{
    if !windows {
        return Ok(BaseDirUpdate::Keep);
    }
    match path {
        None => Ok(BaseDirUpdate::Clear),
        Some(raw) => {
            let target = sanitize_target_root(raw)?;
            Ok(BaseDirUpdate::Record(target))
        },
    }
}

// ---------------------------------------------------------------------------
// Migration
// ---------------------------------------------------------------------------

pub const NOTE_APP_DATA_COPIED: &'static str = "应用数据目录已复制到新目录，旧目录保留作为回滚备份。";
pub const NOTE_LOCAL_APP_DATA_COPIED: &'static str = "本地应用私有数据目录已复制到新目录，旧目录保留作为回滚备份。";
pub const NOTE_INSTANCES_UPDATED: &'static str = "已更新多开实例记录中的实例目录路径。";

/// Refuses a migration off Windows and one that selects nothing to move.
pub fn check_migration_request(windows: bool, request: &StorageMigrationRequest) -> (r: Result<(), StorageError>)
    ensures
        r == if !windows {
            Err(StorageError::MigrationUnsupported)
        } else if !request.migrate_app_data && !request.migrate_instances {
            Err(StorageError::NoMigrationScope)
        } else {
            Ok(())
        },
{
    if !windows {
        return Err(StorageError::MigrationUnsupported);
    }
    if !request.migrate_app_data && !request.migrate_instances {
        return Err(StorageError::NoMigrationScope);
    }
    Ok(())
}

/// The steps of a migration: the target layout and which copies to make.
#[derive(Debug, Clone, PartialEq, Eq)]
pub struct MigrationPlan {
    pub target_root: String,
    pub target_app_data: String,
    pub target_local_app_data: String,
    pub target_instance_base: String,
    /// Copy the application data directory to `target_app_data` and record it.
    pub copy_app_data: bool,
    /// Copy the local application data directory to `target_local_app_data` and record it.
    pub copy_local_app_data: bool,
    /// Move every platform's instances under `target_instance_base` and record it.
    pub migrate_instances: bool,
}

/// The plan for a migration request, given the current data directories: the
/// target root must be usable and outside both; each data directory is copied
/// when the application data is selected and its target is another path.
pub fn plan_storage_migration(
    request: &StorageMigrationRequest,
    current_app_data: &str,
    current_local_app_data: &str,
) -> (r: Result<MigrationPlan, StorageError>)
    ensures
        match target_root_spec(request.target_root@) {
            Err(e) => r == Err::<MigrationPlan, StorageError>(e),
            Ok(t) => match target_root_check(t, current_app_data@, current_local_app_data@) {
                Err(e) => r == Err::<MigrationPlan, StorageError>(e),
                Ok(_) => match r {
                    Ok(p) => {
                        &&& p.target_root@ == t
                        &&& p.target_app_data@ == path_join(t, TARGET_APP_DATA_DIR@)
                        &&& p.target_local_app_data@ == path_join(t, TARGET_LOCAL_APP_DATA_DIR@)
                        &&& p.target_instance_base@ == path_join(t, INSTANCES_DIR@)
                        &&& p.copy_app_data == (request.migrate_app_data && !path_eq(p.target_app_data@, current_app_data@))
                        &&& p.copy_local_app_data == (request.migrate_app_data && !path_eq(
                            p.target_local_app_data@,
                            current_local_app_data@,
                        ))
                        &&& p.migrate_instances == request.migrate_instances
                    },
                    Err(_) => false,
                },
            },
        },
{
    let target_root = sanitize_target_root(request.target_root.as_str())?;
    validate_target_root(target_root.as_str(), current_app_data, current_local_app_data)?;
    let target_app_data = build_target_app_data_dir(target_root.as_str());
    let target_local_app_data = build_target_local_app_data_dir(target_root.as_str());
    let target_instance_base = build_target_instance_base_dir(target_root.as_str());
    let copy_app_data = request.migrate_app_data && !same_path(target_app_data.as_str(), current_app_data);
    let copy_local_app_data = request.migrate_app_data && !same_path(
        target_local_app_data.as_str(),
        current_local_app_data,
    );
    Ok(MigrationPlan {
        target_root,
        target_app_data,
        target_local_app_data,
        target_instance_base,
        copy_app_data,
        copy_local_app_data,
        migrate_instances: request.migrate_instances,
    })
}

/// The notes of a completed migration, one per step taken.
pub open spec fn migration_notes(copy_app_data: bool, copy_local_app_data: bool, migrate_instances: bool) -> Seq<Seq<char>> {
    (if copy_app_data { seq![NOTE_APP_DATA_COPIED@] } else { Seq::empty() })
        + (if copy_local_app_data { seq![NOTE_LOCAL_APP_DATA_COPIED@] } else { Seq::empty() })
        + (if migrate_instances { seq![NOTE_INSTANCES_UPDATED@] } else { Seq::empty() })
}

proof fn lemma_moves_total_prefix(s: Seq<usize>, k: int)
    requires
        0 <= k <= s.len(),
    ensures
        moves_total(s.take(k)) <= moves_total(s),
    decreases s.len(),
{
    if k < s.len() {
        assert(s.drop_last().take(k) =~= s.take(k));
        lemma_moves_total_prefix(s.drop_last(), k);
    } else {
        assert(s.take(k) =~= s);
    }
}

/// The number of instances moved, over all platforms.
pub open spec fn moves_total(platform_moves: Seq<usize>) -> nat
    decreases platform_moves.len(),
{
    if platform_moves.len() == 0 {
        0
    } else {
        moves_total(platform_moves.drop_last()) + platform_moves.last() as nat
    }
}

/// The outcome of a migration whose steps all succeeded: the locations now in
/// use, what moved, and whether the application must restart (it must when
/// application data moved). `platform_moves` holds, per platform whose
/// instances were migrated, the number of instances its migration moved; it
/// counts only when the plan migrates instances.
pub fn finish_storage_migration(plan: &MigrationPlan, state: StorageState, platform_moves: &Vec<usize>) -> (r: StorageMigrationResult)
    requires
        plan.migrate_instances ==> moves_total(platform_moves@) <= usize::MAX,
    ensures
        r.app_data_path == state.app_data_path,
        r.instance_base_dir == state.instance_base_dir,
        r.migrated_app_data == (plan.copy_app_data || plan.copy_local_app_data),
        r.migrated_instances == if plan.migrate_instances { moves_total(platform_moves@) } else { 0 },
        r.requires_restart == r.migrated_app_data,
        r.notes.deep_view() == migration_notes(plan.copy_app_data, plan.copy_local_app_data, plan.migrate_instances),
{
    let mut migrated_instances: usize = 0;
    if plan.migrate_instances {
        let mut i: usize = 0;
        while i < platform_moves.len()
            invariant
                i <= platform_moves.len(),
                migrated_instances == moves_total(platform_moves@.take(i as int)),
                moves_total(platform_moves@) <= usize::MAX,
            decreases platform_moves.len() - i,
        {
            assert(platform_moves@.take(i + 1).drop_last() =~= platform_moves@.take(i as int));
            proof {
                lemma_moves_total_prefix(platform_moves@, i as int + 1);
            }
            migrated_instances = migrated_instances + platform_moves[i];
            i = i + 1;
        }
        assert(platform_moves@.take(i as int) =~= platform_moves@);
    }
    let mut notes: Vec<String> = Vec::new();
    if plan.copy_app_data {
        notes.push(String::from_str(NOTE_APP_DATA_COPIED));
    }
    let ghost first = notes.deep_view();
    if plan.copy_local_app_data {
        notes.push(String::from_str(NOTE_LOCAL_APP_DATA_COPIED));
    }
    let ghost second = notes.deep_view();
    if plan.migrate_instances {
        notes.push(String::from_str(NOTE_INSTANCES_UPDATED));
    }
    assert(first =~= (if plan.copy_app_data { seq![NOTE_APP_DATA_COPIED@] } else { Seq::<Seq<char>>::empty() }));
    assert(second =~= first + (if plan.copy_local_app_data { seq![NOTE_LOCAL_APP_DATA_COPIED@] } else { Seq::<Seq<char>>::empty() }));
    assert(notes.deep_view() =~= migration_notes(plan.copy_app_data, plan.copy_local_app_data, plan.migrate_instances));
    let migrated_app_data = plan.copy_app_data || plan.copy_local_app_data;
    StorageMigrationResult {
        app_data_path: state.app_data_path,
        instance_base_dir: state.instance_base_dir,
        migrated_app_data,
        migrated_instances,
        requires_restart: migrated_app_data,
        notes,
    }
}

} // verus!
