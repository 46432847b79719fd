//! Properties of the library as a whole, proved over the specifications that
//! the functions' contracts use.

use vstd::prelude::*;
use crate::error::StorageError;
use crate::instances::{chosen_target, first_free, target_key};
use crate::path::{path_is_absolute, path_starts_with};
use crate::storage_manager::{instance_slots, listed_instances, managed_platform_keys, instances_at, migration_notes, ManagedInstanceStat, StoragePathStat, NOTE_APP_DATA_COPIED, NOTE_LOCAL_APP_DATA_COPIED, NOTE_INSTANCES_UPDATED, children_items, children_size, measured_size, roots_size, target_root_check, target_root_spec, PlatformSnapshot};
use crate::platform::DirLookup;
use crate::path::path_join;
use crate::storage_paths::{
    Environment, StorageBootstrap, app_data_dir_spec, instance_base_dir_spec,
    legacy_app_data_dir_spec, legacy_instance_base_dir_spec, legacy_local_app_data_dir_spec,
    local_app_data_dir_spec, normalized_path,
};
use crate::text::{lemma_trim_idempotent, lemma_text_less_irreflexive, text_less, trim_spec};
use crate::ordering::{stably_sorted_from, is_stable_sort, lemma_stable_sort_keeps_elements, StableOrder};

verus! {

/// On Windows, a recorded application data directory that is absolute once
/// trimmed is the one in use, trimmed.
pub proof fn law_recorded_app_data_dir_is_used(env: Environment, b: StorageBootstrap, recorded: Seq<char>)
    requires
        env.windows,
        b.app_data_dir.deep_view() == Some(recorded),
        trim_spec(recorded).len() > 0,
        path_is_absolute(trim_spec(recorded)),
    ensures
        app_data_dir_spec(env, b) == Ok::<Seq<char>, StorageError>(trim_spec(recorded)),
{
}

/// On Windows, a recorded instance directory that is absolute once trimmed is
/// the one in use, trimmed.
pub proof fn law_recorded_instance_base_dir_is_used(env: Environment, b: StorageBootstrap, recorded: Seq<char>)
    requires
        env.windows,
        b.instance_base_dir.deep_view() == Some(recorded),
        trim_spec(recorded).len() > 0,
        path_is_absolute(trim_spec(recorded)),
    ensures
        instance_base_dir_spec(env, b) == Ok::<Seq<char>, StorageError>(trim_spec(recorded)),
{
}

/// On Windows, a recorded local application data directory that is absolute
/// once trimmed is the one in use, trimmed.
pub proof fn law_recorded_local_app_data_dir_is_used(env: Environment, b: StorageBootstrap, recorded: Seq<char>)
    requires
        env.windows,
        b.local_app_data_dir.deep_view() == Some(recorded),
        trim_spec(recorded).len() > 0,
        path_is_absolute(trim_spec(recorded)),
    ensures
        local_app_data_dir_spec(env, b) == Ok::<Seq<char>, StorageError>(trim_spec(recorded)),
{
}

/// The directory accepted as the default instance directory, once recorded,
/// is read back unchanged as the instance directory in use.
pub proof fn law_default_instance_dir_round_trip(env: Environment, b: StorageBootstrap, raw: Seq<char>, accepted: Seq<char>)
    requires
        env.windows,
        target_root_spec(raw) == Ok::<Seq<char>, StorageError>(accepted),
        b.instance_base_dir.deep_view() == Some(accepted),
    ensures
        instance_base_dir_spec(env, b) == Ok::<Seq<char>, StorageError>(accepted),
{
    lemma_trim_idempotent(raw);
}

/// Off Windows the bootstrap is ignored: every location is the legacy one.
pub proof fn law_bootstrap_ignored_off_windows(env: Environment, b: StorageBootstrap)
    requires
        !env.windows,
    ensures
        app_data_dir_spec(env, b) == legacy_app_data_dir_spec(env.home.deep_view()),
        instance_base_dir_spec(env, b) == legacy_instance_base_dir_spec(
            env.windows,
            env.home.deep_view(),
            env.appdata.deep_view(),
        ),
        local_app_data_dir_spec(env, b) == legacy_local_app_data_dir_spec(
            env.data_local,
            env.home.deep_view(),
        ),
{
}

/// A recorded location that is blank or relative once trimmed is ignored: the
/// legacy location is used.
pub proof fn law_unusable_recorded_dir_falls_back(env: Environment, b: StorageBootstrap, recorded: Seq<char>)
    requires
        b.app_data_dir.deep_view() == Some(recorded),
        trim_spec(recorded).len() == 0 || !path_is_absolute(trim_spec(recorded)),
    ensures
        app_data_dir_spec(env, b) == legacy_app_data_dir_spec(env.home.deep_view()),
{
}

/// A migration target is accepted exactly when the same text, read as a
/// configured location, is a usable one; both then give the trimmed text.
pub proof fn law_target_root_matches_configured_location(raw: Seq<char>)
    ensures
        target_root_spec(raw) is Ok <==> normalized_path(Some(raw)) is Some,
        target_root_spec(raw) matches Ok(t) ==> normalized_path(Some(raw)) == Some(t),
{
}

/// An accepted target root does not start with either current data directory,
/// whole components only (so it is neither of them nor inside one).
pub proof fn law_accepted_target_is_outside_current_dirs(target: Seq<char>, app_data: Seq<char>, local_app_data: Seq<char>)
    requires
        target_root_check(target, app_data, local_app_data) is Ok,
    ensures
        !path_starts_with(target, app_data),
        !path_starts_with(target, local_app_data),
{
}

/// A directory chosen for an instance does not collide with any directory
/// given out before it; in particular two instances moved one after the other
/// never receive directories that differ only in ASCII case.
pub proof fn law_chosen_targets_never_collide(
    used: Set<Seq<char>>,
    target_base: Seq<char>,
    platform_key: Seq<char>,
    leaf: Seq<char>,
    target: Seq<char>,
    earlier: Seq<char>,
)
    requires
        chosen_target(used, target_base, platform_key, leaf, target),
        used.contains(target_key(earlier)),
    ensures
        target_key(target) != target_key(earlier),
        !used.contains(target_key(target)),
{
    let i = choose|i: nat| #[trigger] first_free(used, target_base, platform_key, leaf, i)
        && target == crate::instances::candidate_dir(target_base, platform_key, leaf, i);
}


/// A directory measures at least as large as any of its children, and counts
/// at least as many entries as any child counts plus the child itself.
pub proof fn law_directory_covers_each_child(children: Seq<(u64, u64)>, i: int)
    requires
        0 <= i < children.len(),
    ensures
        children_size(children) >= children[i].0,
        children_items(children) >= children[i].1.saturating_add(1),
    decreases children.len(),
{
    if i < children.len() - 1 {
        law_directory_covers_each_child(children.drop_last(), i);
        assert(children.drop_last()[i] == children[i]);
    }
}

/// The instance directories together measure at least as large as each one.
pub proof fn law_instances_total_covers_each_root(platforms: Seq<PlatformSnapshot>, i: int)
    requires
        0 <= i < platforms.len(),
    ensures
        roots_size(platforms) >= measured_size(platforms[i].root_measured),
    decreases platforms.len(),
{
    if i < platforms.len() - 1 {
        law_instances_total_covers_each_root(platforms.drop_last(), i);
        assert(platforms.drop_last()[i] == platforms[i]);
    }
}


/// Whether the recorded location `recorded` is unusable: absent, or blank or
/// relative once trimmed.
pub open spec fn unusable_record(recorded: Option<Seq<char>>) -> bool {
    match recorded {
        None => true,
        Some(r) => trim_spec(r).len() == 0 || !path_is_absolute(trim_spec(r)),
    }
}

/// Without a usable recorded application data directory (none recorded at
/// all included), or off Windows, the application data directory in use is
/// `.antigravity_cockpit` in the home directory, on every platform; without a
/// home directory there is none.
pub proof fn law_app_data_dir_defaults_to_home(env: Environment, b: StorageBootstrap)
    requires
        !env.windows || unusable_record(b.app_data_dir.deep_view()),
    ensures
        app_data_dir_spec(env, b) == match env.home.deep_view() {
            None => Err::<Seq<char>, StorageError>(StorageError::HomeDirUnavailable),
            Some(h) => Ok(path_join(h, ".antigravity_cockpit"@)),
        },
{
}

/// Without a usable recorded local application data directory (none
/// recorded at all included), or off Windows, the local application data
/// directory in use is `com.antigravity.cockpit-tools` in the system's local
/// data directory; in the home directory only when the system knows no local
/// data directory; and there is none when that directory is not text.
pub proof fn law_local_app_data_dir_defaults_to_local_data(env: Environment, b: StorageBootstrap)
    requires
        !env.windows || unusable_record(b.local_app_data_dir.deep_view()),
    ensures
        local_app_data_dir_spec(env, b) == match env.data_local {
            DirLookup::Found(d) => Ok(path_join(d@, "com.antigravity.cockpit-tools"@)),
            DirLookup::NotText => Err::<Seq<char>, StorageError>(StorageError::LocalAppDataDirUnavailable),
            DirLookup::Missing => match env.home.deep_view() {
                None => Err::<Seq<char>, StorageError>(StorageError::LocalAppDataDirUnavailable),
                Some(h) => Ok(path_join(h, "com.antigravity.cockpit-tools"@)),
            },
        },
{
}

/// Without a usable recorded instance directory (none recorded at all
/// included), or off Windows, the instance directory in use is
/// `.antigravity_cockpit\instances` under `%APPDATA%` on Windows and
/// `.antigravity_cockpit/instances` in the home directory elsewhere.
pub proof fn law_instance_base_dir_defaults_to_legacy(env: Environment, b: StorageBootstrap)
    requires
        !env.windows || unusable_record(b.instance_base_dir.deep_view()),
    ensures
        instance_base_dir_spec(env, b) == if env.windows {
            match env.appdata.deep_view() {
                None => Err::<Seq<char>, StorageError>(StorageError::AppDataVarUnavailable),
                Some(a) => Ok(path_join(a, ".antigravity_cockpit\\instances"@)),
            }
        } else {
            match env.home.deep_view() {
                None => Err::<Seq<char>, StorageError>(StorageError::HomeDirUnavailable),
                Some(h) => Ok(path_join(path_join(h, ".antigravity_cockpit"@), "instances"@)),
            }
        },
{
}


/// The notes of a migration report each step taken, independently of the
/// others and in the order the steps run: one note for copying the
/// application data, one for copying the local application data, one for
/// moving the instances.
pub proof fn law_migration_notes_report_each_step(copy_app_data: bool, copy_local_app_data: bool, migrate_instances: bool)
    ensures
        ({
            let notes = migration_notes(copy_app_data, copy_local_app_data, migrate_instances);
            &&& notes.len() == (if copy_app_data { 1int } else { 0 }) + (if copy_local_app_data { 1int } else { 0 }) + (
                if migrate_instances { 1int } else { 0 })
            &&& notes.contains("应用数据目录已复制到新目录，旧目录保留作为回滚备份。"@) == copy_app_data
            &&& notes.contains("本地应用私有数据目录已复制到新目录，旧目录保留作为回滚备份。"@) == copy_local_app_data
            &&& notes.contains("已更新多开实例记录中的实例目录路径。"@) == migrate_instances
            &&& copy_app_data ==> notes[0] == "应用数据目录已复制到新目录，旧目录保留作为回滚备份。"@
            &&& migrate_instances ==> notes.last() == "已更新多开实例记录中的实例目录路径。"@
        }),
{
    reveal_strlit("应用数据目录已复制到新目录，旧目录保留作为回滚备份。");
    reveal_strlit("本地应用私有数据目录已复制到新目录，旧目录保留作为回滚备份。");
    reveal_strlit("已更新多开实例记录中的实例目录路径。");
    let a = "应用数据目录已复制到新目录，旧目录保留作为回滚备份。"@;
    let l = "本地应用私有数据目录已复制到新目录，旧目录保留作为回滚备份。"@;
    let m = "已更新多开实例记录中的实例目录路径。"@;
    assert(NOTE_APP_DATA_COPIED@ == a);
    assert(NOTE_LOCAL_APP_DATA_COPIED@ == l);
    assert(NOTE_INSTANCES_UPDATED@ == m);
    assert(a != l) by { assert(a[0] != l[0]); }
    assert(a != m) by { assert(a[0] != m[0]); }
    assert(l != m) by { assert(l[0] != m[0]); }
    let notes = migration_notes(copy_app_data, copy_local_app_data, migrate_instances);
    let s1 = if copy_app_data { seq![a] } else { Seq::<Seq<char>>::empty() };
    let s2 = if copy_local_app_data { seq![l] } else { Seq::<Seq<char>>::empty() };
    let s3 = if migrate_instances { seq![m] } else { Seq::<Seq<char>>::empty() };
    assert(notes =~= s1 + s2 + s3);
    assert(notes.contains(a) == copy_app_data) by {
        if copy_app_data {
            assert(notes[0] == a);
        } else {
            assert forall|k: int| 0 <= k < notes.len() implies notes[k] != a by {
                assert(notes[k] == l || notes[k] == m);
            }
        }
    }
    assert(notes.contains(l) == copy_local_app_data) by {
        if copy_local_app_data {
            assert(notes[s1.len() as int] == l);
        } else {
            assert forall|k: int| 0 <= k < notes.len() implies notes[k] != l by {
                assert(notes[k] == a || notes[k] == m);
            }
        }
    }
    assert(notes.contains(m) == migrate_instances) by {
        if migrate_instances {
            assert(notes[notes.len() - 1] == m);
        } else {
            assert forall|k: int| 0 <= k < notes.len() implies notes[k] != m by {
                assert(notes[k] == a || notes[k] == l);
            }
        }
    }
}

/// In the overview's instance list, a larger instance comes first; of two of
/// equal size, the one whose platform key is lexicographically smaller comes
/// first whatever their names; of two of equal size and platform, the one
/// with the smaller name comes first.
pub proof fn law_instance_list_order(out: Seq<ManagedInstanceStat>, inp: Seq<ManagedInstanceStat>, k: int, l: int)
    requires
        stably_sorted_from(out, inp),
        0 <= k < out.len(),
        0 <= l < out.len(),
    ensures
        out[k].size_bytes > out[l].size_bytes ==> k < l,
        out[k].size_bytes == out[l].size_bytes && text_less(out[k].platform@, out[l].platform@) ==> k < l,
        out[k].size_bytes == out[l].size_bytes && out[k].platform@ == out[l].platform@ && text_less(
            out[k].name@,
            out[l].name@,
        ) ==> k < l,
{
    let p = choose|p: Seq<int>| is_stable_sort(out, inp, p);
    if l < k {
        assert(!out[k].before(out[l]));
    }
    if k == l {
        lemma_text_less_irreflexive(out[k].platform@);
        lemma_text_less_irreflexive(out[k].name@);
    }
}

/// In the overview's location list, a larger location comes first; of two of
/// equal size, the one whose key is lexicographically smaller comes first.
pub proof fn law_location_list_order(out: Seq<StoragePathStat>, inp: Seq<StoragePathStat>, k: int, l: int)
    requires
        stably_sorted_from(out, inp),
        0 <= k < out.len(),
        0 <= l < out.len(),
    ensures
        out[k].size_bytes > out[l].size_bytes ==> k < l,
        out[k].size_bytes == out[l].size_bytes && text_less(out[k].key@, out[l].key@) ==> k < l,
{
    let p = choose|p: Seq<int>| is_stable_sort(out, inp, p);
    if l < k {
        assert(!out[k].before(out[l]));
    }
    if k == l {
        lemma_text_less_irreflexive(out[k].key@);
    }
}


/// The number of instances over all platforms.
pub open spec fn instance_count(platforms: Seq<PlatformSnapshot>) -> nat
    decreases platforms.len(),
{
    if platforms.len() == 0 {
        0
    } else {
        instance_count(platforms.drop_last()) + platforms.last().instances@.len()
    }
}

proof fn lemma_slots_len(platforms: Seq<PlatformSnapshot>)
    ensures
        instance_slots(platforms).len() == instance_count(platforms),
    decreases platforms.len(),
{
    if platforms.len() > 0 {
        lemma_slots_len(platforms.drop_last());
    }
}

proof fn lemma_count_prefix(platforms: Seq<PlatformSnapshot>, i: int)
    requires
        0 <= i < platforms.len(),
    ensures
        instance_count(platforms.take(i)) + platforms[i].instances@.len() <= instance_count(platforms),
    decreases platforms.len(),
{
    if i == platforms.len() - 1 {
        assert(platforms.drop_last() =~= platforms.take(i));
    } else {
        lemma_count_prefix(platforms.drop_last(), i);
        assert(platforms.drop_last().take(i) =~= platforms.take(i));
    }
}

proof fn lemma_slot_position(platforms: Seq<PlatformSnapshot>, i: int, j: int)
    requires
        0 <= i < platforms.len(),
        0 <= j < platforms[i].instances@.len(),
    ensures
        instance_count(platforms.take(i)) + j < instance_slots(platforms).len(),
        instance_slots(platforms)[instance_count(platforms.take(i)) + j] == (i, j),
    decreases platforms.len(),
{
    let d = platforms.drop_last();
    lemma_slots_len(d);
    lemma_slots_len(platforms);
    if i == platforms.len() - 1 {
        assert(d =~= platforms.take(i));
    } else {
        lemma_slot_position(d, i, j);
        assert(d.take(i) =~= platforms.take(i));
        lemma_count_prefix(d, i);
    }
}

/// The overview lists every instance of every managed platform exactly where
/// the stores hold it, whatever its measurement: the list is as long as all
/// the platforms' instances together, and each instance appears in it under
/// its platform's key, with size and entry count 0 when its directory is
/// missing.
pub proof fn law_overview_lists_every_instance(
    platforms: Seq<PlatformSnapshot>,
    listed: Seq<ManagedInstanceStat>,
    out: Seq<ManagedInstanceStat>,
    i: int,
    j: int,
)
    requires
        platforms.len() == managed_platform_keys().len(),
        listed_instances(listed, platforms),
        stably_sorted_from(out, listed),
        0 <= i < platforms.len(),
        0 <= j < platforms[i].instances@.len(),
    ensures
        out.len() == instance_count(platforms),
        exists|k: int|
            0 <= k < out.len() && {
                let s = #[trigger] out[k];
                let mi = platforms[i].instances@[j];
                &&& s.platform@ == managed_platform_keys()[i]
                &&& s.instance_id == mi.profile.id
                &&& s.name == mi.profile.name
                &&& s.user_data_dir == mi.profile.user_data_dir
                &&& match mi.measured {
                    Some(m) => s.size_bytes == m.0 && s.item_count == m.1,
                    None => s.size_bytes == 0 && s.item_count == 0,
                }
            },
{
    lemma_slots_len(platforms);
    lemma_slot_position(platforms, i, j);
    let x = instance_count(platforms.take(i)) + j;
    assert(instances_at(listed, instance_slots(platforms), platforms));
    assert(instance_slots(platforms)[x] == (i, j));
    lemma_stable_sort_keeps_elements(out, listed, x);
    let k = choose|k: int| 0 <= k < out.len() && out[k] == listed[x];
    assert(out[k] == listed[x]);
}

} // verus!
