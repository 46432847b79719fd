//! The managed instances of each platform, and the move of their directories
//! into a new instance directory: each instance gets a target directory named
//! after its current one, numbered when that name is already taken.

use vstd::prelude::*;
use crate::error::StorageError;
use crate::path::{join_path, same_path, file_name_of, path_join, path_eq, path_file_name};
use crate::text::{
    ascii_lowercase_spec, decimal_spec, is_blank, is_blank_text, push_char, push_decimal,
    to_ascii_lowercase,
};

verus! {

/// One managed instance of a platform.
#[derive(Debug, Clone, PartialEq, Eq)]
pub struct InstanceProfile {
    pub id: String,
    pub name: String,
    pub user_data_dir: String,
}

/// The managed instances of one platform.
#[derive(Debug, Clone, PartialEq, Eq)]
pub struct InstanceStore {
    pub instances: Vec<InstanceProfile>,
}

/// A set of texts; used for the lower-cased target directories already given out.
pub struct UsedTargets {
    keys: Vec<String>,
}

impl View for UsedTargets {
    type V = Set<Seq<char>>;

    closed spec fn view(&self) -> Set<Seq<char>> {
        Set::new(|k: Seq<char>| exists|i: int| 0 <= i < self.keys.len() && #[trigger] self.keys@[i]@ == k)
    }
}

impl UsedTargets {
    /// The empty set.
    pub fn new() -> (r: Self)
        ensures
            r@ == Set::<Seq<char>>::empty(),
    {
        let r = UsedTargets { keys: Vec::new() };
        assert(r@ =~= Set::<Seq<char>>::empty());
        r
    }

    /// Whether `key` is in the set.
    pub fn contains(&self, key: &String) -> (r: bool)
        ensures
            r == self@.contains(key@),
    {
        let mut i: usize = 0;
        while i < self.keys.len()
            invariant
                i <= self.keys.len(),
                forall|j: int| 0 <= j < i ==> #[trigger] self.keys@[j]@ != key@,
            decreases self.keys.len() - i,
        {
            if self.keys[i] == *key {
                assert(self.keys@[i as int]@ == key@);
                return true;
            }
            i = i + 1;
        }
        false
    }

    /// Adds `key`, as `HashSet::insert` does: `true` when it was not there yet.
    pub fn insert(&mut self, key: String) -> (added: bool)
        ensures
            added == !old(self)@.contains(key@),
            final(self)@ == old(self)@.insert(key@),
    {
        if self.contains(&key) {
            assert(self@ =~= self@.insert(key@));
            false
        } else {
            let ghost before = self.keys@;
            self.keys.push(key);
            assert forall|k: Seq<char>| #[trigger] self@.contains(k) == old(self)@.insert(key@).contains(k) by {
                if old(self)@.contains(k) {
                    let i = choose|i: int| 0 <= i < before.len() && #[trigger] before[i]@ == k;
                    assert(self.keys@[i]@ == k);
                }
                if self@.contains(k) && k != key@ {
                    let i = choose|i: int| 0 <= i < self.keys.len() && #[trigger] self.keys@[i]@ == k;
                    assert(i < before.len());
                    assert(before[i]@ == k);
                }
                if k == key@ {
                    assert(self.keys@[before.len() as int]@ == k);
                }
            }
            assert(self@ =~= old(self)@.insert(key@));
            true
        }
    }
}

/// The name an instance keeps in its new place: the last component of its
/// current directory, or its id when that component is missing or blank.
pub open spec fn default_leaf(user_data_dir: Seq<char>, id: Seq<char>) -> Seq<char> {
    match path_file_name(user_data_dir) {
        Some(n) => if is_blank(n) { id } else { n },
        None => id,
    }
}

/// The `i`-th name tried for an instance: the plain name first, then `name-1`, `name-2`, ...
pub open spec fn numbered_leaf(leaf: Seq<char>, i: nat) -> Seq<char> {
    if i == 0 {
        leaf
    } else {
        leaf + seq!['-'] + decimal_spec(i)
    }
}

/// The `i`-th directory tried: `<target base>/<platform key>/<numbered name>`.
pub open spec fn candidate_dir(target_base: Seq<char>, platform_key: Seq<char>, leaf: Seq<char>, i: nat) -> Seq<char> {
    path_join(path_join(target_base, platform_key), numbered_leaf(leaf, i))
}

/// Two directories collide when their texts agree up to ASCII case.
pub open spec fn target_key(dir: Seq<char>) -> Seq<char> {
    ascii_lowercase_spec(dir)
}

/// `i` is the first attempt whose directory does not collide with `used`.
pub open spec fn first_free(used: Set<Seq<char>>, target_base: Seq<char>, platform_key: Seq<char>, leaf: Seq<char>, i: nat) -> bool {
    &&& i < usize::MAX
    &&& !used.contains(target_key(candidate_dir(target_base, platform_key, leaf, i)))
    &&& forall|j: nat| j < i ==> used.contains(#[trigger] target_key(candidate_dir(target_base, platform_key, leaf, j)))
}

/// `target` is the directory chosen against `used`: the first that does not collide.
pub open spec fn chosen_target(used: Set<Seq<char>>, target_base: Seq<char>, platform_key: Seq<char>, leaf: Seq<char>, target: Seq<char>) -> bool {
    exists|i: nat| #[trigger] first_free(used, target_base, platform_key, leaf, i) && target == candidate_dir(target_base, platform_key, leaf, i)
}

/// Every attempt allowed collides with `used`.
pub open spec fn all_taken(used: Set<Seq<char>>, target_base: Seq<char>, platform_key: Seq<char>, leaf: Seq<char>) -> bool {
    forall|j: nat| j < usize::MAX ==> used.contains(#[trigger] target_key(candidate_dir(target_base, platform_key, leaf, j)))
}

/// The name an instance keeps in its new place.
pub fn instance_leaf(instance: &InstanceProfile) -> (r: String)
    ensures
        r@ == default_leaf(instance.user_data_dir@, instance.id@),
{
    match file_name_of(instance.user_data_dir.as_str()) {
        Some(n) => {
            if is_blank_text(n.as_str()) {
                instance.id.clone()
            } else {
                n
            }
        },
        None => instance.id.clone(),
    }
}

/// Chooses the directory an instance moves to under `target_base`, and records
/// it in `used`: the first of `<platform>/<name>`, `<platform>/<name>-1`, ...
/// whose lower-cased text is not in `used` yet. `None` when every number up to
/// `usize::MAX` is taken; `used` is then unchanged.
pub fn choose_target_instance_dir(
    platform_key: &str,
    instance: &InstanceProfile,
    target_base: &str,
    used: &mut UsedTargets,
) -> (r: Option<String>)
    ensures
        ({
            let leaf = default_leaf(instance.user_data_dir@, instance.id@);
            match r {
                Some(t) => {
                    &&& chosen_target(old(used)@, target_base@, platform_key@, leaf, t@)
                    &&& final(used)@ == old(used)@.insert(target_key(t@))
                },
                None => {
                    &&& all_taken(old(used)@, target_base@, platform_key@, leaf)
                    &&& final(used)@ == old(used)@
                },
            }
        }),
{
    let ghost used0 = used@;
    let default_name = instance_leaf(instance);
    let ghost leaf = default_name@;
    let dir = join_path(target_base, platform_key);
    let mut candidate = join_path(dir.as_str(), default_name.as_str());
    let mut index: usize = 1;
    loop
        invariant
            1 <= index,
            used0 == old(used)@,
            used@ == used0,
            dir@ == path_join(target_base@, platform_key@),
            leaf == default_name@,
            leaf == default_leaf(instance.user_data_dir@, instance.id@),
            candidate@ == candidate_dir(target_base@, platform_key@, leaf, (index - 1) as nat),
            forall|j: nat| j < index - 1 ==> used0.contains(#[trigger] target_key(candidate_dir(target_base@, platform_key@, leaf, j))),
        decreases usize::MAX - index,
    {
        let key = to_ascii_lowercase(candidate.as_str());
        if used.insert(key) {
            assert(first_free(used0, target_base@, platform_key@, leaf, (index - 1) as nat));
            return Some(candidate);
        }
        if index == usize::MAX {
            assert forall|j: nat| j < usize::MAX implies used0.contains(#[trigger] target_key(candidate_dir(target_base@, platform_key@, leaf, j))) by {
                if j < index - 1 {
                } else {
                    assert(j == index - 1);
                }
            }
            return None;
        }
        let mut name = default_name.clone();
        push_char(&mut name, '-');
        push_decimal(&mut name, index);
        assert(name@ == numbered_leaf(leaf, index as nat));
        candidate = join_path(dir.as_str(), name.as_str());
        index = index + 1;
    }
}


/// The texts of a store's instance directories, in order.
pub open spec fn user_dirs_of(instances: Seq<InstanceProfile>) -> Seq<Seq<char>> {
    instances.map_values(|p: InstanceProfile| p.user_data_dir@)
}

/// The user data directories of the instances, in order (the instances to
/// close before their directories move).
pub fn instance_user_dirs(store: &InstanceStore) -> (r: Vec<String>)
    ensures
        r.deep_view() == user_dirs_of(store.instances@),
{
    let mut r: Vec<String> = Vec::new();
    let mut i: usize = 0;
    while i < store.instances.len()
        invariant
            i <= store.instances.len(),
            r@.len() == i,
            r.deep_view() == user_dirs_of(store.instances@.take(i as int)),
        decreases store.instances.len() - i,
    {
        let ghost before = r@;
        let ghost before_dv = r.deep_view();
        let d = store.instances[i].user_data_dir.clone();
        r.push(d);
        let ghost prefix = store.instances@.take(i + 1);
        assert(prefix == store.instances@.take(i as int).push(store.instances@[i as int]));
        assert forall|j: int| 0 <= j < r@.len() implies #[trigger] r.deep_view()[j] == user_dirs_of(prefix)[j] by {
            if j < i {
                assert(r@[j] == before[j]);
                assert(r.deep_view()[j] == before[j]@);
                assert(before_dv[j] == before[j]@);
                assert(before_dv[j] == user_dirs_of(store.instances@.take(i as int))[j]);
                assert(store.instances@.take(i as int)[j] == prefix[j]);
            } else {
                assert(r@[j] == d);
                assert(prefix[j] == store.instances@[i as int]);
            }
        }
        assert(r.deep_view() =~= user_dirs_of(prefix));
        i = i + 1;
    }
    assert(store.instances@.take(i as int) == store.instances@);
    r
}

/// One directory to move: copy `from` to `to`, then remove `from`.
#[derive(Debug, Clone, PartialEq, Eq)]
pub struct InstanceMove {
    pub from: String,
    pub to: String,
}

/// The move of one platform's instances into a new instance directory, one
/// instance at a time. The caller reports whether the current directory of
/// the next instance exists, performs the move that `step` hands back, and
/// saves `store` once every instance has been stepped through. The store
/// already records each instance's new directory when its move is handed out.
pub struct InstanceMigration {
    pub platform_key: String,
    pub target_base: String,
    pub store: InstanceStore,
    pub next: usize,
    pub used: UsedTargets,
    pub migrated: usize,
    /// The targets of the moves handed out so far, in order.
    pub handed_out: Ghost<Seq<Seq<char>>>,
    /// The instances as they were when the migration started.
    pub original: Ghost<Seq<InstanceProfile>>,
}

/// How many of the first `n` instances of `current` have a directory other
/// than the one they had in `original`.
pub open spec fn changed_count(original: Seq<InstanceProfile>, current: Seq<InstanceProfile>, n: nat) -> nat
    decreases n,
{
    if n == 0 {
        0
    } else {
        changed_count(original, current, (n - 1) as nat) + if current[n - 1].user_data_dir@
            != original[n - 1].user_data_dir@ {
            1nat
        } else {
            0nat
        }
    }
}

proof fn lemma_changed_count_agrees(original: Seq<InstanceProfile>, a: Seq<InstanceProfile>, b: Seq<InstanceProfile>, n: nat)
    requires
        forall|k: int| 0 <= k < n ==> #[trigger] a[k] == b[k],
    ensures
        changed_count(original, a, n) == changed_count(original, b, n),
    decreases n,
{
    if n > 0 {
        lemma_changed_count_agrees(original, a, b, (n - 1) as nat);
        assert(a[n - 1] == b[n - 1]);
    }
}

impl InstanceMigration {
    /// The migration is within bounds.
    pub open spec fn wf(&self) -> bool {
        &&& self.next <= self.store.instances.len()
        &&& self.migrated <= self.next
        &&& self.handed_out@.len() == self.migrated
        &&& forall|k: int| 0 <= k < self.handed_out@.len() ==> self.used@.contains(#[trigger] target_key(self.handed_out@[k]))
        &&& forall|k: int, l: int|
            0 <= k < l < self.handed_out@.len() ==> target_key(#[trigger] self.handed_out@[k]) != target_key(
                #[trigger] self.handed_out@[l],
            )
        &&& self.original@.len() == self.store.instances@.len()
        &&& forall|k: int| self.next <= k < self.original@.len() ==> #[trigger] self.store.instances@[k] == self.original@[k]
        &&& self.migrated == changed_count(self.original@, self.store.instances@, self.next as nat)
    }

    /// The migration is over.
    pub open spec fn done(&self) -> bool {
        self.next >= self.store.instances.len()
    }

    /// Starts with the first instance; no directory has been given out yet.
    pub fn new(platform_key: String, target_base: String, store: InstanceStore) -> (r: Self)
        ensures
            r.wf(),
            r.platform_key == platform_key,
            r.target_base == target_base,
            r.store == store,
            r.next == 0,
            r.migrated == 0,
            r.used@ == Set::<Seq<char>>::empty(),
            r.handed_out@ == Seq::<Seq<char>>::empty(),
            r.original@ == store.instances@,
    {
        InstanceMigration {
            platform_key,
            target_base,
            store,
            next: 0,
            used: UsedTargets::new(),
            migrated: 0,
            handed_out: Ghost(Seq::empty()),
            original: Ghost(store.instances@),
        }
    }

    /// Whether every instance has been stepped through.
    pub fn is_done(&self) -> (r: bool)
        ensures
            r == self.done(),
    {
        self.next >= self.store.instances.len()
    }

    /// The current directory of the next instance, whose existence `step` needs.
    pub fn current_dir(&self) -> (r: String)
        requires
            !self.done(),
        ensures
            r == self.store.instances@[self.next as int].user_data_dir,
    {
        self.store.instances[self.next].user_data_dir.clone()
    }

    /// Decides the next instance. A missing directory is left alone. Otherwise
    /// a target is chosen; when it is the same path as the current one the
    /// instance stays, else the move is handed back and the store records the
    /// target as the instance's directory.
    pub fn step(&mut self, current_exists: bool) -> (r: Result<Option<InstanceMove>, StorageError>)
        requires
            old(self).wf(),
            !old(self).done(),
        ensures
            final(self).wf(),
            final(self).platform_key == old(self).platform_key,
            final(self).target_base == old(self).target_base,
            final(self).original == old(self).original,
            ({
                let i = old(self).next as int;
                let inst = old(self).store.instances@[i];
                let leaf = default_leaf(inst.user_data_dir@, inst.id@);
                let base = old(self).target_base@;
                let key = old(self).platform_key@;
                &&& final(self).next == old(self).next + 1
                &&& match r {
                    Ok(Some(m)) => final(self).handed_out@ == old(self).handed_out@.push(m.to@),
                    _ => final(self).handed_out@ == old(self).handed_out@,
                }
                &&& !current_exists ==> {
                    &&& r == Ok::<Option<InstanceMove>, StorageError>(None)
                    &&& final(self).store == old(self).store
                    &&& final(self).used@ == old(self).used@
                    &&& final(self).migrated == old(self).migrated
                }
                &&& current_exists ==> match r {
                    Err(e) => {
                        &&& e == StorageError::TargetNamesExhausted
                        &&& all_taken(old(self).used@, base, key, leaf)
                    },
                    Ok(None) => {
                        &&& exists|t: Seq<char>| #[trigger] chosen_target(old(self).used@, base, key, leaf, t)
                            && path_eq(t, inst.user_data_dir@)
                            && final(self).used@ == old(self).used@.insert(target_key(t))
                        &&& final(self).store == old(self).store
                        &&& final(self).migrated == old(self).migrated
                    },
                    Ok(Some(m)) => {
                        &&& m.from == inst.user_data_dir
                        &&& chosen_target(old(self).used@, base, key, leaf, m.to@)
                        &&& !path_eq(m.to@, m.from@)
                        &&& m.to@ != m.from@
                        &&& final(self).used@ == old(self).used@.insert(target_key(m.to@))
                        &&& final(self).store.instances@ == old(self).store.instances@.update(
                            i,
                            InstanceProfile { id: inst.id, name: inst.name, user_data_dir: m.to },
                        )
                        &&& final(self).migrated == old(self).migrated + 1
                    },
                }
            }),
    {
        let i = self.next;
        self.next = i + 1;
        proof {
            lemma_changed_count_agrees(self.original@, self.store.instances@, old(self).store.instances@, i as nat);
            assert(self.store.instances@[i as int] == self.original@[i as int]);
        }
        if !current_exists {
            return Ok(None);
        }
        let current = self.store.instances[i].user_data_dir.clone();
        let chosen = choose_target_instance_dir(
            self.platform_key.as_str(),
            &self.store.instances[i],
            self.target_base.as_str(),
            &mut self.used,
        );
        match chosen {
            None => Err(StorageError::TargetNamesExhausted),
            Some(target) => {
                if same_path(target.as_str(), current.as_str()) {
                    Ok(None)
                } else {
                    let moved = InstanceProfile {
                        id: self.store.instances[i].id.clone(),
                        name: self.store.instances[i].name.clone(),
                        user_data_dir: target.clone(),
                    };
                    self.store.instances.set(i, moved);
                    proof {
                        lemma_changed_count_agrees(
                            self.original@,
                            self.store.instances@,
                            old(self).store.instances@,
                            i as nat,
                        );
                        assert(self.store.instances@[i as int].user_data_dir@ == target@);
                        assert(target@ != old(self).store.instances@[i as int].user_data_dir@);
                    }
                    self.migrated = self.migrated + 1;
                    let ghost before = self.handed_out@;
                    self.handed_out = Ghost(before.push(target@));
                    proof {
                        let t = target@;
                        assert(!old(self).used@.contains(target_key(t))) by {
                            let j = choose|j: nat| #[trigger] first_free(old(self).used@, old(self).target_base@, old(self).platform_key@, default_leaf(old(self).store.instances@[i as int].user_data_dir@, old(self).store.instances@[i as int].id@), j)
                                && t == candidate_dir(old(self).target_base@, old(self).platform_key@, default_leaf(old(self).store.instances@[i as int].user_data_dir@, old(self).store.instances@[i as int].id@), j);
                        }
                        assert forall|k: int| 0 <= k < before.len() implies target_key(#[trigger] before[k]) != target_key(t) by {
                            assert(old(self).used@.contains(target_key(before[k])));
                        }
                        assert(self.handed_out@.last() == t);
                    }
                    Ok(Some(InstanceMove { from: current, to: target }))
                }
            },
        }
    }

    /// No two moves of one migration target directories that agree up to ASCII
    /// case: every instance moved gets a directory of its own.
    pub proof fn law_moves_never_share_a_target(&self, k: int, l: int)
        requires
            self.wf(),
            0 <= k < l < self.handed_out@.len(),
        ensures
            target_key(self.handed_out@[k]) != target_key(self.handed_out@[l]),
    {
    }

    /// A whole migration counts exactly the instances whose directory changed.
    pub proof fn law_run_counts_changed_instances(&self)
        requires
            self.wf(),
            self.done(),
        ensures
            self.migrated == changed_count(self.original@, self.store.instances@, self.store.instances@.len()),
    {
    }

    /// The store with the new directories, and the number of instances moved.
    pub fn finish(self) -> (r: (InstanceStore, usize))
        ensures
            r.0 == self.store,
            r.1 == self.migrated,
            self.wf() && self.done() ==> r.1 == changed_count(self.original@, r.0.instances@, r.0.instances@.len()),
    {
        (self.store, self.migrated)
    }
}

} // verus!
