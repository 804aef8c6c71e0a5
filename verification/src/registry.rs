//! The lock registry: one handle per key, made on first request and kept.

use crate::handle::LockHandle;
use dashmap::DashMap;
use vstd::prelude::*;

verus! {

/// `dashmap::DashMap`, the map that holds the handles. Nothing inside it is
/// visible here; what it holds goes by the name `entries`.
#[verifier::external_type_specification]
#[verifier::external_body]
#[verifier::reject_recursive_types(K)]
#[verifier::reject_recursive_types(V)]
#[verifier::reject_recursive_types(S)]
pub struct ExDashMap<K, V, S>(DashMap<K, V, S>);

/// The handles that a map holds, by key.
pub uninterp spec fn entries(map: DashMap<String, LockHandle>) -> Map<Seq<char>, LockHandle>;

/// `DashMap::new`: a map that holds nothing.
#[verifier::external_body]
fn empty_map() -> (fresh: DashMap<String, LockHandle>)
    ensures
        entries(fresh) =~= Map::empty(),
{
    DashMap::new()
}

/// `DashMap::len`: how many keys the map holds.
#[verifier::external_body]
fn count(map: &DashMap<String, LockHandle>) -> (n: usize)
    ensures
        n == entries(*map).len(),
{
    map.len()
}

/// `DashMap::get`, with the handle found cloned out of the map: the handle
/// under `key`, if the map holds one.
#[verifier::external_body]
fn lookup(map: &DashMap<String, LockHandle>, key: &str) -> (found: Option<LockHandle>)
    ensures
        found == entries(*map).get(key@),
{
    map.get(key).map(|entry| entry.value().clone())
}

/// `DashMap::insert`: afterwards the map holds `handle` under `key`, and
/// under every other key what it held before.
#[verifier::external_body]
fn install(map: &mut DashMap<String, LockHandle>, key: &str, handle: LockHandle)
    ensures
        entries(*final(map)) == entries(*old(map)).insert(key@, handle),
{
    map.insert(key.to_string(), handle);
}

/// The numbers of the locks after a request for `key`: as before where the
/// key has a lock, else with the next free number under it.
pub open spec fn bound(locks: Map<Seq<char>, nat>, key: Seq<char>) -> Map<Seq<char>, nat> {
    if locks.contains_key(key) {
        locks
    } else {
        locks.insert(key, locks.len())
    }
}

/// Whether the locks are finitely many, each numbered below their count, and
/// no two keys share a number.
pub open spec fn well_numbered(locks: Map<Seq<char>, nat>) -> bool {
    &&& locks.dom().finite()
    &&& forall|k: Seq<char>| #[trigger] locks.contains_key(k) ==> locks[k] < locks.len()
    &&& forall|j: Seq<char>, k: Seq<char>|
        locks.contains_key(j) && locks.contains_key(k) && locks[j] == locks[k] ==> j == k
}

/// A request keeps the locks well numbered and changes no lock that was
/// there.
pub proof fn lemma_bound(locks: Map<Seq<char>, nat>, key: Seq<char>)
    requires
        well_numbered(locks),
    ensures
        well_numbered(bound(locks, key)),
        bound(locks, key).contains_key(key),
        locks.submap_of(bound(locks, key)),
{
    broadcast use vstd::set::axiom_set_insert_len;

    if !locks.contains_key(key) {
        let next = locks.insert(key, locks.len());
        assert(next.dom() =~= locks.dom().insert(key));
        assert(next.len() == locks.len() + 1);
    }
}

/// The numbers of the handles, by key.
pub open spec fn numbers(held: Map<Seq<char>, LockHandle>) -> Map<Seq<char>, nat> {
    held.map_values(|handle: LockHandle| handle.id() as nat)
}

/// What a registry may hold: finitely many handles, each numbered below
/// their count, and no number under two keys.
pub open spec fn well_formed(held: Map<Seq<char>, LockHandle>) -> bool {
    well_numbered(numbers(held))
}

/// The registry after a request for `key` that `handle` answered: as it was
/// where the key was known, else with `handle` under it.
pub open spec fn requested(
    held: Map<Seq<char>, LockHandle>,
    key: Seq<char>,
    handle: LockHandle,
) -> Map<Seq<char>, LockHandle> {
    if held.contains_key(key) {
        held
    } else {
        held.insert(key, handle)
    }
}

/// Whether `handle` and `after` are what a request for `key` makes of
/// `before`: the key's handle comes back, and only a new key changes what is
/// held.
pub open spec fn answered(
    before: Map<Seq<char>, LockHandle>,
    key: Seq<char>,
    handle: LockHandle,
    after: Map<Seq<char>, LockHandle>,
) -> bool {
    &&& after == requested(before, key, handle)
    &&& after.get(key) == Some(handle)
    &&& !before.contains_key(key) ==> handle.id() == before.len()
    &&& numbers(after) == bound(numbers(before), key)
}

/// Whether request number `i`, for `keys[i]`, found the registry holding
/// `states[i]`, was answered with `handles[i]` and left `states[i + 1]`.
pub open spec fn served(
    states: Seq<Map<Seq<char>, LockHandle>>,
    keys: Seq<Seq<char>>,
    handles: Seq<LockHandle>,
) -> bool {
    &&& states.len() == keys.len() + 1
    &&& handles.len() == keys.len()
    &&& forall|i: int|
        0 <= i < keys.len() ==> answered(states[i], #[trigger] keys[i], handles[i], states[i + 1])
}

/// The registry only grows: whatever it held before some requests it holds
/// after them, under the same keys.
pub proof fn law_handles_are_kept(
    states: Seq<Map<Seq<char>, LockHandle>>,
    keys: Seq<Seq<char>>,
    handles: Seq<LockHandle>,
    earlier: int,
    later: int,
)
    requires
        served(states, keys, handles),
        0 <= earlier <= later <= keys.len(),
    ensures
        states[earlier].submap_of(states[later]),
    decreases later - earlier,
{
    if earlier < later {
        law_handles_are_kept(states, keys, handles, earlier, later - 1);
        assert(answered(states[later - 1], keys[later - 1], handles[later - 1], states[later]));
    }
}

/// One handle per key: of any requests made one after another, whatever
/// their keys, two for the same key are answered with the same handle.
pub proof fn law_one_handle_per_key(
    states: Seq<Map<Seq<char>, LockHandle>>,
    keys: Seq<Seq<char>>,
    handles: Seq<LockHandle>,
    first: int,
    second: int,
)
    requires
        served(states, keys, handles),
        0 <= first <= second < keys.len(),
        keys[first] == keys[second],
    ensures
        handles[first] == handles[second],
{
    if first < second {
        assert(answered(states[first], keys[first], handles[first], states[first + 1]));
        assert(answered(states[second], keys[second], handles[second], states[second + 1]));
        law_handles_are_kept(states, keys, handles, first + 1, second);
        assert(states[first + 1].contains_key(keys[first]));
        assert(states[second].contains_key(keys[first]));
    }
}

/// A mapping from key to the one handle of that key. A handle is made when
/// its key is first asked for and is never taken out again: the registry
/// grows by one entry with every new key and never shrinks, which a process
/// that sees ever new keys pays for in memory.
pub struct LockRegistry {
    locks: DashMap<String, LockHandle>,
}

impl View for LockRegistry {
    type V = Map<Seq<char>, LockHandle>;

    closed spec fn view(&self) -> Map<Seq<char>, LockHandle> {
        entries(self.locks)
    }
}

impl LockRegistry {
    /// Whether the registry holds what a registry may hold. A new registry
    /// does, and no request changes that.
    pub open spec fn wf(&self) -> bool {
        well_formed(self@)
    }

    /// A registry that knows no key.
    pub fn new() -> (registry: LockRegistry)
        ensures
            registry@ == Map::<Seq<char>, LockHandle>::empty(),
            registry.wf(),
    {
        let registry = LockRegistry { locks: empty_map() };
        proof {
            assert(numbers(registry@) =~= Map::empty());
        }
        registry
    }

    /// The number of keys that have a handle.
    pub fn len(&self) -> (n: usize)
        ensures
            n == self@.len(),
    {
        count(&self.locks)
    }

    /// The handle of `key`, where one was made already.
    pub fn get(&self, key: &str) -> (found: Option<LockHandle>)
        ensures
            found == self@.get(key@),
    {
        lookup(&self.locks, key)
    }

    /// The handle of `key`, made now if the key is new. The exclusive
    /// borrow makes looking the key up and installing its handle one step:
    /// no other request can fall between the two, so no key ever gets a
    /// second primitive.
    pub fn get_or_create(&mut self, key: &str) -> (handle: LockHandle)
        ensures
            answered(old(self)@, key@, handle, final(self)@),
            old(self).wf() ==> final(self).wf(),
    {
        proof {
            if self.wf() {
                lemma_bound(numbers(self@), key@);
            }
        }
        match lookup(&self.locks, key) {
            Some(handle) => handle,
            None => {
                let handle = LockHandle::create(count(&self.locks));
                install(&mut self.locks, key, handle.clone());
                proof {
                    assert(numbers(old(self)@).dom() =~= old(self)@.dom());
                    assert(numbers(self@) =~= bound(numbers(old(self)@), key@));
                }
                handle
            },
        }
    }
}

} // verus!
