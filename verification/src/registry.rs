//! The instance registry: a map from instance name to instance record, kept
//! in a `dashmap::DashMap`, and the accessors that work on whichever
//! instance the map yields first.
//!
//! Changing the registry takes `&mut`, so while a contract is evaluated
//! nothing else can change the map under it. The order in which the map
//! yields its entries is not specified; with one instance registered there
//! is no choice to make.

use dashmap::DashMap;
use vstd::prelude::*;
use crate::document::JsonValue;
use crate::instance::{
    ips, is_ips, is_network_status, is_node_info, is_peer_route_pairs, is_peers_and_routes,
    is_running, is_running_info, node_info, peer_route_pairs, peers_and_routes, running_info,
    running_of, status, Instance, InstanceView,
};
use crate::model::{MyNodeInfo, PeerInfo, PeerRoutePair, Route};
use crate::status::KVNetworkStatus;

verus! {

/// `dashmap::DashMap`, of which verified code sees nothing but the entries
/// that the wrappers below speak of.
#[verifier::external_type_specification]
#[verifier::external_body]
#[verifier::reject_recursive_types(K)]
#[verifier::reject_recursive_types(V)]
#[verifier::reject_recursive_types(S)]
pub struct ExDashMap<K, V, S>(DashMap<K, V, S>);

/// The entries a map of instances holds, by instance name.
pub uninterp spec fn entries(map: DashMap<String, Instance>) -> Map<Seq<char>, InstanceView>;

/// `DashMap::new`: a map that holds no entry.
#[verifier::external_body]
fn map_new() -> (created: DashMap<String, Instance>)
    ensures
        entries(created) == no_entries(),
{
    DashMap::new()
}

/// `DashMap::insert`: afterwards the key is bound to the value and every
/// other key is as before; the value the key was bound to is returned.
#[verifier::external_body]
fn map_insert(map: &mut DashMap<String, Instance>, name: String, instance: Instance) -> (replaced:
    Option<Instance>)
    ensures
        entries(*final(map)) == entries(*old(map)).insert(name@, instance.deep_view()),
        replaced.deep_view() == lookup(entries(*old(map)), name@),
{
    map.insert(name, instance)
}

/// `DashMap::remove`: afterwards the key is unbound and every other key is
/// as before; the value the key was bound to is returned.
#[verifier::external_body]
fn map_remove(map: &mut DashMap<String, Instance>, name: &str) -> (removed: Option<Instance>)
    ensures
        entries(*final(map)) == entries(*old(map)).remove(name@),
        removed.deep_view() == lookup(entries(*old(map)), name@),
{
    map.remove(name).map(|entry| entry.1)
}

/// `DashMap::get`: a copy of the value the key is bound to.
#[verifier::external_body]
fn map_get(map: &DashMap<String, Instance>, name: &str) -> (found: Option<Instance>)
    ensures
        found.deep_view() == lookup(entries(*map), name@),
{
    map.get(name).map(|entry| entry.value().clone())
}

/// `DashMap::len`: the number of entries, which is finite.
#[verifier::external_body]
fn map_len(map: &DashMap<String, Instance>) -> (n: usize)
    ensures
        holds_exactly(entries(*map), n as nat),
{
    map.len()
}

/// `DashMap::iter`: the keys of all entries, each once, in the order in
/// which the map yields them, of which nothing is said.
#[verifier::external_body]
fn map_names(map: &DashMap<String, Instance>) -> (names: Vec<String>)
    ensures
        names.deep_view().no_duplicates(),
        names.deep_view().to_set() == entries(*map).dom(),
{
    map.iter().map(|entry| entry.key().clone()).collect()
}

/// The map without entries.
pub open spec fn no_entries() -> Map<Seq<char>, InstanceView> {
    Map::empty()
}

/// Whether `m` has `n` entries and no more.
pub open spec fn holds_exactly(m: Map<Seq<char>, InstanceView>, n: nat) -> bool {
    m.dom().finite() && m.len() == n
}

/// The value a key is bound to, if any.
pub open spec fn lookup(m: Map<Seq<char>, InstanceView>, name: Seq<char>) -> Option<InstanceView> {
    if m.contains_key(name) {
        Some(m[name])
    } else {
        None
    }
}

/// Whether `current` can be what a registry with the entries `m` yields
/// first: one of its instances, or none where it has none.
pub open spec fn may_be_current(
    m: Map<Seq<char>, InstanceView>,
    current: Option<InstanceView>,
) -> bool {
    match current {
        None => m.dom() =~= Set::empty(),
        Some(instance) => exists|name: Seq<char>| #[trigger]
            m.contains_key(name) && m[name] == instance,
    }
}

/// The instances of one process, by name.
pub struct Registry {
    map: DashMap<String, Instance>,
}

impl View for Registry {
    type V = Map<Seq<char>, InstanceView>;

    closed spec fn view(&self) -> Map<Seq<char>, InstanceView> {
        entries(self.map)
    }
}

impl Registry {
    /// A registry without instances.
    pub fn new() -> (r: Registry)
        ensures
            r@ == no_entries(),
    {
        Registry { map: map_new() }
    }

    /// Registers `instance` under `name` and returns the instance that was
    /// registered under that name before, if there was one.
    pub fn register(&mut self, name: String, instance: Instance) -> (replaced: Option<Instance>)
        ensures
            final(self)@ == old(self)@.insert(name@, instance.deep_view()),
            replaced.deep_view() == lookup(old(self)@, name@),
    {
        map_insert(&mut self.map, name, instance)
    }

    /// Removes the instance registered under `name` and returns it.
    pub fn unregister(&mut self, name: &str) -> (removed: Option<Instance>)
        ensures
            final(self)@ == old(self)@.remove(name@),
            removed.deep_view() == lookup(old(self)@, name@),
    {
        map_remove(&mut self.map, name)
    }

    /// The instance registered under `name`.
    pub fn get(&self, name: &str) -> (found: Option<Instance>)
        ensures
            found.deep_view() == lookup(self@, name@),
    {
        map_get(&self.map, name)
    }

    /// The number of registered instances.
    pub fn len(&self) -> (n: usize)
        ensures
            holds_exactly(self@, n as nat),
    {
        map_len(&self.map)
    }

    /// Whether no instance is registered.
    pub fn is_empty(&self) -> (r: bool)
        ensures
            r <==> self@ == no_entries(),
    {
        let n = map_len(&self.map);
        proof {
            if n == 0 {
                assert(self@.dom() =~= Set::empty());
                assert(self@ =~= no_entries());
            } else {
                assert(self@.dom().len() > 0);
            }
        }
        n == 0
    }

    /// The names of all registered instances, each once, in no stated order.
    pub fn names(&self) -> (names: Vec<String>)
        ensures
            names.deep_view().no_duplicates(),
            names.deep_view().to_set() == self@.dom(),
    {
        map_names(&self.map)
    }

    /// All registered instances with their names, each once, in no stated
    /// order.
    pub fn iterate(&self) -> (all: Vec<(String, Instance)>)
        ensures
            all.len() == self@.len(),
            forall|i: int, j: int|
                0 <= i < j < all.len() ==> (#[trigger] all@[i]).0@ != (#[trigger] all@[j]).0@,
            forall|i: int|
                0 <= i < all.len() ==> lookup(self@, (#[trigger] all@[i]).0@) == Some(
                    all@[i].1.deep_view(),
                ),
    {
        let names = map_names(&self.map);
        let ghost keys = names.deep_view();
        let mut all: Vec<(String, Instance)> = Vec::new();
        let mut i: usize = 0;
        while i < names.len()
            invariant
                i <= names.len(),
                all.len() == i,
                keys == names.deep_view(),
                keys.to_set() == self@.dom(),
                forall|k: int| 0 <= k < i ==> (#[trigger] all@[k]).0@ == keys[k],
                forall|k: int|
                    0 <= k < i ==> lookup(self@, (#[trigger] all@[k]).0@) == Some(
                        all@[k].1.deep_view(),
                    ),
            decreases names.len() - i,
        {
            assert(keys[i as int] == names[i as int]@);
            match map_get(&self.map, names[i].as_str()) {
                Some(instance) => {
                    all.push((names[i].clone(), instance));
                },
                None => {
                    assert(false);
                },
            }
            i += 1;
        }
        proof {
            keys.unique_seq_to_set();
        }
        all
    }

    /// The instance that the accessors take for the current one: the first
    /// the map yields, and none where the registry is empty.
    pub fn current(&self) -> (current: Option<Instance>)
        ensures
            may_be_current(self@, current.deep_view()),
    {
        let names = map_names(&self.map);
        if names.len() == 0 {
            None
        } else {
            assert(names.deep_view().to_set().contains(names.deep_view()[0]));
            map_get(&self.map, names[0].as_str())
        }
    }
}

/// The peers and routes of the current instance.
pub fn get_peers_and_routes(registry: &Registry) -> (r: Result<(Vec<PeerInfo>, Vec<Route>), String>)
    ensures
        exists|current: Option<InstanceView>| #[trigger]
            may_be_current(registry@, current) && is_peers_and_routes(r, current),
{
    let current = registry.current();
    peers_and_routes(current.as_ref())
}

/// The paired routes of the current instance.
pub fn get_peer_route_pairs(registry: &Registry) -> (r: Result<Vec<PeerRoutePair>, String>)
    ensures
        exists|current: Option<InstanceView>| #[trigger]
            may_be_current(registry@, current) && is_peer_route_pairs(r, current),
{
    let current = registry.current();
    peer_route_pairs(current.as_ref())
}

/// The local node of the current instance.
pub fn get_node_info(registry: &Registry) -> (r: Result<MyNodeInfo, String>)
    ensures
        exists|current: Option<InstanceView>| #[trigger]
            may_be_current(registry@, current) && is_node_info(r, current),
{
    let current = registry.current();
    node_info(current.as_ref())
}

/// Whether the current instance runs; false where none is registered.
pub fn is_easytier_running(registry: &Registry) -> (r: bool)
    ensures
        exists|current: Option<InstanceView>| #[trigger]
            may_be_current(registry@, current) && r == running_of(current),
{
    let current = registry.current();
    is_running(current.as_ref())
}

/// The addresses of all routes of the current instance, each once; the
/// no-instance failure where none is registered.
pub fn get_all_ips(registry: &Registry) -> (r: Result<Vec<String>, String>)
    ensures
        exists|current: Option<InstanceView>| #[trigger]
            may_be_current(registry@, current) && is_ips(r, current),
        r matches Ok(list) ==> list.deep_view().no_duplicates(),
{
    let current = registry.current();
    ips(current.as_ref())
}

/// The topology view of the current instance; the no-instance failure where
/// none is registered.
pub fn get_network_status(registry: &Registry) -> (r: Result<KVNetworkStatus, String>)
    ensures
        exists|current: Option<InstanceView>| #[trigger]
            may_be_current(registry@, current) && is_network_status(r, current),
{
    let current = registry.current();
    status(current.as_ref())
}

/// The current instance's snapshot as a document; the no-instance failure
/// where none is registered.
pub fn get_running_info(registry: &Registry) -> (r: Result<JsonValue, String>)
    ensures
        exists|current: Option<InstanceView>| #[trigger]
            may_be_current(registry@, current) && is_running_info(r, current),
{
    let current = registry.current();
    running_info(current.as_ref())
}

/// An instance record with the TUN descriptor `fd` assigned.
pub open spec fn with_tun_fd(instance: InstanceView, fd: i32) -> InstanceView {
    InstanceView { running: instance.running, tun_fd: Some(fd), info: instance.info }
}

/// Assigns the TUN descriptor `fd` to every registered instance. Always
/// succeeds.
pub fn set_tun_fd(registry: &mut Registry, fd: i32) -> (r: Result<(), String>)
    ensures
        r is Ok,
        final(registry)@.dom() == old(registry)@.dom(),
        forall|name: Seq<char>| #[trigger]
            old(registry)@.contains_key(name) ==> final(registry)@[name] == with_tun_fd(
                old(registry)@[name],
                fd,
            ),
{
    let names = registry.names();
    let ghost before = registry@;
    let ghost all = names.deep_view();
    let mut i: usize = 0;
    while i < names.len()
        invariant
            i <= names.len(),
            all == names.deep_view(),
            all.no_duplicates(),
            all.to_set() == before.dom(),
            registry@.dom() == before.dom(),
            forall|j: int|
                0 <= j < i ==> registry@[#[trigger] all[j]] == with_tun_fd(before[all[j]], fd),
            forall|j: int| i <= j < names.len() ==> registry@[#[trigger] all[j]] == before[all[j]],
        decreases names.len() - i,
    {
        let ghost name = all[i as int];
        assert(name == names[i as int]@);
        assert(all.to_set().contains(name));
        match registry.get(names[i].as_str()) {
            Some(instance) => {
                let updated = Instance {
                    running: instance.running,
                    tun_fd: Some(fd),
                    info: instance.info,
                };
                registry.register(names[i].clone(), updated);
                assert(registry@.dom() =~= before.dom());
                assert forall|j: int| 0 <= j < i + 1 implies registry@[#[trigger] all[j]]
                    == with_tun_fd(before[all[j]], fd) by {
                    if j < i {
                        assert(all[j] != name);
                    }
                }
                assert forall|j: int| i + 1 <= j < names.len() implies registry@[#[trigger] all[j]]
                    == before[all[j]] by {
                    assert(all[j] != name);
                }
            },
            None => {
                assert(false);
            },
        }
        i += 1;
    }
    proof {
        assert forall|name: Seq<char>| #[trigger] before.contains_key(name) implies registry@[name]
            == with_tun_fd(before[name], fd) by {
            assert(all.to_set().contains(name));
            let j = choose|j: int| 0 <= j < all.len() && all[j] == name;
            assert(registry@[all[j]] == with_tun_fd(before[all[j]], fd));
        }
    }
    Ok(())
}

/// Removes every instance from the registry and returns the names under
/// which they were registered. On an empty registry it does nothing.
pub fn close_all_server(registry: &mut Registry) -> (closed: Vec<String>)
    ensures
        final(registry)@ == no_entries(),
        closed.deep_view().no_duplicates(),
        closed.deep_view().to_set() == old(registry)@.dom(),
{
    let names = registry.names();
    let ghost before = registry@;
    let mut i: usize = 0;
    while i < names.len()
        invariant
            i <= names.len(),
            names.deep_view().to_set() == before.dom(),
            forall|name: Seq<char>|
                registry@.contains_key(name) ==> exists|j: int|
                    i <= j < names.len() && #[trigger] names.deep_view()[j] == name,
        decreases names.len() - i,
    {
        let ghost gone = names.deep_view()[i as int];
        assert(gone == names[i as int]@);
        let ghost prior = registry@;
        let _ = registry.unregister(names[i].as_str());
        assert forall|name: Seq<char>| registry@.contains_key(name) implies exists|j: int|
            i + 1 <= j < names.len() && #[trigger] names.deep_view()[j] == name by {
            assert(prior.contains_key(name));
            let j = choose|j: int| i <= j < names.len() && #[trigger] names.deep_view()[j] == name;
            assert(j != i);
        }
        i += 1;
    }
    assert(registry@ =~= no_entries());
    names
}

} // verus!
