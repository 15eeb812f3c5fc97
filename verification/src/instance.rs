//! The record of one mesh instance, and the accessors that read the current
//! instance's snapshot.
//!
//! An accessor is handed the current instance, if there is one. Without an
//! instance every accessor that yields data fails with the no-instance
//! message. An instance that has produced no snapshot yet is a state of its
//! own: the accessors for pairs, peers and routes, and node info fail with
//! the not-ready message, and those for addresses, topology view and
//! document give the empty result.

use vstd::prelude::*;
use crate::document::{
    empty_doc, empty_document, snapshot_doc, snapshot_document, JsonValue, JsonView,
};
use crate::model::{
    MyNodeInfo, MyNodeInfoView, PeerInfo, PeerInfoView, PeerRoutePair, PeerRoutePairView, Route,
    RouteView, Snapshot, SnapshotView,
};
use crate::pairing::{pair, paired};
use crate::status::{
    addresses, all_ips, empty_status, network_status, status_of, KVNetworkStatus,
    KVNetworkStatusView,
};

verus! {

/// What the library knows of one running mesh session: whether it runs, the
/// TUN descriptor assigned to it, and its latest snapshot, absent until the
/// session has produced one.
#[derive(Debug, PartialEq, Eq)]
pub struct Instance {
    pub running: bool,
    pub tun_fd: Option<i32>,
    pub info: Option<Snapshot>,
}

/// The view of a `Instance`: its strings and vectors as sequences.
pub struct InstanceView {
    pub running: bool,
    pub tun_fd: Option<i32>,
    pub info: Option<SnapshotView>,
}

impl DeepView for Instance {
    type V = InstanceView;

    open spec fn deep_view(&self) -> InstanceView {
        InstanceView { running: self.running, tun_fd: self.tun_fd, info: self.info.deep_view() }
    }
}

impl Clone for Instance {
    fn clone(&self) -> (r: Self)
        ensures
            r.deep_view() == self.deep_view(),
    {
        Instance { running: self.running, tun_fd: self.tun_fd, info: self.info.clone() }
    }
}

/// The failure reported where no instance is registered.
pub open spec fn no_instance_message() -> Seq<char> {
    "没有运行中的网络实例"@
}

/// The failure reported where the instance has no snapshot yet.
pub open spec fn not_ready_message() -> Seq<char> {
    "无法获取运行信息"@
}

/// The failure reported where the snapshot does not know the local node.
pub open spec fn no_node_info_message() -> Seq<char> {
    "无法获取节点信息"@
}

/// The snapshot an accessor works on, or the failure it reports.
pub open spec fn snapshot_of(current: Option<InstanceView>) -> Result<SnapshotView, Seq<char>> {
    match current {
        None => Err(no_instance_message()),
        Some(instance) => match instance.info {
            None => Err(not_ready_message()),
            Some(snapshot) => Ok(snapshot),
        },
    }
}

/// The peers and routes of the current snapshot.
pub open spec fn peers_and_routes_of(current: Option<InstanceView>) -> Result<
    (Seq<PeerInfoView>, Seq<RouteView>),
    Seq<char>,
> {
    match snapshot_of(current) {
        Ok(snapshot) => Ok((snapshot.peers, snapshot.routes)),
        Err(e) => Err(e),
    }
}

/// The pairs of the current snapshot, the local node's included.
pub open spec fn pairs_of(current: Option<InstanceView>) -> Result<
    Seq<PeerRoutePairView>,
    Seq<char>,
> {
    match snapshot_of(current) {
        Ok(snapshot) => Ok(paired(snapshot)),
        Err(e) => Err(e),
    }
}

/// The local node of the current snapshot.
pub open spec fn node_info_of(current: Option<InstanceView>) -> Result<MyNodeInfoView, Seq<char>> {
    match snapshot_of(current) {
        Ok(snapshot) => match snapshot.my_node_info {
            Some(node) => Ok(node),
            None => Err(no_node_info_message()),
        },
        Err(e) => Err(e),
    }
}

/// Whether the current instance runs; there being none counts as not.
pub open spec fn running_of(current: Option<InstanceView>) -> bool {
    match current {
        Some(instance) => instance.running,
        None => false,
    }
}

/// The address list of the current instance: a failure where there is no
/// instance, no address where the instance has no snapshot yet, and the
/// addresses of the snapshot's routes otherwise.
pub open spec fn ips_of(current: Option<InstanceView>) -> Result<Seq<Seq<char>>, Seq<char>> {
    match current {
        None => Err(no_instance_message()),
        Some(instance) => match instance.info {
            None => Ok(Seq::empty()),
            Some(snapshot) => Ok(addresses(snapshot.routes, snapshot.routes.len() as int)),
        },
    }
}

/// The topology view of the current instance: a failure where there is no
/// instance, a view without nodes where the instance has no snapshot yet,
/// and the view of the snapshot otherwise.
pub open spec fn network_status_of(current: Option<InstanceView>) -> Result<
    KVNetworkStatusView,
    Seq<char>,
> {
    match current {
        None => Err(no_instance_message()),
        Some(instance) => match instance.info {
            None => Ok(empty_status()),
            Some(snapshot) => Ok(status_of(snapshot)),
        },
    }
}

/// The document of the current instance: a failure where there is no
/// instance, an object without members where the instance has no snapshot
/// yet, and the document of the snapshot otherwise.
pub open spec fn running_info_of(current: Option<InstanceView>) -> Result<JsonView, Seq<char>> {
    match current {
        None => Err(no_instance_message()),
        Some(instance) => match instance.info {
            None => Ok(empty_doc()),
            Some(snapshot) => Ok(snapshot_doc(snapshot)),
        },
    }
}

/// Whether `r` is what `ips` returns for `current`.
pub open spec fn is_ips(r: Result<Vec<String>, String>, current: Option<InstanceView>) -> bool {
    match r {
        Ok(list) => ips_of(current) == Ok::<_, Seq<char>>(list.deep_view()),
        Err(e) => ips_of(current) == Err::<Seq<Seq<char>>, _>(e@),
    }
}

/// Whether `r` is what `status` returns for `current`.
pub open spec fn is_network_status(
    r: Result<KVNetworkStatus, String>,
    current: Option<InstanceView>,
) -> bool {
    match r {
        Ok(view) => network_status_of(current) == Ok::<_, Seq<char>>(view.deep_view()),
        Err(e) => network_status_of(current) == Err::<KVNetworkStatusView, _>(e@),
    }
}

/// Whether `r` is what `running_info` returns for `current`.
pub open spec fn is_running_info(
    r: Result<JsonValue, String>,
    current: Option<InstanceView>,
) -> bool {
    match r {
        Ok(doc) => running_info_of(current) == Ok::<_, Seq<char>>(doc.deep_view()),
        Err(e) => running_info_of(current) == Err::<JsonView, _>(e@),
    }
}

/// Whether `r` is what `peers_and_routes` returns for `current`.
pub open spec fn is_peers_and_routes(
    r: Result<(Vec<PeerInfo>, Vec<Route>), String>,
    current: Option<InstanceView>,
) -> bool {
    match r {
        Ok((peers, routes)) => peers_and_routes_of(current) == Ok::<_, Seq<char>>(
            (peers.deep_view(), routes.deep_view()),
        ),
        Err(e) => peers_and_routes_of(current) == Err::<(Seq<PeerInfoView>, Seq<RouteView>), _>(
            e@,
        ),
    }
}

/// Whether `r` is what `peer_route_pairs` returns for `current`.
pub open spec fn is_peer_route_pairs(
    r: Result<Vec<PeerRoutePair>, String>,
    current: Option<InstanceView>,
) -> bool {
    match r {
        Ok(pairs) => pairs_of(current) == Ok::<_, Seq<char>>(pairs.deep_view()),
        Err(e) => pairs_of(current) == Err::<Seq<PeerRoutePairView>, _>(e@),
    }
}

/// Whether `r` is what `node_info` returns for `current`.
pub open spec fn is_node_info(
    r: Result<MyNodeInfo, String>,
    current: Option<InstanceView>,
) -> bool {
    match r {
        Ok(node) => node_info_of(current) == Ok::<_, Seq<char>>(node.deep_view()),
        Err(e) => node_info_of(current) == Err::<MyNodeInfoView, _>(e@),
    }
}

fn snapshot_in(current: Option<&Instance>) -> (r: Result<&Snapshot, String>)
    ensures
        match r {
            Ok(snapshot) => snapshot_of(current.deep_view()) == Ok::<_, Seq<char>>(
                snapshot.deep_view(),
            ),
            Err(e) => snapshot_of(current.deep_view()) == Err::<SnapshotView, _>(e@),
        },
{
    match current {
        None => Err("没有运行中的网络实例".to_string()),
        Some(instance) => match &instance.info {
            None => Err("无法获取运行信息".to_string()),
            Some(snapshot) => Ok(snapshot),
        },
    }
}

/// The peers and the routes of the current instance's snapshot.
///
/// Fails with the no-instance message where `current` is `None`, and with the
/// not-ready message where the instance has no snapshot.
pub fn peers_and_routes(current: Option<&Instance>) -> (r: Result<
    (Vec<PeerInfo>, Vec<Route>),
    String,
>)
    ensures
        is_peers_and_routes(r, current.deep_view()),
{
    match snapshot_in(current) {
        Ok(snapshot) => {
            let peers = snapshot.peers.clone();
            let routes = snapshot.routes.clone();
            Ok((peers, routes))
        },
        Err(e) => Err(e),
    }
}

/// The paired routes of the current instance's snapshot, with the local
/// node's pair at the end where the snapshot knows the local node.
///
/// Fails as `peers_and_routes` does.
pub fn peer_route_pairs(current: Option<&Instance>) -> (r: Result<Vec<PeerRoutePair>, String>)
    ensures
        is_peer_route_pairs(r, current.deep_view()),
{
    match snapshot_in(current) {
        Ok(snapshot) => Ok(pair(snapshot)),
        Err(e) => Err(e),
    }
}

/// The local node of the current instance's snapshot.
///
/// Fails as `peers_and_routes` does, and with the no-node-info message where
/// the snapshot does not know the local node.
pub fn node_info(current: Option<&Instance>) -> (r: Result<MyNodeInfo, String>)
    ensures
        is_node_info(r, current.deep_view()),
{
    match snapshot_in(current) {
        Ok(snapshot) => match &snapshot.my_node_info {
            Some(node) => Ok(node.clone()),
            None => Err("无法获取节点信息".to_string()),
        },
        Err(e) => Err(e),
    }
}

/// Whether the current instance runs.
pub fn is_running(current: Option<&Instance>) -> (r: bool)
    ensures
        r == running_of(current.deep_view()),
{
    match current {
        Some(instance) => instance.running,
        None => false,
    }
}

/// The addresses of all routes of the current instance, each once.
///
/// Fails with the no-instance message where `current` is `None`. An instance
/// that has no snapshot yet has no addresses.
pub fn ips(current: Option<&Instance>) -> (r: Result<Vec<String>, String>)
    ensures
        is_ips(r, current.deep_view()),
        r matches Ok(list) ==> list.deep_view().no_duplicates(),
{
    match current {
        None => Err("没有运行中的网络实例".to_string()),
        Some(instance) => match &instance.info {
            None => {
                let none: Vec<String> = Vec::new();
                assert(none.deep_view() =~= Seq::<Seq<char>>::empty());
                Ok(none)
            },
            Some(snapshot) => Ok(all_ips(snapshot)),
        },
    }
}

/// The topology view of the current instance.
///
/// Fails with the no-instance message where `current` is `None`. An instance
/// that has no snapshot yet has a view without nodes.
pub fn status(current: Option<&Instance>) -> (r: Result<KVNetworkStatus, String>)
    ensures
        is_network_status(r, current.deep_view()),
{
    match current {
        None => Err("没有运行中的网络实例".to_string()),
        Some(instance) => match &instance.info {
            None => {
                let none: Vec<crate::status::KVNodeInfo> = Vec::new();
                assert(none.deep_view() =~= Seq::empty());
                Ok(KVNetworkStatus { total_nodes: 0, nodes: none })
            },
            Some(snapshot) => Ok(network_status(snapshot)),
        },
    }
}

/// The current instance's snapshot as a document.
///
/// Fails with the no-instance message where `current` is `None`. An instance
/// that has no snapshot yet has an object without members.
pub fn running_info(current: Option<&Instance>) -> (r: Result<JsonValue, String>)
    ensures
        is_running_info(r, current.deep_view()),
{
    match current {
        None => Err("没有运行中的网络实例".to_string()),
        Some(instance) => match &instance.info {
            None => Ok(empty_document()),
            Some(snapshot) => Ok(snapshot_document(snapshot)),
        },
    }
}

} // verus!
