use mesh_topology::document::JsonValue;
use mesh_topology::instance::{
    ips, is_running, node_info, peer_route_pairs, peers_and_routes, running_info, status, Instance,
};
use mesh_topology::model::{
    Ipv4Addr, Ipv4Inet, MyNodeInfo, PeerInfo, PeerRoutePair, Route, Snapshot,
};
use mesh_topology::status::KVNetworkStatus;
use mesh_topology::registry::{
    close_all_server, get_all_ips, get_network_status, get_node_info, get_peer_route_pairs,
    get_peers_and_routes, get_running_info, is_easytier_running, set_tun_fd, Registry,
};

const NO_INSTANCE: &str = "没有运行中的网络实例";
const NOT_READY: &str = "无法获取运行信息";
const NO_NODE_INFO: &str = "无法获取节点信息";

fn plain_route(peer_id: u32, last_octet: u32, hostname: &str) -> Route {
    Route {
        peer_id,
        ipv4_addr: Some(Ipv4Inet {
            address: Some(Ipv4Addr { addr: (10 << 24) | last_octet }),
            network_length: 24,
        }),
        next_hop_peer_id: peer_id,
        cost: 1,
        path_latency: 5000,
        proxy_cidrs: vec![],
        hostname: hostname.to_string(),
        stun_info: None,
        inst_id: "i".to_string(),
        version: "v".to_string(),
        feature_flag: None,
        next_hop_peer_id_latency_first: None,
        cost_latency_first: None,
        path_latency_latency_first: None,
    }
}

fn node_a() -> MyNodeInfo {
    MyNodeInfo {
        virtual_ipv4: Some(Ipv4Inet {
            address: Some(Ipv4Addr { addr: (10 << 24) | 1 }),
            network_length: 24,
        }),
        hostname: "A".to_string(),
        version: "v".to_string(),
        ips: None,
        stun_info: None,
        listeners: vec![],
        vpn_portal_cfg: None,
    }
}

fn ready(dev: &str, node: Option<MyNodeInfo>) -> Instance {
    let b = plain_route(2, 2, "B");
    Instance {
        running: true,
        tun_fd: None,
        info: Some(Snapshot {
            dev_name: dev.to_string(),
            my_node_info: node,
            events: vec!["started".to_string()],
            routes: vec![b.clone()],
            peers: vec![PeerInfo { peer_id: 2, conns: vec![] }],
            peer_route_pairs: vec![PeerRoutePair { route: Some(b), peer: None }],
            running: true,
            error_msg: None,
        }),
    }
}

fn starting() -> Instance {
    Instance { running: false, tun_fd: None, info: None }
}

#[test]
fn new_registry_is_empty() {
    let reg = Registry::new();
    assert_eq!(reg.len(), 0);
    assert!(reg.is_empty());
    assert!(reg.names().is_empty());
    assert_eq!(reg.current(), None);
    assert_eq!(reg.get("default"), None);
}

#[test]
fn register_binds_and_returns_what_was_replaced() {
    let mut reg = Registry::new();
    assert_eq!(reg.register("one".to_string(), starting()), None);
    assert_eq!(reg.len(), 1);
    assert!(!reg.is_empty());
    assert_eq!(reg.get("one"), Some(starting()));
    assert_eq!(reg.get("two"), None);
    let replaced = reg.register("one".to_string(), ready("tun0", None));
    assert_eq!(replaced, Some(starting()));
    assert_eq!(reg.len(), 1);
    assert_eq!(reg.get("one"), Some(ready("tun0", None)));
    assert_eq!(reg.register("two".to_string(), starting()), None);
    assert_eq!(reg.len(), 2);
    let mut names = reg.names();
    names.sort();
    assert_eq!(names, ["one", "two"]);
}

#[test]
fn unregister_removes_and_returns_the_instance() {
    let mut reg = Registry::new();
    reg.register("one".to_string(), ready("tun0", None));
    reg.register("two".to_string(), starting());
    assert_eq!(reg.unregister("missing"), None);
    assert_eq!(reg.len(), 2);
    assert_eq!(reg.unregister("one"), Some(ready("tun0", None)));
    assert_eq!(reg.len(), 1);
    assert_eq!(reg.get("one"), None);
    assert_eq!(reg.get("two"), Some(starting()));
    assert_eq!(reg.unregister("one"), None);
    assert_eq!(reg.names(), ["two"]);
}

#[test]
fn current_is_one_of_the_registered_instances() {
    let mut reg = Registry::new();
    reg.register("only".to_string(), ready("tun7", None));
    assert_eq!(reg.current(), Some(ready("tun7", None)));
    reg.register("other".to_string(), starting());
    let current = reg.current().unwrap();
    assert!(current == ready("tun7", None) || current == starting());
}

#[test]
fn accessors_fail_without_instance() {
    let reg = Registry::new();
    assert_eq!(get_peers_and_routes(&reg), Err(NO_INSTANCE.to_string()));
    assert_eq!(get_peer_route_pairs(&reg), Err(NO_INSTANCE.to_string()));
    assert_eq!(get_node_info(&reg), Err(NO_INSTANCE.to_string()));
    assert!(!is_easytier_running(&reg));
    assert_eq!(get_all_ips(&reg), Err(NO_INSTANCE.to_string()));
    assert_eq!(get_network_status(&reg), Err(NO_INSTANCE.to_string()));
    assert_eq!(get_running_info(&reg), Err(NO_INSTANCE.to_string()));
    assert_eq!(ips(None), Err(NO_INSTANCE.to_string()));
    assert_eq!(status(None), Err(NO_INSTANCE.to_string()));
    assert_eq!(running_info(None), Err(NO_INSTANCE.to_string()));
    assert!(!is_running(None));
    assert_eq!(peers_and_routes(None), Err(NO_INSTANCE.to_string()));
    assert_eq!(peer_route_pairs(None), Err(NO_INSTANCE.to_string()));
    assert_eq!(node_info(None), Err(NO_INSTANCE.to_string()));
}

#[test]
fn accessors_report_an_instance_that_is_not_ready() {
    let mut reg = Registry::new();
    reg.register("n".to_string(), starting());
    assert_eq!(get_peers_and_routes(&reg), Err(NOT_READY.to_string()));
    assert_eq!(get_peer_route_pairs(&reg), Err(NOT_READY.to_string()));
    assert_eq!(get_node_info(&reg), Err(NOT_READY.to_string()));
    assert!(!is_easytier_running(&reg));
    assert_eq!(get_all_ips(&reg), Ok(vec![]));
    assert_eq!(get_network_status(&reg), Ok(KVNetworkStatus { total_nodes: 0, nodes: vec![] }));
    assert_eq!(get_running_info(&reg), Ok(JsonValue::Object(vec![])));
    let half = Instance { running: true, tun_fd: None, info: None };
    assert!(is_running(Some(&half)));
    assert_eq!(ips(Some(&half)), Ok(vec![]));
    assert_eq!(status(Some(&half)), Ok(KVNetworkStatus { total_nodes: 0, nodes: vec![] }));
    assert_eq!(running_info(Some(&half)), Ok(JsonValue::Object(vec![])));
}

#[test]
fn accessors_read_the_snapshot_of_the_instance() {
    let mut reg = Registry::new();
    let instance = ready("tun0", Some(node_a()));
    let snapshot = instance.info.clone().unwrap();
    reg.register("n".to_string(), instance);
    assert_eq!(
        get_peers_and_routes(&reg),
        Ok((snapshot.peers.clone(), snapshot.routes.clone()))
    );
    let pairs = get_peer_route_pairs(&reg).unwrap();
    assert_eq!(pairs.len(), 2);
    assert_eq!(pairs[0], snapshot.peer_route_pairs[0]);
    assert_eq!(pairs[1].route.as_ref().unwrap().hostname, "A");
    assert_eq!(get_node_info(&reg), Ok(node_a()));
    assert!(is_easytier_running(&reg));
    assert_eq!(get_all_ips(&reg), Ok(vec!["10.0.0.2/24".to_string()]));
    let status = get_network_status(&reg).unwrap();
    assert_eq!(status.total_nodes, 2);
    assert_eq!(status.nodes[0].hostname, "B");
    assert_eq!(status.nodes[0].latency_us, 5000);
    let hops: Vec<&str> = status.nodes[0].hops.iter().map(|h| h.node_name.as_str()).collect();
    assert_eq!(hops, ["A", "B"]);
    match get_running_info(&reg) {
        Ok(JsonValue::Object(members)) => assert_eq!(members.len(), 8),
        other => panic!("not an object: {:?}", other),
    }
}

#[test]
fn node_info_is_missing_where_the_snapshot_has_none() {
    let mut reg = Registry::new();
    reg.register("n".to_string(), ready("tun0", None));
    assert_eq!(get_node_info(&reg), Err(NO_NODE_INFO.to_string()));
    assert_eq!(get_peer_route_pairs(&reg).unwrap().len(), 1);
}

#[test]
fn set_tun_fd_reaches_every_instance() {
    let mut reg = Registry::new();
    assert_eq!(set_tun_fd(&mut reg, 5), Ok(()));
    assert!(reg.is_empty());
    reg.register("one".to_string(), ready("tun0", None));
    reg.register("two".to_string(), starting());
    reg.register("three".to_string(), Instance { tun_fd: Some(9), ..starting() });
    assert_eq!(set_tun_fd(&mut reg, 42), Ok(()));
    assert_eq!(reg.len(), 3);
    assert_eq!(reg.get("one"), Some(Instance { tun_fd: Some(42), ..ready("tun0", None) }));
    assert_eq!(reg.get("two"), Some(Instance { tun_fd: Some(42), ..starting() }));
    assert_eq!(reg.get("three"), Some(Instance { tun_fd: Some(42), ..starting() }));
    assert_eq!(set_tun_fd(&mut reg, -1), Ok(()));
    assert_eq!(reg.get("two").unwrap().tun_fd, Some(-1));
}

#[test]
fn close_all_empties_the_registry_and_is_idempotent() {
    let mut reg = Registry::new();
    assert!(close_all_server(&mut reg).is_empty());
    reg.register("one".to_string(), ready("tun0", None));
    reg.register("two".to_string(), starting());
    let mut closed = close_all_server(&mut reg);
    closed.sort();
    assert_eq!(closed, ["one", "two"]);
    assert!(reg.is_empty());
    assert_eq!(reg.len(), 0);
    assert_eq!(reg.get("one"), None);
    assert!(close_all_server(&mut reg).is_empty());
    assert_eq!(get_peers_and_routes(&reg), Err(NO_INSTANCE.to_string()));
}

#[test]
fn iterate_yields_every_instance_once() {
    let mut reg = Registry::new();
    assert!(reg.iterate().is_empty());
    reg.register("one".to_string(), ready("tun0", None));
    reg.register("two".to_string(), starting());
    reg.register("two".to_string(), Instance { running: true, ..starting() });
    let mut all = reg.iterate();
    all.sort_by(|a, b| a.0.cmp(&b.0));
    assert_eq!(
        all,
        vec![
            ("one".to_string(), ready("tun0", None)),
            ("two".to_string(), Instance { running: true, ..starting() }),
        ]
    );
}
