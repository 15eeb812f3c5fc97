use mesh_topology::document::{
    conn_json, empty_document, node_json, pair_json, peer_json, route_json, snapshot_document,
    JsonValue,
};
use mesh_topology::model::{
    GetIpListResponse, Ipv4Addr, Ipv4Inet, Ipv6Addr, LossRate, MyNodeInfo, PeerConnInfo,
    PeerConnStats, PeerFeatureFlag, PeerInfo, PeerRoutePair, Route, Snapshot, StunInfo,
    TunnelInfo, Url,
};
use mesh_topology::reading::parse_snapshot;
use serde_json::{Number, Value};

fn to_serde(doc: &JsonValue) -> Value {
    match doc {
        JsonValue::Null => Value::Null,
        JsonValue::Bool(b) => Value::Bool(*b),
        JsonValue::Unsigned(n) => Value::from(*n),
        JsonValue::Signed(n) => Value::from(*n),
        JsonValue::Fraction(f) => Value::from(f32::from_bits(f.bits)),
        JsonValue::Text(s) => Value::String(s.clone()),
        JsonValue::Array(items) => Value::Array(items.iter().map(to_serde).collect()),
        JsonValue::Object(members) => {
            let mut map = serde_json::Map::new();
            for (key, value) in members {
                map.insert(key.clone(), to_serde(value));
            }
            Value::Object(map)
        }
    }
}

fn from_serde(value: &Value) -> JsonValue {
    match value {
        Value::Null => JsonValue::Null,
        Value::Bool(b) => JsonValue::Bool(*b),
        Value::Number(n) => {
            if let Some(u) = n.as_u64() {
                JsonValue::Unsigned(u)
            } else if let Some(i) = n.as_i64() {
                JsonValue::Signed(i)
            } else {
                JsonValue::Fraction(LossRate { bits: (n.as_f64().unwrap() as f32).to_bits() })
            }
        }
        Value::String(s) => JsonValue::Text(s.clone()),
        Value::Array(items) => JsonValue::Array(items.iter().map(from_serde).collect()),
        Value::Object(map) => {
            JsonValue::Object(map.iter().map(|(k, v)| (k.clone(), from_serde(v))).collect())
        }
    }
}

fn keys(doc: &JsonValue) -> Vec<&str> {
    match doc {
        JsonValue::Object(members) => members.iter().map(|m| m.0.as_str()).collect(),
        _ => panic!("not an object"),
    }
}

fn get<'a>(doc: &'a JsonValue, key: &str) -> &'a JsonValue {
    match doc {
        JsonValue::Object(members) => &members.iter().find(|m| m.0 == key).unwrap().1,
        _ => panic!("not an object"),
    }
}

fn url(s: &str) -> Url {
    Url { url: s.to_string() }
}

fn stun() -> StunInfo {
    StunInfo {
        udp_nat_type: 3,
        tcp_nat_type: 0,
        last_update_time: -1700000000123,
        public_ip: vec!["1.2.3.4".to_string(), "5.6.7.8".to_string()],
        min_port: 1024,
        max_port: 65535,
    }
}

fn full_route() -> Route {
    Route {
        peer_id: 4000000000,
        ipv4_addr: Some(Ipv4Inet {
            address: Some(Ipv4Addr { addr: 0x0A000002 }),
            network_length: 24,
        }),
        next_hop_peer_id: 7,
        cost: -3,
        path_latency: 5000,
        proxy_cidrs: vec!["192.168.0.0/16".to_string()],
        hostname: "B \"quoted\" \u{4e2d}".to_string(),
        stun_info: Some(stun()),
        inst_id: "inst".to_string(),
        version: "2.2.4".to_string(),
        feature_flag: Some(PeerFeatureFlag {
            is_public_server: true,
            avoid_relay_data: false,
            kcp_input: true,
            no_relay_kcp: false,
        }),
        next_hop_peer_id_latency_first: Some(9),
        cost_latency_first: Some(-1),
        path_latency_latency_first: Some(0),
    }
}

fn bare_route() -> Route {
    Route {
        peer_id: 0,
        ipv4_addr: None,
        next_hop_peer_id: 0,
        cost: 0,
        path_latency: i32::MIN,
        proxy_cidrs: vec![],
        hostname: String::new(),
        stun_info: None,
        inst_id: String::new(),
        version: String::new(),
        feature_flag: None,
        next_hop_peer_id_latency_first: None,
        cost_latency_first: None,
        path_latency_latency_first: None,
    }
}

fn full_conn() -> PeerConnInfo {
    PeerConnInfo {
        conn_id: "c1".to_string(),
        my_peer_id: 1,
        peer_id: 2,
        features: vec!["kcp".to_string()],
        tunnel: Some(TunnelInfo {
            tunnel_type: "udp".to_string(),
            local_addr: Some(url("udp://0.0.0.0:11010")),
            remote_addr: None,
        }),
        stats: Some(PeerConnStats {
            rx_bytes: u64::MAX,
            tx_bytes: 2,
            rx_packets: 3,
            tx_packets: 4,
            latency_us: 1500,
        }),
        loss_rate: LossRate { bits: 0.1f32.to_bits() },
        is_client: false,
        network_name: "net".to_string(),
    }
}

fn bare_conn() -> PeerConnInfo {
    PeerConnInfo {
        conn_id: String::new(),
        my_peer_id: 0,
        peer_id: 0,
        features: vec![],
        tunnel: None,
        stats: None,
        loss_rate: LossRate { bits: 0.0f32.to_bits() },
        is_client: true,
        network_name: String::new(),
    }
}

fn full_node() -> MyNodeInfo {
    MyNodeInfo {
        virtual_ipv4: Some(Ipv4Inet { address: None, network_length: 0 }),
        hostname: "A".to_string(),
        version: "2.2.4".to_string(),
        ips: Some(GetIpListResponse {
            public_ipv4: Some(Ipv4Addr { addr: 1 }),
            interface_ipv4s: vec![Ipv4Addr { addr: 2 }, Ipv4Addr { addr: u32::MAX }],
            public_ipv6: None,
            interface_ipv6s: vec![Ipv6Addr { part1: 1, part2: 2, part3: 3, part4: 4 }],
            listeners: vec![url("tcp://[::]:11010")],
        }),
        stun_info: Some(stun()),
        listeners: vec![url("tcp://0.0.0.0:11010"), url("udp://0.0.0.0:11010")],
        vpn_portal_cfg: Some("portal".to_string()),
    }
}

fn full_snapshot() -> Snapshot {
    let peer = PeerInfo { peer_id: 2, conns: vec![full_conn(), bare_conn()] };
    Snapshot {
        dev_name: "tun0".to_string(),
        my_node_info: Some(full_node()),
        events: vec!["up".to_string(), "peer added".to_string()],
        routes: vec![full_route(), bare_route()],
        peers: vec![peer.clone(), PeerInfo { peer_id: 3, conns: vec![] }],
        peer_route_pairs: vec![
            PeerRoutePair { route: Some(full_route()), peer: Some(peer) },
            PeerRoutePair { route: Some(bare_route()), peer: None },
            PeerRoutePair { route: None, peer: None },
        ],
        running: true,
        error_msg: Some("late".to_string()),
    }
}

fn bare_snapshot() -> Snapshot {
    Snapshot {
        dev_name: String::new(),
        my_node_info: None,
        events: vec![],
        routes: vec![],
        peers: vec![],
        peer_route_pairs: vec![],
        running: false,
        error_msg: None,
    }
}

#[test]
fn snapshot_document_has_the_eight_fields_in_order() {
    let doc = snapshot_document(&full_snapshot());
    assert_eq!(
        keys(&doc),
        [
            "dev_name",
            "my_node_info",
            "events",
            "routes",
            "peers",
            "peer_route_pairs",
            "running",
            "error_msg"
        ]
    );
    assert_eq!(get(&doc, "dev_name"), &JsonValue::Text("tun0".to_string()));
    assert_eq!(get(&doc, "running"), &JsonValue::Bool(true));
    assert_eq!(get(&doc, "error_msg"), &JsonValue::Text("late".to_string()));
    assert_eq!(
        get(&doc, "events"),
        &JsonValue::Array(vec![
            JsonValue::Text("up".to_string()),
            JsonValue::Text("peer added".to_string())
        ])
    );
}

#[test]
fn absent_optionals_are_explicit_nulls() {
    let doc = snapshot_document(&bare_snapshot());
    assert_eq!(keys(&doc).len(), 8);
    assert_eq!(get(&doc, "my_node_info"), &JsonValue::Null);
    assert_eq!(get(&doc, "error_msg"), &JsonValue::Null);
    assert_eq!(get(&doc, "routes"), &JsonValue::Array(vec![]));
    let route = route_json(&bare_route());
    assert_eq!(keys(&route).len(), 14);
    for key in [
        "ipv4_addr",
        "stun_info",
        "feature_flag",
        "next_hop_peer_id_latency_first",
        "cost_latency_first",
        "path_latency_latency_first",
    ] {
        assert_eq!(get(&route, key), &JsonValue::Null);
    }
    assert_eq!(get(&route, "peer_id"), &JsonValue::Unsigned(0));
    assert_eq!(get(&route, "path_latency"), &JsonValue::Signed(-2147483648));
    let conn = conn_json(&bare_conn());
    assert_eq!(keys(&conn).len(), 9);
    assert_eq!(get(&conn, "tunnel"), &JsonValue::Null);
    assert_eq!(get(&conn, "stats"), &JsonValue::Null);
    let pair = pair_json(&PeerRoutePair { route: None, peer: None });
    assert_eq!(keys(&pair), ["route", "peer"]);
    assert_eq!(get(&pair, "route"), &JsonValue::Null);
    assert_eq!(get(&pair, "peer"), &JsonValue::Null);
    let node = node_json(&MyNodeInfo {
        virtual_ipv4: None,
        ips: None,
        stun_info: None,
        vpn_portal_cfg: None,
        ..full_node()
    });
    assert_eq!(keys(&node).len(), 7);
    for key in ["virtual_ipv4", "ips", "stun_info", "vpn_portal_cfg"] {
        assert_eq!(get(&node, key), &JsonValue::Null);
    }
}

#[test]
fn route_document_keeps_units_and_values() {
    let doc = route_json(&full_route());
    assert_eq!(
        keys(&doc),
        [
            "peer_id",
            "ipv4_addr",
            "next_hop_peer_id",
            "cost",
            "path_latency",
            "proxy_cidrs",
            "hostname",
            "stun_info",
            "inst_id",
            "version",
            "feature_flag",
            "next_hop_peer_id_latency_first",
            "cost_latency_first",
            "path_latency_latency_first"
        ]
    );
    assert_eq!(get(&doc, "peer_id"), &JsonValue::Unsigned(4000000000));
    assert_eq!(get(&doc, "cost"), &JsonValue::Signed(-3));
    assert_eq!(get(&doc, "path_latency"), &JsonValue::Signed(5000));
    let inet = get(&doc, "ipv4_addr");
    assert_eq!(keys(inet), ["address", "network_length"]);
    assert_eq!(get(get(inet, "address"), "addr"), &JsonValue::Unsigned(0x0A000002));
    assert_eq!(get(inet, "network_length"), &JsonValue::Unsigned(24));
    let stun = get(&doc, "stun_info");
    assert_eq!(
        keys(stun),
        ["udp_nat_type", "tcp_nat_type", "last_update_time", "public_ip", "min_port", "max_port"]
    );
    assert_eq!(get(stun, "last_update_time"), &JsonValue::Signed(-1700000000123));
    let flag = get(&doc, "feature_flag");
    assert_eq!(keys(flag), ["is_public_server", "avoid_relay_data", "kcp_input", "no_relay_kcp"]);
    assert_eq!(get(flag, "kcp_input"), &JsonValue::Bool(true));
    assert_eq!(get(&doc, "cost_latency_first"), &JsonValue::Signed(-1));
}

#[test]
fn peer_document_lists_connections() {
    let doc = peer_json(&PeerInfo { peer_id: 2, conns: vec![full_conn(), bare_conn()] });
    assert_eq!(keys(&doc), ["peer_id", "conns"]);
    let conns = match get(&doc, "conns") {
        JsonValue::Array(items) => items,
        _ => panic!("not an array"),
    };
    assert_eq!(conns.len(), 2);
    assert_eq!(
        keys(&conns[0]),
        [
            "conn_id",
            "my_peer_id",
            "peer_id",
            "features",
            "tunnel",
            "stats",
            "loss_rate",
            "is_client",
            "network_name"
        ]
    );
    assert_eq!(
        get(&conns[0], "loss_rate"),
        &JsonValue::Fraction(LossRate { bits: 0.1f32.to_bits() })
    );
    let stats = get(&conns[0], "stats");
    assert_eq!(keys(stats), ["rx_bytes", "tx_bytes", "rx_packets", "tx_packets", "latency_us"]);
    assert_eq!(get(stats, "rx_bytes"), &JsonValue::Unsigned(u64::MAX));
    assert_eq!(get(stats, "latency_us"), &JsonValue::Unsigned(1500));
    let tunnel = get(&conns[0], "tunnel");
    assert_eq!(keys(tunnel), ["tunnel_type", "local_addr", "remote_addr"]);
    assert_eq!(
        get(get(tunnel, "local_addr"), "url"),
        &JsonValue::Text("udp://0.0.0.0:11010".to_string())
    );
    assert_eq!(get(tunnel, "remote_addr"), &JsonValue::Null);
}

#[test]
fn document_reads_back_as_the_snapshot() {
    for s in [full_snapshot(), bare_snapshot()] {
        assert_eq!(parse_snapshot(&snapshot_document(&s)), Some(s));
    }
}

#[test]
fn document_survives_text_and_back() {
    for s in [full_snapshot(), bare_snapshot()] {
        let text = serde_json::to_string(&to_serde(&snapshot_document(&s))).unwrap();
        let parsed: Value = serde_json::from_str(&text).unwrap();
        assert_eq!(parse_snapshot(&from_serde(&parsed)), Some(s));
    }
}

#[test]
fn document_text_holds_every_key_and_null() {
    let text = serde_json::to_string(&to_serde(&snapshot_document(&bare_snapshot()))).unwrap();
    let parsed: Value = serde_json::from_str(&text).unwrap();
    let top = parsed.as_object().unwrap();
    assert_eq!(top.len(), 8);
    assert_eq!(top["my_node_info"], Value::Null);
    assert_eq!(top["error_msg"], Value::Null);
    assert_eq!(top["dev_name"], Value::String(String::new()));
    assert_eq!(top["running"], Value::Bool(false));
    assert_eq!(top["events"], Value::Array(vec![]));
    assert!(text.contains("\"my_node_info\":null"));
    assert!(text.contains("\"error_msg\":null"));
    let conn = to_serde(&conn_json(&full_conn()));
    assert_eq!(conn["loss_rate"], Value::Number(Number::from_f64(0.1f32 as f64).unwrap()));
    assert_eq!(conn["stats"]["rx_bytes"], Value::from(u64::MAX));
}

#[test]
fn empty_document_is_an_object_without_members() {
    assert_eq!(empty_document(), JsonValue::Object(vec![]));
    assert_eq!(serde_json::to_string(&to_serde(&empty_document())).unwrap(), "{}");
    assert_eq!(parse_snapshot(&empty_document()), None);
}

#[test]
fn reading_fails_on_missing_or_mistyped_fields() {
    let doc = snapshot_document(&full_snapshot());
    let members = match &doc {
        JsonValue::Object(m) => m.clone(),
        _ => panic!("not an object"),
    };
    for skip in 0..members.len() {
        let mut fewer = members.clone();
        fewer.remove(skip);
        assert_eq!(parse_snapshot(&JsonValue::Object(fewer)), None);
    }
    let mut wrong = members.clone();
    wrong[6].1 = JsonValue::Unsigned(1);
    assert_eq!(parse_snapshot(&JsonValue::Object(wrong)), None);
    let mut wrong = members.clone();
    wrong[0].1 = JsonValue::Null;
    assert_eq!(parse_snapshot(&JsonValue::Object(wrong)), None);
    let mut wrong = members.clone();
    wrong[3].1 = JsonValue::Array(vec![JsonValue::Null]);
    assert_eq!(parse_snapshot(&JsonValue::Object(wrong)), None);
    assert_eq!(parse_snapshot(&JsonValue::Null), None);
    assert_eq!(parse_snapshot(&JsonValue::Array(vec![])), None);
}

#[test]
fn reading_takes_the_later_of_two_members_and_any_order() {
    let s = full_snapshot();
    let mut members = match snapshot_document(&s) {
        JsonValue::Object(m) => m,
        _ => panic!("not an object"),
    };
    members.reverse();
    assert_eq!(parse_snapshot(&JsonValue::Object(members.clone())), Some(s.clone()));
    members.push(("dev_name".to_string(), JsonValue::Text("tun9".to_string())));
    members.push(("unrelated".to_string(), JsonValue::Null));
    let read = parse_snapshot(&JsonValue::Object(members)).unwrap();
    assert_eq!(read.dev_name, "tun9");
    assert_eq!(read.routes, s.routes);
}

#[test]
fn reading_checks_the_range_of_numbers() {
    let s = bare_snapshot();
    let with_route = |peer_id: JsonValue, cost: JsonValue| {
        let mut route = match route_json(&bare_route()) {
            JsonValue::Object(m) => m,
            _ => panic!("not an object"),
        };
        route[0].1 = peer_id;
        route[3].1 = cost;
        let mut members = match snapshot_document(&s) {
            JsonValue::Object(m) => m,
            _ => panic!("not an object"),
        };
        members[3].1 = JsonValue::Array(vec![JsonValue::Object(route)]);
        parse_snapshot(&JsonValue::Object(members))
    };
    let read = with_route(JsonValue::Signed(7), JsonValue::Unsigned(9)).unwrap();
    assert_eq!(read.routes[0].peer_id, 7);
    assert_eq!(read.routes[0].cost, 9);
    let read = with_route(JsonValue::Unsigned(4294967295), JsonValue::Signed(-2147483648)).unwrap();
    assert_eq!(read.routes[0].peer_id, u32::MAX);
    assert_eq!(read.routes[0].cost, i32::MIN);
    assert_eq!(with_route(JsonValue::Unsigned(4294967296), JsonValue::Signed(0)), None);
    assert_eq!(with_route(JsonValue::Signed(-1), JsonValue::Signed(0)), None);
    assert_eq!(with_route(JsonValue::Unsigned(0), JsonValue::Unsigned(2147483648)), None);
    assert_eq!(with_route(JsonValue::Unsigned(0), JsonValue::Signed(-2147483649)), None);
    assert_eq!(with_route(JsonValue::Text("7".to_string()), JsonValue::Signed(0)), None);
}
