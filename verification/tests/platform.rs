use mesh_topology::config::{create_config, create_server, FlagsC, ServerConfig};
use mesh_topology::instance::Instance;
use mesh_topology::model::Snapshot;
use mesh_topology::platform::{
    firewall_profile, get_network_interface_hops, interface_hops_outcome,
    set_network_interface_hops, Adapter, FirewallProfile, HopPlan, MetricCommand,
    NetworkInterfaceHop,
};
use mesh_topology::registry::Registry;

fn flags() -> FlagsC {
    FlagsC {
        default_protocol: "tcp".to_string(),
        dev_name: "astral".to_string(),
        enable_encryption: true,
        enable_ipv6: false,
        mtu: 1380,
        latency_first: true,
        enable_exit_node: false,
        no_tun: false,
        use_smoltcp: false,
        relay_network_whitelist: "*".to_string(),
        disable_p2p: false,
        relay_all_peer_rpc: false,
        disable_udp_hole_punching: false,
        multi_thread: true,
        data_compress_algo: 1,
        bind_device: true,
        enable_kcp_proxy: false,
        disable_kcp_input: false,
        disable_relay_kcp: true,
        proxy_forward_by_system: false,
    }
}

fn listeners() -> Vec<String> {
    vec![
        "tcp://0.0.0.0:11010".to_string(),
        "udp://0.0.0.0:11010".to_string(),
        "tcp://[::]:11010".to_string(),
    ]
}

fn with_device(dev: &str) -> Instance {
    Instance {
        running: true,
        tun_fd: None,
        info: Some(Snapshot {
            dev_name: dev.to_string(),
            my_node_info: None,
            events: vec![],
            routes: vec![],
            peers: vec![],
            peer_route_pairs: vec![],
            running: true,
            error_msg: None,
        }),
    }
}

fn command(dev: &str, metric: &str) -> MetricCommand {
    MetricCommand {
        program: "netsh".to_string(),
        args: ["interface", "ipv4", "set", "interface", dev, metric]
            .iter()
            .map(|s| s.to_string())
            .collect(),
    }
}

#[test]
fn base_config_has_the_three_listeners() {
    assert_eq!(
        create_config(),
        ServerConfig {
            listeners: listeners(),
            hostname: None,
            dhcp: false,
            ipv4: None,
            flags: None,
            peers: vec![],
            network_name: String::new(),
            network_secret: String::new(),
        }
    );
}

#[test]
fn server_with_static_address_gets_prefix_24() {
    let cfg = create_server(
        "alice".to_string(),
        false,
        "10.126.126.5".to_string(),
        "room".to_string(),
        "secret".to_string(),
        vec!["tcp://public.example:11010".to_string(), "udp://other:1".to_string()],
        flags(),
    );
    assert_eq!(
        cfg,
        ServerConfig {
            listeners: listeners(),
            hostname: Some("alice".to_string()),
            dhcp: false,
            ipv4: Some("10.126.126.5/24".to_string()),
            flags: Some(flags()),
            peers: vec!["tcp://public.example:11010".to_string(), "udp://other:1".to_string()],
            network_name: "room".to_string(),
            network_secret: "secret".to_string(),
        }
    );
}

#[test]
fn server_with_dhcp_gets_no_address() {
    let cfg = create_server(
        String::new(),
        true,
        "10.126.126.5".to_string(),
        String::new(),
        String::new(),
        vec![],
        flags(),
    );
    assert_eq!(cfg.ipv4, None);
    assert!(cfg.dhcp);
    assert_eq!(cfg.hostname, Some(String::new()));
    assert!(cfg.peers.is_empty());
    assert_eq!(cfg.listeners, listeners());
}

#[test]
fn firewall_profiles_are_one_two_three() {
    assert_eq!(firewall_profile(1), Ok(FirewallProfile::Domain));
    assert_eq!(firewall_profile(2), Ok(FirewallProfile::Private));
    assert_eq!(firewall_profile(3), Ok(FirewallProfile::Public));
}

#[test]
fn other_firewall_profile_indices_are_invalid() {
    for index in [0, 4, 5, u32::MAX] {
        assert_eq!(firewall_profile(index), Err("Invalid profile index".to_string()));
    }
}

#[test]
fn adapters_without_name_are_unknown() {
    let adapters = vec![
        Adapter { friendly_name: Some("Ethernet".to_string()), ipv4_metric: 25 },
        Adapter { friendly_name: None, ipv4_metric: 0 },
        Adapter { friendly_name: Some(String::new()), ipv4_metric: u32::MAX },
    ];
    let listed = get_network_interface_hops(&adapters);
    assert_eq!(
        listed.hops,
        vec![
            NetworkInterfaceHop { interface_name: "Ethernet".to_string(), hop_count: 25 },
            NetworkInterfaceHop { interface_name: "Unknown".to_string(), hop_count: 0 },
            NetworkInterfaceHop { interface_name: String::new(), hop_count: u32::MAX },
        ]
    );
    assert!(get_network_interface_hops(&vec![]).hops.is_empty());
}

#[test]
fn hop_plan_of_an_empty_registry_is_incomplete() {
    let plan = set_network_interface_hops(&Registry::new(), 1);
    assert!(!plan.complete);
    assert!(plan.commands.is_empty());
}

#[test]
fn hop_plan_has_one_command_per_device() {
    let mut reg = Registry::new();
    reg.register("a".to_string(), with_device("tun0"));
    let plan = set_network_interface_hops(&reg, 5);
    assert!(plan.complete);
    assert_eq!(plan.commands, vec![command("tun0", "metric=5")]);
    reg.register("b".to_string(), with_device("tun1"));
    let plan = set_network_interface_hops(&reg, -7);
    assert!(plan.complete);
    let mut commands = plan.commands;
    commands.sort_by(|x, y| x.args[4].cmp(&y.args[4]));
    assert_eq!(commands, vec![command("tun0", "metric=-7"), command("tun1", "metric=-7")]);
}

#[test]
fn hop_plan_skips_instances_without_device() {
    let mut reg = Registry::new();
    reg.register("a".to_string(), with_device("tun0"));
    reg.register("b".to_string(), with_device(""));
    reg.register("c".to_string(), Instance { running: false, tun_fd: None, info: None });
    let plan = set_network_interface_hops(&reg, i32::MIN);
    assert!(!plan.complete);
    assert_eq!(plan.commands, vec![command("tun0", "metric=-2147483648")]);
    let mut only_bad = Registry::new();
    only_bad.register("c".to_string(), Instance { running: false, tun_fd: None, info: None });
    let plan = set_network_interface_hops(&only_bad, 1);
    assert!(!plan.complete);
    assert!(plan.commands.is_empty());
}

#[test]
fn hops_outcome_without_the_facility_is_success() {
    let empty = HopPlan { commands: vec![], complete: false };
    assert!(interface_hops_outcome(false, &empty, &vec![]));
    let plan = HopPlan { commands: vec![command("tun0", "metric=1")], complete: true };
    assert!(interface_hops_outcome(false, &plan, &vec![false]));
    assert!(interface_hops_outcome(false, &plan, &vec![]));
}

#[test]
fn hops_outcome_needs_a_complete_plan_and_every_command() {
    let two = HopPlan {
        commands: vec![command("tun0", "metric=1"), command("tun1", "metric=1")],
        complete: true,
    };
    assert!(interface_hops_outcome(true, &two, &vec![true, true]));
    assert!(!interface_hops_outcome(true, &two, &vec![true, false]));
    assert!(!interface_hops_outcome(true, &two, &vec![false, true]));
    assert!(!interface_hops_outcome(true, &two, &vec![true]));
    assert!(!interface_hops_outcome(true, &two, &vec![true, true, true]));
    let partial = HopPlan { commands: vec![command("tun0", "metric=1")], complete: false };
    assert!(!interface_hops_outcome(true, &partial, &vec![true]));
    let empty = HopPlan { commands: vec![], complete: false };
    assert!(!interface_hops_outcome(true, &empty, &vec![]));
    let mut reg = Registry::new();
    reg.register("a".to_string(), with_device("tun0"));
    let plan = set_network_interface_hops(&reg, 3);
    assert!(interface_hops_outcome(true, &plan, &vec![true]));
    assert!(!interface_hops_outcome(true, &plan, &vec![false]));
}
