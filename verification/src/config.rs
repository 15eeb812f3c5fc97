//! What a mesh instance is started with: the flags a caller may set and the
//! configuration derived from a start request.

use vstd::prelude::*;
use vstd::string::StringExecFns;

verus! {

/// The flags of an instance that a caller sets.
#[derive(Debug, PartialEq, Eq)]
pub struct FlagsC {
    pub default_protocol: String,
    pub dev_name: String,
    pub enable_encryption: bool,
    pub enable_ipv6: bool,
    pub mtu: u32,
    pub latency_first: bool,
    pub enable_exit_node: bool,
    pub no_tun: bool,
    pub use_smoltcp: bool,
    pub relay_network_whitelist: String,
    pub disable_p2p: bool,
    pub relay_all_peer_rpc: bool,
    pub disable_udp_hole_punching: bool,
    pub multi_thread: bool,
    pub data_compress_algo: i32,
    pub bind_device: bool,
    pub enable_kcp_proxy: bool,
    pub disable_kcp_input: bool,
    pub disable_relay_kcp: bool,
    pub proxy_forward_by_system: bool,
}

/// The view of a `FlagsC`: its strings and vectors as sequences.
pub struct FlagsCView {
    pub default_protocol: Seq<char>,
    pub dev_name: Seq<char>,
    pub enable_encryption: bool,
    pub enable_ipv6: bool,
    pub mtu: u32,
    pub latency_first: bool,
    pub enable_exit_node: bool,
    pub no_tun: bool,
    pub use_smoltcp: bool,
    pub relay_network_whitelist: Seq<char>,
    pub disable_p2p: bool,
    pub relay_all_peer_rpc: bool,
    pub disable_udp_hole_punching: bool,
    pub multi_thread: bool,
    pub data_compress_algo: i32,
    pub bind_device: bool,
    pub enable_kcp_proxy: bool,
    pub disable_kcp_input: bool,
    pub disable_relay_kcp: bool,
    pub proxy_forward_by_system: bool,
}

impl DeepView for FlagsC {
    type V = FlagsCView;

    open spec fn deep_view(&self) -> FlagsCView {
        FlagsCView {
            default_protocol: self.default_protocol@,
            dev_name: self.dev_name@,
            enable_encryption: self.enable_encryption,
            enable_ipv6: self.enable_ipv6,
            mtu: self.mtu,
            latency_first: self.latency_first,
            enable_exit_node: self.enable_exit_node,
            no_tun: self.no_tun,
            use_smoltcp: self.use_smoltcp,
            relay_network_whitelist: self.relay_network_whitelist@,
            disable_p2p: self.disable_p2p,
            relay_all_peer_rpc: self.relay_all_peer_rpc,
            disable_udp_hole_punching: self.disable_udp_hole_punching,
            multi_thread: self.multi_thread,
            data_compress_algo: self.data_compress_algo,
            bind_device: self.bind_device,
            enable_kcp_proxy: self.enable_kcp_proxy,
            disable_kcp_input: self.disable_kcp_input,
            disable_relay_kcp: self.disable_relay_kcp,
            proxy_forward_by_system: self.proxy_forward_by_system,
        }
    }
}

impl Clone for FlagsC {
    fn clone(&self) -> (r: Self)
        ensures
            r.deep_view() == self.deep_view(),
    {
        FlagsC {
            default_protocol: self.default_protocol.clone(),
            dev_name: self.dev_name.clone(),
            enable_encryption: self.enable_encryption,
            enable_ipv6: self.enable_ipv6,
            mtu: self.mtu,
            latency_first: self.latency_first,
            enable_exit_node: self.enable_exit_node,
            no_tun: self.no_tun,
            use_smoltcp: self.use_smoltcp,
            relay_network_whitelist: self.relay_network_whitelist.clone(),
            disable_p2p: self.disable_p2p,
            relay_all_peer_rpc: self.relay_all_peer_rpc,
            disable_udp_hole_punching: self.disable_udp_hole_punching,
            multi_thread: self.multi_thread,
            data_compress_algo: self.data_compress_algo,
            bind_device: self.bind_device,
            enable_kcp_proxy: self.enable_kcp_proxy,
            disable_kcp_input: self.disable_kcp_input,
            disable_relay_kcp: self.disable_relay_kcp,
            proxy_forward_by_system: self.proxy_forward_by_system,
        }
    }
}

/// The configuration of an instance to be started.
#[derive(Debug, PartialEq, Eq)]
pub struct ServerConfig {
    pub listeners: Vec<String>,
    pub hostname: Option<String>,
    pub dhcp: bool,
    pub ipv4: Option<String>,
    pub flags: Option<FlagsC>,
    pub peers: Vec<String>,
    pub network_name: String,
    pub network_secret: String,
}

/// The view of a `ServerConfig`: its strings and vectors as sequences.
pub struct ServerConfigView {
    pub listeners: Seq<Seq<char>>,
    pub hostname: Option<Seq<char>>,
    pub dhcp: bool,
    pub ipv4: Option<Seq<char>>,
    pub flags: Option<FlagsCView>,
    pub peers: Seq<Seq<char>>,
    pub network_name: Seq<char>,
    pub network_secret: Seq<char>,
}

impl DeepView for ServerConfig {
    type V = ServerConfigView;

    open spec fn deep_view(&self) -> ServerConfigView {
        ServerConfigView {
            listeners: self.listeners.deep_view(),
            hostname: self.hostname.deep_view(),
            dhcp: self.dhcp,
            ipv4: self.ipv4.deep_view(),
            flags: self.flags.deep_view(),
            peers: self.peers.deep_view(),
            network_name: self.network_name@,
            network_secret: self.network_secret@,
        }
    }
}

impl Clone for ServerConfig {
    fn clone(&self) -> (r: Self)
        ensures
            r.deep_view() == self.deep_view(),
    {
        ServerConfig {
            listeners: self.listeners.clone(),
            hostname: self.hostname.clone(),
            dhcp: self.dhcp,
            ipv4: self.ipv4.clone(),
            flags: self.flags.clone(),
            peers: self.peers.clone(),
            network_name: self.network_name.clone(),
            network_secret: self.network_secret.clone(),
        }
    }
}

/// The endpoints every instance listens on: TCP and UDP on all IPv4
/// addresses and TCP on all IPv6 addresses, port 11010.
pub open spec fn default_listeners() -> Seq<Seq<char>> {
    Seq::empty().push("tcp://0.0.0.0:11010"@).push("udp://0.0.0.0:11010"@).push(
        "tcp://[::]:11010"@,
    )
}

/// The configuration before a start request is applied to it: the default
/// listeners and nothing else.
pub open spec fn base_config() -> ServerConfigView {
    ServerConfigView {
        listeners: default_listeners(),
        hostname: None,
        dhcp: false,
        ipv4: None,
        flags: None,
        peers: Seq::empty(),
        network_name: Seq::empty(),
        network_secret: Seq::empty(),
    }
}

/// The address an instance without DHCP is given: the requested address
/// with a prefix length of 24.
pub open spec fn static_address(specified_ip: Seq<char>) -> Seq<char> {
    specified_ip + "/24"@
}

/// The configuration a start request asks for: the base configuration with
/// the host named after the user, the given flags, one peer per server URL,
/// the room as network identity, and a static address unless DHCP is on.
pub open spec fn requested_config(
    username: Seq<char>,
    enable_dhcp: bool,
    specified_ip: Seq<char>,
    room_name: Seq<char>,
    room_password: Seq<char>,
    severurl: Seq<Seq<char>>,
    flag: FlagsCView,
) -> ServerConfigView {
    ServerConfigView {
        listeners: default_listeners(),
        hostname: Some(username),
        dhcp: enable_dhcp,
        ipv4: if enable_dhcp {
            None
        } else {
            Some(static_address(specified_ip))
        },
        flags: Some(flag),
        peers: severurl,
        network_name: room_name,
        network_secret: room_password,
    }
}

/// The base configuration.
pub fn create_config() -> (cfg: ServerConfig)
    ensures
        cfg.deep_view() == base_config(),
{
    let mut listeners: Vec<String> = Vec::new();
    listeners.push("tcp://0.0.0.0:11010".to_string());
    listeners.push("udp://0.0.0.0:11010".to_string());
    listeners.push("tcp://[::]:11010".to_string());
    assert(listeners.deep_view() =~= default_listeners());
    let peers: Vec<String> = Vec::new();
    assert(peers.deep_view() =~= Seq::<Seq<char>>::empty());
    ServerConfig {
        listeners,
        hostname: None,
        dhcp: false,
        ipv4: None,
        flags: None,
        peers,
        network_name: String::new(),
        network_secret: String::new(),
    }
}

/// The configuration of the instance that a start request asks for.
pub fn create_server(
    username: String,
    enable_dhcp: bool,
    specified_ip: String,
    room_name: String,
    room_password: String,
    severurl: Vec<String>,
    flag: FlagsC,
) -> (cfg: ServerConfig)
    ensures
        cfg.deep_view() == requested_config(
            username@,
            enable_dhcp,
            specified_ip@,
            room_name@,
            room_password@,
            severurl.deep_view(),
            flag.deep_view(),
        ),
{
    let base = create_config();
    let ipv4 = if enable_dhcp {
        None
    } else {
        let mut address = specified_ip;
        address.append("/24");
        Some(address)
    };
    ServerConfig {
        listeners: base.listeners,
        hostname: Some(username),
        dhcp: enable_dhcp,
        ipv4,
        flags: Some(flag),
        peers: severurl,
        network_name: room_name,
        network_secret: room_password,
    }
}

} // verus!
