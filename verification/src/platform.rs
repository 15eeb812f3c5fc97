//! The decisions behind the platform facilities: which firewall profile an
//! index names, how network adapters are listed, which commands set the
//! interface metric of the instances' devices, and what their outcome
//! amounts to. Carrying them out is left to the caller.

use vstd::prelude::*;
use vstd::string::StringExecFns;
use crate::instance::InstanceView;
use crate::registry::Registry;
use crate::text::{push_signed_decimal, signed_decimal};

verus! {

/// A firewall profile.
#[derive(Clone, Copy, Debug, PartialEq, Eq, Structural)]
pub enum FirewallProfile {
    Domain,
    Private,
    Public,
}

/// The profile an index names: 1 the domain profile, 2 the private one, 3 the
/// public one.
pub open spec fn profile_of(index: u32) -> Option<FirewallProfile> {
    if index == 1 {
        Some(FirewallProfile::Domain)
    } else if index == 2 {
        Some(FirewallProfile::Private)
    } else if index == 3 {
        Some(FirewallProfile::Public)
    } else {
        None
    }
}

/// The failure reported for an index that names no profile.
pub open spec fn invalid_profile_message() -> Seq<char> {
    "Invalid profile index"@
}

/// Reads a firewall profile index.
pub fn firewall_profile(profile_index: u32) -> (r: Result<FirewallProfile, String>)
    ensures
        match r {
            Ok(profile) => profile_of(profile_index) == Some(profile),
            Err(e) => profile_of(profile_index) is None && e@ == invalid_profile_message(),
        },
{
    if profile_index == 1 {
        Ok(FirewallProfile::Domain)
    } else if profile_index == 2 {
        Ok(FirewallProfile::Private)
    } else if profile_index == 3 {
        Ok(FirewallProfile::Public)
    } else {
        Err("Invalid profile index".to_string())
    }
}

/// A network adapter as the operating system reports it.
#[derive(Debug, PartialEq, Eq)]
pub struct Adapter {
    pub friendly_name: Option<String>,
    pub ipv4_metric: u32,
}

/// The view of a `Adapter`: its strings and vectors as sequences.
pub struct AdapterView {
    pub friendly_name: Option<Seq<char>>,
    pub ipv4_metric: u32,
}

impl DeepView for Adapter {
    type V = AdapterView;

    open spec fn deep_view(&self) -> AdapterView {
        AdapterView {
            friendly_name: self.friendly_name.deep_view(),
            ipv4_metric: self.ipv4_metric,
        }
    }
}

impl Clone for Adapter {
    fn clone(&self) -> (r: Self)
        ensures
            r.deep_view() == self.deep_view(),
    {
        Adapter {
            friendly_name: self.friendly_name.clone(),
            ipv4_metric: self.ipv4_metric,
        }
    }
}

/// The interface metric of one network interface.
#[derive(Debug, PartialEq, Eq)]
pub struct NetworkInterfaceHop {
    pub interface_name: String,
    pub hop_count: u32,
}

/// The view of a `NetworkInterfaceHop`: its strings and vectors as sequences.
pub struct NetworkInterfaceHopView {
    pub interface_name: Seq<char>,
    pub hop_count: u32,
}

impl DeepView for NetworkInterfaceHop {
    type V = NetworkInterfaceHopView;

    open spec fn deep_view(&self) -> NetworkInterfaceHopView {
        NetworkInterfaceHopView {
            interface_name: self.interface_name@,
            hop_count: self.hop_count,
        }
    }
}

impl Clone for NetworkInterfaceHop {
    fn clone(&self) -> (r: Self)
        ensures
            r.deep_view() == self.deep_view(),
    {
        NetworkInterfaceHop {
            interface_name: self.interface_name.clone(),
            hop_count: self.hop_count,
        }
    }
}

/// The interface metrics of all network interfaces.
#[derive(Debug, PartialEq, Eq)]
pub struct NetworkInterfaceHops {
    pub hops: Vec<NetworkInterfaceHop>,
}

/// The view of a `NetworkInterfaceHops`: its strings and vectors as sequences.
pub struct NetworkInterfaceHopsView {
    pub hops: Seq<NetworkInterfaceHopView>,
}

impl DeepView for NetworkInterfaceHops {
    type V = NetworkInterfaceHopsView;

    open spec fn deep_view(&self) -> NetworkInterfaceHopsView {
        NetworkInterfaceHopsView { hops: self.hops.deep_view() }
    }
}

impl Clone for NetworkInterfaceHops {
    fn clone(&self) -> (r: Self)
        ensures
            r.deep_view() == self.deep_view(),
    {
        NetworkInterfaceHops { hops: self.hops.clone() }
    }
}

/// The entry of an adapter: its name, `Unknown` where it has none, and its
/// IPv4 metric.
pub open spec fn hop_entry(adapter: AdapterView) -> NetworkInterfaceHopView {
    NetworkInterfaceHopView {
        interface_name: match adapter.friendly_name {
            Some(name) => name,
            None => "Unknown"@,
        },
        hop_count: adapter.ipv4_metric,
    }
}

/// Lists the interface metrics of the given adapters, in their order.
pub fn get_network_interface_hops(adapters: &Vec<Adapter>) -> (r: NetworkInterfaceHops)
    ensures
        r.hops.deep_view() == Seq::new(
            adapters.deep_view().len(),
            |i: int| hop_entry(adapters.deep_view()[i]),
        ),
{
    let ghost want = Seq::new(
        adapters.deep_view().len(),
        |i: int| hop_entry(adapters.deep_view()[i]),
    );
    let mut hops: Vec<NetworkInterfaceHop> = Vec::new();
    let mut i: usize = 0;
    while i < adapters.len()
        invariant
            i <= adapters.len(),
            want == Seq::new(
                adapters.deep_view().len(),
                |i: int| hop_entry(adapters.deep_view()[i]),
            ),
            hops.deep_view() == want.take(i as int),
        decreases adapters.len() - i,
    {
        let interface_name = match &adapters[i].friendly_name {
            Some(name) => name.clone(),
            None => "Unknown".to_string(),
        };
        let ghost before = hops.deep_view();
        let hop = NetworkInterfaceHop { interface_name, hop_count: adapters[i].ipv4_metric };
        hops.push(hop);
        assert(hops.deep_view() =~= before.push(hop_entry(adapters.deep_view()[i as int])));
        i += 1;
    }
    NetworkInterfaceHops { hops }
}

/// A command to run: a program and its arguments.
#[derive(Debug, PartialEq, Eq)]
pub struct MetricCommand {
    pub program: String,
    pub args: Vec<String>,
}

/// The view of a `MetricCommand`: its strings and vectors as sequences.
pub struct MetricCommandView {
    pub program: Seq<char>,
    pub args: Seq<Seq<char>>,
}

impl DeepView for MetricCommand {
    type V = MetricCommandView;

    open spec fn deep_view(&self) -> MetricCommandView {
        MetricCommandView { program: self.program@, args: self.args.deep_view() }
    }
}

impl Clone for MetricCommand {
    fn clone(&self) -> (r: Self)
        ensures
            r.deep_view() == self.deep_view(),
    {
        MetricCommand {
            program: self.program.clone(),
            args: self.args.clone(),
        }
    }
}

/// What is to be done to set the interface metric of every instance's
/// device: the commands to run, and whether every instance could be given one.
#[derive(Debug, PartialEq, Eq)]
pub struct HopPlan {
    pub commands: Vec<MetricCommand>,
    pub complete: bool,
}

/// The view of a `HopPlan`: its strings and vectors as sequences.
pub struct HopPlanView {
    pub commands: Seq<MetricCommandView>,
    pub complete: bool,
}

impl DeepView for HopPlan {
    type V = HopPlanView;

    open spec fn deep_view(&self) -> HopPlanView {
        HopPlanView { commands: self.commands.deep_view(), complete: self.complete }
    }
}

impl Clone for HopPlan {
    fn clone(&self) -> (r: Self)
        ensures
            r.deep_view() == self.deep_view(),
    {
        HopPlan { commands: self.commands.clone(), complete: self.complete }
    }
}

/// The command that sets the IPv4 interface metric of device `dev_name` to
/// `hop`.
pub open spec fn metric_command(dev_name: Seq<char>, hop: i32) -> MetricCommandView {
    MetricCommandView {
        program: "netsh"@,
        args: Seq::empty().push("interface"@).push("ipv4"@).push("set"@).push("interface"@).push(
            dev_name,
        ).push("metric="@ + signed_decimal(hop as int)),
    }
}

/// Whether an instance has a device whose metric can be set: it has a
/// snapshot, and the snapshot names a device.
pub open spec fn has_device(instance: InstanceView) -> bool {
    instance.info matches Some(snapshot) && snapshot.dev_name.len() > 0
}

/// Whether `commands` are the metric commands of the instances registered
/// under `targets`, in that order.
pub open spec fn commands_for(
    commands: Seq<MetricCommandView>,
    targets: Seq<Seq<char>>,
    m: Map<Seq<char>, InstanceView>,
    hop: i32,
) -> bool {
    &&& commands.len() == targets.len()
    &&& forall|k: int|
        0 <= k < targets.len() ==> #[trigger] commands[k] == metric_command(
            m[targets[k]].info->0.dev_name,
            hop,
        )
}

/// Whether `targets` lists, each once, exactly the registered instances that
/// have a device.
pub open spec fn lists_devices(targets: Seq<Seq<char>>, m: Map<Seq<char>, InstanceView>) -> bool {
    &&& targets.no_duplicates()
    &&& forall|name: Seq<char>|
        targets.contains(name) <==> m.contains_key(name) && has_device(#[trigger] m[name])
}

/// Whether every registered instance has a device, and there is at least one
/// instance.
pub open spec fn all_have_devices(m: Map<Seq<char>, InstanceView>) -> bool {
    &&& exists|name: Seq<char>| m.contains_key(name)
    &&& forall|name: Seq<char>| m.contains_key(name) ==> has_device(#[trigger] m[name])
}

fn build_metric_command(dev_name: &String, hop: i32) -> (command: MetricCommand)
    ensures
        command.deep_view() == metric_command(dev_name@, hop),
{
    let mut metric = "metric=".to_string();
    push_signed_decimal(&mut metric, hop);
    let mut args: Vec<String> = Vec::new();
    args.push("interface".to_string());
    args.push("ipv4".to_string());
    args.push("set".to_string());
    args.push("interface".to_string());
    args.push(dev_name.clone());
    args.push(metric);
    assert(args.deep_view() =~= metric_command(dev_name@, hop).args);
    MetricCommand { program: "netsh".to_string(), args }
}

/// Plans the setting of the interface metric `hop` on the device of every
/// registered instance.
///
/// There is one command for each instance that has a device, in the order in
/// which the registry yields the instances. The plan is complete where every
/// instance has a device and the registry is not empty.
pub fn set_network_interface_hops(registry: &Registry, hop: i32) -> (plan: HopPlan)
    ensures
        plan.complete <==> all_have_devices(registry@),
        exists|targets: Seq<Seq<char>>|
            lists_devices(targets, registry@) && #[trigger] commands_for(
                plan.commands.deep_view(),
                targets,
                registry@,
                hop,
            ),
{
    let names = registry.names();
    let ghost m = registry@;
    let ghost all = names.deep_view();
    let ghost mut targets: Seq<Seq<char>> = Seq::empty();
    let mut commands: Vec<MetricCommand> = Vec::new();
    let mut complete = true;
    let mut i: usize = 0;
    while i < names.len()
        invariant
            i <= names.len(),
            m == registry@,
            all == names.deep_view(),
            all.no_duplicates(),
            all.to_set() == m.dom(),
            targets.no_duplicates(),
            forall|name: Seq<char>|
                targets.contains(name) <==> exists|j: int|
                    0 <= j < i && #[trigger] all[j] == name && has_device(m[name]),
            commands_for(commands.deep_view(), targets, m, hop),
            complete <==> forall|j: int| 0 <= j < i ==> has_device(m[#[trigger] all[j]]),
        decreases names.len() - i,
    {
        let ghost name = all[i as int];
        assert(name == names[i as int]@);
        assert(all.to_set().contains(name));
        let ghost before = targets;
        let ghost listed = commands.deep_view();
        let mut usable = false;
        match registry.get(names[i].as_str()) {
            Some(instance) => match &instance.info {
                Some(snapshot) => {
                    if !snapshot.dev_name.as_str().is_empty() {
                        usable = true;
                        commands.push(build_metric_command(&snapshot.dev_name, hop));
                        proof {
                            targets = targets.push(name);
                            assert(commands.deep_view() =~= listed.push(
                                metric_command(m[name].info->0.dev_name, hop),
                            ));
                            let ghost now = commands.deep_view();
                            assert forall|k: int| 0 <= k < targets.len() implies #[trigger] now[k]
                                == metric_command(m[targets[k]].info->0.dev_name, hop) by {
                                if k < before.len() {
                                    assert(now[k] == listed[k]);
                                    assert(targets[k] == before[k]);
                                }
                            }
                            assert(!before.contains(name)) by {
                                if before.contains(name) {
                                    let j = choose|j: int|
                                        0 <= j < i && #[trigger] all[j] == name && has_device(
                                            m[name],
                                        );
                                    assert(all[j] == all[i as int]);
                                }
                            }
                        }
                    }
                },
                None => {},
            },
            None => {
                assert(false);
            },
        }
        assert(usable == has_device(m[name]));
        if !usable {
            complete = false;
        }
        proof {
            assert forall|other: Seq<char>|
                targets.contains(other) <==> exists|j: int|
                    0 <= j < i + 1 && #[trigger] all[j] == other && has_device(m[other]) by {
                if targets.contains(other) {
                    if before.contains(other) {
                        let j = choose|j: int|
                            0 <= j < i && #[trigger] all[j] == other && has_device(m[other]);
                        assert(0 <= j < i + 1 && all[j] == other);
                    } else {
                        let k = choose|k: int| 0 <= k < targets.len() && targets[k] == other;
                        assert(k == before.len());
                        assert(all[i as int] == other);
                    }
                }
                if exists|j: int|
                    0 <= j < i + 1 && #[trigger] all[j] == other && has_device(m[other]) {
                    let j = choose|j: int|
                        0 <= j < i + 1 && #[trigger] all[j] == other && has_device(m[other]);
                    if j < i {
                        assert(before.contains(other));
                        let k = choose|k: int| 0 <= k < before.len() && before[k] == other;
                        assert(targets[k] == other);
                    } else {
                        assert(usable);
                        assert(targets[targets.len() - 1] == other);
                    }
                }
            }
        }
        i += 1;
    }
    if names.len() == 0 {
        complete = false;
    }
    proof {
        assert forall|name: Seq<char>|
            targets.contains(name) <==> m.contains_key(name) && has_device(
                #[trigger] m[name],
            ) by {
            if m.contains_key(name) && has_device(m[name]) {
                assert(all.to_set().contains(name));
                let j = choose|j: int| 0 <= j < all.len() && all[j] == name;
                assert(all[j] == name);
            }
            if targets.contains(name) {
                let j = choose|j: int|
                    0 <= j < i && #[trigger] all[j] == name && has_device(m[name]);
                assert(all.to_set().contains(all[j]));
            }
        }
        if complete {
            assert(all.to_set().contains(all[0]));
            assert(m.contains_key(all[0]));
            assert forall|name: Seq<char>| m.contains_key(name) implies has_device(
                #[trigger] m[name],
            ) by {
                assert(all.to_set().contains(name));
                let j = choose|j: int| 0 <= j < all.len() && all[j] == name;
                assert(has_device(m[all[j]]));
            }
        } else {
            if names.len() == 0 {
                assert forall|name: Seq<char>| !m.contains_key(name) by {
                    if m.contains_key(name) {
                        assert(all.to_set().contains(name));
                    }
                }
            } else {
                let j = choose|j: int| 0 <= j < i && !has_device(m[#[trigger] all[j]]);
                assert(all.to_set().contains(all[j]));
                assert(m.contains_key(all[j]));
            }
        }
    }
    let plan = HopPlan { commands, complete };
    assert(lists_devices(targets, registry@));
    assert(commands_for(plan.commands.deep_view(), targets, registry@, hop));
    plan
}

/// Whether setting the interface metric counts as done. On a platform
/// without the facility there is nothing to do, which counts as done.
/// Elsewhere the plan must be complete and every one of its commands must
/// have succeeded.
pub open spec fn hops_outcome(supported: bool, plan: HopPlanView, succeeded: Seq<bool>) -> bool {
    !supported || (plan.complete && succeeded.len() == plan.commands.len() && forall|k: int|
        0 <= k < succeeded.len() ==> succeeded[k])
}

/// Decides the result of setting the interface metric from the plan and
/// from what became of its commands: `succeeded[k]` says whether command
/// `k` of the plan ran and reported success.
pub fn interface_hops_outcome(supported: bool, plan: &HopPlan, succeeded: &Vec<bool>) -> (ok: bool)
    ensures
        ok == hops_outcome(supported, plan.deep_view(), succeeded@),
{
    if !supported {
        return true;
    }
    if !plan.complete || succeeded.len() != plan.commands.len() {
        return false;
    }
    let mut k: usize = 0;
    while k < succeeded.len()
        invariant
            supported,
            k <= succeeded.len(),
            forall|j: int| 0 <= j < k ==> succeeded@[j],
        decreases succeeded.len() - k,
    {
        if !succeeded[k] {
            assert(!succeeded@[k as int]);
            return false;
        }
        k += 1;
    }
    true
}

} // verus!
