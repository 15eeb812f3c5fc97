//! Per-node and per-hop metrics derived from raw connection statistics:
//! latency, the two loss rollups, and the NAT classification.

use vstd::prelude::*;
use crate::model::{
    LossRate, PeerConnInfo, PeerConnInfoView, PeerInfo, PeerInfoView, Route, RouteView, StunInfo,
    StunInfoView,
};

verus! {

/// The smallest `latency_us` among the connections that carry statistics;
/// `None` where no connection does.
pub open spec fn min_latency(conns: Seq<PeerConnInfoView>) -> Option<u64>
    decreases conns.len(),
{
    if conns.len() == 0 {
        None
    } else {
        let rest = min_latency(conns.drop_last());
        match (conns.last().stats, rest) {
            (None, _) => rest,
            (Some(s), None) => Some(s.latency_us),
            (Some(s), Some(m)) => Some(
                if s.latency_us < m {
                    s.latency_us
                } else {
                    m
                },
            ),
        }
    }
}

/// `min_latency` is `None` exactly when no connection has statistics, and
/// otherwise is the latency of some connection and a lower bound of all.
pub proof fn lemma_min_latency_is_minimum(conns: Seq<PeerConnInfoView>)
    ensures
        min_latency(conns) is None <==> forall|i: int|
            0 <= i < conns.len() ==> (#[trigger] conns[i]).stats is None,
        min_latency(conns) matches Some(m) ==> {
            &&& exists|i: int|
                0 <= i < conns.len() && (#[trigger] conns[i]).stats == Some(
                    conns[i].stats->0,
                ) && conns[i].stats->0.latency_us == m
            &&& forall|i: int|
                0 <= i < conns.len() && (#[trigger] conns[i]).stats is Some ==> m
                    <= conns[i].stats->0.latency_us
        },
    decreases conns.len(),
{
    if conns.len() > 0 {
        let init = conns.drop_last();
        let n = conns.len() - 1;
        lemma_min_latency_is_minimum(init);
        assert(forall|i: int| 0 <= i < n ==> init[i] == conns[i]);
        match min_latency(conns) {
            None => {
                assert forall|i: int| 0 <= i < conns.len() implies (#[trigger] conns[i]).stats
                    is None by {
                    if i < n {
                        assert(init[i].stats is None);
                    }
                }
            },
            Some(m) => {
                if conns.last().stats is Some && conns.last().stats->0.latency_us == m {
                    assert(conns[n].stats == Some(conns[n].stats->0));
                } else {
                    let j = choose|j: int|
                        0 <= j < init.len() && (#[trigger] init[j]).stats == Some(
                            init[j].stats->0,
                        ) && init[j].stats->0.latency_us == m;
                    assert(conns[j].stats == Some(conns[j].stats->0));
                }
                assert forall|i: int|
                    0 <= i < conns.len() && (#[trigger] conns[i]).stats is Some implies m
                    <= conns[i].stats->0.latency_us by {
                    if i < n {
                        assert(init[i].stats is Some);
                    }
                }
            },
        }
    }
}

/// The smallest latency over a peer's connections, in microseconds.
pub fn min_latency_us(conns: &Vec<PeerConnInfo>) -> (r: Option<u64>)
    ensures
        r == min_latency(conns.deep_view()),
{
    let mut best: Option<u64> = None;
    let mut i: usize = 0;
    while i < conns.len()
        invariant
            i <= conns.len(),
            best == min_latency(conns.deep_view().take(i as int)),
        decreases conns.len() - i,
    {
        let ghost before = conns.deep_view().take(i as int);
        let ghost after = conns.deep_view().take(i as int + 1);
        assert(after.drop_last() =~= before);
        match conns[i].stats {
            None => {},
            Some(s) => {
                best = match best {
                    None => Some(s.latency_us),
                    Some(m) => Some(
                        if s.latency_us < m {
                            s.latency_us
                        } else {
                            m
                        },
                    ),
                };
            },
        }
        i += 1;
    }
    assert(conns.deep_view().take(i as int) =~= conns.deep_view());
    best
}

/// The latency shown for a hop of a path: the smallest connection latency of
/// the hop's peer, or 0 where the peer or its statistics are missing.
pub open spec fn hop_latency(peer: Option<PeerInfoView>) -> u64 {
    match peer {
        None => 0,
        Some(p) => match min_latency(p.conns) {
            None => 0,
            Some(m) => m,
        },
    }
}

/// The latency of a hop, in microseconds.
pub fn hop_latency_us(peer: Option<&PeerInfo>) -> (r: u64)
    ensures
        r == hop_latency(peer.deep_view()),
{
    match peer {
        None => 0,
        Some(p) => match min_latency_us(&p.conns) {
            None => 0,
            Some(m) => m,
        },
    }
}

/// A route's own path latency, with negative values read as 0.
pub open spec fn path_latency_clamped(route: RouteView) -> u64 {
    if route.path_latency > 0 {
        route.path_latency as u64
    } else {
        0
    }
}

/// The latency shown for a node: the smallest connection latency of its peer,
/// and where no connection has statistics the route's clamped path latency.
pub open spec fn node_latency(route: RouteView, peer: Option<PeerInfoView>) -> u64 {
    match peer {
        None => path_latency_clamped(route),
        Some(p) => match min_latency(p.conns) {
            None => path_latency_clamped(route),
            Some(m) => m,
        },
    }
}

/// The latency of a node, in microseconds.
pub fn node_latency_us(route: &Route, peer: Option<&PeerInfo>) -> (r: u64)
    ensures
        r == node_latency(route.deep_view(), peer.deep_view()),
{
    let fallback: u64 = if route.path_latency > 0 {
        route.path_latency as u64
    } else {
        0
    };
    match peer {
        None => fallback,
        Some(p) => match min_latency_us(&p.conns) {
            None => fallback,
            Some(m) => m,
        },
    }
}

/// A node whose peer record is missing or holds no connection is shown with
/// its route's path latency, whenever that latency is not negative.
pub proof fn lemma_latency_falls_back_to_path(route: RouteView, peer: Option<PeerInfoView>)
    requires
        peer matches Some(p) ==> p.conns.len() == 0,
        route.path_latency >= 0,
    ensures
        node_latency(route, peer) == route.path_latency,
{
}

/// A loss figure still to be computed: the sum of `terms`, taken in order,
/// divided by `divisor`.
#[derive(Debug, PartialEq, Eq)]
pub struct LossRollup {
    pub terms: Vec<LossRate>,
    pub divisor: usize,
}

/// The view of a `LossRollup`: its strings and vectors as sequences.
pub struct LossRollupView {
    pub terms: Seq<LossRate>,
    pub divisor: usize,
}

impl DeepView for LossRollup {
    type V = LossRollupView;

    open spec fn deep_view(&self) -> LossRollupView {
        LossRollupView { terms: self.terms@, divisor: self.divisor }
    }
}

impl Clone for LossRollup {
    fn clone(&self) -> (r: Self)
        ensures
            r.deep_view() == self.deep_view(),
    {
        LossRollup { terms: self.terms.clone(), divisor: self.divisor }
    }
}

/// The loss rates of the connections, in order.
pub open spec fn loss_terms(conns: Seq<PeerConnInfoView>) -> Seq<LossRate> {
    Seq::new(conns.len(), |i: int| conns[i].loss_rate)
}

/// The rollup of no connection at all: an empty sum over 1.
pub open spec fn no_loss() -> LossRollupView {
    LossRollupView { terms: Seq::empty(), divisor: 1 }
}

/// Whole-node loss: the plain sum over the peer's connections.
pub open spec fn total_loss(peer: Option<PeerInfoView>) -> LossRollupView {
    match peer {
        None => no_loss(),
        Some(p) => LossRollupView { terms: loss_terms(p.conns), divisor: 1 },
    }
}

/// Per-hop loss: the mean over the peer's connections, the divisor being 1
/// where there is none.
pub open spec fn mean_loss(peer: Option<PeerInfoView>) -> LossRollupView {
    match peer {
        None => no_loss(),
        Some(p) => LossRollupView {
            terms: loss_terms(p.conns),
            divisor: if p.conns.len() == 0 {
                1
            } else {
                p.conns.len() as usize
            },
        },
    }
}

fn collect_loss_terms(conns: &Vec<PeerConnInfo>) -> (r: Vec<LossRate>)
    ensures
        r@ == loss_terms(conns.deep_view()),
{
    let mut terms: Vec<LossRate> = Vec::new();
    let mut i: usize = 0;
    while i < conns.len()
        invariant
            i <= conns.len(),
            terms@ == loss_terms(conns.deep_view()).take(i as int),
        decreases conns.len() - i,
    {
        terms.push(conns[i].loss_rate);
        i += 1;
    }
    terms
}

/// The whole-node loss rollup of a peer.
pub fn total_loss_rate(peer: Option<&PeerInfo>) -> (r: LossRollup)
    ensures
        r.deep_view() == total_loss(peer.deep_view()),
        r.divisor == 1,
{
    match peer {
        None => LossRollup { terms: Vec::new(), divisor: 1 },
        Some(p) => LossRollup { terms: collect_loss_terms(&p.conns), divisor: 1 },
    }
}

/// The per-hop loss rollup of a peer.
pub fn mean_loss_rate(peer: Option<&PeerInfo>) -> (r: LossRollup)
    ensures
        r.deep_view() == mean_loss(peer.deep_view()),
        r.divisor >= 1,
{
    match peer {
        None => LossRollup { terms: Vec::new(), divisor: 1 },
        Some(p) => {
            let n = p.conns.len();
            LossRollup {
                terms: collect_loss_terms(&p.conns),
                divisor: if n == 0 {
                    1
                } else {
                    n
                },
            }
        },
    }
}

/// How a node's NAT behaves, as STUN probing classified it.
#[derive(Clone, Copy, Debug, PartialEq, Eq, Structural)]
pub enum NatType {
    Unknown,
    OpenInternet,
    NoPat,
    FullCone,
    Restricted,
    PortRestricted,
    Symmetric,
    SymUdpFirewall,
    SymmetricEasyInc,
    SymmetricEasyDec,
}

/// The classification that a NAT type code stands for; codes outside the
/// enumeration stand for `Unknown`.
pub open spec fn nat_type_of(code: i32) -> NatType {
    if code == 1 {
        NatType::OpenInternet
    } else if code == 2 {
        NatType::NoPat
    } else if code == 3 {
        NatType::FullCone
    } else if code == 4 {
        NatType::Restricted
    } else if code == 5 {
        NatType::PortRestricted
    } else if code == 6 {
        NatType::Symmetric
    } else if code == 7 {
        NatType::SymUdpFirewall
    } else if code == 8 {
        NatType::SymmetricEasyInc
    } else if code == 9 {
        NatType::SymmetricEasyDec
    } else {
        NatType::Unknown
    }
}

impl NatType {
    /// The name under which the classification is displayed.
    pub open spec fn name(self) -> Seq<char> {
        match self {
            NatType::Unknown => "Unknown"@,
            NatType::OpenInternet => "OpenInternet"@,
            NatType::NoPat => "NoPat"@,
            NatType::FullCone => "FullCone"@,
            NatType::Restricted => "Restricted"@,
            NatType::PortRestricted => "PortRestricted"@,
            NatType::Symmetric => "Symmetric"@,
            NatType::SymUdpFirewall => "SymUdpFirewall"@,
            NatType::SymmetricEasyInc => "SymmetricEasyInc"@,
            NatType::SymmetricEasyDec => "SymmetricEasyDec"@,
        }
    }

    /// Reads a NAT type code.
    pub fn from_code(code: i32) -> (t: NatType)
        ensures
            t == nat_type_of(code),
    {
        if code == 1 {
            NatType::OpenInternet
        } else if code == 2 {
            NatType::NoPat
        } else if code == 3 {
            NatType::FullCone
        } else if code == 4 {
            NatType::Restricted
        } else if code == 5 {
            NatType::PortRestricted
        } else if code == 6 {
            NatType::Symmetric
        } else if code == 7 {
            NatType::SymUdpFirewall
        } else if code == 8 {
            NatType::SymmetricEasyInc
        } else if code == 9 {
            NatType::SymmetricEasyDec
        } else {
            NatType::Unknown
        }
    }

    /// The display name as a string.
    pub fn label(&self) -> (s: String)
        ensures
            s@ == self.name(),
    {
        match self {
            NatType::Unknown => "Unknown".to_string(),
            NatType::OpenInternet => "OpenInternet".to_string(),
            NatType::NoPat => "NoPat".to_string(),
            NatType::FullCone => "FullCone".to_string(),
            NatType::Restricted => "Restricted".to_string(),
            NatType::PortRestricted => "PortRestricted".to_string(),
            NatType::Symmetric => "Symmetric".to_string(),
            NatType::SymUdpFirewall => "SymUdpFirewall".to_string(),
            NatType::SymmetricEasyInc => "SymmetricEasyInc".to_string(),
            NatType::SymmetricEasyDec => "SymmetricEasyDec".to_string(),
        }
    }
}

/// The NAT classification shown for a node: that of its UDP NAT type code,
/// and `Unknown` where the node has no STUN information.
pub open spec fn nat_label(stun: Option<StunInfoView>) -> Seq<char> {
    match stun {
        None => NatType::Unknown.name(),
        Some(s) => nat_type_of(s.udp_nat_type).name(),
    }
}

/// The NAT classification of a node as a display string.
pub fn nat_classification(stun: Option<&StunInfo>) -> (s: String)
    ensures
        s@ == nat_label(stun.deep_view()),
{
    match stun {
        None => NatType::Unknown.label(),
        Some(info) => NatType::from_code(info.udp_nat_type).label(),
    }
}

} // verus!
