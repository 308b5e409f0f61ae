//! The shared aggregate state of one capture session and the operations that
//! mutate it.
//!
//! The state owns the connection map, the resolved-address and
//! pending-resolution maps, the host map, and the favorite sets. One capture
//! loop applies packets, resolution work merges its results in, and readers
//! take snapshots; the caller serializes those accesses (the state is meant
//! to live behind a lock). Each map is held as a vector of entries with
//! pairwise distinct keys and is read, in contracts, as the finite map it
//! denotes.

use vstd::prelude::*;

use crate::address::{InterfaceAddress, IpAddress};
use crate::assoc::{
    keys_unique, lemma_map_of_dom, lemma_map_of_index, lemma_map_of_push, lemma_map_of_update,
    lemma_unique_push, lemma_unique_update, map_of,
};
use crate::protocols::{AppProtocol, IcmpType, Protocol, TrafficDirection};
use crate::classify::{get_traffic_direction, spec_traffic_direction};
use crate::stats::{view_of_opt_string, AddressPortPair, ConnStats, DataInfo, DataInfoHost, Host,
    HostView, InfoAddressPortPair};

verus! {

/// The map denoted by the connection list.
pub open spec fn spec_conns_of(s: Seq<(AddressPortPair, InfoAddressPortPair)>) -> Map<
    AddressPortPair,
    ConnStats,
> {
    map_of(s.map_values(|p: (AddressPortPair, InfoAddressPortPair)| (p.0, p.1@)))
}

/// The map denoted by the resolved-address list.
pub open spec fn spec_resolved_of(s: Seq<(IpAddress, (String, Host))>) -> Map<
    IpAddress,
    (Seq<char>, HostView),
> {
    map_of(s.map_values(|p: (IpAddress, (String, Host))| (p.0, (p.1.0@, p.1.1@))))
}

/// The map denoted by the host list.
pub open spec fn spec_hosts_of(s: Seq<(Host, DataInfoHost)>) -> Map<HostView, DataInfoHost> {
    map_of(s.map_values(|p: (Host, DataInfoHost)| (p.0@, p.1)))
}

/// The set of host identities denoted by a host list.
pub open spec fn spec_host_set_of(s: Seq<Host>) -> Set<HostView> {
    Set::new(|hv: HostView| exists|i: int| 0 <= i < s.len() && s[i]@ == hv)
}

/// Whether a host list carries each identity at most once.
pub open spec fn spec_hosts_distinct(s: Seq<Host>) -> bool {
    forall|i: int, j: int| 0 <= i < j < s.len() ==> s[i]@ != s[j]@
}

/// Appending a host inserts its identity into the denoted set.
pub proof fn lemma_host_set_push(s: Seq<Host>, h: Host)
    ensures
        spec_host_set_of(s.push(h)) == spec_host_set_of(s).insert(h@),
{
    assert(spec_host_set_of(s.push(h)) =~= spec_host_set_of(s).insert(h@)) by {
        assert forall|hv: HostView| spec_host_set_of(s.push(h)).contains(hv) implies spec_host_set_of(
            s,
        ).insert(h@).contains(hv) by {
            let i = choose|i: int| 0 <= i < s.push(h).len() && s.push(h)[i]@ == hv;
            if i < s.len() {
                assert(s[i]@ == hv);
            }
        }
        assert forall|hv: HostView| spec_host_set_of(s).insert(h@).contains(hv) implies spec_host_set_of(
            s.push(h),
        ).contains(hv) by {
            if spec_host_set_of(s).contains(hv) {
                let i = choose|i: int| 0 <= i < s.len() && s[i]@ == hv;
                assert(s.push(h)[i]@ == hv);
            } else {
                assert(s.push(h)[s.len() as int]@ == hv);
            }
        }
    }
}

/// Appending a host whose identity is absent keeps the list duplicate free.
pub proof fn lemma_hosts_distinct_push(s: Seq<Host>, h: Host)
    requires
        spec_hosts_distinct(s),
        !spec_host_set_of(s).contains(h@),
    ensures
        spec_hosts_distinct(s.push(h)),
{
    assert forall|i: int, j: int| 0 <= i < j < s.push(h).len() implies s.push(h)[i]@ != s.push(h)[j]@
        by {
        if j < s.len() {
            assert(s.push(h)[i] == s[i] && s.push(h)[j] == s[j]);
        } else {
            assert(s.push(h)[i] == s[i]);
            assert(!(s[i]@ == h@));
        }
    }
}

/// Removing a duplicate-free list's entry takes its identity out of the
/// denoted set.
pub proof fn lemma_host_set_remove(s: Seq<Host>, i: int)
    requires
        spec_hosts_distinct(s),
        0 <= i < s.len(),
    ensures
        spec_host_set_of(s.remove(i)) == spec_host_set_of(s).remove(s[i]@),
        spec_hosts_distinct(s.remove(i)),
{
    let t = s.remove(i);
    assert(spec_host_set_of(t) =~= spec_host_set_of(s).remove(s[i]@)) by {
        assert forall|hv: HostView| spec_host_set_of(t).contains(hv) implies spec_host_set_of(
            s,
        ).remove(s[i]@).contains(hv) by {
            let j = choose|j: int| 0 <= j < t.len() && t[j]@ == hv;
            if j < i {
                assert(s[j]@ == hv);
                assert(hv != s[i]@);
            } else {
                assert(s[j + 1]@ == hv);
                assert(hv != s[i]@);
            }
        }
        assert forall|hv: HostView| spec_host_set_of(s).remove(s[i]@).contains(hv) implies spec_host_set_of(
            t,
        ).contains(hv) by {
            let j = choose|j: int| 0 <= j < s.len() && s[j]@ == hv;
            assert(j != i);
            if j < i {
                assert(t[j]@ == hv);
            } else {
                assert(t[j - 1]@ == hv);
            }
        }
    }
}

/// A member's insertion leaves the denoted set as it is; a non-member's
/// removal does too.
pub proof fn lemma_host_set_noop(s: Seq<Host>, hv: HostView)
    ensures
        spec_host_set_of(s).contains(hv) ==> spec_host_set_of(s).insert(hv) == spec_host_set_of(s),
        !spec_host_set_of(s).contains(hv) ==> spec_host_set_of(s).remove(hv) == spec_host_set_of(s),
{
    if spec_host_set_of(s).contains(hv) {
        assert(spec_host_set_of(s).insert(hv) =~= spec_host_set_of(s));
    } else {
        assert(spec_host_set_of(s).remove(hv) =~= spec_host_set_of(s));
    }
}

/// The aggregate traffic state of one capture session.
///
/// `session_id` tags the session the state belongs to: operations carrying a
/// stale tag leave the state untouched, so that work left over from an
/// earlier capture cannot corrupt a later one.
pub struct InfoTraffic {
    /// Per-connection statistics, keyed by connection key.
    pub connections: Vec<(AddressPortPair, InfoAddressPortPair)>,
    /// For each resolved address: its reverse-DNS name and its host identity.
    pub addresses_resolved: Vec<(IpAddress, (String, Host))>,
    /// Addresses seen but not resolved yet, with the traffic accumulated for
    /// them so far.
    pub addresses_waiting_resolution: Vec<(IpAddress, DataInfo)>,
    /// Per-host statistics, keyed by host identity.
    pub hosts: Vec<(Host, DataInfoHost)>,
    /// The hosts the user marked as favorites.
    pub favorite_hosts: Vec<Host>,
    /// The favorite hosts that exchanged traffic since the last display
    /// refresh; cleared at every refresh tick.
    pub favorites_last_interval: Vec<Host>,
    /// Packets recorded in this session.
    pub all_packets: u128,
    /// Bytes recorded in this session.
    pub all_bytes: u128,
    pub tot_sent_bytes: u128,
    pub tot_sent_packets: u128,
    pub tot_received_bytes: u128,
    pub tot_received_packets: u128,
    /// The capture session this state belongs to.
    pub session_id: u64,
}

impl InfoTraffic {
    pub open spec fn conns_view(&self) -> Map<AddressPortPair, ConnStats> {
        spec_conns_of(self.connections@)
    }

    pub open spec fn resolved_view(&self) -> Map<IpAddress, (Seq<char>, HostView)> {
        spec_resolved_of(self.addresses_resolved@)
    }

    pub open spec fn pending_view(&self) -> Map<IpAddress, DataInfo> {
        map_of(self.addresses_waiting_resolution@)
    }

    pub open spec fn hosts_view(&self) -> Map<HostView, DataInfoHost> {
        spec_hosts_of(self.hosts@)
    }

    pub open spec fn favorites_view(&self) -> Set<HostView> {
        spec_host_set_of(self.favorite_hosts@)
    }

    pub open spec fn favorites_last_interval_view(&self) -> Set<HostView> {
        spec_host_set_of(self.favorites_last_interval@)
    }

    /// Everything except the connection map is unchanged between two states.
    pub open spec fn same_but_connections(pre: Self, post: Self) -> bool {
        &&& post.addresses_resolved@ == pre.addresses_resolved@
        &&& post.addresses_waiting_resolution@ == pre.addresses_waiting_resolution@
        &&& post.hosts@ == pre.hosts@
        &&& post.favorite_hosts@ == pre.favorite_hosts@
        &&& Self::same_totals(pre, post)
        &&& post.session_id == pre.session_id
    }

    /// The running totals are unchanged between two states.
    pub open spec fn same_totals(pre: Self, post: Self) -> bool {
        &&& post.all_packets == pre.all_packets
        &&& post.all_bytes == pre.all_bytes
        &&& post.tot_sent_bytes == pre.tot_sent_bytes
        &&& post.tot_sent_packets == pre.tot_sent_packets
        &&& post.tot_received_bytes == pre.tot_received_bytes
        &&& post.tot_received_packets == pre.tot_received_packets
    }

    /// Well-formedness of the state: every map's keys are pairwise distinct,
    /// both favorite lists are duplicate free, every connection entry is well
    /// formed, only ICMP connections populate an ICMP histogram, and every
    /// resolved address points at a host that the host map knows.
    pub open spec fn wf(&self) -> bool {
        &&& keys_unique(
            self.connections@.map_values(|p: (AddressPortPair, InfoAddressPortPair)| (p.0, p.1@)),
        )
        &&& keys_unique(
            self.addresses_resolved@.map_values(
                |p: (IpAddress, (String, Host))| (p.0, (p.1.0@, p.1.1@)),
            ),
        )
        &&& keys_unique(self.addresses_waiting_resolution@)
        &&& keys_unique(self.hosts@.map_values(|p: (Host, DataInfoHost)| (p.0@, p.1)))
        &&& spec_hosts_distinct(self.favorite_hosts@)
        &&& spec_hosts_distinct(self.favorites_last_interval@)
        &&& (forall|i: int|
            0 <= i < self.connections@.len() ==> (#[trigger] self.connections@[i]).1.wf())
        &&& (forall|i: int|
            0 <= i < self.connections@.len() && (#[trigger] self.connections@[i]).0.protocol
                != Protocol::ICMP ==> self.connections@[i].1.icmp_types@.len() == 0)
        &&& (forall|a: IpAddress|
            #[trigger] self.resolved_view().contains_key(a) ==> self.hosts_view().contains_key(
                self.resolved_view()[a].1,
            ))
    }

    /// A fresh, empty state for the session with the given id.
    pub fn with_session(session_id: u64) -> (r: InfoTraffic)
        ensures
            r.wf(),
            r.conns_view() == Map::<AddressPortPair, ConnStats>::empty(),
            r.resolved_view() == Map::<IpAddress, (Seq<char>, HostView)>::empty(),
            r.pending_view() == Map::<IpAddress, DataInfo>::empty(),
            r.hosts_view() == Map::<HostView, DataInfoHost>::empty(),
            r.favorites_view() == Set::<HostView>::empty(),
            r.favorites_last_interval_view() == Set::<HostView>::empty(),
            r.all_packets == 0 && r.all_bytes == 0,
            r.tot_sent_bytes == 0 && r.tot_sent_packets == 0,
            r.tot_received_bytes == 0 && r.tot_received_packets == 0,
            r.session_id == session_id,
    {
        let r = InfoTraffic {
            connections: Vec::new(),
            addresses_resolved: Vec::new(),
            addresses_waiting_resolution: Vec::new(),
            hosts: Vec::new(),
            favorite_hosts: Vec::new(),
            favorites_last_interval: Vec::new(),
            all_packets: 0,
            all_bytes: 0,
            tot_sent_bytes: 0,
            tot_sent_packets: 0,
            tot_received_bytes: 0,
            tot_received_packets: 0,
            session_id,
        };
        proof {
            assert(r.favorites_view() =~= Set::<HostView>::empty());
            assert(r.favorites_last_interval_view() =~= Set::<HostView>::empty());
        }
        r
    }

    /// A fresh state for the first capture session.
    pub fn new() -> (r: InfoTraffic)
        ensures
            r.wf(),
            r.conns_view() == Map::<AddressPortPair, ConnStats>::empty(),
            r.resolved_view() == Map::<IpAddress, (Seq<char>, HostView)>::empty(),
            r.pending_view() == Map::<IpAddress, DataInfo>::empty(),
            r.hosts_view() == Map::<HostView, DataInfoHost>::empty(),
            r.favorites_view() == Set::<HostView>::empty(),
            r.favorites_last_interval_view() == Set::<HostView>::empty(),
            r.all_packets == 0 && r.all_bytes == 0,
            r.session_id == 0,
    {
        InfoTraffic::with_session(0)
    }

    /// Discards the session's aggregates and moves to the next session id,
    /// so that work still in flight for the old session is recognisably
    /// stale.
    pub fn restart(&mut self)
        requires
            old(self).session_id < u64::MAX,
        ensures
            final(self).wf(),
            final(self).session_id == old(self).session_id + 1,
            final(self).conns_view() == Map::<AddressPortPair, ConnStats>::empty(),
            final(self).resolved_view() == Map::<IpAddress, (Seq<char>, HostView)>::empty(),
            final(self).pending_view() == Map::<IpAddress, DataInfo>::empty(),
            final(self).hosts_view() == Map::<HostView, DataInfoHost>::empty(),
            final(self).favorites_view() == Set::<HostView>::empty(),
            final(self).favorites_last_interval_view() == Set::<HostView>::empty(),
            final(self).all_packets == 0 && final(self).all_bytes == 0,
    {
        let next = self.session_id + 1;
        *self = InfoTraffic::with_session(next);
    }

    /// Clears the set of favorites seen in the last display interval; called
    /// at every display refresh tick.
    pub fn clear_favorites_last_interval(&mut self)
        requires
            old(self).wf(),
        ensures
            final(self).wf(),
            final(self).favorites_last_interval_view() == Set::<HostView>::empty(),
            Self::same_but_connections(*old(self), *final(self)),
            final(self).connections@ == old(self).connections@,
    {
        self.favorites_last_interval = Vec::new();
        proof {
            assert(self.favorites_last_interval_view() =~= Set::<HostView>::empty());
            assert forall|a: IpAddress| #[trigger]
                self.resolved_view().contains_key(a) implies self.hosts_view().contains_key(
                self.resolved_view()[a].1,
            ) by {
                assert(old(self).resolved_view().contains_key(a));
            }
        }
    }
}

/// Looks a connection key up in the connection list.
pub fn find_connection(v: &Vec<(AddressPortPair, InfoAddressPortPair)>, k: &AddressPortPair) -> (r:
    Option<usize>)
    requires
        keys_unique(v@.map_values(|p: (AddressPortPair, InfoAddressPortPair)| (p.0, p.1@))),
    ensures
        match r {
            Option::Some(i) => i < v@.len() && v@[i as int].0 == *k && spec_conns_of(
                v@,
            ).contains_key(*k) && spec_conns_of(v@)[*k] == v@[i as int].1@,
            Option::None => !spec_conns_of(v@).contains_key(*k),
        },
{
    let ghost m = v@.map_values(|p: (AddressPortPair, InfoAddressPortPair)| (p.0, p.1@));
    let n = v.len();
    for i in 0..n
        invariant
            n == v.len(),
            m == v@.map_values(|p: (AddressPortPair, InfoAddressPortPair)| (p.0, p.1@)),
            keys_unique(m),
            forall|j: int| 0 <= j < i ==> v@[j].0 != *k,
    {
        if v[i].0 == *k {
            proof {
                lemma_map_of_index(m, i as int);
            }
            return Some(i);
        }
    }
    proof {
        lemma_map_of_dom(m, *k);
    }
    None
}

/// Looks an address up in the resolved-address list.
pub fn find_resolved(v: &Vec<(IpAddress, (String, Host))>, a: &IpAddress) -> (r: Option<usize>)
    requires
        keys_unique(v@.map_values(|p: (IpAddress, (String, Host))| (p.0, (p.1.0@, p.1.1@)))),
    ensures
        match r {
            Option::Some(i) => i < v@.len() && v@[i as int].0 == *a && spec_resolved_of(
                v@,
            ).contains_key(*a) && spec_resolved_of(v@)[*a] == (v@[i as int].1.0@, v@[i as int].1.1@),
            Option::None => !spec_resolved_of(v@).contains_key(*a),
        },
{
    let ghost m = v@.map_values(|p: (IpAddress, (String, Host))| (p.0, (p.1.0@, p.1.1@)));
    let n = v.len();
    for i in 0..n
        invariant
            n == v.len(),
            m == v@.map_values(|p: (IpAddress, (String, Host))| (p.0, (p.1.0@, p.1.1@))),
            keys_unique(m),
            forall|j: int| 0 <= j < i ==> v@[j].0 != *a,
    {
        if v[i].0 == *a {
            proof {
                lemma_map_of_index(m, i as int);
            }
            return Some(i);
        }
    }
    proof {
        lemma_map_of_dom(m, *a);
    }
    None
}

/// Looks an address up in the pending-resolution list.
pub fn find_pending(v: &Vec<(IpAddress, DataInfo)>, a: &IpAddress) -> (r: Option<usize>)
    requires
        keys_unique(v@),
    ensures
        match r {
            Option::Some(i) => i < v@.len() && v@[i as int].0 == *a && map_of(v@).contains_key(*a)
                && map_of(v@)[*a] == v@[i as int].1,
            Option::None => !map_of(v@).contains_key(*a),
        },
{
    let n = v.len();
    for i in 0..n
        invariant
            n == v.len(),
            keys_unique(v@),
            forall|j: int| 0 <= j < i ==> v@[j].0 != *a,
    {
        if v[i].0 == *a {
            proof {
                lemma_map_of_index(v@, i as int);
            }
            return Some(i);
        }
    }
    proof {
        lemma_map_of_dom(v@, *a);
    }
    None
}

/// Looks a host identity up in the host list.
pub fn find_host(v: &Vec<(Host, DataInfoHost)>, h: &Host) -> (r: Option<usize>)
    requires
        keys_unique(v@.map_values(|p: (Host, DataInfoHost)| (p.0@, p.1))),
    ensures
        match r {
            Option::Some(i) => i < v@.len() && v@[i as int].0@ == h@ && spec_hosts_of(
                v@,
            ).contains_key(h@) && spec_hosts_of(v@)[h@] == v@[i as int].1,
            Option::None => !spec_hosts_of(v@).contains_key(h@),
        },
{
    let ghost m = v@.map_values(|p: (Host, DataInfoHost)| (p.0@, p.1));
    let n = v.len();
    for i in 0..n
        invariant
            n == v.len(),
            m == v@.map_values(|p: (Host, DataInfoHost)| (p.0@, p.1)),
            keys_unique(m),
            forall|j: int| 0 <= j < i ==> v@[j].0@ != h@,
    {
        if v[i].0.same_as(h) {
            proof {
                lemma_map_of_index(m, i as int);
            }
            return Some(i);
        }
    }
    proof {
        lemma_map_of_dom(m, h@);
    }
    None
}

/// Tells whether a host list carries the given identity.
pub fn has_host(v: &Vec<Host>, h: &Host) -> (r: bool)
    ensures
        r == spec_host_set_of(v@).contains(h@),
{
    let n = v.len();
    for i in 0..n
        invariant
            n == v.len(),
            forall|j: int| 0 <= j < i ==> v@[j]@ != h@,
    {
        if v[i].same_as(h) {
            return true;
        }
    }
    false
}

/// The address of a connection that names the presumed-remote endpoint: the
/// destination for outgoing traffic, the source for incoming traffic.
pub open spec fn spec_address_to_lookup(key: AddressPortPair, dir: TrafficDirection) -> IpAddress {
    match dir {
        TrafficDirection::Outgoing => key.address2,
        TrafficDirection::Incoming => key.address1,
    }
}

/// Picks the connection endpoint whose host should be looked up.
pub fn get_address_to_lookup(key: &AddressPortPair, traffic_direction: TrafficDirection) -> (r:
    IpAddress)
    ensures
        r == spec_address_to_lookup(*key, traffic_direction),
{
    match traffic_direction {
        TrafficDirection::Outgoing => key.address2,
        TrafficDirection::Incoming => key.address1,
    }
}

impl InfoTraffic {
    /// Marks a host as favorite or takes the mark away: updates the favorite
    /// set and, where the host map knows the host, its favorite flag.
    pub fn add_or_remove_favorite(&mut self, host: &Host, add: bool)
        requires
            old(self).wf(),
        ensures
            final(self).wf(),
            final(self).favorites_view() == if add {
                old(self).favorites_view().insert(host@)
            } else {
                old(self).favorites_view().remove(host@)
            },
            final(self).hosts_view() == if old(self).hosts_view().contains_key(host@) {
                old(self).hosts_view().insert(
                    host@,
                    DataInfoHost { is_favorite: add, ..old(self).hosts_view()[host@] },
                )
            } else {
                old(self).hosts_view()
            },
            final(self).conns_view() == old(self).conns_view(),
            final(self).resolved_view() == old(self).resolved_view(),
            final(self).pending_view() == old(self).pending_view(),
            final(self).favorites_last_interval_view() == old(self).favorites_last_interval_view(),
            Self::same_totals(*old(self), *final(self)),
            final(self).session_id == old(self).session_id,
    {
        let ghost pre = *self;
        if add {
            if !has_host(&self.favorite_hosts, host) {
                self.favorite_hosts.push(host.duplicate());
                proof {
                    lemma_host_set_push(pre.favorite_hosts@, *host);
                    lemma_hosts_distinct_push(pre.favorite_hosts@, *host);
                }
            } else {
                proof {
                    lemma_host_set_noop(pre.favorite_hosts@, host@);
                }
            }
        } else {
            let found = find_favorite_index(&self.favorite_hosts, host);
            if let Some(i) = found {
                let removed = self.favorite_hosts.remove(i);
                proof {
                    lemma_host_set_remove(pre.favorite_hosts@, i as int);
                }
            } else {
                proof {
                    lemma_host_set_noop(pre.favorite_hosts@, host@);
                }
            }
        }
        let ghost mid = *self;
        let idx = find_host(&self.hosts, host);
        if let Some(i) = idx {
            let current = self.hosts[i].1;
            let flagged = DataInfoHost { is_favorite: add, ..current };
            let owner = self.hosts[i].0.duplicate();
            self.hosts[i] = (owner, flagged);
            proof {
                let ghost ms = pre.hosts@.map_values(|p: (Host, DataInfoHost)| (p.0@, p.1));
                assert(self.hosts@.map_values(|p: (Host, DataInfoHost)| (p.0@, p.1)) =~= ms.update(
                    i as int,
                    (host@, flagged),
                ));
                lemma_map_of_update(ms, i as int, host@, flagged);
                assert(self.hosts_view() == pre.hosts_view().insert(host@, flagged));
                lemma_unique_update(ms, i as int, host@, flagged);
            }
        }
        proof {
            assert(self.conns_view() == pre.conns_view());
            assert(self.resolved_view() =~= pre.resolved_view());
            assert forall|a: IpAddress| #[trigger] self.resolved_view().contains_key(a) implies self
                .hosts_view().contains_key(self.resolved_view()[a].1) by {
                assert(pre.resolved_view().contains_key(a));
                if pre.hosts_view().contains_key(pre.resolved_view()[a].1) {
                    lemma_map_of_dom(
                        self.hosts@.map_values(|p: (Host, DataInfoHost)| (p.0@, p.1)),
                        pre.resolved_view()[a].1,
                    );
                    lemma_map_of_dom(
                        pre.hosts@.map_values(|p: (Host, DataInfoHost)| (p.0@, p.1)),
                        pre.resolved_view()[a].1,
                    );
                }
            }
        }
    }
}

/// Finds the position of a host identity in a host list.
fn find_favorite_index(v: &Vec<Host>, h: &Host) -> (r: Option<usize>)
    ensures
        match r {
            Option::Some(i) => i < v@.len() && v@[i as int]@ == h@,
            Option::None => !spec_host_set_of(v@).contains(h@),
        },
{
    let n = v.len();
    for i in 0..n
        invariant
            n == v.len(),
            forall|j: int| 0 <= j < i ==> v@[j]@ != h@,
    {
        if v[i].same_as(h) {
            return Some(i);
        }
    }
    None
}


/// One ICMP histogram after counting one more message of the given kind.
pub open spec fn spec_bump_icmp(m: Map<IcmpType, u128>, t: IcmpType) -> Map<IcmpType, u128> {
    m.insert(
        t,
        if m.contains_key(t) {
            (m[t] + 1) as u128
        } else {
            1u128
        },
    )
}

/// The connection entry that applying one packet to the map yields: an
/// existing entry grows its counters, refreshes its final timestamp and, for
/// ICMP, counts the message kind; a fresh entry records the packet's MAC
/// addresses, application protocol and the direction computed for it, which
/// are then fixed for the life of the key.
pub open spec fn spec_updated_conn(
    conns: Map<AddressPortPair, ConnStats>,
    k: AddressPortPair,
    mac1: Option<Seq<char>>,
    mac2: Option<Seq<char>>,
    icmp: IcmpType,
    bytes: u128,
    app: AppProtocol,
    dir_if_new: TrafficDirection,
    now: i64,
) -> ConnStats {
    if conns.contains_key(k) {
        let e = conns[k];
        ConnStats {
            transmitted_bytes: (e.transmitted_bytes + bytes) as u128,
            transmitted_packets: (e.transmitted_packets + 1) as u128,
            final_timestamp: now,
            icmp_types: if k.protocol == Protocol::ICMP {
                spec_bump_icmp(e.icmp_types, icmp)
            } else {
                e.icmp_types
            },
            ..e
        }
    } else {
        ConnStats {
            mac_address1: mac1,
            mac_address2: mac2,
            transmitted_bytes: bytes,
            transmitted_packets: 1,
            initial_timestamp: now,
            final_timestamp: now,
            app_protocol: app,
            traffic_direction: dir_if_new,
            icmp_types: if k.protocol == Protocol::ICMP {
                Map::empty().insert(icmp, 1u128)
            } else {
                Map::empty()
            },
        }
    }
}

/// Whether one packet can be applied to the connection map without a counter
/// leaving its machine range, and without the final timestamp moving
/// backwards (packets of one key are applied in arrival order).
pub open spec fn spec_apply_fits(
    conns: Map<AddressPortPair, ConnStats>,
    k: AddressPortPair,
    icmp: IcmpType,
    bytes: u128,
    now: i64,
) -> bool {
    conns.contains_key(k) ==> {
        let e = conns[k];
        &&& e.transmitted_bytes + bytes <= u128::MAX
        &&& e.transmitted_packets + 1 <= u128::MAX
        &&& e.final_timestamp <= now
        &&& ((k.protocol == Protocol::ICMP && e.icmp_types.contains_key(icmp))
            ==> e.icmp_types[icmp] + 1 <= u128::MAX)
    }
}

/// Finds the histogram entry for an ICMP message kind.
fn find_icmp(hist: &Vec<(IcmpType, u128)>, t: IcmpType) -> (r: Option<usize>)
    requires
        keys_unique(hist@),
    ensures
        match r {
            Option::Some(i) => i < hist@.len() && hist@[i as int].0 == t && map_of(
                hist@,
            ).contains_key(t) && map_of(hist@)[t] == hist@[i as int].1,
            Option::None => !map_of(hist@).contains_key(t),
        },
{
    let n = hist.len();
    for i in 0..n
        invariant
            n == hist.len(),
            keys_unique(hist@),
            forall|j: int| 0 <= j < i ==> hist@[j].0 != t,
    {
        if hist[i].0 == t {
            proof {
                lemma_map_of_index(hist@, i as int);
            }
            return Some(i);
        }
    }
    proof {
        lemma_map_of_dom(hist@, t);
    }
    None
}

/// Counts one more ICMP message of the given kind in a histogram list.
fn bump_icmp(hist: &mut Vec<(IcmpType, u128)>, t: IcmpType)
    requires
        keys_unique(old(hist)@),
        map_of(old(hist)@).contains_key(t) ==> map_of(old(hist)@)[t] + 1 <= u128::MAX,
    ensures
        keys_unique(final(hist)@),
        map_of(final(hist)@) == spec_bump_icmp(map_of(old(hist)@), t),
        final(hist)@.len() >= 1,
{
    let ghost pre = hist@;
    match find_icmp(hist, t) {
        Some(i) => {
            let c = hist[i].1;
            hist[i] = (t, c + 1);
            proof {
                lemma_map_of_update(pre, i as int, t, (c + 1) as u128);
                lemma_unique_update(pre, i as int, t, (c + 1) as u128);
            }
        },
        None => {
            hist.push((t, 1));
            proof {
                lemma_map_of_dom(pre, t);
                lemma_map_of_push(pre, t, 1u128);
                lemma_unique_push(pre, t, 1u128);
            }
        },
    }
}

/// The coherence of the two-level cache (every resolved address points at a
/// known host) carries over to a state with the same resolved and host
/// lists.
proof fn lemma_resolved_hosts_frame(pre: InfoTraffic, post: InfoTraffic)
    requires
        forall|a: IpAddress|
            #[trigger] pre.resolved_view().contains_key(a) ==> pre.hosts_view().contains_key(
                pre.resolved_view()[a].1,
            ),
        post.addresses_resolved@ == pre.addresses_resolved@,
        post.hosts@ == pre.hosts@,
    ensures
        forall|a: IpAddress|
            #[trigger] post.resolved_view().contains_key(a) ==> post.hosts_view().contains_key(
                post.resolved_view()[a].1,
            ),
{
    assert forall|a: IpAddress| #[trigger] post.resolved_view().contains_key(a) implies post
        .hosts_view().contains_key(post.resolved_view()[a].1) by {
        assert(pre.resolved_view().contains_key(a));
    }
}

/// The favorites seen in the last interval, after noticing traffic for one
/// address: where the address is resolved and its host is a favorite, that
/// host joins the set.
pub open spec fn spec_noted_favorites(pre: InfoTraffic, a: IpAddress) -> Set<HostView> {
    if pre.resolved_view().contains_key(a) && pre.favorites_view().contains(
        pre.resolved_view()[a].1,
    ) {
        pre.favorites_last_interval_view().insert(pre.resolved_view()[a].1)
    } else {
        pre.favorites_last_interval_view()
    }
}

/// Where the address is resolved to a favorite host, records that host among
/// the favorites of the current display interval.
fn record_favorite_activity(info_traffic: &mut InfoTraffic, address: &IpAddress)
    requires
        old(info_traffic).wf(),
    ensures
        final(info_traffic).wf(),
        final(info_traffic).favorites_last_interval_view() == spec_noted_favorites(
            *old(info_traffic),
            *address,
        ),
        final(info_traffic).connections@ == old(info_traffic).connections@,
        final(info_traffic).addresses_resolved@ == old(info_traffic).addresses_resolved@,
        final(info_traffic).addresses_waiting_resolution@ == old(info_traffic).addresses_waiting_resolution@,
        final(info_traffic).hosts@ == old(info_traffic).hosts@,
        final(info_traffic).favorite_hosts@ == old(info_traffic).favorite_hosts@,
        InfoTraffic::same_totals(*old(info_traffic), *final(info_traffic)),
        final(info_traffic).session_id == old(info_traffic).session_id,
{
    let ghost pre = *info_traffic;
    if let Some(j) = find_resolved(&info_traffic.addresses_resolved, address) {
        let host = info_traffic.addresses_resolved[j].1.1.duplicate();
        if has_host(&info_traffic.favorite_hosts, &host) {
            if !has_host(&info_traffic.favorites_last_interval, &host) {
                info_traffic.favorites_last_interval.push(host);
                proof {
                    lemma_host_set_push(pre.favorites_last_interval@, pre.addresses_resolved@[
                        j as int].1.1);
                    lemma_hosts_distinct_push(pre.favorites_last_interval@, pre.addresses_resolved@[
                        j as int].1.1);
                    lemma_resolved_hosts_frame(pre, *info_traffic);
                }
            } else {
                proof {
                    lemma_host_set_noop(pre.favorites_last_interval@, host@);
                }
            }
        }
    }
}

/// Applies one packet's analyzed record to the shared connection map: updates
/// the entry for its key or inserts a fresh one, and returns a copy of the
/// entry after the update.
///
/// For a key seen for the first time, the traffic direction is computed from
/// the interface address list passed in, which the caller reads from the
/// device at this moment; the direction is then fixed for the life of the
/// key. After the update, where the entry's remote address is already
/// resolved to a favorite host, that host is recorded among the favorites of
/// the current display interval.
#[allow(clippy::too_many_arguments)]
pub fn modify_or_insert_in_map(
    info_traffic: &mut InfoTraffic,
    key: &AddressPortPair,
    my_interface_addresses: &Vec<InterfaceAddress>,
    mac_addresses: (Option<String>, Option<String>),
    icmp_type: IcmpType,
    exchanged_bytes: u128,
    application_protocol: AppProtocol,
    now: i64,
) -> (r: InfoAddressPortPair)
    requires
        old(info_traffic).wf(),
        spec_apply_fits(old(info_traffic).conns_view(), *key, icmp_type, exchanged_bytes, now),
    ensures
        final(info_traffic).wf(),
        final(info_traffic).conns_view() == old(info_traffic).conns_view().insert(
            *key,
            spec_updated_conn(
                old(info_traffic).conns_view(),
                *key,
                view_of_opt_string(mac_addresses.0),
                view_of_opt_string(mac_addresses.1),
                icmp_type,
                exchanged_bytes,
                application_protocol,
                spec_traffic_direction(
                    key.address1,
                    key.address2,
                    key.port1,
                    key.port2,
                    my_interface_addresses@,
                ),
                now,
            ),
        ),
        old(info_traffic).conns_view().contains_key(*key) ==> final(info_traffic).conns_view()[*key].traffic_direction == old(info_traffic).conns_view()[*key].traffic_direction,
        r@ == final(info_traffic).conns_view()[*key],
        r.wf(),
        final(info_traffic).favorites_last_interval_view() == spec_noted_favorites(
            *old(info_traffic),
            spec_address_to_lookup(*key, final(info_traffic).conns_view()[*key].traffic_direction),
        ),
        final(info_traffic).addresses_resolved@ == old(info_traffic).addresses_resolved@,
        final(info_traffic).addresses_waiting_resolution@ == old(info_traffic).addresses_waiting_resolution@,
        final(info_traffic).hosts@ == old(info_traffic).hosts@,
        final(info_traffic).favorite_hosts@ == old(info_traffic).favorite_hosts@,
        InfoTraffic::same_totals(*old(info_traffic), *final(info_traffic)),
        final(info_traffic).session_id == old(info_traffic).session_id,
{
    let ghost pre = *info_traffic;
    let ghost dir_if_new = spec_traffic_direction(
        key.address1,
        key.address2,
        key.port1,
        key.port2,
        my_interface_addresses@,
    );
    let ghost target = spec_updated_conn(
        pre.conns_view(),
        *key,
        view_of_opt_string(mac_addresses.0),
        view_of_opt_string(mac_addresses.1),
        icmp_type,
        exchanged_bytes,
        application_protocol,
        dir_if_new,
        now,
    );
    let mut traffic_direction = TrafficDirection::default();
    let existing = find_connection(&info_traffic.connections, key);
    if existing.is_none() {
        // first occurrence of the key: fix its direction now, from the
        // device's current address list
        traffic_direction = get_traffic_direction(
            &key.address1,
            &key.address2,
            key.port1,
            key.port2,
            my_interface_addresses,
        );
    }
    let new_info: InfoAddressPortPair;
    match existing {
        Some(i) => {
            let mut entry = info_traffic.connections[i].1.snapshot();
            proof {
                assert(entry@ == pre.conns_view()[*key]);
                assert(entry.wf());
            }
            entry.transmitted_bytes = entry.transmitted_bytes + exchanged_bytes;
            entry.transmitted_packets = entry.transmitted_packets + 1;
            entry.final_timestamp = now;
            if key.protocol == Protocol::ICMP {
                bump_icmp(&mut entry.icmp_types, icmp_type);
            }
            proof {
                assert(entry@ == target);
                assert(entry.wf());
                assert(key.protocol != Protocol::ICMP ==> entry.icmp_types@.len() == 0);
            }
            new_info = entry.snapshot();
            info_traffic.connections[i] = (*key, entry);
            proof {
                let ghost ms = pre.connections@.map_values(
                    |p: (AddressPortPair, InfoAddressPortPair)| (p.0, p.1@),
                );
                assert(info_traffic.connections@.map_values(
                    |p: (AddressPortPair, InfoAddressPortPair)| (p.0, p.1@),
                ) =~= ms.update(i as int, (*key, target)));
                lemma_map_of_update(ms, i as int, *key, target);
                lemma_unique_update(ms, i as int, *key, target);
            }
        },
        None => {
            let icmp_types: Vec<(IcmpType, u128)> = if key.protocol == Protocol::ICMP {
                vec![(icmp_type, 1u128)]
            } else {
                Vec::new()
            };
            let entry = InfoAddressPortPair {
                mac_address1: mac_addresses.0,
                mac_address2: mac_addresses.1,
                transmitted_bytes: exchanged_bytes,
                transmitted_packets: 1,
                initial_timestamp: now,
                final_timestamp: now,
                app_protocol: application_protocol,
                traffic_direction,
                icmp_types,
            };
            proof {
                if key.protocol == Protocol::ICMP {
                    assert(entry.icmp_types@ =~= Seq::<(IcmpType, u128)>::empty().push(
                        (icmp_type, 1u128),
                    ));
                    lemma_map_of_push(Seq::<(IcmpType, u128)>::empty(), icmp_type, 1u128);
                }
                assert(entry@ == target);
                assert(entry.wf());
                assert(key.protocol != Protocol::ICMP ==> entry.icmp_types@.len() == 0);
            }
            new_info = entry.snapshot();
            info_traffic.connections.push((*key, entry));
            proof {
                let ghost ms = pre.connections@.map_values(
                    |p: (AddressPortPair, InfoAddressPortPair)| (p.0, p.1@),
                );
                assert(info_traffic.connections@.map_values(
                    |p: (AddressPortPair, InfoAddressPortPair)| (p.0, p.1@),
                ) =~= ms.push((*key, target)));
                lemma_map_of_dom(ms, *key);
                lemma_map_of_push(ms, *key, target);
                lemma_unique_push(ms, *key, target);
            }
        },
    }
    proof {
        assert(info_traffic.conns_view() == pre.conns_view().insert(*key, target));
        lemma_resolved_hosts_frame(pre, *info_traffic);
        assert forall|j: int|
            0 <= j < info_traffic.connections@.len() implies (
        #[trigger] info_traffic.connections@[j]).1.wf() && (info_traffic.connections@[j].0.protocol
            != Protocol::ICMP ==> info_traffic.connections@[j].1.icmp_types@.len() == 0) by {
            if j < pre.connections@.len() && info_traffic.connections@[j] == pre.connections@[j] {
                assert(pre.connections@[j].1.wf());
            }
        }
        assert(info_traffic.wf());
    }
    let address_to_lookup = get_address_to_lookup(key, new_info.traffic_direction);
    record_favorite_activity(info_traffic, &address_to_lookup);
    new_info
}


/// Whether one packet's data can be attributed to its address without a
/// counter leaving its machine range.
pub open spec fn spec_account_fits(t: InfoTraffic, a: IpAddress, bytes: u128) -> bool {
    if t.resolved_view().contains_key(a) {
        t.hosts_view().contains_key(t.resolved_view()[a].1) ==> {
            let d = t.hosts_view()[t.resolved_view()[a].1].data_info;
            d.transmitted_bytes + bytes <= u128::MAX && d.transmitted_packets + 1 <= u128::MAX
        }
    } else if t.pending_view().contains_key(a) {
        let d = t.pending_view()[a];
        d.transmitted_bytes + bytes <= u128::MAX && d.transmitted_packets + 1 <= u128::MAX
    } else {
        true
    }
}

/// A traffic amount grown by one packet of the given size.
pub open spec fn spec_grown(d: DataInfo, bytes: u128) -> DataInfo {
    DataInfo {
        transmitted_bytes: (d.transmitted_bytes + bytes) as u128,
        transmitted_packets: (d.transmitted_packets + 1) as u128,
    }
}

/// Attributes one packet's data to a connection endpoint address: to the
/// statistics of its host where the address is already resolved, else to the
/// pending-resolution bucket for the address, which is created if absent.
/// Returns true exactly when the address was seen for the first time, so
/// that the caller dispatches a resolution for it.
pub fn register_exchanged_data(
    info_traffic: &mut InfoTraffic,
    address: &IpAddress,
    exchanged_bytes: u128,
) -> (needs_resolution: bool)
    requires
        old(info_traffic).wf(),
        spec_account_fits(*old(info_traffic), *address, exchanged_bytes),
    ensures
        final(info_traffic).wf(),
        needs_resolution == (!old(info_traffic).resolved_view().contains_key(*address) && !old(
            info_traffic,
        ).pending_view().contains_key(*address)),
        old(info_traffic).resolved_view().contains_key(*address) ==> {
            let hv = old(info_traffic).resolved_view()[*address].1;
            &&& final(info_traffic).hosts_view() == old(info_traffic).hosts_view().insert(
                hv,
                DataInfoHost {
                    data_info: spec_grown(
                        old(info_traffic).hosts_view()[hv].data_info,
                        exchanged_bytes,
                    ),
                    ..old(info_traffic).hosts_view()[hv]
                },
            )
            &&& final(info_traffic).addresses_waiting_resolution@ == old(
                info_traffic,
            ).addresses_waiting_resolution@
        },
        !old(info_traffic).resolved_view().contains_key(*address) ==> {
            &&& final(info_traffic).hosts@ == old(info_traffic).hosts@
            &&& final(info_traffic).pending_view() == old(info_traffic).pending_view().insert(
                *address,
                if old(info_traffic).pending_view().contains_key(*address) {
                    spec_grown(old(info_traffic).pending_view()[*address], exchanged_bytes)
                } else {
                    DataInfo { transmitted_bytes: exchanged_bytes, transmitted_packets: 1 }
                },
            )
        },
        final(info_traffic).connections@ == old(info_traffic).connections@,
        final(info_traffic).addresses_resolved@ == old(info_traffic).addresses_resolved@,
        final(info_traffic).favorite_hosts@ == old(info_traffic).favorite_hosts@,
        final(info_traffic).favorites_last_interval@ == old(info_traffic).favorites_last_interval@,
        InfoTraffic::same_totals(*old(info_traffic), *final(info_traffic)),
        final(info_traffic).session_id == old(info_traffic).session_id,
{
    let ghost pre = *info_traffic;
    if let Some(j) = find_resolved(&info_traffic.addresses_resolved, address) {
        let host = info_traffic.addresses_resolved[j].1.1.duplicate();
        match find_host(&info_traffic.hosts, &host) {
            Some(i) => {
                let cur = info_traffic.hosts[i].1;
                let upd = DataInfoHost {
                    data_info: DataInfo {
                        transmitted_bytes: cur.data_info.transmitted_bytes + exchanged_bytes,
                        transmitted_packets: cur.data_info.transmitted_packets + 1,
                    },
                    ..cur
                };
                let owner = info_traffic.hosts[i].0.duplicate();
                info_traffic.hosts[i] = (owner, upd);
                proof {
                    let ghost ms = pre.hosts@.map_values(|p: (Host, DataInfoHost)| (p.0@, p.1));
                    assert(info_traffic.hosts@.map_values(|p: (Host, DataInfoHost)| (p.0@, p.1))
                        =~= ms.update(i as int, (host@, upd)));
                    lemma_map_of_update(ms, i as int, host@, upd);
                    lemma_unique_update(ms, i as int, host@, upd);
                    assert forall|a: IpAddress| #[trigger]
                        info_traffic.resolved_view().contains_key(a) implies info_traffic
                        .hosts_view().contains_key(info_traffic.resolved_view()[a].1) by {
                        assert(pre.resolved_view().contains_key(a));
                        assert(pre.hosts_view().contains_key(pre.resolved_view()[a].1));
                    }
                }
                false
            },
            None => {
                // unreachable: a resolved address always has its host in the
                // host map
                proof {
                    assert(false);
                }
                false
            },
        }
    } else {
        match find_pending(&info_traffic.addresses_waiting_resolution, address) {
            Some(i) => {
                let cur = info_traffic.addresses_waiting_resolution[i].1;
                let upd = DataInfo {
                    transmitted_bytes: cur.transmitted_bytes + exchanged_bytes,
                    transmitted_packets: cur.transmitted_packets + 1,
                };
                info_traffic.addresses_waiting_resolution[i] = (*address, upd);
                proof {
                    lemma_map_of_update(
                        pre.addresses_waiting_resolution@,
                        i as int,
                        *address,
                        upd,
                    );
                    lemma_unique_update(
                        pre.addresses_waiting_resolution@,
                        i as int,
                        *address,
                        upd,
                    );
                    lemma_resolved_hosts_frame(pre, *info_traffic);
                }
                false
            },
            None => {
                info_traffic.addresses_waiting_resolution.push(
                    (*address, DataInfo { transmitted_bytes: exchanged_bytes, transmitted_packets: 1 }),
                );
                proof {
                    lemma_map_of_dom(pre.addresses_waiting_resolution@, *address);
                    lemma_map_of_push(
                        pre.addresses_waiting_resolution@,
                        *address,
                        DataInfo { transmitted_bytes: exchanged_bytes, transmitted_packets: 1 },
                    );
                    lemma_unique_push(
                        pre.addresses_waiting_resolution@,
                        *address,
                        DataInfo { transmitted_bytes: exchanged_bytes, transmitted_packets: 1 },
                    );
                    lemma_resolved_hosts_frame(pre, *info_traffic);
                }
                true
            },
        }
    }
}

impl InfoTraffic {
    /// Counts one recorded packet in the session's running totals, on the
    /// side its direction names.
    pub fn register_totals(&mut self, traffic_direction: TrafficDirection, exchanged_bytes: u128)
        requires
            old(self).wf(),
            old(self).all_packets + 1 <= u128::MAX,
            old(self).all_bytes + exchanged_bytes <= u128::MAX,
            traffic_direction == TrafficDirection::Outgoing ==> old(self).tot_sent_packets + 1
                <= u128::MAX && old(self).tot_sent_bytes + exchanged_bytes <= u128::MAX,
            traffic_direction == TrafficDirection::Incoming ==> old(self).tot_received_packets + 1
                <= u128::MAX && old(self).tot_received_bytes + exchanged_bytes <= u128::MAX,
        ensures
            final(self).wf(),
            final(self).all_packets == old(self).all_packets + 1,
            final(self).all_bytes == old(self).all_bytes + exchanged_bytes,
            traffic_direction == TrafficDirection::Outgoing ==> final(self).tot_sent_packets == old(
                self,
            ).tot_sent_packets + 1 && final(self).tot_sent_bytes == old(self).tot_sent_bytes
                + exchanged_bytes && final(self).tot_received_packets == old(
                self,
            ).tot_received_packets && final(self).tot_received_bytes == old(self).tot_received_bytes,
            traffic_direction == TrafficDirection::Incoming ==> final(self).tot_received_packets
                == old(self).tot_received_packets + 1 && final(self).tot_received_bytes == old(
                self,
            ).tot_received_bytes + exchanged_bytes && final(self).tot_sent_packets == old(
                self,
            ).tot_sent_packets && final(self).tot_sent_bytes == old(self).tot_sent_bytes,
            final(self).connections@ == old(self).connections@,
            final(self).addresses_resolved@ == old(self).addresses_resolved@,
            final(self).addresses_waiting_resolution@ == old(self).addresses_waiting_resolution@,
            final(self).hosts@ == old(self).hosts@,
            final(self).favorite_hosts@ == old(self).favorite_hosts@,
            final(self).favorites_last_interval@ == old(self).favorites_last_interval@,
            final(self).session_id == old(self).session_id,
    {
        let ghost pre = *self;
        self.all_packets = self.all_packets + 1;
        self.all_bytes = self.all_bytes + exchanged_bytes;
        match traffic_direction {
            TrafficDirection::Outgoing => {
                self.tot_sent_packets = self.tot_sent_packets + 1;
                self.tot_sent_bytes = self.tot_sent_bytes + exchanged_bytes;
            },
            TrafficDirection::Incoming => {
                self.tot_received_packets = self.tot_received_packets + 1;
                self.tot_received_bytes = self.tot_received_bytes + exchanged_bytes;
            },
        }
        proof {
            lemma_resolved_hosts_frame(pre, *self);
        }
    }
}

/// One packet of a replayed connection history: what the capture loop hands
/// to the connection map for it, including the direction that would be
/// computed from the interface address list current at that moment.
pub ghost struct PacketData {
    pub mac_address1: Option<Seq<char>>,
    pub mac_address2: Option<Seq<char>>,
    pub icmp_type: IcmpType,
    pub bytes: u128,
    pub app_protocol: AppProtocol,
    pub dir_if_new: TrafficDirection,
    pub now: i64,
}

/// The connection map after applying a sequence of packets, all for one key,
/// in order.
pub open spec fn spec_replay(
    conns: Map<AddressPortPair, ConnStats>,
    k: AddressPortPair,
    pkts: Seq<PacketData>,
) -> Map<AddressPortPair, ConnStats>
    decreases pkts.len(),
{
    if pkts.len() == 0 {
        conns
    } else {
        let m = spec_replay(conns, k, pkts.drop_last());
        let p = pkts.last();
        m.insert(
            k,
            spec_updated_conn(
                m,
                k,
                p.mac_address1,
                p.mac_address2,
                p.icmp_type,
                p.bytes,
                p.app_protocol,
                p.dir_if_new,
                p.now,
            ),
        )
    }
}

/// One more packet extends a replayed history by exactly one update of the
/// kind that applying a packet to the map performs.
pub proof fn lemma_replay_step(
    conns: Map<AddressPortPair, ConnStats>,
    k: AddressPortPair,
    pkts: Seq<PacketData>,
    p: PacketData,
)
    ensures
        spec_replay(conns, k, pkts.push(p)) == spec_replay(conns, k, pkts).insert(
            k,
            spec_updated_conn(
                spec_replay(conns, k, pkts),
                k,
                p.mac_address1,
                p.mac_address2,
                p.icmp_type,
                p.bytes,
                p.app_protocol,
                p.dir_if_new,
                p.now,
            ),
        ),
{
    assert(pkts.push(p).drop_last() =~= pkts);
    assert(pkts.push(p).last() == p);
}

/// The bytes carried by a sequence of packets, in all.
pub open spec fn spec_total_bytes(pkts: Seq<PacketData>) -> int
    decreases pkts.len(),
{
    if pkts.len() == 0 {
        0
    } else {
        spec_total_bytes(pkts.drop_last()) + pkts.last().bytes
    }
}

/// The key's byte counter before any packet of the replay.
pub open spec fn spec_base_bytes(conns: Map<AddressPortPair, ConnStats>, k: AddressPortPair) -> int {
    if conns.contains_key(k) {
        conns[k].transmitted_bytes as int
    } else {
        0
    }
}

/// The key's packet counter before any packet of the replay.
pub open spec fn spec_base_packets(
    conns: Map<AddressPortPair, ConnStats>,
    k: AddressPortPair,
) -> int {
    if conns.contains_key(k) {
        conns[k].transmitted_packets as int
    } else {
        0
    }
}

/// Applying N packets with one key to the connection map grows the key's
/// packet counter by exactly N and its byte counter by exactly the sum of
/// their sizes, and leaves its final timestamp at the last packet's; the
/// entry's traffic direction, application protocol, MAC addresses and
/// initial timestamp are those fixed when the key was first seen, whatever
/// direction the later packets would have computed; and no other key's entry
/// moves.
pub proof fn lemma_repeated_application(
    conns: Map<AddressPortPair, ConnStats>,
    k: AddressPortPair,
    pkts: Seq<PacketData>,
)
    requires
        pkts.len() > 0,
        spec_base_bytes(conns, k) + spec_total_bytes(pkts) <= u128::MAX,
        spec_base_packets(conns, k) + pkts.len() <= u128::MAX,
    ensures
        spec_replay(conns, k, pkts).contains_key(k),
        spec_replay(conns, k, pkts)[k].transmitted_packets == spec_base_packets(conns, k)
            + pkts.len(),
        spec_replay(conns, k, pkts)[k].transmitted_bytes == spec_base_bytes(conns, k)
            + spec_total_bytes(pkts),
        spec_replay(conns, k, pkts)[k].final_timestamp == pkts.last().now,
        spec_replay(conns, k, pkts)[k].initial_timestamp == if conns.contains_key(k) {
            conns[k].initial_timestamp
        } else {
            pkts[0].now
        },
        spec_replay(conns, k, pkts)[k].traffic_direction == if conns.contains_key(k) {
            conns[k].traffic_direction
        } else {
            pkts[0].dir_if_new
        },
        spec_replay(conns, k, pkts)[k].app_protocol == if conns.contains_key(k) {
            conns[k].app_protocol
        } else {
            pkts[0].app_protocol
        },
        spec_replay(conns, k, pkts)[k].mac_address1 == if conns.contains_key(k) {
            conns[k].mac_address1
        } else {
            pkts[0].mac_address1
        },
        spec_replay(conns, k, pkts)[k].mac_address2 == if conns.contains_key(k) {
            conns[k].mac_address2
        } else {
            pkts[0].mac_address2
        },
        forall|k2: AddressPortPair|
            k2 != k ==> #[trigger] spec_replay(conns, k, pkts).contains_key(k2)
                == conns.contains_key(k2) && (conns.contains_key(k2) ==> spec_replay(
                conns,
                k,
                pkts,
            )[k2] == conns[k2]),
    decreases pkts.len(),
{
    if pkts.len() == 1 {
        assert(pkts.drop_last().len() == 0);
        assert(spec_total_bytes(pkts) == pkts.last().bytes);
        assert(pkts.last() == pkts[0]);
    } else {
        lemma_repeated_application(conns, k, pkts.drop_last());
        assert(pkts.drop_last()[0] == pkts[0]);
        assert(spec_total_bytes(pkts.drop_last()) >= 0) by {
            lemma_total_bytes_nonneg(pkts.drop_last());
        }
    }
}

/// The byte total of a packet sequence is never negative.
proof fn lemma_total_bytes_nonneg(pkts: Seq<PacketData>)
    ensures
        spec_total_bytes(pkts) >= 0,
    decreases pkts.len(),
{
    if pkts.len() > 0 {
        lemma_total_bytes_nonneg(pkts.drop_last());
    }
}

} // verus!
