//! Resolution of a remote address into a host identity, and the merge of the
//! result into the shared aggregate state.
//!
//! The reverse-DNS lookup runs off the hot packet path and before any lock
//! is taken; the merge itself is a pure state transition, verified for every
//! possible lookup outcome. Country and autonomous-system data come from the
//! caller's lookup databases as plain values. A merge tagged with a stale
//! session id leaves the state untouched.

use vstd::prelude::*;

use crate::address::{InterfaceAddress, IpAddress};
use crate::assoc::{
    lemma_map_of_dom, lemma_map_of_push, lemma_map_of_remove, lemma_map_of_update,
    lemma_unique_push, lemma_unique_remove, lemma_unique_update,
};
use crate::classify::{
    get_traffic_type, is_local_connection, is_loopback, spec_is_local, spec_is_loopback,
    spec_traffic_type,
};
use crate::protocols::{TrafficDirection, TrafficType};
use crate::stats::{Asn, AsnView, DataInfo, DataInfoHost, Host, HostView};
use crate::text::spec_ip_text;
use crate::traffic::{
    find_host, find_pending, find_resolved, get_address_to_lookup, has_host, lemma_host_set_noop,
    lemma_host_set_push, lemma_hosts_distinct_push, spec_address_to_lookup, InfoTraffic,
};
use crate::stats::AddressPortPair;

verus! {

/// The number of dot characters in a text.
pub open spec fn dots_in(s: Seq<char>) -> int
    decreases s.len(),
{
    if s.len() == 0 {
        0
    } else {
        dots_in(s.drop_last()) + if s.last() == '.' {
            1int
        } else {
            0int
        }
    }
}

/// The domain kept from a reverse-DNS name: the name itself where it holds
/// at most one dot, else its shortest suffix that starts after a dot and
/// holds exactly one more — the last two labels.
pub open spec fn spec_domain_of(s: Seq<char>) -> Seq<char>
    decreases s.len(),
{
    if dots_in(s) <= 1 || s.len() == 0 {
        s
    } else {
        spec_domain_of(s.subrange(1, s.len() as int))
    }
}

/// Counts the dots in the characters of `s` from position `from` on.
fn count_dots(s: &str, from: usize, n: usize) -> (r: usize)
    requires
        from <= n,
        n == s@.len(),
    ensures
        r == dots_in(s@.subrange(from as int, n as int)),
{
    let mut cnt: usize = 0;
    let mut j = from;
    while j < n
        invariant
            from <= j <= n,
            n == s@.len(),
            cnt <= j - from,
            cnt == dots_in(s@.subrange(from as int, j as int)),
        decreases n - j,
    {
        let c = s.get_char(j);
        proof {
            let pfx = s@.subrange(from as int, j as int);
            let nxt = s@.subrange(from as int, j + 1);
            assert(nxt.drop_last() =~= pfx);
            assert(nxt.last() == s@[j as int]);
        }
        if c == '.' {
            cnt = cnt + 1;
        }
        j = j + 1;
    }
    cnt
}

/// Keeps the last two labels of a reverse-DNS name (the name itself where it
/// has at most two).
pub fn domain_suffix(name: &String) -> (r: String)
    ensures
        r@ == spec_domain_of(name@),
{
    let s = name.as_str();
    let n = s.unicode_len();
    proof {
        assert(s@.subrange(0, n as int) =~= name@);
    }
    let mut start: usize = 0;
    while count_dots(s, start, n) > 1
        invariant
            start <= n,
            n == s@.len(),
            spec_domain_of(s@.subrange(start as int, n as int)) == spec_domain_of(name@),
        decreases n - start,
    {
        proof {
            let cur = s@.subrange(start as int, n as int);
            assert(cur.len() > 0) by {
                if cur.len() == 0 {
                    assert(dots_in(cur) == 0);
                }
            }
            assert(cur.subrange(1, cur.len() as int) =~= s@.subrange(start + 1, n as int));
        }
        start = start + 1;
    }
    let r = s.substring_char(start, n).to_owned();
    proof {
        let cur = s@.subrange(start as int, n as int);
        assert(spec_domain_of(cur) == cur);
    }
    r
}

/// The reverse-DNS name kept for an address: the lookup's answer where it
/// gave a non-empty one, the address's own text otherwise.
pub open spec fn spec_resolved_name(lookup: Option<Seq<char>>, addr_text: Seq<char>) -> Seq<char> {
    match lookup {
        Option::Some(s) => if s.len() == 0 {
            addr_text
        } else {
            s
        },
        Option::None => addr_text,
    }
}

/// The domain derived from a kept reverse-DNS name: the name itself where
/// the lookup fell back to the address's text, its last two labels
/// otherwise.
pub open spec fn spec_domain_from_r_dns(r_dns: Seq<char>, addr_text: Seq<char>) -> Seq<char> {
    if r_dns == addr_text {
        r_dns
    } else {
        spec_domain_of(r_dns)
    }
}

/// Derives the host domain from a reverse-DNS name.
pub fn get_domain_from_r_dns(r_dns: &String, addr_text: &String) -> (r: String)
    ensures
        r@ == spec_domain_from_r_dns(r_dns@, addr_text@),
{
    if *r_dns == *addr_text {
        r_dns.clone()
    } else {
        domain_suffix(r_dns)
    }
}

/// Relies on `dns_lookup::lookup_addr`: the reverse-DNS name of an address,
/// where the resolver answers; nothing is promised of the outcome.
#[verifier::external_body]
fn lookup_address_name(addr_text: &String) -> (r: Option<String>) {
    match addr_text.parse() {
        Ok(ip) => dns_lookup::lookup_addr(&ip).ok(),
        Err(_) => None,
    }
}

/// Everything the resolution of one address yields: the reverse-DNS name
/// kept for it, the host identity built from it, and the address's
/// classification under the interface address list current at resolution
/// time.
pub struct ResolvedHost {
    pub r_dns: String,
    pub host: Host,
    pub is_loopback: bool,
    pub is_local: bool,
    pub traffic_type: TrafficType,
}

/// The view of a resolution's outcome.
pub ghost struct ResolutionView {
    pub r_dns: Seq<char>,
    pub host: HostView,
    pub is_loopback: bool,
    pub is_local: bool,
    pub traffic_type: TrafficType,
}

impl View for ResolvedHost {
    type V = ResolutionView;

    open spec fn view(&self) -> ResolutionView {
        ResolutionView {
            r_dns: self.r_dns@,
            host: self.host@,
            is_loopback: self.is_loopback,
            is_local: self.is_local,
            traffic_type: self.traffic_type,
        }
    }
}

/// The resolution outcome determined by an address, a lookup answer, the
/// country and autonomous-system data, and the interface snapshot.
pub open spec fn spec_resolution(
    a: IpAddress,
    lookup: Option<Seq<char>>,
    country: Seq<char>,
    asn: AsnView,
    ifaces: Seq<InterfaceAddress>,
    dir: TrafficDirection,
) -> ResolutionView {
    let name = spec_resolved_name(lookup, spec_ip_text(a));
    ResolutionView {
        r_dns: name,
        host: HostView {
            domain: spec_domain_from_r_dns(name, spec_ip_text(a)),
            asn: asn,
            country: country,
        },
        is_loopback: spec_is_loopback(a),
        is_local: spec_is_local(a, ifaces),
        traffic_type: spec_traffic_type(a, ifaces, dir),
    }
}

/// Builds the resolved host for an address from the lookup's answer, the
/// country and autonomous-system data, and the current interface snapshot.
pub fn build_resolved_host(
    address: &IpAddress,
    lookup: Option<String>,
    country: String,
    asn: Asn,
    my_interface_addresses: &Vec<InterfaceAddress>,
    traffic_direction: TrafficDirection,
) -> (r: ResolvedHost)
    ensures
        r@ == spec_resolution(
            *address,
            match lookup {
                Option::Some(s) => Option::Some(s@),
                Option::None => Option::<Seq<char>>::None,
            },
            country@,
            asn@,
            my_interface_addresses@,
            traffic_direction,
        ),
{
    let addr_text = address.to_text();
    let r_dns: String = match lookup {
        Some(result) => {
            if result.as_str().unicode_len() == 0 {
                addr_text.clone()
            } else {
                result
            }
        },
        None => addr_text.clone(),
    };
    let domain = get_domain_from_r_dns(&r_dns, &addr_text);
    let traffic_type = get_traffic_type(address, my_interface_addresses, traffic_direction);
    let loopback = is_loopback(address);
    let local = is_local_connection(address, my_interface_addresses);
    ResolvedHost {
        r_dns,
        host: Host { domain, asn, country },
        is_loopback: loopback,
        is_local: local,
        traffic_type,
    }
}


/// The traffic recorded for an address while its resolution was pending;
/// zero where none was.
pub open spec fn spec_pending_of(t: InfoTraffic, a: IpAddress) -> DataInfo {
    if t.pending_view().contains_key(a) {
        t.pending_view()[a]
    } else {
        DataInfo { transmitted_bytes: 0, transmitted_packets: 0 }
    }
}

/// The sum of two traffic amounts.
pub open spec fn spec_data_sum(a: DataInfo, b: DataInfo) -> DataInfo {
    DataInfo {
        transmitted_bytes: (a.transmitted_bytes + b.transmitted_bytes) as u128,
        transmitted_packets: (a.transmitted_packets + b.transmitted_packets) as u128,
    }
}

/// The host entry a merge leaves behind: a known host keeps its flags and
/// grows its counters by the pending amount; a new host starts with the
/// pending amount, the resolution's classification, and no favorite mark.
pub open spec fn spec_merged_host_entry(
    t: InfoTraffic,
    a: IpAddress,
    res: ResolutionView,
) -> DataInfoHost {
    let other = spec_pending_of(t, a);
    if t.hosts_view().contains_key(res.host) {
        DataInfoHost {
            data_info: spec_data_sum(t.hosts_view()[res.host].data_info, other),
            ..t.hosts_view()[res.host]
        }
    } else {
        DataInfoHost {
            data_info: other,
            is_favorite: false,
            is_loopback: res.is_loopback,
            is_local: res.is_local,
            traffic_type: res.traffic_type,
        }
    }
}

/// How merging one address's resolution transforms the state: the pending
/// bucket is retired, the address is recorded as resolved, the host map is
/// updated or extended, and a favorite host is noted in the current display
/// interval; nothing else moves.
pub open spec fn spec_merged(
    pre: InfoTraffic,
    post: InfoTraffic,
    a: IpAddress,
    res: ResolutionView,
) -> bool {
    &&& post.pending_view() == pre.pending_view().remove(a)
    &&& post.resolved_view() == pre.resolved_view().insert(a, (res.r_dns, res.host))
    &&& post.hosts_view() == pre.hosts_view().insert(res.host, spec_merged_host_entry(pre, a, res))
    &&& post.favorites_last_interval_view() == if pre.favorites_view().contains(res.host) {
        pre.favorites_last_interval_view().insert(res.host)
    } else {
        pre.favorites_last_interval_view()
    }
    &&& post.favorites_view() == pre.favorites_view()
    &&& post.connections@ == pre.connections@
    &&& InfoTraffic::same_totals(pre, post)
    &&& post.session_id == pre.session_id
}

/// Whether a merge for the address and host can be applied without a counter
/// leaving its machine range.
pub open spec fn spec_merge_fits(t: InfoTraffic, a: IpAddress, hv: HostView) -> bool {
    t.hosts_view().contains_key(hv) ==> {
        let d = t.hosts_view()[hv].data_info;
        let p = spec_pending_of(t, a);
        d.transmitted_bytes + p.transmitted_bytes <= u128::MAX && d.transmitted_packets
            + p.transmitted_packets <= u128::MAX
    }
}

/// Merges one address's resolution into the state, under the caller's lock:
/// retires the pending bucket, records the resolved name and host, updates
/// or creates the host's statistics, and notes the host among the interval's
/// favorites where it is one. A merge tagged with a stale session id leaves
/// the state untouched.
pub fn merge_resolution(
    info_traffic: &mut InfoTraffic,
    session_id: u64,
    address: &IpAddress,
    resolution: ResolvedHost,
)
    requires
        old(info_traffic).wf(),
        session_id == old(info_traffic).session_id ==> spec_merge_fits(
            *old(info_traffic),
            *address,
            resolution.host@,
        ),
    ensures
        final(info_traffic).wf(),
        session_id != old(info_traffic).session_id ==> *final(info_traffic) == *old(info_traffic),
        session_id == old(info_traffic).session_id ==> spec_merged(
            *old(info_traffic),
            *final(info_traffic),
            *address,
            resolution@,
        ),
{
    if session_id != info_traffic.session_id {
        return ;
    }
    let ghost pre = *info_traffic;
    let ghost res = resolution@;
    let ResolvedHost { r_dns, host, is_loopback, is_local, traffic_type } = resolution;
    // collect the data exchanged under this raw address so far, and remove
    // the address from the collection of addresses waiting for resolution
    let other_data = match find_pending(&info_traffic.addresses_waiting_resolution, address) {
        Some(i) => {
            let entry = info_traffic.addresses_waiting_resolution.remove(i);
            proof {
                lemma_map_of_remove(pre.addresses_waiting_resolution@, i as int);
                lemma_unique_remove(pre.addresses_waiting_resolution@, i as int);
            }
            entry.1
        },
        None => {
            proof {
                assert(pre.pending_view().remove(*address) =~= pre.pending_view());
            }
            DataInfo::none()
        },
    };
    proof {
        assert(other_data == spec_pending_of(pre, *address));
        assert(info_traffic.pending_view() == pre.pending_view().remove(*address));
    }
    // record the newly resolved address
    match find_resolved(&info_traffic.addresses_resolved, address) {
        Some(i) => {
            info_traffic.addresses_resolved[i] = (*address, (r_dns, host.duplicate()));
            proof {
                let ghost ms = pre.addresses_resolved@.map_values(
                    |p: (IpAddress, (String, Host))| (p.0, (p.1.0@, p.1.1@)),
                );
                assert(info_traffic.addresses_resolved@.map_values(
                    |p: (IpAddress, (String, Host))| (p.0, (p.1.0@, p.1.1@)),
                ) =~= ms.update(i as int, (*address, (res.r_dns, res.host))));
                lemma_map_of_update(ms, i as int, *address, (res.r_dns, res.host));
                lemma_unique_update(ms, i as int, *address, (res.r_dns, res.host));
            }
        },
        None => {
            info_traffic.addresses_resolved.push((*address, (r_dns, host.duplicate())));
            proof {
                let ghost ms = pre.addresses_resolved@.map_values(
                    |p: (IpAddress, (String, Host))| (p.0, (p.1.0@, p.1.1@)),
                );
                assert(info_traffic.addresses_resolved@.map_values(
                    |p: (IpAddress, (String, Host))| (p.0, (p.1.0@, p.1.1@)),
                ) =~= ms.push((*address, (res.r_dns, res.host))));
                lemma_map_of_dom(ms, *address);
                lemma_map_of_push(ms, *address, (res.r_dns, res.host));
                lemma_unique_push(ms, *address, (res.r_dns, res.host));
            }
        },
    }
    proof {
        assert(info_traffic.resolved_view() == pre.resolved_view().insert(
            *address,
            (res.r_dns, res.host),
        ));
    }
    let ghost target_entry = spec_merged_host_entry(pre, *address, res);
    // insert the host with the data it exchanged so far, or add that data to
    // an already known host
    match find_host(&info_traffic.hosts, &host) {
        Some(i) => {
            let cur = info_traffic.hosts[i].1;
            let upd = DataInfoHost {
                data_info: DataInfo {
                    transmitted_bytes: cur.data_info.transmitted_bytes
                        + other_data.transmitted_bytes,
                    transmitted_packets: cur.data_info.transmitted_packets
                        + other_data.transmitted_packets,
                },
                ..cur
            };
            let owner = info_traffic.hosts[i].0.duplicate();
            info_traffic.hosts[i] = (owner, upd);
            proof {
                let ghost ms = pre.hosts@.map_values(|p: (Host, DataInfoHost)| (p.0@, p.1));
                assert(info_traffic.hosts@.map_values(|p: (Host, DataInfoHost)| (p.0@, p.1))
                    =~= ms.update(i as int, (res.host, upd)));
                lemma_map_of_update(ms, i as int, res.host, upd);
                lemma_unique_update(ms, i as int, res.host, upd);
                assert(upd == target_entry);
            }
        },
        None => {
            info_traffic.hosts.push(
                (
                    host.duplicate(),
                    DataInfoHost {
                        data_info: other_data,
                        is_favorite: false,
                        is_loopback,
                        is_local,
                        traffic_type,
                    },
                ),
            );
            proof {
                let ghost ms = pre.hosts@.map_values(|p: (Host, DataInfoHost)| (p.0@, p.1));
                assert(info_traffic.hosts@.map_values(|p: (Host, DataInfoHost)| (p.0@, p.1))
                    =~= ms.push((res.host, target_entry)));
                lemma_map_of_dom(ms, res.host);
                lemma_map_of_push(ms, res.host, target_entry);
                lemma_unique_push(ms, res.host, target_entry);
            }
        },
    }
    proof {
        assert(info_traffic.hosts_view() == pre.hosts_view().insert(res.host, target_entry));
    }
    let ghost before_fli = *info_traffic;
    // check whether the newly resolved host is a favorite (possible where the
    // host already existed)
    if has_host(&info_traffic.favorite_hosts, &host) {
        if !has_host(&info_traffic.favorites_last_interval, &host) {
            let dup = host.duplicate();
            let ghost dup_value = dup;
            info_traffic.favorites_last_interval.push(dup);
            proof {
                lemma_host_set_push(before_fli.favorites_last_interval@, dup_value);
                lemma_hosts_distinct_push(before_fli.favorites_last_interval@, dup_value);
            }
        } else {
            proof {
                lemma_host_set_noop(before_fli.favorites_last_interval@, res.host);
            }
        }
    } else {
        proof {
            assert(info_traffic.favorites_last_interval_view() == before_fli.favorites_last_interval_view());
        }
    }
    proof {
        assert forall|a2: IpAddress| #[trigger] info_traffic.resolved_view().contains_key(
            a2,
        ) implies info_traffic.hosts_view().contains_key(info_traffic.resolved_view()[a2].1) by {
            if a2 != *address {
                assert(pre.resolved_view().contains_key(a2));
                assert(pre.hosts_view().contains_key(pre.resolved_view()[a2].1));
            }
        }
        assert(info_traffic.wf());
    }
}


/// Resolves the connection's remote endpoint and merges the result into the
/// state: looks the address's name up (falling back to the address's own
/// text), classifies the address under the current interface snapshot,
/// builds the host from the name's domain and the country and
/// autonomous-system data passed in, and merges. A caller that must not
/// keep the state borrowed while the lookup blocks performs the same steps
/// itself: [`build_resolved_host`] with the resolver's answer, then
/// [`merge_resolution`] under the lock. A stale session id leaves the state
/// untouched; whatever name the resolver answers, the final state is the
/// merge of a resolution outcome for some lookup answer.
pub fn reverse_dns_lookup(
    info_traffic: &mut InfoTraffic,
    session_id: u64,
    key: &AddressPortPair,
    traffic_direction: TrafficDirection,
    my_interface_addresses: &Vec<InterfaceAddress>,
    country: String,
    asn: Asn,
)
    requires
        old(info_traffic).wf(),
        forall|hv: HostView| #[trigger] old(info_traffic).hosts_view().contains_key(hv) ==> {
            let p = spec_pending_of(
                *old(info_traffic),
                spec_address_to_lookup(*key, traffic_direction),
            );
            &&& old(info_traffic).hosts_view()[hv].data_info.transmitted_bytes
                + p.transmitted_bytes <= u128::MAX
            &&& old(info_traffic).hosts_view()[hv].data_info.transmitted_packets
                + p.transmitted_packets <= u128::MAX
        },
    ensures
        final(info_traffic).wf(),
        session_id != old(info_traffic).session_id ==> *final(info_traffic) == *old(info_traffic),
        session_id == old(info_traffic).session_id ==> exists|lookup: Option<Seq<char>>|
            spec_merged(
                *old(info_traffic),
                *final(info_traffic),
                spec_address_to_lookup(*key, traffic_direction),
                spec_resolution(
                    spec_address_to_lookup(*key, traffic_direction),
                    lookup,
                    country@,
                    asn@,
                    my_interface_addresses@,
                    traffic_direction,
                ),
            ),
{
    let address_to_lookup = get_address_to_lookup(key, traffic_direction);
    // perform the reverse-DNS lookup before touching the shared state
    let addr_text = address_to_lookup.to_text();
    let lookup_result = lookup_address_name(&addr_text);
    let ghost lookup_view = match lookup_result {
        Option::Some(ref n) => Option::Some(n@),
        Option::None => Option::<Seq<char>>::None,
    };
    let resolution = build_resolved_host(
        &address_to_lookup,
        lookup_result,
        country,
        asn,
        my_interface_addresses,
        traffic_direction,
    );
    let ghost res = resolution@;
    merge_resolution(info_traffic, session_id, &address_to_lookup, resolution);
    proof {
        if session_id == old(info_traffic).session_id {
            assert(spec_merged(
                *old(info_traffic),
                *info_traffic,
                spec_address_to_lookup(*key, traffic_direction),
                spec_resolution(
                    spec_address_to_lookup(*key, traffic_direction),
                    lookup_view,
                    country@,
                    asn@,
                    my_interface_addresses@,
                    traffic_direction,
                ),
            ));
        }
    }
}

/// Whether one state is the other after a host was marked as favorite: the
/// host joins the favorite set, its entry's flag (where it has one) is set,
/// and the caches are untouched.
pub open spec fn spec_favorite_added(pre: InfoTraffic, post: InfoTraffic, hv: HostView) -> bool {
    &&& post.favorites_view() == pre.favorites_view().insert(hv)
    &&& post.hosts_view() == if pre.hosts_view().contains_key(hv) {
        pre.hosts_view().insert(
            hv,
            DataInfoHost { is_favorite: true, ..pre.hosts_view()[hv] },
        )
    } else {
        pre.hosts_view()
    }
    &&& post.pending_view() == pre.pending_view()
    &&& post.resolved_view() == pre.resolved_view()
    &&& post.favorites_last_interval_view() == pre.favorites_last_interval_view()
}

/// Two distinct addresses resolving to one host identity produce exactly one
/// host entry, whose counters are the sum of both addresses' pending
/// amounts. A favorite mark set on the host between the two resolutions
/// survives the second merge, which also notes the host among the
/// interval's favorites.
pub proof fn lemma_resolution_merge(
    pre: InfoTraffic,
    mid: InfoTraffic,
    mid2: InfoTraffic,
    post: InfoTraffic,
    a1: IpAddress,
    a2: IpAddress,
    r1: ResolutionView,
    r2: ResolutionView,
)
    requires
        a1 != a2,
        r1.host == r2.host,
        !pre.hosts_view().contains_key(r1.host),
        spec_pending_of(pre, a1).transmitted_bytes + spec_pending_of(pre, a2).transmitted_bytes
            <= u128::MAX,
        spec_pending_of(pre, a1).transmitted_packets + spec_pending_of(pre, a2).transmitted_packets
            <= u128::MAX,
        spec_merged(pre, mid, a1, r1),
        spec_favorite_added(mid, mid2, r1.host),
        spec_merged(mid2, post, a2, r2),
    ensures
        post.hosts_view().dom() == pre.hosts_view().dom().insert(r1.host),
        post.hosts_view()[r1.host].data_info.transmitted_bytes == spec_pending_of(
            pre,
            a1,
        ).transmitted_bytes + spec_pending_of(pre, a2).transmitted_bytes,
        post.hosts_view()[r1.host].data_info.transmitted_packets == spec_pending_of(
            pre,
            a1,
        ).transmitted_packets + spec_pending_of(pre, a2).transmitted_packets,
        post.hosts_view()[r1.host].is_favorite,
        post.favorites_last_interval_view().contains(r1.host),
{
    let hv = r1.host;
    assert(mid.hosts_view() == pre.hosts_view().insert(hv, spec_merged_host_entry(pre, a1, r1)));
    assert(mid.hosts_view()[hv].data_info == spec_pending_of(pre, a1));
    assert(mid2.hosts_view()[hv].data_info == spec_pending_of(pre, a1));
    assert(spec_pending_of(mid2, a2) == spec_pending_of(pre, a2)) by {
        assert(mid2.pending_view() == pre.pending_view().remove(a1));
    }
    assert(mid2.favorites_view().contains(hv));
    assert(post.hosts_view()[hv] == spec_merged_host_entry(mid2, a2, r2));
    assert(post.hosts_view().dom() =~= pre.hosts_view().dom().insert(hv));
    assert(post.favorites_last_interval_view() == mid2.favorites_last_interval_view().insert(hv));
}

} // verus!
