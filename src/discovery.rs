use vstd::prelude::*;

use crate::config::modbus_id;

verus! {

/// An endpoint that accepted a connection during a scan.
#[derive(Clone, Debug)]
pub struct DiscoveredDevice {
    pub address: String,
    pub port: u16,
    pub protocol: String,
    pub reachable: bool,
}

/// One (address, port) pair to probe.
#[derive(Clone, Debug)]
pub struct ProbeTarget {
    pub host: String,
    pub port: u16,
}

/// Every pair of the address by port matrix, addresses outermost, each in
/// the order given.
pub open spec fn plan(hosts: Seq<Seq<char>>, ports: Seq<u16>) -> Seq<(Seq<char>, u16)>
    decreases hosts.len(),
{
    if hosts.len() == 0 {
        Seq::empty()
    } else {
        plan(hosts.drop_last(), ports) + row(hosts.last(), ports)
    }
}

/// The pairs of one address with every port.
pub open spec fn row(host: Seq<char>, ports: Seq<u16>) -> Seq<(Seq<char>, u16)> {
    ports.map_values(|p: u16| (host, p))
}

/// The plain view of a list of probe targets.
pub open spec fn targets_view(ts: Seq<ProbeTarget>) -> Seq<(Seq<char>, u16)> {
    ts.map_values(|t: ProbeTarget| (t.host@, t.port))
}

/// The plain view of a list of strings.
pub open spec fn strings_view(ss: Seq<String>) -> Seq<Seq<char>> {
    ss.map_values(|s: String| s@)
}

/// The devices found by a scan: the successful probes, in order.
pub open spec fn found(probes: Seq<Option<DiscoveredDevice>>) -> Seq<DiscoveredDevice>
    decreases probes.len(),
{
    if probes.len() == 0 {
        Seq::empty()
    } else {
        let rest = found(probes.drop_last());
        match probes.last() {
            Some(d) => rest.push(d),
            None => rest,
        }
    }
}

/// The targets and ports scanned when a request names none: the local
/// host, on the usual Modbus port and the simulator ports.
pub fn default_scan_targets() -> (r: (Vec<String>, Vec<u16>))
    ensures
        strings_view(r.0@) == seq!["127.0.0.1"@],
        r.1@ == seq![502u16, 5020, 5021, 5022, 5023, 5024, 5025],
{
    let targets = vec![String::from_str("127.0.0.1")];
    let ports: Vec<u16> = vec![502, 5020, 5021, 5022, 5023, 5024, 5025];
    assert(strings_view(targets@) =~= seq!["127.0.0.1"@]);
    assert(ports@ =~= seq![502u16, 5020, 5021, 5022, 5023, 5024, 5025]);
    (targets, ports)
}

/// The targets and ports of a scan request, each replaced by the default
/// one where the request names none.
pub fn scan_inputs(targets: Option<Vec<String>>, ports: Option<Vec<u16>>) -> (r: (Vec<String>, Vec<u16>))
    ensures
        strings_view(r.0@) == (match targets {
            Some(t) => strings_view(t@),
            None => seq!["127.0.0.1"@],
        }),
        r.1@ == (match ports {
            Some(p) => p@,
            None => seq![502u16, 5020, 5021, 5022, 5023, 5024, 5025],
        }),
{
    let (default_targets, default_ports) = default_scan_targets();
    let t = match targets {
        Some(t) => t,
        None => default_targets,
    };
    let p = match ports {
        Some(p) => p,
        None => default_ports,
    };
    (t, p)
}

/// The probes of a scan of `hosts` on `ports`: one per pair.
pub fn probe_plan(hosts: &Vec<String>, ports: &Vec<u16>) -> (r: Vec<ProbeTarget>)
    ensures
        targets_view(r@) == plan(strings_view(hosts@), ports@),
{
    let mut r: Vec<ProbeTarget> = Vec::new();
    let mut i: usize = 0;
    while i < hosts.len()
        invariant
            i <= hosts@.len(),
            targets_view(r@) == plan(strings_view(hosts@).take(i as int), ports@),
        decreases hosts@.len() - i,
    {
        let ghost before = targets_view(r@);
        let mut j: usize = 0;
        while j < ports.len()
            invariant
                i < hosts@.len(),
                j <= ports@.len(),
                targets_view(r@) == before + row(hosts@[i as int]@, ports@.take(j as int)),
            decreases ports@.len() - j,
        {
            let ghost prev = r@;
            r.push(ProbeTarget { host: hosts[i].clone(), port: ports[j] });
            proof {
                assert(targets_view(r@) =~= targets_view(prev).push((hosts@[i as int]@, ports@[j as int])));
                assert(row(hosts@[i as int]@, ports@.take(j + 1)) =~= row(hosts@[i as int]@, ports@.take(j as int)).push(
                    (hosts@[i as int]@, ports@[j as int]),
                ));
                assert(targets_view(r@) =~= before + row(hosts@[i as int]@, ports@.take(j + 1)));
            }
            j = j + 1;
        }
        proof {
            let hv = strings_view(hosts@);
            assert(ports@.take(ports@.len() as int) =~= ports@);
            assert(hv.take(i + 1).drop_last() =~= hv.take(i as int));
            assert(hv.take(i + 1).last() == hosts@[i as int]@);
        }
        i = i + 1;
    }
    proof {
        assert(strings_view(hosts@).take(hosts@.len() as int) =~= strings_view(hosts@));
    }
    r
}

/// The entry for an endpoint at `address` and `port` that accepted a
/// connection: presumed to speak Modbus.
pub fn reachable_device(address: String, port: u16) -> (d: DiscoveredDevice)
    ensures
        d.address@ == address@,
        d.port == port,
        d.protocol@ == modbus_id(),
        d.reachable,
{
    DiscoveredDevice { address, port, protocol: String::from_str("modbus"), reachable: true }
}

/// Collects the successful probes of a scan, in order.
pub fn collect_found(probes: Vec<Option<DiscoveredDevice>>) -> (r: Vec<DiscoveredDevice>)
    ensures
        r@ == found(probes@),
{
    let mut r: Vec<DiscoveredDevice> = Vec::new();
    let mut i: usize = 0;
    let n = probes.len();
    let mut rest = probes;
    while i < n
        invariant
            n == probes@.len(),
            i <= n,
            rest@ == probes@.skip(i as int),
            r@ == found(probes@.take(i as int)),
        decreases n - i,
    {
        let p = rest.remove(0);
        proof {
            assert(rest@ =~= probes@.skip(i + 1));
            assert(p == probes@[i as int]);
            assert(probes@.take(i + 1).drop_last() =~= probes@.take(i as int));
        }
        match p {
            Some(d) => r.push(d),
            None => {},
        }
        i = i + 1;
    }
    proof {
        assert(probes@.take(n as int) =~= probes@);
    }
    r
}

/// When exactly one probe of a scan succeeds, the scan finds exactly that
/// one device.
pub proof fn lemma_single_success(probes: Seq<Option<DiscoveredDevice>>, k: int)
    requires
        0 <= k < probes.len(),
        probes[k] is Some,
        forall|i: int| 0 <= i < probes.len() && i != k ==> probes[i] is None,
    ensures
        found(probes) == seq![probes[k]->Some_0],
    decreases probes.len(),
{
    if k == probes.len() - 1 {
        lemma_none_found(probes.drop_last());
        assert(found(probes) =~= seq![probes[k]->Some_0]);
    } else {
        lemma_single_success(probes.drop_last(), k);
    }
}

/// A scan whose probes all failed finds nothing.
pub proof fn lemma_none_found(probes: Seq<Option<DiscoveredDevice>>)
    requires
        forall|i: int| 0 <= i < probes.len() ==> probes[i] is None,
    ensures
        found(probes).len() == 0,
    decreases probes.len(),
{
    if probes.len() > 0 {
        lemma_none_found(probes.drop_last());
    }
}

} // verus!
