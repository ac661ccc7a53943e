use vstd::prelude::*;
use crate::descriptor::{ConfigDescriptor, Direction, EndpointDescriptor, InterfaceDescriptor, TransferType};

verus! {

/// Internal endpoint representation: the configuration, interface and
/// alternate-setting numbers an endpoint was found under, and its
/// address. Immutable once resolved.
#[derive(Debug, Clone, Copy, PartialEq, Eq)]
pub struct Endpoint {
    pub config: u8,
    pub iface: u8,
    pub setting: u8,
    pub address: u8,
}

/// Designates one interface of a configuration by its index (the
/// "channel"), and resolves that interface's bulk endpoints.
#[derive(Debug, Clone, Copy, PartialEq, Eq)]
pub struct InterfaceWrapper {
    pub channel: u8,
}

/// Whether an endpoint descriptor is a bulk endpoint of the given
/// direction: the only kind the protocol may use.
pub open spec fn is_bulk(e: EndpointDescriptor, dir: Direction) -> bool {
    e.transfer_type is Bulk && e.direction == dir
}

/// The `Endpoint` record that resolution builds for endpoint
/// descriptor `e` found under alternate setting `alt` of
/// configuration `config`.
pub open spec fn endpoint_of(config: u8, alt: InterfaceDescriptor, e: EndpointDescriptor) -> Endpoint {
    Endpoint {
        config: config,
        iface: alt.interface_number,
        setting: alt.setting_number,
        address: e.address,
    }
}

/// `a` if it already holds an endpoint, else `b`: how a scan that
/// keeps the first find combines a prior result with a later one.
pub open spec fn or_endpoint(a: Option<Endpoint>, b: Option<Endpoint>) -> Option<Endpoint> {
    if a is Some {
        a
    } else {
        b
    }
}

/// What one endpoint descriptor contributes to the scan: the resolved
/// endpoint if it is bulk of the right direction, nothing otherwise.
pub open spec fn bulk_candidate(config: u8, alt: InterfaceDescriptor, e: EndpointDescriptor, dir: Direction) -> Option<Endpoint> {
    if is_bulk(e, dir) {
        Some(endpoint_of(config, alt, e))
    } else {
        None
    }
}

/// The first bulk endpoint of direction `dir` among the endpoint
/// descriptors `eps` of alternate setting `alt`, in descriptor order.
pub open spec fn first_bulk_of_setting(config: u8, alt: InterfaceDescriptor, eps: Seq<EndpointDescriptor>, dir: Direction) -> Option<Endpoint>
    decreases eps.len(),
{
    if eps.len() == 0 {
        None
    } else if is_bulk(eps[0], dir) {
        Some(endpoint_of(config, alt, eps[0]))
    } else {
        first_bulk_of_setting(config, alt, eps.drop_first(), dir)
    }
}

/// The first bulk endpoint of direction `dir` across the alternate
/// settings `alts` of one interface, scanning each setting's endpoint
/// descriptors in order.
pub open spec fn first_bulk_of_interface(config: u8, alts: Seq<InterfaceDescriptor>, dir: Direction) -> Option<Endpoint>
    decreases alts.len(),
{
    if alts.len() == 0 {
        None
    } else {
        match first_bulk_of_setting(config, alts[0], alts[0].endpoints@, dir) {
            Option::Some(e) => Some(e),
            Option::None => first_bulk_of_interface(config, alts.drop_first(), dir),
        }
    }
}

/// What endpoint resolution returns over configuration `cfg` and
/// interface index `channel`: the first bulk-IN and first bulk-OUT
/// endpoints of that interface, or nothing if the index is out of
/// range or either direction is missing.
pub open spec fn resolved_endpoints(cfg: ConfigDescriptor, channel: int) -> Option<(Endpoint, Endpoint)> {
    if 0 <= channel < cfg.interfaces@.len() {
        let alts = cfg.interfaces@[channel].descriptors@;
        match (first_bulk_of_interface(cfg.number, alts, Direction::In), first_bulk_of_interface(cfg.number, alts, Direction::Out)) {
            (Option::Some(r), Option::Some(w)) => Some((r, w)),
            _ => None,
        }
    } else {
        None
    }
}

/// Alternate setting `i` of interface `channel` of configuration
/// `cfg`.
pub open spec fn setting_at(cfg: ConfigDescriptor, channel: int, i: int) -> InterfaceDescriptor {
    cfg.interfaces@[channel].descriptors@[i]
}

/// Whether position `(i, j)` — endpoint descriptor `j` of alternate
/// setting `i` — on interface `channel` of `cfg` holds a bulk
/// endpoint of direction `dir`.
pub open spec fn bulk_position(cfg: ConfigDescriptor, channel: int, dir: Direction, i: int, j: int) -> bool {
    0 <= i < cfg.interfaces@[channel].descriptors@.len()
        && 0 <= j < setting_at(cfg, channel, i).endpoints@.len()
        && is_bulk(setting_at(cfg, channel, i).endpoints@[j], dir)
}

/// A setting none of whose endpoint descriptors is bulk of direction
/// `dir` contributes nothing to the scan.
proof fn lemma_no_bulk_of_setting(config: u8, alt: InterfaceDescriptor, eps: Seq<EndpointDescriptor>, dir: Direction)
    requires
        forall|j: int| 0 <= j < eps.len() ==> !is_bulk(eps[j], dir),
    ensures
        first_bulk_of_setting(config, alt, eps, dir) is None,
    decreases eps.len(),
{
    if eps.len() > 0 {
        assert(forall|j: int| 0 <= j < eps.drop_first().len() ==> eps.drop_first()[j] == eps[j + 1]);
        lemma_no_bulk_of_setting(config, alt, eps.drop_first(), dir);
    }
}

/// If descriptor `j0` is bulk of direction `dir` and none before it
/// is, the scan of the setting lands exactly on `j0`.
proof fn lemma_bulk_at_setting(config: u8, alt: InterfaceDescriptor, eps: Seq<EndpointDescriptor>, dir: Direction, j0: int)
    requires
        0 <= j0 < eps.len(),
        is_bulk(eps[j0], dir),
        forall|j: int| 0 <= j < j0 ==> !is_bulk(eps[j], dir),
    ensures
        first_bulk_of_setting(config, alt, eps, dir) == Some(endpoint_of(config, alt, eps[j0])),
    decreases j0,
{
    if j0 > 0 {
        assert(forall|j: int| 0 <= j < eps.drop_first().len() ==> eps.drop_first()[j] == eps[j + 1]);
        lemma_bulk_at_setting(config, alt, eps.drop_first(), dir, j0 - 1);
    }
}

/// An interface none of whose settings holds a bulk endpoint of
/// direction `dir` leaves the scan empty-handed.
proof fn lemma_no_bulk_of_interface(config: u8, alts: Seq<InterfaceDescriptor>, dir: Direction)
    requires
        forall|i: int, j: int|
            0 <= i < alts.len() && 0 <= j < alts[i].endpoints@.len() ==> !is_bulk(alts[i].endpoints@[j], dir),
    ensures
        first_bulk_of_interface(config, alts, dir) is None,
    decreases alts.len(),
{
    if alts.len() > 0 {
        lemma_no_bulk_of_setting(config, alts[0], alts[0].endpoints@, dir);
        assert(forall|i: int| 0 <= i < alts.drop_first().len() ==> alts.drop_first()[i] == alts[i + 1]);
        assert forall|i: int, j: int|
            0 <= i < alts.drop_first().len() && 0 <= j < alts.drop_first()[i].endpoints@.len()
            implies !is_bulk(alts.drop_first()[i].endpoints@[j], dir) by {
            assert(alts.drop_first()[i] == alts[i + 1]);
        }
        lemma_no_bulk_of_interface(config, alts.drop_first(), dir);
    }
}

/// If position `(i0, j0)` is bulk of direction `dir` and no position
/// before it (in scan order) is, the scan of the interface lands
/// exactly on `(i0, j0)`.
proof fn lemma_bulk_at_interface(config: u8, alts: Seq<InterfaceDescriptor>, dir: Direction, i0: int, j0: int)
    requires
        0 <= i0 < alts.len(),
        0 <= j0 < alts[i0].endpoints@.len(),
        is_bulk(alts[i0].endpoints@[j0], dir),
        forall|i: int, j: int|
            0 <= i < i0 && 0 <= j < alts[i].endpoints@.len() ==> !is_bulk(alts[i].endpoints@[j], dir),
        forall|j: int| 0 <= j < j0 ==> !is_bulk(alts[i0].endpoints@[j], dir),
    ensures
        first_bulk_of_interface(config, alts, dir) == Some(endpoint_of(config, alts[i0], alts[i0].endpoints@[j0])),
    decreases i0,
{
    if i0 == 0 {
        lemma_bulk_at_setting(config, alts[0], alts[0].endpoints@, dir, j0);
    } else {
        lemma_no_bulk_of_setting(config, alts[0], alts[0].endpoints@, dir);
        assert(forall|i: int| 0 <= i < alts.drop_first().len() ==> alts.drop_first()[i] == alts[i + 1]);
        assert forall|i: int, j: int|
            0 <= i < i0 - 1 && 0 <= j < alts.drop_first()[i].endpoints@.len()
            implies !is_bulk(alts.drop_first()[i].endpoints@[j], dir) by {
            assert(alts.drop_first()[i] == alts[i + 1]);
        }
        lemma_bulk_at_interface(config, alts.drop_first(), dir, i0 - 1, j0);
    }
}

/// Law: over a configuration whose target interface holds exactly one
/// bulk-IN endpoint, at position `(ir, jr)`, and exactly one bulk-OUT
/// endpoint, at position `(iw, jw)`, resolution returns exactly that
/// pair.
pub proof fn lemma_unique_bulk_pair_resolved(cfg: ConfigDescriptor, channel: int, ir: int, jr: int, iw: int, jw: int)
    requires
        0 <= channel < cfg.interfaces@.len(),
        bulk_position(cfg, channel, Direction::In, ir, jr),
        bulk_position(cfg, channel, Direction::Out, iw, jw),
        forall|i: int, j: int| bulk_position(cfg, channel, Direction::In, i, j) ==> i == ir && j == jr,
        forall|i: int, j: int| bulk_position(cfg, channel, Direction::Out, i, j) ==> i == iw && j == jw,
    ensures
        resolved_endpoints(cfg, channel)
            == Some((
                endpoint_of(cfg.number, setting_at(cfg, channel, ir), setting_at(cfg, channel, ir).endpoints@[jr]),
                endpoint_of(cfg.number, setting_at(cfg, channel, iw), setting_at(cfg, channel, iw).endpoints@[jw]),
            )),
{
    let alts = cfg.interfaces@[channel].descriptors@;
    assert forall|i: int, j: int|
        0 <= i < ir && 0 <= j < alts[i].endpoints@.len()
        implies !is_bulk(alts[i].endpoints@[j], Direction::In) by {
        if is_bulk(alts[i].endpoints@[j], Direction::In) {
            assert(bulk_position(cfg, channel, Direction::In, i, j));
        }
    }
    assert forall|j: int| 0 <= j < jr implies !is_bulk(alts[ir].endpoints@[j], Direction::In) by {
        if is_bulk(alts[ir].endpoints@[j], Direction::In) {
            assert(bulk_position(cfg, channel, Direction::In, ir, j));
        }
    }
    lemma_bulk_at_interface(cfg.number, alts, Direction::In, ir, jr);
    assert forall|i: int, j: int|
        0 <= i < iw && 0 <= j < alts[i].endpoints@.len()
        implies !is_bulk(alts[i].endpoints@[j], Direction::Out) by {
        if is_bulk(alts[i].endpoints@[j], Direction::Out) {
            assert(bulk_position(cfg, channel, Direction::Out, i, j));
        }
    }
    assert forall|j: int| 0 <= j < jw implies !is_bulk(alts[iw].endpoints@[j], Direction::Out) by {
        if is_bulk(alts[iw].endpoints@[j], Direction::Out) {
            assert(bulk_position(cfg, channel, Direction::Out, iw, j));
        }
    }
    lemma_bulk_at_interface(cfg.number, alts, Direction::Out, iw, jw);
}

/// Law: a configuration whose target interface holds no bulk endpoint
/// of direction `dir` does not resolve at all — either direction
/// missing leaves the session builder with `EndpointsNotFound`.
pub proof fn lemma_missing_direction_unresolved(cfg: ConfigDescriptor, channel: int, dir: Direction)
    requires
        0 <= channel < cfg.interfaces@.len(),
        forall|i: int, j: int| !bulk_position(cfg, channel, dir, i, j),
    ensures
        resolved_endpoints(cfg, channel) is None,
{
    let alts = cfg.interfaces@[channel].descriptors@;
    assert forall|i: int, j: int|
        0 <= i < alts.len() && 0 <= j < alts[i].endpoints@.len()
        implies !is_bulk(alts[i].endpoints@[j], dir) by {
        assert(!bulk_position(cfg, channel, dir, i, j));
    }
    lemma_no_bulk_of_interface(cfg.number, alts, dir);
}

/// Scanning one more endpoint descriptor extends a first-find scan on
/// the right: the earlier descriptors still win.
proof fn lemma_setting_push(config: u8, alt: InterfaceDescriptor, s: Seq<EndpointDescriptor>, x: EndpointDescriptor, dir: Direction)
    ensures
        first_bulk_of_setting(config, alt, s.push(x), dir)
            == or_endpoint(first_bulk_of_setting(config, alt, s, dir), bulk_candidate(config, alt, x, dir)),
    decreases s.len(),
{
    if s.len() == 0 {
        assert(s.push(x)[0] == x);
        assert(s.push(x).drop_first() =~= s);
    } else {
        assert(s.push(x)[0] == s[0]);
        assert(s.push(x).drop_first() =~= s.drop_first().push(x));
        lemma_setting_push(config, alt, s.drop_first(), x, dir);
    }
}

/// Scanning one more alternate setting extends a first-find scan on
/// the right: the earlier settings still win.
proof fn lemma_interface_push(config: u8, s: Seq<InterfaceDescriptor>, a: InterfaceDescriptor, dir: Direction)
    ensures
        first_bulk_of_interface(config, s.push(a), dir)
            == or_endpoint(
                first_bulk_of_interface(config, s, dir),
                first_bulk_of_setting(config, a, a.endpoints@, dir),
            ),
    decreases s.len(),
{
    if s.len() == 0 {
        assert(s.push(a)[0] == a);
        assert(s.push(a).drop_first() =~= s);
    } else {
        assert(s.push(a)[0] == s[0]);
        assert(s.push(a).drop_first() =~= s.drop_first().push(a));
        lemma_interface_push(config, s.drop_first(), a, dir);
    }
}

impl InterfaceWrapper {
    pub fn new(channel: u8) -> (r: Self)
        ensures
            r.channel == channel,
    {
        InterfaceWrapper { channel }
    }

    /// Resolves the bulk endpoints of the interface this wrapper
    /// designates: returns `(read, write)`, the first bulk-IN and the
    /// first bulk-OUT endpoint found scanning every alternate setting
    /// of the interface in descriptor order, or `None` if the index
    /// is out of range or either direction is missing. A pure scan
    /// over already-retrieved descriptor data; no I/O.
    pub fn get_io_endpoints(&self, config_descriptor: &ConfigDescriptor) -> (r: Option<(Endpoint, Endpoint)>)
        ensures
            r == resolved_endpoints(*config_descriptor, self.channel as int),
    {
        if self.channel as usize >= config_descriptor.interfaces.len() {
            return None;
        }
        let interface = &config_descriptor.interfaces[self.channel as usize];
        let number = config_descriptor.number;

        let mut read: Option<Endpoint> = None;
        let mut write: Option<Endpoint> = None;

        let n = interface.descriptors.len();
        let mut i: usize = 0;
        while i < n
            invariant
                n == interface.descriptors@.len(),
                i <= n,
                number == config_descriptor.number,
                interface.descriptors@ == config_descriptor.interfaces@[self.channel as int].descriptors@,
                self.channel < config_descriptor.interfaces@.len(),
                read == first_bulk_of_interface(number, interface.descriptors@.take(i as int), Direction::In),
                write == first_bulk_of_interface(number, interface.descriptors@.take(i as int), Direction::Out),
            decreases n - i,
        {
            let alt = &interface.descriptors[i];
            let ghost read0 = read;
            let ghost write0 = write;

            let m = alt.endpoints.len();
            let mut j: usize = 0;
            while j < m
                invariant
                    m == alt.endpoints@.len(),
                    j <= m,
                    read == or_endpoint(read0, first_bulk_of_setting(number, *alt, alt.endpoints@.take(j as int), Direction::In)),
                    write == or_endpoint(write0, first_bulk_of_setting(number, *alt, alt.endpoints@.take(j as int), Direction::Out)),
                decreases m - j,
            {
                let e = &alt.endpoints[j];
                proof {
                    assert(alt.endpoints@.take(j + 1) =~= alt.endpoints@.take(j as int).push(alt.endpoints@[j as int]));
                    lemma_setting_push(number, *alt, alt.endpoints@.take(j as int), alt.endpoints@[j as int], Direction::In);
                    lemma_setting_push(number, *alt, alt.endpoints@.take(j as int), alt.endpoints@[j as int], Direction::Out);
                }
                match (e.transfer_type, e.direction) {
                    (TransferType::Bulk, Direction::In) => {
                        if read.is_none() {
                            read = Some(Endpoint {
                                config: number,
                                iface: alt.interface_number,
                                setting: alt.setting_number,
                                address: e.address,
                            });
                        }
                    }
                    (TransferType::Bulk, Direction::Out) => {
                        if write.is_none() {
                            write = Some(Endpoint {
                                config: number,
                                iface: alt.interface_number,
                                setting: alt.setting_number,
                                address: e.address,
                            });
                        }
                    }
                    _ => {}
                }
                j = j + 1;
            }

            proof {
                assert(alt.endpoints@.take(m as int) =~= alt.endpoints@);
                assert(interface.descriptors@.take(i + 1) =~= interface.descriptors@.take(i as int).push(interface.descriptors@[i as int]));
                lemma_interface_push(number, interface.descriptors@.take(i as int), interface.descriptors@[i as int], Direction::In);
                lemma_interface_push(number, interface.descriptors@.take(i as int), interface.descriptors@[i as int], Direction::Out);
            }
            i = i + 1;
        }

        proof {
            assert(interface.descriptors@.take(n as int) =~= interface.descriptors@);
        }
        match (read, write) {
            (Some(read), Some(write)) => Some((read, write)),
            _ => None,
        }
    }
}

} // verus!
