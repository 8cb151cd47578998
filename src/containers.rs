//! Container listing and inspection models, and the plan for creating a
//! container with an optional port mapping.

use vstd::prelude::*;
use crate::error::{CommandError, ErrorKind, describe, described};
use crate::text::{
    decimal, digits_value, is_digit, join_with_spaces, joined, lemma_trimmed_has_no_leading_separator,
    render_decimal, trim_leading_separators, trim_separators, views,
};
use crate::types::{Container, ContainerState, state_label_spec};

verus! {

/// Everything the runtime reports of one container, as plain values.
#[derive(Debug, Clone)]
pub struct ContainerDetails {
    pub id: Option<String>,
    pub name: Option<String>,
    pub image: Option<String>,
    pub created: Option<String>,
    pub state: Option<String>,
    pub status: Option<String>,
    pub networks: Option<Vec<String>>,
    pub ip_addresses: Option<Vec<String>>,
    pub volumes: Option<Vec<String>>,
    pub ports: Option<Vec<String>>,
    pub env: Option<Vec<String>>,
    pub command: Option<String>,
}

/// One entry of the runtime's container listing, as received.
#[derive(Debug)]
pub struct RawContainerSummary {
    pub names: Option<Vec<String>>,
    pub state: Option<ContainerState>,
    pub status: Option<String>,
    /// The host address of each published port, where the runtime gave one.
    pub port_ips: Option<Vec<Option<String>>>,
}

/// A mount of an inspected container, as received.
#[derive(Debug)]
pub struct RawMount {
    pub source: Option<String>,
    pub destination: Option<String>,
}

/// A network attached to an inspected container, as received.
#[derive(Debug)]
pub struct RawNetwork {
    pub name: String,
    pub ip_address: Option<String>,
}

/// The runtime's answer to a container inspection, as received.
#[derive(Debug)]
pub struct RawContainerInspect {
    pub id: Option<String>,
    pub name: Option<String>,
    pub image: Option<String>,
    pub created: Option<String>,
    pub state: Option<ContainerState>,
    /// Attached networks in the runtime's iteration order.
    pub networks: Option<Vec<RawNetwork>>,
    /// Published port specifications such as `80/tcp`.
    pub port_keys: Option<Vec<String>>,
    pub mounts: Option<Vec<RawMount>>,
    pub env: Option<Vec<String>>,
    pub command: Option<Vec<String>>,
}

/// The values that are present, in order.
pub open spec fn present(s: Seq<Option<String>>) -> Seq<String>
    decreases s.len(),
{
    if s.len() == 0 {
        Seq::empty()
    } else {
        let rest = present(s.drop_last());
        match s.last() {
            Some(x) => rest.push(x),
            None => rest,
        }
    }
}

/// Both are absent, or both are present with the same strings.
pub open spec fn same_strings(a: Option<Vec<String>>, b: Option<Vec<String>>) -> bool {
    (a is Some <==> b is Some) && (a is Some ==> a->0@ == b->0@)
}

/// `c` is the listing entry for `raw`.
pub open spec fn summary_fits(raw: RawContainerSummary, c: Container) -> bool {
    &&& (c.name is Some <==> (raw.names is Some && raw.names->0@.len() > 0))
    &&& (c.name is Some ==> c.name->0@ == trim_separators(raw.names->0@[0]@))
    &&& c.status == raw.status
    &&& c.state == raw.state
    &&& (c.ports is Some <==> raw.port_ips is Some)
    &&& (c.ports is Some ==> c.ports->0@ == present(raw.port_ips->0@))
}

/// A mount rendered as `source → destination` (an absent source renders empty).
pub open spec fn volume_line(m: RawMount) -> Seq<char> {
    let source = match m.source {
        Some(s) => s@,
        None => Seq::empty(),
    };
    source + " → "@ + m.destination->0@
}

/// Every mount names its destination.
pub open spec fn mounts_complete(ms: Seq<RawMount>) -> bool {
    forall|i: int| 0 <= i < ms.len() ==> (#[trigger] ms[i]).destination is Some
}

/// `d` holds what `raw` reports.
pub open spec fn details_fit(raw: RawContainerInspect, d: ContainerDetails) -> bool {
    &&& d.id == raw.id
    &&& (d.name is Some <==> raw.name is Some)
    &&& (d.name is Some ==> d.name->0@ == trim_separators(raw.name->0@))
    &&& d.image == raw.image
    &&& d.created == raw.created
    &&& (d.state is Some <==> raw.state is Some)
    &&& (d.state is Some ==> d.state->0@ == state_label_spec(raw.state->0))
    &&& (d.status is Some <==> raw.state is Some)
    &&& (d.status is Some ==> d.status->0@ == state_label_spec(raw.state->0))
    &&& (d.networks is Some <==> raw.networks is Some)
    &&& (d.networks is Some ==> d.networks->0@ == raw.networks->0@.map_values(
        |n: RawNetwork| n.name,
    ))
    &&& (d.ip_addresses is Some <==> raw.networks is Some)
    &&& (d.ip_addresses is Some ==> d.ip_addresses->0@ == present(
        raw.networks->0@.map_values(|n: RawNetwork| n.ip_address),
    ))
    &&& (d.volumes is Some <==> raw.mounts is Some)
    &&& (d.volumes is Some ==> views(d.volumes->0@) == raw.mounts->0@.map_values(
        |m: RawMount| volume_line(m),
    ))
    &&& same_strings(d.ports, raw.port_keys)
    &&& same_strings(d.env, raw.env)
    &&& (d.command is Some <==> raw.command is Some)
    &&& (d.command is Some ==> d.command->0@ == joined(views(raw.command->0@)))
}

fn clone_opt(o: &Option<String>) -> (r: Option<String>)
    ensures
        r == *o,
{
    match o {
        Some(s) => Some(s.clone()),
        None => None,
    }
}

fn clone_strings(v: &Vec<String>) -> (r: Vec<String>)
    ensures
        r@ == v@,
{
    let mut r: Vec<String> = Vec::new();
    let mut i: usize = 0;
    while i < v.len()
        invariant
            i <= v@.len(),
            r@ == v@.take(i as int),
        decreases v@.len() - i,
    {
        r.push(v[i].clone());
        assert(v@.take(i + 1) =~= v@.take(i as int).push(v@[i as int]));
        i += 1;
    }
    assert(v@.take(v@.len() as int) =~= v@);
    r
}

fn clone_opt_strings(o: &Option<Vec<String>>) -> (r: Option<Vec<String>>)
    ensures
        same_strings(r, *o),
{
    match o {
        Some(v) => Some(clone_strings(v)),
        None => None,
    }
}

fn present_values(v: &Vec<Option<String>>) -> (r: Vec<String>)
    ensures
        r@ == present(v@),
{
    let mut r: Vec<String> = Vec::new();
    let mut i: usize = 0;
    while i < v.len()
        invariant
            i <= v@.len(),
            r@ == present(v@.take(i as int)),
        decreases v@.len() - i,
    {
        assert(v@.take(i + 1).drop_last() =~= v@.take(i as int));
        match &v[i] {
            Some(s) => r.push(s.clone()),
            None => {},
        }
        i += 1;
    }
    assert(v@.take(v@.len() as int) =~= v@);
    r
}

/// The listing entry for one container that the runtime reported.
pub fn container_from_summary(raw: &RawContainerSummary) -> (c: Container)
    ensures
        summary_fits(*raw, c),
{
    let name = match &raw.names {
        Some(names) => {
            if names.len() > 0 {
                Some(trim_leading_separators(names[0].as_str()))
            } else {
                None
            }
        },
        None => None,
    };
    let ports = match &raw.port_ips {
        Some(ips) => Some(present_values(ips)),
        None => None,
    };
    Container { name, status: clone_opt(&raw.status), state: raw.state, ports }
}

/// The container listing, one entry per container the runtime reported, in
/// the runtime's order.
pub fn containers_from_summaries(raws: &Vec<RawContainerSummary>) -> (r: Vec<Container>)
    ensures
        r@.len() == raws@.len(),
        forall|i: int| 0 <= i < r@.len() ==> summary_fits(raws@[i], #[trigger] r@[i]),
        forall|i: int|
            0 <= i < r@.len() && (#[trigger] r@[i]).name is Some && r@[i].name->0@.len() > 0
                ==> r@[i].name->0@[0] != '/',
{
    let mut r: Vec<Container> = Vec::new();
    let mut i: usize = 0;
    while i < raws.len()
        invariant
            i <= raws@.len(),
            r@.len() == i,
            forall|k: int| 0 <= k < i ==> summary_fits(raws@[k], #[trigger] r@[k]),
        decreases raws@.len() - i,
    {
        r.push(container_from_summary(&raws[i]));
        i += 1;
    }
    assert forall|i: int|
        0 <= i < r@.len() && (#[trigger] r@[i]).name is Some && r@[i].name->0@.len()
            > 0 implies r@[i].name->0@[0] != '/' by {
        lemma_listed_name_has_no_separator(raws@[i], r@[i]);
    }
    r
}

/// A listed container whose name the runtime supplied carries that name
/// without a leading path separator.
pub proof fn lemma_listed_name_has_no_separator(raw: RawContainerSummary, c: Container)
    requires
        summary_fits(raw, c),
    ensures
        c.name is Some && c.name->0@.len() > 0 ==> c.name->0@[0] != '/',
{
    if raw.names is Some && raw.names->0@.len() > 0 {
        lemma_trimmed_has_no_leading_separator(raw.names->0@[0]@);
    }
}


fn network_names(ns: &Vec<RawNetwork>) -> (r: Vec<String>)
    ensures
        r@ == ns@.map_values(|n: RawNetwork| n.name),
{
    let mut r: Vec<String> = Vec::new();
    let mut i: usize = 0;
    while i < ns.len()
        invariant
            i <= ns@.len(),
            r@ == ns@.take(i as int).map_values(|n: RawNetwork| n.name),
        decreases ns@.len() - i,
    {
        r.push(ns[i].name.clone());
        assert(ns@.take(i + 1).map_values(|n: RawNetwork| n.name) =~= ns@.take(
            i as int,
        ).map_values(|n: RawNetwork| n.name).push(ns@[i as int].name));
        i += 1;
    }
    assert(ns@.take(ns@.len() as int) =~= ns@);
    r
}

fn network_addresses(ns: &Vec<RawNetwork>) -> (r: Vec<String>)
    ensures
        r@ == present(ns@.map_values(|n: RawNetwork| n.ip_address)),
{
    let ghost ips = ns@.map_values(|n: RawNetwork| n.ip_address);
    let mut r: Vec<String> = Vec::new();
    let mut i: usize = 0;
    while i < ns.len()
        invariant
            i <= ns@.len(),
            ips == ns@.map_values(|n: RawNetwork| n.ip_address),
            r@ == present(ips.take(i as int)),
        decreases ns@.len() - i,
    {
        assert(ips.take(i + 1).drop_last() =~= ips.take(i as int));
        match &ns[i].ip_address {
            Some(s) => r.push(s.clone()),
            None => {},
        }
        i += 1;
    }
    assert(ips.take(ns@.len() as int) =~= ips);
    r
}

/// The volume lines of the mounts, or `None` where a mount lacks its destination.
fn volume_lines(ms: &Vec<RawMount>) -> (r: Option<Vec<String>>)
    ensures
        r is Some <==> mounts_complete(ms@),
        r is Some ==> views(r->0@) == ms@.map_values(|m: RawMount| volume_line(m)),
{
    let mut r: Vec<String> = Vec::new();
    let mut i: usize = 0;
    while i < ms.len()
        invariant
            i <= ms@.len(),
            forall|k: int| 0 <= k < i ==> (#[trigger] ms@[k]).destination is Some,
            views(r@) == ms@.take(i as int).map_values(|m: RawMount| volume_line(m)),
        decreases ms@.len() - i,
    {
        let m = &ms[i];
        match &m.destination {
            None => {
                return None;
            },
            Some(dest) => {
                let mut line = match &m.source {
                    Some(src) => src.clone(),
                    None => String::new(),
                };
                line.append(" → ");
                line.append(dest.as_str());
                assert(line@ == volume_line(ms@[i as int]));
                let ghost before = r@;
                r.push(line);
                assert(views(r@) =~= views(before).push(line@));
                assert(ms@.take(i + 1).map_values(|m: RawMount| volume_line(m)) =~= ms@.take(
                    i as int,
                ).map_values(|m: RawMount| volume_line(m)).push(volume_line(ms@[i as int])));
            },
        }
        i += 1;
    }
    assert(ms@.take(ms@.len() as int) =~= ms@);
    Some(r)
}

/// The details of an inspected container. Fails with a runtime error where
/// a mount lacks its destination; every other absent field stays absent.
pub fn details_from_inspect(target: &str, raw: &RawContainerInspect) -> (r: Result<
    ContainerDetails,
    CommandError,
>)
    ensures
        r is Err <==> (raw.mounts is Some && !mounts_complete(raw.mounts->0@)),
        r is Ok ==> details_fit(*raw, r->Ok_0),
        r is Err ==> r->Err_0.kind_spec() == ErrorKind::RuntimeError,
        r is Err ==> r->Err_0.message_view() == described(
            "inspect container"@,
            target@,
            "mount without destination"@,
        ),
{
    let volumes = match &raw.mounts {
        Some(ms) => match volume_lines(ms) {
            Some(lines) => Some(lines),
            None => {
                return Err(
                    CommandError::RuntimeError(
                        describe("inspect container", target, "mount without destination"),
                    ),
                );
            },
        },
        None => None,
    };
    let name = match &raw.name {
        Some(n) => Some(trim_leading_separators(n.as_str())),
        None => None,
    };
    let state = match &raw.state {
        Some(s) => Some(String::from_str(s.label())),
        None => None,
    };
    let status = match &raw.state {
        Some(s) => Some(String::from_str(s.label())),
        None => None,
    };
    let (networks, ip_addresses) = match &raw.networks {
        Some(ns) => (Some(network_names(ns)), Some(network_addresses(ns))),
        None => (None, None),
    };
    let command = match &raw.command {
        Some(args) => Some(join_with_spaces(args)),
        None => None,
    };
    Ok(
        ContainerDetails {
            id: clone_opt(&raw.id),
            name,
            image: clone_opt(&raw.image),
            created: clone_opt(&raw.created),
            state,
            status,
            networks,
            ip_addresses,
            volumes,
            ports: clone_opt_strings(&raw.port_keys),
            env: clone_opt_strings(&raw.env),
            command,
        },
    )
}

/// An inspection that reports nothing maps to details with every field
/// unset.
pub proof fn lemma_empty_inspection_maps_to_unset(raw: RawContainerInspect, d: ContainerDetails)
    requires
        raw.id is None && raw.name is None && raw.image is None && raw.created is None,
        raw.state is None && raw.networks is None && raw.port_keys is None,
        raw.mounts is None && raw.env is None && raw.command is None,
        details_fit(raw, d),
    ensures
        d.id is None && d.name is None && d.image is None && d.created is None,
        d.state is None && d.status is None && d.networks is None && d.ip_addresses is None,
        d.volumes is None && d.ports is None && d.env is None && d.command is None,
{
}

/// A listing entry that reports nothing maps to an entry with every field
/// unset.
pub proof fn lemma_empty_summary_maps_to_unset(raw: RawContainerSummary, c: Container)
    requires
        raw.names is None && raw.state is None && raw.status is None && raw.port_ips is None,
        summary_fits(raw, c),
    ensures
        c.name is None && c.state is None && c.status is None && c.ports is None,
{
}


/// A host port bound to a container port.
#[derive(PartialEq, Eq, Structural, Clone, Copy, Debug)]
pub struct PortMapping {
    pub host_port: u16,
    pub container_port: u16,
}

/// `t` is a decimal port number in `1..=65535` whose value is `p`.
pub open spec fn port_text(t: Seq<char>, p: nat) -> bool {
    &&& t.len() > 0
    &&& forall|i: int| 0 <= i < t.len() ==> is_digit(#[trigger] t[i])
    &&& digits_value(t) == p
    &&& 1 <= p <= 65535
}

/// `s` reads `HOST:CONTAINER`, two port numbers around one colon.
pub open spec fn mapping_text(s: Seq<char>, host: nat, container: nat) -> bool {
    exists|i: int|
        0 <= i < s.len() && s[i] == ':' && port_text(s.subrange(0, i), host) && #[trigger] port_text(
            s.subrange(i + 1, s.len() as int),
            container,
        )
}

fn parse_port(s: &str, from: usize, to: usize) -> (r: Option<u16>)
    requires
        from <= to <= s@.len(),
    ensures
        r is Some ==> port_text(s@.subrange(from as int, to as int), r->0 as nat),
        r is None ==> forall|p: nat| !port_text(s@.subrange(from as int, to as int), p),
{
    let mut val: u32 = 0;
    let mut over = false;
    let mut i: usize = from;
    assert(s@.subrange(from as int, from as int) =~= Seq::<char>::empty());
    while i < to
        invariant
            from <= i <= to <= s@.len(),
            forall|k: int| from <= k < i ==> is_digit(#[trigger] s@[k]),
            !over ==> val as nat == digits_value(s@.subrange(from as int, i as int)) && val
                <= 65535,
            over ==> digits_value(s@.subrange(from as int, i as int)) > 65535,
        decreases to - i,
    {
        let c = s.get_char(i);
        if !('0' <= c && c <= '9') {
            assert(!is_digit(s@.subrange(from as int, to as int)[i - from]));
            return None;
        }
        let d: u32 = (c as u32) - ('0' as u32);
        let ghost prev = s@.subrange(from as int, i as int);
        let ghost next = s@.subrange(from as int, i + 1);
        assert(next.drop_last() =~= prev);
        assert(digits_value(next) == digits_value(prev) * 10 + d);
        if over {
            assert(digits_value(next) > 65535) by (nonlinear_arith)
                requires
                    digits_value(next) == digits_value(prev) * 10 + d,
                    digits_value(prev) > 65535,
            ;
        } else {
            let nv = val * 10 + d;
            if nv > 65535 {
                over = true;
            } else {
                val = nv;
            }
        }
        i += 1;
    }
    proof {
        let t = s@.subrange(from as int, to as int);
        assert forall|k: int| 0 <= k < t.len() implies is_digit(#[trigger] t[k]) by {
            assert(t[k] == s@[from + k]);
        }
    }
    if from == to || over || val == 0 {
        None
    } else {
        Some(val as u16)
    }
}

/// Reads `HOST:CONTAINER`. Anything else is a validation error.
pub fn parse_port_mapping(text: &str) -> (r: Result<PortMapping, CommandError>)
    ensures
        r is Ok ==> mapping_text(
            text@,
            r->Ok_0.host_port as nat,
            r->Ok_0.container_port as nat,
        ),
        r is Err ==> forall|h: nat, c: nat| !mapping_text(text@, h, c),
        r is Err ==> r->Err_0.kind_spec() == ErrorKind::ValidationError,
{
    let len = text.unicode_len();
    let mut k: usize = 0;
    while k < len && text.get_char(k) != ':'
        invariant
            k <= len,
            len == text@.len(),
            forall|j: int| 0 <= j < k ==> text@[j] != ':',
        decreases len - k,
    {
        k += 1;
    }
    let host = if k < len {
        parse_port(text, 0, k)
    } else {
        None
    };
    let container = if k < len {
        parse_port(text, k + 1, len)
    } else {
        None
    };
    match (host, container) {
        (Some(h), Some(c)) => Ok(PortMapping { host_port: h, container_port: c }),
        _ => {
            proof {
                assert forall|h: nat, c: nat| !mapping_text(text@, h, c) by {
                    if mapping_text(text@, h, c) {
                        let i = choose|i: int|
                            0 <= i < text@.len() && text@[i] == ':' && port_text(
                                text@.subrange(0, i),
                                h,
                            ) && #[trigger] port_text(
                                text@.subrange(i + 1, text@.len() as int),
                                c,
                            );
                        if i > k {
                            assert(text@.subrange(0, i)[k as int] == ':');
                            assert(!is_digit(text@.subrange(0, i)[k as int]));
                        }
                        assert(i == k);
                    }
                }
            }
            Err(
                CommandError::ValidationError(
                    describe("parse port mapping", text, "expected HOST:CONTAINER"),
                ),
            )
        },
    }
}

/// How a container port is published: the exposed port key (`80/tcp`)
/// bound to a host port on a host address.
#[derive(Debug)]
pub struct PortBinding {
    pub container_port_key: String,
    pub host_ip: String,
    pub host_port: String,
}

/// What to ask the runtime for when creating a container.
#[derive(Debug)]
pub struct CreatePlan {
    pub image: String,
    /// The single published port, if a mapping was given.
    pub port: Option<PortBinding>,
}

/// `b` publishes container port `m.container_port` over TCP on host port
/// `m.host_port` on all host interfaces.
pub open spec fn binding_fits(m: PortMapping, b: PortBinding) -> bool {
    &&& b.container_port_key@ == decimal(m.container_port as nat) + "/tcp"@
    &&& b.host_ip@ == "0.0.0.0"@
    &&& b.host_port@ == decimal(m.host_port as nat)
}

/// The binding that publishes a mapping on all host interfaces.
pub fn binding_for(m: PortMapping) -> (b: PortBinding)
    ensures
        binding_fits(m, b),
{
    let mut key = render_decimal(m.container_port);
    key.append("/tcp");
    PortBinding {
        container_port_key: key,
        host_ip: String::from_str("0.0.0.0"),
        host_port: render_decimal(m.host_port),
    }
}

/// The plan for creating (and then starting) a container from `image`,
/// publishing one port where `port_mapping` is given. A mapping that does
/// not read `HOST:CONTAINER` is rejected, not ignored.
pub fn plan_container(image: &str, port_mapping: Option<&str>) -> (r: Result<
    CreatePlan,
    CommandError,
>)
    ensures
        r is Ok ==> r->Ok_0.image@ == image@,
        port_mapping is None ==> r is Ok && r->Ok_0.port is None,
        port_mapping is Some ==> (r is Ok <==> exists|h: nat, c: nat|
            mapping_text(port_mapping->0@, h, c)),
        port_mapping is Some && r is Ok ==> r->Ok_0.port is Some && exists|m: PortMapping|
            mapping_text(port_mapping->0@, m.host_port as nat, m.container_port as nat)
                && #[trigger] binding_fits(m, r->Ok_0.port->0),
        r is Err ==> r->Err_0.kind_spec() == ErrorKind::ValidationError,
{
    match port_mapping {
        None => Ok(CreatePlan { image: String::from_str(image), port: None }),
        Some(text) => match parse_port_mapping(text) {
            Ok(m) => {
                let b = binding_for(m);
                let plan = CreatePlan { image: String::from_str(image), port: Some(b) };
                assert(binding_fits(m, plan.port->0));
                Ok(plan)
            },
            Err(e) => Err(e),
        },
    }
}

} // verus!
