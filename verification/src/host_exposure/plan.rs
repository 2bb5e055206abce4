//! Which host ports a request exposes, and the sidecar that exposes them.

use vstd::prelude::*;

use crate::host_exposure::error::ExposureError;
use crate::request::{defines, ContainerRequest, RequestView, ReuseDirective, HOST_INTERNAL_ALIAS};
use crate::text::{has_prefix, same_text};

verus! {

/// The port on which the sidecar serves SSH.
pub const SSH_PORT: u16 = 22;

/// What it takes to expose the host ports that a request asks for.
#[derive(Debug)]
pub struct HostExposurePlan {
    /// The ports, in increasing order.
    pub requested_ports: Vec<u16>,
    /// The password of the SSH session.
    pub password: String,
    /// The network that the sidecar joins.
    pub network: Option<String>,
    pub ssh_username: &'static str,
    pub ssh_port: u16,
    /// How often a refused connection is tried again.
    pub ssh_max_attempts: u32,
    /// The wait before the second attempt, in milliseconds.
    pub ssh_retry_delay_ms: u64,
    /// The longest wait between two attempts, in milliseconds.
    pub ssh_max_retry_delay_ms: u64,
    pub ssh_image: &'static str,
    pub ssh_tag: &'static str,
}

/// Whether each port is greater than the one before it.
pub open spec fn strictly_increasing(ports: Seq<u16>) -> bool {
    forall|i: int, j: int| 0 <= i < j < ports.len() ==> ports[i] < ports[j]
}

/// Whether `ports` lists the ports of `wanted` in increasing order, each of them once.
pub open spec fn sorted_distinct(ports: Seq<u16>, wanted: Seq<u16>) -> bool {
    &&& strictly_increasing(ports)
    &&& forall|p: u16| ports.contains(p) <==> wanted.contains(p)
}

/// The ports that a request asks for: none where it names none.
pub open spec fn wanted_ports(request: RequestView) -> Seq<u16> {
    match request.host_port_exposures {
        Some(ports) => ports,
        None => Seq::empty(),
    }
}

/// Why the ports that a request asks for cannot be exposed, where they cannot.
pub open spec fn refusal(request: RequestView) -> Option<ExposureError> {
    if wanted_ports(request).contains(0) {
        Some(ExposureError::PortZero)
    } else if wanted_ports(request).contains(SSH_PORT) {
        Some(ExposureError::ReservedPort)
    } else if defines(request.hosts, HOST_INTERNAL_ALIAS@) {
        Some(ExposureError::AliasDefined)
    } else if request.network == Some("host"@) {
        Some(ExposureError::HostNetwork)
    } else if request.network is Some && "container:"@.is_prefix_of(request.network->0) {
        Some(ExposureError::ContainerNetwork)
    } else if request.reuse != ReuseDirective::Never {
        Some(ExposureError::ReusableContainer)
    } else {
        None
    }
}

/// The characters of Crockford's Base32.
pub open spec fn is_base32_digit(c: char) -> bool {
    ||| '0' <= c <= '9'
    ||| 'A' <= c <= 'Z' && c != 'I' && c != 'L' && c != 'O' && c != 'U'
}

/// Whether `s` has the form of a ULID.
pub open spec fn is_ulid(s: Seq<char>) -> bool {
    s.len() == 26 && forall|i: int| 0 <= i < 26 ==> is_base32_digit(#[trigger] s[i])
}

/// `ulid::Ulid::new`, written by `ulid::Ulid::to_string`: a fresh identifier of 26 characters of
/// Crockford's Base32. Which one it is depends on the time and on chance.
#[verifier::external_body]
fn fresh_ulid() -> (res: String)
    ensures
        is_ulid(res@),
{
    ulid::Ulid::new().to_string()
}

/// The password that `ulid` makes.
pub fn password_from_ulid(ulid: &str) -> (res: String)
    ensures
        res@ == "tc-"@ + ulid@,
{
    String::from("tc-").concat(ulid)
}

/// Whether `password` has the form of one that a ULID makes.
pub open spec fn has_password_form(password: Seq<char>) -> bool {
    exists|ulid: Seq<char>| #[trigger] is_ulid(ulid) && password == "tc-"@ + ulid
}

/// Whether `password` is made of a ULID that was drawn for it.
pub closed spec fn is_drawn_password(password: Seq<char>) -> bool {
    exists|ulid: String| #[trigger]
        call_ensures(fresh_ulid, (), ulid) && password == "tc-"@ + ulid@
}

/// Whether `plan` exposes what `request` asks for, whatever its password.
pub open spec fn plans_for(plan: HostExposurePlan, request: RequestView) -> bool {
    &&& sorted_distinct(plan.requested_ports@, wanted_ports(request))
    &&& plan.network is Some <==> request.network is Some
    &&& plan.network matches Some(network) ==> Some(network@) == request.network
    &&& plan.ssh_username@ == "root"@
    &&& plan.ssh_port == SSH_PORT
    &&& plan.ssh_max_attempts == 20
    &&& plan.ssh_retry_delay_ms == 100
    &&& plan.ssh_max_retry_delay_ms == 2000
    &&& plan.ssh_image@ == "testcontainers/sshd"@
    &&& plan.ssh_tag@ == "1.3.0"@
}

/// Puts ports in increasing order and drops repetitions.
pub fn sort_and_dedup(ports: &Vec<u16>) -> (res: Vec<u16>)
    ensures
        sorted_distinct(res@, ports@),
{
    let mut res: Vec<u16> = Vec::new();
    let mut n: usize = 0;
    while n < ports.len()
        invariant
            n <= ports@.len(),
            sorted_distinct(res@, ports@.take(n as int)),
        decreases ports@.len() - n,
    {
        let port: u16 = ports[n];
        let mut at: usize = 0;
        while at < res.len() && res[at] < port
            invariant
                at <= res@.len(),
                forall|i: int| 0 <= i < at ==> res@[i] < port,
            decreases res@.len() - at,
        {
            at = at + 1;
        }
        let ghost before = res@;
        let ghost seen = ports@.take(n as int);
        assert(ports@.take(n + 1) =~= seen.push(port));
        if at < res.len() && res[at] == port {
            assert forall|p: u16| before.contains(p) <==> seen.push(port).contains(p) by {
                lemma_push_contains(seen, port, p);
                if p == port {
                    assert(before[at as int] == p);
                }
            }
        } else {
            res.insert(at, port);
            assert(forall|i: int| at <= i < before.len() ==> port < #[trigger] before[i]);
            assert(res@ == before.insert(at as int, port));
            assert forall|p: u16| res@.contains(p) <==> seen.push(port).contains(p) by {
                lemma_push_contains(seen, port, p);
                lemma_insert_contains(before, at as int, port, p);
            }
        }
        n = n + 1;
    }
    assert(ports@.take(n as int) =~= ports@);
    res
}

proof fn lemma_push_contains(s: Seq<u16>, added: u16, p: u16)
    ensures
        s.push(added).contains(p) <==> s.contains(p) || p == added,
{
    let t = s.push(added);
    assert(t[s.len() as int] == added);
    if s.contains(p) {
        let i = choose|i: int| 0 <= i < s.len() && s[i] == p;
        assert(t[i] == p);
    }
}

proof fn lemma_insert_contains(s: Seq<u16>, at: int, added: u16, p: u16)
    requires
        0 <= at <= s.len(),
    ensures
        s.insert(at, added).contains(p) <==> s.contains(p) || p == added,
{
    let t = s.insert(at, added);
    assert(t[at] == added);
    if s.contains(p) {
        let i = choose|i: int| 0 <= i < s.len() && s[i] == p;
        if i < at {
            assert(t[i] == p);
        } else {
            assert(t[i + 1] == p);
        }
    }
    if t.contains(p) && p != added {
        let i = choose|i: int| 0 <= i < t.len() && t[i] == p;
        if i < at {
            assert(s[i] == p);
        } else {
            assert(s[i - 1] == p);
        }
    }
}

fn contains_port(ports: &Vec<u16>, port: u16) -> (res: bool)
    ensures
        res == ports@.contains(port),
{
    let mut i: usize = 0;
    while i < ports.len()
        invariant
            i <= ports@.len(),
            forall|j: int| 0 <= j < i ==> ports@[j] != port,
        decreases ports@.len() - i,
    {
        if ports[i] == port {
            return true;
        }
        i = i + 1;
    }
    false
}

/// Decides whether and how the host ports that a request asks for are exposed, with the password
/// that `ulid` makes: nothing is to be done where it asks for none.
pub fn plan_with_ulid(request: &ContainerRequest, ulid: &str) -> (res: Result<
    Option<HostExposurePlan>,
    ExposureError,
>)
    ensures
        res matches Ok(None) <==> wanted_ports(request@).len() == 0,
        res matches Err(err) <==> wanted_ports(request@).len() > 0 && refusal(request@) is Some,
        res matches Err(err) ==> refusal(request@) == Some(err),
        res matches Ok(Some(plan)) ==> plans_for(plan, request@) && plan.password@ == "tc-"@
            + ulid@,
{
    let ports = match request.host_port_exposures() {
        Some(ports) => ports,
        None => return Ok(None),
    };
    if ports.len() == 0 {
        return Ok(None);
    }
    let requested_ports = sort_and_dedup(ports);
    if contains_port(&requested_ports, 0) {
        return Err(ExposureError::PortZero);
    }
    if contains_port(&requested_ports, SSH_PORT) {
        return Err(ExposureError::ReservedPort);
    }
    if request.has_host(HOST_INTERNAL_ALIAS) {
        return Err(ExposureError::AliasDefined);
    }
    let network = request.network();
    if let Some(network_name) = &network {
        if same_text(network_name, "host") {
            return Err(ExposureError::HostNetwork);
        }
        if has_prefix(network_name, "container:") {
            return Err(ExposureError::ContainerNetwork);
        }
    }
    if request.reuse() != ReuseDirective::Never {
        return Err(ExposureError::ReusableContainer);
    }
    let password = password_from_ulid(ulid);
    Ok(
        Some(
            HostExposurePlan {
                requested_ports,
                password,
                network,
                ssh_username: "root",
                ssh_port: SSH_PORT,
                ssh_max_attempts: 20,
                ssh_retry_delay_ms: 100,
                ssh_max_retry_delay_ms: 2000,
                ssh_image: "testcontainers/sshd",
                ssh_tag: "1.3.0",
            },
        ),
    )
}

/// Decides whether and how the host ports that a request asks for are exposed, with a fresh
/// password: nothing is to be done where it asks for none.
pub fn prepare_host_exposure(request: &ContainerRequest) -> (res: Result<
    Option<HostExposurePlan>,
    ExposureError,
>)
    ensures
        res matches Ok(None) <==> wanted_ports(request@).len() == 0,
        res matches Err(err) <==> wanted_ports(request@).len() > 0 && refusal(request@) is Some,
        res matches Err(err) ==> refusal(request@) == Some(err),
        res matches Ok(Some(plan)) ==> {
            &&& plans_for(plan, request@)
            &&& is_drawn_password(plan.password@)
            &&& has_password_form(plan.password@)
        },
{
    let ulid = fresh_ulid();
    plan_with_ulid(request, &ulid)
}

/// A plan exposes neither port zero nor the port of the SSH server.
pub proof fn law_planned_ports_are_usable(plan: HostExposurePlan, request: RequestView, i: int)
    requires
        plans_for(plan, request),
        refusal(request) is None,
        0 <= i < plan.requested_ports@.len(),
    ensures
        plan.requested_ports@[i] != 0,
        plan.requested_ports@[i] != SSH_PORT,
        wanted_ports(request).contains(plan.requested_ports@[i]),
{
    assert(plan.requested_ports@.contains(plan.requested_ports@[i]));
}

/// The order and the repetition of ports in a request make no difference: requests for the same
/// ports have the same ports planned.
pub proof fn law_port_order_is_immaterial(
    first: Seq<u16>,
    first_sorted: Seq<u16>,
    second: Seq<u16>,
    second_sorted: Seq<u16>,
)
    requires
        forall|p: u16| first.contains(p) <==> second.contains(p),
        sorted_distinct(first_sorted, first),
        sorted_distinct(second_sorted, second),
    ensures
        first_sorted == second_sorted,
{
    assert forall|p: u16| first_sorted.contains(p) <==> second_sorted.contains(p) by {
        assert(first.contains(p) <==> second.contains(p));
    }
    lemma_increasing_is_unique(first_sorted, second_sorted);
}

proof fn lemma_increasing_is_unique(a: Seq<u16>, b: Seq<u16>)
    requires
        strictly_increasing(a),
        strictly_increasing(b),
        forall|p: u16| a.contains(p) <==> b.contains(p),
    ensures
        a == b,
    decreases a.len() + b.len(),
{
    if a.len() == 0 || b.len() == 0 {
        if a.len() > 0 {
            assert(a.contains(a[0]));
        }
        if b.len() > 0 {
            assert(b.contains(b[0]));
        }
        assert(a =~= b);
    } else {
        assert(a.contains(a.last()));
        assert(b.contains(b.last()));
        let i = choose|i: int| 0 <= i < b.len() && b[i] == a.last();
        let j = choose|j: int| 0 <= j < a.len() && a[j] == b.last();
        assert(a.last() == b.last()) by {
            if i < b.len() - 1 {
                assert(b[i] < b[b.len() - 1]);
            }
            if j < a.len() - 1 {
                assert(a[j] < a[a.len() - 1]);
            }
        }
        let c = a.drop_last();
        let d = b.drop_last();
        assert forall|p: u16| c.contains(p) implies d.contains(p) by {
            let k = choose|k: int| 0 <= k < c.len() && c[k] == p;
            assert(a[k] == p && a[k] < a[a.len() - 1]);
            assert(a.contains(p));
            let m = choose|m: int| 0 <= m < b.len() && b[m] == p;
            assert(d[m] == p);
        }
        assert forall|p: u16| d.contains(p) implies c.contains(p) by {
            let k = choose|k: int| 0 <= k < d.len() && d[k] == p;
            assert(b[k] == p && b[k] < b[b.len() - 1]);
            assert(b.contains(p));
            let m = choose|m: int| 0 <= m < a.len() && a[m] == p;
            assert(c[m] == p);
        }
        lemma_increasing_is_unique(c, d);
        assert(a =~= c.push(a.last()));
        assert(b =~= d.push(b.last()));
    }
}

/// Whether a request asks for host port `p`.
pub open spec fn asks_for(request: RequestView, p: u16) -> bool {
    request.host_port_exposures is Some && request.host_port_exposures->0.contains(p)
}

/// Whether a request asks for any host port.
pub open spec fn asks_for_any(request: RequestView) -> bool {
    request.host_port_exposures is Some && request.host_port_exposures->0.len() > 0
}

/// Whether a request lets the alias of the host stand for something.
pub open spec fn names_the_host(request: RequestView) -> bool {
    exists|i: int|
        0 <= i < request.hosts.len() && (#[trigger] request.hosts[i]).0
            == "host.testcontainers.internal"@
}

/// Whether a request joins the network of another container.
pub open spec fn joins_container(request: RequestView) -> bool {
    request.network is Some && "container:"@.is_prefix_of(request.network->0)
}

/// Whether `plan` holds the requested ports of a request, in increasing order and each once, its
/// network, and what the sidecar is reached with.
pub open spec fn carries_out(plan: HostExposurePlan, request: RequestView) -> bool {
    &&& forall|i: int, j: int|
        0 <= i < j < plan.requested_ports@.len() ==> plan.requested_ports@[i]
            < plan.requested_ports@[j]
    &&& forall|p: u16| plan.requested_ports@.contains(p) <==> asks_for(request, p)
    &&& plan.network is None <==> request.network is None
    &&& plan.network is Some ==> plan.network->0@ == request.network->0
    &&& plan.ssh_username@ == "root"@
    &&& plan.ssh_port == 22
    &&& plan.ssh_max_attempts == 20
    &&& plan.ssh_retry_delay_ms == 100
    &&& plan.ssh_max_retry_delay_ms == 2000
    &&& plan.ssh_image@ == "testcontainers/sshd"@
    &&& plan.ssh_tag@ == "1.3.0"@
}

/// Whether `res` does a request justice: without ports there is nothing to do, each refusal comes
/// exactly where its cause holds and none that goes before it, and any other request gets a plan
/// with just its ports.
pub open spec fn is_just(
    request: RequestView,
    res: Result<Option<HostExposurePlan>, ExposureError>,
) -> bool {
    &&& (res matches Ok(None)) <==> !asks_for_any(request)
    &&& (res matches Err(ExposureError::PortZero)) <==> asks_for(request, 0)
    &&& (res matches Err(ExposureError::ReservedPort)) <==> asks_for(request, 22) && !asks_for(
        request,
        0,
    )
    &&& (res matches Err(ExposureError::AliasDefined)) <==> {
        &&& asks_for_any(request) && !asks_for(request, 0) && !asks_for(request, 22)
        &&& names_the_host(request)
    }
    &&& (res matches Err(ExposureError::HostNetwork)) <==> {
        &&& asks_for_any(request) && !asks_for(request, 0) && !asks_for(request, 22)
        &&& !names_the_host(request)
        &&& request.network == Some("host"@)
    }
    &&& (res matches Err(ExposureError::ContainerNetwork)) <==> {
        &&& asks_for_any(request) && !asks_for(request, 0) && !asks_for(request, 22)
        &&& !names_the_host(request)
        &&& request.network != Some("host"@)
        &&& joins_container(request)
    }
    &&& (res matches Err(ExposureError::ReusableContainer)) <==> {
        &&& asks_for_any(request) && !asks_for(request, 0) && !asks_for(request, 22)
        &&& !names_the_host(request)
        &&& request.network != Some("host"@)
        &&& !joins_container(request)
        &&& request.reuse != ReuseDirective::Never
    }
    &&& res is Ok <==> !asks_for_any(request) || {
        &&& !asks_for(request, 0) && !asks_for(request, 22)
        &&& !names_the_host(request)
        &&& request.network != Some("host"@)
        &&& !joins_container(request)
        &&& request.reuse == ReuseDirective::Never
    }
    &&& res matches Ok(Some(plan)) ==> carries_out(plan, request)
}

/// A request is refused for its ports only if it asks for port 0 or port 22, and each refusal comes
/// only where its own cause holds. A request with ports and without such a cause gets a plan with
/// exactly its ports, whichever ULID its password is made of.
pub proof fn law_refusals_have_their_cause(
    request: &ContainerRequest,
    ulid: &str,
    planned: Result<Option<HostExposurePlan>, ExposureError>,
    prepared: Result<Option<HostExposurePlan>, ExposureError>,
)
    requires
        call_ensures(plan_with_ulid, (request, ulid), planned),
        call_ensures(prepare_host_exposure, (request,), prepared),
    ensures
        is_just(request@, planned),
        is_just(request@, prepared),
        planned matches Ok(Some(plan)) ==> plan.password@ == "tc-"@ + ulid@,
{
    let r = request@;
    assert(names_the_host(r) <==> defines(r.hosts, HOST_INTERNAL_ALIAS@));
    assert(forall|p: u16| asks_for(r, p) <==> wanted_ports(r).contains(p));
    assert(asks_for(r, 0) ==> asks_for_any(r));
    assert(asks_for(r, 22) ==> asks_for_any(r));
}

/// Whether a request can be exposed rests on what it says alone: two plans for the same request
/// differ in nothing but their passwords.
pub proof fn law_plans_differ_in_their_password_only(
    request: &ContainerRequest,
    first_ulid: &str,
    first: HostExposurePlan,
    second_ulid: &str,
    second: Result<Option<HostExposurePlan>, ExposureError>,
)
    requires
        call_ensures(plan_with_ulid, (request, first_ulid), Ok(Some(first))),
        call_ensures(plan_with_ulid, (request, second_ulid), second),
    ensures
        second matches Ok(Some(other)) && other.requested_ports@ == first.requested_ports@
            && other.ssh_port == first.ssh_port && (first_ulid@ == second_ulid@ ==> other.password@
            == first.password@) && (other.password@ == first.password@ ==> first_ulid@
            == second_ulid@),
{
    assert(second matches Ok(Some(_)));
    let other = second->Ok_0->0;
    assert forall|p: u16| first.requested_ports@.contains(p) <==> other.requested_ports@.contains(
        p,
    ) by {
        assert(wanted_ports(request@).contains(p) <==> first.requested_ports@.contains(p));
    }
    lemma_increasing_is_unique(first.requested_ports@, other.requested_ports@);
    if other.password@ == first.password@ {
        assert(first_ulid@ =~= first.password@.skip("tc-"@.len() as int));
        assert(second_ulid@ =~= other.password@.skip("tc-"@.len() as int));
    }
}

/// Sorted ports increase from one to the next, and are those that were given, no more and no fewer.
pub proof fn law_sorting_keeps_the_ports(ports: &Vec<u16>, sorted: Vec<u16>, p: u16)
    requires
        call_ensures(sort_and_dedup, (ports,), sorted),
    ensures
        forall|i: int, j: int| 0 <= i < j < sorted@.len() ==> sorted@[i] < sorted@[j],
        (exists|i: int| 0 <= i < sorted@.len() && sorted@[i] == p) <==> (exists|i: int|
            0 <= i < ports@.len() && ports@[i] == p),
{
    assert(sorted@.contains(p) <==> ports@.contains(p));
}

/// A prepared password is made of the identifier that was drawn for it: `tc-` stands in front of
/// it, and it is 26 digits of Crockford's Base32.
proof fn law_password_holds_the_drawn_identifier(
    request: &ContainerRequest,
    plan: HostExposurePlan,
)
    requires
        call_ensures(prepare_host_exposure, (request,), Ok(Some(plan))),
    ensures
        exists|ulid: String| #[trigger]
            call_ensures(fresh_ulid, (), ulid) && plan.password@ == "tc-"@ + ulid@ && ulid@.len()
                == 26,
{
    let drawn = choose|ulid: String| #[trigger]
        call_ensures(fresh_ulid, (), ulid) && plan.password@ == "tc-"@ + ulid@;
    assert(is_ulid(drawn@));
}

} // verus!
