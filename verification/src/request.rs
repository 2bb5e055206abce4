//! The part of a container request that decides how the container reaches its host.

use vstd::prelude::*;

use crate::text::same_text;

verus! {

/// The name under which a container reaches its host.
pub const HOST_INTERNAL_ALIAS: &'static str = "host.testcontainers.internal";

/// An IP address in its canonical textual form.
#[derive(Debug)]
pub struct IpAddress {
    text: String,
}

impl View for IpAddress {
    type V = Seq<char>;

    closed spec fn view(&self) -> Seq<char> {
        self.text@
    }
}

impl Clone for IpAddress {
    fn clone(&self) -> (res: Self)
        ensures
            res == *self,
    {
        IpAddress { text: self.text.clone() }
    }
}

impl IpAddress {
    /// The address whose canonical text is `text`.
    pub fn new(text: String) -> (res: Self)
        ensures
            res@ == text@,
    {
        IpAddress { text }
    }

    /// The IPv4 loopback address.
    pub fn localhost() -> (res: Self)
        ensures
            res@ == "127.0.0.1"@,
    {
        IpAddress { text: String::from("127.0.0.1") }
    }

    /// The canonical text of the address.
    pub fn text(&self) -> (res: String)
        ensures
            res@ == self@,
    {
        self.text.clone()
    }
}

/// What a host name of a container stands for.
#[derive(Debug)]
pub enum Host {
    /// A fixed address.
    Addr(IpAddress),
    /// Whatever the engine takes for the gateway to the host.
    HostGateway,
}

/// The mathematical model of [`Host`].
pub enum HostView {
    Addr(Seq<char>),
    HostGateway,
}

impl View for Host {
    type V = HostView;

    open spec fn view(&self) -> HostView {
        match self {
            Host::Addr(addr) => HostView::Addr(addr@),
            Host::HostGateway => HostView::HostGateway,
        }
    }
}

impl Clone for Host {
    fn clone(&self) -> (res: Self)
        ensures
            res == *self,
    {
        match self {
            Host::Addr(addr) => Host::Addr(addr.clone()),
            Host::HostGateway => Host::HostGateway,
        }
    }
}

impl HostView {
    /// How the host is written in the engine's list of extra hosts.
    pub open spec fn text(self) -> Seq<char> {
        match self {
            HostView::Addr(addr) => addr,
            HostView::HostGateway => "host-gateway"@,
        }
    }
}

impl Host {
    /// How the host is written in the engine's list of extra hosts.
    pub fn text(&self) -> (res: String)
        ensures
            res@ == self@.text(),
    {
        match self {
            Host::Addr(addr) => addr.text(),
            Host::HostGateway => String::from("host-gateway"),
        }
    }
}

/// Whether a container outlives the test that started it.
#[derive(Debug, Clone, Copy, PartialEq, Eq, Structural)]
pub enum ReuseDirective {
    Never,
    Always,
    CurrentSession,
}

/// Whether a list of hosts has an entry for `key`.
pub open spec fn defines<V>(hosts: Seq<(Seq<char>, V)>, key: Seq<char>) -> bool {
    exists|i: int| 0 <= i < hosts.len() && (#[trigger] hosts[i]).0 == key
}

/// A list of hosts with `key` standing for `host`: in place of what it stood for, or at the end.
pub open spec fn with_entry<V>(hosts: Seq<(Seq<char>, V)>, key: Seq<char>, host: V) -> Seq<
    (Seq<char>, V),
> {
    if defines(hosts, key) {
        hosts.map_values(
            |entry: (Seq<char>, V)|
                if entry.0 == key {
                    (key, host)
                } else {
                    entry
                },
        )
    } else {
        hosts.push((key, host))
    }
}

/// Whether no key occurs twice in a list of hosts.
pub open spec fn distinct_keys<V>(hosts: Seq<(Seq<char>, V)>) -> bool {
    forall|i: int, j: int|
        0 <= i < j < hosts.len() ==> (#[trigger] hosts[i]).0 != (#[trigger] hosts[j]).0
}

/// The model of a list of named hosts.
pub open spec fn hosts_view(hosts: Seq<(String, Host)>) -> Seq<(Seq<char>, HostView)> {
    hosts.map_values(|entry: (String, Host)| (entry.0@, entry.1@))
}

/// The mathematical model of [`ContainerRequest`].
pub struct RequestView {
    pub hosts: Seq<(Seq<char>, HostView)>,
    pub network: Option<Seq<char>>,
    pub host_port_exposures: Option<Seq<u16>>,
    pub reuse: ReuseDirective,
}

/// A request for a container, as far as it decides how the container reaches its host.
#[derive(Debug)]
pub struct ContainerRequest {
    hosts: Vec<(String, Host)>,
    network: Option<String>,
    host_port_exposures: Option<Vec<u16>>,
    reuse: ReuseDirective,
}

impl View for ContainerRequest {
    type V = RequestView;

    closed spec fn view(&self) -> RequestView {
        RequestView {
            hosts: hosts_view(self.hosts@),
            network: match self.network {
                Some(network) => Some(network@),
                None => None,
            },
            host_port_exposures: match self.host_port_exposures {
                Some(ports) => Some(ports@),
                None => None,
            },
            reuse: self.reuse,
        }
    }
}

impl ContainerRequest {
    #[verifier::type_invariant]
    spec fn well_formed(self) -> bool {
        distinct_keys(hosts_view(self.hosts@))
    }

    /// A request without hosts, network or exposed host ports, for a container that is not reused.
    pub fn new() -> (res: Self)
        ensures
            res@ == (RequestView {
                hosts: Seq::empty(),
                network: None,
                host_port_exposures: None,
                reuse: ReuseDirective::Never,
            }),
    {
        let hosts: Vec<(String, Host)> = Vec::new();
        assert(hosts_view(hosts@) =~= Seq::empty());
        ContainerRequest {
            hosts,
            network: None,
            host_port_exposures: None,
            reuse: ReuseDirective::Never,
        }
    }

    /// Lets `key` stand for `host`.
    pub fn with_host(self, key: &str, host: Host) -> (res: Self)
        ensures
            res@ == (RequestView { hosts: with_entry(self@.hosts, key@, host@), ..self@ }),
    {
        proof {
            use_type_invariant(&self);
        }
        let ContainerRequest { hosts, network, host_port_exposures, reuse } = self;
        ContainerRequest {
            hosts: put_host(hosts, key, host),
            network,
            host_port_exposures,
            reuse,
        }
    }

    /// Lets the alias of the host stand for the engine's gateway to it.
    pub fn with_host_access(self) -> (res: Self)
        ensures
            res@ == (RequestView {
                hosts: with_entry(self@.hosts, HOST_INTERNAL_ALIAS@, HostView::HostGateway),
                ..self@
            }),
    {
        self.with_host(HOST_INTERNAL_ALIAS, Host::HostGateway)
    }

    /// Joins the container to `network`.
    pub fn with_network(self, network: &str) -> (res: Self)
        ensures
            res@ == (RequestView { network: Some(network@), ..self@ }),
    {
        proof {
            use_type_invariant(&self);
        }
        let ContainerRequest { hosts, network: _, host_port_exposures, reuse } = self;
        ContainerRequest { hosts, network: Some(network.to_owned()), host_port_exposures, reuse }
    }

    /// Says whether the container is reused.
    pub fn with_reuse(self, reuse: ReuseDirective) -> (res: Self)
        ensures
            res@ == (RequestView { reuse, ..self@ }),
    {
        proof {
            use_type_invariant(&self);
        }
        let ContainerRequest { hosts, network, host_port_exposures, reuse: _ } = self;
        ContainerRequest { hosts, network, host_port_exposures, reuse }
    }

    /// Asks for `port` of the host to be reachable from the container, besides those asked for
    /// before.
    pub fn with_exposed_host_port(self, port: u16) -> (res: Self)
        ensures
            res@ == (RequestView {
                host_port_exposures: Some(
                    match self@.host_port_exposures {
                        Some(ports) => ports.push(port),
                        None => seq![port],
                    },
                ),
                ..self@
            }),
    {
        proof {
            use_type_invariant(&self);
        }
        let ContainerRequest { hosts, network, host_port_exposures, reuse } = self;
        let mut ports = match host_port_exposures {
            Some(ports) => ports,
            None => Vec::new(),
        };
        ports.push(port);
        ContainerRequest { hosts, network, host_port_exposures: Some(ports), reuse }
    }

    /// Asks for each of `ports` of the host to be reachable from the container, besides those
    /// asked for before.
    pub fn with_exposed_host_ports(self, ports: Vec<u16>) -> (res: Self)
        ensures
            res@ == (RequestView {
                host_port_exposures: Some(
                    match self@.host_port_exposures {
                        Some(before) => before + ports@,
                        None => ports@,
                    },
                ),
                ..self@
            }),
    {
        proof {
            use_type_invariant(&self);
        }
        let ContainerRequest { hosts, network, host_port_exposures, reuse } = self;
        let mut added = ports;
        let all = match host_port_exposures {
            Some(before) => {
                let mut before = before;
                before.append(&mut added);
                before
            },
            None => added,
        };
        ContainerRequest { hosts, network, host_port_exposures: Some(all), reuse }
    }

    /// The named hosts, in the order in which they were first named.
    pub fn hosts(&self) -> (res: &Vec<(String, Host)>)
        ensures
            hosts_view(res@) == self@.hosts,
            distinct_keys(self@.hosts),
    {
        proof {
            use_type_invariant(self);
        }
        &self.hosts
    }

    /// Whether `key` is among the named hosts.
    pub fn has_host(&self, key: &str) -> (res: bool)
        ensures
            res == defines(self@.hosts, key@),
    {
        let mut i: usize = 0;
        while i < self.hosts.len()
            invariant
                i <= self.hosts@.len(),
                forall|j: int| 0 <= j < i ==> (#[trigger] self@.hosts[j]).0 != key@,
            decreases self.hosts@.len() - i,
        {
            if same_text(&self.hosts[i].0, key) {
                assert(self@.hosts[i as int].0 == key@);
                return true;
            }
            i = i + 1;
        }
        false
    }

    /// The network that the container joins.
    pub fn network(&self) -> (res: Option<String>)
        ensures
            res is Some <==> self@.network is Some,
            res matches Some(network) ==> Some(network@) == self@.network,
    {
        match &self.network {
            Some(network) => Some(network.clone()),
            None => None,
        }
    }

    /// The ports of the host that the request asks for.
    pub fn host_port_exposures(&self) -> (res: Option<&Vec<u16>>)
        ensures
            res is Some <==> self@.host_port_exposures is Some,
            res matches Some(ports) ==> Some(ports@) == self@.host_port_exposures,
    {
        match &self.host_port_exposures {
            Some(ports) => Some(ports),
            None => None,
        }
    }

    /// Whether the container is reused.
    pub fn reuse(&self) -> (res: ReuseDirective)
        ensures
            res == self@.reuse,
    {
        self.reuse
    }
}

fn put_host(hosts: Vec<(String, Host)>, key: &str, host: Host) -> (res: Vec<(String, Host)>)
    requires
        distinct_keys(hosts_view(hosts@)),
    ensures
        hosts_view(res@) == with_entry(hosts_view(hosts@), key@, host@),
        distinct_keys(hosts_view(res@)),
{
    let ghost before = hosts_view(hosts@);
    let mut entries = hosts;
    let mut i: usize = 0;
    while i < entries.len()
        invariant
            i <= entries@.len(),
            entries@ == hosts@,
            before == hosts_view(hosts@),
            distinct_keys(before),
            forall|j: int| 0 <= j < i ==> (#[trigger] before[j]).0 != key@,
        decreases entries@.len() - i,
    {
        if same_text(&entries[i].0, key) {
            assert(before[i as int].0 == key@);
            let ghost after = with_entry(before, key@, host@);
            entries.set(i, (key.to_owned(), host));
            assert forall|j: int| 0 <= j < before.len() implies hosts_view(entries@)[j]
                == after[j] by {
                if j != i {
                    assert(before[j].0 != before[i as int].0);
                }
            }
            assert(hosts_view(entries@) =~= after);
            assert(forall|j: int| 0 <= j < before.len() ==> after[j].0 == before[j].0);
            return entries;
        }
        i = i + 1;
    }
    assert(!defines(before, key@));
    entries.push((key.to_owned(), host));
    assert(hosts_view(entries@) =~= before.push((key@, host@)));
    entries
}

/// The lookup law of named hosts: once `key` stands for `host`, it does so and is the only thing
/// that changed.
pub proof fn law_named_host_is_found(
    hosts: Seq<(Seq<char>, HostView)>,
    key: Seq<char>,
    host: HostView,
    other: Seq<char>,
)
    requires
        distinct_keys(hosts),
        other != key,
    ensures
        with_entry(hosts, key, host).contains((key, host)),
        distinct_keys(with_entry(hosts, key, host)),
        forall|h: HostView|
            with_entry(hosts, key, host).contains((other, h)) <==> hosts.contains((other, h)),
{
    let after = with_entry(hosts, key, host);
    if defines(hosts, key) {
        let k = choose|i: int| 0 <= i < hosts.len() && (#[trigger] hosts[i]).0 == key;
        assert(after[k] == (key, host));
        assert(forall|i: int| 0 <= i < hosts.len() ==> (#[trigger] after[i]).0 == hosts[i].0);
        assert forall|h: HostView| after.contains((other, h)) implies hosts.contains((other, h)) by {
            let i = choose|i: int| 0 <= i < after.len() && after[i] == (other, h);
            assert(hosts[i] == (other, h));
        }
        assert forall|h: HostView| hosts.contains((other, h)) implies after.contains((other, h)) by {
            let i = choose|i: int| 0 <= i < hosts.len() && hosts[i] == (other, h);
            assert(after[i] == (other, h));
        }
    } else {
        assert(after[hosts.len() as int] == (key, host));
        assert forall|h: HostView| hosts.contains((other, h)) implies after.contains((other, h)) by {
            let i = choose|i: int| 0 <= i < hosts.len() && hosts[i] == (other, h);
            assert(after[i] == (other, h));
        }
    }
}

/// A host that is named keeps its place among the others where it had one, and comes last where it
/// had none; every other host stays as it is, and so does the rest of the request.
pub proof fn law_named_host_keeps_its_place(
    request: ContainerRequest,
    key: &str,
    host: Host,
    res: ContainerRequest,
    i: int,
)
    requires
        call_ensures(ContainerRequest::with_host, (request, key, host), res),
        distinct_keys(request@.hosts),
    ensures
        0 <= i < request@.hosts.len() && request@.hosts[i].0 == key@ ==> res@.hosts
            == request@.hosts.update(i, (key@, host@)),
        (forall|j: int| 0 <= j < request@.hosts.len() ==> (#[trigger] request@.hosts[j]).0 != key@)
            ==> res@.hosts == request@.hosts.push((key@, host@)),
        res@.network == request@.network,
        res@.host_port_exposures == request@.host_port_exposures,
        res@.reuse == request@.reuse,
{
    if 0 <= i < request@.hosts.len() && request@.hosts[i].0 == key@ {
        assert(defines(request@.hosts, key@));
        assert(with_entry(request@.hosts, key@, host@) =~= request@.hosts.update(i, (key@, host@)));
    }
}

/// What is asked of a request is what it says: the hosts, whether a host is named, the network, the
/// ports and the reuse.
pub proof fn law_requests_say_what_was_asked(
    request: &ContainerRequest,
    key: &str,
    has: bool,
    network: Option<String>,
    reuse: ReuseDirective,
    host: &Host,
    text: String,
)
    requires
        call_ensures(ContainerRequest::has_host, (request, key), has),
        call_ensures(ContainerRequest::network, (request,), network),
        call_ensures(ContainerRequest::reuse, (request,), reuse),
        call_ensures(Host::text, (host,), text),
    ensures
        has <==> exists|i: int|
            0 <= i < request@.hosts.len() && (#[trigger] request@.hosts[i]).0 == key@,
        network is None <==> request@.network is None,
        network is Some ==> network->0@ == request@.network->0,
        reuse == request@.reuse,
        host matches Host::Addr(addr) ==> text@ == addr@,
        host is HostGateway ==> text@ == "host-gateway"@,
        forall|hosts: &Vec<(String, Host)>, i: int|
            #![trigger call_ensures(ContainerRequest::hosts, (request,), hosts), hosts@[i]]
            call_ensures(ContainerRequest::hosts, (request,), hosts) ==> hosts@.len()
                == request@.hosts.len() && (0 <= i < hosts@.len() ==> hosts@[i].0@
                == request@.hosts[i].0 && (hosts@[i].1 matches Host::Addr(addr)
                ==> request@.hosts[i].1 == HostView::Addr(addr@)) && (hosts@[i].1 is HostGateway
                ==> request@.hosts[i].1 is HostGateway)),
{
    assert forall|hosts: &Vec<(String, Host)>, i: int|
        #![trigger call_ensures(ContainerRequest::hosts, (request,), hosts), hosts@[i]]
        call_ensures(ContainerRequest::hosts, (request,), hosts) implies hosts@.len()
        == request@.hosts.len() && (0 <= i < hosts@.len() ==> hosts@[i].0@ == request@.hosts[i].0
        && (hosts@[i].1 matches Host::Addr(addr) ==> request@.hosts[i].1 == HostView::Addr(addr@))
        && (hosts@[i].1 is HostGateway ==> request@.hosts[i].1 is HostGateway)) by {
        assert(hosts_view(hosts@).len() == request@.hosts.len());
        if 0 <= i < hosts@.len() {
            assert(hosts_view(hosts@)[i] == request@.hosts[i]);
        }
    }
}

/// Each wish changes just what it is about: ports are added to those asked for before, in order, and
/// host access lets the alias of the host stand for the engine's gateway.
pub proof fn law_wishes_add_up(
    request: ContainerRequest,
    port: u16,
    ports: Vec<u16>,
    network: &str,
    reuse: ReuseDirective,
    with_port: ContainerRequest,
    with_ports: ContainerRequest,
    with_network: ContainerRequest,
    with_reuse: ContainerRequest,
    with_access: ContainerRequest,
    fresh: ContainerRequest,
)
    requires
        call_ensures(ContainerRequest::with_exposed_host_port, (request, port), with_port),
        call_ensures(ContainerRequest::with_exposed_host_ports, (request, ports), with_ports),
        call_ensures(ContainerRequest::with_network, (request, network), with_network),
        call_ensures(ContainerRequest::with_reuse, (request, reuse), with_reuse),
        call_ensures(ContainerRequest::with_host_access, (request,), with_access),
        call_ensures(ContainerRequest::new, (), fresh),
    ensures
        ({
            let before = match request@.host_port_exposures {
                Some(before) => before,
                None => Seq::empty(),
            };
            &&& with_port@ == (RequestView {
                host_port_exposures: Some(before.push(port)),
                ..request@
            })
            &&& with_ports@ == (RequestView {
                host_port_exposures: Some(before + ports@),
                ..request@
            })
        }),
        with_network@ == (RequestView { network: Some(network@), ..request@ }),
        with_reuse@ == (RequestView { reuse, ..request@ }),
        with_access@ == (RequestView { hosts: with_access@.hosts, ..request@ }),
        with_access@.hosts.contains(("host.testcontainers.internal"@, HostView::HostGateway)),
        fresh@.hosts.len() == 0 && fresh@.network is None && fresh@.host_port_exposures is None
            && fresh@.reuse == ReuseDirective::Never,
{
    let before = match request@.host_port_exposures {
        Some(before) => before,
        None => Seq::empty(),
    };
    assert(before.push(port) =~= with_port@.host_port_exposures->0);
    assert(before + ports@ =~= with_ports@.host_port_exposures->0);
    let hosts = request@.hosts;
    let key = "host.testcontainers.internal"@;
    let after = with_entry(hosts, key, HostView::HostGateway);
    if defines(hosts, key) {
        let k = choose|i: int| 0 <= i < hosts.len() && (#[trigger] hosts[i]).0 == key;
        assert(after[k] == (key, HostView::HostGateway));
    } else {
        assert(after[hosts.len() as int] == (key, HostView::HostGateway));
    }
}

} // verus!
