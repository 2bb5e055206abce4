//! What a container's extra hosts stand for, on engines old and new.

use vstd::prelude::*;

use crate::request::{hosts_view, ContainerRequest, Host, HostView, IpAddress, RequestView};

verus! {

/// Why a container could not be given access to its host.
#[derive(Debug, PartialEq, Eq)]
pub enum HostAccessError {
    /// No gateway to the host was found.
    MissingGateway { network: Option<String> },
    /// The gateway probe printed no address.
    ProbeOutput { network: Option<String> },
}

/// How an optional text is written for debugging.
pub uninterp spec fn debug_text(text: Option<Seq<char>>) -> Seq<char>;

/// Whether `c` is written for debugging as it is: an ASCII letter or digit, `-`, `.`, `:` or `_`.
pub open spec fn is_plain_char(c: char) -> bool {
    ||| '0' <= c <= '9'
    ||| 'A' <= c <= 'Z'
    ||| 'a' <= c <= 'z'
    ||| c == '-'
    ||| c == '.'
    ||| c == ':'
    ||| c == '_'
}

/// Standard library's `Debug` of an `Option<String>`: it depends on the text alone, no text is
/// written as `None`, and a text of plain characters in double quotes inside `Some`. How other
/// characters are escaped is not said.
#[verifier::external_body]
fn written_for_debugging(text: &Option<String>) -> (res: String)
    ensures
        res@ == debug_text(string_view(*text)),
        string_view(*text) is None ==> res@ == "None"@,
        string_view(*text) is Some && (forall|i: int|
            0 <= i < string_view(*text)->0.len() ==> is_plain_char(
                #[trigger] string_view(*text)->0[i],
            )) ==> res@ == "Some(\""@ + string_view(*text)->0 + "\")"@,
{
    format!("{text:?}")
}

/// A message that ends with a network mode in single quotes, written as `mode`.
pub open spec fn of_mode(what: Seq<char>, mode: Seq<char>) -> Seq<char> {
    what + " for network mode '"@ + mode + "'"@
}

/// Writes a message that ends with a network mode, which is already written for debugging.
pub fn network_mode_message(what: &str, mode: &str) -> (res: String)
    ensures
        res@ == of_mode(what@, mode@),
{
    what.to_owned().concat(" for network mode '").concat(mode).concat("'")
}

impl HostAccessError {
    /// The network mode that the error is about.
    pub open spec fn network(&self) -> Option<Seq<char>> {
        match self {
            HostAccessError::MissingGateway { network } => string_view(*network),
            HostAccessError::ProbeOutput { network } => string_view(*network),
        }
    }

    /// What went wrong.
    pub open spec fn what(&self) -> Seq<char> {
        match self {
            HostAccessError::MissingGateway { .. } => "failed to discover host gateway"@,
            HostAccessError::ProbeOutput { .. } => "gateway probe did not return an IP address"@,
        }
    }

    /// Writes the message of the error.
    pub fn message(&self) -> (res: String)
        ensures
            res@ == of_mode(self.what(), debug_text(self.network())),
            self.network() is None ==> res@ == of_mode(self.what(), "None"@),
            self.network() matches Some(mode) ==> (forall|i: int|
                0 <= i < mode.len() ==> is_plain_char(#[trigger] mode[i])) ==> res@ == of_mode(
                self.what(),
                "Some(\""@ + mode + "\")"@,
            ),
    {
        match self {
            HostAccessError::MissingGateway { network } => network_mode_message(
                "failed to discover host gateway",
                &written_for_debugging(network),
            ),
            HostAccessError::ProbeOutput { network } => network_mode_message(
                "gateway probe did not return an IP address",
                &written_for_debugging(network),
            ),
        }
    }
}

/// The extra hosts of a container, or what has to be found out first.
#[derive(Debug, PartialEq, Eq)]
pub enum ExtraHosts {
    /// Each name with what it stands for.
    Resolved(Vec<(String, String)>),
    /// Whether the engine understands the `host-gateway` keyword.
    AskEngine,
    /// The gateway of this network.
    AskGateway { network: Option<String> },
}

/// The mathematical model of a step towards the extra hosts.
pub enum ExtraHostsView {
    Resolved(Seq<(Seq<char>, Seq<char>)>),
    AskEngine,
    AskGateway(Option<Seq<char>>),
    MissingGateway(Option<Seq<char>>),
    ProbeOutput(Option<Seq<char>>),
}

/// The model of an optional text.
pub open spec fn string_view(text: Option<String>) -> Option<Seq<char>> {
    match text {
        Some(text) => Some(text@),
        None => None,
    }
}

/// The model of a list of names with what they stand for.
pub open spec fn pairs_view(pairs: Seq<(String, String)>) -> Seq<(Seq<char>, Seq<char>)> {
    pairs.map_values(|pair: (String, String)| (pair.0@, pair.1@))
}

/// The model of a step towards the extra hosts.
pub open spec fn step_view(step: Result<ExtraHosts, HostAccessError>) -> ExtraHostsView {
    match step {
        Ok(ExtraHosts::Resolved(pairs)) => ExtraHostsView::Resolved(pairs_view(pairs@)),
        Ok(ExtraHosts::AskEngine) => ExtraHostsView::AskEngine,
        Ok(ExtraHosts::AskGateway { network }) => ExtraHostsView::AskGateway(string_view(network)),
        Err(HostAccessError::MissingGateway { network }) => ExtraHostsView::MissingGateway(
            string_view(network),
        ),
        Err(HostAccessError::ProbeOutput { network }) => ExtraHostsView::ProbeOutput(
            string_view(network),
        ),
    }
}

/// Whether any of the hosts stands for the engine's gateway.
pub open spec fn needs_gateway(hosts: Seq<(Seq<char>, HostView)>) -> bool {
    exists|i: int| 0 <= i < hosts.len() && (#[trigger] hosts[i]).1 is HostGateway
}

/// What a host stands for where the gateway is written as `gateway`.
pub open spec fn host_value(host: HostView, gateway: Seq<char>) -> Seq<char> {
    match host {
        HostView::Addr(addr) => addr,
        HostView::HostGateway => gateway,
    }
}

/// The extra hosts, in the order of the request, where the gateway is written as `gateway`.
pub open spec fn resolved(hosts: Seq<(Seq<char>, HostView)>, gateway: Seq<char>) -> Seq<
    (Seq<char>, Seq<char>),
> {
    hosts.map_values(|entry: (Seq<char>, HostView)| (entry.0, host_value(entry.1, gateway)))
}

/// The next step towards the extra hosts of a request: `support` says whether the engine
/// understands the keyword and `gateway` what the search for the gateway found, where known.
pub open spec fn next_step(
    request: RequestView,
    support: Option<bool>,
    gateway: Option<Option<Seq<char>>>,
) -> ExtraHostsView {
    if !needs_gateway(request.hosts) {
        ExtraHostsView::Resolved(resolved(request.hosts, "host-gateway"@))
    } else {
        match support {
            None => ExtraHostsView::AskEngine,
            Some(true) => ExtraHostsView::Resolved(resolved(request.hosts, "host-gateway"@)),
            Some(false) => match gateway {
                None => ExtraHostsView::AskGateway(request.network),
                Some(None) => ExtraHostsView::MissingGateway(request.network),
                Some(Some(ip)) => ExtraHostsView::Resolved(resolved(request.hosts, ip)),
            },
        }
    }
}

/// The model of what the search for the gateway found.
pub open spec fn gateway_view(gateway: Option<Option<IpAddress>>) -> Option<Option<Seq<char>>> {
    match gateway {
        Some(Some(ip)) => Some(Some(ip@)),
        Some(None) => Some(None),
        None => None,
    }
}

fn mentions_gateway(hosts: &Vec<(String, Host)>) -> (res: bool)
    ensures
        res == needs_gateway(hosts_view(hosts@)),
{
    let mut i: usize = 0;
    while i < hosts.len()
        invariant
            i <= hosts@.len(),
            forall|j: int|
                0 <= j < i ==> !((#[trigger] hosts_view(hosts@)[j]).1 is HostGateway),
        decreases hosts@.len() - i,
    {
        match &hosts[i].1 {
            Host::HostGateway => {
                assert(hosts_view(hosts@)[i as int].1 is HostGateway);
                return true;
            },
            Host::Addr(_) => {},
        }
        i = i + 1;
    }
    false
}

fn with_gateway(hosts: &Vec<(String, Host)>, gateway: &str) -> (res: Vec<(String, String)>)
    ensures
        pairs_view(res@) == resolved(hosts_view(hosts@), gateway@),
{
    let ghost wanted = resolved(hosts_view(hosts@), gateway@);
    let mut res: Vec<(String, String)> = Vec::new();
    let mut i: usize = 0;
    while i < hosts.len()
        invariant
            i <= hosts@.len(),
            wanted == resolved(hosts_view(hosts@), gateway@),
            res@.len() == i,
            pairs_view(res@) == wanted.take(i as int),
        decreases hosts@.len() - i,
    {
        let value = match &hosts[i].1 {
            Host::Addr(addr) => addr.text(),
            Host::HostGateway => gateway.to_owned(),
        };
        let ghost before = res@;
        res.push((hosts[i].0.clone(), value));
        proof {
            assert(wanted.take(i + 1) =~= wanted.take(i as int).push(wanted[i as int]));
            assert(pairs_view(res@) =~= pairs_view(before).push(wanted[i as int]));
        }
        i = i + 1;
    }
    assert(wanted.take(i as int) =~= wanted);
    res
}

/// Decides what the extra hosts of a request stand for, or what has to be found out first: an
/// engine that understands the keyword is handed it as it is, and any other the address of its
/// gateway.
pub fn resolve_extra_hosts(
    request: &ContainerRequest,
    support: Option<bool>,
    gateway: Option<Option<IpAddress>>,
) -> (res: Result<ExtraHosts, HostAccessError>)
    ensures
        step_view(res) == next_step(request@, support, gateway_view(gateway)),
{
    let hosts = request.hosts();
    if !mentions_gateway(hosts) {
        return Ok(ExtraHosts::Resolved(with_gateway(hosts, "host-gateway")));
    }
    match support {
        None => Ok(ExtraHosts::AskEngine),
        Some(supported) => {
            if supported {
                return Ok(ExtraHosts::Resolved(with_gateway(hosts, "host-gateway")));
            }
            match gateway {
                None => Ok(ExtraHosts::AskGateway { network: request.network() }),
                Some(None) => Err(HostAccessError::MissingGateway { network: request.network() }),
                Some(Some(ip)) => Ok(ExtraHosts::Resolved(with_gateway(hosts, &ip.text()))),
            }
        },
    }
}

/// The extra hosts carry the names of the request, in its order, and each fixed address as it is.
pub proof fn law_names_and_addresses_are_kept(
    request: RequestView,
    support: Option<bool>,
    gateway: Option<Option<Seq<char>>>,
    i: int,
)
    requires
        next_step(request, support, gateway) is Resolved,
        0 <= i < request.hosts.len(),
    ensures
        next_step(request, support, gateway)->Resolved_0.len() == request.hosts.len(),
        next_step(request, support, gateway)->Resolved_0[i].0 == request.hosts[i].0,
        request.hosts[i].1 matches HostView::Addr(addr) ==> next_step(
            request,
            support,
            gateway,
        )->Resolved_0[i].1 == addr,
{
}

/// An engine that understands the keyword is handed it verbatim, and one that does not is handed
/// the address of the gateway in its place, or the container is refused.
pub proof fn law_keyword_reaches_only_engines_that_understand_it(
    request: RequestView,
    gateway: Option<Option<Seq<char>>>,
    i: int,
)
    requires
        0 <= i < request.hosts.len(),
        request.hosts[i].1 is HostGateway,
    ensures
        next_step(request, Some(true), gateway) matches ExtraHostsView::Resolved(pairs) && pairs[i].1
            == "host-gateway"@,
        next_step(request, Some(false), gateway) matches ExtraHostsView::Resolved(pairs)
            ==> gateway == Some(Some(pairs[i].1)),
        gateway == Some(None::<Seq<char>>) ==> next_step(request, Some(false), gateway)
            == ExtraHostsView::MissingGateway(request.network),
{
    assert(needs_gateway(request.hosts));
}

/// Two answers settle the extra hosts: once the engine was asked and, where it does not understand
/// the keyword, its gateway was searched for, nothing is left to find out.
pub proof fn law_two_answers_settle_the_hosts(
    request: RequestView,
    support: bool,
    gateway: Option<Seq<char>>,
)
    ensures
        next_step(request, Some(support), Some(gateway)) is Resolved || next_step(
            request,
            Some(support),
            Some(gateway),
        ) is MissingGateway,
        support ==> next_step(request, Some(support), None) is Resolved,
        !needs_gateway(request.hosts) ==> next_step(request, None, None) is Resolved,
{
}

/// Whether any of the hosts of a request stands for the engine's gateway.
pub open spec fn asks_for_the_gateway(request: RequestView) -> bool {
    exists|i: int|
        0 <= i < request.hosts.len() && (#[trigger] request.hosts[i]).1 == HostView::HostGateway
}

/// Whether `pairs` are the hosts of a request, in its order, with fixed addresses as they are and
/// `gateway` for the engine's gateway.
pub open spec fn are_hosts_of(
    pairs: Seq<(String, String)>,
    request: RequestView,
    gateway: Seq<char>,
) -> bool {
    &&& pairs.len() == request.hosts.len()
    &&& forall|i: int|
        0 <= i < pairs.len() ==> {
            &&& (#[trigger] pairs[i]).0@ == request.hosts[i].0
            &&& request.hosts[i].1 matches HostView::Addr(addr) ==> pairs[i].1@ == addr
            &&& request.hosts[i].1 is HostGateway ==> pairs[i].1@ == gateway
        }
}

/// What the extra hosts are, and when something has to be found out first. Without a host that
/// stands for the gateway they are known at once. With one, the engine is asked whether it
/// understands the keyword and, only if it does not, for the gateway of the request's network. The
/// hosts then hold the keyword or the gateway; where there is no gateway, the request is refused
/// with its network named.
pub proof fn law_extra_hosts_are_settled_in_order(
    request: &ContainerRequest,
    support: Option<bool>,
    gateway: Option<Option<IpAddress>>,
    res: Result<ExtraHosts, HostAccessError>,
)
    requires
        call_ensures(resolve_extra_hosts, (request, support, gateway), res),
    ensures
        !asks_for_the_gateway(request@) ==> (res matches Ok(ExtraHosts::Resolved(pairs))
            && are_hosts_of(pairs@, request@, "host-gateway"@)),
        (res matches Ok(ExtraHosts::AskEngine)) <==> asks_for_the_gateway(request@) && support is None,
        asks_for_the_gateway(request@) && support == Some(true) ==> (res
            matches Ok(ExtraHosts::Resolved(pairs)) && are_hosts_of(
            pairs@,
            request@,
            "host-gateway"@,
        )),
        (res matches Ok(ExtraHosts::AskGateway { .. })) <==> asks_for_the_gateway(request@)
            && support == Some(false) && gateway is None,
        res matches Ok(ExtraHosts::AskGateway { network }) ==> (network is None
            <==> request@.network is None) && (network is Some ==> network->0@
            == request@.network->0),
        asks_for_the_gateway(request@) && support == Some(false) && gateway is Some && gateway->0
            is Some ==> (res matches Ok(ExtraHosts::Resolved(pairs)) && are_hosts_of(
            pairs@,
            request@,
            gateway->0->0@,
        )),
        res is Err <==> asks_for_the_gateway(request@) && support == Some(false) && gateway is Some
            && gateway->0 is None,
        res matches Err(err) ==> (err matches HostAccessError::MissingGateway { network } && (network
            is None <==> request@.network is None) && (network is Some ==> network->0@
            == request@.network->0)),
{
    assert(asks_for_the_gateway(request@) <==> needs_gateway(request@.hosts));
    if let Ok(ExtraHosts::Resolved(pairs)) = res {
        let written = if !asks_for_the_gateway(request@) || support == Some(true) {
            "host-gateway"@
        } else {
            gateway->0->0@
        };
        assert(pairs_view(pairs@) == resolved(request@.hosts, written));
        assert forall|i: int| 0 <= i < pairs@.len() implies (#[trigger] pairs@[i]).0@
            == request@.hosts[i].0 && pairs@[i].1@ == host_value(request@.hosts[i].1, written) by {
            assert(pairs_view(pairs@)[i] == resolved(request@.hosts, written)[i]);
        }
        assert(pairs_view(pairs@).len() == request@.hosts.len());
        assert(are_hosts_of(pairs@, request@, written));
    }
}

/// An error says what went wrong and for which network mode.
pub proof fn law_access_errors_name_their_network(
    err: &HostAccessError,
    message: String,
    what: &str,
    mode: &str,
    written: String,
)
    requires
        call_ensures(HostAccessError::message, (err,), message),
        call_ensures(network_mode_message, (what, mode), written),
    ensures
        written@ == what@ + " for network mode '"@ + mode@ + "'"@,
        err matches HostAccessError::MissingGateway { network } ==> message@
            == "failed to discover host gateway"@ + " for network mode '"@ + debug_text(
            match network {
                Some(network) => Some(network@),
                None => None,
            },
        ) + "'"@,
        err matches HostAccessError::ProbeOutput { network } ==> message@
            == "gateway probe did not return an IP address"@ + " for network mode '"@ + debug_text(
            match network {
                Some(network) => Some(network@),
                None => None,
            },
        ) + "'"@,
{
}

} // verus!
