//! Finding the address of the gateway to the host in what the engine says of its networks.

use vstd::hash_map::StringHashMap;
use vstd::prelude::*;

use crate::request::IpAddress;
use crate::text::{
    has_prefix, lemma_strip_repeated, repeated, same_text, strip_all_leading, strip_leading,
};

verus! {

/// One place that may name a gateway: an address pool of a network, or an end of a container in
/// one.
#[derive(Debug)]
pub struct GatewayEntry {
    pub gateway: Option<String>,
}

/// The address management of a network.
#[derive(Debug)]
pub struct Ipam {
    pub config: Option<Vec<GatewayEntry>>,
}

/// What the engine says of a network.
#[derive(Debug)]
pub struct Network {
    pub ipam: Option<Ipam>,
}

/// What the engine says of the networks of a container.
#[derive(Debug)]
pub struct NetworkSettings {
    pub gateway: Option<String>,
    /// Its ends in the networks it is joined to, in the order in which they are looked at.
    pub networks: Option<Vec<GatewayEntry>>,
}

/// Whether `parse` reads the address `ip` where the entry names a gateway.
pub open spec fn names<F: Fn(&String) -> Option<IpAddress>>(
    parse: F,
    gateway: Option<String>,
    ip: IpAddress,
) -> bool {
    gateway is Some && call_ensures(parse, (&gateway->0,), Some(ip))
}

/// Whether the entry names no gateway that `parse` reads an address in.
pub open spec fn names_none<F: Fn(&String) -> Option<IpAddress>>(
    parse: F,
    gateway: Option<String>,
) -> bool {
    gateway is Some ==> call_ensures(parse, (&gateway->0,), None::<IpAddress>)
}

/// Whether `found` is what the first of `entries` names that names anything.
pub open spec fn is_first_address<F: Fn(&String) -> Option<IpAddress>>(
    parse: F,
    entries: Seq<GatewayEntry>,
    found: Option<IpAddress>,
) -> bool {
    match found {
        Some(ip) => exists|k: int|
            0 <= k < entries.len() && names(parse, (#[trigger] entries[k]).gateway, ip) && forall|
                j: int,
            |
                0 <= j < k ==> names_none(parse, (#[trigger] entries[j]).gateway),
        None => forall|j: int|
            0 <= j < entries.len() ==> names_none(parse, (#[trigger] entries[j]).gateway),
    }
}

/// The first address that `entries` name.
fn first_address<F: Fn(&String) -> Option<IpAddress>>(
    entries: &Vec<GatewayEntry>,
    parse: &F,
) -> (res: Option<IpAddress>)
    requires
        forall|text: &String| call_requires(*parse, (text,)),
    ensures
        is_first_address(*parse, entries@, res),
{
    let mut i: usize = 0;
    while i < entries.len()
        invariant
            i <= entries@.len(),
            forall|text: &String| call_requires(*parse, (text,)),
            forall|j: int| 0 <= j < i ==> names_none(*parse, (#[trigger] entries@[j]).gateway),
        decreases entries@.len() - i,
    {
        if let Some(gateway) = &entries[i].gateway {
            if let Some(ip) = parse(gateway) {
                assert(names(*parse, entries@[i as int].gateway, ip));
                return Some(ip);
            }
        }
        i = i + 1;
    }
    None
}

/// Whether `found` is the gateway of `network`.
pub open spec fn is_network_gateway<F: Fn(&String) -> Option<IpAddress>>(
    parse: F,
    network: Network,
    found: Option<IpAddress>,
) -> bool {
    match network.ipam {
        Some(ipam) => match ipam.config {
            Some(config) => is_first_address(parse, config@, found),
            None => found is None,
        },
        None => found is None,
    }
}

/// Finds the gateway of a network: the first one among its address pools that is an address.
pub fn extract_gateway_from_network<F: Fn(&String) -> Option<IpAddress>>(
    network: &Network,
    parse: &F,
) -> (res: Option<IpAddress>)
    requires
        forall|text: &String| call_requires(*parse, (text,)),
    ensures
        is_network_gateway(*parse, *network, res),
{
    match &network.ipam {
        Some(ipam) => match &ipam.config {
            Some(config) => first_address(config, parse),
            None => None,
        },
        None => None,
    }
}

/// Finds the gateway of a network that was inspected: none where the inspection failed.
pub fn inspect_network_gateway<E, F: Fn(&String) -> Option<IpAddress>>(
    inspected: &Result<Network, E>,
    parse: &F,
) -> (res: Option<IpAddress>)
    requires
        forall|text: &String| call_requires(*parse, (text,)),
    ensures
        match *inspected {
            Ok(network) => is_network_gateway(*parse, network, res),
            Err(_) => res is None,
        },
{
    match inspected {
        Ok(network) => extract_gateway_from_network(network, parse),
        Err(_) => None,
    }
}

/// Whether `found` is the gateway of a container with these settings.
pub open spec fn is_container_gateway<F: Fn(&String) -> Option<IpAddress>>(
    parse: F,
    settings: NetworkSettings,
    found: Option<IpAddress>,
) -> bool {
    ||| found is Some && names(parse, settings.gateway, found->0)
    ||| names_none(parse, settings.gateway) && match settings.networks {
        Some(networks) => is_first_address(parse, networks@, found),
        None => found is None,
    }
}

/// Finds the gateway of a container that was inspected: its own if that is an address, or else the
/// first one among its networks that is; none where the inspection failed or says nothing of
/// networks.
pub fn inspect_container_gateway<E, F: Fn(&String) -> Option<IpAddress>>(
    inspected: &Result<Option<NetworkSettings>, E>,
    parse: &F,
) -> (res: Option<IpAddress>)
    requires
        forall|text: &String| call_requires(*parse, (text,)),
    ensures
        match *inspected {
            Ok(Some(settings)) => is_container_gateway(*parse, settings, res),
            Ok(None) => res is None,
            Err(_) => res is None,
        },
{
    let settings = match inspected {
        Ok(Some(settings)) => settings,
        Ok(None) => return None,
        Err(_) => return None,
    };
    if let Some(gateway) = &settings.gateway {
        if let Some(ip) = parse(gateway) {
            return Some(ip);
        }
    }
    match &settings.networks {
        Some(networks) => first_address(networks, parse),
        None => None,
    }
}

/// Where the engine may tell the gateway of a network mode.
#[derive(Debug)]
pub enum GatewaySource {
    /// It is this address.
    Address(IpAddress),
    /// The network of this name tells.
    Network(String),
    /// The container of this name tells.
    Container(String),
}

/// The mathematical model of [`GatewaySource`].
pub enum GatewaySourceView {
    Address(Seq<char>),
    Network(Seq<char>),
    Container(Seq<char>),
}

impl View for GatewaySource {
    type V = GatewaySourceView;

    open spec fn view(&self) -> GatewaySourceView {
        match self {
            GatewaySource::Address(ip) => GatewaySourceView::Address(ip@),
            GatewaySource::Network(name) => GatewaySourceView::Network(name@),
            GatewaySource::Container(name) => GatewaySourceView::Container(name@),
        }
    }
}

/// The model of an optional text.
pub open spec fn text_view(text: Option<&str>) -> Option<Seq<char>> {
    match text {
        Some(text) => Some(text@),
        None => None,
    }
}

/// Where the engine may tell the gateway of `network_mode`.
pub open spec fn gateway_source(network_mode: Option<Seq<char>>) -> GatewaySourceView {
    match network_mode {
        None => GatewaySourceView::Network("bridge"@),
        Some(mode) => if mode.len() == 0 {
            GatewaySourceView::Network("bridge"@)
        } else if mode == "host"@ {
            GatewaySourceView::Address("127.0.0.1"@)
        } else if "container:"@.is_prefix_of(mode) {
            GatewaySourceView::Container(strip_leading(mode, "container:"@))
        } else {
            GatewaySourceView::Network(mode)
        },
    }
}

/// Decides what of the engine is to be inspected for the gateway of a network mode.
pub fn inspect_gateway(network_mode: Option<&str>) -> (res: GatewaySource)
    ensures
        res@ == gateway_source(text_view(network_mode)),
{
    match network_mode {
        None => GatewaySource::Network(String::from("bridge")),
        Some(mode) => if mode.is_empty() {
            GatewaySource::Network(String::from("bridge"))
        } else if same_text(mode, "host") {
            GatewaySource::Address(IpAddress::localhost())
        } else if has_prefix(mode, "container:") {
            GatewaySource::Container(strip_all_leading(mode, "container:").to_owned())
        } else {
            GatewaySource::Network(mode.to_owned())
        },
    }
}

/// How the search for a gateway goes on after the inspection.
#[derive(Debug)]
pub enum Discovery {
    /// This is the gateway.
    Found(IpAddress),
    /// A probe has to be run.
    RunProbe,
}

/// Decides how the search goes on after the inspection: only where it found nothing is a probe
/// run.
pub fn try_discover_gateway(inspected: Option<IpAddress>) -> (res: Discovery)
    ensures
        res == (match inspected {
            Some(ip) => Discovery::Found(ip),
            None => Discovery::RunProbe,
        }),
{
    match inspected {
        Some(ip) => Discovery::Found(ip),
        None => Discovery::RunProbe,
    }
}

/// The name under which the gateway of a network mode is kept.
pub open spec fn cache_key(network_mode: Option<Seq<char>>) -> Seq<char> {
    match network_mode {
        Some(mode) => mode,
        None => Seq::empty(),
    }
}

/// The gateways found so far.
pub struct GatewayCache {
    entries: StringHashMap<Option<IpAddress>>,
}

impl View for GatewayCache {
    type V = Map<Seq<char>, Option<IpAddress>>;

    closed spec fn view(&self) -> Map<Seq<char>, Option<IpAddress>> {
        self.entries@
    }
}

/// What a cache holds for a network mode.
pub open spec fn cached(
    cache: Map<Seq<char>, Option<IpAddress>>,
    network_mode: Option<Seq<char>>,
) -> Option<Option<IpAddress>> {
    if cache.contains_key(cache_key(network_mode)) {
        Some(cache[cache_key(network_mode)])
    } else {
        None
    }
}

fn key_text(network_mode: Option<&str>) -> (res: String)
    ensures
        res@ == cache_key(text_view(network_mode)),
{
    match network_mode {
        Some(mode) => mode.to_owned(),
        None => String::new(),
    }
}

impl GatewayCache {
    /// A cache that holds nothing.
    pub fn new() -> (res: Self)
        ensures
            res@ == Map::<Seq<char>, Option<IpAddress>>::empty(),
    {
        GatewayCache { entries: StringHashMap::new() }
    }

    /// What was found before for a network mode, where anything was: an address, or that there is
    /// none.
    pub fn discover_gateway_ip(&self, network_mode: Option<&str>) -> (res: Option<
        Option<IpAddress>,
    >)
        ensures
            res == cached(self@, text_view(network_mode)),
    {
        let key = key_text(network_mode);
        match self.entries.get(&key) {
            Some(found) => Some(
                match found {
                    Some(ip) => Some(ip.clone()),
                    None => None,
                },
            ),
            None => None,
        }
    }

    /// Keeps what a search found for a network mode and hands it on. A search that failed leaves
    /// nothing behind.
    pub fn remember<E>(
        &mut self,
        network_mode: Option<&str>,
        discovered: Result<Option<IpAddress>, E>,
    ) -> (res: Result<Option<IpAddress>, E>)
        ensures
            res == discovered,
            final(self)@ == (match discovered {
                Ok(found) => old(self)@.insert(cache_key(text_view(network_mode)), found),
                Err(_) => old(self)@,
            }),
    {
        match discovered {
            Ok(found) => {
                let kept = match &found {
                    Some(ip) => Some(ip.clone()),
                    None => None,
                };
                self.entries.insert(key_text(network_mode), kept);
                Ok(found)
            },
            Err(err) => Err(err),
        }
    }
}

/// A gateway is searched for once per network: after a search for `mode` found something, the
/// cache answers for every mode of the same name with it and for any other mode as before.
pub proof fn law_gateway_is_searched_once_per_network(
    cache: Map<Seq<char>, Option<IpAddress>>,
    mode: Option<Seq<char>>,
    found: Option<IpAddress>,
    other: Option<Seq<char>>,
)
    ensures
        cached(cache.insert(cache_key(mode), found), mode) == Some(found),
        cached(cache.insert(cache_key(mode), found), other) == (if cache_key(other) == cache_key(
            mode,
        ) {
            Some(found)
        } else {
            cached(cache, other)
        }),
{
}

/// No mode and an empty mode are the same network, for the inspection and for the cache.
pub proof fn law_empty_mode_is_the_default_network(cache: Map<Seq<char>, Option<IpAddress>>)
    ensures
        gateway_source(None) == gateway_source(Some(Seq::empty())),
        cached(cache, None) == cached(cache, Some(Seq::empty())),
{
}

/// Whether `parse` reads each text in one way only.
pub open spec fn reads_one_way<F: Fn(&String) -> Option<IpAddress>>(parse: F) -> bool {
    forall|text: String, a: Option<IpAddress>, b: Option<IpAddress>| #[trigger]
        call_ensures(parse, (&text,), a) && #[trigger] call_ensures(parse, (&text,), b) ==> a == b
}

/// Whether an entry names no gateway, or one in which `parse` reads no address.
pub open spec fn is_silent<F: Fn(&String) -> Option<IpAddress>>(parse: F, entry: GatewayEntry) -> bool {
    entry.gateway is None || call_ensures(parse, (&entry.gateway->0,), None::<IpAddress>)
}

/// A network is reached through the first of its address pools that names an address: pools before
/// it that name none, or no address, are passed over, and those behind it make no difference. A
/// network without such a pool, without pools or that could not be inspected has no gateway.
pub proof fn law_first_pool_with_an_address_is_the_gateway<
    E,
    F: Fn(&String) -> Option<IpAddress>,
>(
    network: Network,
    parse: &F,
    extracted: Option<IpAddress>,
    inspected: Result<Network, E>,
    found: Option<IpAddress>,
    k: int,
    ip: IpAddress,
)
    requires
        reads_one_way(*parse),
        call_ensures(extract_gateway_from_network::<F>, (&network, parse), extracted),
        call_ensures(inspect_network_gateway::<E, F>, (&inspected, parse), found),
    ensures
        inspected is Err ==> found is None,
        inspected == Ok::<Network, E>(network) ==> found == extracted,
        network.ipam is None ==> extracted is None,
        network.ipam is Some && network.ipam->0.config is None ==> extracted is None,
        network.ipam is Some && network.ipam->0.config is Some ==> {
            let pools = network.ipam->0.config->0@;
            &&& 0 <= k < pools.len() && (forall|j: int|
                0 <= j < k ==> is_silent(*parse, #[trigger] pools[j])) && pools[k].gateway is Some
                && call_ensures(*parse, (&pools[k].gateway->0,), Some(ip)) ==> extracted == Some(ip)
            &&& (forall|j: int| 0 <= j < pools.len() ==> is_silent(*parse, #[trigger] pools[j]))
                ==> extracted is None
        },
{
    if network.ipam is Some && network.ipam->0.config is Some {
        let pools = network.ipam->0.config->0@;
        lemma_first_address(*parse, pools, extracted, k, ip);
        if inspected == Ok::<Network, E>(network) {
            lemma_one_first_address(*parse, pools, extracted, found);
        }
    }
}

proof fn lemma_first_address<F: Fn(&String) -> Option<IpAddress>>(
    parse: F,
    entries: Seq<GatewayEntry>,
    found: Option<IpAddress>,
    k: int,
    ip: IpAddress,
)
    requires
        reads_one_way(parse),
        is_first_address(parse, entries, found),
    ensures
        0 <= k < entries.len() && (forall|j: int|
            0 <= j < k ==> is_silent(parse, #[trigger] entries[j])) && entries[k].gateway is Some
            && call_ensures(parse, (&entries[k].gateway->0,), Some(ip)) ==> found == Some(ip),
        (forall|j: int| 0 <= j < entries.len() ==> is_silent(parse, #[trigger] entries[j]))
            ==> found is None,
{
    if found is Some {
        let at = choose|at: int|
            0 <= at < entries.len() && names(parse, (#[trigger] entries[at]).gateway, found->0)
                && forall|j: int| 0 <= j < at ==> names_none(parse, (#[trigger] entries[j]).gateway);
        assert(!is_silent(parse, entries[at]));
        if 0 <= k < entries.len() && (forall|j: int|
            0 <= j < k ==> is_silent(parse, #[trigger] entries[j])) && entries[k].gateway is Some
            && call_ensures(parse, (&entries[k].gateway->0,), Some(ip)) {
            if k < at {
                assert(names_none(parse, entries[k].gateway));
            }
            assert(at == k);
        }
    } else if 0 <= k < entries.len() {
        assert(names_none(parse, entries[k].gateway));
    }
}

proof fn lemma_one_first_address<F: Fn(&String) -> Option<IpAddress>>(
    parse: F,
    entries: Seq<GatewayEntry>,
    a: Option<IpAddress>,
    b: Option<IpAddress>,
)
    requires
        reads_one_way(parse),
        is_first_address(parse, entries, a),
        is_first_address(parse, entries, b),
    ensures
        a == b,
{
    if a is Some {
        let at = choose|at: int|
            0 <= at < entries.len() && names(parse, (#[trigger] entries[at]).gateway, a->0)
                && forall|j: int| 0 <= j < at ==> names_none(parse, (#[trigger] entries[j]).gateway);
        assert forall|j: int| 0 <= j < at implies is_silent(parse, #[trigger] entries[j]) by {
            assert(names_none(parse, entries[j].gateway));
        }
        lemma_first_address(parse, entries, b, at, a->0);
    } else {
        assert forall|j: int| 0 <= j < entries.len() implies is_silent(
            parse,
            #[trigger] entries[j],
        ) by {
            assert(names_none(parse, entries[j].gateway));
        }
        lemma_first_address(parse, entries, b, 0, arbitrary());
    }
}

/// A container is reached through its own gateway if that is an address, whatever its networks are,
/// and otherwise through the first of its networks that names an address. One that could not be
/// inspected, or says nothing of networks, has no gateway.
pub proof fn law_own_gateway_of_a_container_goes_first<E, F: Fn(&String) -> Option<IpAddress>>(
    inspected: Result<Option<NetworkSettings>, E>,
    parse: &F,
    found: Option<IpAddress>,
    k: int,
    ip: IpAddress,
)
    requires
        reads_one_way(*parse),
        call_ensures(inspect_container_gateway::<E, F>, (&inspected, parse), found),
    ensures
        inspected is Err ==> found is None,
        inspected matches Ok(None) ==> found is None,
        inspected matches Ok(Some(settings)) ==> {
            let own = GatewayEntry { gateway: settings.gateway };
            &&& settings.gateway is Some && call_ensures(*parse, (&settings.gateway->0,), Some(ip))
                ==> found == Some(ip)
            &&& is_silent(*parse, own) && settings.networks is None ==> found is None
            &&& is_silent(*parse, own) && settings.networks is Some ==> {
                let networks = settings.networks->0@;
                &&& 0 <= k < networks.len() && (forall|j: int|
                    0 <= j < k ==> is_silent(*parse, #[trigger] networks[j]))
                    && networks[k].gateway is Some && call_ensures(
                    *parse,
                    (&networks[k].gateway->0,),
                    Some(ip),
                ) ==> found == Some(ip)
                &&& (forall|j: int|
                    0 <= j < networks.len() ==> is_silent(*parse, #[trigger] networks[j]))
                    ==> found is None
            }
        },
{
    if let Ok(Some(settings)) = inspected {
        if settings.networks is Some {
            let networks = settings.networks->0@;
            if is_first_address(*parse, networks, found) {
                lemma_first_address(*parse, networks, found, k, ip);
            }
        }
    }
}

/// Where a gateway is looked for: on the bridge without a network mode or with an empty one, at the
/// loopback address in the network of the host, in the container whose network is joined, and in
/// the network of the given name otherwise.
pub proof fn law_network_modes_lead_to_their_gateway(
    network_mode: Option<&str>,
    res: GatewaySource,
    copies: nat,
    container: Seq<char>,
)
    requires
        call_ensures(inspect_gateway, (network_mode,), res),
    ensures
        network_mode is None || network_mode->0@.len() == 0 ==> (res matches GatewaySource::Network(
            name,
        ) && name@ == "bridge"@),
        network_mode is Some && network_mode->0@ == "host"@ ==> (res matches GatewaySource::Address(
            ip,
        ) && ip@ == "127.0.0.1"@),
        network_mode is Some && copies > 0 && network_mode->0@ == repeated("container:"@, copies)
            + container && !"container:"@.is_prefix_of(container) ==> (res
            matches GatewaySource::Container(name) && name@ == container),
        network_mode is Some && network_mode->0@.len() > 0 && network_mode->0@ != "host"@
            && !"container:"@.is_prefix_of(network_mode->0@) ==> (res
            matches GatewaySource::Network(name) && name@ == network_mode->0@),
{
    reveal_strlit("host");
    reveal_strlit("container:");
    if network_mode is Some && copies > 0 && network_mode->0@ == repeated("container:"@, copies)
        + container && !"container:"@.is_prefix_of(container) {
        let mode = network_mode->0@;
        lemma_strip_repeated("container:"@, copies, container);
        let tail = repeated("container:"@, (copies - 1) as nat) + container;
        assert(mode =~= "container:"@ + tail);
        assert("container:"@ =~= mode.subrange(0, "container:"@.len() as int));
        assert(mode[0] == 'c');
    }
}

/// A probe is run exactly where the inspection found nothing.
pub proof fn law_probe_only_where_inspection_found_nothing(
    inspected: Option<IpAddress>,
    res: Discovery,
)
    requires
        call_ensures(try_discover_gateway, (inspected,), res),
    ensures
        inspected is None <==> res is RunProbe,
        inspected matches Some(ip) ==> res == Discovery::Found(ip),
{
}

/// Whether two network modes are the same network: no mode and an empty one are.
pub open spec fn same_network(a: Option<&str>, b: Option<&str>) -> bool {
    ||| a is Some && b is Some && a->0@ == b->0@
    ||| (a is None || a->0@.len() == 0) && (b is None || b->0@.len() == 0)
}

/// What was found for a network is what the cache answers for it, be it that there is no gateway,
/// and the answer for any other network is what it was. A search that failed leaves every answer as
/// it was. A new cache has no answer.
pub proof fn law_networks_do_not_share_their_gateway<E>(
    mode: Option<&str>,
    other: Option<&str>,
    discovered: Result<Option<IpAddress>, E>,
    res: Result<Option<IpAddress>, E>,
    before: Option<Option<IpAddress>>,
    after: Option<Option<IpAddress>>,
    fresh: GatewayCache,
    first: Option<Option<IpAddress>>,
)
    ensures
        call_ensures(GatewayCache::new, (), fresh) && call_ensures(
            GatewayCache::discover_gateway_ip,
            (&fresh, other),
            first,
        ) ==> first is None,
        forall|cache: &mut GatewayCache, old_cache: &GatewayCache, new_cache: &GatewayCache|
            #![trigger call_ensures(GatewayCache::remember::<E>, (cache, mode, discovered), res), call_ensures(GatewayCache::discover_gateway_ip, (old_cache, other), before), call_ensures(GatewayCache::discover_gateway_ip, (new_cache, other), after)]
            call_ensures(GatewayCache::remember::<E>, (cache, mode, discovered), res)
                && *old_cache == *cache && *new_cache == *final(cache) && call_ensures(
                GatewayCache::discover_gateway_ip,
                (old_cache, other),
                before,
            ) && call_ensures(GatewayCache::discover_gateway_ip, (new_cache, other), after) ==> {
                &&& res == discovered
                &&& discovered is Ok && same_network(mode, other) ==> after == Some(
                    discovered->Ok_0,
                )
                &&& discovered is Err || !same_network(mode, other) ==> after == before
            },
{
    assert(same_network(mode, other) <==> cache_key(text_view(mode)) =~= cache_key(
        text_view(other),
    ));
}

} // verus!
