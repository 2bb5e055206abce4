use testcontainers::host_access::extra_hosts::{
    network_mode_message, resolve_extra_hosts, ExtraHosts, HostAccessError,
};
use testcontainers::host_access::gateway::{
    extract_gateway_from_network, inspect_container_gateway, inspect_gateway,
    inspect_network_gateway, try_discover_gateway, Discovery, GatewayCache, GatewayEntry,
    GatewaySource, Ipam, Network, NetworkSettings,
};
use testcontainers::host_access::probe::{
    gateway_from_probe_output, gateway_in_text, probe_container, run_gateway_probe, ProbeError,
    ProbeEvent, ProbeState,
};
use testcontainers::host_access::version::{
    api_supports_host_gateway, engine_supports_host_gateway, host_gateway_supported_from_version,
    release_supports_host_gateway, HostGatewaySupport, SystemVersion,
};
use testcontainers::request::{ContainerRequest, Host, IpAddress, HOST_INTERNAL_ALIAS};
use testcontainers::text::{
    decimal_text, first_printed_line, has_prefix, parse_u64, same_text, split_at_first,
    strip_all_leading,
};

fn parse(text: &String) -> Option<IpAddress> {
    let host = if text.contains(':') { format!("[{text}]") } else { text.clone() };
    match url::Host::parse(&host) {
        Ok(url::Host::Ipv4(ip)) => Some(IpAddress::new(ip.to_string())),
        Ok(url::Host::Ipv6(ip)) => Some(IpAddress::new(ip.to_string())),
        _ => None,
    }
}

fn ip(text: &str) -> IpAddress {
    IpAddress::new(text.to_string())
}

fn text_of(found: Option<IpAddress>) -> Option<String> {
    found.map(|ip| ip.text())
}

fn entry(gateway: Option<&str>) -> GatewayEntry {
    GatewayEntry { gateway: gateway.map(str::to_string) }
}

fn network(gateways: Vec<Option<&str>>) -> Network {
    Network {
        ipam: Some(Ipam { config: Some(gateways.into_iter().map(entry).collect()) }),
    }
}

fn version(api: Option<&str>, engine: Option<&str>) -> SystemVersion {
    SystemVersion {
        api_version: api.map(str::to_string),
        version: engine.map(str::to_string),
    }
}

#[test]
fn resolve_extra_hosts_use_keyword_when_supported() {
    let mut support = HostGatewaySupport::new();
    support.override_host_gateway_support(Some(true));
    let request = ContainerRequest::new().with_host_access();

    let hosts = match resolve_extra_hosts(&request, support.known_support(), None) {
        Ok(ExtraHosts::Resolved(hosts)) => hosts,
        other => panic!("unexpected step {other:?}"),
    };

    let (_, value) = hosts
        .into_iter()
        .find(|(key, _)| key == HOST_INTERNAL_ALIAS)
        .expect("alias missing");

    assert_eq!(value, "host-gateway");
}

#[test]
fn resolve_extra_hosts_use_ip_when_not_supported() {
    let mut support = HostGatewaySupport::new();
    support.override_host_gateway_support(Some(false));
    let request = ContainerRequest::new().with_host_access();
    assert_eq!(
        resolve_extra_hosts(&request, support.known_support(), None),
        Ok(ExtraHosts::AskGateway { network: None })
    );
    let bridge: Result<Network, String> = Ok(network(vec![Some("172.17.0.1")]));
    let gateway = inspect_network_gateway(&bridge, &parse);

    let hosts = match resolve_extra_hosts(&request, support.known_support(), Some(gateway)) {
        Ok(ExtraHosts::Resolved(hosts)) => hosts,
        other => panic!("unexpected step {other:?}"),
    };

    let (_, value) = hosts
        .into_iter()
        .find(|(key, _)| key == HOST_INTERNAL_ALIAS)
        .expect("alias missing");

    assert_ne!(value, "host-gateway");
    assert!(parse(&value).is_some());
}

#[test]
fn fixed_addresses_need_nothing_found_out() {
    let request = ContainerRequest::new()
        .with_host("db", Host::Addr(ip("10.0.0.5")))
        .with_host("cache", Host::Addr(ip("::1")));
    assert_eq!(
        resolve_extra_hosts(&request, None, None),
        Ok(ExtraHosts::Resolved(vec![
            ("db".to_string(), "10.0.0.5".to_string()),
            ("cache".to_string(), "::1".to_string()),
        ]))
    );
    assert_eq!(
        resolve_extra_hosts(&ContainerRequest::new(), None, None),
        Ok(ExtraHosts::Resolved(vec![]))
    );
}

#[test]
fn gateways_are_found_out_step_by_step() {
    let request = ContainerRequest::new()
        .with_host("db", Host::Addr(ip("10.0.0.5")))
        .with_host_access()
        .with_host("other", Host::HostGateway)
        .with_network("net");
    assert_eq!(resolve_extra_hosts(&request, None, None), Ok(ExtraHosts::AskEngine));
    assert_eq!(
        resolve_extra_hosts(&request, Some(false), None),
        Ok(ExtraHosts::AskGateway { network: Some("net".to_string()) })
    );
    assert_eq!(
        resolve_extra_hosts(&request, Some(false), Some(None)),
        Err(HostAccessError::MissingGateway { network: Some("net".to_string()) })
    );
    assert_eq!(
        resolve_extra_hosts(&request, Some(false), Some(Some(ip("172.18.0.1")))),
        Ok(ExtraHosts::Resolved(vec![
            ("db".to_string(), "10.0.0.5".to_string()),
            (HOST_INTERNAL_ALIAS.to_string(), "172.18.0.1".to_string()),
            ("other".to_string(), "172.18.0.1".to_string()),
        ]))
    );
    assert_eq!(
        resolve_extra_hosts(&request, Some(true), Some(Some(ip("172.18.0.1")))),
        Ok(ExtraHosts::Resolved(vec![
            ("db".to_string(), "10.0.0.5".to_string()),
            (HOST_INTERNAL_ALIAS.to_string(), "host-gateway".to_string()),
            ("other".to_string(), "host-gateway".to_string()),
        ]))
    );
}

#[test]
fn access_errors_have_their_messages() {
    assert_eq!(
        HostAccessError::MissingGateway { network: None }.message(),
        "failed to discover host gateway for network mode 'None'"
    );
    assert_eq!(
        HostAccessError::MissingGateway { network: Some("my-net_1".to_string()) }.message(),
        "failed to discover host gateway for network mode 'Some(\"my-net_1\")'"
    );
    assert_eq!(
        HostAccessError::ProbeOutput { network: Some("container:a.b".to_string()) }.message(),
        "gateway probe did not return an IP address for network mode 'Some(\"container:a.b\")'"
    );
    assert_eq!(
        HostAccessError::ProbeOutput { network: Some("a\"b".to_string()) }.message(),
        "gateway probe did not return an IP address for network mode 'Some(\"a\\\"b\")'"
    );
    assert_eq!(network_mode_message("x", "y"), "x for network mode 'y'");
}

#[test]
fn naming_a_host_again_replaces_it_in_place() {
    let request = ContainerRequest::new()
        .with_host("a", Host::HostGateway)
        .with_host("b", Host::Addr(ip("10.0.0.1")))
        .with_host("a", Host::Addr(ip("10.0.0.2")));
    let hosts: Vec<(String, String)> =
        request.hosts().iter().map(|(key, host)| (key.clone(), host.text())).collect();
    assert_eq!(
        hosts,
        vec![
            ("a".to_string(), "10.0.0.2".to_string()),
            ("b".to_string(), "10.0.0.1".to_string()),
        ]
    );
    assert!(request.has_host("a"));
    assert!(!request.has_host("c"));
}

#[test]
fn api_versions_count_from_the_threshold_on() {
    for supported in ["1.41", "1.42", "2.0", "1.410", "2", "+1.+41", "1.41.9", "1.0041", "10"] {
        assert!(api_supports_host_gateway(supported), "{supported}");
    }
    for unsupported in
        ["1.40", "1", "0.99", "", ".", "1.", "1.x", "x.41", " 1.41", "1.41 ", "v1.41", "1.-41", "1,41", "99999999999999999999.0"]
    {
        assert!(!api_supports_host_gateway(unsupported), "{unsupported}");
    }
    assert!(api_supports_host_gateway("18446744073709551615.0"));
}

#[test]
fn engine_versions_count_from_the_threshold_on() {
    for supported in ["20.10.0", "20.10.7", " 20.10.0\n", "24.0.5", "28.0.1-rc.1", "20.11.0+build"] {
        assert!(engine_supports_host_gateway(supported), "{supported}");
    }
    for unsupported in ["20.9.9", "19.03.15", "19.3.15", "20.10", "dev", "", "v20.10.0", "20.10.0 x"] {
        assert!(!engine_supports_host_gateway(unsupported), "{unsupported}");
    }
    assert!(release_supports_host_gateway(Some((20, 10))));
    assert!(release_supports_host_gateway(Some((21, 0))));
    assert!(!release_supports_host_gateway(Some((20, 9))));
    assert!(!release_supports_host_gateway(None));
}

#[test]
fn either_version_is_enough() {
    assert!(host_gateway_supported_from_version(&version(Some("1.41"), None)));
    assert!(host_gateway_supported_from_version(&version(None, Some("20.10.0"))));
    assert!(host_gateway_supported_from_version(&version(Some("1.40"), Some("20.10.0"))));
    assert!(host_gateway_supported_from_version(&version(Some("1.41"), Some("19.3.0"))));
    assert!(!host_gateway_supported_from_version(&version(Some("1.40"), Some("19.3.0"))));
    assert!(!host_gateway_supported_from_version(&version(None, None)));
}

#[test]
fn the_first_answer_of_the_engine_is_kept() {
    let mut support = HostGatewaySupport::new();
    assert_eq!(support.known_support(), None);
    assert_eq!(
        support.detect_host_gateway_support(Err("no engine".to_string())),
        Err("no engine".to_string())
    );
    assert_eq!(support.known_support(), None);
    let new: Result<SystemVersion, String> = Ok(version(Some("1.45"), None));
    assert_eq!(support.detect_host_gateway_support(new), Ok(true));
    let old: Result<SystemVersion, String> = Ok(version(Some("1.20"), None));
    assert_eq!(support.detect_host_gateway_support(old), Ok(true));
    assert_eq!(
        support.detect_host_gateway_support(Err::<SystemVersion, String>("gone".to_string())),
        Ok(true)
    );
    support.override_host_gateway_support(Some(false));
    assert_eq!(support.host_gateway_override(), Some(false));
    assert_eq!(support.known_support(), Some(false));
    support.override_host_gateway_support(None);
    assert_eq!(support.known_support(), Some(true));
}

#[test]
fn the_first_address_of_a_network_is_its_gateway() {
    let found = extract_gateway_from_network(
        &network(vec![None, Some("not an address"), Some("10.1.0.1"), Some("10.2.0.1")]),
        &parse,
    );
    assert_eq!(text_of(found), Some("10.1.0.1".to_string()));
    assert_eq!(text_of(extract_gateway_from_network(&network(vec![Some("x")]), &parse)), None);
    assert_eq!(text_of(extract_gateway_from_network(&network(vec![]), &parse)), None);
    assert_eq!(text_of(extract_gateway_from_network(&Network { ipam: None }, &parse)), None);
    let no_config = Network { ipam: Some(Ipam { config: None }) };
    assert_eq!(text_of(extract_gateway_from_network(&no_config, &parse)), None);
    let failed: Result<Network, String> = Err("no such network".to_string());
    assert_eq!(text_of(inspect_network_gateway(&failed, &parse)), None);
}

#[test]
fn containers_name_their_own_gateway_first() {
    let inspected = |gateway: Option<&str>, networks: Option<Vec<Option<&str>>>| -> Result<Option<NetworkSettings>, String> {
        Ok(Some(NetworkSettings {
            gateway: gateway.map(str::to_string),
            networks: networks.map(|all| all.into_iter().map(entry).collect()),
        }))
    };
    let own = inspected(Some("10.0.0.1"), Some(vec![Some("10.9.0.1")]));
    assert_eq!(text_of(inspect_container_gateway(&own, &parse)), Some("10.0.0.1".to_string()));
    let blank = inspected(Some(""), Some(vec![None, Some(""), Some("fe80::1")]));
    assert_eq!(text_of(inspect_container_gateway(&blank, &parse)), Some("fe80::1".to_string()));
    let none = inspected(None, Some(vec![]));
    assert_eq!(text_of(inspect_container_gateway(&none, &parse)), None);
    let nowhere = inspected(None, None);
    assert_eq!(text_of(inspect_container_gateway(&nowhere, &parse)), None);
    let silent: Result<Option<NetworkSettings>, String> = Ok(None);
    assert_eq!(text_of(inspect_container_gateway(&silent, &parse)), None);
    let failed: Result<Option<NetworkSettings>, String> = Err("no such container".to_string());
    assert_eq!(text_of(inspect_container_gateway(&failed, &parse)), None);
}

#[test]
fn network_modes_tell_what_to_inspect() {
    let network_of = |mode: Option<&str>| match inspect_gateway(mode) {
        GatewaySource::Network(name) => name,
        other => panic!("unexpected source {other:?}"),
    };
    assert_eq!(network_of(None), "bridge");
    assert_eq!(network_of(Some("")), "bridge");
    assert_eq!(network_of(Some("my-net")), "my-net");
    assert_eq!(network_of(Some("container")), "container");
    assert!(matches!(
        inspect_gateway(Some("host")),
        GatewaySource::Address(ip) if ip.text() == "127.0.0.1"
    ));
    assert!(matches!(
        inspect_gateway(Some("container:web")),
        GatewaySource::Container(id) if id == "web"
    ));
    assert!(matches!(
        inspect_gateway(Some("container:container:web")),
        GatewaySource::Container(id) if id == "web"
    ));
}

#[test]
fn only_a_fruitless_inspection_runs_the_probe() {
    assert!(matches!(try_discover_gateway(Some(ip("10.0.0.1"))), Discovery::Found(ip) if ip.text() == "10.0.0.1"));
    assert!(matches!(try_discover_gateway(None), Discovery::RunProbe));
}

#[test]
fn gateways_are_kept_per_network() {
    let mut cache = GatewayCache::new();
    assert!(cache.discover_gateway_ip(Some("net")).is_none());
    let kept = cache.remember::<String>(Some("net"), Ok(Some(ip("10.0.0.1")))).unwrap();
    assert_eq!(text_of(kept), Some("10.0.0.1".to_string()));
    assert_eq!(text_of(cache.discover_gateway_ip(Some("net")).unwrap()), Some("10.0.0.1".to_string()));
    assert!(cache.discover_gateway_ip(Some("other")).is_none());
    assert!(cache.discover_gateway_ip(None).is_none());
    assert!(cache.remember(Some("other"), Err("no engine".to_string())).is_err());
    assert!(cache.discover_gateway_ip(Some("other")).is_none());
    cache.remember::<String>(None, Ok(None)).unwrap();
    assert_eq!(text_of(cache.discover_gateway_ip(Some("")).unwrap()), None);
    cache.remember::<String>(Some("net"), Ok(Some(ip("10.0.0.2")))).unwrap();
    assert_eq!(text_of(cache.discover_gateway_ip(Some("net")).unwrap()), Some("10.0.0.2".to_string()));
}

#[test]
fn the_probe_runs_its_script() {
    let container = probe_container(Some("net"));
    assert_eq!(container.image, "alpine:3.20");
    assert_eq!(container.cmd.len(), 3);
    assert_eq!(container.cmd[0], "/bin/sh");
    assert_eq!(container.cmd[1], "-c");
    assert!(container.cmd[2].starts_with("if command -v ip >/dev/null 2>&1; then\n"));
    assert!(container.cmd[2].ends_with("route -n 2>/dev/null | awk 'NR==3 {print $2; exit}'\nfi"));
    assert_eq!(container.network_mode, Some("net".to_string()));
    assert!(!container.auto_remove);
    assert_eq!(probe_container(None).network_mode, None);
}

#[test]
fn the_first_printed_line_is_the_gateway() {
    let read = |output: &[u8]| text_of(gateway_from_probe_output(&output.to_vec(), &parse));
    assert_eq!(read(b"172.17.0.1\n"), Some("172.17.0.1".to_string()));
    assert_eq!(read(b"\r\n \t\n  10.0.0.1 \r\n10.0.0.2\n"), Some("10.0.0.1".to_string()));
    assert_eq!(read(b"fe80:0:0::1"), Some("fe80::1".to_string()));
    assert_eq!(read(b"nonsense\n10.0.0.1\n"), None);
    assert_eq!(read(b"\xff\n10.0.0.1\n"), None);
    assert_eq!(read(b""), None);
    assert_eq!(read(b"\n\n"), None);
    assert_eq!(
        text_of(gateway_in_text("\u{2003}\n\u{a0}10.0.0.3\u{3000}\n", &parse)),
        Some("10.0.0.3".to_string())
    );
}

#[test]
fn malformed_output_is_replaced_before_it_is_read() {
    let seen = |text: &String| Some(IpAddress::new(text.clone()));
    let found = gateway_from_probe_output(&b"a\xffb\n".to_vec(), &seen);
    assert_eq!(text_of(found), Some("a\u{fffd}b".to_string()));
}

fn drive(events: Vec<ProbeEvent<String>>) -> Vec<ProbeState<String>> {
    let mut states = vec![ProbeState::Pulling];
    for event in events {
        let state = states.pop().unwrap();
        let shown = match &state {
            ProbeState::Starting { id } => ProbeState::Starting { id: id.clone() },
            ProbeState::Waiting { id, after_ms } => {
                ProbeState::Waiting { id: id.clone(), after_ms: *after_ms }
            }
            ProbeState::Reading { id } => ProbeState::Reading { id: id.clone() },
            ProbeState::Creating => ProbeState::Creating,
            _ => ProbeState::Pulling,
        };
        states.push(shown);
        states.push(run_gateway_probe(state, event, Some("net"), &parse));
    }
    states
}

#[test]
fn a_probe_that_prints_its_gateway_succeeds() {
    let states = drive(vec![
        ProbeEvent::Pulled(Ok(())),
        ProbeEvent::Created(Ok("c1".to_string())),
        ProbeEvent::Started(Ok(())),
        ProbeEvent::Polled(Ok(None)),
        ProbeEvent::Polled(Ok(Some(1))),
        ProbeEvent::Printed(Ok(b"172.17.0.1\n".to_vec())),
        ProbeEvent::Removed(Err("already gone".to_string())),
    ]);
    assert!(matches!(&states[3], ProbeState::Waiting { id, after_ms: 0 } if id == "c1"));
    assert!(matches!(&states[4], ProbeState::Waiting { id, after_ms: 50 } if id == "c1"));
    assert!(matches!(&states[5], ProbeState::Reading { id } if id == "c1"));
    match states.last() {
        Some(ProbeState::Finished { result: Ok(ip) }) => assert_eq!(ip.text(), "172.17.0.1"),
        other => panic!("unexpected state {other:?}"),
    }
}

#[test]
fn a_probe_that_prints_nothing_useful_fails_after_removal() {
    let mut states = drive(vec![
        ProbeEvent::Pulled(Ok(())),
        ProbeEvent::Created(Ok("c1".to_string())),
        ProbeEvent::Started(Ok(())),
        ProbeEvent::Polled(Ok(Some(0))),
        ProbeEvent::Printed(Ok(b"nothing\n".to_vec())),
    ]);
    let state = states.pop().unwrap();
    assert!(matches!(&state, ProbeState::Removing { id, .. } if id == "c1"));
    match run_gateway_probe(state, ProbeEvent::Removed(Ok(())), Some("net"), &parse) {
        ProbeState::Finished {
            result: Err(ProbeError::Access(HostAccessError::ProbeOutput { network })),
        } => assert_eq!(network, Some("net".to_string())),
        other => panic!("unexpected state {other:?}"),
    }
}

#[test]
fn engine_failures_end_the_probe_and_remove_its_container() {
    let before_creation = [
        vec![ProbeEvent::Pulled(Err("no image".to_string()))],
        vec![ProbeEvent::Pulled(Ok(())), ProbeEvent::Created(Err("no space".to_string()))],
    ];
    for events in before_creation {
        assert!(matches!(
            drive(events).last(),
            Some(ProbeState::Finished { result: Err(ProbeError::Client(_)) })
        ));
    }
    let created = || {
        vec![ProbeEvent::Pulled(Ok(())), ProbeEvent::Created(Ok("c1".to_string()))]
    };
    let mut at_start = created();
    at_start.push(ProbeEvent::Started(Err("failed".to_string())));
    let mut at_poll = created();
    at_poll.push(ProbeEvent::Started(Ok(())));
    at_poll.push(ProbeEvent::Polled(Err("failed".to_string())));
    let mut at_read = created();
    at_read.push(ProbeEvent::Started(Ok(())));
    at_read.push(ProbeEvent::Polled(Ok(Some(0))));
    at_read.push(ProbeEvent::Printed(Err("failed".to_string())));
    for events in [at_start, at_poll, at_read] {
        match drive(events).pop() {
            Some(ProbeState::Removing { id, result: Err(ProbeError::Client(err)) }) => {
                assert_eq!(id, "c1");
                assert_eq!(err, "failed");
            }
            other => panic!("unexpected state {other:?}"),
        }
    }
}

#[test]
fn text_is_taken_apart_by_characters() {
    assert!(same_text("h\u{f6}st", "h\u{f6}st"));
    assert!(!same_text("host", "hosts"));
    assert!(has_prefix("container:web", "container:"));
    assert!(has_prefix("abc", ""));
    assert!(!has_prefix("contain", "container:"));
    assert_eq!(strip_all_leading("aaab", "aa"), "ab");
    assert_eq!(strip_all_leading("abc", ""), "abc");
    assert_eq!(split_at_first("a.b.c", '.'), ("a", Some("b.c")));
    assert_eq!(split_at_first("abc", '.'), ("abc", None));
    assert_eq!(split_at_first("", '.'), ("", None));
    assert_eq!(first_printed_line("\n  x y \n"), Some("x y".to_string()));
    assert_eq!(first_printed_line("\u{85}\u{1680}\u{2028}\u{205f}"), None);
}

#[test]
fn numbers_are_read_and_written_in_decimal() {
    for n in [0u64, 9, 10, 65535, 1000000007, u64::MAX] {
        assert_eq!(decimal_text(n), n.to_string());
        assert_eq!(parse_u64(&decimal_text(n)), Some(n));
    }
    for text in ["", "+", "-1", "-0", "++1", "1_0", " 1", "1 ", "0x1", "18446744073709551616", "\u{661}"] {
        assert_eq!(parse_u64(text), None, "{text}");
        assert!(text.parse::<u64>().is_err(), "{text}");
    }
    assert_eq!(parse_u64("+007"), Some(7));
}
