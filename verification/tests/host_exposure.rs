use testcontainers::host_exposure::connect::{
    check_authentication, establish_ssh_connection, session_settings, AddressFamily,
    ConnectOutcome, ConnectRetry, ConnectStep, EngineHost, SshAction, SshEvent,
};
use testcontainers::host_exposure::error::{map_ssh_error, ExposureError, HostExposeError};
use testcontainers::host_exposure::forward::{
    forward_connection, forward_step, open_forwarded_tcpip, ForwardAction, ForwardStage,
    ForwardState,
};
use testcontainers::host_exposure::lifecycle::{
    begin_setup, setup, sshd_sidecar, HostPortExposure, SetupEvent, SetupStage,
};
use testcontainers::host_exposure::plan::{
    password_from_ulid, plan_with_ulid, prepare_host_exposure, sort_and_dedup, HostExposurePlan,
};
use testcontainers::host_exposure::ports::PortRegistration;
use testcontainers::request::{
    ContainerRequest, Host, IpAddress, ReuseDirective, HOST_INTERNAL_ALIAS,
};

fn plan_of(request: &ContainerRequest) -> HostExposurePlan {
    prepare_host_exposure(request).unwrap().unwrap()
}

fn refusal_of(request: ContainerRequest) -> ExposureError {
    prepare_host_exposure(&request).unwrap_err()
}

fn ip(text: &str) -> IpAddress {
    IpAddress::new(text.to_string())
}

#[test]
fn fails_when_alias_conflicts() {
    let request = ContainerRequest::new()
        .with_host("host.testcontainers.internal", Host::HostGateway)
        .with_exposed_host_port(8080);

    let err = refusal_of(request);
    let msg = err.message();
    assert!(msg.contains("host port exposure"), "unexpected error message: {msg}");
}

#[test]
fn fails_when_exposing_reserved_port() {
    let request = ContainerRequest::new().with_exposed_host_port(22);

    let err = refusal_of(request);
    let msg = err.message();
    assert!(msg.contains("SSH port is reserved"), "unexpected error message: {msg}");
}

#[test]
fn nothing_is_planned_without_ports() {
    assert!(prepare_host_exposure(&ContainerRequest::new()).unwrap().is_none());
    let empty = ContainerRequest::new().with_exposed_host_ports(vec![]);
    assert!(prepare_host_exposure(&empty).unwrap().is_none());
    let conflicting = ContainerRequest::new().with_network("host").with_host_access();
    assert!(prepare_host_exposure(&conflicting).unwrap().is_none());
}

#[test]
fn every_refusal_has_its_message() {
    let exposing = |port: u16| ContainerRequest::new().with_exposed_host_port(port);
    assert_eq!(
        refusal_of(exposing(0)).message(),
        "host port exposure requires ports greater than zero (port 0 is invalid)"
    );
    assert_eq!(
        refusal_of(exposing(22)).message(),
        "host port exposure does not support exposing port 22 (SSH port is reserved)"
    );
    assert_eq!(
        refusal_of(exposing(80).with_host_access()).message(),
        "host port exposure is not supported when 'host.testcontainers.internal' is already defined"
    );
    assert_eq!(
        refusal_of(exposing(80).with_network("host")).message(),
        "host port exposure is not supported with host network mode"
    );
    assert_eq!(
        refusal_of(exposing(80).with_network("container:web")).message(),
        "host port exposure is not supported with container network mode"
    );
    assert_eq!(
        refusal_of(exposing(80).with_reuse(ReuseDirective::Always)).message(),
        "host port exposure is not supported for reusable containers (due to SSH tunnel conflicts)"
    );
    assert_eq!(
        refusal_of(exposing(80).with_reuse(ReuseDirective::CurrentSession)),
        ExposureError::ReusableContainer
    );
}

#[test]
fn refusals_are_ranked() {
    let worst = ContainerRequest::new()
        .with_exposed_host_ports(vec![22, 0])
        .with_host_access()
        .with_network("host")
        .with_reuse(ReuseDirective::Always);
    assert_eq!(refusal_of(worst), ExposureError::PortZero);
    let reserved = ContainerRequest::new().with_exposed_host_port(22).with_host_access();
    assert_eq!(refusal_of(reserved), ExposureError::ReservedPort);
    let alias = ContainerRequest::new()
        .with_exposed_host_port(80)
        .with_host_access()
        .with_network("container:web");
    assert_eq!(refusal_of(alias), ExposureError::AliasDefined);
    let network = ContainerRequest::new()
        .with_exposed_host_port(80)
        .with_network("container:")
        .with_reuse(ReuseDirective::Always);
    assert_eq!(refusal_of(network), ExposureError::ContainerNetwork);
}

#[test]
fn similar_networks_are_not_refused() {
    for network in ["hosts", "Host", "container", "my-container:x", ""] {
        let request = ContainerRequest::new().with_exposed_host_port(80).with_network(network);
        assert_eq!(plan_of(&request).network, Some(network.to_string()));
    }
}

#[test]
fn plans_carry_what_the_sidecar_needs() {
    let request = ContainerRequest::new()
        .with_exposed_host_ports(vec![9000, 80, 9000])
        .with_exposed_host_port(443)
        .with_network("net");
    let plan = plan_of(&request);
    assert_eq!(plan.requested_ports, vec![80, 443, 9000]);
    assert_eq!(plan.network, Some("net".to_string()));
    assert_eq!(plan.ssh_username, "root");
    assert_eq!(plan.ssh_port, 22);
    assert_eq!(plan.ssh_max_attempts, 20);
    assert_eq!(plan.ssh_retry_delay_ms, 100);
    assert_eq!(plan.ssh_max_retry_delay_ms, 2000);

    let sidecar = sshd_sidecar(&plan);
    assert_eq!(sidecar.image, "testcontainers/sshd");
    assert_eq!(sidecar.tag, "1.3.0");
    assert_eq!(sidecar.exposed_port, 22);
    assert_eq!(sidecar.wait_seconds, 1);
    assert_eq!(sidecar.env, vec![("PASSWORD".to_string(), plan.password.clone())]);
    assert_eq!(sidecar.network, Some("net".to_string()));
}

#[test]
fn passwords_are_fresh_ulids() {
    let request = ContainerRequest::new().with_exposed_host_port(80);
    let first = plan_of(&request).password;
    let second = plan_of(&request).password;
    assert_ne!(first, second);
    for password in [first, second] {
        let ulid = password.strip_prefix("tc-").unwrap();
        assert_eq!(ulid.len(), 26);
        assert!(ulid.chars().all(|c| "0123456789ABCDEFGHJKMNPQRSTVWXYZ".contains(c)));
        assert!(ulid::Ulid::from_string(ulid).is_ok());
    }
    let plan = plan_with_ulid(&request, "01D39ZY06FGSCTVN4T2V9PKHFZ").unwrap().unwrap();
    assert_eq!(plan.password, "tc-01D39ZY06FGSCTVN4T2V9PKHFZ");
    assert_eq!(plan.requested_ports, vec![80]);
    assert_eq!(password_from_ulid("01D39ZY06FGSCTVN4T2V9PKHFZ"), "tc-01D39ZY06FGSCTVN4T2V9PKHFZ");
}

#[test]
fn port_order_and_repetition_make_no_difference() {
    assert_eq!(sort_and_dedup(&vec![3, 1, 2, 3, 1]), vec![1, 2, 3]);
    assert_eq!(sort_and_dedup(&vec![2, 3, 1]), vec![1, 2, 3]);
    assert_eq!(sort_and_dedup(&vec![65535, 0, 65535]), vec![0, 65535]);
    assert_eq!(sort_and_dedup(&vec![]), Vec::<u16>::new());
}

#[test]
fn refused_connections_are_tried_again_with_growing_waits() {
    let plan = plan_of(&ContainerRequest::new().with_exposed_host_port(80));
    let host = EngineHost::Domain("localhost".to_string());
    let mut retry = ConnectRetry::new(&plan);
    let mut waits = Vec::new();
    let failure = loop {
        let outcome = ConnectOutcome::Refused("connection refused".to_string());
        match retry.connect_with_retry(&plan, &host, 40022, outcome) {
            ConnectStep::Retry { after_ms } => waits.push(after_ms),
            ConnectStep::Failed(err) => break err,
            ConnectStep::Established => panic!("no stream was offered"),
        }
    };
    let mut expected = vec![100, 200, 400, 800, 1600];
    expected.extend(vec![2000; 15]);
    assert_eq!(waits, expected);
    assert_eq!(
        failure.message(),
        "failed to connect to sshd sidecar at localhost:40022: connection refused"
    );
}

#[test]
fn connections_end_the_attempts() {
    let plan = plan_of(&ContainerRequest::new().with_exposed_host_port(80));
    let host = EngineHost::Ipv4("127.0.0.1".to_string());
    let mut retry = ConnectRetry::new(&plan);
    assert_eq!(
        retry.connect_with_retry(&plan, &host, 1, ConnectOutcome::Ready),
        ConnectStep::Established
    );
    let step = retry.connect_with_retry(
        &plan,
        &host,
        1,
        ConnectOutcome::NotConfigured("bad socket".to_string()),
    );
    match step {
        ConnectStep::Failed(err) => {
            assert_eq!(err.message(), "failed to configure ssh tcp stream: bad socket")
        }
        other => panic!("unexpected step {other:?}"),
    }
}

#[test]
fn extreme_waits_do_not_overflow() {
    let mut plan = plan_of(&ContainerRequest::new().with_exposed_host_port(80));
    plan.ssh_retry_delay_ms = u64::MAX;
    plan.ssh_max_retry_delay_ms = u64::MAX;
    let host = EngineHost::Ipv4("127.0.0.1".to_string());
    let mut retry = ConnectRetry::new(&plan);
    for _ in 0..3 {
        assert_eq!(
            retry.connect_with_retry(&plan, &host, 1, ConnectOutcome::Refused("no".to_string())),
            ConnectStep::Retry { after_ms: u64::MAX }
        );
    }
    plan.ssh_retry_delay_ms = 500;
    plan.ssh_max_retry_delay_ms = 300;
    let mut retry = ConnectRetry::new(&plan);
    let mut waits = Vec::new();
    for _ in 0..3 {
        if let ConnectStep::Retry { after_ms } =
            retry.connect_with_retry(&plan, &host, 1, ConnectOutcome::Refused("no".to_string()))
        {
            waits.push(after_ms);
        }
    }
    assert_eq!(waits, vec![500, 300, 300]);
}

#[test]
fn hosts_are_written_as_in_urls() {
    assert_eq!(EngineHost::Domain("docker.local".to_string()).text(), "docker.local");
    assert_eq!(EngineHost::Ipv4("10.0.0.1".to_string()).text(), "10.0.0.1");
    assert_eq!(EngineHost::Ipv6("[::1]".to_string()).text(), "[::1]");
    assert_eq!(
        url::Host::<String>::parse("[::1]").unwrap().to_string(),
        EngineHost::Ipv6("[::1]".to_string()).text()
    );
    assert_eq!(
        EngineHost::Domain("d".to_string()).ssh_port_family(),
        AddressFamily::Ipv4
    );
    assert_eq!(EngineHost::Ipv4("10.0.0.1".to_string()).ssh_port_family(), AddressFamily::Ipv4);
    assert_eq!(EngineHost::Ipv6("[::1]".to_string()).ssh_port_family(), AddressFamily::Ipv6);
}

#[test]
fn the_ssh_session_is_established_step_by_step() {
    let plan = plan_of(&ContainerRequest::new().with_exposed_host_port(80));
    assert!(matches!(
        establish_ssh_connection(&plan, SshEvent::Located(EngineHost::Ipv6("[::1]".to_string()))),
        Ok(SshAction::LookUpPort { family: AddressFamily::Ipv6, port: 22 })
    ));
    assert!(matches!(
        establish_ssh_connection(
            &plan,
            SshEvent::PortPublished { host: EngineHost::Ipv6("[::1]".to_string()), port: 4022 }
        ),
        Ok(SshAction::Connect { host, port: 4022 }) if host == "[::1]"
    ));
    match establish_ssh_connection(&plan, SshEvent::StreamOpened) {
        Ok(SshAction::BeginSession(settings)) => {
            assert_eq!(settings, session_settings());
            assert!(settings.nodelay);
            assert_eq!(settings.keepalive_secs, 10);
        }
        other => panic!("unexpected step {other:?}"),
    }
    assert!(matches!(
        establish_ssh_connection(&plan, SshEvent::SessionBegun(Ok(()))),
        Ok(SshAction::LogIn { username, password })
            if username == "root" && password == plan.password
    ));
    assert_eq!(
        establish_ssh_connection(
            &plan,
            SshEvent::SessionBegun(Err(HostExposeError::Ssh("no kex".to_string())))
        )
        .unwrap_err()
        .message(),
        "ssh error: no kex"
    );
    assert_eq!(
        establish_ssh_connection(
            &plan,
            SshEvent::SessionBegun(Err(HostExposeError::from(ExposureError::PortZero)))
        )
        .unwrap_err(),
        ExposureError::PortZero
    );
    assert!(matches!(
        establish_ssh_connection(&plan, SshEvent::Answered(Ok(true))),
        Ok(SshAction::UseSession)
    ));
}

#[test]
fn rejected_credentials_are_reported() {
    assert_eq!(check_authentication(Ok(true)), Ok(()));
    assert_eq!(
        check_authentication(Ok(false)).unwrap_err().message(),
        "SSH authentication failed for host port exposure - check SSHD container logs and credentials"
    );
    assert_eq!(
        check_authentication(Err("timeout".to_string())).unwrap_err().message(),
        "SSH authentication failed for host port exposure: timeout"
    );
    assert_eq!(map_ssh_error("context", "cause"), "context: cause");
}

#[test]
fn ports_are_registered_in_order() {
    let mut registration = PortRegistration::new(vec![80, 443]);
    let request = registration.next_request().unwrap();
    assert_eq!((request.address, request.port), ("0.0.0.0", 80));
    assert_eq!(registration.register_requested_port(Ok(80)), Ok(()));
    assert_eq!(registration.next_request().unwrap().port, 443);
    assert_eq!(registration.register_requested_port(Ok(443)), Ok(()));
    assert!(registration.next_request().is_none());
    assert!(PortRegistration::new(vec![]).next_request().is_none());
}

#[test]
fn registration_stops_at_the_first_wrong_reply() {
    let mut registration = PortRegistration::new(vec![80, 443]);
    assert_eq!(registration.register_requested_port(Ok(80)), Ok(()));
    let err = registration.register_requested_port(Ok(10443)).unwrap_err();
    assert_eq!(
        err.message(),
        "host port exposure required bound port 443, but sshd assigned 10443"
    );
    let err = registration.register_requested_port(Err("denied".to_string())).unwrap_err();
    assert_eq!(err.message(), "failed to request remote port forwarding for 443: denied");
    assert_eq!(registration.next_request().unwrap().port, 443);
}

#[test]
fn finished_tasks_are_forgotten() {
    let mut state: ForwardState<&str> = ForwardState::new();
    state.add_task(&vec![], "a");
    state.add_task(&vec![false], "b");
    state.add_task(&vec![false, false], "c");
    state.add_task(&vec![true, false, true], "d");
    assert_eq!(state.current_tasks(), &vec!["b", "d"]);
    state.add_task(&vec![true, true], "e");
    assert_eq!(state.drain_tasks(), vec!["e"]);
    assert!(state.current_tasks().is_empty());
    assert!(!state.is_stopped());
}

#[test]
fn stopped_forwarding_turns_connections_away() {
    let mut state: ForwardState<u8> = ForwardState::new();
    let connection =
        open_forwarded_tcpip(&state, "172.17.0.2", 8080, "172.17.0.3", 51000).unwrap();
    assert_eq!(connection.host_port, 8080);
    assert_eq!(connection.remote_port, 8080);
    assert_eq!(connection.connected_address, "172.17.0.2");
    assert_eq!(connection.originator_address, "172.17.0.3");
    assert_eq!(connection.originator_port, 51000);
    state.stop();
    assert!(state.is_stopped());
    assert!(open_forwarded_tcpip(&state, "172.17.0.2", 8080, "172.17.0.3", 51000).is_none());
    assert!(open_forwarded_tcpip(&state, "172.17.0.2", 700000, "172.17.0.3", 51000).is_none());
}

#[test]
fn connections_are_carried_in_stages() {
    assert!(matches!(
        forward_connection::<String>(false, 8080),
        ForwardAction::Connect { host: "127.0.0.1", port: 8080 }
    ));
    assert!(matches!(forward_connection::<String>(true, 8080), ForwardAction::Finish(Ok(()))));
    let failed = || Err("broken pipe".to_string());
    assert!(matches!(forward_step::<String>(ForwardStage::Connecting, Ok(())), ForwardAction::SetNoDelay));
    assert!(matches!(
        forward_step(ForwardStage::Connecting, failed()),
        ForwardAction::Finish(Err(err)) if err == "broken pipe"
    ));
    assert!(matches!(forward_step(ForwardStage::Configuring, failed()), ForwardAction::CopyBothWays));
    assert!(matches!(forward_step::<String>(ForwardStage::Copying, Ok(())), ForwardAction::Shutdown));
    assert!(matches!(
        forward_step(ForwardStage::Copying, failed()),
        ForwardAction::Finish(Err(err)) if err == "broken pipe"
    ));
    assert!(matches!(forward_step(ForwardStage::ShuttingDown, failed()), ForwardAction::Finish(Ok(()))));
}

type Stage = SetupStage<String>;

#[test]
fn setup_lets_the_alias_stand_for_the_sidecar() {
    let request = ContainerRequest::new()
        .with_host("db", Host::Addr(ip("10.0.0.5")))
        .with_exposed_host_port(8080);
    let prepared = prepare_host_exposure(&request);
    let (stage, request) = setup(Stage::Preparing, SetupEvent::Prepared(prepared), request);
    assert!(matches!(stage, Stage::StartingSidecar { .. }));
    let (stage, request) = setup(stage, SetupEvent::SidecarStarted(Ok(())), request);
    assert!(matches!(stage, Stage::LocatingSidecar { .. }));
    assert!(!request.has_host(HOST_INTERNAL_ALIAS));
    let (stage, request) = setup(stage, SetupEvent::SidecarLocated(Ok(ip("172.17.0.9"))), request);
    assert!(matches!(stage, Stage::Connecting { .. }));
    assert_eq!(
        hosts_of(&request),
        vec![
            ("db".to_string(), "10.0.0.5".to_string()),
            ("host.testcontainers.internal".to_string(), "172.17.0.9".to_string()),
        ]
    );
    let (stage, request) = setup(stage, SetupEvent::Connected(Ok(())), request);
    match &stage {
        Stage::RegisteringPorts { plan } => assert_eq!(plan.requested_ports, vec![8080]),
        other => panic!("unexpected stage {other:?}"),
    }
    let (stage, request) = setup(stage, SetupEvent::PortsRegistered(Ok(())), request);
    assert!(matches!(stage, Stage::Ready));
    assert_eq!(prepare_host_exposure(&request).unwrap_err(), ExposureError::AliasDefined);
}

fn hosts_of(request: &ContainerRequest) -> Vec<(String, String)> {
    request.hosts().iter().map(|(key, host)| (key.clone(), host.text())).collect()
}

#[test]
fn setup_starts_nothing_without_a_plan() {
    let request = ContainerRequest::new().with_host_access();
    let prepared = prepare_host_exposure(&request);
    let (stage, request) = setup(Stage::Preparing, SetupEvent::Prepared(prepared), request);
    assert!(matches!(stage, Stage::NothingExposed));
    assert_eq!(
        hosts_of(&request),
        vec![(HOST_INTERNAL_ALIAS.to_string(), "host-gateway".to_string())]
    );

    let request = request.with_exposed_host_port(80);
    let prepared = prepare_host_exposure(&request);
    let (stage, request) = setup(Stage::Preparing, SetupEvent::Prepared(prepared), request);
    assert!(matches!(stage, Stage::Refused(ExposureError::AliasDefined)));
    assert_eq!(
        hosts_of(&request),
        vec![(HOST_INTERNAL_ALIAS.to_string(), "host-gateway".to_string())]
    );
}

#[test]
fn setup_begins_with_the_plan_of_its_own_request() {
    let begin = |request: ContainerRequest| -> (Stage, ContainerRequest) { begin_setup(request) };
    assert!(matches!(begin(ContainerRequest::new()).0, Stage::NothingExposed));
    let reserved = ContainerRequest::new().with_exposed_host_port(22);
    assert!(matches!(begin(reserved).0, Stage::Refused(ExposureError::ReservedPort)));
    let request = ContainerRequest::new()
        .with_host("db", Host::Addr(ip("10.0.0.5")))
        .with_exposed_host_ports(vec![9000, 80]);
    let (stage, request) = begin(request);
    assert_eq!(hosts_of(&request), vec![("db".to_string(), "10.0.0.5".to_string())]);
    match stage {
        Stage::StartingSidecar { plan } => {
            assert_eq!(plan.requested_ports, vec![80, 9000]);
            let mut registration = PortRegistration::for_plan(&plan);
            assert_eq!(registration.next_request().unwrap().port, 80);
            assert_eq!(registration.register_requested_port(Ok(80)), Ok(()));
            assert_eq!(registration.next_request().unwrap().port, 9000);
            assert_eq!(registration.register_requested_port(Ok(9000)), Ok(()));
            assert!(registration.next_request().is_none());
        }
        other => panic!("unexpected stage {other:?}"),
    }
}

#[test]
fn setup_ends_with_the_error_of_the_failed_step() {
    let plan = || plan_of(&ContainerRequest::new().with_exposed_host_port(80));
    let failed = || Err("engine is gone".to_string());
    let steps = vec![
        (Stage::StartingSidecar { plan: plan() }, SetupEvent::SidecarStarted(failed())),
        (
            Stage::LocatingSidecar { plan: plan() },
            SetupEvent::SidecarLocated(Err("engine is gone".to_string())),
        ),
        (Stage::Connecting { plan: plan() }, SetupEvent::Connected(failed())),
        (Stage::RegisteringPorts { plan: plan() }, SetupEvent::PortsRegistered(failed())),
    ];
    for (stage, event) in steps {
        let (stage, request) = setup(stage, event, ContainerRequest::new());
        assert!(matches!(stage, Stage::Failed(err) if err == "engine is gone"));
        assert!(request.hosts().is_empty());
    }
}

#[test]
fn exposures_are_scoped_per_container() {
    let first = ContainerRequest::new().with_exposed_host_port(8080);
    let second = ContainerRequest::new().with_exposed_host_port(9090);
    let locate = |request: ContainerRequest, at: &str| {
        let plan = plan_of(&request);
        let located = Stage::LocatingSidecar { plan };
        let (_, request) = setup(located, SetupEvent::SidecarLocated(Ok(ip(at))), request);
        hosts_of(&request)
    };
    assert_eq!(plan_of(&first).requested_ports, vec![8080]);
    assert_eq!(plan_of(&second).requested_ports, vec![9090]);
    assert_eq!(
        locate(first, "172.17.0.2"),
        vec![(HOST_INTERNAL_ALIAS.to_string(), "172.17.0.2".to_string())]
    );
    assert_eq!(
        locate(second, "172.17.0.3"),
        vec![(HOST_INTERNAL_ALIAS.to_string(), "172.17.0.3".to_string())]
    );
}

#[test]
fn shutting_down_twice_is_shutting_down_once() {
    let mut state: ForwardState<u8> = ForwardState::new();
    state.add_task(&vec![], 1);
    state.add_task(&vec![false], 2);
    let mut exposure = HostPortExposure::new("session");
    let plan = exposure.shutdown(&mut state, true);
    assert_eq!(plan.disconnect, Some("session"));
    assert_eq!(plan.abort, vec![1, 2]);
    assert!(state.is_stopped());
    let again = exposure.shutdown(&mut state, true);
    assert_eq!(again.disconnect, None);
    assert!(again.abort.is_empty());
    assert!(state.is_stopped());
}

#[test]
fn without_a_runtime_the_session_is_given_up() {
    let mut state: ForwardState<u8> = ForwardState::new();
    state.add_task(&vec![], 1);
    let mut exposure = HostPortExposure::new("session");
    let plan = exposure.shutdown(&mut state, false);
    assert_eq!(plan.disconnect, None);
    assert_eq!(plan.abort, vec![1]);
    assert_eq!(exposure.shutdown(&mut state, true).disconnect, None);
}
