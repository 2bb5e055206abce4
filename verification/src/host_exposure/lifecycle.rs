//! Setting host port exposure up and taking it down.

use vstd::prelude::*;

use crate::host_access::extra_hosts::resolved;
use crate::host_exposure::error::ExposureError;
use crate::host_exposure::forward::ForwardState;
use crate::host_exposure::plan::{
    asks_for, asks_for_any, has_password_form, is_drawn_password, is_just, names_the_host,
    plans_for, prepare_host_exposure, refusal, wanted_ports, HostExposurePlan,
};
use crate::request::{
    defines, with_entry, ContainerRequest, Host, HostView, IpAddress, RequestView, HOST_INTERNAL_ALIAS,
};

verus! {

/// The container that serves SSH.
#[derive(Debug, PartialEq, Eq)]
pub struct SidecarRequest {
    pub image: String,
    pub tag: String,
    /// The TCP port that the engine publishes.
    pub exposed_port: u16,
    /// How many seconds to wait after its start.
    pub wait_seconds: u64,
    pub env: Vec<(String, String)>,
    pub network: Option<String>,
}

/// The sidecar that a plan calls for.
pub fn sshd_sidecar(plan: &HostExposurePlan) -> (res: SidecarRequest)
    ensures
        res.image@ == plan.ssh_image@,
        res.tag@ == plan.ssh_tag@,
        res.exposed_port == plan.ssh_port,
        res.wait_seconds == 1,
        res.env@.len() == 1,
        res.env@[0].0@ == "PASSWORD"@,
        res.env@[0].1@ == plan.password@,
        res.network == plan.network,
{
    let mut env: Vec<(String, String)> = Vec::new();
    env.push((String::from("PASSWORD"), plan.password.clone()));
    SidecarRequest {
        image: plan.ssh_image.to_owned(),
        tag: plan.ssh_tag.to_owned(),
        exposed_port: plan.ssh_port,
        wait_seconds: 1,
        env,
        network: match &plan.network {
            Some(network) => Some(network.clone()),
            None => None,
        },
    }
}

/// The steps in which exposure is set up, where the engine fails with an `E`.
#[derive(Debug)]
pub enum SetupStage<E> {
    /// It is being decided whether and how ports are exposed.
    Preparing,
    /// The sidecar is being started.
    StartingSidecar { plan: HostExposurePlan },
    /// The address of the sidecar on the bridge is being asked for.
    LocatingSidecar { plan: HostExposurePlan },
    /// The SSH session is being established.
    Connecting { plan: HostExposurePlan },
    /// The SSH server is being asked to forward the ports.
    RegisteringPorts { plan: HostExposurePlan },
    /// The ports are exposed.
    Ready,
    /// There is nothing to expose.
    NothingExposed,
    /// The ports cannot be exposed.
    Refused(ExposureError),
    /// A step of the setup failed.
    Failed(E),
}

/// How a step of the setup ended.
#[derive(Debug)]
pub enum SetupEvent<E> {
    Prepared(Result<Option<HostExposurePlan>, ExposureError>),
    SidecarStarted(Result<(), E>),
    SidecarLocated(Result<IpAddress, E>),
    Connected(Result<(), E>),
    PortsRegistered(Result<(), E>),
}

/// Whether `event` can end `stage`.
pub open spec fn can_end<E>(stage: SetupStage<E>, event: SetupEvent<E>) -> bool {
    match event {
        SetupEvent::Prepared(_) => stage is Preparing,
        SetupEvent::SidecarStarted(_) => stage is StartingSidecar,
        SetupEvent::SidecarLocated(_) => stage is LocatingSidecar,
        SetupEvent::Connected(_) => stage is Connecting,
        SetupEvent::PortsRegistered(_) => stage is RegisteringPorts,
    }
}

/// The stage that follows `stage` when it ends with `event`.
pub open spec fn stage_after<E>(stage: SetupStage<E>, event: SetupEvent<E>) -> SetupStage<E> {
    match (event, stage) {
        (SetupEvent::Prepared(Ok(None)), _) => SetupStage::NothingExposed,
        (SetupEvent::Prepared(Ok(Some(plan))), _) => SetupStage::StartingSidecar { plan },
        (SetupEvent::Prepared(Err(err)), _) => SetupStage::Refused(err),
        (SetupEvent::SidecarStarted(Err(err)), _) => SetupStage::Failed(err),
        (SetupEvent::SidecarLocated(Err(err)), _) => SetupStage::Failed(err),
        (SetupEvent::Connected(Err(err)), _) => SetupStage::Failed(err),
        (SetupEvent::PortsRegistered(Err(err)), _) => SetupStage::Failed(err),
        (_, SetupStage::StartingSidecar { plan }) => SetupStage::LocatingSidecar { plan },
        (_, SetupStage::LocatingSidecar { plan }) => SetupStage::Connecting { plan },
        (_, SetupStage::Connecting { plan }) => SetupStage::RegisteringPorts { plan },
        (_, SetupStage::RegisteringPorts { .. }) => SetupStage::Ready,
        (_, ended) => ended,
    }
}

/// The request after `event`: the alias of the host stands for the sidecar once it is located.
pub open spec fn request_after<E>(request: RequestView, event: SetupEvent<E>) -> RequestView {
    match event {
        SetupEvent::SidecarLocated(Ok(bridge_ip)) => located(request, bridge_ip),
        _ => request,
    }
}

/// A request with the alias of the host standing for the sidecar at `bridge_ip`.
pub open spec fn located(request: RequestView, bridge_ip: IpAddress) -> RequestView {
    RequestView {
        hosts: with_entry(request.hosts, HOST_INTERNAL_ALIAS@, HostView::Addr(bridge_ip@)),
        ..request
    }
}

/// Takes the setup one step further. It starts nothing where there is nothing to expose or the
/// ports cannot be exposed, and changes the request only once the sidecar is located.
pub fn setup<E>(stage: SetupStage<E>, event: SetupEvent<E>, request: ContainerRequest) -> (res: (
    SetupStage<E>,
    ContainerRequest,
))
    requires
        can_end(stage, event),
    ensures
        res.0 == stage_after(stage, event),
        res.1@ == request_after(request@, event),
{
    match (event, stage) {
        (SetupEvent::Prepared(Ok(Some(plan))), _) => (SetupStage::StartingSidecar { plan }, request),
        (SetupEvent::Prepared(Ok(None)), _) => (SetupStage::NothingExposed, request),
        (SetupEvent::Prepared(Err(err)), _) => (SetupStage::Refused(err), request),
        (SetupEvent::SidecarStarted(Err(err)), _) => (SetupStage::Failed(err), request),
        (SetupEvent::SidecarLocated(Err(err)), _) => (SetupStage::Failed(err), request),
        (SetupEvent::Connected(Err(err)), _) => (SetupStage::Failed(err), request),
        (SetupEvent::PortsRegistered(Err(err)), _) => (SetupStage::Failed(err), request),
        (SetupEvent::SidecarLocated(Ok(bridge_ip)), SetupStage::LocatingSidecar { plan }) => (
            SetupStage::Connecting { plan },
            request.with_host(HOST_INTERNAL_ALIAS, Host::Addr(bridge_ip)),
        ),
        (_, SetupStage::StartingSidecar { plan }) => (SetupStage::LocatingSidecar { plan }, request),
        (_, SetupStage::Connecting { plan }) => (SetupStage::RegisteringPorts { plan }, request),
        (_, SetupStage::RegisteringPorts { .. }) => (SetupStage::Ready, request),
        (_, ended) => (ended, request),
    }
}

/// Begins the setup for a request: whether a sidecar is started, and with which plan, rests on the
/// request alone.
pub fn begin_setup<E>(request: ContainerRequest) -> (res: (SetupStage<E>, ContainerRequest))
    ensures
        res.1@ == request@,
        wanted_ports(request@).len() == 0 ==> res.0 is NothingExposed,
        wanted_ports(request@).len() > 0 && refusal(request@) is Some ==> res.0
            == SetupStage::<E>::Refused(refusal(request@)->0),
        wanted_ports(request@).len() > 0 && refusal(request@) is None ==> {
            &&& res.0 matches SetupStage::StartingSidecar { plan }
            &&& plans_for(plan, request@)
            &&& is_drawn_password(plan.password@)
            &&& has_password_form(plan.password@)
        },
{
    let prepared = prepare_host_exposure(&request);
    setup(SetupStage::Preparing, SetupEvent::Prepared(prepared), request)
}

/// The side of an exposure that lives on the host: the SSH session, until it is shut down.
#[derive(Debug)]
pub struct HostPortExposure<H> {
    ssh_handle: Option<H>,
}

/// What is to be done to shut an exposure down.
#[derive(Debug)]
pub struct ShutdownPlan<H, T> {
    /// The SSH session to disconnect, in the background.
    pub disconnect: Option<H>,
    /// The tasks to abort.
    pub abort: Vec<T>,
}

/// The mathematical model of an exposure together with its connections.
pub struct ExposureView<H, T> {
    pub ssh_handle: Option<H>,
    pub stopped: bool,
    pub tasks: Seq<T>,
}

/// What a shutdown leaves of an exposure, the session it disconnects and the tasks it aborts.
pub open spec fn shut_down<H, T>(before: ExposureView<H, T>, runtime_available: bool) -> (
    ExposureView<H, T>,
    Option<H>,
    Seq<T>,
) {
    (
        ExposureView { ssh_handle: None, stopped: true, tasks: Seq::empty() },
        if runtime_available {
            before.ssh_handle
        } else {
            None
        },
        before.tasks,
    )
}

impl<H> HostPortExposure<H> {
    /// The SSH session, where it has not been shut down.
    pub closed spec fn ssh_handle(&self) -> Option<H> {
        self.ssh_handle
    }

    /// The exposure together with its connections.
    pub open spec fn with_state<T>(&self, state: ForwardState<T>) -> ExposureView<H, T> {
        ExposureView {
            ssh_handle: self.ssh_handle(),
            stopped: state.stopped(),
            tasks: state.tasks(),
        }
    }

    /// The exposure that `ssh_handle` carries.
    pub fn new(ssh_handle: H) -> (res: Self)
        ensures
            res.ssh_handle() == Some(ssh_handle),
    {
        HostPortExposure { ssh_handle: Some(ssh_handle) }
    }

    /// Stops forwarding and hands out what is left to do: the session is disconnected only where
    /// there is a runtime to do so, and given up in any case; all tasks are aborted.
    pub fn shutdown<T>(&mut self, state: &mut ForwardState<T>, runtime_available: bool) -> (res:
        ShutdownPlan<H, T>)
        ensures
            shut_down(old(self).with_state(*old(state)), runtime_available) == (
                final(self).with_state(*final(state)),
                res.disconnect,
                res.abort@,
            ),
    {
        state.stop();
        let handle = self.ssh_handle.take();
        let disconnect = if runtime_available {
            handle
        } else {
            None
        };
        let abort = state.drain_tasks();
        ShutdownPlan { disconnect, abort }
    }
}

/// An exposure claims the alias of the host: once the sidecar of a request that could be exposed
/// is located, the same request cannot be exposed a second time.
pub proof fn law_exposure_claims_the_alias(request: RequestView, bridge_ip: IpAddress)
    requires
        refusal(request) is None,
    ensures
        refusal(located(request, bridge_ip)) == Some(
            ExposureError::AliasDefined,
        ),
        located(request, bridge_ip).hosts == request.hosts.push(
            (HOST_INTERNAL_ALIAS@, HostView::Addr(bridge_ip@)),
        ),
{
    let after = located(request, bridge_ip);
    assert(after.hosts[request.hosts.len() as int].0 == HOST_INTERNAL_ALIAS@);
}

/// The alias leads to the sidecar: whatever the engine's gateway is, the extra hosts of a request
/// whose sidecar is located let the alias stand for the address of the sidecar, and every other
/// name for what it stood for.
pub proof fn law_alias_leads_to_the_sidecar(
    request: RequestView,
    bridge_ip: IpAddress,
    gateway: Seq<char>,
)
    requires
        refusal(request) is None,
    ensures
        resolved(
            located(request, bridge_ip).hosts,
            gateway,
        ) == resolved(request.hosts, gateway).push((HOST_INTERNAL_ALIAS@, bridge_ip@)),
{
    let entry = (HOST_INTERNAL_ALIAS@, HostView::Addr(bridge_ip@));
    assert(resolved(request.hosts.push(entry), gateway) =~= resolved(request.hosts, gateway).push(
        (HOST_INTERNAL_ALIAS@, bridge_ip@),
    ));
}

/// Without a plan nothing is started and nothing changes: where there is nothing to expose, or the
/// ports cannot be exposed, the setup is over, with just that said, and the request is as it was.
pub proof fn law_nothing_starts_without_a_plan<E>(
    prepared: Result<Option<HostExposurePlan>, ExposureError>,
    request: RequestView,
    next: SetupEvent<E>,
)
    requires
        !(prepared matches Ok(Some(_))),
    ensures
        stage_after(SetupStage::<E>::Preparing, SetupEvent::Prepared(prepared)) == (match prepared {
            Ok(_) => SetupStage::<E>::NothingExposed,
            Err(err) => SetupStage::Refused(err),
        }),
        !can_end(stage_after(SetupStage::<E>::Preparing, SetupEvent::Prepared(prepared)), next),
        request_after(request, SetupEvent::<E>::Prepared(prepared)) == request,
{
}

/// The setup carries its plan from stage to stage, so that the ports that are registered are those
/// that were planned.
pub proof fn law_setup_keeps_its_plan<E>(
    plan: HostExposurePlan,
    started: SetupEvent<E>,
    found: SetupEvent<E>,
    connected: SetupEvent<E>,
)
    requires
        started matches SetupEvent::SidecarStarted(Ok(_)),
        found matches SetupEvent::SidecarLocated(Ok(_)),
        connected matches SetupEvent::Connected(Ok(_)),
    ensures
        stage_after(
            stage_after(
                stage_after(
                    stage_after(
                        SetupStage::<E>::Preparing,
                        SetupEvent::Prepared(Ok(Some(plan))),
                    ),
                    started,
                ),
                found,
            ),
            connected,
        ) == (SetupStage::<E>::RegisteringPorts { plan }),
{
}

/// Exposures are scoped per container: whatever others ask for, the plan of a container exposes
/// just the ports that it asked for itself, and its alias leads to its own sidecar alone.
pub proof fn law_exposures_are_scoped_per_container(
    mine: RequestView,
    my_plan: HostExposurePlan,
    my_sidecar: IpAddress,
    port: u16,
    gateway: Seq<char>,
)
    requires
        plans_for(my_plan, mine),
        refusal(mine) is None,
    ensures
        my_plan.requested_ports@.contains(port) <==> wanted_ports(mine).contains(port),
        resolved(located(mine, my_sidecar).hosts, gateway).contains(
            (HOST_INTERNAL_ALIAS@, my_sidecar@),
        ),
        forall|addr: Seq<char>|
            resolved(located(mine, my_sidecar).hosts, gateway).contains((HOST_INTERNAL_ALIAS@, addr))
                ==> addr == my_sidecar@,
{
    law_alias_leads_to_the_sidecar(mine, my_sidecar, gateway);
    let before = resolved(mine.hosts, gateway);
    let after = resolved(located(mine, my_sidecar).hosts, gateway);
    assert(after[before.len() as int] == (HOST_INTERNAL_ALIAS@, my_sidecar@));
    assert forall|addr: Seq<char>| after.contains((HOST_INTERNAL_ALIAS@, addr)) implies addr
        == my_sidecar@ by {
        let i = choose|i: int| 0 <= i < after.len() && after[i] == (HOST_INTERNAL_ALIAS@, addr);
        if i < before.len() {
            assert(before[i].0 == mine.hosts[i].0);
        }
    }
}

/// Taking an exposure down a second time does nothing: it finds no session to disconnect and no
/// task to abort, and leaves the exposure as it is.
pub proof fn law_second_shutdown_does_nothing<H, T>(
    before: ExposureView<H, T>,
    first_runtime: bool,
    second_runtime: bool,
)
    ensures
        shut_down(shut_down(before, first_runtime).0, second_runtime) == (
            shut_down(before, first_runtime).0,
            None::<H>,
            Seq::<T>::empty(),
        ),
{
}

/// The sidecar of a plan runs the plan's image, serves the plan's port, knows the plan's password
/// and nothing else from its environment, and joins the plan's network. For a plan that was
/// prepared that is the SSH server on port 22 in the network of the request.
pub proof fn law_sidecar_is_that_of_the_plan(
    plan: &HostExposurePlan,
    sidecar: SidecarRequest,
    request: &ContainerRequest,
)
    requires
        call_ensures(sshd_sidecar, (plan,), sidecar),
    ensures
        sidecar.image@ == plan.ssh_image@,
        sidecar.tag@ == plan.ssh_tag@,
        sidecar.exposed_port == plan.ssh_port,
        sidecar.wait_seconds == 1,
        sidecar.env@.len() == 1,
        sidecar.env@[0].0@ == "PASSWORD"@,
        sidecar.env@[0].1@ == plan.password@,
        sidecar.network == plan.network,
        call_ensures(prepare_host_exposure, (request,), Ok(Some(*plan))) ==> {
            &&& sidecar.image@ == "testcontainers/sshd"@
            &&& sidecar.tag@ == "1.3.0"@
            &&& sidecar.exposed_port == 22
            &&& sidecar.network is None <==> request@.network is None
            &&& sidecar.network is Some ==> sidecar.network->0@ == request@.network->0
        },
{
}

/// Whether the setup goes from `stage` to `next` when it ends with `event`, and what it makes of
/// the request.
pub open spec fn is_step<E>(
    stage: SetupStage<E>,
    event: SetupEvent<E>,
    request: ContainerRequest,
    next: SetupStage<E>,
    after: ContainerRequest,
) -> bool {
    can_end(stage, event) && call_ensures(setup::<E>, (stage, event, request), (next, after))
}

/// The setup of a plan runs through its steps in order: the sidecar is started, located, connected
/// to and asked to forward, always with the same plan, and then the ports are exposed. All that
/// becomes of the request is that the alias of the host leads to the sidecar.
pub proof fn law_setup_runs_through_its_steps<E>(
    plan: HostExposurePlan,
    bridge_ip: IpAddress,
    stages: Seq<SetupStage<E>>,
    requests: Seq<ContainerRequest>,
)
    requires
        stages.len() == 6,
        requests.len() == 6,
        stages[0] is Preparing,
        is_step(
            stages[0],
            SetupEvent::Prepared(Ok(Some(plan))),
            requests[0],
            stages[1],
            requests[1],
        ),
        is_step(stages[1], SetupEvent::SidecarStarted(Ok(())), requests[1], stages[2], requests[2]),
        is_step(
            stages[2],
            SetupEvent::SidecarLocated(Ok(bridge_ip)),
            requests[2],
            stages[3],
            requests[3],
        ),
        is_step(stages[3], SetupEvent::Connected(Ok(())), requests[3], stages[4], requests[4]),
        is_step(stages[4], SetupEvent::PortsRegistered(Ok(())), requests[4], stages[5], requests[5]),
        forall|i: int|
            0 <= i < requests[0]@.hosts.len() ==> (#[trigger] requests[0]@.hosts[i]).0
                != "host.testcontainers.internal"@,
    ensures
        stages[1] == (SetupStage::<E>::StartingSidecar { plan }),
        stages[2] == (SetupStage::<E>::LocatingSidecar { plan }),
        stages[3] == (SetupStage::<E>::Connecting { plan }),
        stages[4] == (SetupStage::<E>::RegisteringPorts { plan }),
        stages[5] is Ready,
        requests[1]@ == requests[0]@,
        requests[2]@ == requests[0]@,
        requests[3]@ == (RequestView {
            hosts: requests[0]@.hosts.push(
                ("host.testcontainers.internal"@, HostView::Addr(bridge_ip@)),
            ),
            ..requests[0]@
        }),
        requests[4]@ == requests[3]@,
        requests[5]@ == requests[3]@,
{
}

/// A step that fails ends the setup with its own error and leaves the request as it is, at whatever
/// stage; and no stage that ends the setup is left again.
pub proof fn law_failed_step_ends_the_setup<E>(
    stage: SetupStage<E>,
    event: SetupEvent<E>,
    request: ContainerRequest,
    next: SetupStage<E>,
    after: ContainerRequest,
    err: E,
)
    requires
        is_step(stage, event, request, next, after),
    ensures
        event == SetupEvent::SidecarStarted(Err::<(), E>(err)) || event
            == SetupEvent::SidecarLocated(Err::<IpAddress, E>(err)) || event
            == SetupEvent::Connected(Err::<(), E>(err)) || event == SetupEvent::PortsRegistered(
            Err::<(), E>(err),
        ) ==> next == SetupStage::Failed(err) && after@ == request@,
        next is Failed ==> stage !is Preparing,
        !(stage is Ready || stage is NothingExposed || stage is Refused || stage is Failed),
        !(event matches SetupEvent::SidecarLocated(Ok(_))) ==> after@ == request@,
        event matches SetupEvent::Prepared(Ok(None)) ==> next is NothingExposed,
        event matches SetupEvent::Prepared(Err(refused)) ==> next == SetupStage::<E>::Refused(
            refused,
        ),
        next is Refused ==> stage is Preparing,
        next is NothingExposed ==> stage is Preparing,
        next is Ready ==> stage is RegisteringPorts,
{
}

/// The setup begins as the request asks: with a plan for just its ports, or with the refusal that
/// has its cause in the request, or not at all. The request stays as it is.
pub proof fn law_setup_begins_as_the_request_asks<E>(
    request: ContainerRequest,
    stage: SetupStage<E>,
    after: ContainerRequest,
)
    requires
        call_ensures(begin_setup::<E>, (request,), (stage, after)),
    ensures
        after@ == request@,
        stage is NothingExposed || stage is Refused || stage is StartingSidecar,
        is_just(
            request@,
            match stage {
                SetupStage::StartingSidecar { plan } => Ok(Some(plan)),
                SetupStage::Refused(err) => Err(err),
                _ => Ok(None),
            },
        ),
{
    let r = request@;
    assert(names_the_host(r) <==> defines(r.hosts, HOST_INTERNAL_ALIAS@));
    assert(forall|p: u16| asks_for(r, p) <==> wanted_ports(r).contains(p));
    assert(asks_for(r, 0) ==> asks_for_any(r));
    assert(asks_for(r, 22) ==> asks_for_any(r));
}

/// A shutdown takes everything down: no connection is let in any more, every task is handed out to
/// be aborted and none is kept, and the session is handed out to be disconnected where there is a
/// runtime to do it, and given up where there is none.
pub proof fn law_shutdown_takes_everything_down<H, T>(
    runtime_available: bool,
    plan: ShutdownPlan<H, T>,
    fresh: HostPortExposure<H>,
    handle: H,
)
    ensures
        call_ensures(HostPortExposure::<H>::new, (handle,), fresh) ==> fresh.ssh_handle() == Some(
            handle,
        ),
        forall|exposure: &mut HostPortExposure<H>, state: &mut ForwardState<T>| #[trigger]
            call_ensures(
                HostPortExposure::<H>::shutdown::<T>,
                (exposure, state, runtime_available),
                plan,
            ) ==> {
                &&& final(state).stopped()
                &&& final(state).tasks().len() == 0
                &&& final(exposure).ssh_handle() is None
                &&& plan.abort@ == (*state).tasks()
                &&& runtime_available ==> plan.disconnect == (*exposure).ssh_handle()
                &&& !runtime_available ==> plan.disconnect is None
            },
{
}

/// No step is turned away: the setup takes every outcome of the step that it is in, whatever the
/// plan and the request are.
pub proof fn law_setup_takes_every_outcome<E>(
    plan: HostExposurePlan,
    request: ContainerRequest,
    prepared: Result<Option<HostExposurePlan>, ExposureError>,
    located: Result<IpAddress, E>,
    done: Result<(), E>,
)
    ensures
        call_requires(
            setup::<E>,
            (SetupStage::<E>::Preparing, SetupEvent::Prepared(prepared), request),
        ),
        call_requires(
            setup::<E>,
            (SetupStage::<E>::StartingSidecar { plan }, SetupEvent::SidecarStarted(done), request),
        ),
        call_requires(
            setup::<E>,
            (SetupStage::<E>::LocatingSidecar { plan }, SetupEvent::SidecarLocated(located), request),
        ),
        call_requires(
            setup::<E>,
            (SetupStage::<E>::Connecting { plan }, SetupEvent::Connected(done), request),
        ),
        call_requires(
            setup::<E>,
            (SetupStage::<E>::RegisteringPorts { plan }, SetupEvent::PortsRegistered(done), request),
        ),
{
}

} // verus!
