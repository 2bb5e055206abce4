//! Reaching the SSH server of the sidecar.

use vstd::arithmetic::power2::pow2;
use vstd::prelude::*;

use crate::host_exposure::error::{ExposureError, HostExposeError};
use crate::host_exposure::plan::{prepare_host_exposure, HostExposurePlan};
use crate::request::ContainerRequest;

verus! {

/// Where the engine publishes the ports of its containers, as a URL writes it.
#[derive(Debug)]
pub enum EngineHost {
    Domain(String),
    Ipv4(String),
    /// An address in square brackets.
    Ipv6(String),
}

/// The family of addresses that a published port belongs to.
#[derive(Debug, Clone, Copy, PartialEq, Eq, Structural)]
pub enum AddressFamily {
    Ipv4,
    Ipv6,
}

/// The family in which the SSH port is looked up: that of the address, and IPv4 for a domain.
pub open spec fn port_family(host: EngineHost) -> AddressFamily {
    match host {
        EngineHost::Domain(_) => AddressFamily::Ipv4,
        EngineHost::Ipv4(_) => AddressFamily::Ipv4,
        EngineHost::Ipv6(_) => AddressFamily::Ipv6,
    }
}

impl EngineHost {
    /// The host as a URL writes it.
    pub open spec fn url_text(&self) -> Seq<char> {
        match self {
            EngineHost::Domain(text) => text@,
            EngineHost::Ipv4(text) => text@,
            EngineHost::Ipv6(text) => text@,
        }
    }

    /// The host as a URL writes it.
    pub fn text(&self) -> (res: String)
        ensures
            res@ == self.url_text(),
    {
        match self {
            EngineHost::Domain(text) => text.clone(),
            EngineHost::Ipv4(text) => text.clone(),
            EngineHost::Ipv6(text) => text.clone(),
        }
    }

    /// Decides the family in which the SSH port is looked up.
    pub fn ssh_port_family(&self) -> (res: AddressFamily)
        ensures
            res == port_family(*self),
    {
        match self {
            EngineHost::Domain(_) => AddressFamily::Ipv4,
            EngineHost::Ipv4(_) => AddressFamily::Ipv4,
            EngineHost::Ipv6(_) => AddressFamily::Ipv6,
        }
    }
}

/// The wait after the `n`-th refused attempt, counted from zero: the first one is the plan's,
/// each further one twice the one before it, up to the plan's longest.
pub open spec fn nth_delay(plan: HostExposurePlan, n: nat) -> nat
    decreases n,
{
    if n == 0 {
        plan.ssh_retry_delay_ms as nat
    } else {
        let doubled = 2 * nth_delay(plan, (n - 1) as nat);
        if doubled < plan.ssh_max_retry_delay_ms {
            doubled
        } else {
            plan.ssh_max_retry_delay_ms as nat
        }
    }
}

/// How an attempt to connect to the sidecar ended.
#[derive(Debug)]
pub enum ConnectOutcome {
    /// The stream is open and sends without delay.
    Ready,
    /// The stream is open, but could not be told to send without delay.
    NotConfigured(String),
    /// There is no stream.
    Refused(String),
}

/// What follows an attempt to connect to the sidecar.
#[derive(Debug, PartialEq, Eq)]
pub enum ConnectStep {
    /// The stream is to be used.
    Established,
    /// The next attempt follows after this many milliseconds.
    Retry { after_ms: u64 },
    /// There will be no stream.
    Failed(ExposureError),
}

/// How far the attempts to connect to the sidecar have come.
#[derive(Debug)]
pub struct ConnectRetry {
    attempts: u32,
    delay_ms: u64,
}

impl ConnectRetry {
    /// How many refused attempts were followed by another one.
    pub closed spec fn attempts(&self) -> nat {
        self.attempts as nat
    }

    /// Whether this is the state of attempts made for `plan`.
    pub closed spec fn follows(&self, plan: HostExposurePlan) -> bool {
        &&& self.attempts <= plan.ssh_max_attempts
        &&& self.delay_ms == nth_delay(plan, self.attempts as nat)
    }

    /// The state before the first attempt.
    pub fn new(plan: &HostExposurePlan) -> (res: Self)
        ensures
            res.attempts() == 0,
            res.follows(*plan),
    {
        ConnectRetry { attempts: 0, delay_ms: plan.ssh_retry_delay_ms }
    }

    /// Decides what follows an attempt: a refused one is made again as long as the plan allows.
    pub fn connect_with_retry(
        &mut self,
        plan: &HostExposurePlan,
        host: &EngineHost,
        port: u16,
        outcome: ConnectOutcome,
    ) -> (res: ConnectStep)
        requires
            old(self).follows(*plan),
        ensures
            final(self).follows(*plan),
            match outcome {
                ConnectOutcome::Ready => {
                    &&& res == ConnectStep::Established
                    &&& final(self).attempts() == old(self).attempts()
                },
                ConnectOutcome::NotConfigured(error) => {
                    &&& res == ConnectStep::Failed(ExposureError::Stream { error })
                    &&& final(self).attempts() == old(self).attempts()
                },
                ConnectOutcome::Refused(error) => if old(self).attempts() < plan.ssh_max_attempts {
                    &&& res matches ConnectStep::Retry { after_ms }
                    &&& after_ms == nth_delay(*plan, old(self).attempts())
                    &&& final(self).attempts() == old(self).attempts() + 1
                } else {
                    &&& res matches ConnectStep::Failed(ExposureError::Unreachable {
                        host: at,
                        port: on,
                        error: because,
                    })
                    &&& at@ == host.url_text()
                    &&& on == port
                    &&& because == error
                    &&& final(self).attempts() == old(self).attempts()
                },
            },
    {
        match outcome {
            ConnectOutcome::Ready => ConnectStep::Established,
            ConnectOutcome::NotConfigured(error) => ConnectStep::Failed(
                ExposureError::Stream { error },
            ),
            ConnectOutcome::Refused(error) => {
                if self.attempts < plan.ssh_max_attempts {
                    let after_ms: u64 = self.delay_ms;
                    let longest: u64 = plan.ssh_max_retry_delay_ms;
                    self.attempts = self.attempts + 1;
                    self.delay_ms = if after_ms < longest && after_ms < longest - after_ms {
                        after_ms * 2
                    } else {
                        longest
                    };
                    ConnectStep::Retry { after_ms }
                } else {
                    ConnectStep::Failed(
                        ExposureError::Unreachable { host: host.text(), port, error },
                    )
                }
            },
        }
    }
}

/// How the SSH session is configured.
#[derive(Debug, Clone, Copy, PartialEq, Eq, Structural)]
pub struct SessionSettings {
    /// Whether packets are sent without delay.
    pub nodelay: bool,
    /// After how many seconds of silence the server is asked for a sign of life.
    pub keepalive_secs: u64,
}

/// The configuration of the SSH session.
pub fn session_settings() -> (res: SessionSettings)
    ensures
        res == (SessionSettings { nodelay: true, keepalive_secs: 10 }),
{
    SessionSettings { nodelay: true, keepalive_secs: 10 }
}

/// Decides whether the session may be used, after the exchange of credentials: it says whether
/// the server accepted them, or why it failed.
pub fn check_authentication(outcome: Result<bool, String>) -> (res: Result<(), ExposureError>)
    ensures
        res == (match outcome {
            Ok(true) => Ok(()),
            Ok(false) => Err(ExposureError::AuthenticationRejected),
            Err(error) => Err(ExposureError::Authentication { error }),
        }),
{
    match outcome {
        Ok(accepted) => if accepted {
            Ok(())
        } else {
            Err(ExposureError::AuthenticationRejected)
        },
        Err(error) => Err(ExposureError::Authentication { error }),
    }
}

/// How a step towards the SSH session ended.
#[derive(Debug)]
pub enum SshEvent {
    /// The engine publishes the ports of the sidecar here.
    Located(EngineHost),
    /// The SSH port of the sidecar is published as this port of the host.
    PortPublished { host: EngineHost, port: u16 },
    /// The stream to the sidecar is open.
    StreamOpened,
    /// The session has begun, or why it has not.
    SessionBegun(Result<(), HostExposeError>),
    /// The server accepted the credentials or turned them down, or why the exchange failed.
    Answered(Result<bool, String>),
}

/// The next step towards the SSH session.
#[derive(Debug)]
pub enum SshAction {
    /// Look up as which port of the host the engine publishes this port of the sidecar.
    LookUpPort { family: AddressFamily, port: u16 },
    /// Connect to the sidecar, trying again where it refuses.
    Connect { host: String, port: u16 },
    /// Begin a session on the stream.
    BeginSession(SessionSettings),
    /// Log in with a password.
    LogIn { username: String, password: String },
    /// Use the session.
    UseSession,
}

/// Whether `res` is what follows `event` on the way to the SSH session of `plan`.
pub open spec fn follows_event(
    plan: HostExposurePlan,
    event: SshEvent,
    res: Result<SshAction, ExposureError>,
) -> bool {
    match event {
        SshEvent::Located(host) => res == Ok::<_, ExposureError>(
            SshAction::LookUpPort { family: port_family(host), port: plan.ssh_port },
        ),
        SshEvent::PortPublished { host, port } => {
            &&& res matches Ok(SshAction::Connect { host: to, port: on })
            &&& to@ == host.url_text()
            &&& on == port
        },
        SshEvent::StreamOpened => res == Ok::<_, ExposureError>(
            SshAction::BeginSession(SessionSettings { nodelay: true, keepalive_secs: 10 }),
        ),
        SshEvent::SessionBegun(Ok(_)) => {
            &&& res matches Ok(SshAction::LogIn { username, password })
            &&& username@ == plan.ssh_username@
            &&& password@ == plan.password@
        },
        SshEvent::SessionBegun(Err(HostExposeError::Ssh(error))) => res == Err::<SshAction, _>(
            ExposureError::Ssh { error },
        ),
        SshEvent::SessionBegun(Err(HostExposeError::Exposure(err))) => res == Err::<SshAction, _>(
            err,
        ),
        SshEvent::Answered(Ok(true)) => res == Ok::<_, ExposureError>(SshAction::UseSession),
        SshEvent::Answered(Ok(false)) => res == Err::<SshAction, _>(
            ExposureError::AuthenticationRejected,
        ),
        SshEvent::Answered(Err(error)) => res == Err::<SshAction, _>(
            ExposureError::Authentication { error },
        ),
    }
}

/// Decides the next step towards the SSH session, or why there will be none.
pub fn establish_ssh_connection(plan: &HostExposurePlan, event: SshEvent) -> (res: Result<
    SshAction,
    ExposureError,
>)
    ensures
        follows_event(*plan, event, res),
{
    match event {
        SshEvent::Located(host) => Ok(
            SshAction::LookUpPort { family: host.ssh_port_family(), port: plan.ssh_port },
        ),
        SshEvent::PortPublished { host, port } => Ok(
            SshAction::Connect { host: host.text(), port },
        ),
        SshEvent::StreamOpened => Ok(SshAction::BeginSession(session_settings())),
        SshEvent::SessionBegun(begun) => match begun {
            Ok(_) => Ok(
                SshAction::LogIn {
                    username: plan.ssh_username.to_owned(),
                    password: plan.password.clone(),
                },
            ),
            Err(err) => Err(ExposureError::from(err)),
        },
        SshEvent::Answered(answer) => match check_authentication(answer) {
            Ok(_) => Ok(SshAction::UseSession),
            Err(err) => Err(err),
        },
    }
}

/// The waits between attempts double from the plan's first one and never exceed its longest:
/// the `n`-th is the smaller of the first times two to the `n` and the longest.
pub proof fn law_waits_double_up_to_the_longest(plan: HostExposurePlan, n: nat)
    requires
        plan.ssh_retry_delay_ms <= plan.ssh_max_retry_delay_ms,
    ensures
        nth_delay(plan, n) == (if plan.ssh_retry_delay_ms * pow2(n) < plan.ssh_max_retry_delay_ms {
            plan.ssh_retry_delay_ms * pow2(n)
        } else {
            plan.ssh_max_retry_delay_ms as int
        }),
        nth_delay(plan, n) <= plan.ssh_max_retry_delay_ms,
        nth_delay(plan, n) <= nth_delay(plan, n + 1),
    decreases n,
{
    let first = plan.ssh_retry_delay_ms as int;
    if n == 0 {
        vstd::arithmetic::power2::lemma2_to64();
    } else {
        law_waits_double_up_to_the_longest(plan, (n - 1) as nat);
        vstd::arithmetic::power2::lemma_pow2_unfold(n);
        let p = pow2((n - 1) as nat) as int;
        assert(first * (2 * p) == 2 * (first * p)) by (nonlinear_arith);
    }
}

/// The SSH port is looked up in the family of the host's own kind: IPv4 for a domain and for an
/// IPv4 address, IPv6 exactly for an IPv6 address. The port is 22 for every plan that was prepared.
pub proof fn law_port_is_looked_up_in_the_family_of_the_host(
    plan: &HostExposurePlan,
    host: EngineHost,
    res: Result<SshAction, ExposureError>,
    family: AddressFamily,
    request: &ContainerRequest,
)
    requires
        call_ensures(establish_ssh_connection, (plan, SshEvent::Located(host)), res),
        call_ensures(EngineHost::ssh_port_family, (&host,), family),
    ensures
        host is Domain ==> family == AddressFamily::Ipv4,
        host is Ipv4 ==> family == AddressFamily::Ipv4,
        host is Ipv6 ==> family == AddressFamily::Ipv6,
        res matches Ok(SshAction::LookUpPort { family: looked_up, port }) && looked_up == family
            && port == plan.ssh_port,
        call_ensures(prepare_host_exposure, (request,), Ok(Some(*plan))) ==> (res matches Ok(
            SshAction::LookUpPort { port, .. },
        ) && port == 22),
{
}

/// The way to the session: the stream is opened to the host as a URL writes it and to the published
/// port, the session sends without delay and keeps itself alive every ten seconds, and the login is
/// that of the plan. The session is used only if the server accepted the login; whatever fails on
/// the way ends it with the error that says so.
pub proof fn law_session_is_used_only_after_login(
    plan: &HostExposurePlan,
    host: EngineHost,
    port: u16,
    begun: Result<(), HostExposeError>,
    answer: Result<bool, String>,
    connect: Result<SshAction, ExposureError>,
    begin: Result<SshAction, ExposureError>,
    log_in: Result<SshAction, ExposureError>,
    last: Result<SshAction, ExposureError>,
)
    requires
        call_ensures(establish_ssh_connection, (plan, SshEvent::PortPublished { host, port }), connect),
        call_ensures(establish_ssh_connection, (plan, SshEvent::StreamOpened), begin),
        call_ensures(establish_ssh_connection, (plan, SshEvent::SessionBegun(begun)), log_in),
        call_ensures(establish_ssh_connection, (plan, SshEvent::Answered(answer)), last),
    ensures
        connect matches Ok(SshAction::Connect { host: to, port: on }) && on == port && (host
            matches EngineHost::Domain(text) ==> to@ == text@) && (host matches EngineHost::Ipv4(
            text,
        ) ==> to@ == text@) && (host matches EngineHost::Ipv6(text) ==> to@ == text@),
        begin matches Ok(SshAction::BeginSession(settings)) && settings.nodelay
            && settings.keepalive_secs == 10,
        begun is Ok <==> log_in is Ok,
        log_in matches Ok(action) ==> (action matches SshAction::LogIn { username, password }
            && username@ == plan.ssh_username@ && password@ == plan.password@),
        begun matches Err(HostExposeError::Ssh(error)) ==> log_in == Err::<SshAction, _>(
            ExposureError::Ssh { error },
        ),
        begun matches Err(HostExposeError::Exposure(err)) ==> log_in == Err::<SshAction, _>(err),
        last matches Ok(action) ==> action is UseSession && answer == Ok::<bool, String>(true),
        answer == Ok::<bool, String>(true) ==> last is Ok,
        answer == Ok::<bool, String>(false) ==> last == Err::<SshAction, _>(
            ExposureError::AuthenticationRejected,
        ),
        answer matches Err(error) ==> last == Err::<SshAction, _>(
            ExposureError::Authentication { error },
        ),
{
}

/// Only accepted credentials pass, and the settings and the text of a host are what they are for
/// every session.
pub proof fn law_only_accepted_credentials_pass(
    answer: Result<bool, String>,
    passed: Result<(), ExposureError>,
    settings: SessionSettings,
    host: &EngineHost,
    text: String,
)
    requires
        call_ensures(check_authentication, (answer,), passed),
        call_ensures(session_settings, (), settings),
        call_ensures(EngineHost::text, (host,), text),
    ensures
        passed is Ok <==> answer == Ok::<bool, String>(true),
        answer == Ok::<bool, String>(false) ==> passed == Err::<(), _>(
            ExposureError::AuthenticationRejected,
        ),
        answer matches Err(error) ==> passed == Err::<(), _>(
            ExposureError::Authentication { error },
        ),
        settings.nodelay && settings.keepalive_secs == 10,
        host matches EngineHost::Domain(written) ==> text@ == written@,
        host matches EngineHost::Ipv4(written) ==> text@ == written@,
        host matches EngineHost::Ipv6(written) ==> text@ == written@,
{
}

/// How attempts go on: a stream that is ready is used and one that cannot be configured ends them,
/// at whatever attempt. A refused one is followed by another exactly while fewer than the plan's
/// number were; then the attempts end with where they went and why the last one was refused.
pub proof fn law_refused_attempts_are_counted(
    plan: &HostExposurePlan,
    host: &EngineHost,
    port: u16,
    outcome: ConnectOutcome,
    step: ConnectStep,
    fresh: ConnectRetry,
)
    ensures
        call_ensures(ConnectRetry::new, (plan,), fresh) ==> fresh.attempts() == 0 && fresh.follows(
            *plan,
        ),
        forall|retry: &mut ConnectRetry| #[trigger]
            call_ensures(ConnectRetry::connect_with_retry, (retry, plan, host, port, outcome), step)
                && (*retry).follows(*plan) ==> {
                &&& final(retry).follows(*plan)
                &&& outcome is Ready <==> step is Established
                &&& outcome matches ConnectOutcome::NotConfigured(error) ==> step
                    == ConnectStep::Failed(ExposureError::Stream { error })
                &&& step is Retry <==> outcome is Refused && (*retry).attempts()
                    < plan.ssh_max_attempts
                &&& final(retry).attempts() == (*retry).attempts() + if step is Retry {
                    1int
                } else {
                    0int
                }
                &&& outcome matches ConnectOutcome::Refused(error) ==> step is Retry || {
                    &&& step matches ConnectStep::Failed(
                        ExposureError::Unreachable { host: at, port: on, error: because },
                    )
                    &&& at@ == host.url_text()
                    &&& on == port
                    &&& because == error
                }
            },
{
}

/// How long is waited: before the second attempt as long as the plan says first, and before each
/// further one twice as long as before the last, but no longer than the plan's longest.
pub proof fn law_each_wait_doubles_the_last(
    plan: &HostExposurePlan,
    host: &EngineHost,
    port: u16,
    first: ConnectOutcome,
    second: ConnectOutcome,
    first_wait: u64,
    second_wait: u64,
)
    ensures
        forall|retry: &mut ConnectRetry, again: &mut ConnectRetry| #[trigger]
            call_ensures(
                ConnectRetry::connect_with_retry,
                (retry, plan, host, port, first),
                ConnectStep::Retry { after_ms: first_wait },
            ) && #[trigger] call_ensures(
                ConnectRetry::connect_with_retry,
                (again, plan, host, port, second),
                ConnectStep::Retry { after_ms: second_wait },
            ) && (*retry).follows(*plan) && *again == *final(retry) ==> {
                &&& (*retry).attempts() == 0 ==> first_wait == plan.ssh_retry_delay_ms
                &&& second_wait == (if 2 * first_wait < plan.ssh_max_retry_delay_ms {
                    2 * first_wait
                } else {
                    plan.ssh_max_retry_delay_ms as int
                })
            },
{
    assert forall|retry: &mut ConnectRetry, again: &mut ConnectRetry| #[trigger]
        call_ensures(
            ConnectRetry::connect_with_retry,
            (retry, plan, host, port, first),
            ConnectStep::Retry { after_ms: first_wait },
        ) && #[trigger] call_ensures(
            ConnectRetry::connect_with_retry,
            (again, plan, host, port, second),
            ConnectStep::Retry { after_ms: second_wait },
        ) && (*retry).follows(*plan) && *again == *final(retry) implies {
        &&& (*retry).attempts() == 0 ==> first_wait == plan.ssh_retry_delay_ms
        &&& second_wait == (if 2 * first_wait < plan.ssh_max_retry_delay_ms {
            2 * first_wait
        } else {
            plan.ssh_max_retry_delay_ms as int
        })
    } by {
        assert(first is Refused);
        assert((*again).attempts() == (*retry).attempts() + 1);
    }
}

} // verus!
