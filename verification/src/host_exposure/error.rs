//! Why host ports could not be exposed, and how it is said.

use vstd::prelude::*;

use crate::text::{decimal, decimal_text};

verus! {

/// Why host ports could not be exposed.
#[derive(Debug, PartialEq, Eq)]
pub enum ExposureError {
    /// Port zero was asked for.
    PortZero,
    /// The port of the SSH server itself was asked for.
    ReservedPort,
    /// The alias of the host already stands for something else.
    AliasDefined,
    /// The container shares the network of the host.
    HostNetwork,
    /// The container shares the network of another container.
    ContainerNetwork,
    /// The container is reused.
    ReusableContainer,
    /// The TCP stream to the sidecar could not be configured.
    Stream { error: String },
    /// The sidecar could not be reached.
    Unreachable { host: String, port: u16, error: String },
    /// The SSH session failed.
    Ssh { error: String },
    /// The exchange of credentials failed.
    Authentication { error: String },
    /// The SSH server turned the credentials down.
    AuthenticationRejected,
    /// The SSH server could not be asked to forward a port.
    Forwarding { port: u16, error: String },
    /// The SSH server forwards another port than it was asked to.
    BoundPort { port: u16, bound_port: u16 },
}

/// A message that names its context, then the error behind it.
pub open spec fn with_context(context: Seq<char>, error: Seq<char>) -> Seq<char> {
    context + ": "@ + error
}

/// Puts the context of an error from the SSH library in front of its message.
pub fn map_ssh_error(context: &str, err: &str) -> (res: String)
    ensures
        res@ == with_context(context@, err@),
{
    context.to_owned().concat(": ").concat(err)
}

impl ExposureError {
    /// The message of the error.
    pub open spec fn text(&self) -> Seq<char> {
        match self {
            ExposureError::PortZero =>
                "host port exposure requires ports greater than zero (port 0 is invalid)"@,
            ExposureError::ReservedPort =>
                "host port exposure does not support exposing port 22 (SSH port is reserved)"@,
            ExposureError::AliasDefined =>
                "host port exposure is not supported when 'host.testcontainers.internal' is already defined"@,
            ExposureError::HostNetwork =>
                "host port exposure is not supported with host network mode"@,
            ExposureError::ContainerNetwork =>
                "host port exposure is not supported with container network mode"@,
            ExposureError::ReusableContainer =>
                "host port exposure is not supported for reusable containers (due to SSH tunnel conflicts)"@,
            ExposureError::Stream { error } => with_context(
                "failed to configure ssh tcp stream"@,
                error@,
            ),
            ExposureError::Unreachable { host, port, error } => with_context(
                "failed to connect to sshd sidecar at "@ + host@ + ":"@ + decimal(*port as nat),
                error@,
            ),
            ExposureError::Ssh { error } => with_context("ssh error"@, error@),
            ExposureError::Authentication { error } => with_context(
                "SSH authentication failed for host port exposure"@,
                error@,
            ),
            ExposureError::AuthenticationRejected =>
                "SSH authentication failed for host port exposure - check SSHD container logs and credentials"@,
            ExposureError::Forwarding { port, error } => with_context(
                "failed to request remote port forwarding for "@ + decimal(*port as nat),
                error@,
            ),
            ExposureError::BoundPort { port, bound_port } =>
                "host port exposure required bound port "@ + decimal(*port as nat)
                    + ", but sshd assigned "@ + decimal(*bound_port as nat),
        }
    }

    /// Writes the message of the error.
    pub fn message(&self) -> (res: String)
        ensures
            res@ == self.text(),
    {
        match self {
            ExposureError::PortZero =>
                String::from("host port exposure requires ports greater than zero (port 0 is invalid)"),
            ExposureError::ReservedPort =>
                String::from("host port exposure does not support exposing port 22 (SSH port is reserved)"),
            ExposureError::AliasDefined =>
                String::from("host port exposure is not supported when 'host.testcontainers.internal' is already defined"),
            ExposureError::HostNetwork =>
                String::from("host port exposure is not supported with host network mode"),
            ExposureError::ContainerNetwork =>
                String::from("host port exposure is not supported with container network mode"),
            ExposureError::ReusableContainer =>
                String::from("host port exposure is not supported for reusable containers (due to SSH tunnel conflicts)"),
            ExposureError::Stream { error } => map_ssh_error(
                "failed to configure ssh tcp stream",
                error,
            ),
            ExposureError::Unreachable { host, port, error } => {
                let context = String::from("failed to connect to sshd sidecar at ").concat(host).concat(
                    ":",
                ).concat(&decimal_text(*port as u64));
                map_ssh_error(&context, error)
            },
            ExposureError::Ssh { error } => map_ssh_error("ssh error", error),
            ExposureError::Authentication { error } => map_ssh_error(
                "SSH authentication failed for host port exposure",
                error,
            ),
            ExposureError::AuthenticationRejected =>
                String::from("SSH authentication failed for host port exposure - check SSHD container logs and credentials"),
            ExposureError::Forwarding { port, error } => {
                let context = String::from("failed to request remote port forwarding for ").concat(
                    &decimal_text(*port as u64),
                );
                map_ssh_error(&context, error)
            },
            ExposureError::BoundPort { port, bound_port } => {
                String::from("host port exposure required bound port ").concat(
                    &decimal_text(*port as u64),
                ).concat(", but sshd assigned ").concat(&decimal_text(*bound_port as u64))
            },
        }
    }
}

/// What the client side of the SSH session can fail with.
#[derive(Debug, PartialEq, Eq)]
pub enum HostExposeError {
    /// The SSH library failed, with this message.
    Ssh(String),
    /// Exposing a port failed.
    Exposure(ExposureError),
}

impl From<ExposureError> for HostExposeError {
    fn from(err: ExposureError) -> (res: Self) {
        HostExposeError::Exposure(err)
    }
}

impl vstd::std_specs::convert::FromSpecImpl<ExposureError> for HostExposeError {
    open spec fn obeys_from_spec() -> bool {
        true
    }

    open spec fn from_spec(err: ExposureError) -> Self {
        HostExposeError::Exposure(err)
    }
}

impl From<HostExposeError> for ExposureError {
    fn from(err: HostExposeError) -> (res: Self) {
        match err {
            HostExposeError::Ssh(error) => ExposureError::Ssh { error },
            HostExposeError::Exposure(err) => err,
        }
    }
}

impl vstd::std_specs::convert::FromSpecImpl<HostExposeError> for ExposureError {
    open spec fn obeys_from_spec() -> bool {
        true
    }

    open spec fn from_spec(err: HostExposeError) -> Self {
        match err {
            HostExposeError::Ssh(error) => ExposureError::Ssh { error },
            HostExposeError::Exposure(err) => err,
        }
    }
}

/// Every refusal says the same thing each time, and every failure says what it is about: where, on
/// which port, and what the cause was.
pub proof fn law_messages_name_their_cause(
    err: &ExposureError,
    message: String,
    context: &str,
    cause: &str,
    mapped: String,
)
    requires
        call_ensures(ExposureError::message, (err,), message),
        call_ensures(map_ssh_error, (context, cause), mapped),
    ensures
        mapped@ == context@ + ": "@ + cause@,
        err is PortZero ==> message@
            == "host port exposure requires ports greater than zero (port 0 is invalid)"@,
        err is ReservedPort ==> message@
            == "host port exposure does not support exposing port 22 (SSH port is reserved)"@,
        err is AliasDefined ==> message@
            == "host port exposure is not supported when 'host.testcontainers.internal' is already defined"@,
        err is HostNetwork ==> message@
            == "host port exposure is not supported with host network mode"@,
        err is ContainerNetwork ==> message@
            == "host port exposure is not supported with container network mode"@,
        err is ReusableContainer ==> message@
            == "host port exposure is not supported for reusable containers (due to SSH tunnel conflicts)"@,
        err is AuthenticationRejected ==> message@
            == "SSH authentication failed for host port exposure - check SSHD container logs and credentials"@,
        err matches ExposureError::Stream { error } ==> message@
            == "failed to configure ssh tcp stream"@ + ": "@ + error@,
        err matches ExposureError::Unreachable { host, port, error } ==> message@
            == "failed to connect to sshd sidecar at "@ + host@ + ":"@ + decimal(*port as nat)
            + ": "@ + error@,
        err matches ExposureError::Ssh { error } ==> message@ == "ssh error"@ + ": "@ + error@,
        err matches ExposureError::Authentication { error } ==> message@
            == "SSH authentication failed for host port exposure"@ + ": "@ + error@,
        err matches ExposureError::Forwarding { port, error } ==> message@
            == "failed to request remote port forwarding for "@ + decimal(*port as nat) + ": "@
            + error@,
        err matches ExposureError::BoundPort { port, bound_port } ==> message@
            == "host port exposure required bound port "@ + decimal(*port as nat)
            + ", but sshd assigned "@ + decimal(*bound_port as nat),
{
}

/// Wrapping an exposure error and unwrapping it gives it back, and an error of the SSH library
/// keeps its message.
pub proof fn law_exposure_errors_survive_the_session(
    err: ExposureError,
    wrapped: HostExposeError,
    unwrapped: ExposureError,
    error: String,
    ssh: ExposureError,
)
    requires
        call_ensures(<HostExposeError as From<ExposureError>>::from, (err,), wrapped),
        call_ensures(<ExposureError as From<HostExposeError>>::from, (wrapped,), unwrapped),
        call_ensures(
            <ExposureError as From<HostExposeError>>::from,
            (HostExposeError::Ssh(error),),
            ssh,
        ),
    ensures
        unwrapped == err,
        ssh == (ExposureError::Ssh { error }),
{
}

} // verus!
