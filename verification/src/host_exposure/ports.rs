//! Asking the SSH server to forward the requested ports.

use vstd::prelude::*;

use crate::host_exposure::error::ExposureError;
use crate::host_exposure::plan::HostExposurePlan;

verus! {

/// One request for the SSH server to listen on a port of the sidecar.
#[derive(Debug, Clone, Copy)]
pub struct ForwardRequest {
    /// The address to listen on.
    pub address: &'static str,
    /// The port to listen on.
    pub port: u32,
}

/// The requested ports, and how many of them the SSH server forwards already.
#[derive(Debug)]
pub struct PortRegistration {
    ports: Vec<u16>,
    done: usize,
}

/// What follows the server's reply to the request for `port`.
pub open spec fn reply_outcome(port: u16, reply: Result<u32, String>) -> Result<(), ExposureError> {
    match reply {
        Ok(bound_port) => if bound_port == port {
            Ok(())
        } else {
            Err(ExposureError::BoundPort { port, bound_port: bound_port as u16 })
        },
        Err(error) => Err(ExposureError::Forwarding { port, error }),
    }
}

impl PortRegistration {
    #[verifier::type_invariant]
    spec fn well_formed(self) -> bool {
        self.done <= self.ports@.len()
    }

    /// The requested ports.
    pub closed spec fn ports(&self) -> Seq<u16> {
        self.ports@
    }

    /// How many of the ports are forwarded.
    pub closed spec fn done(&self) -> nat {
        self.done as nat
    }

    /// The state before the first request.
    pub fn new(ports: Vec<u16>) -> (res: Self)
        ensures
            res.ports() == ports@,
            res.done() == 0,
    {
        PortRegistration { ports, done: 0 }
    }

    /// The state before the first request for the ports of `plan`.
    pub fn for_plan(plan: &HostExposurePlan) -> (res: Self)
        ensures
            res.ports() == plan.requested_ports@,
            res.done() == 0,
    {
        PortRegistration::new(plan.requested_ports.clone())
    }

    /// The request to make next, where there is one left.
    pub fn next_request(&self) -> (res: Option<ForwardRequest>)
        ensures
            self.done() <= self.ports().len(),
            res is None <==> self.done() == self.ports().len(),
            res matches Some(request) ==> {
                &&& request.address@ == "0.0.0.0"@
                &&& request.port == self.ports()[self.done() as int]
            },
    {
        proof {
            use_type_invariant(self);
        }
        if self.done < self.ports.len() {
            Some(ForwardRequest { address: "0.0.0.0", port: self.ports[self.done] as u32 })
        } else {
            None
        }
    }

    /// Takes the reply to the request made last: the port that the server listens on, or why it
    /// does not. The port counts as forwarded only if the server listens on exactly that one.
    pub fn register_requested_port(&mut self, reply: Result<u32, String>) -> (res: Result<
        (),
        ExposureError,
    >)
        requires
            old(self).done() < old(self).ports().len(),
            reply matches Ok(bound_port) ==> bound_port <= u16::MAX,
        ensures
            final(self).ports() == old(self).ports(),
            res == reply_outcome(old(self).ports()[old(self).done() as int], reply),
            final(self).done() == (if res is Ok {
                old(self).done() + 1
            } else {
                old(self).done()
            }),
    {
        let port: u16 = self.ports[self.done];
        match reply {
            Ok(bound_port) => {
                let bound_port: u16 = bound_port as u16;
                if bound_port != port {
                    return Err(ExposureError::BoundPort { port, bound_port });
                }
                assert(self.done < self.ports.len());
                self.done = self.done + 1;
                Ok(())
            },
            Err(error) => Err(ExposureError::Forwarding { port, error }),
        }
    }
}

/// How the registration of `ports`, of which `done` are forwarded, goes on when the server gives
/// `replies` in turn: how many ports are forwarded in the end, and the error that stopped it.
pub open spec fn registration(ports: Seq<u16>, done: nat, replies: Seq<Result<u32, String>>) -> (
    nat,
    Result<(), ExposureError>,
)
    decreases replies.len(),
{
    if replies.len() == 0 || done >= ports.len() {
        (done, Ok(()))
    } else {
        match reply_outcome(ports[done as int], replies[0]) {
            Ok(_) => registration(ports, done + 1, replies.drop_first()),
            Err(err) => (done, Err(err)),
        }
    }
}

/// Registration forwards every requested port exactly when the server binds each of them, in
/// the order of the requests, to the very port that was asked for.
pub proof fn law_all_ports_are_bound_as_requested(
    ports: Seq<u16>,
    done: nat,
    replies: Seq<Result<u32, String>>,
)
    requires
        done <= ports.len(),
        replies.len() == ports.len() - done,
    ensures
        registration(ports, done, replies) == (ports.len(), Ok::<(), ExposureError>(())) <==> (
        forall|i: int|
            0 <= i < replies.len() ==> #[trigger] replies[i] == Ok::<u32, String>(
                ports[done + i] as u32,
            )),
    decreases replies.len(),
{
    if replies.len() > 0 {
        let rest = replies.drop_first();
        law_all_ports_are_bound_as_requested(ports, done + 1, rest);
        let here = replies[0] == Ok::<u32, String>(ports[done as int] as u32);
        assert(here <==> reply_outcome(ports[done as int], replies[0]) == Ok::<(), ExposureError>(()));
        if here && (forall|i: int|
            0 <= i < rest.len() ==> #[trigger] rest[i] == Ok::<u32, String>(
                ports[done + 1 + i] as u32,
            )) {
            assert forall|i: int| 0 <= i < replies.len() implies #[trigger] replies[i] == Ok::<
                u32,
                String,
            >(ports[done + i] as u32) by {
                if i > 0 {
                    assert(rest[i - 1] == replies[i]);
                }
            }
        }
        if forall|i: int|
            0 <= i < replies.len() ==> #[trigger] replies[i] == Ok::<u32, String>(
                ports[done + i] as u32,
            ) {
            assert(here);
            assert forall|i: int| 0 <= i < rest.len() implies #[trigger] rest[i] == Ok::<
                u32,
                String,
            >(ports[done + 1 + i] as u32) by {
                assert(rest[i] == replies[i + 1]);
            }
        }
    }
}

/// A port counts as forwarded exactly if the server says that it listens on the very port that was
/// asked for; another port, or no port, is reported with the one that was asked for.
pub proof fn law_only_the_requested_port_counts(reply: Result<u32, String>, res: Result<(), ExposureError>)
    ensures
        forall|registration: &mut PortRegistration| #[trigger]
            call_ensures(PortRegistration::register_requested_port, (registration, reply), res)
                && (*registration).done() < (*registration).ports().len() && (reply is Ok
                ==> reply->Ok_0 <= u16::MAX) ==> {
                let port = (*registration).ports()[(*registration).done() as int];
                &&& res is Ok <==> reply == Ok::<u32, String>(port as u32)
                &&& reply matches Ok(bound) ==> bound != port ==> res == Err::<(), _>(
                    ExposureError::BoundPort { port, bound_port: bound as u16 },
                )
                &&& reply matches Err(error) ==> res == Err::<(), _>(
                    ExposureError::Forwarding { port, error },
                )
                &&& final(registration).ports() == (*registration).ports()
                &&& final(registration).done() == (*registration).done() + if res is Ok {
                    1int
                } else {
                    0int
                }
            },
{
}

/// Every port of a plan is asked for, in the plan's order, on all addresses of the sidecar.
pub proof fn law_every_planned_port_is_asked_for(
    plan: &HostExposurePlan,
    fresh: PortRegistration,
    registration: &PortRegistration,
    request: Option<ForwardRequest>,
)
    requires
        call_ensures(PortRegistration::for_plan, (plan,), fresh),
        call_ensures(PortRegistration::next_request, (registration,), request),
    ensures
        fresh.ports() == plan.requested_ports@,
        fresh.done() == 0,
        registration.done() < registration.ports().len() ==> (request matches Some(request)
            && request.address@ == "0.0.0.0"@ && request.port == registration.ports()[
            registration.done() as int]),
        registration.done() == registration.ports().len() ==> request is None,
{
}

/// Registration stops at the first reply that is not the requested port, and says why.
pub proof fn law_first_wrong_reply_ends_the_registration(
    ports: Seq<u16>,
    done: nat,
    replies: Seq<Result<u32, String>>,
    k: int,
)
    requires
        0 <= k < replies.len(),
        done + replies.len() <= ports.len(),
        forall|i: int|
            0 <= i < k ==> #[trigger] replies[i] == Ok::<u32, String>(ports[done + i] as u32),
        replies[k] != Ok::<u32, String>(ports[done + k] as u32),
        replies[k] is Ok ==> replies[k]->Ok_0 <= u16::MAX,
    ensures
        registration(ports, done, replies).0 == done + k,
        registration(ports, done, replies).1 == (match replies[k] {
            Ok(bound) => Err::<(), _>(
                ExposureError::BoundPort { port: ports[done + k], bound_port: bound as u16 },
            ),
            Err(error) => Err::<(), _>(ExposureError::Forwarding { port: ports[done + k], error }),
        }),
    decreases k,
{
    if k > 0 {
        let rest = replies.drop_first();
        assert(replies[0] == Ok::<u32, String>(ports[done as int] as u32));
        assert forall|i: int| 0 <= i < k - 1 implies #[trigger] rest[i] == Ok::<u32, String>(
            ports[done + 1 + i] as u32,
        ) by {
            assert(rest[i] == replies[i + 1]);
        }
        law_first_wrong_reply_ends_the_registration(ports, done + 1, rest, k - 1);
    }
}

} // verus!
