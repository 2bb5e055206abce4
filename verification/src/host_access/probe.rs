//! The probe that finds the gateway of a network from inside: a short-lived container that prints
//! its default route.

use vstd::prelude::*;
use vstd::utf8::{decode_utf8, valid_utf8};

use crate::host_access::extra_hosts::HostAccessError;
use crate::request::IpAddress;
use crate::text::{
    first_nonblank_line, first_printed_line, is_blank, is_white_space, lemma_blank_has_no_line,
    lemma_first_line_of, trimmed,
};

verus! {

/// The image that the probe runs.
pub const GATEWAY_PROBE_IMAGE: &'static str = "alpine:3.20";

/// The script that the probe runs.
pub const GATEWAY_PROBE_SCRIPT: &'static str = r#"
if command -v ip >/dev/null 2>&1; then
  ip -4 route show default 2>/dev/null | awk 'NR==1 {print $3; exit}'
  ip route show default 2>/dev/null | awk 'NR==1 {print $3; exit}'
fi
if command -v route >/dev/null 2>&1; then
  route -n 2>/dev/null | awk 'NR==3 {print $2; exit}'
fi
"#;

/// The container that the probe runs in.
#[derive(Debug, PartialEq, Eq)]
pub struct ProbeContainer {
    pub image: String,
    pub cmd: Vec<String>,
    pub network_mode: Option<String>,
    /// Whether the engine removes the container by itself.
    pub auto_remove: bool,
}

fn mode_text(network_mode: Option<&str>) -> (res: Option<String>)
    ensures
        res is Some <==> network_mode is Some,
        res matches Some(text) ==> text@ == network_mode->0@,
{
    match network_mode {
        Some(mode) => Some(mode.to_owned()),
        None => None,
    }
}

/// The container that probes the network of `network_mode`.
pub fn probe_container(network_mode: Option<&str>) -> (res: ProbeContainer)
    ensures
        res.image@ == GATEWAY_PROBE_IMAGE@,
        res.cmd@.len() == 3,
        res.cmd@[0]@ == "/bin/sh"@,
        res.cmd@[1]@ == "-c"@,
        res.cmd@[2]@ == trimmed(GATEWAY_PROBE_SCRIPT@),
        res.network_mode is Some <==> network_mode is Some,
        res.network_mode matches Some(mode) ==> mode@ == network_mode->0@,
        !res.auto_remove,
{
    let mut cmd: Vec<String> = Vec::new();
    cmd.push(String::from("/bin/sh"));
    cmd.push(String::from("-c"));
    cmd.push(GATEWAY_PROBE_SCRIPT.trim().to_owned());
    ProbeContainer {
        image: GATEWAY_PROBE_IMAGE.to_owned(),
        cmd,
        network_mode: mode_text(network_mode),
        auto_remove: false,
    }
}

/// The text that bytes stand for, where each malformed part of them is replaced.
pub uninterp spec fn lossy_text(bytes: Seq<u8>) -> Seq<char>;

/// Standard library's `String::from_utf8_lossy`: the text depends on the bytes alone, and is the
/// one that they encode where they are valid UTF-8. How malformed parts come out is not said.
#[verifier::external_body]
fn utf8_lossy(bytes: &Vec<u8>) -> (res: String)
    ensures
        res@ == lossy_text(bytes@),
        valid_utf8(bytes@) ==> res@ == decode_utf8(bytes@),
{
    String::from_utf8_lossy(bytes).into_owned()
}

/// Whether `found` is what `parse` reads in the first printed line of `text`.
pub open spec fn is_printed_address<F: Fn(&String) -> Option<IpAddress>>(
    parse: F,
    text: Seq<char>,
    found: Option<IpAddress>,
) -> bool {
    match first_nonblank_line(text) {
        Some(line) => exists|printed: String|
            printed@ == line && #[trigger] call_ensures(parse, (&printed,), found),
        None => found is None,
    }
}

/// Reads the gateway in the text that the probe printed: its first line that is not blank.
pub fn gateway_in_text<F: Fn(&String) -> Option<IpAddress>>(text: &str, parse: &F) -> (res: Option<
    IpAddress,
>)
    requires
        forall|line: &String| call_requires(*parse, (line,)),
    ensures
        is_printed_address(*parse, text@, res),
{
    match first_printed_line(text) {
        Some(line) => parse(&line),
        None => None,
    }
}

/// Reads the gateway in the bytes that the probe printed.
pub fn gateway_from_probe_output<F: Fn(&String) -> Option<IpAddress>>(
    stdout: &Vec<u8>,
    parse: &F,
) -> (res: Option<IpAddress>)
    requires
        forall|line: &String| call_requires(*parse, (line,)),
    ensures
        is_printed_address(*parse, lossy_text(stdout@), res),
        valid_utf8(stdout@) ==> is_printed_address(*parse, decode_utf8(stdout@), res),
{
    let text = utf8_lossy(stdout);
    gateway_in_text(&text, parse)
}

/// How the probe failed.
#[derive(Debug)]
pub enum ProbeError<E> {
    /// The engine failed.
    Client(E),
    /// What the probe printed is of no use.
    Access(HostAccessError),
}

/// How far the probe has come.
#[derive(Debug)]
pub enum ProbeState<E> {
    /// Its image is being pulled.
    Pulling,
    /// Its container is being created.
    Creating,
    /// Its container is being started.
    Starting { id: String },
    /// Its container is running, and asked after this many milliseconds whether it has exited.
    Waiting { id: String, after_ms: u64 },
    /// What its container printed is being read.
    Reading { id: String },
    /// Its container is being removed.
    Removing { id: String, result: Result<IpAddress, ProbeError<E>> },
    /// It is over.
    Finished { result: Result<IpAddress, ProbeError<E>> },
}

/// How a step of the probe ended.
#[derive(Debug)]
pub enum ProbeEvent<E> {
    Pulled(Result<(), E>),
    Created(Result<String, E>),
    Started(Result<(), E>),
    /// The exit code, where the container has exited.
    Polled(Result<Option<i64>, E>),
    Printed(Result<Vec<u8>, E>),
    Removed(Result<(), E>),
}

/// Whether `event` can end the step that the probe is in.
pub open spec fn can_follow<E>(state: ProbeState<E>, event: ProbeEvent<E>) -> bool {
    match event {
        ProbeEvent::Pulled(_) => state is Pulling,
        ProbeEvent::Created(_) => state is Creating,
        ProbeEvent::Started(_) => state is Starting,
        ProbeEvent::Polled(_) => state is Waiting,
        ProbeEvent::Printed(_) => state is Reading,
        ProbeEvent::Removed(_) => state is Removing,
    }
}

/// The container that exists in this state of the probe.
pub open spec fn container_of<E>(state: ProbeState<E>) -> Option<String> {
    match state {
        ProbeState::Starting { id } => Some(id),
        ProbeState::Waiting { id, .. } => Some(id),
        ProbeState::Reading { id } => Some(id),
        ProbeState::Removing { id, .. } => Some(id),
        _ => None,
    }
}

/// Whether `result` is what the probe's output comes to.
pub open spec fn is_probe_result<E, F: Fn(&String) -> Option<IpAddress>>(
    parse: F,
    network_mode: Option<&str>,
    stdout: Seq<u8>,
    result: Result<IpAddress, ProbeError<E>>,
) -> bool {
    match result {
        Ok(ip) => {
            &&& is_printed_address(parse, lossy_text(stdout), Some(ip))
            &&& valid_utf8(stdout) ==> is_printed_address(parse, decode_utf8(stdout), Some(ip))
        },
        Err(ProbeError::Access(HostAccessError::ProbeOutput { network })) => {
            &&& is_printed_address(parse, lossy_text(stdout), None)
            &&& valid_utf8(stdout) ==> is_printed_address(parse, decode_utf8(stdout), None)
            &&& network is Some <==> network_mode is Some
            &&& network matches Some(network) ==> network@ == network_mode->0@
        },
        Err(_) => false,
    }
}

/// Whether the probe goes from `state` to `next` when its step ends with `event`.
pub open spec fn probe_step<E, F: Fn(&String) -> Option<IpAddress>>(
    parse: F,
    network_mode: Option<&str>,
    state: ProbeState<E>,
    event: ProbeEvent<E>,
    next: ProbeState<E>,
) -> bool {
    match (event, container_of(state)) {
        (ProbeEvent::Pulled(Ok(_)), _) => next == ProbeState::<E>::Creating,
        (ProbeEvent::Pulled(Err(err)), _) => next == (ProbeState::Finished {
            result: Err(ProbeError::Client(err)),
        }),
        (ProbeEvent::Created(Ok(id)), _) => next == (ProbeState::<E>::Starting { id }),
        (ProbeEvent::Created(Err(err)), _) => next == (ProbeState::Finished {
            result: Err(ProbeError::Client(err)),
        }),
        (ProbeEvent::Started(Ok(_)), Some(id)) => next == (ProbeState::<E>::Waiting {
            id,
            after_ms: 0,
        }),
        (ProbeEvent::Started(Err(err)), Some(id)) => next == (ProbeState::Removing {
            id,
            result: Err(ProbeError::Client(err)),
        }),
        (ProbeEvent::Polled(Ok(Some(_))), Some(id)) => next == (ProbeState::<E>::Reading { id }),
        (ProbeEvent::Polled(Ok(None)), Some(id)) => next == (ProbeState::<E>::Waiting {
            id,
            after_ms: 50,
        }),
        (ProbeEvent::Polled(Err(err)), Some(id)) => next == (ProbeState::Removing {
            id,
            result: Err(ProbeError::Client(err)),
        }),
        (ProbeEvent::Printed(Ok(stdout)), Some(id)) => {
            &&& next matches ProbeState::Removing { id: same, result }
            &&& same == id
            &&& is_probe_result(parse, network_mode, stdout@, result)
        },
        (ProbeEvent::Printed(Err(err)), Some(id)) => next == (ProbeState::Removing {
            id,
            result: Err(ProbeError::Client(err)),
        }),
        (ProbeEvent::Removed(_), _) => state matches ProbeState::Removing { result, .. } && next
            == (ProbeState::Finished { result }),
        _ => false,
    }
}

/// Takes the probe one step further. Once its container is created, it is removed whatever happens,
/// and neither its exit code nor a failure to remove it changes the result.
pub fn run_gateway_probe<E, F: Fn(&String) -> Option<IpAddress>>(
    state: ProbeState<E>,
    event: ProbeEvent<E>,
    network_mode: Option<&str>,
    parse: &F,
) -> (next: ProbeState<E>)
    requires
        can_follow(state, event),
        forall|line: &String| call_requires(*parse, (line,)),
    ensures
        probe_step(*parse, network_mode, state, event, next),
{
    match (event, state) {
        (ProbeEvent::Pulled(Ok(_)), _) => ProbeState::Creating,
        (ProbeEvent::Pulled(Err(err)), _) => ProbeState::Finished {
            result: Err(ProbeError::Client(err)),
        },
        (ProbeEvent::Created(Ok(id)), _) => ProbeState::Starting { id },
        (ProbeEvent::Created(Err(err)), _) => ProbeState::Finished {
            result: Err(ProbeError::Client(err)),
        },
        (ProbeEvent::Started(Ok(_)), ProbeState::Starting { id }) => ProbeState::Waiting {
            id,
            after_ms: 0,
        },
        (ProbeEvent::Started(Err(err)), ProbeState::Starting { id }) => ProbeState::Removing {
            id,
            result: Err(ProbeError::Client(err)),
        },
        (ProbeEvent::Polled(Ok(exit)), ProbeState::Waiting { id, .. }) => match exit {
            Some(_) => ProbeState::Reading { id },
            None => ProbeState::Waiting { id, after_ms: 50 },
        },
        (ProbeEvent::Polled(Err(err)), ProbeState::Waiting { id, .. }) => ProbeState::Removing {
            id,
            result: Err(ProbeError::Client(err)),
        },
        (ProbeEvent::Printed(Ok(stdout)), ProbeState::Reading { id }) => {
            let result = match gateway_from_probe_output(&stdout, parse) {
                Some(ip) => Ok(ip),
                None => Err(
                    ProbeError::Access(
                        HostAccessError::ProbeOutput { network: mode_text(network_mode) },
                    ),
                ),
            };
            ProbeState::Removing { id, result }
        },
        (ProbeEvent::Printed(Err(err)), ProbeState::Reading { id }) => ProbeState::Removing {
            id,
            result: Err(ProbeError::Client(err)),
        },
        (_, ProbeState::Removing { result, .. }) => ProbeState::Finished { result },
        (_, state) => state,
    }
}

/// A probe leaves no container behind: from its creation on, the container stays the probe's until
/// it has been removed, and only then is the probe over.
pub proof fn law_probe_container_is_removed<E, F: Fn(&String) -> Option<IpAddress>>(
    parse: F,
    network_mode: Option<&str>,
    state: ProbeState<E>,
    event: ProbeEvent<E>,
    next: ProbeState<E>,
)
    requires
        can_follow(state, event),
        probe_step(parse, network_mode, state, event, next),
        container_of(state) is Some,
    ensures
        container_of(next) == container_of(state) || (event is Removed && next is Finished),
        next is Finished ==> event is Removed,
        state matches ProbeState::Removing { result, .. } ==> next == (ProbeState::Finished { result }),
{
}

/// The probe runs in a container of its fixed image that runs its script in a shell, joins the
/// network that is probed and stays until it is removed.
pub proof fn law_probe_joins_the_probed_network(network_mode: Option<&str>, res: ProbeContainer)
    requires
        call_ensures(probe_container, (network_mode,), res),
    ensures
        res.image@ == "alpine:3.20"@,
        res.cmd@.len() == 3,
        res.cmd@[0]@ == "/bin/sh"@,
        res.cmd@[1]@ == "-c"@,
        res.cmd@[2]@ == trimmed(
            r#"
if command -v ip >/dev/null 2>&1; then
  ip -4 route show default 2>/dev/null | awk 'NR==1 {print $3; exit}'
  ip route show default 2>/dev/null | awk 'NR==1 {print $3; exit}'
fi
if command -v route >/dev/null 2>&1; then
  route -n 2>/dev/null | awk 'NR==3 {print $2; exit}'
fi
"#@,
        ),
        network_mode is None ==> res.network_mode is None,
        network_mode matches Some(mode) ==> (res.network_mode matches Some(joined) && joined@
            == mode@),
        !res.auto_remove,
{
}

/// Whether the probe goes from `state` to `next` when its step ends with `event`.
pub open spec fn is_step<E, F: Fn(&String) -> Option<IpAddress>>(
    parse: &F,
    network_mode: Option<&str>,
    state: ProbeState<E>,
    event: ProbeEvent<E>,
    next: ProbeState<E>,
) -> bool {
    can_follow(state, event) && call_ensures(
        run_gateway_probe::<E, F>,
        (state, event, network_mode, parse),
        next,
    )
}

/// The output of the probe is read exactly after the engine reported an exit code, whatever it was.
/// As long as there is none the probe keeps waiting for the same container and asks again after 50
/// milliseconds, however often it asked before.
pub proof fn law_output_is_read_only_after_the_exit<E, F: Fn(&String) -> Option<IpAddress>>(
    parse: &F,
    network_mode: Option<&str>,
    state: ProbeState<E>,
    event: ProbeEvent<E>,
    next: ProbeState<E>,
)
    requires
        is_step(parse, network_mode, state, event, next),
    ensures
        next is Reading <==> (event matches ProbeEvent::Polled(Ok(Some(_)))),
        next is Reading ==> (state matches ProbeState::Waiting { id, .. } && next
            == (ProbeState::<E>::Reading { id })),
        event matches ProbeEvent::Polled(Ok(None)) ==> (state matches ProbeState::Waiting { id, .. }
            && next == (ProbeState::<E>::Waiting { id, after_ms: 50 })),
        next is Waiting <==> (event matches ProbeEvent::Started(Ok(_))) || (event
            matches ProbeEvent::Polled(Ok(None))),
{
}

/// However many polls find the container running, the probe is waiting for it still.
pub proof fn law_probe_waits_as_long_as_it_takes<E, F: Fn(&String) -> Option<IpAddress>>(
    parse: &F,
    network_mode: Option<&str>,
    id: String,
    states: Seq<ProbeState<E>>,
    n: nat,
)
    requires
        n < states.len(),
        states[0] matches ProbeState::Waiting { id: waiting_for, .. } && waiting_for == id,
        forall|i: int|
            0 <= i < states.len() - 1 ==> #[trigger] is_step(
                parse,
                network_mode,
                states[i],
                ProbeEvent::Polled(Ok(None)),
                states[i + 1],
            ),
    ensures
        states[n as int] matches ProbeState::Waiting { id: waiting_for, after_ms } && waiting_for
            == id && (n > 0 ==> after_ms == 50),
    decreases n,
{
    if n > 0 {
        law_probe_waits_as_long_as_it_takes(parse, network_mode, id, states, (n - 1) as nat);
        assert(is_step(
            parse,
            network_mode,
            states[n - 1],
            ProbeEvent::Polled(Ok(None)),
            states[n - 1 + 1],
        ));
    }
}

/// The probe runs through its steps in order, with the container that the engine created: the image
/// is pulled, the container created, started and asked at once whether it has exited, its output
/// read, and the container removed, whether or not the engine manages to.
pub proof fn law_probe_runs_through_its_steps<E, F: Fn(&String) -> Option<IpAddress>>(
    parse: &F,
    network_mode: Option<&str>,
    id: String,
    code: i64,
    stdout: Vec<u8>,
    removed: Result<(), E>,
    states: Seq<ProbeState<E>>,
)
    requires
        states.len() == 7,
        states[0] is Pulling,
        is_step(parse, network_mode, states[0], ProbeEvent::Pulled(Ok(())), states[1]),
        is_step(parse, network_mode, states[1], ProbeEvent::Created(Ok(id)), states[2]),
        is_step(parse, network_mode, states[2], ProbeEvent::Started(Ok(())), states[3]),
        is_step(parse, network_mode, states[3], ProbeEvent::Polled(Ok(Some(code))), states[4]),
        is_step(parse, network_mode, states[4], ProbeEvent::Printed(Ok(stdout)), states[5]),
        is_step(parse, network_mode, states[5], ProbeEvent::Removed(removed), states[6]),
    ensures
        states[1] is Creating,
        states[2] == (ProbeState::<E>::Starting { id }),
        states[3] == (ProbeState::<E>::Waiting { id, after_ms: 0 }),
        states[4] == (ProbeState::<E>::Reading { id }),
        states[5] matches ProbeState::Removing { id: same, result } && same == id && states[6] == (
        ProbeState::Finished { result }) && !(result matches Err(ProbeError::Client(_))),
{
}

/// A failure of the engine is the result of the probe. Before there is a container it ends the
/// probe at once; from then on the container is removed first, and neither that nor what comes of
/// it changes the result.
pub proof fn law_engine_failures_are_the_result<E, F: Fn(&String) -> Option<IpAddress>>(
    parse: &F,
    network_mode: Option<&str>,
    state: ProbeState<E>,
    event: ProbeEvent<E>,
    next: ProbeState<E>,
    err: E,
)
    requires
        is_step(parse, network_mode, state, event, next),
    ensures
        event == ProbeEvent::Pulled(Err::<(), E>(err)) || event == ProbeEvent::Created(
            Err::<String, E>(err),
        ) ==> next == (ProbeState::Finished { result: Err(ProbeError::Client(err)) }),
        event == ProbeEvent::Started(Err::<(), E>(err)) ==> (state matches ProbeState::Starting {
            id,
        } && next == (ProbeState::Removing { id, result: Err(ProbeError::Client(err)) })),
        event == ProbeEvent::Polled(Err::<Option<i64>, E>(err)) ==> (state
            matches ProbeState::Waiting { id, .. } && next == (ProbeState::Removing {
            id,
            result: Err(ProbeError::Client(err)),
        })),
        event == ProbeEvent::Printed(Err::<Vec<u8>, E>(err)) ==> (state
            matches ProbeState::Reading { id } && next == (ProbeState::Removing {
            id,
            result: Err(ProbeError::Client(err)),
        })),
        event is Removed ==> (state matches ProbeState::Removing { result, .. } && next == (
        ProbeState::Finished { result })),
        next is Finished ==> event is Removed || (event matches ProbeEvent::Pulled(Err(_))) || (event
            matches ProbeEvent::Created(Err(_))),
{
}

/// No outcome is turned away: the probe takes every outcome of the step that it is in.
pub proof fn law_probe_takes_every_outcome<E, F: Fn(&String) -> Option<IpAddress>>(
    parse: &F,
    network_mode: Option<&str>,
    id: String,
    after_ms: u64,
    result: Result<IpAddress, ProbeError<E>>,
    done: Result<(), E>,
    created: Result<String, E>,
    polled: Result<Option<i64>, E>,
    printed: Result<Vec<u8>, E>,
)
    requires
        forall|line: &String| call_requires(*parse, (line,)),
    ensures
        call_requires(
            run_gateway_probe::<E, F>,
            (ProbeState::<E>::Pulling, ProbeEvent::Pulled(done), network_mode, parse),
        ),
        call_requires(
            run_gateway_probe::<E, F>,
            (ProbeState::<E>::Creating, ProbeEvent::Created(created), network_mode, parse),
        ),
        call_requires(
            run_gateway_probe::<E, F>,
            (ProbeState::<E>::Starting { id }, ProbeEvent::Started(done), network_mode, parse),
        ),
        call_requires(
            run_gateway_probe::<E, F>,
            (
                ProbeState::<E>::Waiting { id, after_ms },
                ProbeEvent::Polled(polled),
                network_mode,
                parse,
            ),
        ),
        call_requires(
            run_gateway_probe::<E, F>,
            (ProbeState::<E>::Reading { id }, ProbeEvent::Printed(printed), network_mode, parse),
        ),
        call_requires(
            run_gateway_probe::<E, F>,
            (ProbeState::Removing { id, result }, ProbeEvent::Removed(done), network_mode, parse),
        ),
{
}

/// Whether `parse` reads texts of the same characters alike.
pub open spec fn reads_by_characters<F: Fn(&String) -> Option<IpAddress>>(parse: F) -> bool {
    forall|s: String, t: String, a: Option<IpAddress>, b: Option<IpAddress>|
        s@ == t@ && #[trigger] call_ensures(parse, (&s,), a) && #[trigger] call_ensures(
            parse,
            (&t,),
            b,
        ) ==> a == b
}

/// What is read is the first printed line that is not blank, without the white space around it:
/// blank lines before it and anything behind it make no difference. Blank text names no address.
pub proof fn law_first_printed_line_is_read<F: Fn(&String) -> Option<IpAddress>>(
    parse: &F,
    text: &str,
    blank: Seq<char>,
    before: Seq<char>,
    line: String,
    after: Seq<char>,
    rest: Seq<char>,
    read: Option<IpAddress>,
    res: Option<IpAddress>,
)
    requires
        reads_by_characters(*parse),
        is_blank(blank) && (blank.len() > 0 ==> blank.last() == '\n'),
        is_blank(before) && !before.contains('\n'),
        is_blank(after) && !after.contains('\n'),
        line@.len() > 0 && !line@.contains('\n'),
        !is_white_space(line@[0]) && !is_white_space(line@.last()),
        call_ensures(*parse, (&line,), read),
        call_ensures(gateway_in_text::<F>, (text, parse), res),
    ensures
        text@ == blank + before + line@ + after ==> res == read,
        text@ == blank + before + line@ + after + seq!['\n'] + rest ==> res == read,
        is_blank(text@) ==> res is None,
{
    lemma_first_line_of(blank, before, line@, after, rest);
    if is_blank(text@) {
        lemma_blank_has_no_line(text@);
    }
}

/// The output of the probe comes to the address that its text names, and to an error that names the
/// network where it names none. Valid UTF-8 is read as the text that it encodes.
pub proof fn law_probe_result_is_what_was_printed<E, F: Fn(&String) -> Option<IpAddress>>(
    parse: &F,
    network_mode: Option<&str>,
    id: String,
    stdout: Vec<u8>,
    text: &str,
    in_text: Option<IpAddress>,
    in_output: Option<IpAddress>,
    next: ProbeState<E>,
)
    requires
        reads_by_characters(*parse),
        call_ensures(gateway_in_text::<F>, (text, parse), in_text),
        call_ensures(gateway_from_probe_output::<F>, (&stdout, parse), in_output),
        is_step(
            parse,
            network_mode,
            ProbeState::Reading { id },
            ProbeEvent::Printed(Ok(stdout)),
            next,
        ),
    ensures
        text@ == lossy_text(stdout@) ==> in_output == in_text,
        valid_utf8(stdout@) && text@ == decode_utf8(stdout@) ==> in_output == in_text,
        next matches ProbeState::Removing { id: same, result } && same == id && (match in_output {
            Some(ip) => result == Ok::<IpAddress, ProbeError<E>>(ip),
            None => result matches Err(
                ProbeError::Access(HostAccessError::ProbeOutput { network }),
            ) && (network is None <==> network_mode is None) && (network is Some ==> network->0@
                == network_mode->0@),
        }),
{
    if text@ == lossy_text(stdout@) {
        lemma_one_printed_address(*parse, text@, in_text, in_output);
    }
    if valid_utf8(stdout@) && text@ == decode_utf8(stdout@) {
        lemma_one_printed_address(*parse, text@, in_text, in_output);
    }
    if let ProbeState::Removing { result, .. } = next {
        let found = match result {
            Ok(ip) => Some(ip),
            Err(_) => None,
        };
        lemma_one_printed_address(*parse, lossy_text(stdout@), found, in_output);
    }
}

proof fn lemma_one_printed_address<F: Fn(&String) -> Option<IpAddress>>(
    parse: F,
    text: Seq<char>,
    a: Option<IpAddress>,
    b: Option<IpAddress>,
)
    requires
        reads_by_characters(parse),
        is_printed_address(parse, text, a),
        is_printed_address(parse, text, b),
    ensures
        a == b,
{
}

} // verus!
