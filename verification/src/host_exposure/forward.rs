//! Connections that arrive at a forwarded port, and the tasks that carry them to the host.

use vstd::prelude::*;

verus! {

/// The tasks that carry connections, and whether new ones are still taken on.
#[derive(Debug)]
pub struct ForwardState<T> {
    stopped: bool,
    tasks: Vec<T>,
}

/// Those of `tasks` that have not finished, in their order.
pub open spec fn unfinished<T>(tasks: Seq<T>, finished: Seq<bool>) -> Seq<T>
    decreases tasks.len(),
{
    if tasks.len() == 0 {
        Seq::empty()
    } else if finished[tasks.len() - 1] {
        unfinished(tasks.drop_last(), finished)
    } else {
        unfinished(tasks.drop_last(), finished).push(tasks.last())
    }
}

impl<T> ForwardState<T> {
    /// Whether new connections are turned away.
    pub closed spec fn stopped(&self) -> bool {
        self.stopped
    }

    /// The tasks, in the order in which they were added.
    pub closed spec fn tasks(&self) -> Seq<T> {
        self.tasks@
    }

    /// The state before the first connection.
    pub fn new() -> (res: Self)
        ensures
            !res.stopped(),
            res.tasks() == Seq::<T>::empty(),
    {
        ForwardState { stopped: false, tasks: Vec::new() }
    }

    /// Turns connections away from now on.
    pub fn stop(&mut self)
        ensures
            final(self).stopped(),
            final(self).tasks() == old(self).tasks(),
    {
        self.stopped = true;
    }

    /// Whether new connections are turned away.
    pub fn is_stopped(&self) -> (res: bool)
        ensures
            res == self.stopped(),
    {
        self.stopped
    }

    /// The tasks, for asking which of them have finished.
    pub fn current_tasks(&self) -> (res: &Vec<T>)
        ensures
            res@ == self.tasks(),
    {
        &self.tasks
    }

    /// Adds a task and forgets those that `finished` reports as finished.
    pub fn add_task(&mut self, finished: &Vec<bool>, task: T)
        requires
            finished@.len() == old(self).tasks().len(),
        ensures
            final(self).stopped() == old(self).stopped(),
            final(self).tasks() == unfinished(old(self).tasks(), finished@).push(task),
    {
        let ghost before = self.tasks@;
        let mut n: usize = 0;
        let mut at: usize = 0;
        while n < finished.len()
            invariant
                n <= finished@.len(),
                finished@.len() == before.len(),
                self.stopped == old(self).stopped,
                at <= self.tasks@.len(),
                at == unfinished(before.take(n as int), finished@).len(),
                self.tasks@ == unfinished(before.take(n as int), finished@) + before.skip(n as int),
            decreases finished@.len() - n,
        {
            let ghost kept = unfinished(before.take(n as int), finished@);
            let ghost rest = before.skip(n as int);
            proof {
                assert(before.take(n + 1).drop_last() =~= before.take(n as int));
                assert(before.take(n + 1).last() == before[n as int]);
                assert(self.tasks@[at as int] == before[n as int]);
                assert(self.tasks@.len() > at);
            }
            if finished[n] {
                self.tasks.remove(at);
                assert(self.tasks@ =~= kept + before.skip(n + 1));
            } else {
                assert(self.tasks@ =~= kept.push(before[n as int]) + before.skip(n + 1));
                assert(at < self.tasks.len());
                at = at + 1;
            }
            n = n + 1;
        }
        assert(before.take(n as int) =~= before);
        assert(self.tasks@ =~= unfinished(before, finished@));
        self.tasks.push(task);
    }

    /// Takes all tasks out.
    pub fn drain_tasks(&mut self) -> (res: Vec<T>)
        ensures
            res@ == old(self).tasks(),
            final(self).tasks() == Seq::<T>::empty(),
            final(self).stopped() == old(self).stopped(),
    {
        let mut taken: Vec<T> = Vec::new();
        taken.append(&mut self.tasks);
        taken
    }
}

/// A connection that arrived at a forwarded port.
#[derive(Debug, PartialEq, Eq)]
pub struct ForwardedConnection {
    /// The port of the host that it is carried to.
    pub host_port: u16,
    /// The port of the sidecar that it arrived at.
    pub remote_port: u16,
    /// The address of the sidecar that it arrived at.
    pub connected_address: String,
    /// Where it came from.
    pub originator_address: String,
    pub originator_port: u32,
}

/// Decides what becomes of a connection that the SSH server announces: it is turned away once
/// forwarding has stopped, and otherwise carried to the port of the host with the same number.
pub fn open_forwarded_tcpip<T>(
    state: &ForwardState<T>,
    connected_address: &str,
    connected_port: u32,
    originator_address: &str,
    originator_port: u32,
) -> (res: Option<ForwardedConnection>)
    requires
        !state.stopped() ==> connected_port <= u16::MAX,
    ensures
        res is None <==> state.stopped(),
        res matches Some(connection) ==> {
            &&& connection.host_port == connected_port
            &&& connection.remote_port == connected_port
            &&& connection.connected_address@ == connected_address@
            &&& connection.originator_address@ == originator_address@
            &&& connection.originator_port == originator_port
        },
{
    if state.is_stopped() {
        return None;
    }
    let port: u16 = connected_port as u16;
    Some(
        ForwardedConnection {
            host_port: port,
            remote_port: port,
            connected_address: connected_address.to_owned(),
            originator_address: originator_address.to_owned(),
            originator_port,
        },
    )
}

/// The steps in which a connection is carried to the host.
#[derive(Debug, Clone, Copy, PartialEq, Eq, Structural)]
pub enum ForwardStage {
    /// A stream to the port of the host is being opened.
    Connecting,
    /// The stream is being told to send without delay.
    Configuring,
    /// Bytes are being copied both ways.
    Copying,
    /// The stream is being shut down.
    ShuttingDown,
}

/// What is to be done next for a connection.
#[derive(Debug)]
pub enum ForwardAction<E> {
    /// Open a stream to a port of the host.
    Connect { host: &'static str, port: u16 },
    /// Tell the stream to send without delay.
    SetNoDelay,
    /// Copy bytes both ways until either side closes.
    CopyBothWays,
    /// Shut the stream down.
    Shutdown,
    /// Nothing: the connection has ended like this.
    Finish(Result<(), E>),
}

/// Decides whether carrying a connection to the host begins at all.
pub fn forward_connection<E>(stopped: bool, host_port: u16) -> (res: ForwardAction<E>)
    ensures
        stopped ==> res == ForwardAction::<E>::Finish(Ok(())),
        !stopped ==> {
            &&& res matches ForwardAction::Connect { host, port }
            &&& host@ == "127.0.0.1"@
            &&& port == host_port
        },
{
    if stopped {
        return ForwardAction::Finish(Ok(()));
    }
    ForwardAction::Connect { host: "127.0.0.1", port: host_port }
}

/// What follows a stage that ended with `outcome`.
pub open spec fn next_action<E>(stage: ForwardStage, outcome: Result<(), E>) -> ForwardAction<E> {
    match stage {
        ForwardStage::Connecting => match outcome {
            Ok(_) => ForwardAction::SetNoDelay,
            Err(err) => ForwardAction::Finish(Err(err)),
        },
        ForwardStage::Configuring => ForwardAction::CopyBothWays,
        ForwardStage::Copying => match outcome {
            Ok(_) => ForwardAction::Shutdown,
            Err(err) => ForwardAction::Finish(Err(err)),
        },
        ForwardStage::ShuttingDown => ForwardAction::Finish(Ok(())),
    }
}

/// Decides what follows a stage: only a failure to connect or to copy ends the connection with
/// an error.
pub fn forward_step<E>(stage: ForwardStage, outcome: Result<(), E>) -> (res: ForwardAction<E>)
    ensures
        res == next_action(stage, outcome),
{
    match stage {
        ForwardStage::Connecting => match outcome {
            Ok(_) => ForwardAction::SetNoDelay,
            Err(err) => ForwardAction::Finish(Err(err)),
        },
        ForwardStage::Configuring => ForwardAction::CopyBothWays,
        ForwardStage::Copying => match outcome {
            Ok(_) => ForwardAction::Shutdown,
            Err(err) => ForwardAction::Finish(Err(err)),
        },
        ForwardStage::ShuttingDown => ForwardAction::Finish(Ok(())),
    }
}

/// How a connection ends whose stages end with the given outcomes in turn.
pub open spec fn forwarding_result<E>(
    connect: Result<(), E>,
    configure: Result<(), E>,
    copy: Result<(), E>,
    shutdown: Result<(), E>,
) -> Result<(), E> {
    match next_action(ForwardStage::Connecting, connect) {
        ForwardAction::Finish(result) => result,
        _ => match next_action(ForwardStage::Configuring, configure) {
            ForwardAction::Finish(result) => result,
            _ => match next_action(ForwardStage::Copying, copy) {
                ForwardAction::Finish(result) => result,
                _ => match next_action(ForwardStage::ShuttingDown, shutdown) {
                    ForwardAction::Finish(result) => result,
                    _ => arbitrary(),
                },
            },
        },
    }
}

/// A connection ends with an error exactly when opening the stream or copying failed, and then
/// with that error; failures to configure the stream or to shut it down are passed over.
pub proof fn law_only_connect_and_copy_failures_count<E>(
    connect: Result<(), E>,
    configure: Result<(), E>,
    copy: Result<(), E>,
    shutdown: Result<(), E>,
)
    ensures
        connect is Err ==> forwarding_result(connect, configure, copy, shutdown) == connect,
        connect is Ok ==> forwarding_result(connect, configure, copy, shutdown) == copy,
{
    if copy is Ok {
        assert(copy->Ok_0 == ());
    }
}

/// The stage that an action puts a connection in.
pub open spec fn stage_of<E>(action: ForwardAction<E>) -> Option<ForwardStage> {
    match action {
        ForwardAction::Connect { .. } => Some(ForwardStage::Connecting),
        ForwardAction::SetNoDelay => Some(ForwardStage::Configuring),
        ForwardAction::CopyBothWays => Some(ForwardStage::Copying),
        ForwardAction::Shutdown => Some(ForwardStage::ShuttingDown),
        ForwardAction::Finish(_) => None,
    }
}

/// Whether the action behind the `i`-th is what `forward_step` gives for its outcome.
pub open spec fn follows_at<E>(
    actions: Seq<ForwardAction<E>>,
    outcomes: Seq<Result<(), E>>,
    i: int,
) -> bool {
    &&& stage_of(actions[i]) is Some
    &&& call_ensures(
        forward_step::<E>,
        (stage_of(actions[i])->0, outcomes[i]),
        actions[i + 1],
    )
}

/// Whether `actions` are done in turn for a connection, where each but the last ends with the
/// outcome at its place: the first is what `forward_connection` gives, and each further one what
/// `forward_step` gives for the one before it.
pub open spec fn is_run<E>(
    stopped: bool,
    host_port: u16,
    actions: Seq<ForwardAction<E>>,
    outcomes: Seq<Result<(), E>>,
) -> bool {
    &&& actions.len() == outcomes.len() + 1
    &&& call_ensures(forward_connection::<E>, (stopped, host_port), actions[0])
    &&& forall|i: int| 0 <= i < outcomes.len() ==> #[trigger] follows_at(actions, outcomes, i)
}

/// The sequence of actions of a connection: a stream to the port of the host is opened, told to
/// send without delay, and copied both ways whatever telling it so ended with; it is shut down only
/// after the copy ended well, and that ends the connection well. A failure to open or to copy ends
/// it at once, with that error, and once forwarding has stopped nothing is done at all.
pub proof fn law_connection_is_copied_before_it_is_shut_down<E>(
    stopped: bool,
    host_port: u16,
    actions: Seq<ForwardAction<E>>,
    outcomes: Seq<Result<(), E>>,
)
    requires
        is_run(stopped, host_port, actions, outcomes),
    ensures
        stopped ==> actions == seq![ForwardAction::<E>::Finish(Ok(()))],
        !stopped ==> (actions[0] matches ForwardAction::Connect { host, port } && host@
            == "127.0.0.1"@ && port == host_port),
        outcomes.len() >= 1 && outcomes[0] is Ok ==> actions[1] == ForwardAction::<E>::SetNoDelay,
        outcomes.len() >= 1 && outcomes[0] is Err ==> outcomes.len() == 1 && actions[1]
            == ForwardAction::Finish(outcomes[0]),
        outcomes.len() >= 2 ==> actions[2] == ForwardAction::<E>::CopyBothWays,
        outcomes.len() >= 3 && outcomes[2] is Ok ==> actions[3] == ForwardAction::<E>::Shutdown,
        outcomes.len() >= 3 && outcomes[2] is Err ==> outcomes.len() == 3 && actions[3]
            == ForwardAction::Finish(outcomes[2]),
        outcomes.len() >= 4 ==> outcomes.len() == 4 && actions[4] == ForwardAction::<E>::Finish(
            Ok(()),
        ),
        forall|i: int|
            0 <= i < actions.len() && #[trigger] actions[i] is Shutdown ==> i == 3 && actions[2]
                is CopyBothWays && outcomes[2] is Ok,
{
    if outcomes.len() >= 1 {
        assert(follows_at(actions, outcomes, 0));
    }
    if outcomes.len() >= 2 {
        assert(follows_at(actions, outcomes, 1));
    }
    if outcomes.len() >= 3 {
        assert(follows_at(actions, outcomes, 2));
    }
    if outcomes.len() >= 4 {
        assert(follows_at(actions, outcomes, 3));
    }
    if outcomes.len() >= 5 {
        assert(follows_at(actions, outcomes, 4));
    }
}

/// Which tasks are kept: a task that has finished is forgotten and any other one stays, in its
/// place behind those before it.
pub proof fn law_only_finished_tasks_are_forgotten<T>(tasks: Seq<T>, finished: Seq<bool>, task: T)
    requires
        tasks.len() == finished.len(),
    ensures
        unfinished(Seq::<T>::empty(), finished) == Seq::<T>::empty(),
        unfinished(tasks.push(task), finished.push(true)) == unfinished(tasks, finished),
        unfinished(tasks.push(task), finished.push(false)) == unfinished(tasks, finished).push(task),
{
    assert(tasks.push(task).drop_last() =~= tasks);
    lemma_unfinished_prefix(tasks, finished, finished.push(true));
    lemma_unfinished_prefix(tasks, finished, finished.push(false));
}

proof fn lemma_unfinished_prefix<T>(tasks: Seq<T>, a: Seq<bool>, b: Seq<bool>)
    requires
        tasks.len() <= a.len(),
        tasks.len() <= b.len(),
        forall|i: int| 0 <= i < tasks.len() ==> a[i] == b[i],
    ensures
        unfinished(tasks, a) == unfinished(tasks, b),
    decreases tasks.len(),
{
    if tasks.len() > 0 {
        lemma_unfinished_prefix(tasks.drop_last(), a, b);
    }
}

/// A task that is added comes last, behind those that have not finished, and a task comes out only
/// if it went in: draining hands out what was kept, and leaves nothing.
pub proof fn law_tasks_come_out_as_they_went_in<T>(task: T, drained: Vec<T>)
    ensures
        forall|state: &mut ForwardState<T>, finished: &Vec<bool>|
            finished@.len() == (*state).tasks().len() && #[trigger] call_ensures(
                ForwardState::<T>::add_task,
                (state, finished, task),
                (),
            ) ==> {
                &&& final(state).tasks() == unfinished((*state).tasks(), finished@).push(task)
                &&& final(state).stopped() == (*state).stopped()
            },
        forall|state: &mut ForwardState<T>| #[trigger]
            call_ensures(ForwardState::<T>::drain_tasks, (state,), drained) ==> {
                &&& drained@ == (*state).tasks()
                &&& final(state).tasks().len() == 0
                &&& final(state).stopped() == (*state).stopped()
            },
{
}

/// A connection is carried to the port of the host with the number of the one it arrived at,
/// exactly as long as forwarding has not been stopped.
pub proof fn law_connections_keep_their_port_number<T>(
    state: &ForwardState<T>,
    connected_address: &str,
    connected_port: u32,
    originator_address: &str,
    originator_port: u32,
    res: Option<ForwardedConnection>,
)
    requires
        call_ensures(
            open_forwarded_tcpip::<T>,
            (state, connected_address, connected_port, originator_address, originator_port),
            res,
        ),
    ensures
        state.stopped() ==> res is None,
        !state.stopped() ==> {
            &&& res matches Some(connection)
            &&& connection.host_port == connected_port
            &&& connection.remote_port == connected_port
            &&& connection.connected_address@ == connected_address@
            &&& connection.originator_address@ == originator_address@
            &&& connection.originator_port == originator_port
        },
{
}

/// Stopping is final for connections and leaves the tasks alone: a state that was stopped says so,
/// and a new one has not been.
pub proof fn law_stopping_is_noticed<T>(fresh: ForwardState<T>, says: bool)
    ensures
        call_ensures(ForwardState::<T>::new, (), fresh) ==> !fresh.stopped() && fresh.tasks().len()
            == 0,
        forall|state: &mut ForwardState<T>| #[trigger]
            call_ensures(ForwardState::<T>::stop, (state,), ()) ==> {
                &&& final(state).stopped()
                &&& final(state).tasks() == (*state).tasks()
            },
        forall|state: &ForwardState<T>| #[trigger]
            call_ensures(ForwardState::<T>::is_stopped, (state,), says) ==> says
                == state.stopped(),
        forall|state: &ForwardState<T>, tasks: &Vec<T>| #[trigger]
            call_ensures(ForwardState::<T>::current_tasks, (state,), tasks) ==> tasks@
                == state.tasks(),
{
}

} // verus!
