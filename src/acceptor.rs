use vstd::prelude::*;
use crate::shutdown::ShutdownSignal;

verus! {

/// What the accept loop observed in one round.
#[derive(Clone, Copy, Debug, PartialEq, Eq)]
pub enum AcceptEvent {
    /// A connection was accepted.
    Connection,
    /// Accepting failed, for instance on a transient OS error.
    AcceptFailed,
    /// The shutdown signal fired.
    StopSignalled,
}

/// What the accept loop does in response.
#[derive(Clone, Copy, Debug, PartialEq, Eq)]
pub enum AcceptAction {
    /// Service the connection in a task of its own and keep accepting.
    Spawn,
    /// Log the failure and keep accepting.
    LogAndContinue,
    /// Stop accepting and return. Connections already spawned keep running.
    Exit,
}

/// One round of the accept loop: the flag after it, and the action.
pub open spec fn step_spec(stopped: bool, ev: AcceptEvent) -> (bool, AcceptAction) {
    if stopped {
        (true, AcceptAction::Exit)
    } else {
        match ev {
            AcceptEvent::Connection => (false, AcceptAction::Spawn),
            AcceptEvent::AcceptFailed => (false, AcceptAction::LogAndContinue),
            AcceptEvent::StopSignalled => (true, AcceptAction::Exit),
        }
    }
}

/// The actions a loop takes over a run of events; nothing follows an exit.
pub open spec fn run_spec(stopped: bool, evs: Seq<AcceptEvent>) -> Seq<AcceptAction>
    decreases evs.len(),
{
    if evs.len() == 0 {
        Seq::empty()
    } else {
        let (s, a) = step_spec(stopped, evs[0]);
        if a == AcceptAction::Exit {
            seq![a]
        } else {
            seq![a] + run_spec(s, evs.subrange(1, evs.len() as int))
        }
    }
}

/// The accept loop's decisions. The socket and the tasks live with the caller.
pub struct Acceptor {
    signal: ShutdownSignal,
}

impl Acceptor {
    pub closed spec fn stopped(&self) -> bool {
        self.signal@
    }

    pub fn new() -> (r: Acceptor)
        ensures
            !r.stopped(),
    {
        Acceptor { signal: ShutdownSignal::new() }
    }

    pub fn is_stopped(&self) -> (r: bool)
        ensures
            r == self.stopped(),
    {
        self.signal.is_stopped()
    }

    /// Decides one round of the loop.
    pub fn step(&mut self, ev: AcceptEvent) -> (a: AcceptAction)
        ensures
            (final(self).stopped(), a) == step_spec(old(self).stopped(), ev),
    {
        if self.signal.is_stopped() {
            return AcceptAction::Exit;
        }
        match ev {
            AcceptEvent::Connection => AcceptAction::Spawn,
            AcceptEvent::AcceptFailed => AcceptAction::LogAndContinue,
            AcceptEvent::StopSignalled => {
                self.signal.signal_stop();
                AcceptAction::Exit
            },
        }
    }
}

/// Once the stop signal has been seen, no further connection is accepted:
/// no action at or after that round is a spawn, and the loop ends there.
pub proof fn lemma_no_accept_after_stop(stopped: bool, evs: Seq<AcceptEvent>, i: int)
    requires
        0 <= i < evs.len(),
        evs[i] == AcceptEvent::StopSignalled,
    ensures
        run_spec(stopped, evs).len() <= i + 1,
        forall|j: int| i <= j < run_spec(stopped, evs).len() ==> #[trigger] run_spec(stopped, evs)[j] != AcceptAction::Spawn,
    decreases evs.len(),
{
    let (s, a) = step_spec(stopped, evs[0]);
    if a != AcceptAction::Exit {
        let rest = evs.subrange(1, evs.len() as int);
        assert(i > 0);
        lemma_no_accept_after_stop(s, rest, i - 1);
        assert forall|j: int| i <= j < run_spec(stopped, evs).len() implies #[trigger] run_spec(stopped, evs)[j] != AcceptAction::Spawn by {
            assert(run_spec(stopped, evs)[j] == run_spec(s, rest)[j - 1]);
        }
    }
}

/// A stop signal seen again after the first changes nothing that follows.
pub proof fn lemma_stop_twice_same_as_once(evs: Seq<AcceptEvent>)
    ensures
        run_spec(true, evs) == run_spec(true, seq![AcceptEvent::StopSignalled] + evs).subrange(0, run_spec(true, evs).len() as int),
        step_spec(step_spec(false, AcceptEvent::StopSignalled).0, AcceptEvent::StopSignalled) == step_spec(false, AcceptEvent::StopSignalled),
{
    reveal_with_fuel(run_spec, 2);
}

/// How servicing a connection ended with an error.
#[derive(Clone, Copy, Debug, PartialEq, Eq)]
pub enum ConnectionFailure {
    /// The peer went away before a response was written.
    NotConnected,
    /// Any other protocol or transport failure.
    Other,
}

/// Whether a connection failure is worth logging: a peer that left before the
/// response is expected, everything else is not.
pub fn should_log(f: ConnectionFailure) -> (r: bool)
    ensures
        r <==> f != ConnectionFailure::NotConnected,
{
    match f {
        ConnectionFailure::NotConnected => false,
        ConnectionFailure::Other => true,
    }
}

} // verus!
