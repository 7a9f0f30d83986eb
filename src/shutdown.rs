use vstd::prelude::*;

verus! {

/// What the flag holds after one stop request, whatever it held before.
pub open spec fn stop_spec(stopped: bool) -> bool {
    true
}

/// The flag after `n` stop requests.
pub open spec fn stop_n(stopped: bool, n: nat) -> bool
    decreases n,
{
    if n == 0 {
        stopped
    } else {
        stop_spec(stop_n(stopped, (n - 1) as nat))
    }
}

/// One-shot cancellation flag: starts cleared, is set at most once, never reset.
pub struct ShutdownSignal {
    stopped: bool,
}

impl ShutdownSignal {
    pub closed spec fn view(&self) -> bool {
        self.stopped
    }

    pub fn new() -> (r: ShutdownSignal)
        ensures
            !r@,
    {
        ShutdownSignal { stopped: false }
    }

    /// Sets the flag. Returns whether this call was the one that set it.
    pub fn signal_stop(&mut self) -> (changed: bool)
        ensures
            final(self)@ == stop_spec(old(self)@),
            changed == !old(self)@,
    {
        let changed = !self.stopped;
        self.stopped = true;
        changed
    }

    pub fn is_stopped(&self) -> (r: bool)
        ensures
            r == self@,
    {
        self.stopped
    }
}

/// Asking to stop any positive number of times leaves the flag as one request does.
pub proof fn lemma_stop_idempotent(stopped: bool, n: nat)
    requires
        n >= 1,
    ensures
        stop_n(stopped, n) == stop_n(stopped, 1),
        stop_spec(stop_spec(stopped)) == stop_spec(stopped),
    decreases n,
{
    reveal_with_fuel(stop_n, 2);
}

} // verus!
