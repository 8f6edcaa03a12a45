use vstd::prelude::*;

verus! {

/// The answer of one reachability probe against the remote service.
#[derive(Clone, Copy, Debug, PartialEq, Eq, Structural)]
pub enum ProbeOutcome {
    /// The service answered with this HTTP status code.
    Responded(u16),
    /// No answer: timeout, DNS failure, refused connection.
    Unreachable,
}

/// How the cached status moved on an update.
#[derive(Clone, Copy, Debug, PartialEq, Eq, Structural)]
pub enum Transition {
    Unchanged,
    WentOnline,
    WentOffline,
}

/// An HTTP status code in the success class.
pub open spec fn is_success_status(code: u16) -> bool {
    200 <= code && code < 300
}

/// Whether a probe with this outcome shows the service as reachable.
pub open spec fn probe_online(outcome: ProbeOutcome) -> bool {
    match outcome {
        ProbeOutcome::Responded(code) => is_success_status(code),
        ProbeOutcome::Unreachable => false,
    }
}

/// The transition from one cached status to the next.
pub open spec fn transition_of(before: bool, after: bool) -> Transition {
    if before == after {
        Transition::Unchanged
    } else if after {
        Transition::WentOnline
    } else {
        Transition::WentOffline
    }
}

/// Single owner of the cached online flag.
pub struct ConnectivityMonitor {
    online: bool,
}

impl View for ConnectivityMonitor {
    type V = bool;

    closed spec fn view(&self) -> bool {
        self.online
    }
}

impl ConnectivityMonitor {
    /// A freshly started monitor is optimistic: it reports online.
    pub fn new() -> (m: ConnectivityMonitor)
        ensures
            m@,
    {
        ConnectivityMonitor { online: true }
    }

    /// The last known status, without any network traffic.
    pub fn current_status(&self) -> (r: bool)
        ensures
            r == self@,
    {
        self.online
    }

    /// Overrides the cached status, reporting the edge that this caused.
    pub fn set_status(&mut self, online: bool) -> (t: Transition)
        ensures
            final(self)@ == online,
            t == transition_of(old(self)@, online),
    {
        let before = self.online;
        self.online = online;
        if before == online {
            Transition::Unchanged
        } else if online {
            Transition::WentOnline
        } else {
            Transition::WentOffline
        }
    }

    /// Folds the outcome of a probe into the cached status: online exactly
    /// when the service answered with a success code.
    pub fn apply_probe(&mut self, outcome: ProbeOutcome) -> (t: Transition)
        ensures
            final(self)@ == probe_online(outcome),
            t == transition_of(old(self)@, probe_online(outcome)),
    {
        let online = match outcome {
            ProbeOutcome::Responded(code) => 200 <= code && code < 300,
            ProbeOutcome::Unreachable => false,
        };
        self.set_status(online)
    }
}

} // verus!
