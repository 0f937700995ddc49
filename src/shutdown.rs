use vstd::prelude::*;

verus! {

/// Seconds an HTTP listener is given to drain in-flight requests once asked to
/// stop.
pub const SHUTDOWN_TIMEOUT_SEC: u64 = 10;

/// What a listener's shutdown watcher does when it sees the signal.
#[derive(Clone, Copy, Debug, PartialEq, Eq)]
pub enum WatcherAction {
    /// Ask the server to stop; when `graceful`, in-flight requests get up to
    /// `timeout_secs` seconds to finish before the server force-closes them.
    StopServer { graceful: bool, timeout_secs: u64 },
    /// Nothing more to do: the stop was already requested.
    Ignore,
}

pub struct WatcherModel {
    pub graceful: bool,
    pub timeout_secs: u64,
    pub stop_requested: bool,
}

/// What the watcher does when it sees the signal in state `m`.
pub open spec fn signal_action(m: WatcherModel) -> WatcherAction {
    if m.stop_requested {
        WatcherAction::Ignore
    } else {
        WatcherAction::StopServer { graceful: m.graceful, timeout_secs: m.timeout_secs }
    }
}

/// The watcher after it has seen the signal in state `m`.
pub open spec fn after_signal(m: WatcherModel) -> WatcherModel {
    WatcherModel { stop_requested: true, ..m }
}

/// Watches the shutdown signal on behalf of one listener and asks the
/// listener's server to stop, once.
#[derive(Debug)]
pub struct ShutdownWatcher {
    graceful: bool,
    timeout_secs: u64,
    stop_requested: bool,
}

impl View for ShutdownWatcher {
    type V = WatcherModel;

    closed spec fn view(&self) -> WatcherModel {
        WatcherModel {
            graceful: self.graceful,
            timeout_secs: self.timeout_secs,
            stop_requested: self.stop_requested,
        }
    }
}

impl ShutdownWatcher {
    /// A watcher that will ask for a stop, graceful or not, within
    /// `timeout_secs` seconds.
    pub fn new(graceful: bool, timeout_secs: u64) -> (w: ShutdownWatcher)
        ensures
            w@ == (WatcherModel { graceful, timeout_secs, stop_requested: false }),
    {
        ShutdownWatcher { graceful, timeout_secs, stop_requested: false }
    }

    pub fn stop_requested(&self) -> (r: bool)
        ensures
            r == self@.stop_requested,
    {
        self.stop_requested
    }

    /// Reacts to the shutdown signal.
    pub fn on_signal(&mut self) -> (a: WatcherAction)
        ensures
            final(self)@ == after_signal(old(self)@),
            a == signal_action(old(self)@),
    {
        if self.stop_requested {
            WatcherAction::Ignore
        } else {
            self.stop_requested = true;
            WatcherAction::StopServer { graceful: self.graceful, timeout_secs: self.timeout_secs }
        }
    }
}

} // verus!
