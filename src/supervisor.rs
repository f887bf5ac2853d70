//! The decisions of the task that watches a spawned worker process.
use vstd::prelude::*;

verus! {

/// How a process ended: its exit code and the signal that stopped it, if any.
#[derive(PartialEq, Eq, Structural, Clone, Copy, Debug)]
pub struct ExitStatus {
    pub code: Option<i32>,
    pub signal: Option<i32>,
}

/// An event of a spawned process.
#[derive(Debug)]
pub enum ProcessEvent {
    /// A line on standard output.
    Stdout(String),
    /// A line on standard error.
    Stderr(String),
    /// An error while spawning or running.
    Error(String),
    /// The process ended.
    Terminated(ExitStatus),
    /// Any other event.
    Other,
}

/// The severity of a log entry.
#[derive(PartialEq, Eq, Structural, Clone, Copy, Debug)]
pub enum LogLevel {
    Info,
    Error,
}

/// What the watcher does for one event: a log entry, and the exit status to deliver.
#[derive(Debug)]
pub struct Reaction {
    pub log: Option<(LogLevel, String)>,
    pub deliver: Option<ExitStatus>,
}

/// The watcher of one spawned process.
#[derive(Debug)]
pub struct Supervisor {
    /// The termination signal has not been delivered yet.
    pub exit_pending: bool,
}

/// Whether the watcher, with the signal pending or not, delivers an exit status for
/// `e`, and which.
pub open spec fn delivery(pending: bool, e: ProcessEvent) -> Option<ExitStatus> {
    match e {
        ProcessEvent::Terminated(s) => if pending {
            Some(s)
        } else {
            None
        },
        _ => None,
    }
}

/// Whether the signal is still pending after `e`.
pub open spec fn pending_after(pending: bool, e: ProcessEvent) -> bool {
    pending && !(e is Terminated)
}

/// The exit statuses delivered over a run of events, in order.
pub open spec fn deliveries(pending: bool, events: Seq<ProcessEvent>) -> Seq<ExitStatus>
    decreases events.len(),
{
    if events.len() == 0 {
        Seq::empty()
    } else {
        let first = match delivery(pending, events[0]) {
            Some(s) => seq![s],
            None => Seq::empty(),
        };
        first + deliveries(pending_after(pending, events[0]), events.drop_first())
    }
}

/// The status carried by the first termination event, if there is one.
pub open spec fn first_exit(events: Seq<ProcessEvent>) -> Option<ExitStatus>
    decreases events.len(),
{
    if events.len() == 0 {
        None
    } else {
        match events[0] {
            ProcessEvent::Terminated(s) => Some(s),
            _ => first_exit(events.drop_first()),
        }
    }
}

proof fn lemma_nothing_after_delivery(events: Seq<ProcessEvent>)
    ensures
        deliveries(false, events) == Seq::<ExitStatus>::empty(),
    decreases events.len(),
{
    if events.len() > 0 {
        lemma_nothing_after_delivery(events.drop_first());
        assert(deliveries(false, events) =~= Seq::<ExitStatus>::empty());
    }
}

/// Over any run of events, the termination signal is delivered exactly once when a
/// termination event occurs, carrying that first event's exit code and signal, and
/// never otherwise: a process that does not end leaves it pending.
pub proof fn lemma_exit_delivered_once(events: Seq<ProcessEvent>)
    ensures
        deliveries(true, events) == match first_exit(events) {
            Some(s) => seq![s],
            None => Seq::<ExitStatus>::empty(),
        },
    decreases events.len(),
{
    if events.len() > 0 {
        match events[0] {
            ProcessEvent::Terminated(s) => {
                lemma_nothing_after_delivery(events.drop_first());
                assert(deliveries(true, events) =~= seq![s]);
            },
            _ => {
                lemma_exit_delivered_once(events.drop_first());
                assert(deliveries(true, events) =~= deliveries(true, events.drop_first()));
            },
        }
    }
}

impl Supervisor {
    /// A watcher for a newly spawned process, its termination signal pending.
    pub fn new() -> (r: Supervisor)
        ensures
            r.exit_pending,
    {
        Supervisor { exit_pending: true }
    }

    /// Reacts to one event: output lines are logged at the same level, errors are
    /// logged as errors, and the first termination is logged and delivered.
    pub fn on_event(&mut self, event: ProcessEvent) -> (r: Reaction)
        ensures
            r.deliver == delivery(old(self).exit_pending, event),
            final(self).exit_pending == pending_after(old(self).exit_pending, event),
            match event {
                ProcessEvent::Stdout(line) => r.log == Some((LogLevel::Info, line)),
                ProcessEvent::Stderr(line) => r.log == Some((LogLevel::Info, line)),
                ProcessEvent::Error(err) => r.log == Some((LogLevel::Error, err)),
                ProcessEvent::Terminated(_) => r.log matches Some((LogLevel::Info, text)) && text@
                    == "Sidecar terminated"@,
                ProcessEvent::Other => r.log is None,
            },
    {
        match event {
            ProcessEvent::Stdout(line) => Reaction { log: Some((LogLevel::Info, line)), deliver: None },
            ProcessEvent::Stderr(line) => Reaction { log: Some((LogLevel::Info, line)), deliver: None },
            ProcessEvent::Error(err) => Reaction { log: Some((LogLevel::Error, err)), deliver: None },
            ProcessEvent::Terminated(status) => {
                let deliver = if self.exit_pending {
                    Some(status)
                } else {
                    None
                };
                self.exit_pending = false;
                Reaction { log: Some((LogLevel::Info, String::from_str("Sidecar terminated"))), deliver }
            },
            ProcessEvent::Other => Reaction { log: None, deliver: None },
        }
    }
}

} // verus!
