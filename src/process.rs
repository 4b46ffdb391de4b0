//! Output of a launched process as one ordered sequence of lines that ends with
//! exactly one exit element.
//!
//! The caller spawns the process, reads both of its output channels and waits
//! for it; each thing it observes is fed to `ProcessSession::step`, which
//! decides what to emit.
use vstd::prelude::*;

verus! {

/// One element of a process's output sequence. `Exit` carries the exit code,
/// or `None` where the process ended without one (killed by a signal).
pub enum ProcessUpdate {
    Line(String),
    Exit(Option<i32>),
}

/// The two output channels of a process.
#[derive(Clone, Copy, PartialEq, Eq, Structural)]
pub enum OutputChannel {
    Stdout,
    Stderr,
}

/// What was observed of the process since the last step.
pub enum ProcessEvent {
    /// A line was read from one of the output channels.
    Line(String),
    /// An output channel reached its end.
    Closed(OutputChannel),
    /// The process ended with this exit code.
    Exited(Option<i32>),
}

pub enum ProcessUpdateView {
    Line(Seq<char>),
    Exit(Option<i32>),
}

pub enum ProcessEventView {
    Line(Seq<char>),
    Closed(OutputChannel),
    Exited(Option<i32>),
}

impl View for ProcessUpdate {
    type V = ProcessUpdateView;

    open spec fn view(&self) -> ProcessUpdateView {
        match self {
            ProcessUpdate::Line(l) => ProcessUpdateView::Line(l@),
            ProcessUpdate::Exit(c) => ProcessUpdateView::Exit(*c),
        }
    }
}

impl View for ProcessEvent {
    type V = ProcessEventView;

    open spec fn view(&self) -> ProcessEventView {
        match self {
            ProcessEvent::Line(l) => ProcessEventView::Line(l@),
            ProcessEvent::Closed(c) => ProcessEventView::Closed(*c),
            ProcessEvent::Exited(c) => ProcessEventView::Exited(*c),
        }
    }
}

pub open spec fn update_opt_view(u: Option<ProcessUpdate>) -> Option<ProcessUpdateView> {
    match u {
        Some(v) => Some(v@),
        None => None,
    }
}

/// Where a process session stands: which channels are still open, the exit
/// status once known, and whether the exit element was emitted.
#[derive(Clone, Copy, PartialEq, Eq, Structural)]
pub struct ProcessSession {
    pub stdout_open: bool,
    pub stderr_open: bool,
    pub status: Option<Option<i32>>,
    pub done: bool,
}

impl ProcessSession {
    /// The exit element goes out only once both channels ended and the status is known.
    pub open spec fn wf(self) -> bool {
        self.done ==> !self.stdout_open && !self.stderr_open && self.status is Some
    }

    pub open spec fn fresh() -> ProcessSession {
        ProcessSession { stdout_open: true, stderr_open: true, status: None, done: false }
    }

    /// A session for a process that was just spawned.
    pub fn new() -> (r: ProcessSession)
        ensures
            r == ProcessSession::fresh(),
    {
        ProcessSession { stdout_open: true, stderr_open: true, status: None, done: false }
    }
}

/// The session after an event, before any exit element is considered.
pub open spec fn absorb(s: ProcessSession, e: ProcessEventView) -> ProcessSession {
    match e {
        ProcessEventView::Line(_) => s,
        ProcessEventView::Closed(OutputChannel::Stdout) => ProcessSession { stdout_open: false, ..s },
        ProcessEventView::Closed(OutputChannel::Stderr) => ProcessSession { stderr_open: false, ..s },
        ProcessEventView::Exited(c) => if s.status is None {
            ProcessSession { status: Some(c), ..s }
        } else {
            s
        },
    }
}

/// One transition of a process session: next session and emitted element.
pub open spec fn process_step_spec(s: ProcessSession, e: ProcessEventView) -> (
    ProcessSession,
    Option<ProcessUpdateView>,
) {
    if s.done {
        (s, None)
    } else {
        match e {
            ProcessEventView::Line(l) => (s, Some(ProcessUpdateView::Line(l))),
            _ => {
                let t = absorb(s, e);
                if !t.stdout_open && !t.stderr_open && t.status is Some {
                    (ProcessSession { done: true, ..t }, Some(ProcessUpdateView::Exit(t.status->0)))
                } else {
                    (t, None)
                }
            },
        }
    }
}

pub open spec fn emitted_update(u: Option<ProcessUpdateView>) -> Seq<ProcessUpdateView> {
    match u {
        Some(v) => seq![v],
        None => Seq::empty(),
    }
}

/// A whole session: the state after `evs` and the output sequence emitted on the way.
pub open spec fn process_run(s: ProcessSession, evs: Seq<ProcessEventView>) -> (
    ProcessSession,
    Seq<ProcessUpdateView>,
)
    decreases evs.len(),
{
    if evs.len() == 0 {
        (s, Seq::empty())
    } else {
        let prev = process_run(s, evs.drop_last());
        let next = process_step_spec(prev.0, evs.last());
        (next.0, prev.1 + emitted_update(next.1))
    }
}

impl ProcessSession {
    /// Advances the session by one observation.
    pub fn step(&mut self, e: ProcessEvent) -> (r: Option<ProcessUpdate>)
        requires
            old(self).wf(),
        ensures
            (*final(self), update_opt_view(r)) == process_step_spec(*old(self), e@),
            final(self).wf(),
    {
        if self.done {
            return None;
        }
        match e {
            ProcessEvent::Line(l) => Some(ProcessUpdate::Line(l)),
            ProcessEvent::Closed(c) => {
                match c {
                    OutputChannel::Stdout => {
                        self.stdout_open = false;
                    },
                    OutputChannel::Stderr => {
                        self.stderr_open = false;
                    },
                }
                self.exit_if_complete()
            },
            ProcessEvent::Exited(c) => {
                if self.status.is_none() {
                    self.status = Some(c);
                }
                self.exit_if_complete()
            },
        }
    }

    fn exit_if_complete(&mut self) -> (r: Option<ProcessUpdate>)
        requires
            !old(self).done,
        ensures
            if !old(self).stdout_open && !old(self).stderr_open && old(self).status is Some {
                *final(self) == (ProcessSession { done: true, ..*old(self) })
                    && r == Some(ProcessUpdate::Exit(old(self).status->0))
            } else {
                *final(self) == *old(self) && r is None
            },
    {
        match self.status {
            Some(c) => {
                if !self.stdout_open && !self.stderr_open {
                    self.done = true;
                    Some(ProcessUpdate::Exit(c))
                } else {
                    None
                }
            },
            None => None,
        }
    }

    /// Whether the exit element was emitted; the sequence has ended then.
    pub fn is_done(&self) -> (r: bool)
        ensures
            r == self.done,
    {
        self.done
    }
}

/// Once the exit element went out, a session emits nothing more, whatever it observes.
pub proof fn lemma_done_is_silent(s: ProcessSession, evs: Seq<ProcessEventView>)
    requires
        s.done,
    ensures
        process_run(s, evs) == (s, Seq::<ProcessUpdateView>::empty()),
    decreases evs.len(),
{
    if evs.len() > 0 {
        lemma_done_is_silent(s, evs.drop_last());
        assert(Seq::<ProcessUpdateView>::empty() + emitted_update(None) =~= Seq::<
            ProcessUpdateView,
        >::empty());
    }
}

/// The output sequence of a session holds at most one `Exit` element, and only
/// as its last element; the session is done exactly when it ends with one.
/// Once both channels have ended and the exit status was observed, the sequence
/// ends with exactly that one `Exit`.
pub proof fn lemma_exit_is_last(evs: Seq<ProcessEventView>)
    ensures
        process_run(ProcessSession::fresh(), evs).0.wf(),
        forall|i: int|
            0 <= i < process_run(ProcessSession::fresh(), evs).1.len() && (
            #[trigger] process_run(ProcessSession::fresh(), evs).1[i]) is Exit ==> i
                == process_run(ProcessSession::fresh(), evs).1.len() - 1,
        process_run(ProcessSession::fresh(), evs).0.done <==> (process_run(
            ProcessSession::fresh(),
            evs,
        ).1.len() > 0 && process_run(ProcessSession::fresh(), evs).1.last() is Exit),
        ((exists|i: int| 0 <= i < evs.len() && evs[i] == ProcessEventView::Closed(OutputChannel::Stdout))
            && (exists|i: int| 0 <= i < evs.len() && evs[i] == ProcessEventView::Closed(OutputChannel::Stderr))
            && (exists|i: int| 0 <= i < evs.len() && #[trigger] evs[i] is Exited))
            ==> process_run(ProcessSession::fresh(), evs).0.done,
    decreases evs.len(),
{
    if evs.len() > 0 {
        let init = evs.drop_last();
        lemma_exit_is_last(init);
        lemma_observed_kept(init);
        lemma_observed_kept(evs);
        let prev = process_run(ProcessSession::fresh(), init);
        let out = prev.1 + emitted_update(process_step_spec(prev.0, evs.last()).1);
        assert forall|i: int| 0 <= i < out.len() && (#[trigger] out[i]) is Exit implies i == out.len()
            - 1 by {
            if i < prev.1.len() {
                assert(out[i] == prev.1[i]);
            }
        }
    }
}

/// What a session observed stays recorded in its state.
proof fn lemma_observed_kept(evs: Seq<ProcessEventView>)
    ensures
        (exists|i: int| 0 <= i < evs.len() && evs[i] == ProcessEventView::Closed(OutputChannel::Stdout))
            ==> !process_run(ProcessSession::fresh(), evs).0.stdout_open,
        (exists|i: int| 0 <= i < evs.len() && evs[i] == ProcessEventView::Closed(OutputChannel::Stderr))
            ==> !process_run(ProcessSession::fresh(), evs).0.stderr_open,
        (exists|i: int| 0 <= i < evs.len() && #[trigger] evs[i] is Exited) ==> process_run(
            ProcessSession::fresh(),
            evs,
        ).0.status is Some,
        process_run(ProcessSession::fresh(), evs).0.wf(),
        !process_run(ProcessSession::fresh(), evs).0.done ==> !(!process_run(
            ProcessSession::fresh(),
            evs,
        ).0.stdout_open && !process_run(ProcessSession::fresh(), evs).0.stderr_open
            && process_run(ProcessSession::fresh(), evs).0.status is Some),
    decreases evs.len(),
{
    if evs.len() > 0 {
        let init = evs.drop_last();
        lemma_observed_kept(init);
        assert forall|i: int| 0 <= i < init.len() implies init[i] == evs[i] by {}
        if exists|i: int| 0 <= i < evs.len() && evs[i] == ProcessEventView::Closed(OutputChannel::Stdout) {
            let i = choose|i: int| 0 <= i < evs.len() && evs[i] == ProcessEventView::Closed(OutputChannel::Stdout);
            if i < init.len() {
                assert(init[i] == evs[i]);
            }
        }
        if exists|i: int| 0 <= i < evs.len() && evs[i] == ProcessEventView::Closed(OutputChannel::Stderr) {
            let i = choose|i: int| 0 <= i < evs.len() && evs[i] == ProcessEventView::Closed(OutputChannel::Stderr);
            if i < init.len() {
                assert(init[i] == evs[i]);
            }
        }
        if exists|i: int| 0 <= i < evs.len() && #[trigger] evs[i] is Exited {
            let i = choose|i: int| 0 <= i < evs.len() && #[trigger] evs[i] is Exited;
            if i < init.len() {
                assert(init[i] == evs[i]);
            }
        }
    }
}

} // verus!
