//! Progress-reporting download session, as an explicit state machine.
//!
//! The caller performs the network work that `State::fetch` names and feeds
//! what happened back as an `Event`; `State::step` decides the next state and
//! the progress element to emit.
use vstd::prelude::*;

verus! {

/// The human-readable size that bytesize prints for a byte count.
pub uninterp spec fn byte_size_text(bytes: u64) -> Seq<char>;

/// Relies on bytesize's `Display` for `ByteSize`: the text depends on the count alone.
#[verifier::external_body]
fn human_size(bytes: u64) -> (r: String)
    ensures
        r@ == byte_size_text(bytes),
{
    bytesize::ByteSize(bytes).to_string()
}

/// A download that has not started yet.
pub struct Download {
    pub url: String,
}

/// What a download session emits.
pub enum Progress {
    Started,
    Advanced(String, u64),
    Finished,
    Errored(String),
}

/// The states of a download session.
pub enum State {
    Ready(String),
    Downloading { total: u64, downloaded: u64 },
    Finished,
}

/// What the network reported since the last step.
pub enum Event {
    /// The request was answered; the announced total length, if any.
    Responded(Option<u64>),
    /// A chunk of the body of this many bytes arrived.
    Received(u64),
    /// The body ended.
    Ended,
    /// The request or the body transfer failed.
    Failed(String),
}

/// The network work that the current state asks for.
pub enum Fetch {
    Request(String),
    NextChunk,
    Park,
}

pub enum ProgressView {
    Started,
    Advanced(Seq<char>, u64),
    Finished,
    Errored(Seq<char>),
}

pub enum StateView {
    Ready(Seq<char>),
    Downloading { total: u64, downloaded: u64 },
    Finished,
}

pub enum EventView {
    Responded(Option<u64>),
    Received(u64),
    Ended,
    Failed(Seq<char>),
}

impl View for Progress {
    type V = ProgressView;

    open spec fn view(&self) -> ProgressView {
        match self {
            Progress::Started => ProgressView::Started,
            Progress::Advanced(t, p) => ProgressView::Advanced(t@, *p),
            Progress::Finished => ProgressView::Finished,
            Progress::Errored(m) => ProgressView::Errored(m@),
        }
    }
}

impl View for State {
    type V = StateView;

    open spec fn view(&self) -> StateView {
        match self {
            State::Ready(u) => StateView::Ready(u@),
            State::Downloading { total, downloaded } => StateView::Downloading {
                total: *total,
                downloaded: *downloaded,
            },
            State::Finished => StateView::Finished,
        }
    }
}

impl View for Event {
    type V = EventView;

    open spec fn view(&self) -> EventView {
        match self {
            Event::Responded(t) => EventView::Responded(*t),
            Event::Received(n) => EventView::Received(*n),
            Event::Ended => EventView::Ended,
            Event::Failed(m) => EventView::Failed(m@),
        }
    }
}

pub open spec fn progress_opt_view(p: Option<Progress>) -> Option<ProgressView> {
    match p {
        Some(q) => Some(q@),
        None => None,
    }
}

impl StateView {
    /// The byte count never runs past the announced total.
    pub open spec fn wf(self) -> bool {
        match self {
            StateView::Downloading { total, downloaded } => downloaded <= total,
            _ => true,
        }
    }
}

pub open spec fn unknown_size_message() -> Seq<char> {
    "could not calculate file size"@
}

pub open spec fn oversize_message() -> Seq<char> {
    "received more bytes than announced"@
}

pub open spec fn truncated_message() -> Seq<char> {
    "download ended before the announced size"@
}

/// Completed share of the download in whole percent, truncated.
pub open spec fn percentage(downloaded: u64, total: u64) -> u64 {
    if total == 0 {
        100
    } else {
        (downloaded * 100 / (total as int)) as u64
    }
}

/// The text that accompanies an `Advanced` element.
pub open spec fn progress_text(downloaded: u64, total: u64) -> Seq<char> {
    byte_size_text(downloaded) + " / "@ + byte_size_text(total)
}

/// One transition of a download session: next state and emitted element.
pub open spec fn step_spec(s: StateView, e: EventView) -> (StateView, Option<ProgressView>) {
    match s {
        StateView::Ready(_) => match e {
            EventView::Responded(Some(total)) => (
                StateView::Downloading { total, downloaded: 0 },
                Some(ProgressView::Started),
            ),
            EventView::Responded(None) => (
                StateView::Finished,
                Some(ProgressView::Errored(unknown_size_message())),
            ),
            EventView::Failed(m) => (StateView::Finished, Some(ProgressView::Errored(m))),
            _ => (s, None),
        },
        StateView::Downloading { total, downloaded } => match e {
            EventView::Received(n) => if downloaded + n <= total {
                let d = (downloaded + n) as u64;
                (
                    StateView::Downloading { total, downloaded: d },
                    Some(ProgressView::Advanced(progress_text(d, total), percentage(d, total))),
                )
            } else {
                (StateView::Finished, Some(ProgressView::Errored(oversize_message())))
            },
            EventView::Ended => if downloaded == total {
                (StateView::Finished, Some(ProgressView::Finished))
            } else {
                (StateView::Finished, Some(ProgressView::Errored(truncated_message())))
            },
            EventView::Failed(m) => (StateView::Finished, Some(ProgressView::Errored(m))),
            EventView::Responded(_) => (s, None),
        },
        StateView::Finished => (StateView::Finished, None),
    }
}

pub open spec fn emitted(p: Option<ProgressView>) -> Seq<ProgressView> {
    match p {
        Some(q) => seq![q],
        None => Seq::empty(),
    }
}

/// A whole session: the state after `evs` and everything emitted on the way.
pub open spec fn run(s: StateView, evs: Seq<EventView>) -> (StateView, Seq<ProgressView>)
    decreases evs.len(),
{
    if evs.len() == 0 {
        (s, Seq::empty())
    } else {
        let prev = run(s, evs.drop_last());
        let next = step_spec(prev.0, evs.last());
        (next.0, prev.1 + emitted(next.1))
    }
}

/// The percentage of an `Advanced` element; `-1` for any other element.
pub open spec fn advanced_percentage(p: ProgressView) -> int {
    match p {
        ProgressView::Advanced(_, q) => q as int,
        _ => -1,
    }
}

/// The `Advanced` elements of `out` come with non-decreasing percentages.
pub open spec fn advances_ordered(out: Seq<ProgressView>) -> bool {
    forall|i: int, j: int|
        0 <= i < j < out.len() && advanced_percentage(#[trigger] out[i]) >= 0
            && advanced_percentage(#[trigger] out[j]) >= 0 ==> advanced_percentage(out[i])
            <= advanced_percentage(out[j])
}

proof fn lemma_percentage_fits(downloaded: u64, total: u64)
    requires
        downloaded <= total,
        total > 0,
    ensures
        0 <= downloaded * 100 / (total as int) <= 100,
{
    assert(downloaded * 100 <= total * 100) by (nonlinear_arith)
        requires
            downloaded <= total,
    ;
    vstd::arithmetic::div_mod::lemma_div_is_ordered(downloaded * 100, total * 100, total as int);
    vstd::arithmetic::div_mod::lemma_div_multiples_vanish(100, total as int);
    vstd::arithmetic::div_mod::lemma_div_pos_is_pos(downloaded * 100, total as int);
}

/// More bytes received of the same total never lowers the percentage.
pub proof fn lemma_percentage_monotonic(d1: u64, d2: u64, total: u64)
    requires
        d1 <= d2 <= total,
    ensures
        percentage(d1, total) <= percentage(d2, total),
{
    if total > 0 {
        assert(d1 * 100 <= d2 * 100) by (nonlinear_arith)
            requires
                d1 <= d2,
        ;
        vstd::arithmetic::div_mod::lemma_div_is_ordered(d1 * 100, d2 * 100, total as int);
        lemma_percentage_fits(d1, total);
        lemma_percentage_fits(d2, total);
    }
}

/// Once a session is finished, it emits nothing more and stays finished,
/// whatever is reported to it.
pub proof fn lemma_finished_is_silent(evs: Seq<EventView>)
    ensures
        run(StateView::Finished, evs) == (StateView::Finished, Seq::<ProgressView>::empty()),
    decreases evs.len(),
{
    if evs.len() > 0 {
        lemma_finished_is_silent(evs.drop_last());
        assert(emitted(None) =~= Seq::<ProgressView>::empty());
        assert(Seq::<ProgressView>::empty() + Seq::<ProgressView>::empty() =~= Seq::<
            ProgressView,
        >::empty());
    }
}

/// A session only reports `Finished` when it has received exactly the announced
/// total, and while it downloads its total stays fixed and its byte count never drops.
pub proof fn lemma_step_complete_and_monotonic(s: StateView, e: EventView)
    requires
        s.wf(),
    ensures
        step_spec(s, e).0.wf(),
        step_spec(s, e).1 == Some(ProgressView::Finished) ==> (s matches StateView::Downloading {
            total,
            downloaded,
        } && downloaded == total),
        s matches StateView::Downloading { total: t1, downloaded: d1 } ==> (step_spec(s, e).0 matches
            StateView::Downloading { total: t2, downloaded: d2 } ==> t1 == t2 && d1 <= d2),
{
}

/// Over a whole session, the percentages of the `Advanced` elements never decrease,
/// and the state stays well formed.
pub proof fn lemma_session_advances_ordered(s: StateView, evs: Seq<EventView>)
    requires
        s.wf(),
    ensures
        run(s, evs).0.wf(),
        advances_ordered(run(s, evs).1),
    decreases evs.len(),
{
    lemma_session_bounded(s, evs);
}

proof fn lemma_session_bounded(s: StateView, evs: Seq<EventView>)
    requires
        s.wf(),
    ensures
        run(s, evs).0.wf(),
        advances_ordered(run(s, evs).1),
        run(s, evs).0 matches StateView::Ready(_) ==> forall|i: int|
            0 <= i < run(s, evs).1.len() ==> advanced_percentage(#[trigger] run(s, evs).1[i]) < 0,
        run(s, evs).0 matches StateView::Downloading { total, downloaded } ==> forall|i: int|
            0 <= i < run(s, evs).1.len() ==> advanced_percentage(#[trigger] run(s, evs).1[i])
                <= percentage(downloaded, total),
    decreases evs.len(),
{
    if evs.len() > 0 {
        lemma_session_bounded(s, evs.drop_last());
        let prev = run(s, evs.drop_last());
        let e = evs.last();
        let next = step_spec(prev.0, e);
        let out = prev.1 + emitted(next.1);
        assert(run(s, evs) == (next.0, out));
        match prev.0 {
            StateView::Downloading { total, downloaded } => {
                match e {
                    EventView::Received(n) => {
                        if downloaded + n <= total {
                            lemma_percentage_monotonic(downloaded, (downloaded + n) as u64, total);
                        }
                    },
                    _ => {},
                }
            },
            _ => {},
        }
        assert forall|i: int| 0 <= i < out.len() implies advanced_percentage(#[trigger] out[i])
            < 0 || (next.0 matches StateView::Downloading { total, downloaded }
            && advanced_percentage(out[i]) <= percentage(downloaded, total)) || (next.0 matches StateView::Finished) by {
            if i < prev.1.len() {
                assert(out[i] == prev.1[i]);
            }
        }
        assert forall|i: int, j: int|
            0 <= i < j < out.len() && advanced_percentage(#[trigger] out[i]) >= 0
                && advanced_percentage(#[trigger] out[j]) >= 0 implies advanced_percentage(out[i])
            <= advanced_percentage(out[j]) by {
            assert(out[i] == prev.1[i]);
            if j < prev.1.len() {
                assert(out[j] == prev.1[j]);
            }
        }
    }
}

impl Download {
    pub fn new(url: String) -> (r: Download)
        ensures
            r.url@ == url@,
    {
        Download { url }
    }

    /// The session that downloads this resource, before any request.
    pub fn start(self) -> (r: State)
        ensures
            r@ == StateView::Ready(self.url@),
    {
        State::Ready(self.url)
    }
}

fn percentage_of(downloaded: u64, total: u64) -> (r: u64)
    requires
        downloaded <= total,
    ensures
        r == percentage(downloaded, total),
        r <= 100,
{
    if total == 0 {
        100
    } else {
        let p: u128 = (downloaded as u128) * 100 / (total as u128);
        proof {
            lemma_percentage_fits(downloaded, total);
        }
        p as u64
    }
}

impl State {
    /// The network work to do next: a request, the next chunk, or nothing ever again.
    pub fn fetch(&self) -> (r: Fetch)
        ensures
            match self@ {
                StateView::Ready(u) => r matches Fetch::Request(v) && v@ == u,
                StateView::Downloading { .. } => r matches Fetch::NextChunk,
                StateView::Finished => r matches Fetch::Park,
            },
    {
        match self {
            State::Ready(u) => Fetch::Request(u.clone()),
            State::Downloading { .. } => Fetch::NextChunk,
            State::Finished => Fetch::Park,
        }
    }

    /// Whether the session has reached its terminal state.
    pub fn is_finished(&self) -> (r: bool)
        ensures
            r == (self@ == StateView::Finished),
    {
        matches!(self, State::Finished)
    }

    /// Advances the session by one network event.
    pub fn step(self, e: Event) -> (r: (State, Option<Progress>))
        requires
            self@.wf(),
        ensures
            (r.0@, progress_opt_view(r.1)) == step_spec(self@, e@),
            r.0@.wf(),
    {
        match self {
            State::Ready(u) => match e {
                Event::Responded(Some(total)) => (
                    State::Downloading { total, downloaded: 0 },
                    Some(Progress::Started),
                ),
                Event::Responded(None) => (
                    State::Finished,
                    Some(Progress::Errored(String::from_str("could not calculate file size"))),
                ),
                Event::Failed(m) => (State::Finished, Some(Progress::Errored(m))),
                _ => (State::Ready(u), None),
            },
            State::Downloading { total, downloaded } => match e {
                Event::Received(n) => {
                    if n <= total - downloaded {
                        let d = downloaded + n;
                        let a = human_size(d);
                        let b = human_size(total);
                        let text = a.concat(" / ").concat(b.as_str());
                        let p = percentage_of(d, total);
                        (State::Downloading { total, downloaded: d }, Some(Progress::Advanced(text, p)))
                    } else {
                        (
                            State::Finished,
                            Some(
                                Progress::Errored(
                                    String::from_str("received more bytes than announced"),
                                ),
                            ),
                        )
                    }
                },
                Event::Ended => {
                    if downloaded == total {
                        (State::Finished, Some(Progress::Finished))
                    } else {
                        (
                            State::Finished,
                            Some(
                                Progress::Errored(
                                    String::from_str("download ended before the announced size"),
                                ),
                            ),
                        )
                    }
                },
                Event::Failed(m) => (State::Finished, Some(Progress::Errored(m))),
                Event::Responded(t) => (State::Downloading { total, downloaded }, None),
            },
            State::Finished => (State::Finished, None),
        }
    }
}

} // verus!
