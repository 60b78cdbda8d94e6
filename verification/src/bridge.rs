//! Resolution of one query against the worker's output stream.
//!
//! A query is written to the worker as one line; the worker's answer comes
//! back interleaved with notifications on a single stream.  `resolve_lines`
//! consumes output lines in order until the first terminal message and
//! returns its result together with every notification seen before it, in
//! order.  `BridgeSession` guards the exchange so that a second query cannot
//! begin until the first has resolved: the stream carries no correlation
//! identifiers, so interleaved read loops would misattribute responses.

use crate::protocol::Notification;
use crate::protocol::NotificationView;
use crate::protocol::Step;
use crate::protocol::StepView;
use crate::protocol::classify_line;
use crate::protocol::spec_classify;
use crate::protocol::wire_line_of;
use vstd::prelude::*;
use vstd::string::StringExecFns;

verus! {

/// Everything that can go wrong between a caller and the worker.
pub enum CoreError {
    /// The worker process could not be started.
    SpawnError,
    /// The worker's input stream is closed or the write failed.
    WriteError,
    /// The worker explicitly reported this error for the query.
    AgentError(String),
    /// The output stream closed before any terminal message.
    NoResponseError,
    /// The worker's termination could not be confirmed.
    StopError,
    /// The shared worker state could not be locked.
    LockError,
}

/// The mathematical shadow of a `CoreError`.
pub enum CoreErrorView {
    SpawnError,
    WriteError,
    AgentError(Seq<char>),
    NoResponseError,
    StopError,
    LockError,
}

impl View for CoreError {
    type V = CoreErrorView;

    open spec fn view(&self) -> CoreErrorView {
        match self {
            CoreError::SpawnError => CoreErrorView::SpawnError,
            CoreError::WriteError => CoreErrorView::WriteError,
            CoreError::AgentError(s) => CoreErrorView::AgentError(s@),
            CoreError::NoResponseError => CoreErrorView::NoResponseError,
            CoreError::StopError => CoreErrorView::StopError,
            CoreError::LockError => CoreErrorView::LockError,
        }
    }
}

/// The text shown to a caller for each failure.
pub open spec fn spec_message(e: CoreErrorView) -> Seq<char> {
    match e {
        CoreErrorView::SpawnError => "Failed to spawn agent process"@,
        CoreErrorView::WriteError => "Failed to write query to agent"@,
        CoreErrorView::AgentError(s) => "Agent error: "@ + s,
        CoreErrorView::NoResponseError => "Agent process not running or no response received"@,
        CoreErrorView::StopError => "Failed to stop agent process"@,
        CoreErrorView::LockError => "Agent state lock poisoned"@,
    }
}

impl CoreError {
    /// The failure's text.
    pub fn message(&self) -> (m: String)
        ensures
            m@ == spec_message(self@),
    {
        match self {
            CoreError::SpawnError => "Failed to spawn agent process".to_owned(),
            CoreError::WriteError => "Failed to write query to agent".to_owned(),
            CoreError::AgentError(s) => {
                let mut m: String = "Agent error: ".to_owned();
                m.append(s.as_str());
                m
            },
            CoreError::NoResponseError => {
                "Agent process not running or no response received".to_owned()
            },
            CoreError::StopError => "Failed to stop agent process".to_owned(),
            CoreError::LockError => "Agent state lock poisoned".to_owned(),
        }
    }
}

/// Whether a classified line ends the read loop.
pub open spec fn is_terminal(s: StepView) -> bool {
    s is Success || s is Failure
}

/// The views of a sequence of notifications.
pub open spec fn spec_notif_views(v: Seq<Notification>) -> Seq<NotificationView> {
    v.map_values(|n: Notification| n@)
}

/// The view of a query's outcome.
pub open spec fn spec_result_view(r: Result<String, CoreError>) -> Result<
    Seq<char>,
    CoreErrorView,
> {
    match r {
        Ok(s) => Ok(s@),
        Err(e) => Err(e@),
    }
}

/// What reading `lines` in order yields: the first terminal message's result
/// — or `NoResponseError` if the stream ends without one — together with the
/// notifications of every earlier line, in the order received.
pub open spec fn spec_resolve(lines: Seq<Seq<char>>) -> (Result<Seq<char>, CoreErrorView>, Seq<
    NotificationView,
>)
    decreases lines.len(),
{
    if lines.len() == 0 {
        (Err(CoreErrorView::NoResponseError), Seq::<NotificationView>::empty())
    } else {
        match spec_classify(wire_line_of(lines[0]), lines[0]) {
            StepView::Skip => spec_resolve(lines.drop_first()),
            StepView::Notify(n) => {
                let rest = spec_resolve(lines.drop_first());
                (rest.0, seq![n] + rest.1)
            },
            StepView::Success(s) => (Ok(s), Seq::<NotificationView>::empty()),
            StepView::Failure(e) => (
                Err(CoreErrorView::AgentError(e)),
                Seq::<NotificationView>::empty(),
            ),
        }
    }
}

/// Reads the given output lines in order and resolves the query: the first
/// terminal message decides the outcome, and every notification seen before
/// it is returned in order.  A stream that ends without a terminal message is
/// `NoResponseError`.
pub fn resolve_lines(lines: &Vec<String>) -> (out: (Result<String, CoreError>, Vec<Notification>))
    ensures
        spec_result_view(out.0) == spec_resolve(lines.deep_view()).0,
        spec_notif_views(out.1@) == spec_resolve(lines.deep_view()).1,
{
    let ghost all = lines.deep_view();
    let mut notes: Vec<Notification> = Vec::new();
    let mut i: usize = 0;
    proof {
        assert(all.skip(0) =~= all);
        assert(spec_notif_views(notes@) =~= Seq::<NotificationView>::empty());
        assert(Seq::<NotificationView>::empty() + spec_resolve(all).1 =~= spec_resolve(all).1);
    }
    while i < lines.len()
        invariant
            i <= lines@.len(),
            all == lines.deep_view(),
            spec_resolve(all).0 == spec_resolve(all.skip(i as int)).0,
            spec_resolve(all).1 == spec_notif_views(notes@) + spec_resolve(all.skip(i as int)).1,
        decreases lines@.len() - i,
    {
        let line = &lines[i];
        let ghost rest = all.skip(i as int);
        proof {
            assert(rest[0] == line@);
            assert(rest.drop_first() =~= all.skip(i as int + 1));
        }
        let step = classify_line(line);
        let ghost notes_snap = notes@;
        match step {
            Step::Skip => {},
            Step::Notify(n) => {
                notes.push(n);
                proof {
                    assert(spec_notif_views(notes@) =~= spec_notif_views(notes_snap) + seq![n@]);
                    assert(spec_notif_views(notes_snap) + (seq![n@] + spec_resolve(
                        rest.drop_first(),
                    ).1) =~= spec_notif_views(notes@) + spec_resolve(rest.drop_first()).1);
                }
            },
            Step::Success(s) => {
                proof {
                    assert(spec_notif_views(notes@) + Seq::<NotificationView>::empty()
                        =~= spec_notif_views(notes@));
                }
                return (Ok(s), notes);
            },
            Step::Failure(e) => {
                proof {
                    assert(spec_notif_views(notes@) + Seq::<NotificationView>::empty()
                        =~= spec_notif_views(notes@));
                }
                return (Err(CoreError::AgentError(e)), notes);
            },
        }
        i += 1;
    }
    proof {
        assert(all.skip(i as int) =~= Seq::<Seq<char>>::empty());
        assert(spec_notif_views(notes@) + Seq::<NotificationView>::empty() =~= spec_notif_views(
            notes@,
        ));
    }
    (Err(CoreError::NoResponseError), notes)
}

/// Law: closing the worker's output after only non-terminal lines yields
/// `NoResponseError`.
pub proof fn lemma_no_terminal_no_response(lines: Seq<Seq<char>>)
    requires
        forall|i: int|
            0 <= i < lines.len() ==> !is_terminal(
                #[trigger] spec_classify(wire_line_of(lines[i]), lines[i]),
            ),
    ensures
        spec_resolve(lines).0 == Result::<Seq<char>, CoreErrorView>::Err(
            CoreErrorView::NoResponseError,
        ),
    decreases lines.len(),
{
    if lines.len() > 0 {
        assert(!is_terminal(spec_classify(wire_line_of(lines[0]), lines[0])));
        assert forall|j: int| 0 <= j < lines.drop_first().len() implies !is_terminal(
            #[trigger] spec_classify(
                wire_line_of(lines.drop_first()[j]),
                lines.drop_first()[j],
            ),
        ) by {
            assert(lines.drop_first()[j] == lines[j + 1]);
        }
        lemma_no_terminal_no_response(lines.drop_first());
    }
}

/// Law: a line that classifies as a worker error, read first, fails the query
/// with exactly that text and dispatches no notification.
pub proof fn lemma_error_first(lines: Seq<Seq<char>>, msg: Seq<char>)
    requires
        lines.len() > 0,
        spec_classify(wire_line_of(lines[0]), lines[0]) == StepView::Failure(msg),
    ensures
        spec_resolve(lines).0 == Result::<Seq<char>, CoreErrorView>::Err(
            CoreErrorView::AgentError(msg),
        ),
        spec_resolve(lines).1 == Seq::<NotificationView>::empty(),
{
}

/// Guards the worker's single request/response exchange.  A query takes the
/// exchange with `begin` before writing its line and releases it with
/// `finish` once its terminal message is consumed; while one query holds the
/// exchange, no other can take it.
pub struct BridgeSession {
    busy: bool,
}

impl BridgeSession {
    /// Whether a query currently holds the exchange.
    pub closed spec fn is_busy(&self) -> bool {
        self.busy
    }

    /// A fresh guard; nothing is mid-flight.
    pub fn new() -> (s: BridgeSession)
        ensures
            !s.is_busy(),
    {
        BridgeSession { busy: false }
    }

    /// Takes the exchange for one query; fails exactly while another query
    /// holds it.
    pub fn begin(&mut self) -> (acquired: bool)
        ensures
            acquired == !old(self).is_busy(),
            final(self).is_busy(),
    {
        let acquired = !self.busy;
        self.busy = true;
        acquired
    }

    /// Releases the exchange after the terminal message is consumed.
    pub fn finish(&mut self)
        ensures
            !final(self).is_busy(),
    {
        self.busy = false;
    }
}

/// Law: queries serialize.  After one query takes the exchange, every further
/// attempt fails until that query finishes: read loops of two queries can
/// never overlap.
pub proof fn lemma_serialized_access(busy0: bool, acquired1: bool, busy1: bool, acquired2: bool)
    requires
        acquired1 == !busy0,  // what the first begin returned
        busy1,  // any begin leaves the exchange held
        acquired2 == !busy1,  // what a begin before the first finish returns
    ensures
        !acquired2,
{
}

} // verus!
