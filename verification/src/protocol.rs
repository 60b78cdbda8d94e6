//! The line-oriented protocol spoken by the worker process.
//!
//! The worker multiplexes progress notifications and the final result of a
//! query on one output stream, one JSON object per line.  A line is first
//! reduced to a `WireLine` — the tag and the protocol's string fields, each
//! present or absent — and then classified: a `Step` says whether the line is
//! noise to skip, a notification to forward, or the terminal success or
//! failure that ends the query's read loop.

use vstd::prelude::*;

verus! {

/// A record of one worker utterance, as the surrounding application keeps it.
pub struct AgentMessage {
    pub message_type: String,
    pub content: String,
    pub timestamp: u64,
}

/// A progress notification carried by a `status` line.
pub struct StatusUpdate {
    pub phase: String,
    pub message: String,
    pub details: Option<String>,
}

/// The mathematical shadow of a `StatusUpdate`.
pub struct StatusUpdateView {
    pub phase: Seq<char>,
    pub message: Seq<char>,
    pub details: Option<Seq<char>>,
}

impl View for StatusUpdate {
    type V = StatusUpdateView;

    open spec fn view(&self) -> StatusUpdateView {
        StatusUpdateView {
            phase: self.phase@,
            message: self.message@,
            details: self.details.deep_view(),
        }
    }
}

/// The protocol fields of one worker output line: the tag and each recognized
/// string field, where the line carried one.  A line that is not a JSON
/// object, or whose field is missing or not a string, shows `None` there.
pub struct WireLine {
    pub tag: Option<String>,
    pub phase: Option<String>,
    pub message: Option<String>,
    pub details: Option<String>,
    pub answer: Option<String>,
    pub result: Option<String>,
    pub error: Option<String>,
}

/// The mathematical shadow of a `WireLine`.
pub struct WireLineView {
    pub tag: Option<Seq<char>>,
    pub phase: Option<Seq<char>>,
    pub message: Option<Seq<char>>,
    pub details: Option<Seq<char>>,
    pub answer: Option<Seq<char>>,
    pub result: Option<Seq<char>>,
    pub error: Option<Seq<char>>,
}

impl View for WireLine {
    type V = WireLineView;

    open spec fn view(&self) -> WireLineView {
        WireLineView {
            tag: self.tag.deep_view(),
            phase: self.phase.deep_view(),
            message: self.message.deep_view(),
            details: self.details.deep_view(),
            answer: self.answer.deep_view(),
            result: self.result.deep_view(),
            error: self.error.deep_view(),
        }
    }
}

/// The protocol fields that one line of worker output carries, as a function
/// of the line's characters alone.
pub uninterp spec fn wire_line_of(line: Seq<char>) -> WireLineView;

/// Relies on serde_json::from_str and serde_json::Value::{get, as_str}: one
/// line of worker output is parsed as JSON, and each protocol field that is
/// present as a string is copied out.  Parsing is a pure function of the
/// line's characters.
#[verifier::external_body]
fn parse_wire_line(line: &str) -> (w: WireLine)
    ensures
        w@ == wire_line_of(line@),
{
    let v: Option<serde_json::Value> = serde_json::from_str(line).ok();
    let field = |k: &str| -> Option<String> {
        v.as_ref().and_then(|v| v.get(k)).and_then(serde_json::Value::as_str).map(str::to_string)
    };
    WireLine {
        tag: field("type"),
        phase: field("phase"),
        message: field("message"),
        details: field("details"),
        answer: field("answer"),
        result: field("result"),
        error: field("error"),
    }
}

/// A notification forwarded to observers without ending the read loop.
pub enum Notification {
    /// A `status` line's phase, message and optional details.
    Status(StatusUpdate),
    /// The raw line of a `delegation_activated` message.
    DelegationActivated(String),
    /// The raw line of a `delegation_error` message.
    DelegationError(String),
}

/// The mathematical shadow of a `Notification`.
pub enum NotificationView {
    Status(StatusUpdateView),
    DelegationActivated(Seq<char>),
    DelegationError(Seq<char>),
}

impl View for Notification {
    type V = NotificationView;

    open spec fn view(&self) -> NotificationView {
        match self {
            Notification::Status(s) => NotificationView::Status(s@),
            Notification::DelegationActivated(raw) => NotificationView::DelegationActivated(raw@),
            Notification::DelegationError(raw) => NotificationView::DelegationError(raw@),
        }
    }
}

/// What one classified line means for the read loop.
pub enum Step {
    /// Non-terminal; forward this notification and keep reading.
    Notify(Notification),
    /// Non-terminal noise; keep reading.
    Skip,
    /// Terminal: the query succeeded with this text.
    Success(String),
    /// Terminal: the worker reported this error text.
    Failure(String),
}

/// The mathematical shadow of a `Step`.
pub enum StepView {
    Notify(NotificationView),
    Skip,
    Success(Seq<char>),
    Failure(Seq<char>),
}

impl View for Step {
    type V = StepView;

    open spec fn view(&self) -> StepView {
        match self {
            Step::Notify(n) => StepView::Notify(n@),
            Step::Skip => StepView::Skip,
            Step::Success(s) => StepView::Success(s@),
            Step::Failure(s) => StepView::Failure(s@),
        }
    }
}

/// `o`, or the default `d` where `o` is absent.
pub open spec fn or_default(o: Option<Seq<char>>, d: Seq<char>) -> Seq<char> {
    match o {
        Some(s) => s,
        None => d,
    }
}

/// How one line drives the read loop.  Terminal kinds end it: `answer`,
/// `command_result` and `command` succeed with their respective field, and
/// `error` fails with its text.  `status` and the delegation kinds are
/// forwarded as notifications; everything else — an unparseable line, an
/// unrecognized tag, or a recognized tag missing its field — is skipped.
pub open spec fn spec_classify(w: WireLineView, raw: Seq<char>) -> StepView {
    match w.tag {
        None => StepView::Skip,
        Some(t) => {
            if t == "status"@ {
                StepView::Notify(
                    NotificationView::Status(
                        StatusUpdateView {
                            phase: or_default(w.phase, "idle"@),
                            message: or_default(w.message, Seq::<char>::empty()),
                            details: w.details,
                        },
                    ),
                )
            } else if t == "answer"@ {
                match w.answer {
                    Some(a) => StepView::Success(a),
                    None => StepView::Skip,
                }
            } else if t == "command_result"@ {
                match w.result {
                    Some(r) => StepView::Success(r),
                    None => StepView::Skip,
                }
            } else if t == "command"@ {
                match w.message {
                    Some(m) => StepView::Success(m),
                    None => StepView::Skip,
                }
            } else if t == "error"@ {
                match w.error {
                    Some(e) => StepView::Failure(e),
                    None => StepView::Skip,
                }
            } else if t == "ready"@ {
                StepView::Skip
            } else if t == "delegation_activated"@ {
                StepView::Notify(NotificationView::DelegationActivated(raw))
            } else if t == "delegation_error"@ {
                StepView::Notify(NotificationView::DelegationError(raw))
            } else {
                StepView::Skip
            }
        },
    }
}

/// Whether `t` reads exactly `lit`.
fn is_tag(t: &String, lit: &str) -> (r: bool)
    ensures
        r == (t@ == lit@),
{
    let l: String = lit.to_owned();
    *t == l
}

/// An owned copy of an optional string.
fn clone_opt(o: &Option<String>) -> (r: Option<String>)
    ensures
        r == *o,
{
    match o {
        Some(s) => Some(s.clone()),
        None => None,
    }
}

/// Classifies the protocol fields of one line, with the raw line alongside
/// for the notifications that forward it whole.
pub fn classify(w: &WireLine, raw: &String) -> (step: Step)
    ensures
        step@ == spec_classify(w@, raw@),
{
    match &w.tag {
        None => Step::Skip,
        Some(t) => {
            if is_tag(t, "status") {
                let phase: String = match &w.phase {
                    Some(p) => p.clone(),
                    None => "idle".to_owned(),
                };
                let message: String = match &w.message {
                    Some(m) => m.clone(),
                    None => String::new(),
                };
                Step::Notify(
                    Notification::Status(
                        StatusUpdate { phase, message, details: clone_opt(&w.details) },
                    ),
                )
            } else if is_tag(t, "answer") {
                match &w.answer {
                    Some(a) => Step::Success(a.clone()),
                    None => Step::Skip,
                }
            } else if is_tag(t, "command_result") {
                match &w.result {
                    Some(r) => Step::Success(r.clone()),
                    None => Step::Skip,
                }
            } else if is_tag(t, "command") {
                match &w.message {
                    Some(m) => Step::Success(m.clone()),
                    None => Step::Skip,
                }
            } else if is_tag(t, "error") {
                match &w.error {
                    Some(e) => Step::Failure(e.clone()),
                    None => Step::Skip,
                }
            } else if is_tag(t, "ready") {
                Step::Skip
            } else if is_tag(t, "delegation_activated") {
                Step::Notify(Notification::DelegationActivated(raw.clone()))
            } else if is_tag(t, "delegation_error") {
                Step::Notify(Notification::DelegationError(raw.clone()))
            } else {
                Step::Skip
            }
        },
    }
}

/// Parses and classifies one raw line of worker output.
pub fn classify_line(raw: &String) -> (step: Step)
    ensures
        step@ == spec_classify(wire_line_of(raw@), raw@),
{
    let w = parse_wire_line(raw.as_str());
    classify(&w, raw)
}

} // verus!
