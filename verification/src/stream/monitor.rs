use vstd::prelude::*;
use crate::stream::types::StreamInfo;
use crate::types::duration::DurationValue;

verus! {

/// How long to wait before the next check for a continuation stream, with
/// `remaining` left of the reconnect window: the fetch interval, cut to what is
/// left; none once the window has closed.
pub fn continuation_wait(fetch_interval: DurationValue, remaining: DurationValue) -> (r: Option<DurationValue>)
    ensures
        remaining@ == 0 ==> r is None,
        remaining@ > 0 ==> (r matches Some(w) && w@ == if fetch_interval@ <= remaining@ {
            fetch_interval@
        } else {
            remaining@
        }),
{
    if remaining.is_zero() {
        None
    } else if fetch_interval.as_nanos() <= remaining.as_nanos() {
        Some(fetch_interval)
    } else {
        Some(remaining)
    }
}

/// Where a recording session stands: whether the segment being recorded continues
/// an earlier one, the files recorded so far, and the stream information of the
/// last recorded segment.
pub struct SessionState {
    pub continuation: bool,
    pub files: Vec<String>,
    pub session: Option<StreamInfo>,
}

/// What happened to a session's last action.
pub enum SessionEvent {
    /// A segment was recorded to `path`; `info` is its stream information as it
    /// stood when the recording ended; `reconnect_delay` is the configured window
    /// for a continuation, if any.
    Recorded { path: String, info: StreamInfo, reconnect_delay: Option<DurationValue> },
    /// Recording the segment failed.
    RecordFailed,
    /// The wait for a continuation ended, with the stream that went live again, if any.
    Continuation(Option<StreamInfo>),
}

/// What a session does next.
pub enum SessionAction {
    /// Record `stream`; a continuation sends no start notice.
    Record { stream: StreamInfo, continuation: bool },
    /// Wait up to `window` for the stream to go live again; `label` names the
    /// segment that ended (`Stream` or `Continuation stream`).
    WaitForContinuation { window: DurationValue, label: &'static str },
    /// The session is over: post-process its files; `failure` names the segment
    /// whose recording failed (`stream` or `continuation`), if one did.
    Finish { failure: Option<&'static str> },
}

/// Starts a session for a stream that went live: nothing recorded yet, and the
/// first segment is no continuation.
pub fn start_session(stream: StreamInfo) -> (r: (SessionState, SessionAction))
    ensures
        !r.0.continuation,
        r.0.files@.len() == 0,
        r.0.session is None,
        r.1 matches SessionAction::Record { stream: s, continuation } && s == stream && !continuation,
{
    (
        SessionState { continuation: false, files: Vec::new(), session: None },
        SessionAction::Record { stream, continuation: false },
    )
}

/// Decides what a recording session does after `event`: a recorded segment is
/// kept (with its stream information) and, when a reconnect window is configured,
/// the session waits for a continuation, else it ends; a failed recording ends the
/// session; a stream that goes live again in the window is recorded as a
/// continuation; no stream ends the session.
pub fn next_session_step(state: &mut SessionState, event: SessionEvent) -> (a: SessionAction)
    ensures
        match event {
            SessionEvent::Recorded { path, info, reconnect_delay } => {
                &&& final(state).files@ == old(state).files@.push(path)
                &&& final(state).session == Some(info)
                &&& final(state).continuation == old(state).continuation
                &&& match reconnect_delay {
                    Some(w) => a matches SessionAction::WaitForContinuation { window, label }
                        && window == w && label@ == if old(state).continuation {
                        "Continuation stream"@
                    } else {
                        "Stream"@
                    },
                    None => a matches SessionAction::Finish { failure } && failure is None,
                }
            },
            SessionEvent::RecordFailed => {
                &&& *final(state) == *old(state)
                &&& a matches SessionAction::Finish { failure: Some(l) } && l@ == if old(state).continuation {
                    "continuation"@
                } else {
                    "stream"@
                }
            },
            SessionEvent::Continuation(Some(next)) => {
                &&& final(state).continuation
                &&& final(state).files@ == old(state).files@
                &&& final(state).session == old(state).session
                &&& a matches SessionAction::Record { stream, continuation } && stream == next && continuation
            },
            SessionEvent::Continuation(None) => {
                &&& *final(state) == *old(state)
                &&& a matches SessionAction::Finish { failure } && failure is None
            },
        },
{
    match event {
        SessionEvent::Recorded { path, info, reconnect_delay } => {
            state.files.push(path);
            state.session = Some(info);
            match reconnect_delay {
                Some(w) => {
                    let label = if state.continuation {
                        "Continuation stream"
                    } else {
                        "Stream"
                    };
                    SessionAction::WaitForContinuation { window: w, label }
                },
                None => SessionAction::Finish { failure: None },
            }
        },
        SessionEvent::RecordFailed => {
            let label = if state.continuation {
                "continuation"
            } else {
                "stream"
            };
            SessionAction::Finish { failure: Some(label) }
        },
        SessionEvent::Continuation(Some(next)) => {
            state.continuation = true;
            SessionAction::Record { stream: next, continuation: true }
        },
        SessionEvent::Continuation(None) => SessionAction::Finish { failure: None },
    }
}

} // verus!
