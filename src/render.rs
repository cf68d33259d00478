use vstd::prelude::*;
use vstd::string::StringSliceAdditionalSpecFns;
use vstd::utf8::encode_utf8;

use crate::diagnostic::{
    diagnostic_body_spec, error_html_body_spec, placeholder_data_spec, static_error, FallbackPage,
};
use crate::protocol::{ExitStatus, IncomingMessage, Issue, StaticResult};
use crate::text::escape_spec;

verus! {

/// Where one rendering attempt stands. A worker is a leased rendering
/// process, named by the number that the pool gave it.
pub enum Phase {
    /// Waiting for a worker from the pool.
    Acquiring,
    /// The request went to `worker`; waiting for its one reply.
    Exchanging { worker: u64 },
    /// `worker` reported an error; waiting for its trace to be mapped back
    /// to the source files it was built from.
    Remapping { worker: u64 },
    /// Rendering failed with `error`; waiting for `worker` to exit or be killed.
    Resolving { worker: u64, error: String },
    /// Rendering succeeded with `result`; waiting for `worker` to go back to
    /// the pool.
    Releasing { worker: u64, result: StaticResult },
    /// The attempt has produced its result.
    Finished,
}

/// What the surroundings report back to an attempt.
pub enum Event {
    Acquired { worker: u64 },
    AcquireFailed { error: String },
    Received { worker: u64, message: IncomingMessage },
    ChannelFailed { worker: u64, error: String },
    Remapped { text: String },
    Resolved { worker: u64, status: ExitStatus },
    Released { worker: u64 },
}

/// What the surroundings are to do next for an attempt.
pub enum Action {
    /// Acquire a worker from the pool.
    Acquire,
    /// Send the request headers to `worker`, then receive one message.
    Exchange { worker: u64 },
    /// Map the stack trace in `raw` back to the source files it was built from.
    Remap { raw: String },
    /// Wait for `worker` to exit, killing it where it does not.
    WaitOrKill { worker: u64 },
    /// Return `worker` to the pool.
    Release { worker: u64 },
    /// Emit `issue`, if any, and hand `result` to the caller.
    Finish { result: StaticResult, issue: Option<Issue> },
    /// The event did not belong to this attempt: keep waiting.
    Await,
}

/// One attempt to render `page`, with `fallback` as the shell of its
/// diagnostic page.
pub struct RenderAttempt {
    pub page: String,
    pub fallback: FallbackPage,
    pub phase: Phase,
}

/// The worker that an attempt holds in `phase`, if any.
pub open spec fn lease(phase: Phase) -> Option<u64> {
    match phase {
        Phase::Exchanging { worker } => Some(worker),
        Phase::Remapping { worker } => Some(worker),
        Phase::Resolving { worker, .. } => Some(worker),
        Phase::Releasing { worker, .. } => Some(worker),
        _ => None,
    }
}

/// The exit code of `status`, where there is one.
pub open spec fn exit_code_of(status: Option<ExitStatus>) -> Option<i32> {
    match status {
        Some(s) => s.code_spec(),
        None => None,
    }
}

/// `action` serves the diagnostic page for `error` and reports it in one issue.
pub open spec fn is_diagnostic_finish(
    action: Action,
    page: Seq<char>,
    error: Seq<char>,
    status: Option<ExitStatus>,
    fallback: FallbackPage,
) -> bool {
    match action {
        Action::Finish { result, issue } => match result {
            StaticResult::Content { content, status_code, headers } => {
                &&& content@ == fallback.before_body@ + diagnostic_body_spec(encode_utf8(error), status)
                    + fallback.after_body@
                &&& status_code == 500
                &&& headers@.len() == 0
                &&& issue is Some
                &&& issue->0.context@ == page
                &&& issue->0.message@ == error
                &&& issue->0.exit_code == exit_code_of(status)
            },
            _ => false,
        },
        _ => false,
    }
}

/// The attempt `a` goes to `b` with `action` on `event`.
pub open spec fn step_spec(a: RenderAttempt, event: Event, b: RenderAttempt, action: Action) -> bool {
    let ignored = b == a && action == Action::Await;
    let moved = b.page == a.page && b.fallback == a.fallback;
    match a.phase {
        Phase::Acquiring => match event {
            Event::Acquired { worker } => moved && b.phase == (Phase::Exchanging { worker })
                && action == (Action::Exchange { worker }),
            Event::AcquireFailed { error } => moved && b.phase == Phase::Finished
                && is_diagnostic_finish(action, a.page@, error@, None, a.fallback),
            _ => ignored,
        },
        Phase::Exchanging { worker } => match event {
            Event::Received { worker: from, message } => if from != worker {
                ignored
            } else {
                match message {
                    IncomingMessage::Rewrite { path } => moved && b.phase == (Phase::Releasing {
                        worker,
                        result: StaticResult::Rewrite { target_path: path },
                    }) && action == (Action::Release { worker }),
                    IncomingMessage::Response { status_code, headers, body } => moved && b.phase
                        == (Phase::Releasing {
                        worker,
                        result: StaticResult::Content { content: body, status_code, headers },
                    }) && action == (Action::Release { worker }),
                    IncomingMessage::Error { message } => moved && b.phase == (Phase::Remapping {
                        worker,
                    }) && action == (Action::Remap { raw: message }),
                }
            },
            Event::ChannelFailed { worker: from, error } => if from != worker {
                ignored
            } else {
                moved && b.phase == (Phase::Resolving { worker, error }) && action == (
                Action::WaitOrKill { worker })
            },
            _ => ignored,
        },
        Phase::Remapping { worker } => match event {
            Event::Remapped { text } => moved && b.phase == (Phase::Resolving { worker, error: text })
                && action == (Action::WaitOrKill { worker }),
            _ => ignored,
        },
        Phase::Resolving { worker, error } => match event {
            Event::Resolved { worker: from, status } => if from != worker {
                ignored
            } else {
                moved && b.phase == Phase::Finished && is_diagnostic_finish(
                    action,
                    a.page@,
                    error@,
                    Some(status),
                    a.fallback,
                )
            },
            _ => ignored,
        },
        Phase::Releasing { worker, result } => match event {
            Event::Released { worker: from } => if from != worker {
                ignored
            } else {
                moved && b.phase == Phase::Finished && action == (Action::Finish {
                    result,
                    issue: None,
                })
            },
            _ => ignored,
        },
        Phase::Finished => ignored,
    }
}

/// The diagnostic result for `error`, served with status 500 and no headers.
fn diagnostic_finish(
    page: &String,
    error: String,
    status: Option<ExitStatus>,
    fallback: &FallbackPage,
) -> (r: Action)
    ensures
        is_diagnostic_finish(r, page@, error@, status, *fallback),
{
    let (content, issue) = static_error(page.clone(), error, status, fallback);
    Action::Finish { result: StaticResult::content(content, 500, Vec::new()), issue: Some(issue) }
}

impl RenderAttempt {
    /// A new attempt to render `page`, and its first action: acquire a worker.
    pub fn begin(page: String, fallback: FallbackPage) -> (r: (RenderAttempt, Action))
        ensures
            r.0.page == page,
            r.0.fallback == fallback,
            r.0.phase == Phase::Acquiring,
            r.1 == Action::Acquire,
    {
        (RenderAttempt { page, fallback, phase: Phase::Acquiring }, Action::Acquire)
    }

    /// The worker that this attempt holds, if any.
    pub fn held_worker(&self) -> (r: Option<u64>)
        ensures
            r == lease(self.phase),
    {
        match &self.phase {
            Phase::Exchanging { worker } => Some(*worker),
            Phase::Remapping { worker } => Some(*worker),
            Phase::Resolving { worker, .. } => Some(*worker),
            Phase::Releasing { worker, .. } => Some(*worker),
            _ => None,
        }
    }

    /// Whether this attempt has produced its result.
    pub fn is_finished(&self) -> (r: bool)
        ensures
            r == (self.phase is Finished),
    {
        match &self.phase {
            Phase::Finished => true,
            _ => false,
        }
    }

    /// Takes in what the surroundings report and decides what they do next.
    pub fn step(self, event: Event) -> (r: (RenderAttempt, Action))
        ensures
            step_spec(self, event, r.0, r.1),
    {
        let RenderAttempt { page, fallback, phase } = self;
        match phase {
            Phase::Acquiring => match event {
                Event::Acquired { worker } => (
                    RenderAttempt { page, fallback, phase: Phase::Exchanging { worker } },
                    Action::Exchange { worker },
                ),
                Event::AcquireFailed { error } => {
                    let action = diagnostic_finish(&page, error, None, &fallback);
                    (RenderAttempt { page, fallback, phase: Phase::Finished }, action)
                },
                _ => (RenderAttempt { page, fallback, phase: Phase::Acquiring }, Action::Await),
            },
            Phase::Exchanging { worker } => match event {
                Event::Received { worker: from, message } => {
                    if from != worker {
                        (RenderAttempt { page, fallback, phase: Phase::Exchanging { worker } }, Action::Await)
                    } else {
                        match message {
                            IncomingMessage::Rewrite { path } => (
                                RenderAttempt {
                                    page,
                                    fallback,
                                    phase: Phase::Releasing { worker, result: StaticResult::rewrite(path) },
                                },
                                Action::Release { worker },
                            ),
                            IncomingMessage::Response { status_code, headers, body } => (
                                RenderAttempt {
                                    page,
                                    fallback,
                                    phase: Phase::Releasing {
                                        worker,
                                        result: StaticResult::content(body, status_code, headers),
                                    },
                                },
                                Action::Release { worker },
                            ),
                            IncomingMessage::Error { message } => (
                                RenderAttempt { page, fallback, phase: Phase::Remapping { worker } },
                                Action::Remap { raw: message },
                            ),
                        }
                    }
                },
                Event::ChannelFailed { worker: from, error } => {
                    if from != worker {
                        (RenderAttempt { page, fallback, phase: Phase::Exchanging { worker } }, Action::Await)
                    } else {
                        (
                            RenderAttempt { page, fallback, phase: Phase::Resolving { worker, error } },
                            Action::WaitOrKill { worker },
                        )
                    }
                },
                _ => (RenderAttempt { page, fallback, phase: Phase::Exchanging { worker } }, Action::Await),
            },
            Phase::Remapping { worker } => match event {
                Event::Remapped { text } => (
                    RenderAttempt { page, fallback, phase: Phase::Resolving { worker, error: text } },
                    Action::WaitOrKill { worker },
                ),
                _ => (RenderAttempt { page, fallback, phase: Phase::Remapping { worker } }, Action::Await),
            },
            Phase::Resolving { worker, error } => match event {
                Event::Resolved { worker: from, status } => {
                    if from != worker {
                        (RenderAttempt { page, fallback, phase: Phase::Resolving { worker, error } }, Action::Await)
                    } else {
                        let action = diagnostic_finish(&page, error, Some(status), &fallback);
                        (RenderAttempt { page, fallback, phase: Phase::Finished }, action)
                    }
                },
                _ => (RenderAttempt { page, fallback, phase: Phase::Resolving { worker, error } }, Action::Await),
            },
            Phase::Releasing { worker, result } => match event {
                Event::Released { worker: from } => {
                    if from != worker {
                        (RenderAttempt { page, fallback, phase: Phase::Releasing { worker, result } }, Action::Await)
                    } else {
                        (
                            RenderAttempt { page, fallback, phase: Phase::Finished },
                            Action::Finish { result, issue: None },
                        )
                    }
                },
                _ => (RenderAttempt { page, fallback, phase: Phase::Releasing { worker, result } }, Action::Await),
            },
            Phase::Finished => (RenderAttempt { page, fallback, phase: Phase::Finished }, Action::Await),
        }
    }
}

/// The worker that `event` comes from, if it names one.
pub open spec fn event_worker(event: Event) -> Option<u64> {
    match event {
        Event::Received { worker, .. } => Some(worker),
        Event::ChannelFailed { worker, .. } => Some(worker),
        Event::Resolved { worker, .. } => Some(worker),
        Event::Released { worker } => Some(worker),
        _ => None,
    }
}

/// A `Response` from the attempt's worker is served exactly as it came:
/// same status code, same headers, same body bytes, and no issue, once the
/// worker is back in the pool.
pub proof fn response_passes_through(
    a0: RenderAttempt,
    worker: u64,
    status_code: u16,
    headers: Vec<(String, String)>,
    body: Vec<u8>,
    a1: RenderAttempt,
    act1: Action,
    a2: RenderAttempt,
    act2: Action,
)
    requires
        a0.phase == (Phase::Exchanging { worker }),
        step_spec(
            a0,
            Event::Received {
                worker,
                message: IncomingMessage::Response { status_code, headers, body },
            },
            a1,
            act1,
        ),
        step_spec(a1, Event::Released { worker }, a2, act2),
    ensures
        act1 == (Action::Release { worker }),
        a2.phase is Finished,
        act2 == (Action::Finish {
            result: StaticResult::Content { content: body, status_code, headers },
            issue: None,
        }),
{
}

/// A `Rewrite` from the attempt's worker becomes a rewrite to the same path,
/// with no page and no issue, once the worker is back in the pool.
pub proof fn rewrite_passes_through(
    a0: RenderAttempt,
    worker: u64,
    path: String,
    a1: RenderAttempt,
    act1: Action,
    a2: RenderAttempt,
    act2: Action,
)
    requires
        a0.phase == (Phase::Exchanging { worker }),
        step_spec(a0, Event::Received { worker, message: IncomingMessage::Rewrite { path } }, a1, act1),
        step_spec(a1, Event::Released { worker }, a2, act2),
    ensures
        act1 == (Action::Release { worker }),
        a2.phase is Finished,
        act2 == (Action::Finish { result: StaticResult::Rewrite { target_path: path }, issue: None }),
{
}

/// When no worker can be acquired, the attempt ends at once with the
/// diagnostic page: status 500, the escaped error and no status line, and
/// one issue without an exit code.
pub proof fn acquire_failure_is_diagnosed(
    a0: RenderAttempt,
    error: String,
    a1: RenderAttempt,
    act: Action,
)
    requires
        a0.phase is Acquiring,
        step_spec(a0, Event::AcquireFailed { error }, a1, act),
    ensures
        a1.phase is Finished,
        is_diagnostic_finish(act, a0.page@, error@, None, a0.fallback),
        diagnostic_body_spec(encode_utf8(error@), None) == placeholder_data_spec()
            + error_html_body_spec(500, "Error rendering page".spec_bytes(), escape_spec(encode_utf8(error@))),
        (act matches Action::Finish { issue: Some(issue), .. } && issue.exit_code is None),
{
}

/// An error reported by the attempt's worker is mapped back to the
/// source files it was built from, the worker is waited for (or killed), and the page shows the
/// mapped error with the process status; one issue carries the mapped error
/// and the exit code.
pub proof fn worker_error_is_diagnosed(
    a0: RenderAttempt,
    worker: u64,
    message: String,
    text: String,
    status: ExitStatus,
    a1: RenderAttempt,
    act1: Action,
    a2: RenderAttempt,
    act2: Action,
    a3: RenderAttempt,
    act3: Action,
)
    requires
        a0.phase == (Phase::Exchanging { worker }),
        step_spec(a0, Event::Received { worker, message: IncomingMessage::Error { message } }, a1, act1),
        step_spec(a1, Event::Remapped { text }, a2, act2),
        step_spec(a2, Event::Resolved { worker, status }, a3, act3),
    ensures
        act1 == (Action::Remap { raw: message }),
        act2 == (Action::WaitOrKill { worker }),
        a3.phase is Finished,
        is_diagnostic_finish(act3, a0.page@, text@, Some(status), a0.fallback),
{
}

/// An event from a worker that the attempt does not hold changes nothing:
/// a reply meant for another request is never taken as this one's.
pub proof fn foreign_events_ignored(a: RenderAttempt, event: Event, b: RenderAttempt, act: Action)
    requires
        event_worker(event) is Some,
        event_worker(event) != lease(a.phase),
        step_spec(a, event, b, act),
    ensures
        b == a,
        act == Action::Await,
{
}

/// A lease is taken only on `Acquired`, and given up only when the worker
/// was released or waited for (or killed); an attempt finishes holding no
/// worker.
pub proof fn leases_are_returned(a: RenderAttempt, event: Event, b: RenderAttempt, act: Action)
    requires
        step_spec(a, event, b, act),
    ensures
        lease(a.phase) is None && lease(b.phase) is Some ==> a.phase is Acquiring && event
            == (Event::Acquired { worker: lease(b.phase)->0 }),
        lease(a.phase) is Some && lease(b.phase) != lease(a.phase) ==> b.phase is Finished && (
        event == (Event::Released { worker: lease(a.phase)->0 }) || (event is Resolved
            && event_worker(event) == lease(a.phase))),
        act is Finish ==> b.phase is Finished && lease(b.phase) is None,
        act matches Action::Release { worker } ==> lease(b.phase) == Some(worker),
        act matches Action::WaitOrKill { worker } ==> lease(b.phase) == Some(worker),
{
}

} // verus!
