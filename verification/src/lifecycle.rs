//! The lifecycle supervisor: observes the completion of every background
//! task and the kernel process's exit, reports errors to the consumer, and
//! owns teardown.
//!
//! The unverified shell awaits the real tasks and forwards each terminal
//! event here; this module decides what is reported and what state the
//! session is left in.

use vstd::prelude::*;
use vstd::string::StringExecFns;

verus! {

/// How the kernel process's exit was observed: a status (successful or
/// not, with its printable detail), or a failure to await it at all.
pub enum ExitEvent {
    Status { success: bool, detail: String },
    Error { detail: String },
}

/// The error report for a background task that finished with an error.
pub open spec fn task_failure_message(name: Seq<char>, err: Seq<char>) -> Seq<char> {
    "handling failed for "@ + name + ": "@ + err
}

/// The error report for a kernel process that exited with a failure status.
pub open spec fn exit_status_message(detail: Seq<char>) -> Seq<char> {
    "kernel process exited with status: "@ + detail
}

/// The error report for a kernel process whose exit could not be awaited.
pub open spec fn exit_error_message(detail: Seq<char>) -> Seq<char> {
    "kernel process exited with error: "@ + detail
}

/// Supervisor state for one kernel session.
///
/// `monitoring` is true while the process-exit watcher is attached; an
/// explicit shutdown detaches it first, which is what distinguishes
/// "killed by us" from "crashed". `errored` is the first reported failure,
/// the one that transitions the session into an errored state; `reports`
/// keeps every report in order, since several independent failures can be
/// informative.
pub struct LifecycleSupervisor {
    pub monitoring: bool,
    pub queue_open: bool,
    pub process_alive: bool,
    pub shutdown_requested: bool,
    pub errored: Option<String>,
    pub reports: Vec<String>,
}

/// The first report, if any, is the error the session surfaces.
pub open spec fn supervisor_wf(s: LifecycleSupervisor) -> bool {
    &&& s.errored is None <==> s.reports@.len() == 0
    &&& s.reports@.len() > 0 ==> s.errored is Some && s.errored->0@ == s.reports@[0]@
}

/// Relation between supervisor states across `force_shutdown`: monitoring
/// stops, the queue closes, the process is killed, and nothing is reported.
pub open spec fn shutdown_post(pre: LifecycleSupervisor, post: LifecycleSupervisor) -> bool {
    &&& !post.monitoring
    &&& !post.queue_open
    &&& !post.process_alive
    &&& post.shutdown_requested
    &&& post.errored == pre.errored
    &&& post.reports == pre.reports
}

/// Relation between supervisor states across `on_process_exit`.
pub open spec fn exit_post(
    pre: LifecycleSupervisor,
    success: bool,
    detail: Seq<char>,
    awaited: bool,
    post: LifecycleSupervisor,
) -> bool {
    &&& !pre.monitoring ==> post == pre
    &&& pre.monitoring ==> {
        &&& !post.monitoring
        &&& !post.process_alive
        &&& post.queue_open == pre.queue_open
        &&& post.shutdown_requested == pre.shutdown_requested
        &&& (awaited && success) ==> post.errored == pre.errored && post.reports == pre.reports
        &&& (awaited && !success) ==> reported(pre, post, exit_status_message(detail))
        &&& !awaited ==> reported(pre, post, exit_error_message(detail))
    }
}

/// `post` is `pre` with one more report, `message`; the first report ever
/// made becomes the session's error.
pub open spec fn reported(
    pre: LifecycleSupervisor,
    post: LifecycleSupervisor,
    message: Seq<char>,
) -> bool {
    &&& post.reports@.len() == pre.reports@.len() + 1
    &&& post.reports@.subrange(0, pre.reports@.len() as int) == pre.reports@
    &&& post.reports@.last()@ == message
    &&& pre.errored is Some ==> post.errored == pre.errored
    &&& pre.errored is None ==> post.errored is Some && post.errored->0@ == message
}

impl LifecycleSupervisor {
    /// A fresh supervisor for a session that just launched: watcher
    /// attached, queue open, process running, nothing reported.
    pub fn new() -> (r: LifecycleSupervisor)
        ensures
            supervisor_wf(r),
            r.monitoring,
            r.queue_open,
            r.process_alive,
            !r.shutdown_requested,
            r.errored is None,
            r.reports@.len() == 0,
    {
        LifecycleSupervisor {
            monitoring: true,
            queue_open: true,
            process_alive: true,
            shutdown_requested: false,
            errored: None,
            reports: Vec::new(),
        }
    }

    /// Records one error report; the first ever becomes the session error.
    fn report(&mut self, message: String)
        requires
            supervisor_wf(*old(self)),
        ensures
            supervisor_wf(*final(self)),
            reported(*old(self), *final(self), message@),
            final(self).monitoring == old(self).monitoring,
            final(self).queue_open == old(self).queue_open,
            final(self).process_alive == old(self).process_alive,
            final(self).shutdown_requested == old(self).shutdown_requested,
    {
        if self.errored.is_none() {
            self.errored = Some(message.clone());
        }
        self.reports.push(message);
        proof {
            assert(self.reports@.subrange(0, old(self).reports@.len() as int) =~= old(
                self,
            ).reports@);
        }
    }

    /// Observes the completion of one background task. A task that ended
    /// with an error is reported as `handling failed for <name>: <error>`;
    /// a task that ended cleanly is not reported.
    pub fn on_task_finished(&mut self, name: &str, error: Option<String>) -> (r: bool)
        requires
            supervisor_wf(*old(self)),
        ensures
            supervisor_wf(*final(self)),
            error is None ==> *final(self) == *old(self) && !r,
            error matches Some(err) ==> {
                &&& r
                &&& reported(*old(self), *final(self), task_failure_message(name@, err@))
                &&& final(self).monitoring == old(self).monitoring
                &&& final(self).queue_open == old(self).queue_open
                &&& final(self).process_alive == old(self).process_alive
                &&& final(self).shutdown_requested == old(self).shutdown_requested
            },
    {
        match error {
            None => false,
            Some(err) => {
                let mut m = "handling failed for ".to_owned();
                m.append(name);
                m.append(": ");
                m.append(err.as_str());
                self.report(m);
                true
            },
        }
    }

    /// Observes the kernel process's exit. Nothing is observed once the
    /// watcher is detached (after an explicit shutdown). A successful exit
    /// is not an error; a failure status or an un-awaitable exit is
    /// reported with its detail.
    pub fn on_process_exit(&mut self, ev: ExitEvent)
        requires
            supervisor_wf(*old(self)),
        ensures
            supervisor_wf(*final(self)),
            ev matches ExitEvent::Status { success, detail } ==> exit_post(
                *old(self),
                success,
                detail@,
                true,
                *final(self),
            ),
            ev matches ExitEvent::Error { detail } ==> exit_post(
                *old(self),
                false,
                detail@,
                false,
                *final(self),
            ),
    {
        if !self.monitoring {
            return ;
        }
        self.monitoring = false;
        self.process_alive = false;
        match ev {
            ExitEvent::Status { success, detail } => {
                if !success {
                    let mut m = "kernel process exited with status: ".to_owned();
                    m.append(detail.as_str());
                    self.report(m);
                }
            },
            ExitEvent::Error { detail } => {
                let mut m = "kernel process exited with error: ".to_owned();
                m.append(detail.as_str());
                self.report(m);
            },
        }
    }

    /// Explicit shutdown: detaches the exit watcher (so this process's
    /// exit is not reported as an error), closes the outbound queue so no
    /// further sends are attempted, and marks the process for termination.
    /// Produces no report, and calling it again leaves the state as it is.
    pub fn force_shutdown(&mut self)
        requires
            supervisor_wf(*old(self)),
        ensures
            supervisor_wf(*final(self)),
            shutdown_post(*old(self), *final(self)),
    {
        self.monitoring = false;
        self.queue_open = false;
        self.process_alive = false;
        self.shutdown_requested = true;
    }
}

/// Shutting down twice is idempotent: the second call leaves every field
/// as the first call left it, and neither call adds an error report.
pub proof fn lemma_shutdown_idempotent(
    s0: LifecycleSupervisor,
    s1: LifecycleSupervisor,
    s2: LifecycleSupervisor,
)
    requires
        shutdown_post(s0, s1),
        shutdown_post(s1, s2),
    ensures
        s2.monitoring == s1.monitoring,
        s2.queue_open == s1.queue_open,
        s2.process_alive == s1.process_alive,
        s2.shutdown_requested == s1.shutdown_requested,
        s2.errored == s1.errored,
        s2.reports == s1.reports,
        s2.reports == s0.reports,
{
}

/// A process exit with a failure status, observed with no prior shutdown,
/// leaves the session errored with a message carrying the exit detail.
pub proof fn lemma_unexpected_exit_errors(
    pre: LifecycleSupervisor,
    post: LifecycleSupervisor,
    detail: Seq<char>,
)
    requires
        supervisor_wf(pre),
        supervisor_wf(post),
        pre.monitoring,
        !pre.shutdown_requested,
        exit_post(pre, false, detail, true, post),
    ensures
        post.errored is Some,
        post.reports@.last()@ == exit_status_message(detail),
        post.reports@.last()@.subrange(
            post.reports@.last()@.len() - detail.len(),
            post.reports@.last()@.len() as int,
        ) == detail,
{
    assert(post.reports@.last()@ =~= "kernel process exited with status: "@ + detail);
    assert(post.reports@.last()@.subrange(
        post.reports@.last()@.len() - detail.len(),
        post.reports@.last()@.len() as int,
    ) =~= detail);
}

/// A successful exit observed after an explicit shutdown reports nothing:
/// the watcher was detached, so the state does not change at all.
pub proof fn lemma_exit_after_shutdown_silent(
    s0: LifecycleSupervisor,
    s1: LifecycleSupervisor,
    s2: LifecycleSupervisor,
    detail: Seq<char>,
    success: bool,
)
    requires
        shutdown_post(s0, s1),
        exit_post(s1, success, detail, true, s2),
    ensures
        s2 == s1,
        s2.reports == s0.reports,
        s2.errored == s0.errored,
{
}

} // verus!
