//! The running-kernel session object: the state the consumer reads and
//! the handles over the router and the supervisor. The spawned child, its
//! pipes and the socket tasks live in the unverified shell; this is the
//! state every one of their observations flows through.

use vstd::prelude::*;

use crate::lifecycle::{shutdown_post, supervisor_wf, LifecycleSupervisor};
use crate::router::MessageRouter;

verus! {

/// The kernel's execution state as the broadcast channel last reported
/// it. Only the consumer's update path writes it: single-writer.
#[derive(Clone, Copy, Debug, PartialEq, Eq, Structural)]
pub enum ExecutionState {
    Idle,
    Busy,
    Unknown,
}

/// The kernel's self-description from the first successful info
/// exchange.
pub struct KernelInfoRecord {
    pub language: String,
    pub banner: String,
}

/// One running remote kernel: its declared working directory, the local
/// path of its connection-descriptor file (kept for cleanup), the state
/// the consumer reads, and the verified router and supervisor state.
pub struct WslRunningKernel {
    pub working_directory: String,
    pub connection_path: String,
    pub execution_state: ExecutionState,
    pub kernel_info: Option<KernelInfoRecord>,
    pub supervisor: LifecycleSupervisor,
    pub router: MessageRouter,
}

impl WslRunningKernel {
    /// The session right after a successful launch: idle, no kernel info
    /// yet, supervisor watching, router quiet.
    pub fn new(working_directory: String, connection_path: String) -> (r: WslRunningKernel)
        ensures
            r.working_directory == working_directory,
            r.connection_path == connection_path,
            r.execution_state == ExecutionState::Idle,
            r.kernel_info is None,
            supervisor_wf(r.supervisor),
            r.supervisor.monitoring && r.supervisor.queue_open && r.supervisor.process_alive,
            !r.supervisor.shutdown_requested,
            r.supervisor.errored is None,
            r.router.wf(),
            r.router.submitted() == Seq::<crate::message::KernelMessage>::empty(),
    {
        WslRunningKernel {
            working_directory,
            connection_path,
            execution_state: ExecutionState::Idle,
            kernel_info: None,
            supervisor: LifecycleSupervisor::new(),
            router: MessageRouter::new(),
        }
    }

    /// The declared working directory of the kernel process.
    pub fn working_directory(&self) -> (r: &String)
        ensures
            r == self.working_directory,
    {
        &self.working_directory
    }

    /// The execution state the broadcast channel last reported.
    pub fn execution_state(&self) -> (r: &ExecutionState)
        ensures
            r == self.execution_state,
    {
        &self.execution_state
    }

    /// Records the execution state observed on the broadcast channel.
    pub fn set_execution_state(&mut self, state: ExecutionState)
        ensures
            final(self).execution_state == state,
            final(self).working_directory == old(self).working_directory,
            final(self).connection_path == old(self).connection_path,
            final(self).kernel_info == old(self).kernel_info,
            final(self).supervisor == old(self).supervisor,
            final(self).router == old(self).router,
    {
        self.execution_state = state;
    }

    /// The cached kernel self-description, if the info exchange happened.
    pub fn kernel_info(&self) -> (r: &Option<KernelInfoRecord>)
        ensures
            r == self.kernel_info,
    {
        &self.kernel_info
    }

    /// Caches the kernel's reply to the info exchange.
    pub fn set_kernel_info(&mut self, info: KernelInfoRecord)
        ensures
            final(self).kernel_info == Some(info),
            final(self).execution_state == old(self).execution_state,
            final(self).working_directory == old(self).working_directory,
            final(self).connection_path == old(self).connection_path,
            final(self).supervisor == old(self).supervisor,
            final(self).router == old(self).router,
    {
        self.kernel_info = Some(info);
    }

    /// Explicit shutdown of the session's state: the supervisor stops
    /// monitoring (so this exit is not an error), the outbound queue
    /// closes, the process is marked for termination. The shell then
    /// kills the process and removes the descriptor file. Idempotent.
    pub fn force_shutdown(&mut self)
        requires
            supervisor_wf(old(self).supervisor),
        ensures
            supervisor_wf(final(self).supervisor),
            shutdown_post(old(self).supervisor, final(self).supervisor),
            final(self).execution_state == old(self).execution_state,
            final(self).working_directory == old(self).working_directory,
            final(self).connection_path == old(self).connection_path,
            final(self).kernel_info == old(self).kernel_info,
            final(self).router == old(self).router,
    {
        self.supervisor.force_shutdown();
    }
}

} // verus!
