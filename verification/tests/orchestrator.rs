//! Session-side behaviour: port selection, message classification, the
//! per-channel request/reply discipline, and lifecycle reporting.

use wsl_kernel::lifecycle::{ExitEvent, LifecycleSupervisor};
use wsl_kernel::message::{classify, Channel, KernelMessage, MessageContent};
use wsl_kernel::ports::{PortSelectionError, PortSet};
use wsl_kernel::router::MessageRouter;
use wsl_kernel::session::{ExecutionState, KernelInfoRecord, WslRunningKernel};

fn msg(id: u64, content: MessageContent) -> KernelMessage {
    KernelMessage { id, content }
}

#[test]
fn five_distinct_ports_are_accepted_by_role() {
    let observed: Vec<u16> = vec![50001, 50002, 50003, 50004, 50005];
    let p = PortSet::from_observed(&observed).unwrap();
    assert_eq!(p.stdin_port, 50001);
    assert_eq!(p.control_port, 50002);
    assert_eq!(p.hb_port, 50003);
    assert_eq!(p.shell_port, 50004);
    assert_eq!(p.iopub_port, 50005);
    let all = [
        p.stdin_port,
        p.control_port,
        p.hb_port,
        p.shell_port,
        p.iopub_port,
    ];
    for i in 0..5 {
        for j in (i + 1)..5 {
            assert_ne!(all[i], all[j]);
        }
    }
}

#[test]
fn clashing_ports_are_surfaced_not_retried() {
    let observed: Vec<u16> = vec![50001, 50002, 50001, 50004, 50005];
    assert_eq!(
        PortSet::from_observed(&observed),
        Err(PortSelectionError::Clash)
    );
}

#[test]
fn wrong_number_of_observations_is_an_error() {
    let observed: Vec<u16> = vec![50001, 50002, 50003];
    assert_eq!(
        PortSet::from_observed(&observed),
        Err(PortSelectionError::WrongCount)
    );
}

#[test]
fn control_class_content_goes_to_control_channel() {
    assert_eq!(classify(MessageContent::DebugRequest), Channel::Control);
    assert_eq!(classify(MessageContent::InterruptRequest), Channel::Control);
    assert_eq!(classify(MessageContent::ShutdownRequest), Channel::Control);
}

#[test]
fn every_other_content_goes_to_shell_channel() {
    let others = [
        MessageContent::ExecuteRequest,
        MessageContent::KernelInfoRequest,
        MessageContent::CompleteRequest,
        MessageContent::InspectRequest,
        MessageContent::HistoryRequest,
        MessageContent::IsCompleteRequest,
        MessageContent::CommInfoRequest,
        MessageContent::CommOpen,
        MessageContent::CommMsg,
        MessageContent::CommClose,
        MessageContent::InputReply,
        MessageContent::Other,
    ];
    for c in others {
        assert_eq!(classify(c), Channel::Shell);
    }
}

#[test]
fn router_fans_messages_out_by_content() {
    let mut router = MessageRouter::new();
    assert_eq!(
        router.route(msg(1, MessageContent::ExecuteRequest)),
        Channel::Shell
    );
    assert_eq!(
        router.route(msg(2, MessageContent::InterruptRequest)),
        Channel::Control
    );
    assert_eq!(
        router.route(msg(3, MessageContent::ExecuteRequest)),
        Channel::Shell
    );
    let first_control = router.control.take_next();
    assert_eq!(first_control, Some(msg(2, MessageContent::InterruptRequest)));
    let first_shell = router.shell.take_next();
    assert_eq!(first_shell, Some(msg(1, MessageContent::ExecuteRequest)));
}

#[test]
fn replies_are_delivered_in_request_order() {
    let mut router = MessageRouter::new();
    router.route(msg(1, MessageContent::ExecuteRequest));
    router.route(msg(2, MessageContent::CompleteRequest));
    router.route(msg(3, MessageContent::ExecuteRequest));

    // Drive the shell channel as the socket task does: one request out,
    // exactly one reply in, forwarded before the next request.
    let r1 = router.shell.take_next().unwrap();
    router.shell.complete(msg(101, MessageContent::Other));
    let r2 = router.shell.take_next().unwrap();
    router.shell.complete(msg(102, MessageContent::Other));
    let r3 = router.shell.take_next().unwrap();
    router.shell.complete(msg(103, MessageContent::Other));
    assert_eq!(router.shell.take_next(), None);

    assert_eq!(r1.id, 1);
    assert_eq!(r2.id, 2);
    assert_eq!(r3.id, 3);
    let log = router.shell.exchange_log();
    assert_eq!(log.len(), 3);
    assert_eq!(log[0].request.id, 1);
    assert_eq!(log[0].reply.id, 101);
    assert_eq!(log[1].request.id, 2);
    assert_eq!(log[1].reply.id, 102);
    assert_eq!(log[2].request.id, 3);
    assert_eq!(log[2].reply.id, 103);
}

#[test]
fn task_failure_is_reported_with_name_and_error() {
    let mut s = LifecycleSupervisor::new();
    let reported = s.on_task_finished("iopub task", Some("connection reset".to_string()));
    assert!(reported);
    assert_eq!(
        s.errored.as_deref(),
        Some("handling failed for iopub task: connection reset")
    );
    let quiet = s.on_task_finished("shell task", None);
    assert!(!quiet);
    assert_eq!(s.reports.len(), 1);
}

#[test]
fn first_failure_wins_later_ones_are_still_recorded() {
    let mut s = LifecycleSupervisor::new();
    s.on_task_finished("shell task", Some("broken pipe".to_string()));
    s.on_task_finished("control task", Some("closed".to_string()));
    assert_eq!(
        s.errored.as_deref(),
        Some("handling failed for shell task: broken pipe")
    );
    assert_eq!(s.reports.len(), 2);
    assert_eq!(
        s.reports[1],
        "handling failed for control task: closed".to_string()
    );
}

#[test]
fn unexpected_failed_exit_errors_the_session() {
    let mut s = LifecycleSupervisor::new();
    s.on_process_exit(ExitEvent::Status {
        success: false,
        detail: "ExitStatus(unix_wait_status(256))".to_string(),
    });
    let e = s.errored.clone().unwrap();
    assert_eq!(
        e,
        "kernel process exited with status: ExitStatus(unix_wait_status(256))"
    );
    assert!(e.contains("ExitStatus(unix_wait_status(256))"));
    assert!(!s.monitoring);
}

#[test]
fn successful_exit_without_shutdown_reports_nothing() {
    let mut s = LifecycleSupervisor::new();
    s.on_process_exit(ExitEvent::Status {
        success: true,
        detail: "ExitStatus(0)".to_string(),
    });
    assert!(s.errored.is_none());
    assert!(s.reports.is_empty());
}

#[test]
fn unawaitable_exit_is_reported_as_error() {
    let mut s = LifecycleSupervisor::new();
    s.on_process_exit(ExitEvent::Error {
        detail: "no child".to_string(),
    });
    assert_eq!(
        s.errored.as_deref(),
        Some("kernel process exited with error: no child")
    );
}

#[test]
fn shutdown_then_exit_reports_no_error() {
    let mut s = LifecycleSupervisor::new();
    s.force_shutdown();
    s.on_process_exit(ExitEvent::Status {
        success: true,
        detail: "ExitStatus(0)".to_string(),
    });
    assert!(s.errored.is_none());
    assert!(s.reports.is_empty());
    // Even a failure status after an explicit shutdown is not reported:
    // the watcher was detached first.
    s.on_process_exit(ExitEvent::Status {
        success: false,
        detail: "ExitStatus(9)".to_string(),
    });
    assert!(s.errored.is_none());
    assert!(s.reports.is_empty());
}

#[test]
fn shutdown_twice_reports_nothing_and_keeps_state() {
    let mut s = LifecycleSupervisor::new();
    s.force_shutdown();
    let errored_after_first = s.errored.clone();
    let reports_after_first = s.reports.clone();
    s.force_shutdown();
    assert_eq!(s.errored, errored_after_first);
    assert_eq!(s.reports, reports_after_first);
    assert!(s.shutdown_requested);
    assert!(!s.queue_open);
    assert!(!s.process_alive);
}

#[test]
fn session_state_transitions() {
    let mut k = WslRunningKernel::new(
        "/home/user/project".to_string(),
        "/run/user/kernel-wsl-7.json".to_string(),
    );
    assert_eq!(*k.execution_state(), ExecutionState::Idle);
    assert!(k.kernel_info().is_none());
    assert_eq!(k.working_directory().as_str(), "/home/user/project");
    k.set_execution_state(ExecutionState::Busy);
    assert_eq!(*k.execution_state(), ExecutionState::Busy);
    k.set_kernel_info(KernelInfoRecord {
        language: "python".to_string(),
        banner: "Python 3".to_string(),
    });
    assert_eq!(k.kernel_info().as_ref().unwrap().language, "python");
    k.force_shutdown();
    k.force_shutdown();
    assert!(k.supervisor.errored.is_none());
}
