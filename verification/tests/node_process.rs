use hyperdeck_monitor::node_process::{
    node_process_step, NodeProcessAction, NodeProcessEvent, NodeProcessPhase,
};

#[test]
fn idle_check_backs_off_then_spawns() {
    let (p, a) = node_process_step(NodeProcessPhase::Idle, NodeProcessEvent::Check { cancelled: false });
    assert_eq!(p, NodeProcessPhase::Spawning);
    assert!(matches!(a, NodeProcessAction::BackOffThenSpawn { secs: 1 }));
}

#[test]
fn idle_check_when_cancelled_stops() {
    let (p, a) = node_process_step(NodeProcessPhase::Idle, NodeProcessEvent::Check { cancelled: true });
    assert_eq!(p, NodeProcessPhase::Idle);
    assert!(matches!(a, NodeProcessAction::Stop));
}

#[test]
fn spawn_failure_is_logged_and_retried() {
    let (p, a) = node_process_step(
        NodeProcessPhase::Spawning,
        NodeProcessEvent::SpawnFailed("no such file".to_string()),
    );
    assert_eq!(p, NodeProcessPhase::Idle);
    match a {
        NodeProcessAction::LogSpawnError(e) => assert_eq!(e, "no such file"),
        other => panic!("unexpected {:?}", other),
    }
}

#[test]
fn child_without_pipes_is_killed() {
    let (p, a) = node_process_step(
        NodeProcessPhase::Spawning,
        NodeProcessEvent::Spawned { stdout_piped: true, stderr_piped: false },
    );
    assert_eq!(p, NodeProcessPhase::Idle);
    assert!(matches!(a, NodeProcessAction::KillChild));
}

#[test]
fn running_child_lines_are_logged_by_stream() {
    let (p, a) = node_process_step(
        NodeProcessPhase::Spawning,
        NodeProcessEvent::Spawned { stdout_piped: true, stderr_piped: true },
    );
    let running = NodeProcessPhase::Running { stdout_open: true, stderr_open: true };
    assert_eq!(p, running);
    assert!(matches!(a, NodeProcessAction::Continue));
    let (_, a) = node_process_step(running, NodeProcessEvent::Check { cancelled: false });
    assert!(matches!(a, NodeProcessAction::ReadOutput { stdout: true, stderr: true }));
    let (_, a) = node_process_step(running, NodeProcessEvent::StdoutLine("hi".to_string()));
    assert!(matches!(a, NodeProcessAction::LogInfo(ref l) if l == "hi"));
    let (_, a) = node_process_step(running, NodeProcessEvent::StderrLine("oops".to_string()));
    assert!(matches!(a, NodeProcessAction::LogError(ref l) if l == "oops"));
}

#[test]
fn cancel_kills_running_child_then_stops() {
    let (p, a) = node_process_step(
        NodeProcessPhase::Running { stdout_open: true, stderr_open: false },
        NodeProcessEvent::Check { cancelled: true },
    );
    assert_eq!(p, NodeProcessPhase::Idle);
    assert!(matches!(a, NodeProcessAction::KillChild));
    let (_, a) = node_process_step(p, NodeProcessEvent::Check { cancelled: true });
    assert!(matches!(a, NodeProcessAction::Stop));
}

#[test]
fn exited_child_is_restarted_after_back_off() {
    let running = NodeProcessPhase::Running { stdout_open: true, stderr_open: true };
    let (p, a) = node_process_step(running, NodeProcessEvent::StdoutEnded);
    assert_eq!(p, NodeProcessPhase::Running { stdout_open: false, stderr_open: true });
    assert!(matches!(a, NodeProcessAction::Continue));
    let (_, a) = node_process_step(p, NodeProcessEvent::Check { cancelled: false });
    assert!(matches!(a, NodeProcessAction::ReadOutput { stdout: false, stderr: true }));
    let (p, a) = node_process_step(p, NodeProcessEvent::StderrEnded);
    assert_eq!(p, NodeProcessPhase::Idle);
    assert!(matches!(a, NodeProcessAction::KillChild));
    let (p, a) = node_process_step(p, NodeProcessEvent::Check { cancelled: false });
    assert_eq!(p, NodeProcessPhase::Spawning);
    assert!(matches!(a, NodeProcessAction::BackOffThenSpawn { secs: 1 }));
}
