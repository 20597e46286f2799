//! The supervision of the deck driver process, as a step function from the
//! supervisor's phase and what just happened to the next phase and what to do.
//! The caller performs each action and reports its outcome as the next event.
use vstd::prelude::*;

verus! {

/// Where the supervision stands.
#[derive(Debug, Clone, Copy, PartialEq, Eq, Structural)]
pub enum NodeProcessPhase {
    /// No child is running; the next check decides whether to start one.
    Idle,
    /// A start (after the back-off) is under way.
    Spawning,
    /// A child runs; which of its captured output streams have not ended yet.
    Running { stdout_open: bool, stderr_open: bool },
}

/// What the caller reports.
#[derive(Debug)]
pub enum NodeProcessEvent {
    /// The caller looked at the cancellation flag.
    Check { cancelled: bool },
    /// Starting the child failed, with this error text.
    SpawnFailed(String),
    /// The child started; whether its standard output and error are captured.
    Spawned { stdout_piped: bool, stderr_piped: bool },
    /// The child wrote this line on its standard output.
    StdoutLine(String),
    /// The child wrote this line on its standard error.
    StderrLine(String),
    /// The child's standard output has ended.
    StdoutEnded,
    /// The child's standard error has ended.
    StderrEnded,
}

/// What the caller is to do next.
#[derive(Debug)]
pub enum NodeProcessAction {
    /// End the supervision.
    Stop,
    /// Wait `secs` seconds, then start the child (and report how that went).
    BackOffThenSpawn { secs: u64 },
    /// Log that starting the child failed, with this error text.
    LogSpawnError(String),
    /// Kill the child (if it still runs) and let it go.
    KillChild,
    /// Wait for the next line, or the end, of the named output streams.
    ReadOutput { stdout: bool, stderr: bool },
    /// Log this line as information.
    LogInfo(String),
    /// Log this line as an error.
    LogError(String),
    /// Nothing; check the cancellation flag next.
    Continue,
}

/// The phase and action after an output stream of a running child ended,
/// where `other_open` tells whether its other stream is still open: once both
/// have ended the child has exited, and it is let go so that the next check
/// starts a new one.
pub open spec fn after_stream_end(running_after: NodeProcessPhase, other_open: bool) -> (
    NodeProcessPhase,
    NodeProcessAction,
) {
    if other_open {
        (running_after, NodeProcessAction::Continue)
    } else {
        (NodeProcessPhase::Idle, NodeProcessAction::KillChild)
    }
}

/// The phase and action that follow `event` in `phase`.
pub open spec fn node_process_next(phase: NodeProcessPhase, event: NodeProcessEvent) -> (
    NodeProcessPhase,
    NodeProcessAction,
) {
    match (phase, event) {
        (NodeProcessPhase::Idle, NodeProcessEvent::Check { cancelled }) => if cancelled {
            (NodeProcessPhase::Idle, NodeProcessAction::Stop)
        } else {
            (NodeProcessPhase::Spawning, NodeProcessAction::BackOffThenSpawn { secs: 1 })
        },
        (NodeProcessPhase::Spawning, NodeProcessEvent::SpawnFailed(err)) => (
            NodeProcessPhase::Idle,
            NodeProcessAction::LogSpawnError(err),
        ),
        (NodeProcessPhase::Spawning, NodeProcessEvent::Spawned { stdout_piped, stderr_piped }) =>
            if stdout_piped && stderr_piped {
            (
                NodeProcessPhase::Running { stdout_open: true, stderr_open: true },
                NodeProcessAction::Continue,
            )
        } else {
            (NodeProcessPhase::Idle, NodeProcessAction::KillChild)
        },
        (
            NodeProcessPhase::Running { stdout_open, stderr_open },
            NodeProcessEvent::Check { cancelled },
        ) => if cancelled {
            (NodeProcessPhase::Idle, NodeProcessAction::KillChild)
        } else {
            (phase, NodeProcessAction::ReadOutput { stdout: stdout_open, stderr: stderr_open })
        },
        (NodeProcessPhase::Running { .. }, NodeProcessEvent::StdoutLine(line)) => (
            phase,
            NodeProcessAction::LogInfo(line),
        ),
        (NodeProcessPhase::Running { .. }, NodeProcessEvent::StderrLine(line)) => (
            phase,
            NodeProcessAction::LogError(line),
        ),
        (NodeProcessPhase::Running { stdout_open: _, stderr_open }, NodeProcessEvent::StdoutEnded) =>
            after_stream_end(
            NodeProcessPhase::Running { stdout_open: false, stderr_open },
            stderr_open,
        ),
        (NodeProcessPhase::Running { stdout_open, stderr_open: _ }, NodeProcessEvent::StderrEnded) =>
            after_stream_end(
            NodeProcessPhase::Running { stdout_open, stderr_open: false },
            stdout_open,
        ),
        (p, _) => (p, NodeProcessAction::Continue),
    }
}

/// One step of the supervision. A check while idle stops when cancelled and
/// otherwise starts the child after a one second back-off; a failed start is
/// logged; a child without both output streams captured is killed. A running
/// child's lines are logged, standard output as information and standard
/// error as errors; when both its streams have ended it has exited and is let
/// go, so the next check starts a new one; a check that finds the supervision
/// cancelled kills it. Any other event changes nothing.
pub fn node_process_step(phase: NodeProcessPhase, event: NodeProcessEvent) -> (r: (
    NodeProcessPhase,
    NodeProcessAction,
))
    ensures
        r == node_process_next(phase, event),
{
    match (phase, event) {
        (NodeProcessPhase::Idle, NodeProcessEvent::Check { cancelled }) => if cancelled {
            (NodeProcessPhase::Idle, NodeProcessAction::Stop)
        } else {
            (NodeProcessPhase::Spawning, NodeProcessAction::BackOffThenSpawn { secs: 1 })
        },
        (NodeProcessPhase::Spawning, NodeProcessEvent::SpawnFailed(err)) => (
            NodeProcessPhase::Idle,
            NodeProcessAction::LogSpawnError(err),
        ),
        (NodeProcessPhase::Spawning, NodeProcessEvent::Spawned { stdout_piped, stderr_piped }) =>
            if stdout_piped && stderr_piped {
            (
                NodeProcessPhase::Running { stdout_open: true, stderr_open: true },
                NodeProcessAction::Continue,
            )
        } else {
            (NodeProcessPhase::Idle, NodeProcessAction::KillChild)
        },
        (
            NodeProcessPhase::Running { stdout_open, stderr_open },
            NodeProcessEvent::Check { cancelled },
        ) => if cancelled {
            (NodeProcessPhase::Idle, NodeProcessAction::KillChild)
        } else {
            (phase, NodeProcessAction::ReadOutput { stdout: stdout_open, stderr: stderr_open })
        },
        (NodeProcessPhase::Running { .. }, NodeProcessEvent::StdoutLine(line)) => (
            phase,
            NodeProcessAction::LogInfo(line),
        ),
        (NodeProcessPhase::Running { .. }, NodeProcessEvent::StderrLine(line)) => (
            phase,
            NodeProcessAction::LogError(line),
        ),
        (NodeProcessPhase::Running { stdout_open: _, stderr_open }, NodeProcessEvent::StdoutEnded) =>
            if stderr_open {
            (NodeProcessPhase::Running { stdout_open: false, stderr_open }, NodeProcessAction::Continue)
        } else {
            (NodeProcessPhase::Idle, NodeProcessAction::KillChild)
        },
        (NodeProcessPhase::Running { stdout_open, stderr_open: _ }, NodeProcessEvent::StderrEnded) =>
            if stdout_open {
            (NodeProcessPhase::Running { stdout_open, stderr_open: false }, NodeProcessAction::Continue)
        } else {
            (NodeProcessPhase::Idle, NodeProcessAction::KillChild)
        },
        (p, _) => (p, NodeProcessAction::Continue),
    }
}

/// Once cancelled, a running child is killed, and the check that follows
/// ends the supervision without starting another child.
pub proof fn lemma_cancel_kills_then_stops(stdout_open: bool, stderr_open: bool)
    ensures
        node_process_next(
            NodeProcessPhase::Running { stdout_open, stderr_open },
            NodeProcessEvent::Check { cancelled: true },
        ) == (NodeProcessPhase::Idle, NodeProcessAction::KillChild),
        node_process_next(NodeProcessPhase::Idle, NodeProcessEvent::Check { cancelled: true })
            == (NodeProcessPhase::Idle, NodeProcessAction::Stop),
{
}

/// A child that exits is restarted: when the last of its output streams
/// ends it is let go, and the next check that does not find the supervision
/// cancelled starts a new child after the one second back-off.
pub proof fn lemma_exited_child_is_restarted(phase: NodeProcessPhase, event: NodeProcessEvent)
    requires
        phase == (NodeProcessPhase::Running { stdout_open: true, stderr_open: false })
            && event is StdoutEnded || phase == (NodeProcessPhase::Running {
            stdout_open: false,
            stderr_open: true,
        }) && event is StderrEnded,
    ensures
        node_process_next(phase, event) == (NodeProcessPhase::Idle, NodeProcessAction::KillChild),
        node_process_next(node_process_next(phase, event).0, NodeProcessEvent::Check { cancelled: false })
            == (NodeProcessPhase::Spawning, NodeProcessAction::BackOffThenSpawn { secs: 1 }),
{
}

/// While one output stream of a running child stays open, the end of the
/// other leaves the child running and the next check reads the open one.
pub proof fn lemma_one_open_stream_keeps_child(stdout_open: bool, stderr_open: bool)
    ensures
        stderr_open ==> node_process_next(
            NodeProcessPhase::Running { stdout_open, stderr_open },
            NodeProcessEvent::StdoutEnded,
        ) == (
            NodeProcessPhase::Running { stdout_open: false, stderr_open },
            NodeProcessAction::Continue,
        ),
        stdout_open ==> node_process_next(
            NodeProcessPhase::Running { stdout_open, stderr_open },
            NodeProcessEvent::StderrEnded,
        ) == (
            NodeProcessPhase::Running { stdout_open, stderr_open: false },
            NodeProcessAction::Continue,
        ),
{
}

/// Every start of the child is preceded by the one second back-off: the only
/// step that enters the starting phase is a check while idle, and its action
/// is the back-off.
pub proof fn lemma_every_start_backs_off(phase: NodeProcessPhase, event: NodeProcessEvent)
    requires
        !(phase is Spawning),
        node_process_next(phase, event).0 is Spawning,
    ensures
        phase is Idle,
        event matches NodeProcessEvent::Check { cancelled } && !cancelled,
        node_process_next(phase, event).1 == (NodeProcessAction::BackOffThenSpawn { secs: 1 }),
{
}

/// Cancellation is the only way the supervision ends.
pub proof fn lemma_stops_only_when_cancelled(phase: NodeProcessPhase, event: NodeProcessEvent)
    requires
        node_process_next(phase, event).1 is Stop,
    ensures
        phase is Idle,
        event matches NodeProcessEvent::Check { cancelled } && cancelled,
{
}

/// A line that a running child writes is logged (standard output as
/// information, standard error as an error) and the same child stays under
/// supervision, with the same streams open.
pub proof fn lemma_lines_keep_child_running(stdout_open: bool, stderr_open: bool, line: String)
    ensures
        node_process_next(
            NodeProcessPhase::Running { stdout_open, stderr_open },
            NodeProcessEvent::StdoutLine(line),
        ) == (NodeProcessPhase::Running { stdout_open, stderr_open }, NodeProcessAction::LogInfo(line)),
        node_process_next(
            NodeProcessPhase::Running { stdout_open, stderr_open },
            NodeProcessEvent::StderrLine(line),
        ) == (NodeProcessPhase::Running { stdout_open, stderr_open }, NodeProcessAction::LogError(line)),
{
}

/// A running child is let go only when a check finds the supervision
/// cancelled or when the last of its open output streams ends; every other
/// event keeps it running.
pub proof fn lemma_running_child_left_only_on_cancel_or_exit(
    stdout_open: bool,
    stderr_open: bool,
    event: NodeProcessEvent,
)
    requires
        !(node_process_next(NodeProcessPhase::Running { stdout_open, stderr_open }, event).0 is Running),
    ensures
        node_process_next(NodeProcessPhase::Running { stdout_open, stderr_open }, event).0 is Idle,
        node_process_next(NodeProcessPhase::Running { stdout_open, stderr_open }, event).1 is KillChild,
        (event matches NodeProcessEvent::Check { cancelled } && cancelled) || (event is StdoutEnded
            && !stderr_open) || (event is StderrEnded && !stdout_open),
{
}

/// An uncancelled check on a running child reads exactly its open streams,
/// and leaves the phase as it was.
pub proof fn lemma_check_reads_open_streams(stdout_open: bool, stderr_open: bool)
    ensures
        node_process_next(
            NodeProcessPhase::Running { stdout_open, stderr_open },
            NodeProcessEvent::Check { cancelled: false },
        ) == (
            NodeProcessPhase::Running { stdout_open, stderr_open },
            NodeProcessAction::ReadOutput { stdout: stdout_open, stderr: stderr_open },
        ),
{
}

/// The outcome of a start: a failure is logged with its error text and the
/// supervisor is idle again; a child with both streams captured runs with
/// both open; a child missing either stream is killed.
pub proof fn lemma_spawn_outcomes(err: String, stdout_piped: bool, stderr_piped: bool)
    ensures
        node_process_next(NodeProcessPhase::Spawning, NodeProcessEvent::SpawnFailed(err)) == (
            NodeProcessPhase::Idle,
            NodeProcessAction::LogSpawnError(err),
        ),
        stdout_piped && stderr_piped ==> node_process_next(
            NodeProcessPhase::Spawning,
            NodeProcessEvent::Spawned { stdout_piped, stderr_piped },
        ) == (
            NodeProcessPhase::Running { stdout_open: true, stderr_open: true },
            NodeProcessAction::Continue,
        ),
        !(stdout_piped && stderr_piped) ==> node_process_next(
            NodeProcessPhase::Spawning,
            NodeProcessEvent::Spawned { stdout_piped, stderr_piped },
        ) == (NodeProcessPhase::Idle, NodeProcessAction::KillChild),
{
}

/// An event that does not belong to the phase (a report of a start while no
/// start is under way, output while no child runs, a check while a start is
/// under way) changes nothing and asks for nothing.
pub proof fn lemma_unexpected_events_change_nothing(phase: NodeProcessPhase, event: NodeProcessEvent)
    requires
        match phase {
            NodeProcessPhase::Idle => !(event is Check),
            NodeProcessPhase::Spawning => !(event is SpawnFailed) && !(event is Spawned),
            NodeProcessPhase::Running { .. } => event is SpawnFailed || event is Spawned,
        },
    ensures
        node_process_next(phase, event) == (phase, NodeProcessAction::Continue),
{
}

} // verus!
