//! The command channel to the match handler: a long-lived worker process
//! that is addressed one line at a time on its standard input.
//!
//! Starting the worker and writing to it are the caller's to perform. The
//! channel decides what is to be done, one step at a time: the caller hands in
//! what the last step came to and gets the next step back. The worker is
//! started at most once for a command, and a command whose write fails is
//! dropped, never retried in a loop.

use crate::console::{appended, ccprintln, texts, ConsoleLog};
use vstd::prelude::*;
use vstd::string::StringExecFns;

verus! {

/// The file name of the worker's entry script, which lies in the launcher's
/// content folder.
pub const MATCH_HANDLER_SCRIPT: &'static str = "match_handler.py";

/// What stands between two parts of a command on the wire.
pub open spec fn separator() -> Seq<char> {
    " | "@
}

/// What ends a command on the wire.
pub open spec fn terminator() -> Seq<char> {
    "\n"@
}

/// The parts in order, with the separator between each two of them.
pub open spec fn joined(parts: Seq<Seq<char>>) -> Seq<char>
    decreases parts.len(),
{
    if parts.len() == 0 {
        Seq::empty()
    } else if parts.len() == 1 {
        parts[0]
    } else {
        joined(parts.drop_last()) + separator() + parts.last()
    }
}

/// A command as it goes over the wire: its parts joined, then one line feed.
/// The parts themselves are not looked into.
pub open spec fn wire_text(parts: Seq<Seq<char>>) -> Seq<char> {
    joined(parts) + terminator()
}

/// The notice logged when a command is dropped because the worker is down and
/// may not be started.
pub open spec fn down_notice() -> Seq<char> {
    "Not issuing command to handler as it's down and I was told to not start it"@
}

/// The notice logged when the worker no longer takes a write.
pub open spec fn broken_notice() -> Seq<char> {
    "Match handler is no longer accepting commands. Restarting!"@
}

/// The notice logged when the worker could not be started, for the reason
/// `reason`.
pub open spec fn start_failure_notice(reason: Seq<char>) -> Seq<char> {
    "Failed to start match handler: "@ + reason
}

/// Builds the line that carries `parts` to the worker.
pub fn wire_line(parts: &[String]) -> (line: String)
    ensures
        line@ == wire_text(texts(parts@)),
{
    let mut line = String::new();
    let mut i: usize = 0;
    while i < parts.len()
        invariant
            i <= parts@.len(),
            line@ == joined(texts(parts@).take(i as int)),
        decreases parts@.len() - i,
    {
        let ghost before = texts(parts@).take(i as int);
        if i > 0 {
            line.append(" | ");
        }
        line.append(parts[i].as_str());
        i += 1;
        proof {
            let now = texts(parts@).take(i as int);
            assert(now.drop_last() =~= before);
        }
    }
    assert(texts(parts@).take(i as int) =~= texts(parts@));
    line.append("\n");
    line
}

/// What happened since the last step of a command.
pub enum HandlerEvent<W> {
    /// Nothing yet: the command is being issued.
    Begin,
    /// The worker was started; this is the handle to its input.
    Spawned(W),
    /// The worker could not be started, for this reason.
    SpawnFailed(String),
    /// The line was written to the worker.
    Written,
    /// Writing the line to the worker failed.
    WriteFailed,
}

/// What the caller does next for a command.
#[derive(Debug, PartialEq, Eq)]
pub enum HandlerAction {
    /// Start the worker and report `Spawned` or `SpawnFailed`.
    Spawn,
    /// Write this line to the worker and report `Written` or `WriteFailed`.
    Write(String),
    /// Nothing: the command was delivered or dropped.
    Done,
}

/// A [`HandlerAction`] as plain values.
pub enum CommandView {
    Spawn,
    Write(Seq<char>),
    Done,
}

impl View for HandlerAction {
    type V = CommandView;

    open spec fn view(&self) -> CommandView {
        match self {
            HandlerAction::Spawn => CommandView::Spawn,
            HandlerAction::Write(line) => CommandView::Write(line@),
            HandlerAction::Done => CommandView::Done,
        }
    }
}

/// What one step of a command comes to.
pub struct Issued<W> {
    /// The worker handle after the step.
    pub worker: Option<W>,
    /// What the caller does next.
    pub action: CommandView,
    /// The notices that the step logs, in order.
    pub notices: Seq<Seq<char>>,
}

/// The first step of a command. A running worker is written to. A worker that
/// is down is started if `create_handler` allows it; otherwise the command is
/// dropped with a notice.
pub open spec fn begun<W>(worker: Option<W>, parts: Seq<Seq<char>>, create_handler: bool) -> Issued<
    W,
> {
    if worker is Some {
        Issued { worker, action: CommandView::Write(wire_text(parts)), notices: Seq::empty() }
    } else if create_handler {
        Issued { worker, action: CommandView::Spawn, notices: Seq::empty() }
    } else {
        Issued { worker, action: CommandView::Done, notices: seq![down_notice()] }
    }
}

/// The step that `event` leads to. A started worker is kept and written to. A
/// failed start leaves the channel as it is and drops the command with a
/// notice. A failed write clears the handle and issues the same command once
/// more without leave to start the worker, which drops it.
pub open spec fn issued<W>(
    worker: Option<W>,
    parts: Seq<Seq<char>>,
    create_handler: bool,
    event: HandlerEvent<W>,
) -> Issued<W> {
    match event {
        HandlerEvent::Begin => begun(worker, parts, create_handler),
        HandlerEvent::Spawned(handle) => Issued {
            worker: Some(handle),
            action: CommandView::Write(wire_text(parts)),
            notices: Seq::empty(),
        },
        HandlerEvent::SpawnFailed(reason) => Issued {
            worker,
            action: CommandView::Done,
            notices: seq![start_failure_notice(reason@)],
        },
        HandlerEvent::Written => Issued {
            worker,
            action: CommandView::Done,
            notices: Seq::empty(),
        },
        HandlerEvent::WriteFailed => {
            let again = begun(None::<W>, parts, false);
            Issued {
                worker: again.worker,
                action: again.action,
                notices: seq![broken_notice()] + again.notices,
            }
        },
    }
}

/// The channel to the worker: its input handle, or nothing while the worker
/// is not running.
pub struct CommandChannel<W> {
    worker: Option<W>,
}

impl<W> View for CommandChannel<W> {
    type V = Option<W>;

    closed spec fn view(&self) -> Option<W> {
        self.worker
    }
}

impl<W> CommandChannel<W> {
    /// A channel whose worker has not been started.
    pub fn new() -> (channel: Self)
        ensures
            channel@ is None,
    {
        CommandChannel { worker: None }
    }

    /// Whether the channel holds a handle to a worker.
    pub fn is_running(&self) -> (running: bool)
        ensures
            running == (self@ is Some),
    {
        self.worker.is_some()
    }

    /// The handle to the worker's input, if there is one.
    pub fn worker(&self) -> (handle: Option<&W>)
        ensures
            handle == match self@ {
                Some(worker) => Some(&worker),
                None => None,
            },
    {
        self.worker.as_ref()
    }

    fn begin(&self, command_parts: &[String], create_handler: bool, log: &mut ConsoleLog) -> (action:
        HandlerAction)
        ensures
            action@ == begun(self@, texts(command_parts@), create_handler).action,
            final(log)@ == appended(
                old(log)@,
                begun(self@, texts(command_parts@), create_handler).notices,
            ),
    {
        if self.worker.is_some() {
            proof {
                log.bounded();
            }
            HandlerAction::Write(wire_line(command_parts))
        } else if create_handler {
            proof {
                log.bounded();
            }
            HandlerAction::Spawn
        } else {
            ccprintln(
                log,
                "Not issuing command to handler as it's down and I was told to not start it".to_string(),
            );
            HandlerAction::Done
        }
    }
}

/// Takes a command one step further.
///
/// `event` says what the caller's last step for this command came to,
/// [`HandlerEvent::Begin`] when there was none. The result says what to do
/// next. `command_parts` and `create_handler` are those of the command and the
/// same at every step.
///
/// A worker that is down is started only at the beginning of a command and
/// only if `create_handler` allows it. After a failed write the handle is
/// cleared and the command is issued again without leave to start the worker,
/// so it is dropped: no step asks for a second start or a second write.
pub fn issue_match_handler_command<W>(
    channel: &mut CommandChannel<W>,
    command_parts: &[String],
    create_handler: bool,
    event: HandlerEvent<W>,
    log: &mut ConsoleLog,
) -> (action: HandlerAction)
    ensures
        final(channel)@ == issued(
            old(channel)@,
            texts(command_parts@),
            create_handler,
            event,
        ).worker,
        action@ == issued(old(channel)@, texts(command_parts@), create_handler, event).action,
        final(log)@ == appended(
            old(log)@,
            issued(old(channel)@, texts(command_parts@), create_handler, event).notices,
        ),
{
    proof {
        log.bounded();
    }
    match event {
        HandlerEvent::Begin => channel.begin(command_parts, create_handler, log),
        HandlerEvent::Spawned(handle) => {
            channel.worker = Some(handle);
            HandlerAction::Write(wire_line(command_parts))
        },
        HandlerEvent::SpawnFailed(reason) => {
            let notice = "Failed to start match handler: ".to_string().concat(reason.as_str());
            ccprintln(log, notice);
            HandlerAction::Done
        },
        HandlerEvent::Written => HandlerAction::Done,
        HandlerEvent::WriteFailed => {
            channel.worker = None;
            ccprintln(log, "Match handler is no longer accepting commands. Restarting!".to_string());
            let action = channel.begin(command_parts, false, log);
            proof {
                crate::console::law_appends_compose(
                    old(log)@,
                    seq![broken_notice()],
                    seq![down_notice()],
                );
            }
            action
        },
    }
}

/// Whether `event` reports on what `action` asked for.
pub open spec fn answers<W>(action: CommandView, event: HandlerEvent<W>) -> bool {
    match action {
        CommandView::Spawn => event is Spawned || event is SpawnFailed,
        CommandView::Write(_) => event is Written || event is WriteFailed,
        CommandView::Done => false,
    }
}

/// The course of a command.
pub struct IssueRun<W> {
    /// The worker handle at the end.
    pub worker: Option<W>,
    /// How many steps were taken.
    pub steps: nat,
    /// How many of them asked to start the worker.
    pub spawns: nat,
    /// How many of them asked to write a line.
    pub writes: nat,
    /// Whether the last step said that nothing is left to do.
    pub finished: bool,
    /// The notices logged, in order.
    pub notices: Seq<Seq<char>>,
}

/// The course that a command takes from `event` on, when the caller does what
/// each step asks and reports with the next of `replies`. It ends when a step
/// says that nothing is left to do, and also when the replies run out or one
/// does not report on what was asked.
pub open spec fn run_from<W>(
    worker: Option<W>,
    parts: Seq<Seq<char>>,
    create_handler: bool,
    event: HandlerEvent<W>,
    replies: Seq<HandlerEvent<W>>,
) -> IssueRun<W>
    decreases replies.len(),
{
    let step = issued(worker, parts, create_handler, event);
    let spawns: nat = if step.action is Spawn {
        1
    } else {
        0
    };
    let writes: nat = if step.action is Write {
        1
    } else {
        0
    };
    if step.action is Done || replies.len() == 0 || !answers(step.action, replies[0]) {
        IssueRun {
            worker: step.worker,
            steps: 1,
            spawns,
            writes,
            finished: step.action is Done,
            notices: step.notices,
        }
    } else {
        let rest = run_from(step.worker, parts, create_handler, replies[0], replies.drop_first());
        IssueRun {
            worker: rest.worker,
            steps: rest.steps + 1,
            spawns: rest.spawns + spawns,
            writes: rest.writes + writes,
            finished: rest.finished,
            notices: step.notices + rest.notices,
        }
    }
}

/// The course of a whole command, from its issue on.
pub open spec fn run_issue<W>(
    worker: Option<W>,
    parts: Seq<Seq<char>>,
    create_handler: bool,
    replies: Seq<HandlerEvent<W>>,
) -> IssueRun<W> {
    run_from(worker, parts, create_handler, HandlerEvent::Begin, replies)
}

/// No command loops: whatever the worker and the writes do, a command takes at
/// most three steps, asks at most once for the worker to be started and at
/// most once for a line to be written. It asks for a start exactly when the
/// worker is down and `create_handler` allows one. Given two replies that
/// report on what was asked, it ends with nothing left to do.
pub proof fn law_issue_is_bounded<W>(
    worker: Option<W>,
    parts: Seq<Seq<char>>,
    create_handler: bool,
    replies: Seq<HandlerEvent<W>>,
)
    ensures
        run_issue(worker, parts, create_handler, replies).steps <= 3,
        run_issue(worker, parts, create_handler, replies).spawns <= 1,
        run_issue(worker, parts, create_handler, replies).writes <= 1,
        run_issue(worker, parts, create_handler, replies).spawns == 1 <==> worker is None
            && create_handler,
        replies.len() >= 2 && answers(
            begun(worker, parts, create_handler).action,
            replies[0],
        ) && answers(
            issued(worker, parts, create_handler, replies[0]).action,
            replies[1],
        ) ==> run_issue(worker, parts, create_handler, replies).finished,
        replies.len() >= 1 && begun(worker, parts, create_handler).action is Write && answers(
            begun(worker, parts, create_handler).action,
            replies[0],
        ) ==> run_issue(worker, parts, create_handler, replies).finished,
{
    reveal_with_fuel(run_from, 3);
}

/// A worker that fails every write: a command issued with leave to start the
/// worker, while it is down, starts it exactly once, writes the line exactly
/// once, and is then dropped with the handle cleared. The second issue that
/// follows the failed write neither starts nor writes.
pub proof fn law_failing_worker_is_tried_once<W>(
    parts: Seq<Seq<char>>,
    handle: W,
    replies: Seq<HandlerEvent<W>>,
)
    requires
        replies.len() >= 2,
        replies[0] == HandlerEvent::Spawned(handle),
        replies[1] is WriteFailed,
    ensures
        run_issue(None::<W>, parts, true, replies) == (IssueRun {
            worker: None::<W>,
            steps: 3,
            spawns: 1,
            writes: 1,
            finished: true,
            notices: seq![broken_notice(), down_notice()],
        }),
{
    reveal_with_fuel(run_from, 3);
    assert(run_issue(None::<W>, parts, true, replies).notices =~= seq![
        broken_notice(),
        down_notice(),
    ]);
}

} // verus!
