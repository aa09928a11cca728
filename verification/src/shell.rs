//! The watch over a running command, and the lines that it writes.

use vstd::prelude::*;
use vstd::string::*;

use crate::job::{LogLine, LogLineView};
use crate::text::{decimal, format_u64, join2, join3, join4};

verus! {

/// Why a command did not succeed.
#[derive(Debug)]
pub enum ShellError {
    /// The shell could not be started in the directory.
    Start { shell: String, workdir: String },
    CancelRequested,
    /// The command took longer than this many seconds.
    Timeout(u64),
    /// The command ended with this status.
    Exited(String),
    /// The command could not be waited for.
    Wait(String),
}

/// Why a command did not succeed, with texts as sequences of characters.
pub enum ShellErrorView {
    Start { shell: Seq<char>, workdir: Seq<char> },
    CancelRequested,
    Timeout(u64),
    Exited(Seq<char>),
    Wait(Seq<char>),
}

impl View for ShellError {
    type V = ShellErrorView;

    open spec fn view(&self) -> ShellErrorView {
        match self {
            ShellError::Start { shell, workdir } => ShellErrorView::Start {
                shell: shell@,
                workdir: workdir@,
            },
            ShellError::CancelRequested => ShellErrorView::CancelRequested,
            ShellError::Timeout(secs) => ShellErrorView::Timeout(*secs),
            ShellError::Exited(status) => ShellErrorView::Exited(status@),
            ShellError::Wait(error) => ShellErrorView::Wait(error@),
        }
    }
}

impl ShellErrorView {
    /// The message of the error.
    pub open spec fn message_text(self) -> Seq<char> {
        match self {
            ShellErrorView::Start { shell, workdir } => "failed to start shell '"@ + shell
                + "' in "@ + workdir,
            ShellErrorView::CancelRequested => "cancel requested"@,
            ShellErrorView::Timeout(secs) => "step timeout after "@ + decimal(secs as int) + "s"@,
            ShellErrorView::Exited(status) => "command exited with status "@ + status,
            ShellErrorView::Wait(error) => error,
        }
    }
}

impl ShellError {
    /// Describes the error.
    pub fn message(&self) -> (message: String)
        ensures
            message@ == self@.message_text(),
    {
        match self {
            ShellError::Start { shell, workdir } => join4(
                "failed to start shell '",
                shell.as_str(),
                "' in ",
                workdir.as_str(),
            ),
            ShellError::CancelRequested => "cancel requested".to_owned(),
            ShellError::Timeout(secs) => join3(
                "step timeout after ",
                format_u64(*secs).as_str(),
                "s",
            ),
            ShellError::Exited(status) => join2("command exited with status ", status.as_str()),
            ShellError::Wait(error) => error.clone(),
        }
    }
}

/// What has been seen of a command: that it still runs, that it ended, or that it
/// cannot be waited for.
#[derive(Debug)]
pub enum Wait {
    Running,
    Exited { success: bool, status: String },
    Failed(String),
}

/// What to do about a command.
#[derive(Debug)]
pub enum WatchAction {
    /// See whether the command has ended.
    Poll,
    /// Look again after this many milliseconds.
    Sleep(u64),
    /// Kill the command and let its output run out; it has failed.
    Kill(ShellError),
    /// Let the output of the command run out; it has ended.
    Ended(Result<(), ShellError>),
    /// Stop at once; the command cannot be watched.
    Abandon(ShellError),
}

/// What to do about a command, with texts as sequences of characters.
pub enum WatchView {
    Poll,
    Sleep(u64),
    Kill(ShellErrorView),
    Ended(Result<(), ShellErrorView>),
    Abandon(ShellErrorView),
}

impl View for WatchAction {
    type V = WatchView;

    open spec fn view(&self) -> WatchView {
        match self {
            WatchAction::Poll => WatchView::Poll,
            WatchAction::Sleep(millis) => WatchView::Sleep(*millis),
            WatchAction::Kill(error) => WatchView::Kill(error@),
            WatchAction::Ended(Ok(_)) => WatchView::Ended(Ok(())),
            WatchAction::Ended(Err(error)) => WatchView::Ended(Err(error@)),
            WatchAction::Abandon(error) => WatchView::Abandon(error@),
        }
    }
}

/// What to do before the command is looked at: a cancellation comes before a
/// timeout, and both come before the end of the command.
pub open spec fn before_look(cancelled: bool, elapsed_secs: u64, timeout_secs: u64) -> WatchView {
    if cancelled {
        WatchView::Kill(ShellErrorView::CancelRequested)
    } else if elapsed_secs >= timeout_secs {
        WatchView::Kill(ShellErrorView::Timeout(timeout_secs))
    } else {
        WatchView::Poll
    }
}

/// What to do once the command has been looked at.
pub open spec fn after_look(seen: Wait) -> WatchView {
    match seen {
        Wait::Running => WatchView::Sleep(250),
        Wait::Exited { success, status } => WatchView::Ended(
            if success {
                Ok(())
            } else {
                Err(ShellErrorView::Exited(status@))
            },
        ),
        Wait::Failed(error) => WatchView::Abandon(ShellErrorView::Wait(error@)),
    }
}

/// Decides whether a command that has run for `elapsed_secs` whole seconds is
/// killed.
pub fn check_step(cancelled: bool, elapsed_secs: u64, timeout_secs: u64) -> (action: WatchAction)
    ensures
        action@ == before_look(cancelled, elapsed_secs, timeout_secs),
{
    if cancelled {
        return WatchAction::Kill(ShellError::CancelRequested);
    }
    if elapsed_secs >= timeout_secs {
        return WatchAction::Kill(ShellError::Timeout(timeout_secs));
    }
    WatchAction::Poll
}

/// Decides what follows from what has been seen of a command.
pub fn judge_step(seen: Wait) -> (action: WatchAction)
    ensures
        action@ == after_look(seen),
{
    match seen {
        Wait::Running => WatchAction::Sleep(250),
        Wait::Exited { success, status } => if success {
            WatchAction::Ended(Ok(()))
        } else {
            WatchAction::Ended(Err(ShellError::Exited(status)))
        },
        Wait::Failed(error) => WatchAction::Abandon(ShellError::Wait(error)),
    }
}

/// One look at a command: whether the job was cancelled, how long the command had
/// run, and what was seen of it.
pub struct Look {
    pub cancelled: bool,
    pub elapsed_secs: u64,
    pub seen: Wait,
}

/// What comes of a command that is looked at again and again; nothing while it
/// still runs after the last look.
pub open spec fn watched(looks: Seq<Look>, timeout_secs: u64) -> Option<
    Result<(), ShellErrorView>,
>
    decreases looks.len(),
{
    if looks.len() == 0 {
        None
    } else {
        let look = looks[0];
        match before_look(look.cancelled, look.elapsed_secs, timeout_secs) {
            WatchView::Poll => match after_look(look.seen) {
                WatchView::Ended(outcome) => Some(outcome),
                WatchView::Abandon(error) => Some(Err(error)),
                _ => watched(looks.skip(1), timeout_secs),
            },
            WatchView::Kill(error) => Some(Err(error)),
            _ => None,
        }
    }
}

/// Law: a command succeeds only if, at a look before its time was over and while
/// the job was not cancelled, it was seen to have ended with success.
pub proof fn success_is_in_time(looks: Seq<Look>, timeout_secs: u64)
    ensures
        watched(looks, timeout_secs) == Some(Ok::<(), ShellErrorView>(())) ==> exists|i: int|
            0 <= i < looks.len() && !(#[trigger] looks[i]).cancelled && looks[i].elapsed_secs
                < timeout_secs && (looks[i].seen matches Wait::Exited { success, .. } && success),
    decreases looks.len(),
{
    if looks.len() > 0 && watched(looks, timeout_secs) == Some(Ok::<(), ShellErrorView>(())) {
        let look = looks[0];
        if look.seen is Running {
            success_is_in_time(looks.skip(1), timeout_secs);
            let rest = looks.skip(1);
            let i = choose|i: int|
                0 <= i < rest.len() && !(#[trigger] rest[i]).cancelled && rest[i].elapsed_secs
                    < timeout_secs && (rest[i].seen matches Wait::Exited { success, .. }
                    && success);
            assert(looks[i + 1] == rest[i]);
        } else {
            assert(looks[0] == look);
        }
    }
}

/// Law: the first look at which the job is cancelled, or the time is over, ends a
/// command that was seen to run until then.
pub proof fn late_or_cancelled_command_is_killed(looks: Seq<Look>, timeout_secs: u64, at: int)
    requires
        0 <= at < looks.len(),
        forall|i: int|
            0 <= i < at ==> !(#[trigger] looks[i]).cancelled && looks[i].elapsed_secs
                < timeout_secs && looks[i].seen is Running,
        looks[at].cancelled || looks[at].elapsed_secs >= timeout_secs,
    ensures
        watched(looks, timeout_secs) == Some(
            Err::<(), ShellErrorView>(
                if looks[at].cancelled {
                    ShellErrorView::CancelRequested
                } else {
                    ShellErrorView::Timeout(timeout_secs)
                },
            ),
        ),
    decreases looks.len(),
{
    if at > 0 {
        let look = looks[0];
        assert(look.seen is Running);
        let rest = looks.skip(1);
        assert forall|i: int| 0 <= i < at - 1 implies !(#[trigger] rest[i]).cancelled
            && rest[i].elapsed_secs < timeout_secs && rest[i].seen is Running by {
            assert(rest[i] == looks[i + 1]);
        }
        late_or_cancelled_command_is_killed(rest, timeout_secs, at - 1);
    }
}

/// What was read from the output of a command.
#[derive(Debug)]
pub enum StreamEvent {
    Line(String),
    End,
    Failed(String),
}

/// The line to log for what was read, and whether there may be more to read.
#[derive(Debug)]
pub struct StreamStep {
    pub line: Option<LogLine>,
    pub more: bool,
}

/// The line to log for what was read at a stage from an output with a level.
pub open spec fn stream_line(level: Seq<char>, stage: Seq<char>, event: StreamEvent) -> Option<
    LogLineView,
> {
    match event {
        StreamEvent::Line(text) => Some(LogLineView { level, stage, message: text@ }),
        StreamEvent::End => None,
        StreamEvent::Failed(error) => Some(
            LogLineView { level: "error"@, stage, message: "log stream error: "@ + error@ },
        ),
    }
}

/// Decides what to log of what was read from the output of a command.
pub fn stream_reader(level: &'static str, stage: &str, event: StreamEvent) -> (step: StreamStep)
    ensures
        step.more == (event is Line),
        match step.line {
            Some(line) => stream_line(level@, stage@, event) == Some(line@),
            None => stream_line(level@, stage@, event) is None,
        },
{
    match event {
        StreamEvent::Line(text) => StreamStep {
            line: Some(LogLine { level, stage: stage.to_owned(), message: text }),
            more: true,
        },
        StreamEvent::End => StreamStep { line: None, more: false },
        StreamEvent::Failed(error) => StreamStep {
            line: Some(
                LogLine {
                    level: "error",
                    stage: stage.to_owned(),
                    message: join2("log stream error: ", error.as_str()),
                },
            ),
            more: false,
        },
    }
}

/// Law: a command that was seen to run, in time and while the job was not cancelled, ends
/// as it is seen to end: well where it exited with success, else with its status, or with
/// the error that kept it from being watched.
pub proof fn command_ends_as_it_is_seen_to_end(looks: Seq<Look>, timeout_secs: u64, at: int)
    requires
        0 <= at < looks.len(),
        forall|i: int|
            0 <= i <= at ==> !(#[trigger] looks[i]).cancelled && looks[i].elapsed_secs
                < timeout_secs,
        forall|i: int| 0 <= i < at ==> (#[trigger] looks[i]).seen is Running,
    ensures
        match looks[at].seen {
            Wait::Running => true,
            Wait::Exited { success, status } => watched(looks, timeout_secs) == Some(
                if success {
                    Ok::<(), ShellErrorView>(())
                } else {
                    Err(ShellErrorView::Exited(status@))
                },
            ),
            Wait::Failed(error) => watched(looks, timeout_secs) == Some(
                Err::<(), ShellErrorView>(ShellErrorView::Wait(error@)),
            ),
        },
    decreases looks.len(),
{
    assert(!looks[0].cancelled && looks[0].elapsed_secs < timeout_secs);
    if at > 0 {
        let rest = looks.skip(1);
        assert(looks[0].seen is Running);
        assert forall|i: int| 0 <= i <= at - 1 implies !(#[trigger] rest[i]).cancelled
            && rest[i].elapsed_secs < timeout_secs by {
            assert(rest[i] == looks[i + 1]);
        }
        assert forall|i: int| 0 <= i < at - 1 implies (#[trigger] rest[i]).seen is Running by {
            assert(rest[i] == looks[i + 1]);
        }
        command_ends_as_it_is_seen_to_end(rest, timeout_secs, at - 1);
    }
}

/// Law: a command is killed exactly where its job was cancelled or its time is over, is
/// else looked at, and one that still runs is looked at again after a quarter of a second.
pub proof fn command_is_watched(
    cancelled: bool,
    elapsed_secs: u64,
    timeout_secs: u64,
    seen: Wait,
)
    ensures
        before_look(cancelled, elapsed_secs, timeout_secs) is Kill <==> cancelled
            || elapsed_secs >= timeout_secs,
        before_look(cancelled, elapsed_secs, timeout_secs) is Poll <==> !cancelled
            && elapsed_secs < timeout_secs,
        cancelled ==> before_look(cancelled, elapsed_secs, timeout_secs) == WatchView::Kill(
            ShellErrorView::CancelRequested,
        ),
        !cancelled && elapsed_secs >= timeout_secs ==> before_look(
            cancelled,
            elapsed_secs,
            timeout_secs,
        ) == WatchView::Kill(ShellErrorView::Timeout(timeout_secs)),
        seen is Running ==> after_look(seen) == WatchView::Sleep(250),
{
}

/// Law: what a command writes is logged line by line as it was written, at the stage and
/// with the level of its output; the end of the output is not logged.
pub proof fn output_is_logged_as_written(
    level: Seq<char>,
    stage: Seq<char>,
    text: String,
    error: String,
)
    ensures
        stream_line(level, stage, StreamEvent::Line(text)) == Some(
            LogLineView { level, stage, message: text@ },
        ),
        stream_line(level, stage, StreamEvent::End) is None,
        stream_line(level, stage, StreamEvent::Failed(error)) == Some(
            LogLineView { level: "error"@, stage, message: "log stream error: "@ + error@ },
        ),
{
}

/// Law: the error of a command says what happened to it.
pub proof fn shell_errors_name_their_cause(text: String, other: String, secs: u64)
    ensures
        (ShellError::Start { shell: text, workdir: other })@.message_text()
            == "failed to start shell '"@ + text@ + "' in "@ + other@,
        ShellError::CancelRequested@.message_text() == "cancel requested"@,
        ShellError::Timeout(secs)@.message_text() == "step timeout after "@ + decimal(
            secs as int,
        ) + "s"@,
        ShellError::Exited(text)@.message_text() == "command exited with status "@ + text@,
        ShellError::Wait(text)@.message_text() == text@,
{
}

/// Law: what is said of an action on a command is what it holds.
pub proof fn watch_actions_are_seen_by_their_parts(millis: u64, error: ShellError)
    ensures
        WatchAction::Poll@ == WatchView::Poll,
        WatchAction::Sleep(millis)@ == WatchView::Sleep(millis),
        WatchAction::Kill(error)@ == WatchView::Kill(error@),
        WatchAction::Ended(Ok(()))@ == WatchView::Ended(Ok(())),
        WatchAction::Ended(Err(error))@ == WatchView::Ended(Err(error@)),
        WatchAction::Abandon(error)@ == WatchView::Abandon(error@),
{
}

} // verus!
