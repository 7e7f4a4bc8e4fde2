//! Commands that repair something: what is started, and how long it may take.
use vstd::prelude::*;

use crate::text::{decimal_text, join, same};
#[allow(unused_imports)]
use crate::text::{decimal, joined, law_rows_are_joined_by_the_separator, texts};

verus! {

/// How many seconds a command may take.
pub const COMMAND_TIMEOUT_SECS: u64 = 20;

/// How many milliseconds pass between two looks at a running command.
pub const COMMAND_POLL_MILLIS: u64 = 200;

/// A program and its arguments.
#[derive(Debug)]
pub struct CommandLine {
    pub program: String,
    pub args: Vec<String>,
}

/// What a `CommandLine` stands for.
pub struct CommandLineView {
    pub program: Seq<char>,
    pub args: Seq<Seq<char>>,
}

impl View for CommandLine {
    type V = CommandLineView;

    open spec fn view(&self) -> CommandLineView {
        CommandLineView { program: self.program@, args: texts(self.args@) }
    }
}

/// A command to start: the line that the incident log gets, the name that the
/// command goes by in messages, and what is really started.
#[derive(Debug)]
pub struct Launch {
    pub log: String,
    pub executable: String,
    pub command: CommandLine,
}

/// What a `Launch` stands for.
pub struct LaunchView {
    pub log: Seq<char>,
    pub executable: Seq<char>,
    pub command: CommandLineView,
}

impl View for Launch {
    type V = LaunchView;

    open spec fn view(&self) -> LaunchView {
        LaunchView {
            log: self.log@,
            executable: self.executable@,
            command: self.command@,
        }
    }
}

/// What happens to a command: it could not be started, it has ended, it is still
/// running after so much time, or its state could not be found out.
#[derive(Debug)]
pub enum CommandEvent {
    NotStarted { error: String },
    Exited { success: bool, status: String },
    Running { secs: u64, nanos: u32 },
    Lost { error: String },
}

/// What to do about a command: report its outcome, kill it and report a failure,
/// or look again after so many milliseconds.
#[derive(Debug)]
pub enum CommandStep {
    Done(Result<(), String>),
    Kill { error: String },
    LookAgain { millis: u64 },
}

/// What a `CommandStep` stands for.
pub enum CommandStepView {
    Done(Result<(), Seq<char>>),
    Kill { error: Seq<char> },
    LookAgain { millis: u64 },
}

/// What an outcome with a message for a failure stands for.
pub open spec fn outcome_view(outcome: Result<(), String>) -> Result<(), Seq<char>> {
    match outcome {
        Ok(()) => Ok(()),
        Err(error) => Err(error@),
    }
}

impl View for CommandStep {
    type V = CommandStepView;

    open spec fn view(&self) -> CommandStepView {
        match self {
            CommandStep::Done(outcome) => CommandStepView::Done(outcome_view(*outcome)),
            CommandStep::Kill { error } => CommandStepView::Kill { error: error@ },
            CommandStep::LookAgain { millis } => CommandStepView::LookAgain { millis: *millis },
        }
    }
}

/// What is started for a command: `systemctl` goes through `sudo`, everything
/// else is started as it is.
pub open spec fn launch(executable: Seq<char>, args: Seq<Seq<char>>) -> LaunchView {
    LaunchView {
        log: "[EXEC] "@ + executable + " "@ + joined(args, " "@),
        executable,
        command: if executable == "systemctl"@ {
            CommandLineView { program: "sudo"@, args: seq!["/bin/systemctl"@] + args }
        } else {
            CommandLineView { program: executable, args }
        },
    }
}

/// So much time is more than a command may take.
pub open spec fn is_overdue(secs: u64, nanos: u32) -> bool {
    secs > COMMAND_TIMEOUT_SECS || (secs == COMMAND_TIMEOUT_SECS && nanos > 0)
}

/// What is done about a command when something happens to it.
pub open spec fn next_command_step(executable: Seq<char>, event: CommandEvent) -> CommandStepView {
    match event {
        CommandEvent::NotStarted { error } => CommandStepView::Done(
            Err("Failed to start "@ + executable + ": "@ + error@),
        ),
        CommandEvent::Exited { success, status } => CommandStepView::Done(
            if success {
                Ok(())
            } else {
                Err(executable + " exited with status "@ + status@)
            },
        ),
        CommandEvent::Running { secs, nanos } => if is_overdue(secs, nanos) {
            CommandStepView::Kill {
                error: executable + " timed out after "@ + decimal(COMMAND_TIMEOUT_SECS as nat)
                    + " seconds"@,
            }
        } else {
            CommandStepView::LookAgain { millis: COMMAND_POLL_MILLIS }
        },
        CommandEvent::Lost { error } => CommandStepView::Done(
            Err("Failed waiting for "@ + executable + ": "@ + error@),
        ),
    }
}

/// Prepares a command.
pub fn execute_command(executable: &str, args: Vec<String>) -> (prepared: Launch)
    ensures
        prepared@ == launch(executable@, texts(args@)),
{
    let log = "[EXEC] ".to_owned().concat(executable).concat(" ").concat(
        join(&args, " ").as_str(),
    );
    let ghost given = args@;
    let command = if same(executable, "systemctl") {
        let mut all: Vec<String> = Vec::new();
        let mut rest = args;
        all.push("/bin/systemctl".to_owned());
        all.append(&mut rest);
        assert(texts(all@) =~= seq!["/bin/systemctl"@] + texts(given));
        CommandLine { program: "sudo".to_owned(), args: all }
    } else {
        CommandLine { program: executable.to_owned(), args }
    };
    Launch { log, executable: executable.to_owned(), command }
}

/// Decides what to do about a command when something happens to it.
pub fn command_step(executable: &str, event: CommandEvent) -> (step: CommandStep)
    ensures
        step@ == next_command_step(executable@, event),
{
    match event {
        CommandEvent::NotStarted { error } => CommandStep::Done(
            Err("Failed to start ".to_owned().concat(executable).concat(": ").concat(error.as_str())),
        ),
        CommandEvent::Exited { success, status } => if success {
            CommandStep::Done(Ok(()))
        } else {
            CommandStep::Done(
                Err(executable.to_owned().concat(" exited with status ").concat(status.as_str())),
            )
        },
        CommandEvent::Running { secs, nanos } => if secs > COMMAND_TIMEOUT_SECS || (secs
            == COMMAND_TIMEOUT_SECS && nanos > 0) {
            CommandStep::Kill {
                error: executable.to_owned().concat(" timed out after ").concat(
                    decimal_text(COMMAND_TIMEOUT_SECS).as_str(),
                ).concat(" seconds"),
            }
        } else {
            CommandStep::LookAgain { millis: COMMAND_POLL_MILLIS }
        },
        CommandEvent::Lost { error } => CommandStep::Done(
            Err(
                "Failed waiting for ".to_owned().concat(executable).concat(": ").concat(
                    error.as_str(),
                ),
            ),
        ),
    }
}

/// A command succeeds exactly if it ends by itself and reports success.
pub proof fn law_only_a_clean_exit_succeeds(executable: Seq<char>, event: CommandEvent)
    ensures
        next_command_step(executable, event) == CommandStepView::Done(Ok(())) <==> (event matches
            CommandEvent::Exited { success, .. } && success),
{
}

/// A command that is still running is waited for until its time is over, and
/// from then on it is killed at every look.
pub proof fn law_running_command_is_killed_when_overdue(
    executable: Seq<char>,
    secs: u64,
    nanos: u32,
    later_secs: u64,
    later_nanos: u32,
)
    requires
        secs < later_secs || (secs == later_secs && nanos <= later_nanos),
    ensures
        next_command_step(executable, CommandEvent::Running { secs, nanos }) is Kill <==>
            is_overdue(secs, nanos),
        next_command_step(executable, CommandEvent::Running { secs, nanos }) is LookAgain <==>
            !is_overdue(secs, nanos),
        is_overdue(secs, nanos) ==> is_overdue(later_secs, later_nanos),
{
}

/// What becomes of a command in a series of events: the first event that is not
/// met with another look decides, and `None` means that there was none.
pub open spec fn command_outcome(executable: Seq<char>, events: Seq<CommandEvent>) -> Option<
    Result<(), Seq<char>>,
>
    decreases events.len(),
{
    if events.len() == 0 {
        None
    } else {
        match next_command_step(executable, events.first()) {
            CommandStepView::Done(outcome) => Some(outcome),
            CommandStepView::Kill { error } => Some(Err(error)),
            CommandStepView::LookAgain { .. } => command_outcome(executable, events.drop_first()),
        }
    }
}

/// An event is the end of a command that reports success.
pub open spec fn is_clean_exit(event: CommandEvent) -> bool {
    event matches CommandEvent::Exited { success, .. } && success
}

/// An event is a look at a command that is still running and has time left.
pub open spec fn has_time_left(event: CommandEvent) -> bool {
    event matches CommandEvent::Running { secs, nanos } && !is_overdue(secs, nanos)
}

/// A command succeeds exactly if the first event at which it is not running any
/// more is an exit that reports success, and no look before that was overdue.
pub proof fn law_command_succeeds_in_time(executable: Seq<char>, events: Seq<CommandEvent>)
    ensures
        command_outcome(executable, events) == Some(Ok::<(), Seq<char>>(())) <==> exists|end: int|
            {
                &&& 0 <= end < events.len()
                &&& #[trigger] is_clean_exit(events[end])
                &&& forall|i: int| 0 <= i < end ==> has_time_left(events[i])
            },
{
    lemma_first_decides(executable, events);
}

/// A command is undecided exactly as long as every look finds it running with time
/// left, and once it is decided, nothing that comes later changes the outcome.
pub proof fn law_command_is_decided_once(
    executable: Seq<char>,
    events: Seq<CommandEvent>,
    later: Seq<CommandEvent>,
)
    ensures
        command_outcome(executable, events) is None <==> forall|i: int|
            0 <= i < events.len() ==> has_time_left(#[trigger] events[i]),
        command_outcome(executable, events) is Some ==> command_outcome(executable, events + later)
            == command_outcome(executable, events),
    decreases events.len(),
{
    lemma_first_decides(executable, events);
    if events.len() > 0 {
        assert((events + later).drop_first() =~= events.drop_first() + later);
        law_command_is_decided_once(executable, events.drop_first(), later);
    }
}

/// The place of the first event that is not met with another look.
spec fn first_decision(events: Seq<CommandEvent>) -> int
    decreases events.len(),
{
    if events.len() == 0 || !has_time_left(events.first()) {
        0
    } else {
        1 + first_decision(events.drop_first())
    }
}

proof fn lemma_first_decides(executable: Seq<char>, events: Seq<CommandEvent>)
    ensures
        ({
            let end = first_decision(events);
            &&& 0 <= end <= events.len()
            &&& forall|i: int| 0 <= i < end ==> has_time_left(#[trigger] events[i])
            &&& end < events.len() ==> !has_time_left(events[end])
            &&& command_outcome(executable, events) is None <==> end == events.len()
            &&& command_outcome(executable, events) == Some(Ok::<(), Seq<char>>(())) <==> end
                < events.len() && is_clean_exit(events[end])
        }),
    decreases events.len(),
{
    if events.len() > 0 && has_time_left(events.first()) {
        let rest = events.drop_first();
        lemma_first_decides(executable, rest);
        assert forall|i: int| 0 <= i < first_decision(events) implies has_time_left(
            #[trigger] events[i],
        ) by {
            if i > 0 {
                assert(events[i] == rest[i - 1]);
            }
        }
    }
}

/// The arguments of a command reach it unchanged: `systemctl` behind `sudo`, and
/// any other program directly.
pub proof fn law_launch_keeps_the_arguments(executable: Seq<char>, args: Seq<Seq<char>>)
    ensures
        executable == "systemctl"@ ==> launch(executable, args).command.program == "sudo"@
            && launch(executable, args).command.args.len() == args.len() + 1
            && launch(executable, args).command.args[0] == "/bin/systemctl"@
            && launch(executable, args).command.args.skip(1) == args,
        executable != "systemctl"@ ==> launch(executable, args).command.program == executable
            && launch(executable, args).command.args == args,
{
    assert((seq!["/bin/systemctl"@] + args).skip(1) =~= args);
}

/// A command and a launch stand for what they hold.
pub proof fn law_launch_stands_for_what_it_holds(
    prepared: Launch,
    step: CommandStep,
    outcome: Result<(), String>,
)
    ensures
        prepared@.log == prepared.log@,
        prepared@.executable == prepared.executable@,
        prepared@.command.program == prepared.command.program@,
        prepared@.command.args.len() == prepared.command.args@.len(),
        forall|i: int|
            0 <= i < prepared.command.args@.len() ==> #[trigger] prepared@.command.args[i]
                == prepared.command.args@[i]@,
        prepared.command@ == prepared@.command,
        outcome_view(outcome) == match outcome {
            Ok(()) => Ok::<(), Seq<char>>(()),
            Err(error) => Err(error@),
        },
        step matches CommandStep::Done(result) ==> step@ == CommandStepView::Done(
            outcome_view(result),
        ),
        step matches CommandStep::Kill { error } ==> step@ == (CommandStepView::Kill {
            error: error@,
        }),
        step matches CommandStep::LookAgain { millis } ==> step@ == (CommandStepView::LookAgain {
            millis,
        }),
{
}

/// The incident log and the messages know a command by the name it was asked for
/// with: the log shows this name and the arguments, each behind a space.
pub proof fn law_launch_is_known_by_its_name(
    executable: Seq<char>,
    first: Seq<char>,
    second: Seq<char>,
    args: Seq<Seq<char>>,
)
    requires
        args.len() > 0,
    ensures
        launch(executable, args).executable == executable,
        launch(executable, seq![]).log == "[EXEC] "@ + executable + " "@,
        launch(executable, seq![first]).log == "[EXEC] "@ + executable + " "@ + first,
        launch(executable, args.push(second)).log == launch(executable, args).log + " "@ + second,
{
    law_rows_are_joined_by_the_separator(first, args, seq![second], " "@);
    law_rows_are_joined_by_the_separator(second, args, seq![second], " "@);
    assert(args.push(second) =~= args + seq![second]);
    assert(launch(executable, seq![]).log =~= "[EXEC] "@ + executable + " "@);
    assert(launch(executable, args.push(second)).log =~= launch(executable, args).log + " "@
        + second);
}

/// Every failure of a command is reported with the name of the command and with
/// what is known of it; a running command is looked at again after 200 milliseconds
/// until 20 seconds are over.
pub proof fn law_failure_of_a_command_is_reported(executable: Seq<char>, event: CommandEvent)
    ensures
        event matches CommandEvent::NotStarted { error } ==> next_command_step(executable, event)
            == CommandStepView::Done(Err("Failed to start "@ + executable + ": "@ + error@)),
        event matches CommandEvent::Lost { error } ==> next_command_step(executable, event)
            == CommandStepView::Done(Err("Failed waiting for "@ + executable + ": "@ + error@)),
        event matches CommandEvent::Exited { success, status } ==> (!success ==> next_command_step(
            executable,
            event,
        ) == CommandStepView::Done(Err(executable + " exited with status "@ + status@))),
        event matches CommandEvent::Exited { success, .. } ==> (success ==> next_command_step(
            executable,
            event,
        ) == CommandStepView::Done(Ok(()))),
        event matches CommandEvent::Running { secs, nanos } ==> next_command_step(executable, event)
            == if secs > 20 || (secs == 20 && nanos > 0) {
            CommandStepView::Kill { error: executable + " timed out after 20 seconds"@ }
        } else {
            CommandStepView::LookAgain { millis: 200 }
        },
{
    reveal_strlit(" timed out after ");
    reveal_strlit(" seconds");
    reveal_strlit(" timed out after 20 seconds");
    reveal_with_fuel(decimal, 2);
    assert(executable + " timed out after 20 seconds"@ =~= executable + " timed out after "@
        + decimal(20) + " seconds"@);
}

} // verus!
