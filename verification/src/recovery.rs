//! The recovery from an incident by a rule, step by step: the restart, a pause,
//! and checks with pauses between them until one finds all well.
use vstd::pervasive::unreached;
use vstd::prelude::*;

use crate::command::{CommandLine, Launch};
#[allow(unused_imports)]
use crate::command::{outcome_view, CommandLineView, LaunchView};
use crate::remedy::{perform_remediation, verification_probe, verify_recovery, ProbeOutcome};
#[allow(unused_imports)]
use crate::remedy::{
    finding_line,
    is_healthy,
    law_check_asks_about_what_is_named,
    law_restart_is_that_of_what_is_named,
    names_aegira,
    probe,
    refusal,
    restart,
};
use crate::rules::Rule;
#[allow(unused_imports)]
use crate::rules::{Remediation, Verification};
use crate::text::decimal_text;
#[allow(unused_imports)]
use crate::text::{decimal, texts};

verus! {

/// How often it is checked whether a restart helped.
pub const VERIFICATION_ATTEMPTS: u64 = 5;

/// How many seconds pass after a restart, and after a check that failed.
pub const SETTLING_SECS: u64 = 2;

/// What a recovery is waiting for: the end of the restart, the end of the pause
/// after it, the end of a check, or the end of the pause after a failed check.
#[derive(Debug, Clone, Copy, PartialEq, Eq, Structural)]
pub enum RecoveryStage {
    Restarting,
    Settling,
    Checking { attempt: u64 },
    Waiting { attempt: u64 },
}

/// What a recovery asks for: to run the restart to its end, to pause, or to run
/// a check and hand over its output.
#[derive(Debug)]
pub enum RecoveryRequest {
    Run(Launch),
    Pause { secs: u64 },
    Check(CommandLine),
}

/// What a `RecoveryRequest` stands for.
pub enum RecoveryRequestView {
    Run(LaunchView),
    Pause { secs: u64 },
    Check(CommandLineView),
}

impl View for RecoveryRequest {
    type V = RecoveryRequestView;

    open spec fn view(&self) -> RecoveryRequestView {
        match self {
            RecoveryRequest::Run(launch) => RecoveryRequestView::Run(launch@),
            RecoveryRequest::Pause { secs } => RecoveryRequestView::Pause { secs: *secs },
            RecoveryRequest::Check(command) => RecoveryRequestView::Check(command@),
        }
    }
}

/// The answer to a request.
#[derive(Debug)]
pub enum RecoveryEvent {
    Restarted(Result<(), String>),
    Paused,
    Checked(ProbeOutcome),
}

/// How a recovery goes on: it waits for the answer to a request, or it has
/// ended.
#[derive(Debug)]
pub enum RecoveryNext {
    Await { stage: RecoveryStage, request: RecoveryRequest },
    Ended(Result<(), String>),
}

/// What a `RecoveryNext` stands for.
pub enum RecoveryNextView {
    Await { stage: RecoveryStage, request: RecoveryRequestView },
    Ended(Result<(), Seq<char>>),
}

impl View for RecoveryNext {
    type V = RecoveryNextView;

    open spec fn view(&self) -> RecoveryNextView {
        match self {
            RecoveryNext::Await { stage, request } => RecoveryNextView::Await {
                stage: *stage,
                request: request@,
            },
            RecoveryNext::Ended(outcome) => RecoveryNextView::Ended(outcome_view(*outcome)),
        }
    }
}

/// One turn of a recovery: the lines that the incident log gets, and how it goes
/// on after that.
#[derive(Debug)]
pub struct RecoveryTurn {
    pub log: Vec<String>,
    pub next: RecoveryNext,
}

/// What a `RecoveryTurn` stands for.
pub struct RecoveryTurnView {
    pub log: Seq<Seq<char>>,
    pub next: RecoveryNextView,
}

impl View for RecoveryTurn {
    type V = RecoveryTurnView;

    open spec fn view(&self) -> RecoveryTurnView {
        RecoveryTurnView { log: texts(self.log@), next: self.next@ }
    }
}

impl RecoveryStage {
    /// The number of the check, where there is one, is one that can come.
    pub open spec fn well_formed(self) -> bool {
        match self {
            RecoveryStage::Restarting | RecoveryStage::Settling => true,
            RecoveryStage::Checking { attempt } | RecoveryStage::Waiting { attempt } => 1 <= attempt
                <= VERIFICATION_ATTEMPTS,
        }
    }

    /// An event is the kind of answer that this stage is waiting for.
    pub open spec fn awaits(self, event: RecoveryEvent) -> bool {
        match self {
            RecoveryStage::Restarting => event is Restarted,
            RecoveryStage::Settling | RecoveryStage::Waiting { .. } => event is Paused,
            RecoveryStage::Checking { .. } => event is Checked,
        }
    }
}

impl RecoveryRequestView {
    /// An event is the kind of answer that this request needs.
    pub open spec fn answered_by(self, event: RecoveryEvent) -> bool {
        match self {
            RecoveryRequestView::Run(_) => event is Restarted,
            RecoveryRequestView::Pause { .. } => event is Paused,
            RecoveryRequestView::Check(_) => event is Checked,
        }
    }
}

/// A request goes with a stage.
pub open spec fn recovery_request_fits(stage: RecoveryStage, request: RecoveryRequestView) -> bool {
    &&& request is Run <==> stage is Restarting
    &&& request is Pause <==> stage is Settling || stage is Waiting
    &&& request is Check <==> stage is Checking
}

/// Why a recovery has failed although the restart went well.
pub open spec fn still_unhealthy() -> Seq<char> {
    "Remediation executed but health verification failed"@
}

/// The first turn of a recovery.
pub open spec fn first_turn(rule: Rule) -> RecoveryTurnView {
    let matched = seq!["[MATCH] Rule: "@ + rule.name@, "[MATCH] Rule ID: "@ + rule.id@];
    match restart(rule.remediation) {
        Ok(restart) => RecoveryTurnView {
            log: matched + seq![restart.log, restart.launch.log],
            next: RecoveryNextView::Await {
                stage: RecoveryStage::Restarting,
                request: RecoveryRequestView::Run(restart.launch),
            },
        },
        Err(reason) => RecoveryTurnView {
            log: matched,
            next: RecoveryNextView::Ended(Err(reason)),
        },
    }
}

/// The turn that starts a check.
pub open spec fn check_turn(rule: Rule, attempt: u64) -> RecoveryTurnView {
    RecoveryTurnView {
        log: seq![
            "[VERIFY] Verification attempt "@ + decimal(attempt as nat) + "/5"@,
            probe(rule.verification).log,
        ],
        next: RecoveryNextView::Await {
            stage: RecoveryStage::Checking { attempt },
            request: RecoveryRequestView::Check(probe(rule.verification).command),
        },
    }
}

/// The turn that starts a pause.
pub open spec fn pause_turn(log: Seq<Seq<char>>, stage: RecoveryStage) -> RecoveryTurnView {
    RecoveryTurnView {
        log,
        next: RecoveryNextView::Await {
            stage,
            request: RecoveryRequestView::Pause { secs: SETTLING_SECS },
        },
    }
}

/// The turn that ends a recovery.
pub open spec fn end_turn(
    log: Seq<Seq<char>>,
    outcome: Result<(), Seq<char>>,
) -> RecoveryTurnView {
    RecoveryTurnView { log, next: RecoveryNextView::Ended(outcome) }
}

/// The turn of a recovery that follows an event.
pub open spec fn next_turn(
    rule: Rule,
    stage: RecoveryStage,
    event: RecoveryEvent,
) -> RecoveryTurnView
    recommends
        stage.well_formed(),
        stage.awaits(event),
{
    match stage {
        RecoveryStage::Restarting => match event->Restarted_0 {
            Ok(()) => pause_turn(seq![], RecoveryStage::Settling),
            Err(error) => end_turn(seq![], Err(error@)),
        },
        RecoveryStage::Settling => check_turn(rule, 1),
        RecoveryStage::Checking { attempt } => {
            let log = seq![finding_line(rule.verification, event->Checked_0)];
            if is_healthy(rule.verification, event->Checked_0) {
                end_turn(log, Ok(()))
            } else {
                pause_turn(log, RecoveryStage::Waiting { attempt })
            }
        },
        RecoveryStage::Waiting { attempt } => if attempt < VERIFICATION_ATTEMPTS {
            check_turn(rule, (attempt + 1) as u64)
        } else {
            end_turn(seq![], Err(still_unhealthy()))
        },
    }
}

/// Starts the recovery from an incident by a rule.
pub fn recover_with_rule(rule: &Rule) -> (turn: RecoveryTurn)
    ensures
        turn@ == first_turn(*rule),
        rule.remediation matches Remediation::ServiceRestart { service } ==> (!names_aegira(
            service@,
        ) ==> (turn.next matches RecoveryNext::Await { request: RecoveryRequest::Run(launch), .. }
            && launch.command.program@ == "sudo"@ && texts(launch.command.args@) == seq![
            "/bin/systemctl"@,
            "restart"@,
            service@,
        ])),
        rule.remediation matches Remediation::ContainerRestart { container } ==> (
        turn.next matches RecoveryNext::Await { request: RecoveryRequest::Run(launch), .. }
            && launch.command.program@ == "docker"@ && texts(launch.command.args@) == seq![
            "restart"@,
            container@,
        ]),
{
    proof {
        law_recovery_starts_with_the_named_restart(*rule);
    }
    let mut log: Vec<String> = Vec::new();
    log.push("[MATCH] Rule: ".to_owned().concat(rule.name.as_str()));
    log.push("[MATCH] Rule ID: ".to_owned().concat(rule.id.as_str()));
    match perform_remediation(&rule.remediation) {
        Ok(restart) => {
            log.push(restart.log);
            log.push(restart.launch.log.clone());
            assert(texts(log@) =~= first_turn(*rule).log);
            RecoveryTurn {
                log,
                next: RecoveryNext::Await {
                    stage: RecoveryStage::Restarting,
                    request: RecoveryRequest::Run(restart.launch),
                },
            }
        },
        Err(reason) => {
            assert(texts(log@) =~= first_turn(*rule).log);
            RecoveryTurn { log, next: RecoveryNext::Ended(Err(reason)) }
        },
    }
}

/// Starts a check.
fn start_check(rule: &Rule, attempt: u64) -> (turn: RecoveryTurn)
    ensures
        turn@ == check_turn(*rule, attempt),
{
    let mut log: Vec<String> = Vec::new();
    let probe = verification_probe(&rule.verification);
    log.push(
        "[VERIFY] Verification attempt ".to_owned().concat(decimal_text(attempt).as_str()).concat(
            "/5",
        ),
    );
    log.push(probe.log);
    assert(texts(log@) =~= check_turn(*rule, attempt).log);
    RecoveryTurn {
        log,
        next: RecoveryNext::Await {
            stage: RecoveryStage::Checking { attempt },
            request: RecoveryRequest::Check(probe.command),
        },
    }
}

/// Starts a pause.
fn start_pause(log: Vec<String>, stage: RecoveryStage) -> (turn: RecoveryTurn)
    ensures
        turn@ == pause_turn(texts(log@), stage),
{
    RecoveryTurn {
        log,
        next: RecoveryNext::Await { stage, request: RecoveryRequest::Pause { secs: SETTLING_SECS } },
    }
}

/// Carries a recovery on after an event.
pub fn recovery_step(rule: &Rule, stage: RecoveryStage, event: RecoveryEvent) -> (turn: RecoveryTurn)
    requires
        stage.well_formed(),
        stage.awaits(event),
    ensures
        turn@ == next_turn(*rule, stage, event),
{
    let mut log: Vec<String> = Vec::new();
    assert(texts(log@) =~= seq![]);
    match (stage, event) {
        (RecoveryStage::Restarting, RecoveryEvent::Restarted(outcome)) => match outcome {
            Ok(()) => start_pause(log, RecoveryStage::Settling),
            Err(error) => RecoveryTurn { log, next: RecoveryNext::Ended(Err(error)) },
        },
        (RecoveryStage::Checking { attempt }, RecoveryEvent::Checked(outcome)) => {
            let finding = verify_recovery(&rule.verification, outcome);
            log.push(finding.log);
            assert(texts(log@) =~= seq![finding_line(rule.verification, outcome)]);
            if finding.healthy {
                RecoveryTurn { log, next: RecoveryNext::Ended(Ok(())) }
            } else {
                start_pause(log, RecoveryStage::Waiting { attempt })
            }
        },
        (RecoveryStage::Settling, RecoveryEvent::Paused) => start_check(rule, 1),
        (RecoveryStage::Waiting { attempt }, RecoveryEvent::Paused) => if attempt < VERIFICATION_ATTEMPTS {
            start_check(rule, attempt + 1)
        } else {
            RecoveryTurn {
                log,
                next: RecoveryNext::Ended(
                    Err("Remediation executed but health verification failed".to_owned()),
                ),
            }
        },
        _ => unreached(),
    }
}

/// The turn that a recovery is at after a series of events.
pub open spec fn turn_after(rule: Rule, events: Seq<RecoveryEvent>) -> RecoveryTurnView
    decreases events.len(),
{
    if events.len() == 0 {
        first_turn(rule)
    } else {
        match turn_after(rule, events.drop_last()).next {
            RecoveryNextView::Await { stage, .. } => next_turn(rule, stage, events.last()),
            RecoveryNextView::Ended(outcome) => end_turn(seq![], outcome),
        }
    }
}

/// A series of events can happen to a recovery: each of them answers the request
/// that was made before it, and none comes after the end.
pub open spec fn is_history(rule: Rule, events: Seq<RecoveryEvent>) -> bool
    decreases events.len(),
{
    events.len() == 0 || {
        &&& is_history(rule, events.drop_last())
        &&& turn_after(rule, events.drop_last()).next matches RecoveryNextView::Await { stage, .. }
        &&& stage.awaits(events.last())
    }
}

/// An event is the end of a restart that went well.
pub open spec fn went_well(event: RecoveryEvent) -> bool {
    event matches RecoveryEvent::Restarted(outcome) && outcome is Ok
}

/// An event is a check that has found all well.
pub open spec fn found_healthy(rule: Rule, event: RecoveryEvent) -> bool {
    event matches RecoveryEvent::Checked(outcome) && is_healthy(rule.verification, outcome)
}

/// An event is of the kind that comes at this place: first the end of the restart,
/// and from then on pauses and checks in turn.
pub open spec fn has_its_place(place: int, event: RecoveryEvent) -> bool {
    if place == 0 {
        event is Restarted
    } else if place % 2 == 1 {
        event is Paused
    } else {
        event is Checked
    }
}

/// The number of events after which a recovery is over in any case: the restart
/// and the pause after it, and the checks with the pauses after them.
pub open spec fn longest_history() -> nat {
    2 + 2 * VERIFICATION_ATTEMPTS as nat
}

/// Where a recovery is depends on the number of its events, and as long as it
/// goes on the restart has gone well and no check has found all well.
proof fn lemma_history(rule: Rule, events: Seq<RecoveryEvent>)
    requires
        is_history(rule, events),
    ensures
        forall|i: int| 0 <= i < events.len() ==> has_its_place(i, #[trigger] events[i]),
        match turn_after(rule, events).next {
            RecoveryNextView::Await { stage, request } => {
                &&& stage.well_formed()
                &&& events.len() == match stage {
                    RecoveryStage::Restarting => 0nat,
                    RecoveryStage::Settling => 1,
                    RecoveryStage::Checking { attempt } => 2 * attempt as nat,
                    RecoveryStage::Waiting { attempt } => 2 * attempt as nat + 1,
                }
                &&& forall|i: int| 0 <= i < events.len() ==> !found_healthy(rule, events[i])
                &&& stage != RecoveryStage::Restarting ==> went_well(events[0])
                &&& request is Run <==> stage == RecoveryStage::Restarting
            },
            RecoveryNextView::Ended(outcome) => {
                &&& events.len() <= longest_history()
                &&& forall|i: int|
                    0 <= i < events.len() - 1 ==> !found_healthy(rule, events[i])
                &&& outcome == Ok::<(), Seq<char>>(()) <==> events.len() > 0 && found_healthy(
                    rule,
                    events.last(),
                )
                &&& events.len() > 0 ==> (went_well(events[0]) <==> events.len() > 1)
                &&& events.len() == longest_history() <==> events.len() > 1 && !found_healthy(
                    rule,
                    events.last(),
                )
                &&& events.len() == longest_history() ==> outcome == Err::<(), Seq<char>>(
                    still_unhealthy(),
                )
            },
        },
    decreases events.len(),
{
    if events.len() > 0 {
        let before = events.drop_last();
        lemma_history(rule, before);
        assert forall|i: int| 0 <= i < before.len() implies !found_healthy(rule, events[i])
            && has_its_place(i, #[trigger] events[i]) by {
            assert(events[i] == before[i]);
        }
        assert(has_its_place(events.len() - 1, events.last()));
        assert(before.len() > 0 ==> events[0] == before[0]);
    }
}

/// The stages that a recovery comes to are all well-formed.
pub proof fn law_recovery_stages_are_well_formed(
    rule: Rule,
    stage: RecoveryStage,
    event: RecoveryEvent,
)
    requires
        stage.well_formed(),
        stage.awaits(event),
    ensures
        first_turn(rule).next matches RecoveryNextView::Await { stage, .. } ==> stage.well_formed(),
        next_turn(rule, stage, event).next matches RecoveryNextView::Await { stage, .. }
            ==> stage.well_formed(),
{
}

/// In every turn that waits, the request goes with the stage, and the events that
/// the stage waits for are exactly the answers that the request needs.
pub proof fn law_recovery_awaits_what_it_asks_for(
    rule: Rule,
    stage: RecoveryStage,
    event: RecoveryEvent,
)
    ensures
        first_turn(rule).next matches RecoveryNextView::Await { stage, request } ==> {
            &&& recovery_request_fits(stage, request)
            &&& forall|answer: RecoveryEvent| #[trigger]
                stage.awaits(answer) == request.answered_by(answer)
        },
        next_turn(rule, stage, event).next matches RecoveryNextView::Await { stage, request } ==> {
            &&& recovery_request_fits(stage, request)
            &&& forall|answer: RecoveryEvent| #[trigger]
                stage.awaits(answer) == request.answered_by(answer)
        },
{
}

/// A recovery ends: no series of events is longer than the restart, the checks
/// and the pauses after each of them, and after the longest one the recovery has
/// failed. It does not give up earlier: where it ends in an error although the
/// restart went well, all of the checks were made, and none found all well.
pub proof fn law_recovery_ends(rule: Rule, events: Seq<RecoveryEvent>)
    requires
        is_history(rule, events),
    ensures
        events.len() <= longest_history(),
        events.len() == longest_history() ==> turn_after(rule, events).next
            == RecoveryNextView::Ended(Err(still_unhealthy())),
        events.len() > 0 && went_well(events[0]) && (turn_after(
            rule,
            events,
        ).next matches RecoveryNextView::Ended(outcome) && outcome is Err) ==> {
            &&& events.len() == longest_history()
            &&& forall|attempt: int|
                1 <= attempt <= VERIFICATION_ATTEMPTS ==> {
                    &&& #[trigger] events[2 * attempt] is Checked
                    &&& !found_healthy(rule, events[2 * attempt])
                }
        },
{
    lemma_history(rule, events);
    if events.len() == longest_history() {
        assert forall|attempt: int| 1 <= attempt <= VERIFICATION_ATTEMPTS implies {
            &&& #[trigger] events[2 * attempt] is Checked
            &&& !found_healthy(rule, events[2 * attempt])
        } by {
            assert(has_its_place(2 * attempt, events[2 * attempt]));
        }
    }
}

/// A recovery succeeds exactly with the first check that finds all well, and
/// only after a restart that went well.
pub proof fn law_recovery_succeeds_with_a_healthy_check(rule: Rule, events: Seq<RecoveryEvent>)
    requires
        is_history(rule, events),
    ensures
        turn_after(rule, events).next == RecoveryNextView::Ended(Ok(())) <==> exists|i: int|
            0 <= i < events.len() && #[trigger] found_healthy(rule, events[i]),
        turn_after(rule, events).next == RecoveryNextView::Ended(Ok(())) ==> {
            &&& went_well(events[0])
            &&& found_healthy(rule, events.last())
            &&& forall|i: int| 0 <= i < events.len() - 1 ==> !found_healthy(rule, events[i])
        },
{
    lemma_history(rule, events);
    if turn_after(rule, events).next == RecoveryNextView::Ended(Ok(())) {
        assert(found_healthy(rule, events[events.len() - 1]));
        if events.len() == 1 {
            assert(turn_after(rule, events.drop_last()) == first_turn(rule));
        }
    }
}

/// A restart that fails ends the recovery with the error of the restart, and
/// nothing is checked.
pub proof fn law_failed_restart_ends_the_recovery(
    rule: Rule,
    events: Seq<RecoveryEvent>,
    error: String,
)
    requires
        is_history(rule, events),
        events.len() > 0,
        events[0] == RecoveryEvent::Restarted(Err(error)),
    ensures
        events.len() == 1,
        turn_after(rule, events).next == RecoveryNextView::Ended(Err(error@)),
{
    lemma_history(rule, events);
    if events.len() == 1 {
        assert(events.drop_last().len() == 0);
        assert(turn_after(rule, events.drop_last()) == first_turn(rule));
    }
}

/// A restart is asked for at most once, and before anything else.
pub proof fn law_restart_is_asked_for_once(rule: Rule, events: Seq<RecoveryEvent>)
    requires
        is_history(rule, events),
        events.len() > 0,
    ensures
        !(turn_after(rule, events).next matches RecoveryNextView::Await { request, .. }
            && request is Run),
{
    lemma_history(rule, events);
}

/// A rule that would restart Aegira itself fails at once: nothing is run, and no
/// event can follow.
pub proof fn law_aegira_is_never_restarted(
    rule: Rule,
    service: String,
    events: Seq<RecoveryEvent>,
)
    requires
        rule.remediation == (Remediation::ServiceRestart { service }),
        names_aegira(service@),
        is_history(rule, events),
    ensures
        events.len() == 0,
        first_turn(rule).next == RecoveryNextView::Ended(Err(refusal())),
{
    if events.len() > 0 {
        lemma_first_event(rule, events);
    }
}

/// The first event of a series answers the request of the first turn.
proof fn lemma_first_event(rule: Rule, events: Seq<RecoveryEvent>)
    requires
        is_history(rule, events),
        events.len() > 0,
    ensures
        first_turn(rule).next is Await,
    decreases events.len(),
{
    if events.len() > 1 {
        lemma_first_event(rule, events.drop_last());
    } else {
        assert(turn_after(rule, events.drop_last()) == first_turn(rule));
    }
}

/// A recovery starts with the restart of exactly what its rule names: a service
/// with `sudo /bin/systemctl restart`, a container with `docker restart`. The
/// incident log names the rule, the restart and the command. Only for a service
/// that means Aegira nothing is asked for and the recovery has failed.
pub proof fn law_recovery_starts_with_the_named_restart(rule: Rule)
    ensures
        first_turn(rule).log.len() >= 2,
        first_turn(rule).log[0] == "[MATCH] Rule: "@ + rule.name@,
        first_turn(rule).log[1] == "[MATCH] Rule ID: "@ + rule.id@,
        rule.remediation matches Remediation::ServiceRestart { service } ==> (!names_aegira(
            service@,
        ) ==> {
            &&& first_turn(rule).log.skip(2) == seq![
                "[RECOVERY] Restarting service: "@ + service@,
                "[EXEC] systemctl restart "@ + service@,
            ]
            &&& first_turn(rule).next matches RecoveryNextView::Await {
                stage: RecoveryStage::Restarting,
                request: RecoveryRequestView::Run(launch),
            }
            &&& launch.executable == "systemctl"@
            &&& launch.command.program == "sudo"@
            &&& launch.command.args == seq!["/bin/systemctl"@, "restart"@, service@]
        }),
        rule.remediation matches Remediation::ServiceRestart { service } ==> (names_aegira(service@)
            ==> {
            &&& first_turn(rule).log.len() == 2
            &&& first_turn(rule).next == RecoveryNextView::Ended(
                Err("Refusing remediation: rule attempts to restart aegira.service"@),
            )
        }),
        rule.remediation matches Remediation::ContainerRestart { container } ==> {
            &&& first_turn(rule).log.skip(2) == seq![
                "[RECOVERY] Restarting container: "@ + container@,
                "[EXEC] docker restart "@ + container@,
            ]
            &&& first_turn(rule).next matches RecoveryNextView::Await {
                stage: RecoveryStage::Restarting,
                request: RecoveryRequestView::Run(launch),
            }
            &&& launch.executable == "docker"@
            &&& launch.command.program == "docker"@
            &&& launch.command.args == seq!["restart"@, container@]
        },
{
    law_restart_is_that_of_what_is_named(rule.remediation);
    if let Ok(restart) = restart(rule.remediation) {
        assert(first_turn(rule).log.skip(2) =~= seq![restart.log, restart.launch.log]);
    }
}

/// What a recovery does after so many events. A restart that went well is followed
/// by a pause of 2 seconds, and one that failed by the end with its error. Then
/// checks of exactly what the rule names, numbered 1 to 5, and pauses of 2 seconds
/// take turns; a check that finds all well ends the recovery with success, and the
/// pause after the fifth check ends it without.
pub proof fn law_recovery_takes_its_course(rule: Rule, events: Seq<RecoveryEvent>)
    requires
        is_history(rule, events),
    ensures
        ({
            let turn = turn_after(rule, events);
            let count = events.len();
            &&& count <= 12
            &&& count == 0 ==> turn == first_turn(rule)
            &&& count == 1 ==> turn.log.len() == 0 && (events[0] matches RecoveryEvent::Restarted(
                outcome,
            ) && turn.next == match outcome {
                Ok(()) => RecoveryNextView::Await {
                    stage: RecoveryStage::Settling,
                    request: RecoveryRequestView::Pause { secs: 2 },
                },
                Err(error) => RecoveryNextView::Ended(Err(error@)),
            })
            &&& count > 1 && count % 2 == 0 && count <= 10 ==> {
                &&& events.last() is Paused
                &&& turn.log.len() == 2
                &&& turn.log[0] == "[VERIFY] Verification attempt "@ + decimal(count / 2) + "/5"@
                &&& turn.next matches RecoveryNextView::Await {
                    stage: RecoveryStage::Checking { attempt },
                    request: RecoveryRequestView::Check(command),
                }
                &&& attempt == count / 2
                &&& rule.verification matches Verification::ServiceActive { service } ==> {
                    &&& turn.log[1] == "[VERIFY] Checking service: "@ + service@
                    &&& command.program == "sudo"@
                    &&& command.args == seq!["/bin/systemctl"@, "is-active"@, service@]
                }
                &&& rule.verification matches Verification::ContainerRunning { container } ==> {
                    &&& turn.log[1] == "[VERIFY] Checking container: "@ + container@
                    &&& command.program == "docker"@
                    &&& command.args == seq!["inspect"@, "-f"@, "{{.State.Running}}"@, container@]
                }
            }
            &&& count > 1 && count % 2 == 1 ==> {
                &&& events.last() matches RecoveryEvent::Checked(outcome)
                &&& turn.log == seq![finding_line(rule.verification, outcome)]
                &&& if is_healthy(rule.verification, outcome) {
                    turn.next == RecoveryNextView::Ended(Ok(()))
                } else {
                    turn.next matches RecoveryNextView::Await {
                        stage: RecoveryStage::Waiting { attempt },
                        request: RecoveryRequestView::Pause { secs },
                    } && attempt == count / 2 && secs == 2
                }
            }
            &&& count == 12 ==> turn.log.len() == 0 && turn.next == RecoveryNextView::Ended(
                Err("Remediation executed but health verification failed"@),
            )
        }),
{
    lemma_history(rule, events);
    law_check_asks_about_what_is_named(rule.verification);
    if events.len() > 0 {
        let before = events.drop_last();
        lemma_history(rule, before);
        if events.len() == 1 {
            assert(turn_after(rule, before) == first_turn(rule));
        }
    }
}

/// What a recovery waits for, and which of its stages can come, as such.
pub proof fn law_recovery_stage_waits_for_its_event(stage: RecoveryStage, event: RecoveryEvent)
    ensures
        stage is Restarting ==> stage.well_formed() && (stage.awaits(event) <==> event
            is Restarted),
        stage is Settling ==> stage.well_formed() && (stage.awaits(event) <==> event is Paused),
        stage matches RecoveryStage::Checking { attempt } ==> (stage.well_formed() <==> 1 <= attempt
            <= 5) && (stage.awaits(event) <==> event is Checked),
        stage matches RecoveryStage::Waiting { attempt } ==> (stage.well_formed() <==> 1 <= attempt
            <= 5) && (stage.awaits(event) <==> event is Paused),
        went_well(event) <==> (event matches RecoveryEvent::Restarted(outcome) && outcome is Ok),
{
}

/// A turn of a recovery stands for what it holds.
pub proof fn law_recovery_turn_stands_for_what_it_holds(turn: RecoveryTurn)
    ensures
        turn@.log == texts(turn.log@),
        turn.next matches RecoveryNext::Ended(outcome) ==> turn@.next == RecoveryNextView::Ended(
            outcome_view(outcome),
        ),
        turn.next matches RecoveryNext::Await { stage, request: RecoveryRequest::Run(launch) }
            ==> turn@.next == (RecoveryNextView::Await {
            stage,
            request: RecoveryRequestView::Run(launch@),
        }),
        turn.next matches RecoveryNext::Await { stage, request: RecoveryRequest::Pause { secs } }
            ==> turn@.next == (RecoveryNextView::Await {
            stage,
            request: RecoveryRequestView::Pause { secs },
        }),
        turn.next matches RecoveryNext::Await { stage, request: RecoveryRequest::Check(command) }
            ==> turn@.next == (RecoveryNextView::Await {
            stage,
            request: RecoveryRequestView::Check(command@),
        }),
{
}

} // verus!
