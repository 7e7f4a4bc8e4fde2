//! An incident from its first line to its end: the choice of a rule, the
//! recovery by that rule, and the call for a developer where that fails.
use vstd::pervasive::unreached;
use vstd::prelude::*;

use crate::escalation::{
    escalate_to_developer,
    escalation_step,
    EscalationEvent,
    EscalationNext,
    EscalationRequest,
    EscalationStage,
    EscalationTurn,
};
#[allow(unused_imports)]
use crate::escalation::{
    escalation_request_fits,
    escalation_turn_after,
    first_escalation_turn,
    host,
    is_escalation_history,
    law_escalation_ends,
    law_mail_tells_what_happened,
    law_only_the_configured_mail_is_sent,
    mail,
    mail_body,
    next_escalation_turn,
    settings,
    AlertRequestView,
    AlertView,
    EscalationNextView,
    EscalationRequestView,
    EscalationStageView,
    EscalationTurnView,
};
use crate::outside::duration;
#[allow(unused_imports)]
use crate::outside::duration_text;
use crate::recovery::{
    recover_with_rule,
    recovery_step,
    RecoveryEvent,
    RecoveryNext,
    RecoveryRequest,
    RecoveryStage,
    RecoveryTurn,
};
#[allow(unused_imports)]
use crate::recovery::{
    first_turn,
    found_healthy,
    is_history,
    law_recovery_ends,
    law_recovery_succeeds_with_a_healthy_check,
    longest_history,
    next_turn,
    recovery_request_fits,
    turn_after,
    RecoveryNextView,
    RecoveryRequestView,
    RecoveryTurnView,
};
#[allow(unused_imports)]
use crate::remedy::{names_aegira, refusal};
#[allow(unused_imports)]
use crate::rules::{best_index, score, scores, scores_fit, Remediation};
use crate::rules::{can_score_all, find_best_rule, Rule};
use crate::text::decimal_text;
#[allow(unused_imports)]
use crate::text::{decimal, is_substring, texts};

verus! {

/// Whether a developer is called when an incident cannot be resolved.
pub const PAID_MODE: bool = true;

/// What an incident is waiting for: a step of the recovery by a rule, the time
/// that has passed, or a step of the call for a developer.
#[derive(Debug)]
pub enum IncidentStage<'a> {
    Recovering { incident: &'a str, rule: &'a Rule, stage: RecoveryStage },
    Timing,
    Escalating { stage: EscalationStage },
}

/// What an `IncidentStage` stands for.
pub enum IncidentStageView {
    Recovering { incident: Seq<char>, rule: Rule, stage: RecoveryStage },
    Timing,
    Escalating { stage: EscalationStageView },
}

impl<'a> View for IncidentStage<'a> {
    type V = IncidentStageView;

    open spec fn view(&self) -> IncidentStageView {
        match self {
            IncidentStage::Recovering { incident, rule, stage } => IncidentStageView::Recovering {
                incident: incident@,
                rule: **rule,
                stage: *stage,
            },
            IncidentStage::Timing => IncidentStageView::Timing,
            IncidentStage::Escalating { stage } => IncidentStageView::Escalating { stage: stage@ },
        }
    }
}

/// What an incident asks for: what its recovery asks for, the time that has
/// passed since its start, or what the call for a developer asks for.
#[derive(Debug)]
pub enum IncidentRequest {
    Recovery(RecoveryRequest),
    Clock,
    Escalation(EscalationRequest),
}

/// What an `IncidentRequest` stands for.
pub enum IncidentRequestView {
    Recovery(RecoveryRequestView),
    Clock,
    Escalation(EscalationRequestView),
}

impl View for IncidentRequest {
    type V = IncidentRequestView;

    open spec fn view(&self) -> IncidentRequestView {
        match self {
            IncidentRequest::Recovery(request) => IncidentRequestView::Recovery(request@),
            IncidentRequest::Clock => IncidentRequestView::Clock,
            IncidentRequest::Escalation(request) => IncidentRequestView::Escalation(request@),
        }
    }
}

/// The answer to a request.
#[derive(Debug)]
pub enum IncidentEvent {
    Recovery(RecoveryEvent),
    Elapsed { secs: u64, nanos: u32 },
    Escalation(EscalationEvent),
}

/// How an incident goes on: it waits for the answer to a request, or it is over.
#[derive(Debug)]
pub enum IncidentNext<'a> {
    Await { stage: IncidentStage<'a>, request: IncidentRequest },
    Finished,
}

/// What an `IncidentNext` stands for.
pub enum IncidentNextView {
    Await { stage: IncidentStageView, request: IncidentRequestView },
    Finished,
}

impl<'a> View for IncidentNext<'a> {
    type V = IncidentNextView;

    open spec fn view(&self) -> IncidentNextView {
        match self {
            IncidentNext::Await { stage, request } => IncidentNextView::Await {
                stage: stage@,
                request: request@,
            },
            IncidentNext::Finished => IncidentNextView::Finished,
        }
    }
}

/// One turn of an incident: the lines that the incident log gets, and how it
/// goes on after that.
#[derive(Debug)]
pub struct IncidentTurn<'a> {
    pub log: Vec<String>,
    pub next: IncidentNext<'a>,
}

/// What an `IncidentTurn` stands for.
pub struct IncidentTurnView {
    pub log: Seq<Seq<char>>,
    pub next: IncidentNextView,
}

impl<'a> View for IncidentTurn<'a> {
    type V = IncidentTurnView;

    open spec fn view(&self) -> IncidentTurnView {
        IncidentTurnView { log: texts(self.log@), next: self.next@ }
    }
}

impl IncidentStageView {
    /// The stage of the recovery, where there is one, is one that can come.
    pub open spec fn well_formed(self) -> bool {
        self matches IncidentStageView::Recovering { stage, .. } ==> stage.well_formed()
    }

    /// An event is the kind of answer that this stage is waiting for.
    pub open spec fn awaits(self, event: IncidentEvent) -> bool {
        match self {
            IncidentStageView::Recovering { stage, .. } => event matches IncidentEvent::Recovery(
                event,
            ) && stage.awaits(event),
            IncidentStageView::Timing => event matches IncidentEvent::Elapsed { nanos, .. } && nanos
                < 1_000_000_000,
            IncidentStageView::Escalating { stage } => event matches IncidentEvent::Escalation(
                event,
            ) && stage.awaits(event),
        }
    }
}

impl IncidentRequestView {
    /// An event is the kind of answer that this request needs.
    pub open spec fn answered_by(self, event: IncidentEvent) -> bool {
        match self {
            IncidentRequestView::Recovery(request) => event matches IncidentEvent::Recovery(event)
                && request.answered_by(event),
            IncidentRequestView::Clock => event matches IncidentEvent::Elapsed { nanos, .. } && nanos
                < 1_000_000_000,
            IncidentRequestView::Escalation(request) => event matches IncidentEvent::Escalation(
                event,
            ) && request.answered_by(event),
        }
    }
}

/// A request goes with a stage.
pub open spec fn incident_request_fits(
    stage: IncidentStageView,
    request: IncidentRequestView,
) -> bool {
    match (stage, request) {
        (
            IncidentStageView::Recovering { stage, .. },
            IncidentRequestView::Recovery(request),
        ) => recovery_request_fits(stage, request),
        (IncidentStageView::Timing, IncidentRequestView::Clock) => true,
        (
            IncidentStageView::Escalating { stage },
            IncidentRequestView::Escalation(request),
        ) => escalation_request_fits(stage, request),
        _ => false,
    }
}

/// The turn of an incident whose call for a developer has taken a turn.
pub open spec fn escalating_turn(log: Seq<Seq<char>>, turn: EscalationTurnView) -> IncidentTurnView {
    IncidentTurnView {
        log: log + turn.log,
        next: match turn.next {
            EscalationNextView::Await { stage, request } => IncidentNextView::Await {
                stage: IncidentStageView::Escalating { stage },
                request: IncidentRequestView::Escalation(request),
            },
            EscalationNextView::Finished => IncidentNextView::Finished,
        },
    }
}

/// The turn that calls a developer where that is paid for, and otherwise leaves
/// a note in the incident log.
pub open spec fn escalation_turn(
    paid: bool,
    log: Seq<Seq<char>>,
    alert: AlertView,
    note: Seq<char>,
) -> IncidentTurnView {
    if paid {
        escalating_turn(log, first_escalation_turn(alert))
    } else {
        IncidentTurnView { log: log.push(note), next: IncidentNextView::Finished }
    }
}

/// What a developer is called for when no rule matches an incident.
pub open spec fn unknown_alert(incident: Seq<char>) -> AlertView {
    AlertView { incident, reason: "Unknown incident"@ }
}

/// What a developer is called for when the recovery by a rule has failed.
pub open spec fn failure_alert(
    incident: Seq<char>,
    rule_id: Seq<char>,
    error: Seq<char>,
) -> AlertView {
    AlertView { incident, reason: "Rule '"@ + rule_id + "' failed: "@ + error }
}

/// The turn of an incident that no rule matches.
pub open spec fn unknown_turn(
    paid: bool,
    incident: Seq<char>,
    log: Seq<Seq<char>>,
) -> IncidentTurnView {
    escalation_turn(
        paid,
        log.push("[MATCH] No known remediation rule found"@),
        unknown_alert(incident),
        "[FREE] Unknown incident. No automated remediation."@,
    )
}

/// The turn of an incident whose recovery has failed.
pub open spec fn failed_turn(
    paid: bool,
    incident: Seq<char>,
    log: Seq<Seq<char>>,
    rule_id: Seq<char>,
    error: Seq<char>,
) -> IncidentTurnView {
    escalation_turn(
        paid,
        log.push("[RECOVERY FAILED] "@ + error),
        failure_alert(incident, rule_id, error),
        "[FREE] Recovery failed. Developer intervention required."@,
    )
}

/// The turn of an incident whose recovery has taken a turn.
pub open spec fn recovering_turn(
    paid: bool,
    incident: Seq<char>,
    log: Seq<Seq<char>>,
    rule: Rule,
    turn: RecoveryTurnView,
) -> IncidentTurnView {
    match turn.next {
        RecoveryNextView::Await { stage, request } => IncidentTurnView {
            log: log + turn.log,
            next: IncidentNextView::Await {
                stage: IncidentStageView::Recovering { incident, rule, stage },
                request: IncidentRequestView::Recovery(request),
            },
        },
        RecoveryNextView::Ended(Ok(())) => IncidentTurnView {
            log: log + turn.log,
            next: IncidentNextView::Await {
                stage: IncidentStageView::Timing,
                request: IncidentRequestView::Clock,
            },
        },
        RecoveryNextView::Ended(Err(error)) => failed_turn(
            paid,
            incident,
            log + turn.log,
            rule.id@,
            error,
        ),
    }
}

/// The lines that the incident log gets for every incident.
pub open spec fn opening(incident: Seq<char>) -> Seq<Seq<char>> {
    seq!["================ INCIDENT ================"@, incident]
}

/// The first turn of an incident.
pub open spec fn first_incident_turn(
    paid: bool,
    rules: Seq<Rule>,
    incident: Seq<char>,
) -> IncidentTurnView {
    match best_index(scores(rules, incident)) {
        Some(best) => recovering_turn(
            paid,
            incident,
            opening(incident).push(
                "[MATCH] Confidence score: "@ + decimal(score(rules[best], incident) as nat),
            ),
            rules[best],
            first_turn(rules[best]),
        ),
        None => unknown_turn(paid, incident, opening(incident)),
    }
}

/// The turn of an incident that follows an event.
pub open spec fn next_incident_turn(
    paid: bool,
    stage: IncidentStageView,
    event: IncidentEvent,
) -> IncidentTurnView
    recommends
        stage.well_formed(),
        stage.awaits(event),
{
    match stage {
        IncidentStageView::Recovering { incident, rule, stage } => recovering_turn(
            paid,
            incident,
            seq![],
            rule,
            next_turn(rule, stage, event->Recovery_0),
        ),
        IncidentStageView::Timing => IncidentTurnView {
            log: seq![
                "[RESOLVED] Incident automatically recovered in "@ + duration_text(
                    event->secs,
                    event->nanos,
                ),
            ],
            next: IncidentNextView::Finished,
        },
        IncidentStageView::Escalating { stage } => escalating_turn(
            seq![],
            next_escalation_turn(stage, event->Escalation_0),
        ),
    }
}

/// Carries an incident on when its call for a developer has taken a turn.
fn escalating<'a>(log: Vec<String>, turn: EscalationTurn) -> (result: IncidentTurn<'a>)
    ensures
        result@ == escalating_turn(texts(log@), turn@),
{
    let mut log = log;
    let mut more = turn.log;
    let ghost before = log@;
    log.append(&mut more);
    assert(texts(log@) =~= texts(before) + turn@.log);
    match turn.next {
        EscalationNext::Await { stage, request } => IncidentTurn {
            log,
            next: IncidentNext::Await {
                stage: IncidentStage::Escalating { stage },
                request: IncidentRequest::Escalation(request),
            },
        },
        EscalationNext::Finished => IncidentTurn { log, next: IncidentNext::Finished },
    }
}

/// Calls a developer where that is paid for, and otherwise leaves a note.
fn escalation<'a>(paid: bool, log: Vec<String>, incident: &str, reason: &str, note: &str) -> (turn:
    IncidentTurn<'a>)
    ensures
        turn@ == escalation_turn(
            paid,
            texts(log@),
            AlertView { incident: incident@, reason: reason@ },
            note@,
        ),
{
    let mut log = log;
    if paid {
        escalating(log, escalate_to_developer(incident, reason))
    } else {
        let ghost before = log@;
        log.push(note.to_owned());
        assert(texts(log@) =~= texts(before).push(note@));
        IncidentTurn { log, next: IncidentNext::Finished }
    }
}

/// Decides about an incident that no rule matches, whose lines so far are `log`.
pub fn unknown_incident<'a>(paid: bool, incident: &str, log: Vec<String>) -> (turn: IncidentTurn<
    'a,
>)
    ensures
        turn@ == unknown_turn(paid, incident@, texts(log@)),
{
    let mut log = log;
    let ghost before = log@;
    log.push("[MATCH] No known remediation rule found".to_owned());
    assert(texts(log@) =~= texts(before).push("[MATCH] No known remediation rule found"@));
    escalation(
        paid,
        log,
        incident,
        "Unknown incident",
        "[FREE] Unknown incident. No automated remediation.",
    )
}

/// Decides about an incident whose recovery has failed and whose lines so far
/// are `log`.
pub fn failed_recovery<'a>(
    paid: bool,
    incident: &str,
    log: Vec<String>,
    rule_id: &str,
    error: &str,
) -> (turn: IncidentTurn<'a>)
    ensures
        turn@ == failed_turn(paid, incident@, texts(log@), rule_id@, error@),
{
    let mut log = log;
    let ghost before = log@;
    log.push("[RECOVERY FAILED] ".to_owned().concat(error));
    assert(texts(log@) =~= texts(before).push("[RECOVERY FAILED] "@ + error@));
    escalation(
        paid,
        log,
        incident,
        "Rule '".to_owned().concat(rule_id).concat("' failed: ").concat(error).as_str(),
        "[FREE] Recovery failed. Developer intervention required.",
    )
}

/// Carries an incident on when its recovery has taken a turn.
fn recovering<'a>(
    paid: bool,
    incident: &'a str,
    log: Vec<String>,
    rule: &'a Rule,
    turn: RecoveryTurn,
) -> (result: IncidentTurn<'a>)
    ensures
        result@ == recovering_turn(paid, incident@, texts(log@), *rule, turn@),
{
    let mut log = log;
    let mut more = turn.log;
    let ghost before = log@;
    log.append(&mut more);
    assert(texts(log@) =~= texts(before) + turn@.log);
    match turn.next {
        RecoveryNext::Await { stage, request } => IncidentTurn {
            log,
            next: IncidentNext::Await {
                stage: IncidentStage::Recovering { incident, rule, stage },
                request: IncidentRequest::Recovery(request),
            },
        },
        RecoveryNext::Ended(Ok(())) => IncidentTurn {
            log,
            next: IncidentNext::Await {
                stage: IncidentStage::Timing,
                request: IncidentRequest::Clock,
            },
        },
        RecoveryNext::Ended(Err(error)) => failed_recovery(
            paid,
            incident,
            log,
            rule.id.as_str(),
            error.as_str(),
        ),
    }
}

/// The lines that the incident log gets for every incident.
pub fn opening_lines(incident: &str) -> (lines: Vec<String>)
    ensures
        texts(lines@) == opening(incident@),
{
    let lines: Vec<String> = vec![
        "================ INCIDENT ================".to_owned(),
        incident.to_owned(),
    ];
    assert(texts(lines@) =~= opening(incident@));
    lines
}

/// Takes an incident up.
pub fn process_incident<'a>(rules: &'a [Rule], incident: &'a str) -> (turn: IncidentTurn<'a>)
    requires
        scores_fit(rules@, incident@),
    ensures
        turn@ == first_incident_turn(PAID_MODE, rules@, incident@),
{
    let mut log = opening_lines(incident);
    match find_best_rule(rules, incident) {
        Some((rule, total)) => {
            log.push(
                "[MATCH] Confidence score: ".to_owned().concat(decimal_text(total as u64).as_str()),
            );
            assert(texts(log@) =~= opening(incident@).push(
                "[MATCH] Confidence score: "@ + decimal(total as nat),
            ));
            recovering(PAID_MODE, incident, log, rule, recover_with_rule(rule))
        },
        None => unknown_incident(PAID_MODE, incident, log),
    }
}

/// Takes an incident up, or returns `None` where the score of a rule cannot be
/// computed.
pub fn checked_process_incident<'a>(rules: &'a [Rule], incident: &'a str) -> (turn: Option<
    IncidentTurn<'a>,
>)
    ensures
        match turn {
            Some(turn) => scores_fit(rules@, incident@) && turn@ == first_incident_turn(
                PAID_MODE,
                rules@,
                incident@,
            ),
            None => !scores_fit(rules@, incident@),
        },
{
    if can_score_all(rules, incident) {
        Some(process_incident(rules, incident))
    } else {
        None
    }
}

/// Carries an incident on after an event.
pub fn incident_step<'a>(stage: IncidentStage<'a>, event: IncidentEvent) -> (turn: IncidentTurn<'a>)
    requires
        stage@.well_formed(),
        stage@.awaits(event),
    ensures
        turn@ == next_incident_turn(PAID_MODE, stage@, event),
{
    let mut log: Vec<String> = Vec::new();
    assert(texts(log@) =~= seq![]);
    match (stage, event) {
        (
            IncidentStage::Recovering { incident, rule, stage },
            IncidentEvent::Recovery(event),
        ) => recovering(PAID_MODE, incident, log, rule, recovery_step(rule, stage, event)),
        (IncidentStage::Timing, IncidentEvent::Elapsed { secs, nanos }) => {
            log.push(
                "[RESOLVED] Incident automatically recovered in ".to_owned().concat(
                    duration(secs, nanos).as_str(),
                ),
            );
            assert(texts(log@) =~= next_incident_turn(PAID_MODE, stage@, event).log);
            IncidentTurn { log, next: IncidentNext::Finished }
        },
        (IncidentStage::Escalating { stage }, IncidentEvent::Escalation(event)) => escalating(
            log,
            escalation_step(stage, event),
        ),
        _ => unreached(),
    }
}

/// The turn that an incident is at after a series of events.
pub open spec fn incident_turn_after(
    paid: bool,
    rules: Seq<Rule>,
    incident: Seq<char>,
    events: Seq<IncidentEvent>,
) -> IncidentTurnView
    decreases events.len(),
{
    if events.len() == 0 {
        first_incident_turn(paid, rules, incident)
    } else {
        match incident_turn_after(paid, rules, incident, events.drop_last()).next {
            IncidentNextView::Await { stage, .. } => next_incident_turn(paid, stage, events.last()),
            IncidentNextView::Finished => IncidentTurnView {
                log: seq![],
                next: IncidentNextView::Finished,
            },
        }
    }
}

/// A series of events can happen to an incident: each of them answers the
/// request that was made before it, and none comes after the end.
pub open spec fn is_incident_history(
    paid: bool,
    rules: Seq<Rule>,
    incident: Seq<char>,
    events: Seq<IncidentEvent>,
) -> bool
    decreases events.len(),
{
    events.len() == 0 || {
        &&& is_incident_history(paid, rules, incident, events.drop_last())
        &&& incident_turn_after(paid, rules, incident, events.drop_last()).next matches
            IncidentNextView::Await { stage, .. }
        &&& stage.awaits(events.last())
    }
}

/// The events of a series that belong to the recovery.
pub open spec fn recovery_events(events: Seq<IncidentEvent>) -> Seq<RecoveryEvent>
    decreases events.len(),
{
    if events.len() == 0 {
        seq![]
    } else {
        match events.last() {
            IncidentEvent::Recovery(event) => recovery_events(events.drop_last()).push(event),
            _ => recovery_events(events.drop_last()),
        }
    }
}

/// The events of a series that belong to the call for a developer.
pub open spec fn escalation_events(events: Seq<IncidentEvent>) -> Seq<EscalationEvent>
    decreases events.len(),
{
    if events.len() == 0 {
        seq![]
    } else {
        match events.last() {
            IncidentEvent::Escalation(event) => escalation_events(events.drop_last()).push(event),
            _ => escalation_events(events.drop_last()),
        }
    }
}

/// The recovery by a rule is over with a failure.
pub open spec fn has_failed(rule: Rule, events: Seq<IncidentEvent>) -> bool {
    turn_after(rule, recovery_events(events)).next matches RecoveryNextView::Ended(outcome)
        && outcome is Err
}

/// The recovery by a rule is over with success.
pub open spec fn has_succeeded(rule: Rule, events: Seq<IncidentEvent>) -> bool {
    turn_after(rule, recovery_events(events)).next matches RecoveryNextView::Ended(outcome)
        && outcome is Ok
}

/// What a developer is called for after a series of events, if one is: that no rule
/// matches, or the error that the recovery has ended with.
pub open spec fn alert_for(
    rules: Seq<Rule>,
    incident: Seq<char>,
    events: Seq<IncidentEvent>,
) -> AlertView {
    match best_index(scores(rules, incident)) {
        Some(best) => failure_alert(
            incident,
            rules[best].id@,
            turn_after(rules[best], recovery_events(events)).next->Ended_0->Err_0,
        ),
        None => unknown_alert(incident),
    }
}

/// An incident cannot be resolved by a rule: none matches, or the recovery by the
/// one that fits best has failed.
pub open spec fn needs_developer(
    rules: Seq<Rule>,
    incident: Seq<char>,
    events: Seq<IncidentEvent>,
) -> bool {
    best_index(scores(rules, incident)) matches Some(best) ==> has_failed(rules[best], events)
}

/// Where an incident is after a series of events, in terms of its recovery and of
/// its call for a developer.
pub open spec fn incident_progress(
    paid: bool,
    rules: Seq<Rule>,
    incident: Seq<char>,
    events: Seq<IncidentEvent>,
) -> bool {
    let repairs = recovery_events(events);
    let calls = escalation_events(events);
    let alert = alert_for(rules, incident, events);
    &&& match best_index(scores(rules, incident)) {
        Some(best) => is_history(rules[best], repairs),
        None => repairs.len() == 0,
    }
    &&& match incident_turn_after(paid, rules, incident, events).next {
        IncidentNextView::Await {
            stage: IncidentStageView::Recovering { incident: given, rule, stage },
            request,
        } => {
            &&& best_index(scores(rules, incident)) matches Some(best)
            &&& given == incident
            &&& rule == rules[best]
            &&& request matches IncidentRequestView::Recovery(request)
            &&& turn_after(rule, repairs).next == RecoveryNextView::Await { stage, request }
            &&& calls.len() == 0
            &&& events.len() == repairs.len()
        },
        IncidentNextView::Await { stage: IncidentStageView::Timing, request } => {
            &&& best_index(scores(rules, incident)) matches Some(best)
            &&& request is Clock
            &&& has_succeeded(rules[best], events)
            &&& calls.len() == 0
            &&& events.len() == repairs.len()
        },
        IncidentNextView::Await { stage: IncidentStageView::Escalating { stage }, request } => {
            &&& paid
            &&& needs_developer(rules, incident, events)
            &&& request matches IncidentRequestView::Escalation(request)
            &&& is_escalation_history(alert, calls)
            &&& escalation_turn_after(alert, calls).next == EscalationNextView::Await {
                stage,
                request,
            }
            &&& events.len() == repairs.len() + calls.len()
        },
        IncidentNextView::Finished => if needs_developer(rules, incident, events) {
            &&& events.len() == repairs.len() + calls.len()
            &&& if paid {
                &&& is_escalation_history(alert, calls)
                &&& escalation_turn_after(alert, calls).next is Finished
            } else {
                calls.len() == 0
            }
        } else {
            &&& best_index(scores(rules, incident)) matches Some(best)
            &&& has_succeeded(rules[best], events)
            &&& calls.len() == 0
            &&& events.len() == repairs.len() + 1
            &&& events.last() is Elapsed
        },
    }
}

proof fn lemma_incident_progress(
    paid: bool,
    rules: Seq<Rule>,
    incident: Seq<char>,
    events: Seq<IncidentEvent>,
)
    requires
        is_incident_history(paid, rules, incident, events),
    ensures
        incident_progress(paid, rules, incident, events),
    decreases events.len(),
{
    if events.len() > 0 {
        let before = events.drop_last();
        lemma_incident_progress(paid, rules, incident, before);
        match events.last() {
            IncidentEvent::Recovery(event) => {
                assert(recovery_events(events).drop_last() =~= recovery_events(before));
            },
            IncidentEvent::Escalation(event) => {
                assert(escalation_events(events).drop_last() =~= escalation_events(before));
            },
            IncidentEvent::Elapsed { .. } => {},
        }
    }
}

/// The stages that an incident comes to are all well-formed.
pub proof fn law_incident_stages_are_well_formed(
    paid: bool,
    rules: Seq<Rule>,
    incident: Seq<char>,
    stage: IncidentStageView,
    event: IncidentEvent,
)
    requires
        stage.well_formed(),
        stage.awaits(event),
    ensures
        first_incident_turn(paid, rules, incident).next matches IncidentNextView::Await {
            stage,
            ..
        } ==> stage.well_formed(),
        next_incident_turn(paid, stage, event).next matches IncidentNextView::Await { stage, .. }
            ==> stage.well_formed(),
{
}

/// In every turn that waits, the request goes with the stage, and the events that
/// the stage waits for are exactly the answers that the request needs.
pub proof fn law_incident_awaits_what_it_asks_for(
    paid: bool,
    rules: Seq<Rule>,
    incident: Seq<char>,
    stage: IncidentStageView,
    event: IncidentEvent,
)
    ensures
        first_incident_turn(paid, rules, incident).next matches IncidentNextView::Await {
            stage,
            request,
        } ==> {
            &&& incident_request_fits(stage, request)
            &&& forall|answer: IncidentEvent| #[trigger]
                stage.awaits(answer) == request.answered_by(answer)
        },
        next_incident_turn(paid, stage, event).next matches IncidentNextView::Await {
            stage,
            request,
        } ==> {
            &&& incident_request_fits(stage, request)
            &&& forall|answer: IncidentEvent| #[trigger]
                stage.awaits(answer) == request.answered_by(answer)
        },
{
}

/// An incident ends: no series of events is longer than the recovery and the call
/// for a developer at their longest.
pub proof fn law_incident_ends(
    paid: bool,
    rules: Seq<Rule>,
    incident: Seq<char>,
    events: Seq<IncidentEvent>,
)
    requires
        is_incident_history(paid, rules, incident, events),
    ensures
        events.len() <= longest_history() + 3,
        events.len() == longest_history() + 3 ==> incident_turn_after(
            paid,
            rules,
            incident,
            events,
        ).next is Finished,
{
    lemma_incident_progress(paid, rules, incident, events);
    let alert = alert_for(rules, incident, events);
    if let Some(best) = best_index(scores(rules, incident)) {
        law_recovery_ends(rules[best], recovery_events(events));
    }
    if is_escalation_history(alert, escalation_events(events)) {
        law_escalation_ends(alert, escalation_events(events));
    }
}

/// Where no rule matches, nothing is run to repair anything: if that is paid for,
/// the incident is nothing but the call for a developer, and otherwise it is over
/// at once.
pub proof fn law_unknown_incident_goes_to_a_developer(
    paid: bool,
    rules: Seq<Rule>,
    incident: Seq<char>,
    events: Seq<IncidentEvent>,
)
    requires
        best_index(scores(rules, incident)) is None,
        is_incident_history(paid, rules, incident, events),
    ensures
        !paid ==> events.len() == 0 && incident_turn_after(paid, rules, incident, events).next
            is Finished,
        paid ==> {
            let calls = escalation_events(events);
            &&& events.len() == calls.len()
            &&& is_escalation_history(unknown_alert(incident), calls)
            &&& incident_turn_after(paid, rules, incident, events).next == escalating_turn(
                seq![],
                escalation_turn_after(unknown_alert(incident), calls),
            ).next
        },
{
    lemma_incident_progress(paid, rules, incident, events);
}

/// An incident that a rule matches and that is over was resolved exactly if a
/// check found all well. Otherwise a developer was called, from the first request
/// to the line that tells how it went, for exactly this incident, rule and error;
/// without payment none was.
pub proof fn law_incident_is_resolved_or_escalated(
    paid: bool,
    rules: Seq<Rule>,
    incident: Seq<char>,
    best: int,
    events: Seq<IncidentEvent>,
)
    requires
        best_index(scores(rules, incident)) == Some(best),
        is_incident_history(paid, rules, incident, events),
        incident_turn_after(paid, rules, incident, events).next is Finished,
    ensures
        (events.len() > 0 && events.last() is Elapsed) <==> exists|i: int|
            0 <= i < recovery_events(events).len() && #[trigger] found_healthy(
                rules[best],
                recovery_events(events)[i],
            ),
        (events.len() > 0 && events.last() is Elapsed) || !paid ==> escalation_events(events).len()
            == 0,
        !(events.len() > 0 && events.last() is Elapsed) && paid ==> {
            let alert = alert_for(rules, incident, events);
            &&& is_escalation_history(alert, escalation_events(events))
            &&& escalation_turn_after(alert, escalation_events(events)).next is Finished
        },
{
    lemma_incident_progress(paid, rules, incident, events);
    law_recovery_succeeds_with_a_healthy_check(rules[best], recovery_events(events));
    if events.len() > 0 && events.last() is Elapsed {
        lemma_parts_are_no_longer(events.drop_last());
    }
}

/// The events of the recovery and those of the call are together no more than the
/// events of the series.
proof fn lemma_parts_are_no_longer(events: Seq<IncidentEvent>)
    ensures
        recovery_events(events).len() + escalation_events(events).len() <= events.len(),
    decreases events.len(),
{
    if events.len() > 0 {
        lemma_parts_are_no_longer(events.drop_last());
    }
}

/// A developer is mailed at most once: whatever the answer to the mail is, the
/// incident is over with it.
pub proof fn law_developer_is_mailed_once(
    paid: bool,
    rules: Seq<Rule>,
    incident: Seq<char>,
    events: Seq<IncidentEvent>,
    sent: AlertRequestView,
    answer: IncidentEvent,
)
    requires
        is_incident_history(paid, rules, incident, events),
        incident_turn_after(paid, rules, incident, events).next matches IncidentNextView::Await {
            request: IncidentRequestView::Escalation(EscalationRequestView::Send(request)),
            ..
        } && request == sent,
        is_incident_history(paid, rules, incident, events.push(answer)),
    ensures
        paid,
        incident_turn_after(paid, rules, incident, events.push(answer)).next is Finished,
{
    assert(events.push(answer).drop_last() =~= events);
    lemma_incident_progress(paid, rules, incident, events);
}

/// The mail for an incident tells that incident. It is sent with the settings and
/// the host that were answered, and with the reason: that no rule matches, or the
/// rule that fits best and the error that its recovery has ended with.
pub proof fn law_mail_tells_of_its_incident(
    paid: bool,
    rules: Seq<Rule>,
    incident: Seq<char>,
    events: Seq<IncidentEvent>,
    sent: AlertRequestView,
)
    requires
        is_incident_history(paid, rules, incident, events),
        incident_turn_after(paid, rules, incident, events).next matches IncidentNextView::Await {
            request: IncidentRequestView::Escalation(EscalationRequestView::Send(request)),
            ..
        } && request == sent,
    ensures
        ({
            let calls = escalation_events(events);
            let alert = alert_for(rules, incident, events);
            let name = host(
                calls[0]->Variables_0.host,
                if calls.len() == 2 {
                    calls[1]->Hostname_0
                } else {
                    None
                },
            );
            &&& needs_developer(rules, incident, events)
            &&& settings(calls[0]->Variables_0) is Ok
            &&& sent == mail(settings(calls[0]->Variables_0)->Ok_0, name, alert)
            &&& alert.incident == incident
            &&& is_substring(incident, mail_body(name, alert))
            &&& is_substring(alert.reason, mail_body(name, alert))
        }),
{
    lemma_incident_progress(paid, rules, incident, events);
    let calls = escalation_events(events);
    let alert = alert_for(rules, incident, events);
    let name = host(
        calls[0]->Variables_0.host,
        if calls.len() == 2 {
            calls[1]->Hostname_0
        } else {
            None
        },
    );
    law_only_the_configured_mail_is_sent(alert, calls, sent);
    law_mail_tells_what_happened(name, alert);
}

/// Where the rule that fits best would restart Aegira itself, nothing is run,
/// and a developer is called at once with the reason.
pub proof fn law_self_restart_is_escalated(
    rules: Seq<Rule>,
    incident: Seq<char>,
    best: int,
    service: String,
)
    requires
        best_index(scores(rules, incident)) == Some(best),
        rules[best].remediation == (Remediation::ServiceRestart { service }),
        names_aegira(service@),
    ensures
        first_incident_turn(true, rules, incident).next == (IncidentNextView::Await {
            stage: IncidentStageView::Escalating {
                stage: EscalationStageView::Configuring {
                    alert: failure_alert(incident, rules[best].id@, refusal()),
                },
            },
            request: IncidentRequestView::Escalation(EscalationRequestView::ReadVariables),
        }),
{
}

/// Every incident opens with a line of its own and with the incident as it is. The
/// rule that fits best is told of with its score, and its recovery starts; where
/// there is none, that is told, and a developer is called for the incident as it is,
/// or without payment the incident is over with a note.
pub proof fn law_incident_opens_with_its_line(paid: bool, rules: Seq<Rule>, incident: Seq<char>)
    ensures
        ({
            let turn = first_incident_turn(paid, rules, incident);
            &&& turn.log.len() >= 4
            &&& turn.log[0] == "================ INCIDENT ================"@
            &&& turn.log[1] == incident
            &&& match best_index(scores(rules, incident)) {
                Some(best) => {
                    let start = first_turn(rules[best]);
                    &&& turn.log[2] == "[MATCH] Confidence score: "@ + decimal(
                        score(rules[best], incident) as nat,
                    )
                    &&& turn.log.subrange(3, 3 + start.log.len() as int) == start.log
                    &&& start.next matches RecoveryNextView::Await { stage, request } ==> {
                        &&& turn.log.len() == 3 + start.log.len()
                        &&& turn.next == (IncidentNextView::Await {
                            stage: IncidentStageView::Recovering {
                                incident,
                                rule: rules[best],
                                stage,
                            },
                            request: IncidentRequestView::Recovery(request),
                        })
                    }
                    &&& start.next matches RecoveryNextView::Ended(Err(error)) ==> ends_in_failure(
                        paid,
                        incident,
                        rules[best].id@,
                        error,
                        turn.log.skip(3 + start.log.len() as int),
                        turn.next,
                    )
                },
                None => {
                    &&& turn.log[2] == "[MATCH] No known remediation rule found"@
                    &&& turn.log.len() == 4
                    &&& if paid {
                        &&& turn.log[3] == "[ESCALATION] Automated recovery failed"@
                        &&& turn.next == (IncidentNextView::Await {
                            stage: IncidentStageView::Escalating {
                                stage: EscalationStageView::Configuring {
                                    alert: AlertView { incident, reason: "Unknown incident"@ },
                                },
                            },
                            request: IncidentRequestView::Escalation(
                                EscalationRequestView::ReadVariables,
                            ),
                        })
                    } else {
                        &&& turn.log[3] == "[FREE] Unknown incident. No automated remediation."@
                        &&& turn.next is Finished
                    }
                },
            }
        }),
{
    let turn = first_incident_turn(paid, rules, incident);
    if let Some(best) = best_index(scores(rules, incident)) {
        let start = first_turn(rules[best]);
        crate::recovery::law_recovery_starts_with_the_named_restart(rules[best]);
        assert(turn.log.subrange(3, 3 + start.log.len() as int) =~= start.log);
        if let RecoveryNextView::Ended(Err(error)) = start.next {
            law_failure_is_told_behind_the_lines_so_far(
                paid,
                incident,
                opening(incident).push(
                    "[MATCH] Confidence score: "@ + decimal(score(rules[best], incident) as nat),
                ) + start.log,
                rules[best].id@,
                error,
            );
            assert(opening(incident).len() == 2);
        }
    }
}

/// These lines and this continuation tell of a recovery that has failed with an
/// error: a developer is called for the incident as it is, with the rule and the
/// error as the reason, or without payment the incident is over with a note.
pub open spec fn ends_in_failure(
    paid: bool,
    incident: Seq<char>,
    rule_id: Seq<char>,
    error: Seq<char>,
    lines: Seq<Seq<char>>,
    next: IncidentNextView,
) -> bool {
    &&& lines.len() == 2
    &&& lines[0] == "[RECOVERY FAILED] "@ + error
    &&& if paid {
        &&& lines[1] == "[ESCALATION] Automated recovery failed"@
        &&& next == (IncidentNextView::Await {
            stage: IncidentStageView::Escalating {
                stage: EscalationStageView::Configuring {
                    alert: AlertView {
                        incident,
                        reason: "Rule '"@ + rule_id + "' failed: "@ + error,
                    },
                },
            },
            request: IncidentRequestView::Escalation(EscalationRequestView::ReadVariables),
        })
    } else {
        &&& lines[1] == "[FREE] Recovery failed. Developer intervention required."@
        &&& next is Finished
    }
}

/// A recovery that has failed is told of behind the lines so far, which all stay.
pub proof fn law_failure_is_told_behind_the_lines_so_far(
    paid: bool,
    incident: Seq<char>,
    log: Seq<Seq<char>>,
    rule_id: Seq<char>,
    error: Seq<char>,
)
    ensures
        ({
            let turn = failed_turn(paid, incident, log, rule_id, error);
            &&& turn.log.take(log.len() as int) == log
            &&& ends_in_failure(
                paid,
                incident,
                rule_id,
                error,
                turn.log.skip(log.len() as int),
                turn.next,
            )
        }),
{
    let turn = failed_turn(paid, incident, log, rule_id, error);
    assert(turn.log.take(log.len() as int) =~= log);
}

/// That no rule matches is told behind the lines so far, which all stay. A developer
/// is called for the incident as it is, or without payment it is over with a note.
pub proof fn law_unknown_incident_is_told_behind_the_lines_so_far(
    paid: bool,
    incident: Seq<char>,
    log: Seq<Seq<char>>,
)
    ensures
        ({
            let turn = unknown_turn(paid, incident, log);
            &&& turn.log.take(log.len() as int) == log
            &&& turn.log.skip(log.len() as int) == seq![
                "[MATCH] No known remediation rule found"@,
                if paid {
                    "[ESCALATION] Automated recovery failed"@
                } else {
                    "[FREE] Unknown incident. No automated remediation."@
                },
            ]
            &&& turn.next == if paid {
                IncidentNextView::Await {
                    stage: IncidentStageView::Escalating {
                        stage: EscalationStageView::Configuring {
                            alert: AlertView { incident, reason: "Unknown incident"@ },
                        },
                    },
                    request: IncidentRequestView::Escalation(EscalationRequestView::ReadVariables),
                }
            } else {
                IncidentNextView::Finished
            }
        }),
{
    let turn = unknown_turn(paid, incident, log);
    assert(turn.log.take(log.len() as int) =~= log);
    let told = turn.log.skip(log.len() as int);
    assert(told =~= seq![told[0], told[1]]);
}

/// An incident follows its recovery: it hands its lines and its requests on as they
/// are, for the same incident and the same rule. A recovery that has succeeded is
/// followed by the question for the time, and one that has failed by the call for a
/// developer with the incident, the rule and the error.
pub proof fn law_incident_follows_its_recovery(
    paid: bool,
    incident: Seq<char>,
    rule: Rule,
    stage: RecoveryStage,
    event: RecoveryEvent,
)
    ensures
        ({
            let turn = next_incident_turn(
                paid,
                IncidentStageView::Recovering { incident, rule, stage },
                IncidentEvent::Recovery(event),
            );
            let step = next_turn(rule, stage, event);
            &&& turn.log.take(step.log.len() as int) == step.log
            &&& match step.next {
                RecoveryNextView::Await { stage, request } => {
                    &&& turn.log.len() == step.log.len()
                    &&& turn.next == (IncidentNextView::Await {
                        stage: IncidentStageView::Recovering { incident, rule, stage },
                        request: IncidentRequestView::Recovery(request),
                    })
                },
                RecoveryNextView::Ended(Ok(())) => {
                    &&& turn.log.len() == step.log.len()
                    &&& turn.next == (IncidentNextView::Await {
                        stage: IncidentStageView::Timing,
                        request: IncidentRequestView::Clock,
                    })
                },
                RecoveryNextView::Ended(Err(error)) => ends_in_failure(
                    paid,
                    incident,
                    rule.id@,
                    error,
                    turn.log.skip(step.log.len() as int),
                    turn.next,
                ),
            }
        }),
{
    let step = next_turn(rule, stage, event);
    assert(seq![] + step.log =~= step.log);
    assert(step.log.take(step.log.len() as int) =~= step.log);
    if let RecoveryNextView::Ended(Err(error)) = step.next {
        law_failure_is_told_behind_the_lines_so_far(paid, incident, step.log, rule.id@, error);
    }
}

/// An incident that was resolved is over with one line that tells the time that was
/// answered, and the call for a developer is followed in its lines, its requests and
/// its end.
pub proof fn law_incident_ends_with_its_time_or_its_call(
    paid: bool,
    secs: u64,
    nanos: u32,
    stage: EscalationStageView,
    event: EscalationEvent,
)
    ensures
        ({
            let turn = next_incident_turn(
                paid,
                IncidentStageView::Timing,
                IncidentEvent::Elapsed { secs, nanos },
            );
            &&& turn.next is Finished
            &&& turn.log == seq![
                "[RESOLVED] Incident automatically recovered in "@ + duration_text(secs, nanos),
            ]
        }),
        ({
            let turn = next_incident_turn(
                paid,
                IncidentStageView::Escalating { stage },
                IncidentEvent::Escalation(event),
            );
            let step = next_escalation_turn(stage, event);
            &&& turn.log == step.log
            &&& turn.next == match step.next {
                EscalationNextView::Await { stage, request } => IncidentNextView::Await {
                    stage: IncidentStageView::Escalating { stage },
                    request: IncidentRequestView::Escalation(request),
                },
                EscalationNextView::Finished => IncidentNextView::Finished,
            }
        }),
{
    let step = next_escalation_turn(stage, event);
    assert(seq![] + step.log =~= step.log);
}

/// What a developer is called for is the incident as it is, with the reason that no
/// rule matches, or with the rule that fits best and the error of its recovery.
pub proof fn law_alert_is_that_of_the_incident(
    rules: Seq<Rule>,
    incident: Seq<char>,
    events: Seq<IncidentEvent>,
)
    ensures
        alert_for(rules, incident, events).incident == incident,
        best_index(scores(rules, incident)) is None ==> alert_for(rules, incident, events).reason
            == "Unknown incident"@,
        best_index(scores(rules, incident)) matches Some(best) ==> (turn_after(
            rules[best],
            recovery_events(events),
        ).next matches RecoveryNextView::Ended(Err(error)) ==> alert_for(
            rules,
            incident,
            events,
        ).reason == "Rule '"@ + rules[best].id@ + "' failed: "@ + error),
{
}

/// What each stage of an incident waits for, and which stages can come.
pub proof fn law_incident_stage_waits_for_its_event(stage: IncidentStageView, event: IncidentEvent)
    ensures
        stage matches IncidentStageView::Recovering { stage: inner, .. } ==> {
            &&& stage.well_formed() <==> inner.well_formed()
            &&& stage.awaits(event) <==> (event matches IncidentEvent::Recovery(given)
                && inner.awaits(given))
        },
        stage is Timing ==> stage.well_formed() && (stage.awaits(event) <==> (
        event matches IncidentEvent::Elapsed { nanos, .. } && nanos < 1_000_000_000)),
        stage matches IncidentStageView::Escalating { stage: inner } ==> {
            &&& stage.well_formed()
            &&& stage.awaits(event) <==> (event matches IncidentEvent::Escalation(given)
                && inner.awaits(given))
        },
{
}

/// A turn of an incident stands for what it holds.
pub proof fn law_incident_turn_stands_for_what_it_holds(turn: IncidentTurn)
    ensures
        turn@.log == texts(turn.log@),
        turn.next is Finished ==> turn@.next is Finished,
        turn.next matches IncidentNext::Await { stage, request } ==> {
            &&& turn@.next == IncidentNextView::Await { stage: stage@, request: request@ }
            &&& stage matches IncidentStage::Recovering { incident, rule, stage: inner } ==> stage@
                == (IncidentStageView::Recovering { incident: incident@, rule: *rule, stage: inner })
            &&& stage is Timing ==> stage@ is Timing
            &&& stage matches IncidentStage::Escalating { stage: inner } ==> stage@
                == (IncidentStageView::Escalating { stage: inner@ })
            &&& request matches IncidentRequest::Recovery(inner) ==> request@
                == IncidentRequestView::Recovery(inner@)
            &&& request is Clock ==> request@ is Clock
            &&& request matches IncidentRequest::Escalation(inner) ==> request@
                == IncidentRequestView::Escalation(inner@)
        },
{
}

/// Where a developer can be called, one is: Aegira runs as paid for.
pub proof fn law_developers_are_paid_for()
    ensures
        PAID_MODE,
{
}

} // verus!
