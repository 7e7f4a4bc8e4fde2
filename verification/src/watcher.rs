//! The watch over the monitored log: what is read of it, and which of its lines
//! are incidents.
use vstd::pervasive::unreached;
use vstd::prelude::*;

use crate::text::{contains, decimal_text, trimmed};
#[allow(unused_imports)]
use crate::text::{
    all_white,
    decimal,
    is_substring,
    law_substring_is_read_letter_by_letter,
    law_trim_gives_what_stands_between,
    lemma_part_is_substring,
    reads_at,
    texts,
    trim,
    white_space,
};

verus! {

/// The log that is watched.
pub const LOG_FILE_PATH: &'static str = "/home/pikachu/aegira/system.log";

/// The log that Aegira writes.
pub const INCIDENT_LOG_PATH: &'static str = "/home/pikachu/aegira/incident.log";

/// How many seconds pass between two looks at the log.
pub const POLL_INTERVAL_SECS: u64 = 2;

/// What the watch is waiting for: the log to be opened at its end for the first
/// time, the size of the log, the log to be opened at the position, a line, the
/// end of the work on an incident, or the end of a pause; or it has stopped.
#[derive(Debug, Clone, Copy, PartialEq, Eq, Structural)]
pub enum WatchPhase {
    Opening,
    Measuring,
    Reopening,
    Reading,
    Handling,
    Sleeping,
    Stopped,
}

/// The watch: how many bytes of the log have been dealt with, and what it is
/// waiting for.
#[derive(Debug, Clone, Copy, PartialEq, Eq, Structural)]
pub struct Watcher {
    pub position: u64,
    pub phase: WatchPhase,
}

/// What the watch asks for.
#[derive(Debug)]
pub enum WatchRequest {
    OpenAtEnd,
    Measure,
    OpenAt { position: u64 },
    ReadLine,
    Handle { incident: String },
    Sleep { secs: u64 },
    Stop,
}

/// What a `WatchRequest` stands for.
pub enum WatchRequestView {
    OpenAtEnd,
    Measure,
    OpenAt { position: u64 },
    ReadLine,
    Handle { incident: Seq<char> },
    Sleep { secs: u64 },
    Stop,
}

impl View for WatchRequest {
    type V = WatchRequestView;

    open spec fn view(&self) -> WatchRequestView {
        match self {
            WatchRequest::OpenAtEnd => WatchRequestView::OpenAtEnd,
            WatchRequest::Measure => WatchRequestView::Measure,
            WatchRequest::OpenAt { position } => WatchRequestView::OpenAt { position: *position },
            WatchRequest::ReadLine => WatchRequestView::ReadLine,
            WatchRequest::Handle { incident } => WatchRequestView::Handle { incident: incident@ },
            WatchRequest::Sleep { secs } => WatchRequestView::Sleep { secs: *secs },
            WatchRequest::Stop => WatchRequestView::Stop,
        }
    }
}

/// The answer to a request. `AtEnd` tells the position that the log was opened
/// at, `Open` that it was opened at the position asked for; `Line` is a line with
/// its length in bytes, which is zero at the end of the log.
#[derive(Debug)]
pub enum WatchEvent {
    AtEnd { position: u64 },
    Open,
    NotOpened { error: String },
    NotSought { error: String },
    Measured { size: u64 },
    NotMeasured { error: String },
    Line { bytes: u64, text: String },
    NotRead { error: String },
    Handled,
    Slept,
}

/// One turn of the watch: what has become of it, the lines that the incident log
/// gets, and what it asks for after that.
#[derive(Debug)]
pub struct WatchTurn {
    pub watcher: Watcher,
    pub log: Vec<String>,
    pub request: WatchRequest,
}

/// What a `WatchTurn` stands for.
pub struct WatchTurnView {
    pub watcher: Watcher,
    pub log: Seq<Seq<char>>,
    pub request: WatchRequestView,
}

impl View for WatchTurn {
    type V = WatchTurnView;

    open spec fn view(&self) -> WatchTurnView {
        WatchTurnView { watcher: self.watcher, log: texts(self.log@), request: self.request@ }
    }
}

impl Watcher {
    /// An event is the kind of answer that the watch is waiting for; what has
    /// been read can be counted.
    pub open spec fn awaits(self, event: WatchEvent) -> bool {
        match self.phase {
            WatchPhase::Opening => event is AtEnd || event is NotOpened || event is NotSought,
            WatchPhase::Measuring => event is Measured || event is NotMeasured,
            WatchPhase::Reopening => event is Open || event is NotOpened || event is NotSought,
            WatchPhase::Reading => event is NotRead || (event matches WatchEvent::Line {
                bytes,
                ..
            } && self.position + bytes <= u64::MAX),
            WatchPhase::Handling => event is Handled,
            WatchPhase::Sleeping => event is Slept,
            WatchPhase::Stopped => false,
        }
    }
}

impl WatchRequestView {
    /// An event is the kind of answer that this request needs, when so many bytes
    /// of the log have been dealt with; what has been read can be counted.
    pub open spec fn answered_by(self, position: u64, event: WatchEvent) -> bool {
        match self {
            WatchRequestView::OpenAtEnd => event is AtEnd || event is NotOpened || event
                is NotSought,
            WatchRequestView::Measure => event is Measured || event is NotMeasured,
            WatchRequestView::OpenAt { .. } => event is Open || event is NotOpened || event
                is NotSought,
            WatchRequestView::ReadLine => event is NotRead || (event matches WatchEvent::Line {
                bytes,
                ..
            } && position + bytes <= u64::MAX),
            WatchRequestView::Handle { .. } => event is Handled,
            WatchRequestView::Sleep { .. } => event is Slept,
            WatchRequestView::Stop => false,
        }
    }
}

/// A request goes with what the watch is waiting for.
pub open spec fn watch_request_fits(watcher: Watcher, request: WatchRequestView) -> bool {
    &&& request is OpenAtEnd <==> watcher.phase is Opening
    &&& request is Measure <==> watcher.phase is Measuring
    &&& request is OpenAt <==> watcher.phase is Reopening
    &&& request is ReadLine <==> watcher.phase is Reading
    &&& request is Handle <==> watcher.phase is Handling
    &&& request is Sleep <==> watcher.phase is Sleeping
    &&& request is Stop <==> watcher.phase is Stopped
    &&& request matches WatchRequestView::OpenAt { position } ==> position == watcher.position
}

/// A line of the log tells of an incident.
pub open spec fn is_incident(line: Seq<char>) -> bool {
    is_substring("[ERROR]"@, line) || is_substring("[CRITICAL]"@, line)
}

/// The turn that asks for something.
pub open spec fn watch_turn(
    position: u64,
    phase: WatchPhase,
    log: Seq<Seq<char>>,
    request: WatchRequestView,
) -> WatchTurnView {
    WatchTurnView { watcher: Watcher { position, phase }, log, request }
}

/// The turn that starts a pause.
pub open spec fn sleep_turn(position: u64, log: Seq<Seq<char>>) -> WatchTurnView {
    watch_turn(
        position,
        WatchPhase::Sleeping,
        log,
        WatchRequestView::Sleep { secs: POLL_INTERVAL_SECS },
    )
}

/// The turn that ends the watch.
pub open spec fn stop_turn(position: u64, log: Seq<Seq<char>>) -> WatchTurnView {
    watch_turn(position, WatchPhase::Stopped, log, WatchRequestView::Stop)
}

/// The turn that asks for the next line.
pub open spec fn read_turn(position: u64) -> WatchTurnView {
    watch_turn(position, WatchPhase::Reading, seq![], WatchRequestView::ReadLine)
}

/// The turn that asks for the size of the log.
pub open spec fn measure_turn(position: u64, log: Seq<Seq<char>>) -> WatchTurnView {
    watch_turn(position, WatchPhase::Measuring, log, WatchRequestView::Measure)
}

/// The turn that follows the size of the log. A log that has become shorter is
/// read from its start.
pub open spec fn measured_turn(position: u64, size: u64) -> WatchTurnView {
    let log = if size < position {
        seq!["[INFO] Log rotation/truncation detected"@]
    } else {
        seq![]
    };
    let from = if size < position {
        0u64
    } else {
        position
    };
    if size == from {
        sleep_turn(from, log)
    } else {
        watch_turn(from, WatchPhase::Reopening, log, WatchRequestView::OpenAt { position: from })
    }
}

/// The turn that follows a line.
pub open spec fn line_turn(position: u64, bytes: u64, text: Seq<char>) -> WatchTurnView {
    if bytes == 0 {
        sleep_turn(position, seq![])
    } else if is_incident(trim(text)) {
        watch_turn(
            (position + bytes) as u64,
            WatchPhase::Handling,
            seq!["[WATCHER] Incident detected: "@ + trim(text)],
            WatchRequestView::Handle { incident: trim(text) },
        )
    } else {
        read_turn((position + bytes) as u64)
    }
}

/// The first turn of the watch.
pub open spec fn first_watch_turn() -> WatchTurnView {
    watch_turn(0, WatchPhase::Opening, seq![], WatchRequestView::OpenAtEnd)
}

/// The turn of the watch that follows an event.
pub open spec fn next_watch_turn(watcher: Watcher, event: WatchEvent) -> WatchTurnView
    recommends
        watcher.awaits(event),
{
    let position = watcher.position;
    match (watcher.phase, event) {
        (WatchPhase::Opening, WatchEvent::AtEnd { position }) => measure_turn(
            position,
            seq!["[INFO] Monitoring new log entries..."@],
        ),
        (WatchPhase::Opening, WatchEvent::NotOpened { error }) => stop_turn(
            position,
            seq!["[FATAL] Failed to open monitored log: "@ + error@],
        ),
        (WatchPhase::Opening, WatchEvent::NotSought { error }) => stop_turn(
            position,
            seq!["[FATAL] Failed to seek log: "@ + error@],
        ),
        (WatchPhase::Measuring, WatchEvent::Measured { size }) => measured_turn(position, size),
        (WatchPhase::Measuring, WatchEvent::NotMeasured { error }) => sleep_turn(
            position,
            seq!["[ERROR] Failed to stat log: "@ + error@],
        ),
        (WatchPhase::Reopening, WatchEvent::Open) => read_turn(position),
        (WatchPhase::Reopening, WatchEvent::NotOpened { error }) => sleep_turn(
            position,
            seq!["[ERROR] Failed to open log: "@ + error@],
        ),
        (WatchPhase::Reopening, WatchEvent::NotSought { error }) => sleep_turn(
            position,
            seq!["[ERROR] Failed to seek log: "@ + error@],
        ),
        (WatchPhase::Reading, WatchEvent::Line { bytes, text }) => line_turn(
            position,
            bytes,
            text@,
        ),
        (WatchPhase::Reading, WatchEvent::NotRead { error }) => sleep_turn(
            position,
            seq!["[ERROR] Failed reading log: "@ + error@],
        ),
        (WatchPhase::Handling, WatchEvent::Handled) => read_turn(position),
        (WatchPhase::Sleeping, WatchEvent::Slept) => measure_turn(position, seq![]),
        _ => stop_turn(position, seq![]),
    }
}

/// The lines that the incident log gets when Aegira starts.
pub fn start_lines(paid: bool) -> (lines: Vec<String>)
    ensures
        texts(lines@) == seq![
            "[INFO] Aegira Local Recovery Engine Started"@,
            "[INFO] Mode: "@ + if paid {
                "PAID"@
            } else {
                "FREE"@
            },
        ],
{
    let mode = if paid {
        "PAID"
    } else {
        "FREE"
    };
    let lines: Vec<String> = vec![
        "[INFO] Aegira Local Recovery Engine Started".to_owned(),
        "[INFO] Mode: ".to_owned().concat(mode),
    ];
    assert(texts(lines@) =~= seq![
        "[INFO] Aegira Local Recovery Engine Started"@,
        "[INFO] Mode: "@ + mode@,
    ]);
    lines
}

/// The line that the incident log gets when so many rules have been loaded.
pub fn rules_line(count: u64) -> (line: String)
    ensures
        line@ == if count == 0 {
            "[WARNING] No remediation rules loaded"@
        } else {
            "[INFO] "@ + decimal(count as nat) + " remediation rules ready"@
        },
{
    if count == 0 {
        "[WARNING] No remediation rules loaded".to_owned()
    } else {
        "[INFO] ".to_owned().concat(decimal_text(count).as_str()).concat(" remediation rules ready")
    }
}

/// Tells whether a line of the log tells of an incident.
pub fn tells_of_incident(line: &str) -> (tells: bool)
    ensures
        tells == is_incident(line@),
        tells <==> exists|at: int|
            #![auto]
            reads_at(line@, at, "[ERROR]"@) || reads_at(line@, at, "[CRITICAL]"@),
{
    proof {
        law_mark_counts_wherever_it_stands(seq![], seq![], line@);
    }
    contains(line, "[ERROR]") || contains(line, "[CRITICAL]")
}

/// Makes a turn with no line for the incident log.
fn quiet(position: u64, phase: WatchPhase, request: WatchRequest) -> (turn: WatchTurn)
    ensures
        turn@ == watch_turn(position, phase, seq![], request@),
{
    let log: Vec<String> = Vec::new();
    assert(texts(log@) =~= seq![]);
    WatchTurn { watcher: Watcher { position, phase }, log, request }
}

/// Makes a turn with one line for the incident log.
fn noted(position: u64, phase: WatchPhase, line: String, request: WatchRequest) -> (turn: WatchTurn)
    ensures
        turn@ == watch_turn(position, phase, seq![line@], request@),
{
    let log: Vec<String> = vec![line];
    assert(texts(log@) =~= seq![line@]);
    WatchTurn { watcher: Watcher { position, phase }, log, request }
}

/// Makes a turn that reports a failure and starts a pause.
fn failed(position: u64, message: &str, error: String) -> (turn: WatchTurn)
    ensures
        turn@ == sleep_turn(position, seq![message@ + error@]),
{
    noted(
        position,
        WatchPhase::Sleeping,
        message.to_owned().concat(error.as_str()),
        WatchRequest::Sleep { secs: POLL_INTERVAL_SECS },
    )
}

/// Makes a turn that reports a failure and ends the watch.
fn fatal(position: u64, message: &str, error: String) -> (turn: WatchTurn)
    ensures
        turn@ == stop_turn(position, seq![message@ + error@]),
{
    noted(
        position,
        WatchPhase::Stopped,
        message.to_owned().concat(error.as_str()),
        WatchRequest::Stop,
    )
}

/// Decides about the log when its size is known.
pub fn poll_log(position: u64, size: u64) -> (turn: WatchTurn)
    ensures
        turn@ == measured_turn(position, size),
{
    let mut log: Vec<String> = Vec::new();
    let mut from: u64 = position;
    if size < position {
        log.push("[INFO] Log rotation/truncation detected".to_owned());
        from = 0;
    }
    assert(texts(log@) =~= measured_turn(position, size).log);
    if size == from {
        WatchTurn {
            watcher: Watcher { position: from, phase: WatchPhase::Sleeping },
            log,
            request: WatchRequest::Sleep { secs: POLL_INTERVAL_SECS },
        }
    } else {
        WatchTurn {
            watcher: Watcher { position: from, phase: WatchPhase::Reopening },
            log,
            request: WatchRequest::OpenAt { position: from },
        }
    }
}

/// Decides about a line of the log.
pub fn take_line(position: u64, bytes: u64, text: &str) -> (turn: WatchTurn)
    requires
        position + bytes <= u64::MAX,
    ensures
        turn@ == line_turn(position, bytes, text@),
{
    if bytes == 0 {
        return quiet(
            position,
            WatchPhase::Sleeping,
            WatchRequest::Sleep { secs: POLL_INTERVAL_SECS },
        );
    }
    let line = trimmed(text);
    if tells_of_incident(line) {
        noted(
            position + bytes,
            WatchPhase::Handling,
            "[WATCHER] Incident detected: ".to_owned().concat(line),
            WatchRequest::Handle { incident: line.to_owned() },
        )
    } else {
        quiet(position + bytes, WatchPhase::Reading, WatchRequest::ReadLine)
    }
}

/// Starts the watch.
pub fn start_watch() -> (turn: WatchTurn)
    ensures
        turn@ == first_watch_turn(),
{
    quiet(0, WatchPhase::Opening, WatchRequest::OpenAtEnd)
}

/// Carries the watch on after an event.
pub fn watch_step(watcher: Watcher, event: WatchEvent) -> (turn: WatchTurn)
    requires
        watcher.awaits(event),
    ensures
        turn@ == next_watch_turn(watcher, event),
{
    let position: u64 = watcher.position;
    match (watcher.phase, event) {
        (WatchPhase::Opening, WatchEvent::AtEnd { position: end }) => noted(
            end,
            WatchPhase::Measuring,
            "[INFO] Monitoring new log entries...".to_owned(),
            WatchRequest::Measure,
        ),
        (WatchPhase::Opening, WatchEvent::NotOpened { error }) => fatal(
            position,
            "[FATAL] Failed to open monitored log: ",
            error,
        ),
        (WatchPhase::Opening, WatchEvent::NotSought { error }) => fatal(
            position,
            "[FATAL] Failed to seek log: ",
            error,
        ),
        (WatchPhase::Measuring, WatchEvent::Measured { size }) => poll_log(position, size),
        (WatchPhase::Measuring, WatchEvent::NotMeasured { error }) => failed(
            position,
            "[ERROR] Failed to stat log: ",
            error,
        ),
        (WatchPhase::Reopening, WatchEvent::NotOpened { error }) => failed(
            position,
            "[ERROR] Failed to open log: ",
            error,
        ),
        (WatchPhase::Reopening, WatchEvent::NotSought { error }) => failed(
            position,
            "[ERROR] Failed to seek log: ",
            error,
        ),
        (WatchPhase::Reading, WatchEvent::Line { bytes, text }) => take_line(
            position,
            bytes,
            text.as_str(),
        ),
        (WatchPhase::Reading, WatchEvent::NotRead { error }) => failed(
            position,
            "[ERROR] Failed reading log: ",
            error,
        ),
        (WatchPhase::Reopening, WatchEvent::Open) | (WatchPhase::Handling, WatchEvent::Handled) =>
        quiet(position, WatchPhase::Reading, WatchRequest::ReadLine),
        (WatchPhase::Sleeping, WatchEvent::Slept) => quiet(
            position,
            WatchPhase::Measuring,
            WatchRequest::Measure,
        ),
        _ => unreached(),
    }
}

/// The watch after a series of events.
pub open spec fn watcher_after(start: Watcher, events: Seq<WatchEvent>) -> Watcher
    decreases events.len(),
{
    if events.len() == 0 {
        start
    } else {
        next_watch_turn(watcher_after(start, events.drop_last()), events.last()).watcher
    }
}

/// A series of events can happen to the watch: each of them answers the request
/// that was made before it.
pub open spec fn is_watch_history(start: Watcher, events: Seq<WatchEvent>) -> bool
    decreases events.len(),
{
    events.len() == 0 || {
        &&& is_watch_history(start, events.drop_last())
        &&& watcher_after(start, events.drop_last()).awaits(events.last())
    }
}

/// How many bytes were read in a series of events.
pub open spec fn bytes_read(events: Seq<WatchEvent>) -> int
    decreases events.len(),
{
    if events.len() == 0 {
        0
    } else {
        bytes_read(events.drop_last()) + match events.last() {
            WatchEvent::Line { bytes, .. } => bytes as int,
            _ => 0,
        }
    }
}

/// In a series of events the log is never found shorter than the part of it that
/// has been dealt with, and is not opened at its end again.
pub open spec fn never_shorter(start: Watcher, events: Seq<WatchEvent>) -> bool {
    forall|i: int|
        0 <= i < events.len() ==> match #[trigger] events[i] {
            WatchEvent::Measured { size } => size >= watcher_after(start, events.take(i)).position,
            WatchEvent::AtEnd { .. } => false,
            _ => true,
        }
}

/// In every turn the request goes with what the watch is waiting for, and the
/// events that the watch waits for are exactly the answers that the request
/// needs.
pub proof fn law_watch_awaits_what_it_asks_for(watcher: Watcher, event: WatchEvent)
    ensures
        watch_request_fits(first_watch_turn().watcher, first_watch_turn().request),
        forall|answer: WatchEvent| #[trigger]
            first_watch_turn().watcher.awaits(answer) == first_watch_turn().request.answered_by(
                first_watch_turn().watcher.position,
                answer,
            ),
        watch_request_fits(
            next_watch_turn(watcher, event).watcher,
            next_watch_turn(watcher, event).request,
        ),
        forall|answer: WatchEvent| #[trigger]
            next_watch_turn(watcher, event).watcher.awaits(answer) == next_watch_turn(
                watcher,
                event,
            ).request.answered_by(next_watch_turn(watcher, event).watcher.position, answer),
{
}

/// As long as the log is not found shorter, the position advances by exactly the
/// bytes that are read: nothing else moves it, neither a look at the size of the
/// log nor a failure nor the work on an incident.
pub proof fn law_position_counts_the_bytes_read(start: Watcher, events: Seq<WatchEvent>)
    requires
        is_watch_history(start, events),
        never_shorter(start, events),
    ensures
        watcher_after(start, events).position == start.position + bytes_read(events),
    decreases events.len(),
{
    if events.len() > 0 {
        let before = events.drop_last();
        assert forall|i: int| 0 <= i < before.len() implies match #[trigger] before[i] {
            WatchEvent::Measured { size } => size >= watcher_after(start, before.take(i)).position,
            WatchEvent::AtEnd { .. } => false,
            _ => true,
        } by {
            assert(events[i] == before[i]);
            assert(events.take(i) =~= before.take(i));
        }
        law_position_counts_the_bytes_read(start, before);
        assert(events[events.len() - 1] == events.last());
        assert(events.take(events.len() - 1) =~= before);
    }
}

/// No part of a log that is not found shorter is read twice: a look at its size
/// leads on to the place right behind all that has been read, and where nothing
/// stands behind it, to a pause and to nothing else.
pub proof fn law_nothing_is_read_twice(start: Watcher, events: Seq<WatchEvent>, size: u64)
    requires
        is_watch_history(start, events),
        never_shorter(start, events),
        watcher_after(start, events).phase == WatchPhase::Measuring,
        start.position + bytes_read(events) <= size,
    ensures
        start.position + bytes_read(events) < size ==> next_watch_turn(
            watcher_after(start, events),
            WatchEvent::Measured { size },
        ).request == (WatchRequestView::OpenAt {
            position: (start.position + bytes_read(events)) as u64,
        }),
        start.position + bytes_read(events) == size ==> next_watch_turn(
            watcher_after(start, events),
            WatchEvent::Measured { size },
        ) == sleep_turn(size, seq![]),
{
    law_position_counts_the_bytes_read(start, events);
}

/// A log that has grown is read from where the reading ended; one that has become
/// shorter is read from its start; and one of the same size is left alone.
pub proof fn law_reading_resumes_at_the_position(position: u64, size: u64)
    ensures
        size > position ==> measured_turn(position, size).request == (WatchRequestView::OpenAt {
            position,
        }),
        0 < size < position ==> measured_turn(position, size).request == (
        WatchRequestView::OpenAt { position: 0 }),
        size == position || size == 0 ==> measured_turn(position, size).request is Sleep,
        measured_turn(position, size).watcher.position <= size,
{
}

/// Work on an incident starts exactly with a line that has one of the two marks,
/// and the incident is that line without the white space around it.
pub proof fn law_incidents_are_the_marked_lines(watcher: Watcher, event: WatchEvent)
    requires
        watcher.awaits(event),
    ensures
        next_watch_turn(watcher, event).request is Handle <==> {
            &&& event matches WatchEvent::Line { bytes, text }
            &&& bytes > 0
            &&& is_incident(trim(text@))
        },
        next_watch_turn(watcher, event).request matches WatchRequestView::Handle { incident }
            ==> incident == trim(event->text@),
{
}

/// The incidents that work starts on in a series of events.
pub open spec fn incidents_handled(start: Watcher, events: Seq<WatchEvent>) -> Seq<Seq<char>>
    decreases events.len(),
{
    if events.len() == 0 {
        seq![]
    } else {
        let before = events.drop_last();
        match next_watch_turn(watcher_after(start, before), events.last()).request {
            WatchRequestView::Handle { incident } => incidents_handled(start, before).push(
                incident,
            ),
            _ => incidents_handled(start, before),
        }
    }
}

/// The lines with a mark that are read in a series of events, without the white
/// space around them.
pub open spec fn marked_lines(events: Seq<WatchEvent>) -> Seq<Seq<char>>
    decreases events.len(),
{
    if events.len() == 0 {
        seq![]
    } else {
        match events.last() {
            WatchEvent::Line { bytes, text } => if bytes > 0 && is_incident(trim(text@)) {
                marked_lines(events.drop_last()).push(trim(text@))
            } else {
                marked_lines(events.drop_last())
            },
            _ => marked_lines(events.drop_last()),
        }
    }
}

/// Every line with a mark is worked on once, in the order of the log, and nothing
/// else is.
pub proof fn law_every_marked_line_is_handled_once(start: Watcher, events: Seq<WatchEvent>)
    requires
        is_watch_history(start, events),
    ensures
        incidents_handled(start, events) == marked_lines(events),
    decreases events.len(),
{
    if events.len() > 0 {
        law_every_marked_line_is_handled_once(start, events.drop_last());
    }
}

/// Only a log that cannot be opened at the start ends the watch; after that every
/// failure leads to a pause, and a pause to another look.
pub proof fn law_watch_survives_failures(watcher: Watcher, event: WatchEvent)
    requires
        watcher.awaits(event),
    ensures
        next_watch_turn(watcher, event).request is Stop <==> watcher.phase == WatchPhase::Opening
            && !(event is AtEnd),
        watcher.phase != WatchPhase::Opening && (event is NotOpened || event is NotSought
            || event is NotMeasured || event is NotRead) ==> {
            &&& next_watch_turn(watcher, event).request == (WatchRequestView::Sleep {
                secs: POLL_INTERVAL_SECS,
            })
            &&& next_watch_turn(watcher, event).watcher.position == watcher.position
        },
        event is Slept ==> next_watch_turn(watcher, event).request is Measure,
{
}

/// A line is an incident wherever in it one of the marks `[ERROR]` and `[CRITICAL]`
/// stands, and only then.
pub proof fn law_mark_counts_wherever_it_stands(
    before: Seq<char>,
    after: Seq<char>,
    line: Seq<char>,
)
    ensures
        is_incident(before + "[ERROR]"@ + after),
        is_incident(before + "[CRITICAL]"@ + after),
        is_incident(line) <==> exists|at: int|
            #![auto]
            reads_at(line, at, "[ERROR]"@) || reads_at(line, at, "[CRITICAL]"@),
{
    lemma_part_is_substring(before, "[ERROR]"@, after);
    lemma_part_is_substring(before, "[CRITICAL]"@, after);
    law_substring_is_read_letter_by_letter("[ERROR]"@, line);
    law_substring_is_read_letter_by_letter("[CRITICAL]"@, line);
}

/// What the watch does with a line. One of no bytes is the end of the log and leads
/// to a pause; one that has a mark, wherever in it, is worked on without the white
/// space around it; and any other is passed over. The position moves on by the
/// bytes of the line.
pub proof fn law_line_is_worked_on_or_passed_over(
    position: u64,
    bytes: u64,
    before: Seq<char>,
    line: Seq<char>,
    after: Seq<char>,
)
    requires
        position + bytes <= u64::MAX,
        all_white(before),
        all_white(after),
        line.len() > 0 ==> !white_space(line.first()) && !white_space(line.last()),
    ensures
        ({
            let turn = line_turn(position, bytes, before + line + after);
            let marked = exists|at: int|
                #![auto]
                reads_at(line, at, "[ERROR]"@) || reads_at(line, at, "[CRITICAL]"@);
            &&& turn.watcher.position == position + bytes
            &&& bytes == 0 ==> turn.watcher.phase is Sleeping && turn.log.len() == 0 && turn.request
                == (WatchRequestView::Sleep { secs: 2 })
            &&& bytes > 0 && marked ==> turn.watcher.phase is Handling && turn.log == seq![
                "[WATCHER] Incident detected: "@ + line,
            ] && turn.request == (WatchRequestView::Handle { incident: line })
            &&& bytes > 0 && !marked ==> turn.watcher.phase is Reading && turn.log.len() == 0
                && turn.request is ReadLine
        }),
{
    law_trim_gives_what_stands_between(before, line, after);
    law_mark_counts_wherever_it_stands(before, after, line);
}

/// What the watch does with the size of the log. A shorter log is told of and
/// counts from its start; where there is nothing to read a pause of 2 seconds
/// follows; and otherwise the log is opened where the reading ended.
pub proof fn law_size_decides_where_reading_goes_on(position: u64, size: u64)
    ensures
        ({
            let turn = measured_turn(position, size);
            let from = if size < position {
                0
            } else {
                position
            };
            &&& turn.watcher.position == from
            &&& size < position ==> turn.log == seq!["[INFO] Log rotation/truncation detected"@]
            &&& size >= position ==> turn.log.len() == 0
            &&& size == from ==> turn.watcher.phase is Sleeping && turn.request == (
            WatchRequestView::Sleep { secs: 2 })
            &&& size > from ==> turn.watcher.phase is Reopening && turn.request == (
            WatchRequestView::OpenAt { position: from })
        }),
{
}

/// What the watch does with each answer. It starts at the end of the log, and what
/// keeps it from that ends it; every later failure is told of and followed by a
/// pause of 2 seconds; after an incident and in an opened log the next line is
/// read; and after a pause the size of the log is asked for.
pub proof fn law_watch_takes_its_course(watcher: Watcher, event: WatchEvent)
    requires
        watcher.awaits(event),
    ensures
        first_watch_turn().log.len() == 0,
        first_watch_turn().request is OpenAtEnd,
        first_watch_turn().watcher == (Watcher { position: 0, phase: WatchPhase::Opening }),
        ({
            let turn = next_watch_turn(watcher, event);
            let pauses = turn.watcher == (Watcher {
                position: watcher.position,
                phase: WatchPhase::Sleeping,
            }) && turn.request == (WatchRequestView::Sleep { secs: 2 });
            let stops = turn.watcher == (Watcher {
                position: watcher.position,
                phase: WatchPhase::Stopped,
            }) && turn.request is Stop;
            match event {
                WatchEvent::AtEnd { position } => {
                    &&& turn.log == seq!["[INFO] Monitoring new log entries..."@]
                    &&& turn.watcher == (Watcher { position, phase: WatchPhase::Measuring })
                    &&& turn.request is Measure
                },
                WatchEvent::NotOpened { error } => if watcher.phase is Opening {
                    stops && turn.log == seq!["[FATAL] Failed to open monitored log: "@ + error@]
                } else {
                    pauses && turn.log == seq!["[ERROR] Failed to open log: "@ + error@]
                },
                WatchEvent::NotSought { error } => if watcher.phase is Opening {
                    stops && turn.log == seq!["[FATAL] Failed to seek log: "@ + error@]
                } else {
                    pauses && turn.log == seq!["[ERROR] Failed to seek log: "@ + error@]
                },
                WatchEvent::NotMeasured { error } => pauses && turn.log == seq![
                    "[ERROR] Failed to stat log: "@ + error@,
                ],
                WatchEvent::NotRead { error } => pauses && turn.log == seq![
                    "[ERROR] Failed reading log: "@ + error@,
                ],
                WatchEvent::Measured { size } => turn == measured_turn(watcher.position, size),
                WatchEvent::Line { bytes, text } => turn == line_turn(
                    watcher.position,
                    bytes,
                    text@,
                ),
                WatchEvent::Open | WatchEvent::Handled => {
                    &&& turn.log.len() == 0
                    &&& turn.watcher == (Watcher {
                        position: watcher.position,
                        phase: WatchPhase::Reading,
                    })
                    &&& turn.request is ReadLine
                },
                WatchEvent::Slept => {
                    &&& turn.log.len() == 0
                    &&& turn.watcher == (Watcher {
                        position: watcher.position,
                        phase: WatchPhase::Measuring,
                    })
                    &&& turn.request is Measure
                },
            }
        }),
{
}

/// What the watch waits for in each phase.
pub proof fn law_watch_phase_waits_for_its_event(watcher: Watcher, event: WatchEvent)
    ensures
        watcher.awaits(event) <==> match event {
            WatchEvent::AtEnd { .. } => watcher.phase is Opening,
            WatchEvent::NotOpened { .. } | WatchEvent::NotSought { .. } => watcher.phase is Opening
                || watcher.phase is Reopening,
            WatchEvent::Open => watcher.phase is Reopening,
            WatchEvent::Measured { .. } | WatchEvent::NotMeasured { .. } => watcher.phase
                is Measuring,
            WatchEvent::Line { bytes, .. } => watcher.phase is Reading && watcher.position + bytes
                <= 0xffff_ffff_ffff_ffff,
            WatchEvent::NotRead { .. } => watcher.phase is Reading,
            WatchEvent::Handled => watcher.phase is Handling,
            WatchEvent::Slept => watcher.phase is Sleeping,
        },
{
}

/// A turn of the watch stands for what it holds.
pub proof fn law_watch_turn_stands_for_what_it_holds(turn: WatchTurn)
    ensures
        turn@.watcher == turn.watcher,
        turn@.log == texts(turn.log@),
        turn@.request == match turn.request {
            WatchRequest::OpenAtEnd => WatchRequestView::OpenAtEnd,
            WatchRequest::Measure => WatchRequestView::Measure,
            WatchRequest::OpenAt { position } => WatchRequestView::OpenAt { position },
            WatchRequest::ReadLine => WatchRequestView::ReadLine,
            WatchRequest::Handle { incident } => WatchRequestView::Handle { incident: incident@ },
            WatchRequest::Sleep { secs } => WatchRequestView::Sleep { secs },
            WatchRequest::Stop => WatchRequestView::Stop,
        },
{
}

/// The log that is watched and the log that is written are two files of Aegira.
pub proof fn law_logs_are_two_files()
    ensures
        LOG_FILE_PATH@ == "/home/pikachu/aegira/system.log"@,
        INCIDENT_LOG_PATH@ == "/home/pikachu/aegira/incident.log"@,
        LOG_FILE_PATH@ != INCIDENT_LOG_PATH@,
{
    reveal_strlit("/home/pikachu/aegira/system.log");
    reveal_strlit("/home/pikachu/aegira/incident.log");
    assert(LOG_FILE_PATH@.len() != INCIDENT_LOG_PATH@.len());
}

} // verus!
