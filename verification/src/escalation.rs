//! The call for a developer: the mail that is sent through Composio, and what its
//! answer says.
use vstd::pervasive::unreached;
use vstd::prelude::*;
#[allow(unused_imports)]
use vstd::utf8::{decode_utf8, valid_utf8};

#[allow(unused_imports)]
use crate::command::outcome_view;
use crate::outside::{decoded, parsed, status_line, written, Document, Field, Member, Scalar};
#[allow(unused_imports)]
use crate::outside::{
    fields_view,
    json_document,
    json_text,
    members_view,
    scalars_view,
    status_text,
    utf8_lossy,
    DocumentView,
    FieldView,
    MemberView,
    ScalarView,
};
use crate::text::{same, trimmed};
#[allow(unused_imports)]
use crate::text::{
    all_white,
    decimal,
    is_substring,
    law_trim_gives_what_stands_between,
    lemma_part_is_substring,
    texts,
    trim,
    white_space,
};

verus! {

/// Where Composio is.
pub const COMPOSIO_BASE_URL: &'static str = "https://backend.composio.dev/api/v3.1";

/// The tool of Composio that sends a mail.
pub const COMPOSIO_GMAIL_TOOL: &'static str = "GMAIL_SEND_EMAIL";

/// How many seconds the exchange with Composio may take.
pub const COMPOSIO_TIMEOUT_SECS: u64 = 15;

/// What a developer is called for.
#[derive(Debug)]
pub struct Alert {
    pub incident: String,
    pub reason: String,
}

/// What an `Alert` stands for.
pub struct AlertView {
    pub incident: Seq<char>,
    pub reason: Seq<char>,
}

impl View for Alert {
    type V = AlertView;

    open spec fn view(&self) -> AlertView {
        AlertView { incident: self.incident@, reason: self.reason@ }
    }
}

/// The environment variables that count, each as far as it is set:
/// `COMPOSIO_API_KEY`, `COMPOSIO_CONNECTED_ACCOUNT_ID`, `AEGIRA_ALERT_EMAIL` and
/// `HOSTNAME`.
#[derive(Debug)]
pub struct AlertVariables {
    pub api_key: Option<String>,
    pub connected_account_id: Option<String>,
    pub recipient: Option<String>,
    pub host: Option<String>,
}

/// What a mail cannot be sent without.
#[derive(Debug)]
pub struct AlertSettings {
    pub api_key: String,
    pub connected_account_id: String,
    pub recipient: String,
}

/// What an `AlertSettings` stands for.
pub struct AlertSettingsView {
    pub api_key: Seq<char>,
    pub connected_account_id: Seq<char>,
    pub recipient: Seq<char>,
}

impl View for AlertSettings {
    type V = AlertSettingsView;

    open spec fn view(&self) -> AlertSettingsView {
        AlertSettingsView {
            api_key: self.api_key@,
            connected_account_id: self.connected_account_id@,
            recipient: self.recipient@,
        }
    }
}

/// A request to Composio, with the JSON text that is its body.
#[derive(Debug)]
pub struct AlertRequest {
    pub url: String,
    pub headers: Vec<(String, String)>,
    pub timeout_secs: u64,
    pub body: String,
}

/// What an `AlertRequest` stands for.
pub struct AlertRequestView {
    pub url: Seq<char>,
    pub headers: Seq<(Seq<char>, Seq<char>)>,
    pub timeout_secs: u64,
    pub body: Seq<char>,
}

impl View for AlertRequest {
    type V = AlertRequestView;

    open spec fn view(&self) -> AlertRequestView {
        AlertRequestView {
            url: self.url@,
            headers: self.headers@.map_values(|header: (String, String)| (header.0@, header.1@)),
            timeout_secs: self.timeout_secs,
            body: self.body@,
        }
    }
}

/// What came of a request: there was no client for it, it was not sent, its
/// answer could not be read, or it was answered with this status and this body.
#[derive(Debug)]
pub enum Exchange {
    NoClient { error: String },
    NotSent { error: String },
    Unread { error: String },
    Answered { status: u16, body: String },
}

impl Exchange {
    /// The status, where there is one, is one that HTTP can have.
    pub open spec fn well_formed(self) -> bool {
        self matches Exchange::Answered { status, .. } ==> 100 <= status < 1000
    }
}

/// What the call for a developer is waiting for: the environment variables, the
/// output of `hostname`, or the answer of Composio.
#[derive(Debug)]
pub enum EscalationStage {
    Configuring { alert: Alert },
    Naming { alert: Alert, settings: AlertSettings },
    Sending,
}

/// What an `EscalationStage` stands for.
pub enum EscalationStageView {
    Configuring { alert: AlertView },
    Naming { alert: AlertView, settings: AlertSettingsView },
    Sending,
}

impl View for EscalationStage {
    type V = EscalationStageView;

    open spec fn view(&self) -> EscalationStageView {
        match self {
            EscalationStage::Configuring { alert } => EscalationStageView::Configuring {
                alert: alert@,
            },
            EscalationStage::Naming { alert, settings } => EscalationStageView::Naming {
                alert: alert@,
                settings: settings@,
            },
            EscalationStage::Sending => EscalationStageView::Sending,
        }
    }
}

/// What the call for a developer asks for.
#[derive(Debug)]
pub enum EscalationRequest {
    ReadVariables,
    RunHostname,
    Send(AlertRequest),
}

/// What an `EscalationRequest` stands for.
pub enum EscalationRequestView {
    ReadVariables,
    RunHostname,
    Send(AlertRequestView),
}

impl View for EscalationRequest {
    type V = EscalationRequestView;

    open spec fn view(&self) -> EscalationRequestView {
        match self {
            EscalationRequest::ReadVariables => EscalationRequestView::ReadVariables,
            EscalationRequest::RunHostname => EscalationRequestView::RunHostname,
            EscalationRequest::Send(request) => EscalationRequestView::Send(request@),
        }
    }
}

/// The answer to a request; `Hostname` holds what the command printed, if it ran.
#[derive(Debug)]
pub enum EscalationEvent {
    Variables(AlertVariables),
    Hostname(Option<Vec<u8>>),
    Sent(Exchange),
}

/// How the call for a developer goes on: it waits for the answer to a request,
/// or it is over.
#[derive(Debug)]
pub enum EscalationNext {
    Await { stage: EscalationStage, request: EscalationRequest },
    Finished,
}

/// What an `EscalationNext` stands for.
pub enum EscalationNextView {
    Await { stage: EscalationStageView, request: EscalationRequestView },
    Finished,
}

impl View for EscalationNext {
    type V = EscalationNextView;

    open spec fn view(&self) -> EscalationNextView {
        match self {
            EscalationNext::Await { stage, request } => EscalationNextView::Await {
                stage: stage@,
                request: request@,
            },
            EscalationNext::Finished => EscalationNextView::Finished,
        }
    }
}

/// One turn of the call for a developer: the lines that the incident log gets,
/// and how it goes on after that.
#[derive(Debug)]
pub struct EscalationTurn {
    pub log: Vec<String>,
    pub next: EscalationNext,
}

/// What an `EscalationTurn` stands for.
pub struct EscalationTurnView {
    pub log: Seq<Seq<char>>,
    pub next: EscalationNextView,
}

impl View for EscalationTurn {
    type V = EscalationTurnView;

    open spec fn view(&self) -> EscalationTurnView {
        EscalationTurnView { log: texts(self.log@), next: self.next@ }
    }
}

impl EscalationStageView {
    /// An event is the kind of answer that this stage is waiting for.
    pub open spec fn awaits(self, event: EscalationEvent) -> bool {
        match self {
            EscalationStageView::Configuring { .. } => event is Variables,
            EscalationStageView::Naming { .. } => event is Hostname,
            EscalationStageView::Sending => event matches EscalationEvent::Sent(exchange)
                && exchange.well_formed(),
        }
    }
}

impl EscalationRequestView {
    /// An event is the kind of answer that this request needs.
    pub open spec fn answered_by(self, event: EscalationEvent) -> bool {
        match self {
            EscalationRequestView::ReadVariables => event is Variables,
            EscalationRequestView::RunHostname => event is Hostname,
            EscalationRequestView::Send(_) => event matches EscalationEvent::Sent(exchange)
                && exchange.well_formed(),
        }
    }
}

/// The value of an environment variable, or what is said when it is not set.
pub open spec fn variable(name: Seq<char>, value: Option<String>) -> Result<Seq<char>, Seq<char>> {
    match value {
        Some(value) => Ok(value@),
        None => Err("Missing environment variable: "@ + name),
    }
}

/// The settings that environment variables make, or what is said of the first
/// one that is missing.
pub open spec fn settings(variables: AlertVariables) -> Result<AlertSettingsView, Seq<char>> {
    match variable("COMPOSIO_API_KEY"@, variables.api_key) {
        Err(error) => Err(error),
        Ok(api_key) => match variable(
            "COMPOSIO_CONNECTED_ACCOUNT_ID"@,
            variables.connected_account_id,
        ) {
            Err(error) => Err(error),
            Ok(connected_account_id) => match variable(
                "AEGIRA_ALERT_EMAIL"@,
                variables.recipient,
            ) {
                Err(error) => Err(error),
                Ok(recipient) => Ok(
                    AlertSettingsView { api_key, connected_account_id, recipient },
                ),
            },
        },
    }
}

/// The name of the host that the output of `hostname` gives.
pub open spec fn printed_host(output: Option<Seq<char>>) -> Seq<char> {
    match output {
        Some(output) => if trim(output).len() > 0 {
            trim(output)
        } else {
            "unknown-host"@
        },
        None => "unknown-host"@,
    }
}

/// The name of the host: what the environment variable says, or else what the
/// command prints.
pub open spec fn host(value: Option<String>, output: Option<Vec<u8>>) -> Seq<char> {
    match value {
        Some(value) => value@,
        None => printed_host(
            match output {
                Some(output) => Some(utf8_lossy(output@)),
                None => None,
            },
        ),
    }
}

/// The subject of the mail.
pub open spec fn mail_subject(host: Seq<char>) -> Seq<char> {
    "[AEGIRA ALERT] Recovery failed on "@ + host
}

/// The body of the mail.
pub open spec fn mail_body(host: Seq<char>, alert: AlertView) -> Seq<char> {
    "Aegira requires developer attention.\n\nHost: "@ + host + "\nIncident: "@ + alert.incident
        + "\nReason: "@ + alert.reason + "\n\nAutomated recovery was not completed successfully."@
}

/// The fields of the JSON object that Composio is sent.
pub open spec fn payload(
    settings: AlertSettingsView,
    host: Seq<char>,
    alert: AlertView,
) -> Seq<(Seq<char>, FieldView)> {
    seq![
        (
            "connected_account_id"@,
            FieldView::Plain(ScalarView::Text(settings.connected_account_id)),
        ),
        ("version"@, FieldView::Plain(ScalarView::Text("latest"@))),
        (
            "arguments"@,
            FieldView::Group(
                seq![
                    ("recipient_email"@, ScalarView::Text(settings.recipient)),
                    ("subject"@, ScalarView::Text(mail_subject(host))),
                    ("body"@, ScalarView::Text(mail_body(host, alert))),
                    ("is_html"@, ScalarView::Flag(false)),
                ],
            ),
        ),
    ]
}

/// The request that sends the mail.
pub open spec fn mail(
    settings: AlertSettingsView,
    host: Seq<char>,
    alert: AlertView,
) -> AlertRequestView {
    AlertRequestView {
        url: COMPOSIO_BASE_URL@ + "/tools/execute/"@ + COMPOSIO_GMAIL_TOOL@,
        headers: seq![
            ("x-api-key"@, settings.api_key),
            ("Content-Type"@, "application/json"@),
        ],
        timeout_secs: COMPOSIO_TIMEOUT_SECS,
        body: json_text(payload(settings, host, alert)),
    }
}

/// The first of the members with a name.
pub open spec fn member_named(members: Seq<(Seq<char>, MemberView)>, name: Seq<char>) -> Option<
    MemberView,
>
    decreases members.len(),
{
    if members.len() == 0 {
        None
    } else if members.first().0 == name {
        Some(members.first().1)
    } else {
        member_named(members.drop_first(), name)
    }
}

/// The member of a document with a name; only an object has members.
pub open spec fn member(document: DocumentView, name: Seq<char>) -> Option<MemberView> {
    match document {
        DocumentView::Object(members) => member_named(members, name),
        DocumentView::Plain(_) => None,
    }
}

/// What the document that Composio has answered with says.
pub open spec fn verdict(document: DocumentView) -> Result<(), Seq<char>> {
    if member(document, "successful"@) == Some(MemberView::Bool(true)) {
        Ok(())
    } else {
        Err(
            match member(document, "error"@) {
                Some(MemberView::Text(error)) => error,
                _ => "Unknown Composio error"@,
            },
        )
    }
}

/// An HTTP status reports success.
pub open spec fn is_success(status: u16) -> bool {
    200 <= status < 300
}

/// What came of sending the mail.
pub open spec fn delivery(exchange: Exchange) -> Result<(), Seq<char>> {
    match exchange {
        Exchange::NoClient { error } => Err("Failed to create HTTP client: "@ + error@),
        Exchange::NotSent { error } => Err("Composio request failed: "@ + error@),
        Exchange::Unread { error } => Err("Failed reading Composio response: "@ + error@),
        Exchange::Answered { status, body } => if !is_success(status) {
            Err("Composio returned HTTP "@ + status_text(status) + ": "@ + body@)
        } else {
            match json_document(body@) {
                Ok(document) => verdict(document),
                Err(error) => Err(
                    "Invalid Composio response: "@ + error + " | "@ + body@,
                ),
            }
        },
    }
}

/// The turn that ends the call for a developer.
pub open spec fn delivered_turn(delivered: Result<(), Seq<char>>) -> EscalationTurnView {
    EscalationTurnView {
        log: seq![
            match delivered {
                Ok(()) => "[ESCALATION] Developer notified successfully via Gmail"@,
                Err(error) => "[ESCALATION FAILED] Gmail notification failed: "@ + error,
            },
        ],
        next: EscalationNextView::Finished,
    }
}

/// The turn that sends the mail.
pub open spec fn send_turn(
    settings: AlertSettingsView,
    host: Seq<char>,
    alert: AlertView,
) -> EscalationTurnView {
    EscalationTurnView {
        log: seq![],
        next: EscalationNextView::Await {
            stage: EscalationStageView::Sending,
            request: EscalationRequestView::Send(mail(settings, host, alert)),
        },
    }
}

/// The first turn of the call for a developer.
pub open spec fn first_escalation_turn(alert: AlertView) -> EscalationTurnView {
    EscalationTurnView {
        log: seq!["[ESCALATION] Automated recovery failed"@],
        next: EscalationNextView::Await {
            stage: EscalationStageView::Configuring { alert },
            request: EscalationRequestView::ReadVariables,
        },
    }
}

/// The turn of the call for a developer that follows an event.
pub open spec fn next_escalation_turn(
    stage: EscalationStageView,
    event: EscalationEvent,
) -> EscalationTurnView
    recommends
        stage.awaits(event),
{
    match stage {
        EscalationStageView::Configuring { alert } => {
            let variables = event->Variables_0;
            match settings(variables) {
                Err(error) => delivered_turn(Err(error)),
                Ok(settings) => match variables.host {
                    Some(_) => send_turn(settings, host(variables.host, None), alert),
                    None => EscalationTurnView {
                        log: seq![],
                        next: EscalationNextView::Await {
                            stage: EscalationStageView::Naming { alert, settings },
                            request: EscalationRequestView::RunHostname,
                        },
                    },
                },
            }
        },
        EscalationStageView::Naming { alert, settings } => send_turn(
            settings,
            host(None, event->Hostname_0),
            alert,
        ),
        EscalationStageView::Sending => delivered_turn(delivery(event->Sent_0)),
    }
}

/// The value of an environment variable, or the message that it is missing.
pub fn get_env(name: &str, value: Option<String>) -> (result: Result<String, String>)
    ensures
        (match result {
            Ok(value) => Ok(value@),
            Err(error) => Err(error@),
        }) == variable(name@, value),
{
    match value {
        Some(value) => Ok(value),
        None => Err("Missing environment variable: ".to_owned().concat(name)),
    }
}

/// The settings that environment variables make, or the message that one is
/// missing.
pub fn alert_settings(
    api_key: Option<String>,
    connected_account_id: Option<String>,
    recipient: Option<String>,
) -> (result: Result<AlertSettings, String>)
    ensures
        (match result {
            Ok(settings) => Ok(settings@),
            Err(error) => Err(error@),
        }) == settings(AlertVariables { api_key, connected_account_id, recipient, host: None }),
{
    let api_key = match get_env("COMPOSIO_API_KEY", api_key) {
        Ok(value) => value,
        Err(error) => return Err(error),
    };
    let connected_account_id = match get_env(
        "COMPOSIO_CONNECTED_ACCOUNT_ID",
        connected_account_id,
    ) {
        Ok(value) => value,
        Err(error) => return Err(error),
    };
    let recipient = match get_env("AEGIRA_ALERT_EMAIL", recipient) {
        Ok(value) => value,
        Err(error) => return Err(error),
    };
    Ok(AlertSettings { api_key, connected_account_id, recipient })
}

/// The name of the host that the output of `hostname` gives.
pub fn host_from_output(output: Option<&str>) -> (name: String)
    ensures
        name@ == printed_host(
            match output {
                Some(output) => Some(output@),
                None => None,
            },
        ),
{
    match output {
        Some(output) => {
            let name = trimmed(output);
            if name.is_empty() {
                "unknown-host".to_owned()
            } else {
                name.to_owned()
            }
        },
        None => "unknown-host".to_owned(),
    }
}

/// The name of the host, from the environment variable and from what the command
/// printed.
pub fn hostname(value: Option<String>, output: Option<Vec<u8>>) -> (name: String)
    ensures
        name@ == host(value, output),
        value is None ==> (output matches Some(output) ==> (valid_utf8(output@) ==> name@
            == printed_host(Some(decode_utf8(output@))))),
{
    match value {
        Some(value) => value,
        None => match output {
            Some(output) => {
                let text = decoded(output.as_slice());
                host_from_output(Some(text.as_str()))
            },
            None => host_from_output(None),
        },
    }
}

/// The fields of the JSON object that Composio is sent.
pub fn alert_payload(settings: &AlertSettings, host: &str, alert: &Alert) -> (fields: Vec<
    (String, Field),
>)
    ensures
        fields_view(fields@) == payload(settings@, host@, alert@),
{
    let subject = "[AEGIRA ALERT] Recovery failed on ".to_owned().concat(host);
    let body = "Aegira requires developer attention.\n\nHost: ".to_owned().concat(host).concat(
        "\nIncident: ",
    ).concat(alert.incident.as_str()).concat("\nReason: ").concat(alert.reason.as_str()).concat(
        "\n\nAutomated recovery was not completed successfully.",
    );
    let arguments: Vec<(String, Scalar)> = vec![
        ("recipient_email".to_owned(), Scalar::Text(settings.recipient.clone())),
        ("subject".to_owned(), Scalar::Text(subject)),
        ("body".to_owned(), Scalar::Text(body)),
        ("is_html".to_owned(), Scalar::Flag(false)),
    ];
    assert(scalars_view(arguments@) =~= seq![
        ("recipient_email"@, ScalarView::Text(settings@.recipient)),
        ("subject"@, ScalarView::Text(mail_subject(host@))),
        ("body"@, ScalarView::Text(mail_body(host@, alert@))),
        ("is_html"@, ScalarView::Flag(false)),
    ]);
    let fields: Vec<(String, Field)> = vec![
        (
            "connected_account_id".to_owned(),
            Field::Plain(Scalar::Text(settings.connected_account_id.clone())),
        ),
        ("version".to_owned(), Field::Plain(Scalar::Text("latest".to_owned()))),
        ("arguments".to_owned(), Field::Group(arguments)),
    ];
    assert(fields_view(fields@) =~= payload(settings@, host@, alert@));
    fields
}

/// Prepares the request that sends the mail.
pub fn send_composio_gmail(settings: AlertSettings, host: &str, alert: &Alert) -> (request:
    AlertRequest)
    ensures
        request@ == mail(settings@, host@, alert@),
        request.headers@.len() == 2,
        request.headers@[0].0@ == "x-api-key"@,
        request.headers@[0].1@ == settings.api_key@,
{
    let body = written(alert_payload(&settings, host, alert));
    let headers: Vec<(String, String)> = vec![
        ("x-api-key".to_owned(), settings.api_key),
        ("Content-Type".to_owned(), "application/json".to_owned()),
    ];
    let request = AlertRequest {
        url: COMPOSIO_BASE_URL.to_owned().concat("/tools/execute/").concat(COMPOSIO_GMAIL_TOOL),
        headers,
        timeout_secs: COMPOSIO_TIMEOUT_SECS,
        body,
    };
    assert(request@.headers =~= mail(settings@, host@, alert@).headers);
    request
}

/// The first of the members with a name.
fn find_member<'a>(members: &'a Vec<(String, Member)>, name: &str) -> (found: Option<&'a Member>)
    ensures
        (match found {
            Some(found) => Some(found@),
            None => None,
        }) == member_named(members_view(members@), name@),
{
    let ghost all = members_view(members@);
    assert(all.skip(0) =~= all);
    for i in 0..members.len()
        invariant
            all == members_view(members@),
            member_named(all.skip(i as int), name@) == member_named(all, name@),
    {
        assert(all.skip(i as int).drop_first() =~= all.skip(i + 1));
        if same(members[i].0.as_str(), name) {
            return Some(&members[i].1);
        }
    }
    None
}

/// Reads what the document that Composio has answered with says.
pub fn reply_verdict(document: &Document) -> (result: Result<(), String>)
    ensures
        outcome_view(result) == verdict(document@),
{
    match document {
        Document::Object(members) => {
            let successful = match find_member(members, "successful") {
                Some(Member::Bool(successful)) => *successful,
                _ => false,
            };
            if successful {
                Ok(())
            } else {
                match find_member(members, "error") {
                    Some(Member::Text(error)) => Err(error.clone()),
                    _ => Err("Unknown Composio error".to_owned()),
                }
            }
        },
        Document::Plain(_) => Err("Unknown Composio error".to_owned()),
    }
}

/// What is said of an answer whose status, which shows itself as `line`, reports no
/// success.
pub fn refused_reply(line: &str, body: &str) -> (error: String)
    ensures
        error@ == "Composio returned HTTP "@ + line@ + ": "@ + body@,
{
    "Composio returned HTTP ".to_owned().concat(line).concat(": ").concat(body)
}

/// What is said of an answer that the JSON parser has refused with this message.
pub fn invalid_reply(message: &str, body: &str) -> (error: String)
    ensures
        error@ == "Invalid Composio response: "@ + message@ + " | "@ + body@,
{
    "Invalid Composio response: ".to_owned().concat(message).concat(" | ").concat(body)
}

/// Judges what came of sending the mail.
pub fn alert_delivery(exchange: Exchange) -> (result: Result<(), String>)
    requires
        exchange.well_formed(),
    ensures
        outcome_view(result) == delivery(exchange),
        exchange matches Exchange::Answered { status, .. } ==> (!is_success(status)
            ==> (result matches Err(error) && ("Composio returned HTTP "@ + decimal(status as nat)
            + " "@).is_prefix_of(error@))),
{
    match exchange {
        Exchange::NoClient { error } => Err(
            "Failed to create HTTP client: ".to_owned().concat(error.as_str()),
        ),
        Exchange::NotSent { error } => Err(
            "Composio request failed: ".to_owned().concat(error.as_str()),
        ),
        Exchange::Unread { error } => Err(
            "Failed reading Composio response: ".to_owned().concat(error.as_str()),
        ),
        Exchange::Answered { status, body } => {
            if !(200 <= status && status < 300) {
                let line = status_line(status);
                let error = refused_reply(line.as_str(), body.as_str());
                proof {
                    let number = decimal(status as nat) + " "@;
                    let start = "Composio returned HTTP "@ + number;
                    assert(number =~= line@.subrange(0, number.len() as int));
                    assert forall|i: int| 0 <= i < number.len() implies number[i] == line@[i] by {
                        assert(line@.subrange(0, number.len() as int)[i] == line@[i]);
                    }
                    assert(start =~= error@.subrange(0, start.len() as int));
                    assert(start =~= "Composio returned HTTP "@ + decimal(status as nat) + " "@);
                }
                return Err(error);
            }
            match parsed(body.as_str()) {
                Ok(document) => reply_verdict(&document),
                Err(message) => Err(invalid_reply(message.as_str(), body.as_str())),
            }
        },
    }
}

/// Starts the call for a developer.
pub fn escalate_to_developer(incident: &str, reason: &str) -> (turn: EscalationTurn)
    ensures
        turn@ == first_escalation_turn(AlertView { incident: incident@, reason: reason@ }),
{
    let log: Vec<String> = vec!["[ESCALATION] Automated recovery failed".to_owned()];
    assert(texts(log@) =~= seq!["[ESCALATION] Automated recovery failed"@]);
    EscalationTurn {
        log,
        next: EscalationNext::Await {
            stage: EscalationStage::Configuring {
                alert: Alert { incident: incident.to_owned(), reason: reason.to_owned() },
            },
            request: EscalationRequest::ReadVariables,
        },
    }
}

/// Sends the mail.
fn send(settings: AlertSettings, host: &str, alert: &Alert) -> (turn: EscalationTurn)
    ensures
        turn@ == send_turn(settings@, host@, alert@),
{
    let log: Vec<String> = Vec::new();
    assert(texts(log@) =~= seq![]);
    EscalationTurn {
        log,
        next: EscalationNext::Await {
            stage: EscalationStage::Sending,
            request: EscalationRequest::Send(send_composio_gmail(settings, host, alert)),
        },
    }
}

/// Ends the call for a developer.
fn delivered(result: Result<(), String>) -> (turn: EscalationTurn)
    ensures
        turn@ == delivered_turn(outcome_view(result)),
{
    let line = match result {
        Ok(()) => "[ESCALATION] Developer notified successfully via Gmail".to_owned(),
        Err(error) => "[ESCALATION FAILED] Gmail notification failed: ".to_owned().concat(
            error.as_str(),
        ),
    };
    let log: Vec<String> = vec![line];
    assert(texts(log@) =~= delivered_turn(outcome_view(result)).log);
    EscalationTurn { log, next: EscalationNext::Finished }
}

/// Carries the call for a developer on after an event.
pub fn escalation_step(stage: EscalationStage, event: EscalationEvent) -> (turn: EscalationTurn)
    requires
        stage@.awaits(event),
    ensures
        turn@ == next_escalation_turn(stage@, event),
{
    match (stage, event) {
        (EscalationStage::Configuring { alert }, EscalationEvent::Variables(variables)) => {
            let AlertVariables { api_key, connected_account_id, recipient, host } = variables;
            match alert_settings(api_key, connected_account_id, recipient) {
                Err(error) => delivered(Err(error)),
                Ok(settings) => match host {
                    Some(host) => send(settings, hostname(Some(host), None).as_str(), &alert),
                    None => {
                        let log: Vec<String> = Vec::new();
                        assert(texts(log@) =~= seq![]);
                        EscalationTurn {
                            log,
                            next: EscalationNext::Await {
                                stage: EscalationStage::Naming { alert, settings },
                                request: EscalationRequest::RunHostname,
                            },
                        }
                    },
                },
            }
        },
        (EscalationStage::Naming { alert, settings }, EscalationEvent::Hostname(output)) => send(
            settings,
            hostname(None, output).as_str(),
            &alert,
        ),
        (EscalationStage::Sending, EscalationEvent::Sent(exchange)) => delivered(
            alert_delivery(exchange),
        ),
        _ => unreached(),
    }
}

/// The turn that the call for a developer is at after a series of events.
pub open spec fn escalation_turn_after(
    alert: AlertView,
    events: Seq<EscalationEvent>,
) -> EscalationTurnView
    decreases events.len(),
{
    if events.len() == 0 {
        first_escalation_turn(alert)
    } else {
        match escalation_turn_after(alert, events.drop_last()).next {
            EscalationNextView::Await { stage, .. } => next_escalation_turn(stage, events.last()),
            EscalationNextView::Finished => EscalationTurnView {
                log: seq![],
                next: EscalationNextView::Finished,
            },
        }
    }
}

/// A series of events can happen to the call for a developer: each of them
/// answers the request that was made before it, and none comes after the end.
pub open spec fn is_escalation_history(alert: AlertView, events: Seq<EscalationEvent>) -> bool
    decreases events.len(),
{
    events.len() == 0 || {
        &&& is_escalation_history(alert, events.drop_last())
        &&& escalation_turn_after(alert, events.drop_last()).next matches EscalationNextView::Await {
            stage,
            ..
        }
        &&& stage.awaits(events.last())
    }
}

/// Where the call for a developer is after a series of events.
pub open spec fn escalation_progress(alert: AlertView, events: Seq<EscalationEvent>) -> bool {
    match escalation_turn_after(alert, events).next {
        EscalationNextView::Await { stage, request } => {
            &&& events.len() > 0 ==> events[0] is Variables && settings(events[0]->Variables_0)
                is Ok
            &&& match stage {
                EscalationStageView::Configuring { alert: given } => events.len() == 0 && given
                    == alert && request is ReadVariables,
                EscalationStageView::Naming { alert: given, settings: made } => {
                    &&& events.len() == 1
                    &&& given == alert
                    &&& settings(events[0]->Variables_0) == Ok::<AlertSettingsView, Seq<char>>(made)
                    &&& events[0]->Variables_0.host is None
                    &&& request is RunHostname
                },
                EscalationStageView::Sending => {
                    &&& 1 <= events.len() <= 2
                    &&& events.len() == 2 <==> events[0]->Variables_0.host is None
                    &&& events.len() == 2 ==> events[1] is Hostname
                    &&& request == EscalationRequestView::Send(
                        mail(
                            settings(events[0]->Variables_0)->Ok_0,
                            host(
                                events[0]->Variables_0.host,
                                if events.len() == 2 {
                                    events[1]->Hostname_0
                                } else {
                                    None
                                },
                            ),
                            alert,
                        ),
                    )
                },
            }
        },
        EscalationNextView::Finished => {
            &&& 1 <= events.len() <= 3
            &&& events[0] is Variables
            &&& if settings(events[0]->Variables_0) is Err {
                &&& events.len() == 1
                &&& escalation_turn_after(alert, events) == delivered_turn(
                    Err(settings(events[0]->Variables_0)->Err_0),
                )
            } else {
                &&& events.last() is Sent
                &&& escalation_turn_after(alert, events) == delivered_turn(
                    delivery(events.last()->Sent_0),
                )
            }
        },
    }
}

proof fn lemma_escalation_progress(alert: AlertView, events: Seq<EscalationEvent>)
    requires
        is_escalation_history(alert, events),
    ensures
        escalation_progress(alert, events),
    decreases events.len(),
{
    if events.len() > 0 {
        let before = events.drop_last();
        lemma_escalation_progress(alert, before);
        assert(before.len() > 0 ==> events[0] == before[0]);
        assert(before.len() > 1 ==> events[1] == before[1]);
    }
}

/// A request goes with a stage.
pub open spec fn escalation_request_fits(
    stage: EscalationStageView,
    request: EscalationRequestView,
) -> bool {
    &&& request is ReadVariables <==> stage is Configuring
    &&& request is RunHostname <==> stage is Naming
    &&& request is Send <==> stage is Sending
}

/// In every turn that waits, the request goes with the stage, and the events that
/// the stage waits for are exactly the answers that the request needs.
pub proof fn law_escalation_awaits_what_it_asks_for(
    alert: AlertView,
    stage: EscalationStageView,
    event: EscalationEvent,
)
    ensures
        first_escalation_turn(alert).next matches EscalationNextView::Await { stage, request } ==> {
            &&& escalation_request_fits(stage, request)
            &&& forall|answer: EscalationEvent| #[trigger]
                stage.awaits(answer) == request.answered_by(answer)
        },
        next_escalation_turn(stage, event).next matches EscalationNextView::Await { stage, request }
            ==> {
            &&& escalation_request_fits(stage, request)
            &&& forall|answer: EscalationEvent| #[trigger]
                stage.awaits(answer) == request.answered_by(answer)
        },
{
}

/// The call for a developer ends after three events at most, with one line that
/// tells how it went.
pub proof fn law_escalation_ends(alert: AlertView, events: Seq<EscalationEvent>)
    requires
        is_escalation_history(alert, events),
    ensures
        events.len() <= 3,
        events.len() == 3 ==> escalation_turn_after(alert, events).next is Finished,
        escalation_turn_after(alert, events).next is Finished ==> escalation_turn_after(
            alert,
            events,
        ).log.len() == 1,
{
    lemma_escalation_progress(alert, events);
}

/// Nothing is sent while a setting is missing, and what is sent is the mail with
/// the settings, the host and the alert.
pub proof fn law_only_the_configured_mail_is_sent(
    alert: AlertView,
    events: Seq<EscalationEvent>,
    request: AlertRequestView,
)
    requires
        is_escalation_history(alert, events),
        escalation_turn_after(alert, events).next matches EscalationNextView::Await {
            request: EscalationRequestView::Send(sent),
            ..
        } && sent == request,
    ensures
        settings(events[0]->Variables_0) is Ok,
        request == mail(
            settings(events[0]->Variables_0)->Ok_0,
            host(
                events[0]->Variables_0.host,
                if events.len() == 2 {
                    events[1]->Hostname_0
                } else {
                    None
                },
            ),
            alert,
        ),
{
    lemma_escalation_progress(alert, events);
}

/// The developer counts as notified exactly if every setting was there and the
/// mail was sent with success.
pub proof fn law_notified_only_after_delivery(alert: AlertView, events: Seq<EscalationEvent>)
    requires
        is_escalation_history(alert, events),
        escalation_turn_after(alert, events).next is Finished,
    ensures
        escalation_turn_after(alert, events) == delivered_turn(Ok(())) <==> events.last() is Sent
            && delivery(events.last()->Sent_0) is Ok,
{
    lemma_escalation_progress(alert, events);
    reveal_strlit("[ESCALATION] Developer notified successfully via Gmail");
    reveal_strlit("[ESCALATION FAILED] Gmail notification failed: ");
    let line = escalation_turn_after(alert, events).log[0];
    if settings(events[0]->Variables_0) is Err {
        let error = settings(events[0]->Variables_0)->Err_0;
        assert(line[11] == ' ');
        assert(delivered_turn(Ok(())).log[0][11] == ']');
    } else if delivery(events.last()->Sent_0) is Err {
        assert(line[11] == ' ');
        assert(delivered_turn(Ok(())).log[0][11] == ']');
    }
}

/// A mail counts as sent exactly if Composio has answered with a success status
/// and with an object that says so.
pub proof fn law_delivery_needs_a_confirmation(exchange: Exchange)
    ensures
        delivery(exchange) is Ok <==> {
            &&& exchange matches Exchange::Answered { status, body, .. }
            &&& is_success(status)
            &&& json_document(body@) matches Ok(document)
            &&& member(document, "successful"@) == Some(MemberView::Bool(true))
        },
{
}

/// The subject of the mail names the host, and its body tells the host, the
/// incident and the reason.
pub proof fn law_mail_tells_what_happened(host: Seq<char>, alert: AlertView)
    ensures
        is_substring(host, mail_subject(host)),
        is_substring(host, mail_body(host, alert)),
        is_substring(alert.incident, mail_body(host, alert)),
        is_substring(alert.reason, mail_body(host, alert)),
{
    let subject = mail_subject(host);
    let body = mail_body(host, alert);
    let greeting = "Aegira requires developer attention.\n\nHost: "@;
    let at_incident = greeting + host + "\nIncident: "@;
    let at_reason = at_incident + alert.incident + "\nReason: "@;
    let end = "\n\nAutomated recovery was not completed successfully."@;
    lemma_part_is_substring("[AEGIRA ALERT] Recovery failed on "@, host, seq![]);
    assert("[AEGIRA ALERT] Recovery failed on "@ + host + seq![] =~= subject);
    lemma_part_is_substring(
        greeting,
        host,
        "\nIncident: "@ + alert.incident + "\nReason: "@ + alert.reason + end,
    );
    assert(greeting + host + ("\nIncident: "@ + alert.incident + "\nReason: "@ + alert.reason + end)
        =~= body);
    lemma_part_is_substring(at_incident, alert.incident, "\nReason: "@ + alert.reason + end);
    assert(at_incident + alert.incident + ("\nReason: "@ + alert.reason + end) =~= body);
    lemma_part_is_substring(at_reason, alert.reason, end);
}

/// A setting is there exactly if its variable is set, and is then its value,
/// character for character. Of the missing ones the first is reported, in the order
/// of key, account and recipient.
pub proof fn law_settings_are_the_values_of_the_variables(variables: AlertVariables)
    ensures
        settings(variables) is Ok <==> variables.api_key is Some
            && variables.connected_account_id is Some && variables.recipient is Some,
        settings(variables) matches Ok(made) ==> {
            &&& variables.api_key matches Some(value)
            &&& made.api_key == value@
            &&& variables.connected_account_id matches Some(value)
            &&& made.connected_account_id == value@
            &&& variables.recipient matches Some(value)
            &&& made.recipient == value@
        },
        settings(variables) matches Err(error) ==> error == "Missing environment variable: "@
            + if variables.api_key is None {
            "COMPOSIO_API_KEY"@
        } else if variables.connected_account_id is None {
            "COMPOSIO_CONNECTED_ACCOUNT_ID"@
        } else {
            "AEGIRA_ALERT_EMAIL"@
        },
{
}

/// A variable that is set has its value, and one that is not is reported by name.
pub proof fn law_variable_is_its_value(name: Seq<char>, value: Option<String>)
    ensures
        value matches Some(value) ==> variable(name, Some(value)) == Ok::<Seq<char>, Seq<char>>(
            value@,
        ),
        variable(name, None) == Err::<Seq<char>, Seq<char>>(
            "Missing environment variable: "@ + name,
        ),
{
}

/// The host is what the variable says, as it is; without it, what the command
/// printed between white space; and `unknown-host` where that is nothing.
pub proof fn law_host_is_what_was_said(
    value: Option<String>,
    output: Option<Vec<u8>>,
    before: Seq<char>,
    name: Seq<char>,
    after: Seq<char>,
)
    requires
        all_white(before),
        all_white(after),
        name.len() > 0 ==> !white_space(name.first()) && !white_space(name.last()),
    ensures
        value matches Some(value) ==> host(Some(value), output) == value@,
        host(None, None) == "unknown-host"@,
        output matches Some(printed) ==> (utf8_lossy(printed@) == before + name + after ==> host(
            None,
            output,
        ) == if name.len() > 0 {
            name
        } else {
            "unknown-host"@
        }),
        printed_host(None) == "unknown-host"@,
        printed_host(Some(before + name + after)) == if name.len() > 0 {
            name
        } else {
            "unknown-host"@
        },
{
    law_trim_gives_what_stands_between(before, name, after);
}

/// The mail goes to Composio with the key of the settings, character for character,
/// as its header `x-api-key`, within 15 seconds. Its JSON holds the account and the
/// recipient of the settings as they are, names the host, the incident and the
/// reason as they are, and is no HTML.
pub proof fn law_mail_carries_the_settings(
    settings: AlertSettingsView,
    host: Seq<char>,
    alert: AlertView,
)
    ensures
        ({
            let request = mail(settings, host, alert);
            let fields = payload(settings, host, alert);
            &&& request.url
                == "https://backend.composio.dev/api/v3.1/tools/execute/GMAIL_SEND_EMAIL"@
            &&& request.timeout_secs == 15
            &&& request.headers.len() == 2
            &&& request.headers[0].0 == "x-api-key"@
            &&& request.headers[0].1 == settings.api_key
            &&& request.headers[1].0 == "Content-Type"@
            &&& request.headers[1].1 == "application/json"@
            &&& request.body == json_text(fields)
            &&& fields.len() == 3
            &&& fields[0].0 == "connected_account_id"@
            &&& fields[0].1 == FieldView::Plain(ScalarView::Text(settings.connected_account_id))
            &&& fields[1].0 == "version"@
            &&& fields[1].1 == FieldView::Plain(ScalarView::Text("latest"@))
            &&& fields[2].0 == "arguments"@
            &&& fields[2].1 matches FieldView::Group(arguments)
            &&& arguments.len() == 4
            &&& arguments[0].0 == "recipient_email"@
            &&& arguments[0].1 == ScalarView::Text(settings.recipient)
            &&& arguments[1].0 == "subject"@
            &&& arguments[1].1 == ScalarView::Text("[AEGIRA ALERT] Recovery failed on "@ + host)
            &&& arguments[2].0 == "body"@
            &&& arguments[2].1 == ScalarView::Text(
                "Aegira requires developer attention.\n\nHost: "@ + host + "\nIncident: "@
                    + alert.incident + "\nReason: "@ + alert.reason
                    + "\n\nAutomated recovery was not completed successfully."@,
            )
            &&& arguments[3].0 == "is_html"@
            &&& arguments[3].1 == ScalarView::Flag(false)
        }),
{
    reveal_strlit("https://backend.composio.dev/api/v3.1");
    reveal_strlit("/tools/execute/");
    reveal_strlit("GMAIL_SEND_EMAIL");
    reveal_strlit("https://backend.composio.dev/api/v3.1/tools/execute/GMAIL_SEND_EMAIL");
    assert(mail(settings, host, alert).url
        =~= "https://backend.composio.dev/api/v3.1/tools/execute/GMAIL_SEND_EMAIL"@);
}

/// Whatever is sent carries the values of the environment variables, character for
/// character: the key as the header `x-api-key`, and the account and the recipient
/// in the JSON.
pub proof fn law_what_is_sent_carries_the_variables(
    alert: AlertView,
    events: Seq<EscalationEvent>,
    request: AlertRequestView,
)
    requires
        is_escalation_history(alert, events),
        escalation_turn_after(alert, events).next matches EscalationNextView::Await {
            request: EscalationRequestView::Send(sent),
            ..
        } && sent == request,
    ensures
        events[0] matches EscalationEvent::Variables(variables) && {
            &&& variables.api_key matches Some(key)
            &&& request.headers[0].0 == "x-api-key"@
            &&& request.headers[0].1 == key@
            &&& exists|fields: Seq<(Seq<char>, FieldView)>| {
                &&& request.body == #[trigger] json_text(fields)
                &&& fields.len() == 3
                &&& variables.connected_account_id matches Some(account)
                &&& fields[0].0 == "connected_account_id"@
                &&& fields[0].1 == FieldView::Plain(ScalarView::Text(account@))
                &&& variables.recipient matches Some(recipient)
                &&& fields[2].0 == "arguments"@
                &&& fields[2].1 matches FieldView::Group(arguments)
                &&& arguments[0].0 == "recipient_email"@
                &&& arguments[0].1 == ScalarView::Text(recipient@)
            }
        },
{
    lemma_escalation_progress(alert, events);
    law_only_the_configured_mail_is_sent(alert, events, request);
    let variables = events[0]->Variables_0;
    law_settings_are_the_values_of_the_variables(variables);
    let made = settings(variables)->Ok_0;
    let name = host(
        variables.host,
        if events.len() == 2 {
            events[1]->Hostname_0
        } else {
            None
        },
    );
    law_mail_carries_the_settings(made, name, alert);
    assert(request.body == json_text(payload(made, name, alert)));
}

/// The member at this place is the first with this name.
pub open spec fn is_first_named(
    members: Seq<(Seq<char>, MemberView)>,
    at: int,
    name: Seq<char>,
) -> bool {
    &&& 0 <= at < members.len()
    &&& members[at].0 == name
    &&& forall|i: int| 0 <= i < at ==> (#[trigger] members[i]).0 != name
}

/// A member is found exactly if there is one with the name, and is then the first.
pub proof fn law_member_is_the_first_with_its_name(
    members: Seq<(Seq<char>, MemberView)>,
    name: Seq<char>,
)
    ensures
        member_named(members, name) is None <==> forall|i: int|
            0 <= i < members.len() ==> (#[trigger] members[i]).0 != name,
        forall|at: int|
            #[trigger] is_first_named(members, at, name) ==> member_named(members, name) == Some(
                members[at].1,
            ),
    decreases members.len(),
{
    if members.len() > 0 {
        let rest = members.drop_first();
        law_member_is_the_first_with_its_name(rest, name);
        if members.first().0 == name {
            assert(members[0].0 == name);
        } else {
            assert forall|i: int| 0 <= i < rest.len() implies rest[i] == members[i + 1] by {}
            if member_named(members, name) is None {
                assert forall|i: int| 0 <= i < members.len() implies (#[trigger] members[i]).0
                    != name by {
                    if i > 0 {
                        assert(rest[i - 1].0 != name);
                    }
                }
            }
            if forall|i: int| 0 <= i < members.len() ==> (#[trigger] members[i]).0 != name {
                assert forall|i: int| 0 <= i < rest.len() implies (#[trigger] rest[i]).0 != name by {
                    assert(members[i + 1].0 != name);
                }
            }
            assert forall|at: int| #[trigger] is_first_named(members, at, name) implies member_named(
                members,
                name,
            ) == Some(members[at].1) by {
                assert forall|i: int| 0 <= i < at - 1 implies (#[trigger] rest[i]).0 != name by {
                    assert(members[i + 1].0 != name);
                }
                assert(is_first_named(rest, at - 1, name));
            }
        }
    }
}

/// An answer confirms the mail exactly if it is an object whose member `successful`
/// is true. Otherwise its member `error`, if that is a text, is the error.
pub proof fn law_reply_confirms_by_its_member(
    members: Seq<(Seq<char>, MemberView)>,
    at: int,
    error_at: int,
    other: MemberView,
)
    ensures
        is_first_named(members, at, "successful"@) ==> (verdict(DocumentView::Object(members))
            is Ok <==> members[at].1 == MemberView::Bool(true)),
        (forall|i: int| 0 <= i < members.len() ==> (#[trigger] members[i]).0 != "successful"@)
            ==> verdict(DocumentView::Object(members)) is Err,
        verdict(DocumentView::Object(members)) is Err ==> {
            &&& is_first_named(members, error_at, "error"@) ==> verdict(
                DocumentView::Object(members),
            ) == Err::<(), Seq<char>>(
                match members[error_at].1 {
                    MemberView::Text(error) => error,
                    _ => "Unknown Composio error"@,
                },
            )
            &&& (forall|i: int| 0 <= i < members.len() ==> (#[trigger] members[i]).0 != "error"@)
                ==> verdict(DocumentView::Object(members)) == Err::<(), Seq<char>>(
                "Unknown Composio error"@,
            )
        },
        verdict(DocumentView::Plain(other)) == Err::<(), Seq<char>>("Unknown Composio error"@),
{
    law_member_is_the_first_with_its_name(members, "successful"@);
    law_member_is_the_first_with_its_name(members, "error"@);
}

/// Sending the mail fails with a message for each way in which it can: no client,
/// not sent, not read, a status outside 200 to 299, no JSON, or no confirmation.
pub proof fn law_delivery_fails_with_its_reason(exchange: Exchange)
    ensures
        exchange matches Exchange::NoClient { error } ==> delivery(exchange) == Err::<
            (),
            Seq<char>,
        >("Failed to create HTTP client: "@ + error@),
        exchange matches Exchange::NotSent { error } ==> delivery(exchange) == Err::<
            (),
            Seq<char>,
        >("Composio request failed: "@ + error@),
        exchange matches Exchange::Unread { error } ==> delivery(exchange) == Err::<(), Seq<char>>(
            "Failed reading Composio response: "@ + error@,
        ),
        exchange matches Exchange::Answered { status, body } ==> {
            &&& status < 200 || status >= 300 ==> delivery(exchange) == Err::<(), Seq<char>>(
                "Composio returned HTTP "@ + status_text(status) + ": "@ + body@,
            )
            &&& 200 <= status < 300 ==> delivery(exchange) == match json_document(body@) {
                Ok(document) => verdict(document),
                Err(error) => Err(
                    "Invalid Composio response: "@ + error + " | "@ + body@,
                ),
            }
        },
        exchange.well_formed() <==> (exchange matches Exchange::Answered { status, .. } ==> 100
            <= status <= 999),
{
}

/// What the call for a developer does with each answer. Missing settings end it with
/// a line that tells which; a host that is set leads straight to the mail, and else
/// `hostname` is run first; and the answer to the mail ends it with a line that
/// tells how it went.
pub proof fn law_escalation_takes_its_course(
    alert: AlertView,
    variables: AlertVariables,
    made: AlertSettingsView,
    output: Option<Vec<u8>>,
    exchange: Exchange,
)
    ensures
        ({
            let first = first_escalation_turn(alert);
            &&& first.log == seq!["[ESCALATION] Automated recovery failed"@]
            &&& first.next == EscalationNextView::Await {
                stage: EscalationStageView::Configuring { alert },
                request: EscalationRequestView::ReadVariables,
            }
        }),
        ({
            let turn = next_escalation_turn(
                EscalationStageView::Configuring { alert },
                EscalationEvent::Variables(variables),
            );
            match settings(variables) {
                Err(error) => {
                    &&& turn.log == seq!["[ESCALATION FAILED] Gmail notification failed: "@ + error]
                    &&& turn.next is Finished
                },
                Ok(settings) => {
                    &&& turn.log.len() == 0
                    &&& turn.next == match variables.host {
                        Some(host) => EscalationNextView::Await {
                            stage: EscalationStageView::Sending,
                            request: EscalationRequestView::Send(mail(settings, host@, alert)),
                        },
                        None => EscalationNextView::Await {
                            stage: EscalationStageView::Naming { alert, settings },
                            request: EscalationRequestView::RunHostname,
                        },
                    }
                },
            }
        }),
        ({
            let turn = next_escalation_turn(
                EscalationStageView::Naming { alert, settings: made },
                EscalationEvent::Hostname(output),
            );
            &&& turn.log.len() == 0
            &&& turn.next == EscalationNextView::Await {
                stage: EscalationStageView::Sending,
                request: EscalationRequestView::Send(mail(made, host(None, output), alert)),
            }
        }),
        ({
            let turn = next_escalation_turn(
                EscalationStageView::Sending,
                EscalationEvent::Sent(exchange),
            );
            &&& turn.next is Finished
            &&& turn.log == seq![
                match delivery(exchange) {
                    Ok(()) => "[ESCALATION] Developer notified successfully via Gmail"@,
                    Err(error) => "[ESCALATION FAILED] Gmail notification failed: "@ + error,
                },
            ]
        }),
{
}

/// What each stage of the call for a developer waits for.
pub proof fn law_escalation_stage_waits_for_its_event(
    stage: EscalationStageView,
    event: EscalationEvent,
)
    ensures
        stage is Configuring ==> (stage.awaits(event) <==> event is Variables),
        stage is Naming ==> (stage.awaits(event) <==> event is Hostname),
        stage is Sending ==> (stage.awaits(event) <==> (event matches EscalationEvent::Sent(exchange)
            && exchange.well_formed())),
{
}

/// The alert, the settings and the request stand for what they hold.
pub proof fn law_request_stands_for_what_it_holds(
    alert: Alert,
    made: AlertSettings,
    request: AlertRequest,
)
    ensures
        alert@.incident == alert.incident@,
        alert@.reason == alert.reason@,
        made@.api_key == made.api_key@,
        made@.connected_account_id == made.connected_account_id@,
        made@.recipient == made.recipient@,
        request@.url == request.url@,
        request@.timeout_secs == request.timeout_secs,
        request@.body == request.body@,
        request@.headers.len() == request.headers@.len(),
        forall|i: int|
            0 <= i < request.headers@.len() ==> (#[trigger] request@.headers[i]).0
                == request.headers@[i].0@ && request@.headers[i].1 == request.headers@[i].1@,
{
}

/// A turn of the call for a developer stands for what it holds.
pub proof fn law_escalation_turn_stands_for_what_it_holds(turn: EscalationTurn)
    ensures
        turn@.log == texts(turn.log@),
        turn.next is Finished ==> turn@.next is Finished,
        turn.next matches EscalationNext::Await { stage, request } ==> {
            &&& turn@.next == EscalationNextView::Await { stage: stage@, request: request@ }
            &&& stage matches EscalationStage::Configuring { alert } ==> stage@
                == (EscalationStageView::Configuring { alert: alert@ })
            &&& stage matches EscalationStage::Naming { alert, settings } ==> stage@
                == (EscalationStageView::Naming { alert: alert@, settings: settings@ })
            &&& stage is Sending ==> stage@ is Sending
            &&& request is ReadVariables ==> request@ is ReadVariables
            &&& request is RunHostname ==> request@ is RunHostname
            &&& request matches EscalationRequest::Send(sent) ==> request@
                == EscalationRequestView::Send(sent@)
        },
{
}

} // verus!
