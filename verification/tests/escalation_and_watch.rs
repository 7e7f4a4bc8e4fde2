use aegira::escalation::{
    alert_delivery, alert_settings, escalate_to_developer, escalation_step, get_env,
    host_from_output, hostname, invalid_reply, refused_reply, reply_verdict, send_composio_gmail,
    Alert, AlertSettings, AlertVariables, EscalationEvent, EscalationNext, EscalationRequest,
    Exchange,
};
use aegira::outside::{Document, Member};
use aegira::watcher::{
    poll_log, rules_line, start_lines, start_watch, take_line, tells_of_incident, watch_step,
    WatchEvent, WatchPhase, WatchRequest, WatchTurn, Watcher,
};

fn some(text: &str) -> Option<String> {
    Some(text.to_string())
}

fn settings() -> AlertSettings {
    AlertSettings {
        api_key: "key".to_string(),
        connected_account_id: "account".to_string(),
        recipient: "dev@example.com".to_string(),
    }
}

fn answered(status: u16, body: &str) -> Exchange {
    Exchange::Answered {
        status,
        body: body.to_string(),
    }
}

#[test]
fn a_missing_variable_is_named() {
    assert_eq!(get_env("X", some("v")), Ok("v".to_string()));
    assert_eq!(get_env("X", None), Err("Missing environment variable: X".to_string()));
    assert_eq!(
        alert_settings(None, None, None).unwrap_err(),
        "Missing environment variable: COMPOSIO_API_KEY"
    );
    assert_eq!(
        alert_settings(some("k"), None, None).unwrap_err(),
        "Missing environment variable: COMPOSIO_CONNECTED_ACCOUNT_ID"
    );
    assert_eq!(
        alert_settings(some("k"), some("a"), None).unwrap_err(),
        "Missing environment variable: AEGIRA_ALERT_EMAIL"
    );
    let made = alert_settings(some("k"), some("a"), some("")).unwrap();
    assert_eq!(
        (made.api_key.as_str(), made.connected_account_id.as_str(), made.recipient.as_str()),
        ("k", "a", "")
    );
}

#[test]
fn the_host_is_named() {
    assert_eq!(hostname(some(""), Some(b"box".to_vec())), "");
    assert_eq!(hostname(some("web-1"), None), "web-1");
    assert_eq!(hostname(None, Some(b" box\n".to_vec())), "box");
    assert_eq!(hostname(None, Some(b"b\xffx".to_vec())), "b\u{fffd}x");
    assert_eq!(hostname(None, Some(b" \n".to_vec())), "unknown-host");
    assert_eq!(hostname(None, None), "unknown-host");
    assert_eq!(host_from_output(Some("box ")), "box");
    assert_eq!(host_from_output(None), "unknown-host");
}

#[test]
fn the_mail_tells_what_happened() {
    let alert = Alert {
        incident: "[ERROR] \"disk\"".to_string(),
        reason: "Unknown incident".to_string(),
    };
    let request = send_composio_gmail(settings(), "web-1", &alert);
    assert_eq!(
        request.url,
        "https://backend.composio.dev/api/v3.1/tools/execute/GMAIL_SEND_EMAIL"
    );
    assert_eq!(
        request.headers,
        vec![
            ("x-api-key".to_string(), "key".to_string()),
            ("Content-Type".to_string(), "application/json".to_string()),
        ]
    );
    assert_eq!(request.timeout_secs, 15);
    assert_eq!(
        request.body,
        "{\"arguments\":{\"body\":\"Aegira requires developer attention.\\n\\nHost: web-1\\n\
         Incident: [ERROR] \\\"disk\\\"\\nReason: Unknown incident\\n\\n\
         Automated recovery was not completed successfully.\",\"is_html\":false,\
         \"recipient_email\":\"dev@example.com\",\
         \"subject\":\"[AEGIRA ALERT] Recovery failed on web-1\"},\
         \"connected_account_id\":\"account\",\"version\":\"latest\"}"
    );
    let value: serde_json::Value = serde_json::from_str(&request.body).unwrap();
    assert_eq!(value["arguments"]["is_html"], serde_json::Value::Bool(false));
}

#[test]
fn only_a_confirmation_counts_as_delivered() {
    assert_eq!(alert_delivery(answered(200, "{\"successful\":true}")), Ok(()));
    assert_eq!(
        alert_delivery(answered(201, "{\"error\":\"x\",\"successful\":true,\"data\":[1]}")),
        Ok(())
    );
    assert_eq!(
        alert_delivery(answered(200, "{\"successful\":false,\"error\":\"quota\"}")),
        Err("quota".to_string())
    );
    assert_eq!(
        alert_delivery(answered(200, "{\"successful\":\"true\"}")),
        Err("Unknown Composio error".to_string())
    );
    assert_eq!(
        alert_delivery(answered(200, "{\"successful\":true,\"successful\":null}")),
        Err("Unknown Composio error".to_string())
    );
    assert_eq!(
        alert_delivery(answered(299, "[true]")),
        Err("Unknown Composio error".to_string())
    );
}

#[test]
fn other_answers_are_failures() {
    assert_eq!(
        alert_delivery(answered(404, "nope")),
        Err("Composio returned HTTP 404 Not Found: nope".to_string())
    );
    assert_eq!(
        alert_delivery(answered(300, "{\"successful\":true}")),
        Err("Composio returned HTTP 300 Multiple Choices: {\"successful\":true}".to_string())
    );
    assert_eq!(
        alert_delivery(answered(799, "")),
        Err("Composio returned HTTP 799 <unknown status code>: ".to_string())
    );
    assert_eq!(
        alert_delivery(answered(200, "oops")),
        Err("Invalid Composio response: expected value at line 1 column 1 | oops".to_string())
    );
    let error = || "e".to_string();
    assert_eq!(
        alert_delivery(Exchange::NoClient { error: error() }),
        Err("Failed to create HTTP client: e".to_string())
    );
    assert_eq!(
        alert_delivery(Exchange::NotSent { error: error() }),
        Err("Composio request failed: e".to_string())
    );
    assert_eq!(
        alert_delivery(Exchange::Unread { error: error() }),
        Err("Failed reading Composio response: e".to_string())
    );
}

#[test]
fn a_refused_answer_is_quoted() {
    assert_eq!(
        refused_reply("500 Internal Server Error", "oops"),
        "Composio returned HTTP 500 Internal Server Error: oops"
    );
    assert_eq!(
        alert_delivery(answered(500, "oops")),
        Err("Composio returned HTTP 500 Internal Server Error: oops".to_string())
    );
    assert_eq!(
        invalid_reply("expected value", "oops"),
        "Invalid Composio response: expected value | oops"
    );
}

#[test]
fn a_document_says_whether_it_worked() {
    let named = |name: &str, member: Member| (name.to_string(), member);
    assert_eq!(
        reply_verdict(&Document::Object(vec![named("successful", Member::Bool(true))])),
        Ok(())
    );
    assert_eq!(
        reply_verdict(&Document::Object(vec![
            named("error", Member::Text("late".to_string())),
            named("successful", Member::Number),
        ])),
        Err("late".to_string())
    );
    assert_eq!(
        reply_verdict(&Document::Object(vec![named("error", Member::Null)])),
        Err("Unknown Composio error".to_string())
    );
    assert_eq!(
        reply_verdict(&Document::Plain(Member::Bool(true))),
        Err("Unknown Composio error".to_string())
    );
}

fn variables(api_key: Option<String>, host: Option<String>) -> EscalationEvent {
    EscalationEvent::Variables(AlertVariables {
        api_key,
        connected_account_id: some("account"),
        recipient: some("dev@example.com"),
        host,
    })
}

#[test]
fn without_settings_nothing_is_sent() {
    let turn = escalate_to_developer("[ERROR] odd", "Unknown incident");
    assert_eq!(turn.log, vec!["[ESCALATION] Automated recovery failed"]);
    let stage = match turn.next {
        EscalationNext::Await { stage, request } => {
            assert!(matches!(request, EscalationRequest::ReadVariables));
            stage
        }
        EscalationNext::Finished => panic!("over too early"),
    };
    let turn = escalation_step(stage, variables(None, None));
    assert_eq!(
        turn.log,
        vec![
            "[ESCALATION FAILED] Gmail notification failed: \
             Missing environment variable: COMPOSIO_API_KEY"
        ]
    );
    assert!(matches!(turn.next, EscalationNext::Finished));
}

fn escalate(host: Option<String>, reply: &str) -> (Vec<String>, Vec<String>) {
    let mut turn = escalate_to_developer("[ERROR] odd", "Unknown incident");
    let mut lines = Vec::new();
    let mut requests = Vec::new();
    loop {
        lines.extend(turn.log.clone());
        let (stage, request) = match turn.next {
            EscalationNext::Await { stage, request } => (stage, request),
            EscalationNext::Finished => return (lines, requests),
        };
        let event = match request {
            EscalationRequest::ReadVariables => {
                requests.push("variables".to_string());
                variables(some("key"), host.clone())
            }
            EscalationRequest::RunHostname => {
                requests.push("hostname".to_string());
                EscalationEvent::Hostname(Some(b"box\n".to_vec()))
            }
            EscalationRequest::Send(request) => {
                requests.push(request.body);
                EscalationEvent::Sent(answered(200, reply))
            }
        };
        turn = escalation_step(stage, event);
    }
}

#[test]
fn the_developer_is_notified() {
    let (lines, requests) = escalate(some("web-1"), "{\"successful\":true}");
    assert_eq!(
        lines,
        vec![
            "[ESCALATION] Automated recovery failed",
            "[ESCALATION] Developer notified successfully via Gmail",
        ]
    );
    assert_eq!(requests.len(), 2);
    assert!(requests[1].contains("Recovery failed on web-1"));
}

#[test]
fn the_host_is_asked_for_where_it_is_not_set() {
    let (lines, requests) = escalate(None, "{}");
    assert_eq!(
        lines[1],
        "[ESCALATION FAILED] Gmail notification failed: Unknown Composio error"
    );
    assert_eq!(requests.len(), 3);
    assert_eq!(requests[1], "hostname");
    assert!(requests[2].contains("Recovery failed on box"));
}

#[test]
fn aegira_says_hello() {
    assert_eq!(
        start_lines(true),
        vec!["[INFO] Aegira Local Recovery Engine Started", "[INFO] Mode: PAID"]
    );
    assert_eq!(start_lines(false)[1], "[INFO] Mode: FREE");
    assert_eq!(rules_line(0), "[WARNING] No remediation rules loaded");
    assert_eq!(rules_line(12), "[INFO] 12 remediation rules ready");
}

#[test]
fn only_marked_lines_are_incidents() {
    assert!(tells_of_incident("x [ERROR] y"));
    assert!(tells_of_incident("[CRITICAL]"));
    assert!(!tells_of_incident("[error] ERROR CRITICAL [WARN]"));
}

#[test]
fn a_line_is_taken_once() {
    let turn = take_line(100, 11, "[INFO] fine\n");
    assert_eq!(turn.watcher.position, 111);
    assert!(turn.log.is_empty());
    assert!(matches!(turn.request, WatchRequest::ReadLine));
    let turn = take_line(100, 15, "  [ERROR] disk\n");
    assert_eq!(turn.watcher.position, 115);
    assert_eq!(turn.log, vec!["[WATCHER] Incident detected: [ERROR] disk"]);
    match turn.request {
        WatchRequest::Handle { incident } => assert_eq!(incident, "[ERROR] disk"),
        other => panic!("{:?}", other),
    }
    let turn = take_line(100, 0, "");
    assert_eq!(turn.watcher.position, 100);
    assert!(matches!(turn.request, WatchRequest::Sleep { secs: 2 }));
}

#[test]
fn a_shorter_log_is_read_from_its_start() {
    let turn = poll_log(100, 40);
    assert_eq!(turn.log, vec!["[INFO] Log rotation/truncation detected"]);
    assert_eq!(turn.watcher.position, 0);
    assert!(matches!(turn.request, WatchRequest::OpenAt { position: 0 }));
    let turn = poll_log(100, 0);
    assert_eq!(turn.log, vec!["[INFO] Log rotation/truncation detected"]);
    assert_eq!(turn.watcher.position, 0);
    assert!(matches!(turn.request, WatchRequest::Sleep { secs: 2 }));
}

#[test]
fn a_log_is_read_on_where_it_has_grown() {
    let turn = poll_log(100, 100);
    assert!(turn.log.is_empty());
    assert!(matches!(turn.request, WatchRequest::Sleep { secs: 2 }));
    let turn = poll_log(100, 130);
    assert!(turn.log.is_empty());
    assert!(matches!(turn.request, WatchRequest::OpenAt { position: 100 }));
}

fn line(bytes: u64, text: &str) -> WatchEvent {
    WatchEvent::Line {
        bytes,
        text: text.to_string(),
    }
}

fn follow(events: Vec<WatchEvent>) -> WatchTurn {
    let mut turn = start_watch();
    for event in events {
        turn = watch_step(turn.watcher, event);
    }
    turn
}

#[test]
fn nothing_is_read_twice() {
    let turn = follow(vec![
        WatchEvent::AtEnd { position: 10 },
        WatchEvent::Measured { size: 30 },
        WatchEvent::Open,
        line(8, "[INFO] a\n"),
        line(12, "[ERROR] bcd\n"),
        WatchEvent::Handled,
        line(0, ""),
        WatchEvent::Slept,
        WatchEvent::Measured { size: 30 },
    ]);
    assert_eq!(turn.watcher.position, 30);
    assert!(turn.log.is_empty());
    assert!(matches!(turn.request, WatchRequest::Sleep { secs: 2 }));
}

#[test]
fn a_growing_log_is_read_on_right_behind_what_was_read() {
    let turn = follow(vec![
        WatchEvent::AtEnd { position: 10 },
        WatchEvent::Measured { size: 18 },
        WatchEvent::Open,
        line(8, "[INFO] a\n"),
        line(0, ""),
        WatchEvent::Slept,
        WatchEvent::Measured { size: 18 },
        WatchEvent::Slept,
        WatchEvent::NotMeasured {
            error: "busy".to_string(),
        },
        WatchEvent::Slept,
        WatchEvent::Measured { size: 40 },
    ]);
    assert!(matches!(turn.request, WatchRequest::OpenAt { position: 18 }));
}

#[test]
fn the_watch_ends_only_at_its_start() {
    let error = || "denied".to_string();
    let turn = follow(vec![WatchEvent::NotOpened { error: error() }]);
    assert_eq!(turn.log, vec!["[FATAL] Failed to open monitored log: denied"]);
    assert!(matches!(turn.request, WatchRequest::Stop));
    let turn = follow(vec![WatchEvent::NotSought { error: error() }]);
    assert_eq!(turn.log, vec!["[FATAL] Failed to seek log: denied"]);
    assert!(matches!(turn.request, WatchRequest::Stop));
    let later = vec![
        (WatchPhase::Measuring, WatchEvent::NotMeasured { error: error() }, "[ERROR] Failed to stat log: denied"),
        (WatchPhase::Reopening, WatchEvent::NotOpened { error: error() }, "[ERROR] Failed to open log: denied"),
        (WatchPhase::Reopening, WatchEvent::NotSought { error: error() }, "[ERROR] Failed to seek log: denied"),
        (WatchPhase::Reading, WatchEvent::NotRead { error: error() }, "[ERROR] Failed reading log: denied"),
    ];
    for (phase, event, message) in later {
        let turn = watch_step(Watcher { position: 7, phase }, event);
        assert_eq!(turn.log, vec![message]);
        assert_eq!(turn.watcher.position, 7);
        assert!(matches!(turn.request, WatchRequest::Sleep { secs: 2 }));
    }
}

#[test]
fn the_watch_starts_at_the_end_of_the_log() {
    let turn = start_watch();
    assert!(matches!(turn.request, WatchRequest::OpenAtEnd));
    let turn = follow(vec![WatchEvent::AtEnd { position: 500 }]);
    assert_eq!(turn.log, vec!["[INFO] Monitoring new log entries..."]);
    assert_eq!(turn.watcher.position, 500);
    assert!(matches!(turn.request, WatchRequest::Measure));
}

#[test]
fn every_marked_line_is_handled_once() {
    let lines = vec![
        (9u64, "[INFO] a\n"),
        (12, "[ERROR] bcd\n"),
        (15, " [CRITICAL] e \n"),
        (1, "\n"),
        (12, "[ERROR] bcd\n"),
    ];
    let mut watcher = Watcher {
        position: 0,
        phase: WatchPhase::Reading,
    };
    let mut handled = Vec::new();
    for (bytes, text) in lines {
        let turn = watch_step(watcher, line(bytes, text));
        watcher = turn.watcher;
        if let WatchRequest::Handle { incident } = turn.request {
            handled.push(incident);
            watcher = watch_step(watcher, WatchEvent::Handled).watcher;
        }
    }
    assert_eq!(handled, vec!["[ERROR] bcd", "[CRITICAL] e", "[ERROR] bcd"]);
    assert_eq!(watcher.position, 49);
}
