use aegira::escalation::{
    AlertVariables, EscalationEvent, EscalationRequest, EscalationStage, Exchange,
};
use aegira::incident::{
    checked_process_incident, failed_recovery, incident_step, opening_lines, process_incident,
    unknown_incident, IncidentEvent, IncidentNext, IncidentRequest, IncidentStage, IncidentTurn,
    PAID_MODE,
};
use aegira::recovery::{
    recover_with_rule, recovery_step, RecoveryEvent, RecoveryNext, RecoveryRequest, RecoveryStage,
};
use aegira::remedy::{
    is_aegira_service, perform_remediation, probe_is_healthy, verification_probe, verify_recovery,
    ProbeOutcome,
};
use aegira::rules::{Remediation, Rule, Verification};

fn service_restart(service: &str) -> Remediation {
    Remediation::ServiceRestart {
        service: service.to_string(),
    }
}

fn service_active() -> Verification {
    Verification::ServiceActive {
        service: "nginx".to_string(),
    }
}

fn container_running() -> Verification {
    Verification::ContainerRunning {
        container: "db".to_string(),
    }
}

fn rule(service: &str) -> Rule {
    Rule {
        id: "NGX-1".to_string(),
        name: "Nginx down".to_string(),
        severity: String::new(),
        error_patterns: vec!["nginx".to_string()],
        context_patterns: vec!["down".to_string()],
        remediation: service_restart(service),
        verification: service_active(),
        priority: 10,
    }
}

fn finished(success: bool, stdout: &str) -> ProbeOutcome {
    ProbeOutcome::Finished {
        success,
        stdout: stdout.as_bytes().to_vec(),
    }
}

#[test]
fn aegira_knows_its_own_name() {
    for service in [
        "aegira",
        "aegira.service",
        " aegira.service\n",
        "AEGIRA",
        "Aegira.service",
        "aegira.service.service",
        "\u{a0}aegira\t",
        "\u{a0}aegira",
        " aegira.service",
    ] {
        assert!(is_aegira_service(service), "{:?}", service);
    }
    for service in [
        "",
        "nginx",
        "aegira2",
        "my-aegira",
        "aegira.SERVICE",
        "aegira.service x",
        "aegira .service",
        ".service",
    ] {
        assert!(!is_aegira_service(service), "{:?}", service);
    }
}

#[test]
fn aegira_does_not_restart_itself() {
    assert_eq!(
        perform_remediation(&service_restart("Aegira.service")).unwrap_err(),
        "Refusing remediation: rule attempts to restart aegira.service"
    );
}

#[test]
fn a_service_is_restarted() {
    let restart = perform_remediation(&service_restart("nginx")).unwrap();
    assert_eq!(restart.log, "[RECOVERY] Restarting service: nginx");
    assert_eq!(restart.launch.log, "[EXEC] systemctl restart nginx");
    assert_eq!(restart.launch.command.program, "sudo");
    assert_eq!(
        restart.launch.command.args,
        vec!["/bin/systemctl", "restart", "nginx"]
    );
}

#[test]
fn a_container_is_restarted_whatever_its_name() {
    let restart = perform_remediation(&Remediation::ContainerRestart {
        container: "aegira".to_string(),
    })
    .unwrap();
    assert_eq!(restart.log, "[RECOVERY] Restarting container: aegira");
    assert_eq!(restart.launch.log, "[EXEC] docker restart aegira");
    assert_eq!(restart.launch.command.program, "docker");
    assert_eq!(restart.launch.command.args, vec!["restart", "aegira"]);
}

#[test]
fn checks_ask_systemctl_and_docker() {
    let probe = verification_probe(&service_active());
    assert_eq!(probe.log, "[VERIFY] Checking service: nginx");
    assert_eq!(probe.command.program, "sudo");
    assert_eq!(
        probe.command.args,
        vec!["/bin/systemctl", "is-active", "nginx"]
    );
    let probe = verification_probe(&container_running());
    assert_eq!(probe.log, "[VERIFY] Checking container: db");
    assert_eq!(probe.command.program, "docker");
    assert_eq!(
        probe.command.args,
        vec!["inspect", "-f", "{{.State.Running}}", "db"]
    );
}

#[test]
fn output_is_judged_without_the_space_around_it() {
    assert!(probe_is_healthy(&service_active(), true, "active\n"));
    assert!(!probe_is_healthy(&service_active(), false, "active\n"));
    assert!(!probe_is_healthy(&service_active(), true, "inactive\n"));
    assert!(!probe_is_healthy(&service_active(), true, "Active"));
    assert!(probe_is_healthy(&container_running(), true, " true "));
    assert!(!probe_is_healthy(&container_running(), true, "active"));
}

#[test]
fn a_check_leaves_a_line() {
    let cases = vec![
        (service_active(), finished(true, "active\n"), true, "[VERIFY] Service is active"),
        (service_active(), finished(true, "failed\n"), false, "[VERIFY] Service is NOT active"),
        (container_running(), finished(true, "true\n"), true, "[VERIFY] Container is running"),
        (container_running(), finished(false, "true\n"), false, "[VERIFY] Container is NOT running"),
        (
            container_running(),
            ProbeOutcome::Failed {
                error: "no docker".to_string(),
            },
            false,
            "[VERIFY ERROR] no docker",
        ),
    ];
    for (verification, outcome, healthy, line) in cases {
        let finding = verify_recovery(&verification, outcome);
        assert_eq!(finding.healthy, healthy);
        assert_eq!(finding.log, line);
    }
}

#[test]
fn bytes_that_are_no_text_are_not_healthy() {
    let outcome = ProbeOutcome::Finished {
        success: true,
        stdout: b"active\xff".to_vec(),
    };
    assert!(!verify_recovery(&service_active(), outcome).healthy);
}

#[test]
fn a_recovery_checks_five_times_and_gives_up() {
    let rule = rule("nginx");
    let mut turn = recover_with_rule(&rule);
    assert_eq!(
        turn.log,
        vec![
            "[MATCH] Rule: Nginx down",
            "[MATCH] Rule ID: NGX-1",
            "[RECOVERY] Restarting service: nginx",
            "[EXEC] systemctl restart nginx",
        ]
    );
    let mut events = 0;
    let mut runs = 0;
    let mut checks = Vec::new();
    let outcome = loop {
        let (stage, request) = match turn.next {
            RecoveryNext::Await { stage, request } => (stage, request),
            RecoveryNext::Ended(outcome) => break outcome,
        };
        let event = match request {
            RecoveryRequest::Run(_) => {
                runs += 1;
                RecoveryEvent::Restarted(Ok(()))
            }
            RecoveryRequest::Pause { secs } => {
                assert_eq!(secs, 2);
                RecoveryEvent::Paused
            }
            RecoveryRequest::Check(_) => {
                checks.push(turn.log[0].clone());
                RecoveryEvent::Checked(finished(true, "activating"))
            }
        };
        events += 1;
        turn = recovery_step(&rule, stage, event);
    };
    assert_eq!(
        outcome,
        Err("Remediation executed but health verification failed".to_string())
    );
    assert_eq!((runs, events), (1, 12));
    assert_eq!(
        checks,
        vec![
            "[VERIFY] Verification attempt 1/5",
            "[VERIFY] Verification attempt 2/5",
            "[VERIFY] Verification attempt 3/5",
            "[VERIFY] Verification attempt 4/5",
            "[VERIFY] Verification attempt 5/5",
        ]
    );
}

#[test]
fn a_healthy_check_ends_the_recovery() {
    let rule = rule("nginx");
    let stage = RecoveryStage::Checking { attempt: 3 };
    let turn = recovery_step(
        &rule,
        stage,
        RecoveryEvent::Checked(finished(true, "active")),
    );
    assert_eq!(turn.log, vec!["[VERIFY] Service is active"]);
    assert!(matches!(turn.next, RecoveryNext::Ended(Ok(()))));
}

#[test]
fn a_failed_restart_ends_the_recovery() {
    let rule = rule("nginx");
    let turn = recovery_step(
        &rule,
        RecoveryStage::Restarting,
        RecoveryEvent::Restarted(Err("boom".to_string())),
    );
    assert!(turn.log.is_empty());
    match turn.next {
        RecoveryNext::Ended(outcome) => assert_eq!(outcome, Err("boom".to_string())),
        other => panic!("{:?}", other),
    }
}

#[test]
fn a_rule_against_aegira_fails_at_once() {
    let turn = recover_with_rule(&rule("aegira"));
    assert_eq!(turn.log, vec!["[MATCH] Rule: Nginx down", "[MATCH] Rule ID: NGX-1"]);
    assert!(matches!(turn.next, RecoveryNext::Ended(Err(_))));
}

fn alert(turn: IncidentTurn) -> (String, String) {
    match turn.next {
        IncidentNext::Await {
            stage: IncidentStage::Escalating {
                stage: EscalationStage::Configuring { alert },
            },
            request: IncidentRequest::Escalation(EscalationRequest::ReadVariables),
        } => (alert.incident, alert.reason),
        other => panic!("{:?}", other),
    }
}

fn told(incident: &str, reason: &str) -> (String, String) {
    (incident.to_string(), reason.to_string())
}

#[test]
fn an_unknown_incident_goes_to_a_developer() {
    assert!(PAID_MODE);
    let turn = process_incident(&[], "[ERROR] odd");
    assert_eq!(
        turn.log,
        vec![
            "================ INCIDENT ================",
            "[ERROR] odd",
            "[MATCH] No known remediation rule found",
            "[ESCALATION] Automated recovery failed",
        ]
    );
    assert_eq!(alert(turn), told("[ERROR] odd", "Unknown incident"));
}

#[test]
fn without_payment_nobody_is_called() {
    let turn = unknown_incident(false, "[ERROR] odd", vec!["before".to_string()]);
    assert_eq!(
        turn.log,
        vec![
            "before",
            "[MATCH] No known remediation rule found",
            "[FREE] Unknown incident. No automated remediation.",
        ]
    );
    assert!(matches!(turn.next, IncidentNext::Finished));
    let turn = failed_recovery(false, "[ERROR] odd", vec![], "R", "broken");
    assert_eq!(
        turn.log,
        vec![
            "[RECOVERY FAILED] broken",
            "[FREE] Recovery failed. Developer intervention required.",
        ]
    );
    assert!(matches!(turn.next, IncidentNext::Finished));
}

#[test]
fn a_failed_recovery_names_the_rule() {
    let turn = failed_recovery(true, "[ERROR] odd", vec![], "R", "broken");
    assert_eq!(
        turn.log,
        vec![
            "[RECOVERY FAILED] broken",
            "[ESCALATION] Automated recovery failed",
        ]
    );
    assert_eq!(alert(turn), told("[ERROR] odd", "Rule 'R' failed: broken"));
}

#[test]
fn an_incident_is_resolved() {
    let rules = vec![rule("nginx")];
    let mut turn = process_incident(&rules, "[ERROR] NGINX is down");
    assert_eq!(turn.log[2], "[MATCH] Confidence score: 80");
    let mut lines = turn.log.clone();
    loop {
        let (stage, request) = match turn.next {
            IncidentNext::Await { stage, request } => (stage, request),
            IncidentNext::Finished => break,
        };
        let event = match request {
            IncidentRequest::Recovery(RecoveryRequest::Run(_)) => {
                IncidentEvent::Recovery(RecoveryEvent::Restarted(Ok(())))
            }
            IncidentRequest::Recovery(RecoveryRequest::Pause { .. }) => {
                IncidentEvent::Recovery(RecoveryEvent::Paused)
            }
            IncidentRequest::Recovery(RecoveryRequest::Check(_)) => {
                IncidentEvent::Recovery(RecoveryEvent::Checked(finished(true, "active\n")))
            }
            IncidentRequest::Clock => IncidentEvent::Elapsed {
                secs: 2,
                nanos: 345_678_901,
            },
            IncidentRequest::Escalation(request) => panic!("{:?}", request),
        };
        turn = incident_step(stage, event);
        lines.extend(turn.log.clone());
    }
    assert_eq!(
        lines.last().unwrap(),
        "[RESOLVED] Incident automatically recovered in 2.35s"
    );
}

#[test]
fn a_rule_against_aegira_goes_to_a_developer() {
    let rules = vec![rule("aegira.service")];
    let turn = process_incident(&rules, "nginx down");
    assert_eq!(
        turn.log[turn.log.len() - 2],
        "[RECOVERY FAILED] Refusing remediation: rule attempts to restart aegira.service"
    );
    assert_eq!(
        alert(turn),
        told(
            "nginx down",
            "Rule 'NGX-1' failed: Refusing remediation: rule attempts to restart aegira.service"
        )
    );
}

#[test]
fn the_mail_for_an_incident_tells_that_incident() {
    let rules = vec![rule("nginx")];
    let mut turn = process_incident(&rules, "[ERROR] nginx is down");
    let mut lines = Vec::new();
    let mut mails = Vec::new();
    loop {
        lines.extend(turn.log.clone());
        let (stage, request) = match turn.next {
            IncidentNext::Await { stage, request } => (stage, request),
            IncidentNext::Finished => break,
        };
        let event = match request {
            IncidentRequest::Recovery(RecoveryRequest::Run(_)) => {
                IncidentEvent::Recovery(RecoveryEvent::Restarted(Err("boom".to_string())))
            }
            IncidentRequest::Escalation(EscalationRequest::ReadVariables) => {
                IncidentEvent::Escalation(EscalationEvent::Variables(AlertVariables {
                    api_key: Some("key".to_string()),
                    connected_account_id: Some("account".to_string()),
                    recipient: Some("dev@example.com".to_string()),
                    host: None,
                }))
            }
            IncidentRequest::Escalation(EscalationRequest::RunHostname) => {
                IncidentEvent::Escalation(EscalationEvent::Hostname(None))
            }
            IncidentRequest::Escalation(EscalationRequest::Send(request)) => {
                mails.push(request.body);
                IncidentEvent::Escalation(EscalationEvent::Sent(Exchange::Answered {
                    status: 200,
                    body: "{\"successful\":true}".to_string(),
                }))
            }
            other => panic!("{:?}", other),
        };
        turn = incident_step(stage, event);
    }
    assert_eq!(
        lines[lines.len() - 3..],
        [
            "[RECOVERY FAILED] boom",
            "[ESCALATION] Automated recovery failed",
            "[ESCALATION] Developer notified successfully via Gmail",
        ]
    );
    assert_eq!(mails.len(), 1);
    assert!(mails[0].contains("Incident: [ERROR] nginx is down\\nReason: Rule 'NGX-1' failed: boom"));
    assert!(mails[0].contains("Recovery failed on unknown-host"));
}

#[test]
fn an_incident_that_cannot_be_scored_is_not_taken_up() {
    let mut heavy = rule("nginx");
    heavy.priority = i32::MAX;
    let rules = vec![heavy];
    assert!(checked_process_incident(&rules, "nginx").is_none());
    assert_eq!(
        opening_lines("nginx"),
        vec!["================ INCIDENT ================", "nginx"]
    );
    assert!(checked_process_incident(&rules, "apache").is_some());
}
