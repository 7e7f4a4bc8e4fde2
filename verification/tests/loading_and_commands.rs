use aegira::command::{
    command_step, execute_command, CommandEvent, CommandStep, COMMAND_POLL_MILLIS,
    COMMAND_TIMEOUT_SECS,
};
use aegira::loading::{
    is_rule_file, load_all_rules, load_rules_from_directory, rule_entries, DirectoryContent,
    FileContent, RuleFile,
};
use aegira::rules::{find_best_rule, Remediation, Rule, Verification};

fn rule(id: &str) -> Rule {
    Rule {
        id: id.to_string(),
        name: id.to_string(),
        severity: String::new(),
        error_patterns: vec!["disk".to_string()],
        context_patterns: vec!["full".to_string()],
        remediation: Remediation::ContainerRestart {
            container: "db".to_string(),
        },
        verification: Verification::ContainerRunning {
            container: "db".to_string(),
        },
        priority: 0,
    }
}

fn file(path: &str, content: FileContent) -> RuleFile {
    RuleFile {
        path: path.to_string(),
        content,
    }
}

fn ids(rules: &[Rule]) -> Vec<&str> {
    rules.iter().map(|rule| rule.id.as_str()).collect()
}

#[test]
fn rule_files_end_in_json() {
    assert!(is_rule_file(Some("json")));
    assert!(!is_rule_file(Some("JSON")));
    assert!(!is_rule_file(Some("txt")));
    assert!(!is_rule_file(None));
}

#[test]
fn the_rule_files_of_a_directory_are_chosen_in_order() {
    let some = |extension: &str| Some(extension.to_string());
    let extensions = vec![some("json"), None, some("txt"), some("json"), some("JSON"), some("json")];
    assert_eq!(rule_entries(&extensions), vec![0, 3, 5]);
    assert_eq!(rule_entries(&vec![]), Vec::<usize>::new());
    assert_eq!(rule_entries(&vec![None, some("")]), Vec::<usize>::new());
}

#[test]
fn a_missing_directory_has_no_rules() {
    let loaded = load_rules_from_directory("/rules", DirectoryContent::Missing);
    assert!(loaded.rules.is_empty());
    assert_eq!(loaded.log, vec!["[RULES] Directory does not exist: /rules"]);
}

#[test]
fn an_unreadable_directory_has_no_rules() {
    let loaded =
        load_rules_from_directory("/rules", DirectoryContent::Unreadable("denied".to_string()));
    assert!(loaded.rules.is_empty());
    assert_eq!(loaded.log, vec!["[RULES ERROR] Failed to read /rules: denied"]);
}

#[test]
fn bad_files_are_skipped() {
    let loaded = load_rules_from_directory(
        "/rules",
        DirectoryContent::Listed(vec![
            file("\"/rules/a.json\"", FileContent::Parsed(rule("a"))),
            file("\"/rules/b.json\"", FileContent::Unreadable("gone".to_string())),
            file("\"/rules/c.json\"", FileContent::Invalid("no id".to_string())),
            file("\"/rules/d.json\"", FileContent::Parsed(rule("d"))),
        ]),
    );
    assert_eq!(ids(&loaded.rules), vec!["a", "d"]);
    assert_eq!(
        loaded.log,
        vec![
            "[RULES] Loaded: a",
            "[RULES ERROR] Failed reading \"/rules/b.json\": gone",
            "[RULES ERROR] Invalid rule \"/rules/c.json\": no id",
            "[RULES] Loaded: d",
        ]
    );
}

#[test]
fn built_in_rules_come_first() {
    let loaded = load_all_rules(
        DirectoryContent::Listed(vec![file("b", FileContent::Parsed(rule("builtin")))]),
        DirectoryContent::Listed(vec![
            file("c", FileContent::Parsed(rule("custom"))),
            file("d", FileContent::Parsed(rule("other"))),
        ]),
    );
    assert_eq!(ids(&loaded.rules), vec!["builtin", "custom", "other"]);
    assert_eq!(
        loaded.log,
        vec![
            "[RULES] Loading built-in rules...",
            "[RULES] Loaded: builtin",
            "[RULES] Built-in rules loaded: 1",
            "[RULES] Loading custom rules...",
            "[RULES] Loaded: custom",
            "[RULES] Loaded: other",
            "[RULES] Custom rules loaded: 2",
            "[RULES] Total rules available: 3",
        ]
    );
    assert_eq!(find_best_rule(&loaded.rules, "disk full").unwrap().0.id, "builtin");
}

#[test]
fn loading_names_the_two_directories() {
    let loaded = load_all_rules(DirectoryContent::Missing, DirectoryContent::Missing);
    assert!(loaded.rules.is_empty());
    assert_eq!(
        loaded.log,
        vec![
            "[RULES] Loading built-in rules...",
            "[RULES] Directory does not exist: /home/pikachu/aegira/rules/builtin",
            "[RULES] Built-in rules loaded: 0",
            "[RULES] Loading custom rules...",
            "[RULES] Directory does not exist: /home/pikachu/aegira/rules/custom",
            "[RULES] Custom rules loaded: 0",
            "[RULES] Total rules available: 0",
        ]
    );
}

#[test]
fn systemctl_goes_through_sudo() {
    let launch = execute_command(
        "systemctl",
        vec!["restart".to_string(), "nginx".to_string()],
    );
    assert_eq!(launch.log, "[EXEC] systemctl restart nginx");
    assert_eq!(launch.executable, "systemctl");
    assert_eq!(launch.command.program, "sudo");
    assert_eq!(launch.command.args, vec!["/bin/systemctl", "restart", "nginx"]);
}

#[test]
fn other_programs_are_started_directly() {
    let launch = execute_command("docker", vec!["restart".to_string(), "db".to_string()]);
    assert_eq!(launch.log, "[EXEC] docker restart db");
    assert_eq!(launch.command.program, "docker");
    assert_eq!(launch.command.args, vec!["restart", "db"]);
}

fn done(step: CommandStep) -> Result<(), String> {
    match step {
        CommandStep::Done(outcome) => outcome,
        other => panic!("{:?}", other),
    }
}

#[test]
fn only_a_clean_exit_succeeds() {
    let exited = |success: bool| CommandEvent::Exited {
        success,
        status: "exit status: 3".to_string(),
    };
    assert_eq!(done(command_step("docker", exited(true))), Ok(()));
    assert_eq!(
        done(command_step("docker", exited(false))),
        Err("docker exited with status exit status: 3".to_string())
    );
    let not_started = CommandEvent::NotStarted {
        error: "no such file".to_string(),
    };
    assert_eq!(
        done(command_step("systemctl", not_started)),
        Err("Failed to start systemctl: no such file".to_string())
    );
    let lost = CommandEvent::Lost {
        error: "no child".to_string(),
    };
    assert_eq!(
        done(command_step("docker", lost)),
        Err("Failed waiting for docker: no child".to_string())
    );
}

#[test]
fn a_command_is_killed_once_its_time_is_over() {
    assert_eq!(COMMAND_TIMEOUT_SECS, 20);
    assert_eq!(COMMAND_POLL_MILLIS, 200);
    for (secs, nanos) in [(0u64, 0u32), (19, 999_999_999), (20, 0)] {
        match command_step("docker", CommandEvent::Running { secs, nanos }) {
            CommandStep::LookAgain { millis } => assert_eq!(millis, 200),
            other => panic!("{:?}", other),
        }
    }
    for (secs, nanos) in [(20u64, 1u32), (21, 0), (u64::MAX, 0)] {
        match command_step("docker", CommandEvent::Running { secs, nanos }) {
            CommandStep::Kill { error } => {
                assert_eq!(error, "docker timed out after 20 seconds")
            }
            other => panic!("{:?}", other),
        }
    }
}

fn outcome(events: Vec<CommandEvent>) -> Option<Result<(), String>> {
    for event in events {
        match command_step("docker", event) {
            CommandStep::Done(outcome) => return Some(outcome),
            CommandStep::Kill { error } => return Some(Err(error)),
            CommandStep::LookAgain { .. } => {}
        }
    }
    None
}

fn running(secs: u64) -> CommandEvent {
    CommandEvent::Running { secs, nanos: 5 }
}

fn clean_exit() -> CommandEvent {
    CommandEvent::Exited {
        success: true,
        status: "exit status: 0".to_string(),
    }
}

#[test]
fn a_command_must_succeed_in_time() {
    assert_eq!(outcome(vec![]), None);
    assert_eq!(outcome(vec![running(0), running(19)]), None);
    assert_eq!(outcome(vec![running(0), running(19), clean_exit()]), Some(Ok(())));
    let timed_out = Some(Err("docker timed out after 20 seconds".to_string()));
    assert_eq!(outcome(vec![running(0), running(20), clean_exit()]), timed_out);
    assert_eq!(outcome(vec![running(0), running(20)]), timed_out);
    let lost = CommandEvent::Lost {
        error: "no child".to_string(),
    };
    assert_eq!(
        outcome(vec![running(1), lost, clean_exit()]),
        Some(Err("Failed waiting for docker: no child".to_string()))
    );
}
