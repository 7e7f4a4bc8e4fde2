//! What a rule does about an incident: the restart that it asks for, and the
//! check whether the restart helped.
use vstd::prelude::*;
#[allow(unused_imports)]
use vstd::utf8::{decode_utf8, is_ascii_chars, valid_utf8};

use crate::command::{execute_command, CommandLine, Launch};
#[allow(unused_imports)]
use crate::command::{launch, CommandLineView, LaunchView};
use crate::outside::{decoded, lowercased};
#[allow(unused_imports)]
use crate::outside::{ascii_lowercase, lowercase, utf8_lossy};
use crate::rules::{Remediation, Verification};
use crate::text::{same, strip_suffixes, trimmed};
#[allow(unused_imports)]
use crate::text::{
    all_white,
    law_rows_are_joined_by_the_separator,
    law_suffixes_are_all_taken_off,
    law_suffixes_leave_what_stands_before,
    law_trim_gives_what_stands_between,
    law_trim_ignores_space_around,
    repeated,
    texts,
    trim,
    white_space,
    without_suffixes,
};

verus! {

/// A restart that is to be carried out: the line that the incident log gets
/// first, and the command with its own line.
#[derive(Debug)]
pub struct Restart {
    pub log: String,
    pub launch: Launch,
}

/// What a `Restart` stands for.
pub struct RestartView {
    pub log: Seq<char>,
    pub launch: LaunchView,
}

impl View for Restart {
    type V = RestartView;

    open spec fn view(&self) -> RestartView {
        RestartView { log: self.log@, launch: self.launch@ }
    }
}

/// A check that is to be carried out: the line that the incident log gets before
/// it, and the command whose output tells.
#[derive(Debug)]
pub struct Probe {
    pub log: String,
    pub command: CommandLine,
}

/// What a `Probe` stands for.
pub struct ProbeView {
    pub log: Seq<char>,
    pub command: CommandLineView,
}

impl View for Probe {
    type V = ProbeView;

    open spec fn view(&self) -> ProbeView {
        ProbeView { log: self.log@, command: self.command@ }
    }
}

/// What came of a check: its command has ended with this output, or could not be
/// run.
#[derive(Debug)]
pub enum ProbeOutcome {
    Finished { success: bool, stdout: Vec<u8> },
    Failed { error: String },
}

/// What a check found, and the line that the incident log gets.
#[derive(Debug)]
pub struct Finding {
    pub healthy: bool,
    pub log: String,
}

/// A service name without white space around it and without the suffix
/// `.service`.
pub open spec fn bare_name(service: Seq<char>) -> Seq<char> {
    without_suffixes(trim(service), ".service"@)
}

/// A service name means Aegira itself.
pub open spec fn names_aegira(service: Seq<char>) -> bool {
    lowercase(bare_name(service)) == "aegira"@
}

/// Why a restart of Aegira itself is refused.
pub open spec fn refusal() -> Seq<char> {
    "Refusing remediation: rule attempts to restart aegira.service"@
}

/// The restart that a remediation asks for, or the reason why it is refused.
pub open spec fn restart(remediation: Remediation) -> Result<RestartView, Seq<char>> {
    match remediation {
        Remediation::ServiceRestart { service } => if names_aegira(service@) {
            Err(refusal())
        } else {
            Ok(
                RestartView {
                    log: "[RECOVERY] Restarting service: "@ + service@,
                    launch: launch("systemctl"@, seq!["restart"@, service@]),
                },
            )
        },
        Remediation::ContainerRestart { container } => Ok(
            RestartView {
                log: "[RECOVERY] Restarting container: "@ + container@,
                launch: launch("docker"@, seq!["restart"@, container@]),
            },
        ),
    }
}

/// The check that a verification asks for.
pub open spec fn probe(verification: Verification) -> ProbeView {
    match verification {
        Verification::ServiceActive { service } => ProbeView {
            log: "[VERIFY] Checking service: "@ + service@,
            command: CommandLineView {
                program: "sudo"@,
                args: seq!["/bin/systemctl"@, "is-active"@, service@],
            },
        },
        Verification::ContainerRunning { container } => ProbeView {
            log: "[VERIFY] Checking container: "@ + container@,
            command: CommandLineView {
                program: "docker"@,
                args: seq!["inspect"@, "-f"@, "{{.State.Running}}"@, container@],
            },
        },
    }
}

/// What the command of a check prints when all is well.
pub open spec fn healthy_output(verification: Verification) -> Seq<char> {
    match verification {
        Verification::ServiceActive { .. } => "active"@,
        Verification::ContainerRunning { .. } => "true"@,
    }
}

/// A check that has ended like this, with this text as its output, has found all
/// well.
pub open spec fn output_is_healthy(
    verification: Verification,
    success: bool,
    stdout: Seq<char>,
) -> bool {
    success && trim(stdout) == healthy_output(verification)
}

/// A check has found all well.
pub open spec fn is_healthy(verification: Verification, outcome: ProbeOutcome) -> bool {
    outcome matches ProbeOutcome::Finished { success, stdout } && output_is_healthy(
        verification,
        success,
        utf8_lossy(stdout@),
    )
}

/// What the incident log says of a check.
pub open spec fn finding_line(verification: Verification, outcome: ProbeOutcome) -> Seq<char> {
    match outcome {
        ProbeOutcome::Finished { .. } => match (verification, is_healthy(verification, outcome)) {
            (Verification::ServiceActive { .. }, true) => "[VERIFY] Service is active"@,
            (Verification::ServiceActive { .. }, false) => "[VERIFY] Service is NOT active"@,
            (Verification::ContainerRunning { .. }, true) => "[VERIFY] Container is running"@,
            (Verification::ContainerRunning { .. }, false) => "[VERIFY] Container is NOT running"@,
        },
        ProbeOutcome::Failed { error } => "[VERIFY ERROR] "@ + error@,
    }
}

/// Tells whether a service name means Aegira itself, which must not be
/// restarted.
pub fn is_aegira_service(service: &str) -> (is: bool)
    ensures
        is == names_aegira(service@),
        is_ascii_chars(bare_name(service@)) ==> is == (ascii_lowercase(bare_name(service@))
            == "aegira"@),
{
    let name = strip_suffixes(trimmed(service), ".service");
    let normalized = lowercased(name);
    same(normalized.as_str(), "aegira")
}

/// Decides about a remediation: the restart to carry out, or the reason why
/// there is none.
pub fn perform_remediation(remediation: &Remediation) -> (decision: Result<Restart, String>)
    ensures
        (match decision {
            Ok(restart) => Ok(restart@),
            Err(reason) => Err(reason@),
        }) == restart(*remediation),
        remediation matches Remediation::ServiceRestart { service } ==> (is_ascii_chars(
            bare_name(service@),
        ) ==> (decision is Err <==> ascii_lowercase(bare_name(service@)) == "aegira"@)),
{
    match remediation {
        Remediation::ServiceRestart { service } => {
            if is_aegira_service(service.as_str()) {
                return Err(
                    "Refusing remediation: rule attempts to restart aegira.service".to_owned(),
                );
            }
            let args: Vec<String> = vec!["restart".to_owned(), service.clone()];
            assert(texts(args@) =~= seq!["restart"@, service@]);
            Ok(
                Restart {
                    log: "[RECOVERY] Restarting service: ".to_owned().concat(service.as_str()),
                    launch: execute_command("systemctl", args),
                },
            )
        },
        Remediation::ContainerRestart { container } => {
            let args: Vec<String> = vec!["restart".to_owned(), container.clone()];
            assert(texts(args@) =~= seq!["restart"@, container@]);
            Ok(
                Restart {
                    log: "[RECOVERY] Restarting container: ".to_owned().concat(container.as_str()),
                    launch: execute_command("docker", args),
                },
            )
        },
    }
}

/// The check that a verification asks for.
pub fn verification_probe(verification: &Verification) -> (prepared: Probe)
    ensures
        prepared@ == probe(*verification),
{
    match verification {
        Verification::ServiceActive { service } => {
            let args: Vec<String> = vec![
                "/bin/systemctl".to_owned(),
                "is-active".to_owned(),
                service.clone(),
            ];
            assert(texts(args@) =~= seq!["/bin/systemctl"@, "is-active"@, service@]);
            Probe {
                log: "[VERIFY] Checking service: ".to_owned().concat(service.as_str()),
                command: CommandLine { program: "sudo".to_owned(), args },
            }
        },
        Verification::ContainerRunning { container } => {
            let args: Vec<String> = vec![
                "inspect".to_owned(),
                "-f".to_owned(),
                "{{.State.Running}}".to_owned(),
                container.clone(),
            ];
            assert(texts(args@) =~= seq!["inspect"@, "-f"@, "{{.State.Running}}"@, container@]);
            Probe {
                log: "[VERIFY] Checking container: ".to_owned().concat(container.as_str()),
                command: CommandLine { program: "docker".to_owned(), args },
            }
        },
    }
}

/// Tells whether a check that has ended like this, with this text as its output,
/// has found all well.
pub fn probe_is_healthy(verification: &Verification, success: bool, stdout: &str) -> (healthy: bool)
    ensures
        healthy == output_is_healthy(*verification, success, stdout@),
        *verification is ServiceActive ==> (healthy <==> success && trim(stdout@) == "active"@),
        *verification is ContainerRunning ==> (healthy <==> success && trim(stdout@) == "true"@),
{
    match verification {
        Verification::ServiceActive { .. } => success && same(trimmed(stdout), "active"),
        Verification::ContainerRunning { .. } => success && same(trimmed(stdout), "true"),
    }
}

/// Judges what came of a check.
pub fn verify_recovery(verification: &Verification, outcome: ProbeOutcome) -> (finding: Finding)
    ensures
        finding.healthy == is_healthy(*verification, outcome),
        finding.log@ == finding_line(*verification, outcome),
        outcome matches ProbeOutcome::Finished { success, stdout } ==> (valid_utf8(stdout@)
            ==> finding.healthy == output_is_healthy(*verification, success, decode_utf8(stdout@))),
        finding.healthy ==> (outcome matches ProbeOutcome::Finished { success, stdout } && success
            && trim(utf8_lossy(stdout@)) == match *verification {
            Verification::ServiceActive { .. } => "active"@,
            Verification::ContainerRunning { .. } => "true"@,
        }),
{
    match outcome {
        ProbeOutcome::Finished { success, stdout } => {
            let healthy = probe_is_healthy(
                verification,
                success,
                decoded(stdout.as_slice()).as_str(),
            );
            let log = match verification {
                Verification::ServiceActive { .. } => if healthy {
                    "[VERIFY] Service is active"
                } else {
                    "[VERIFY] Service is NOT active"
                },
                Verification::ContainerRunning { .. } => if healthy {
                    "[VERIFY] Container is running"
                } else {
                    "[VERIFY] Container is NOT running"
                },
            };
            Finding { healthy, log: log.to_owned() }
        },
        ProbeOutcome::Failed { error } => Finding {
            healthy: false,
            log: "[VERIFY ERROR] ".to_owned().concat(error.as_str()),
        },
    }
}

/// White space around a service name plays no part in whether it means Aegira.
pub proof fn law_space_around_a_name_plays_no_part(service: Seq<char>, space: char)
    requires
        white_space(space),
    ensures
        names_aegira(seq![space] + service) == names_aegira(service),
        names_aegira(service.push(space)) == names_aegira(service),
{
    law_trim_ignores_space_around(service, space);
}

/// A service whose name does not end with white space means Aegira with the suffix
/// `.service` exactly if it does so without.
pub proof fn law_suffix_of_a_name_plays_no_part(service: Seq<char>)
    requires
        service.len() > 0 ==> !white_space(service.last()),
    ensures
        names_aegira(service + ".service"@) == names_aegira(service),
    decreases service.len(),
{
    reveal_strlit(".service");
    let full = service + ".service"@;
    if service.len() > 0 && white_space(service.first()) {
        let rest = service.drop_first();
        law_suffix_of_a_name_plays_no_part(rest);
        assert(full.drop_first() =~= rest + ".service"@);
    } else {
        assert(full.first() == if service.len() > 0 {
            service.first()
        } else {
            '.'
        });
        assert(full.last() == 'e');
        assert(trim(full) == full);
        assert(trim(service) == service);
        law_suffixes_are_all_taken_off(service, ".service"@);
    }
}

/// Only a service can be refused, and only if it means Aegira; every other
/// remediation is a restart of exactly what it names.
pub proof fn law_only_aegira_is_refused(remediation: Remediation)
    ensures
        restart(remediation) is Err <==> (remediation matches Remediation::ServiceRestart {
            service,
        } && names_aegira(service@)),
        restart(remediation) matches Ok(restart) ==> restart.launch == match remediation {
            Remediation::ServiceRestart { service } => launch(
                "systemctl"@,
                seq!["restart"@, service@],
            ),
            Remediation::ContainerRestart { container } => launch(
                "docker"@,
                seq!["restart"@, container@],
            ),
        },
{
}

/// White space around a name and copies of the suffix `.service` behind it make no
/// difference: what stands before them decides, by its lower case alone.
pub proof fn law_aegira_is_known_by_its_bare_name(
    before: Seq<char>,
    name: Seq<char>,
    times: nat,
    after: Seq<char>,
)
    requires
        all_white(before),
        all_white(after),
        name.len() > 0 ==> !white_space(name.first()) && !white_space(name.last()),
        !".service"@.is_suffix_of(name),
    ensures
        names_aegira(before + (name + repeated(".service"@, times)) + after) <==> lowercase(name)
            == "aegira"@,
{
    reveal_strlit(".service");
    let full = name + repeated(".service"@, times);
    lemma_repeated_ends(name, times);
    law_trim_gives_what_stands_between(before, full, after);
    law_suffixes_leave_what_stands_before(name, ".service"@, times);
}

proof fn lemma_repeated_ends(name: Seq<char>, times: nat)
    requires
        name.len() > 0 ==> !white_space(name.first()) && !white_space(name.last()),
    ensures
        ({
            let full = name + repeated(".service"@, times);
            full.len() > 0 ==> !white_space(full.first()) && !white_space(full.last())
        }),
    decreases times,
{
    reveal_strlit(".service");
    let full = name + repeated(".service"@, times);
    if times == 0 {
        assert(full =~= name);
    } else {
        let fewer = name + repeated(".service"@, (times - 1) as nat);
        lemma_repeated_ends(name, (times - 1) as nat);
        assert(full =~= fewer + ".service"@);
        assert(full.last() == 'e');
        assert(full.first() == if fewer.len() > 0 {
            fewer.first()
        } else {
            '.'
        });
    }
}

/// A remediation that is not refused restarts exactly what it names: a service with
/// `sudo /bin/systemctl restart`, a container with `docker restart`. What is refused
/// is a service that means Aegira, and nothing else.
pub proof fn law_restart_is_that_of_what_is_named(remediation: Remediation)
    ensures
        remediation matches Remediation::ServiceRestart { service } ==> restart(remediation)
            == if names_aegira(service@) {
            Err::<RestartView, Seq<char>>(
                "Refusing remediation: rule attempts to restart aegira.service"@,
            )
        } else {
            Ok(
                RestartView {
                    log: "[RECOVERY] Restarting service: "@ + service@,
                    launch: LaunchView {
                        log: "[EXEC] systemctl restart "@ + service@,
                        executable: "systemctl"@,
                        command: CommandLineView {
                            program: "sudo"@,
                            args: seq!["/bin/systemctl"@, "restart"@, service@],
                        },
                    },
                },
            )
        },
        remediation matches Remediation::ContainerRestart { container } ==> restart(remediation)
            == Ok::<RestartView, Seq<char>>(
            RestartView {
                log: "[RECOVERY] Restarting container: "@ + container@,
                launch: LaunchView {
                    log: "[EXEC] docker restart "@ + container@,
                    executable: "docker"@,
                    command: CommandLineView {
                        program: "docker"@,
                        args: seq!["restart"@, container@],
                    },
                },
            },
        ),
{
    match remediation {
        Remediation::ServiceRestart { service } => lemma_restart_commands(service@),
        Remediation::ContainerRestart { container } => lemma_restart_commands(container@),
    }
}

proof fn lemma_restart_commands(target: Seq<char>)
    ensures
        launch("systemctl"@, seq!["restart"@, target]) == (LaunchView {
            log: "[EXEC] systemctl restart "@ + target,
            executable: "systemctl"@,
            command: CommandLineView {
                program: "sudo"@,
                args: seq!["/bin/systemctl"@, "restart"@, target],
            },
        }),
        launch("docker"@, seq!["restart"@, target]) == (LaunchView {
            log: "[EXEC] docker restart "@ + target,
            executable: "docker"@,
            command: CommandLineView { program: "docker"@, args: seq!["restart"@, target] },
        }),
{
    reveal_strlit("[EXEC] ");
    reveal_strlit(" ");
    reveal_strlit("restart");
    reveal_strlit("systemctl");
    reveal_strlit("docker");
    reveal_strlit("[EXEC] systemctl restart ");
    reveal_strlit("[EXEC] docker restart ");
    let args = seq!["restart"@, target];
    law_rows_are_joined_by_the_separator("restart"@, seq!["restart"@], seq![target], " "@);
    law_rows_are_joined_by_the_separator(target, seq!["restart"@], seq![target], " "@);
    assert(args =~= seq!["restart"@] + seq![target]);
    assert("docker"@ != "systemctl"@) by {
        assert("docker"@.len() != "systemctl"@.len());
    }
    assert(launch("systemctl"@, args).log =~= "[EXEC] systemctl restart "@ + target);
    assert(launch("docker"@, args).log =~= "[EXEC] docker restart "@ + target);
    assert(launch("systemctl"@, args).command.args =~= seq!["/bin/systemctl"@, "restart"@, target]);
}

/// A check asks about exactly what it names: a service with `sudo /bin/systemctl
/// is-active`, a container with `docker inspect` for its running state.
pub proof fn law_check_asks_about_what_is_named(verification: Verification)
    ensures
        verification matches Verification::ServiceActive { service } ==> {
            &&& probe(verification).log == "[VERIFY] Checking service: "@ + service@
            &&& probe(verification).command.program == "sudo"@
            &&& probe(verification).command.args == seq![
                "/bin/systemctl"@,
                "is-active"@,
                service@,
            ]
        },
        verification matches Verification::ContainerRunning { container } ==> {
            &&& probe(verification).log == "[VERIFY] Checking container: "@ + container@
            &&& probe(verification).command.program == "docker"@
            &&& probe(verification).command.args == seq![
                "inspect"@,
                "-f"@,
                "{{.State.Running}}"@,
                container@,
            ]
        },
{
}

/// A check finds all well exactly if its command has succeeded and has printed
/// nothing but `active` for a service, or `true` for a container, and white space
/// around it. A command that could not be run finds nothing well.
pub proof fn law_check_needs_the_right_word(
    verification: Verification,
    success: bool,
    before: Seq<char>,
    word: Seq<char>,
    after: Seq<char>,
    outcome: ProbeOutcome,
)
    requires
        all_white(before),
        all_white(after),
        word.len() > 0 ==> !white_space(word.first()) && !white_space(word.last()),
    ensures
        verification is ServiceActive ==> (output_is_healthy(
            verification,
            success,
            before + word + after,
        ) <==> success && word == "active"@),
        verification is ContainerRunning ==> (output_is_healthy(
            verification,
            success,
            before + word + after,
        ) <==> success && word == "true"@),
        outcome matches ProbeOutcome::Finished { success, stdout } ==> is_healthy(
            verification,
            outcome,
        ) == output_is_healthy(verification, success, utf8_lossy(stdout@)),
        outcome is Failed ==> !is_healthy(verification, outcome),
{
    law_trim_gives_what_stands_between(before, word, after);
}

/// The incident log tells what a check has found, in words of its own for services
/// and containers, or why it could not be run.
pub proof fn law_check_is_told(verification: Verification, outcome: ProbeOutcome)
    ensures
        outcome is Finished && verification is ServiceActive ==> finding_line(verification, outcome)
            == if is_healthy(verification, outcome) {
            "[VERIFY] Service is active"@
        } else {
            "[VERIFY] Service is NOT active"@
        },
        outcome is Finished && verification is ContainerRunning ==> finding_line(
            verification,
            outcome,
        ) == if is_healthy(verification, outcome) {
            "[VERIFY] Container is running"@
        } else {
            "[VERIFY] Container is NOT running"@
        },
        outcome matches ProbeOutcome::Failed { error } ==> finding_line(verification, outcome)
            == "[VERIFY ERROR] "@ + error@,
{
}

/// A restart and a check stand for what they hold.
pub proof fn law_restart_stands_for_what_it_holds(prepared: Restart, asked: Probe)
    ensures
        prepared@.log == prepared.log@,
        prepared@.launch == prepared.launch@,
        asked@.log == asked.log@,
        asked@.command == asked.command@,
{
}

} // verus!
