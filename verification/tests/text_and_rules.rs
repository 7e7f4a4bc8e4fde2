use aegira::rules::{
    best_score, calculate_match_score, can_score, can_score_all, checked_best_rule,
    checked_match_score, contains_case_insensitive, count_hits, find_best_rule, match_score,
    Remediation, Rule, Verification, MIN_MATCH_SCORE,
};
use aegira::text::{
    contains, decimal_text, is_white_space, join, same, strip_suffixes, trimmed,
};

fn strings(items: &[&str]) -> Vec<String> {
    items.iter().map(|item| item.to_string()).collect()
}

fn rule(id: &str, errors: &[&str], contexts: &[&str], priority: i32) -> Rule {
    Rule {
        id: id.to_string(),
        name: format!("rule {}", id),
        severity: "high".to_string(),
        error_patterns: strings(errors),
        context_patterns: strings(contexts),
        remediation: Remediation::ServiceRestart {
            service: "nginx".to_string(),
        },
        verification: Verification::ServiceActive {
            service: "nginx".to_string(),
        },
        priority,
    }
}

#[test]
fn white_space_is_that_of_unicode() {
    for code in 0..=0x10FFFFu32 {
        if let Some(c) = char::from_u32(code) {
            assert_eq!(is_white_space(c), c.is_whitespace(), "{:x}", code);
        }
    }
}

#[test]
fn trimming_agrees_with_std() {
    for text in [
        "", " ", "a", "  a b\t\n", "\u{a0}x\u{3000}", "\u{200b}x ", "\r\n[ERROR] disk\r\n", "é ",
    ] {
        assert_eq!(trimmed(text), text.trim());
        assert_eq!(trimmed(trimmed(text)), trimmed(text));
    }
}

#[test]
fn every_suffix_is_taken_off() {
    for text in [
        "", ".service", "a.service", "a.service.service", "a.service ", "service", ".servic.service",
    ] {
        assert_eq!(strip_suffixes(text, ".service"), text.trim_end_matches(".service"));
    }
    assert_eq!(strip_suffixes("abc", ""), "abc");
}

#[test]
fn search_agrees_with_std() {
    for text in ["", "a", "aab", "ababac", "straße", "[ERROR] x"] {
        for pattern in ["", "a", "ab", "abac", "ß", "[ERROR]", "aababacx"] {
            assert_eq!(contains(text, pattern), text.contains(pattern));
        }
    }
}

#[test]
fn numbers_are_written_in_decimal() {
    for number in [0u64, 7, 10, 19, 60, 100, 909, 1_000_000, u64::MAX] {
        assert_eq!(decimal_text(number), number.to_string());
    }
}

#[test]
fn texts_are_compared_and_joined() {
    assert!(same("active", "active"));
    assert!(!same("active", "Active"));
    assert_eq!(join(&strings(&[]), " "), "");
    assert_eq!(join(&strings(&["restart"]), " "), "restart");
    assert_eq!(join(&strings(&["restart", "nginx", ""]), " "), "restart nginx ");
}

#[test]
fn case_is_ignored() {
    assert!(contains_case_insensitive("Connection REFUSED by host", "refused BY"));
    assert!(!contains_case_insensitive("Connection refused", "refused by"));
    assert!(contains_case_insensitive("ÜBERLAUF", "überlauf"));
    assert!(contains_case_insensitive("anything", ""));
    assert!(contains_case_insensitive("\u{e9}", ""));
    assert!(contains_case_insensitive("", ""));
    assert!(contains_case_insensitive("caf\u{e9} DOWN", "Down"));
}

#[test]
fn an_error_pattern_counts_fifty_and_a_context_pattern_twenty() {
    assert_eq!(match_score(1, 0, 0), Some(50));
    assert_eq!(match_score(0, 1, 0), Some(20));
    assert_eq!(match_score(2, 3, -15), Some(145));
    assert_eq!(match_score(0, 0, i32::MIN), Some(i32::MIN));
}

#[test]
fn a_score_that_does_not_fit_is_refused() {
    assert_eq!(match_score(0, 0, i32::MAX), Some(i32::MAX));
    assert_eq!(match_score(0, 1, i32::MAX), None);
    assert_eq!(match_score(42_949_672, 2, 7), Some(i32::MAX));
    assert_eq!(match_score(42_949_672, 2, 8), None);
    assert_eq!(match_score(42_949_673, 0, -1000), None);
    assert_eq!(match_score(usize::MAX, usize::MAX, 0), None);
}

#[test]
fn a_rule_is_scored_by_what_occurs() {
    let rule = rule("r", &["upstream TIMED out", "502"], &["nginx", "proxy"], 5);
    let incident = "[ERROR] Nginx: Upstream timed out";
    assert_eq!(count_hits(&rule.error_patterns, incident), 1);
    assert_eq!(count_hits(&rule.context_patterns, incident), 1);
    assert_eq!(calculate_match_score(&rule, incident), 75);
    assert_eq!(checked_match_score(&rule, incident), Some(75));
    assert_eq!(calculate_match_score(&rule, "nothing of the kind"), 5);
}

#[test]
fn patterns_count_in_any_order_and_one_by_one() {
    let incident = "alpha beta";
    assert_eq!(count_hits(&strings(&["alpha", "gamma", "beta"]), incident), 2);
    assert_eq!(count_hits(&strings(&["beta", "alpha", "gamma"]), incident), 2);
    assert_eq!(count_hits(&strings(&["gamma", "beta", "alpha"]), incident), 2);
    assert_eq!(count_hits(&strings(&["alpha", "alpha"]), incident), 2);
    assert_eq!(count_hits(&strings(&[]), incident), 0);
}

#[test]
fn a_rule_that_overflows_cannot_be_scored() {
    let heavy = rule("heavy", &["disk"], &[], i32::MAX);
    assert!(!can_score(&heavy, "disk full"));
    assert_eq!(checked_match_score(&heavy, "disk full"), None);
    assert!(can_score(&heavy, "all quiet"));
    assert_eq!(checked_match_score(&heavy, "all quiet"), Some(i32::MAX));
    let rules = vec![rule("light", &["disk"], &[], 0), heavy];
    assert!(!can_score_all(&rules, "disk full"));
    assert!(checked_best_rule(&rules, "disk full").is_err());
    assert!(can_score_all(&rules, "all quiet"));
}

#[test]
fn the_first_of_the_highest_scores_is_the_best() {
    assert_eq!(MIN_MATCH_SCORE, 60);
    assert_eq!(best_score(&vec![]), None);
    assert_eq!(best_score(&vec![59, -4]), None);
    assert_eq!(best_score(&vec![60]), Some(0));
    assert_eq!(best_score(&vec![70, 90, 90, 80]), Some(1));
    assert_eq!(best_score(&vec![70, 90, 91]), Some(2));
}

#[test]
fn the_best_rule_is_found() {
    let rules = vec![
        rule("weak", &["disk"], &[], 0),
        rule("first", &["disk"], &["full"], 0),
        rule("second", &["disk"], &["full"], 0),
    ];
    let (found, score) = find_best_rule(&rules, "[ERROR] Disk full").unwrap();
    assert_eq!(found.id, "first");
    assert_eq!(score, 70);
    assert!(find_best_rule(&rules, "[ERROR] disk slow").is_none());
    assert!(find_best_rule(&[], "[ERROR] disk full").is_none());
}

#[test]
fn priority_alone_can_make_a_match() {
    let rules = vec![rule("always", &["never seen"], &[], 60)];
    let found = checked_best_rule(&rules, "anything").unwrap();
    assert_eq!(found.map(|(rule, score)| (rule.id.clone(), score)), Some(("always".to_string(), 60)));
}

#[test]
fn a_later_rule_must_score_higher() {
    let mut rules = vec![rule("a", &["disk"], &["full"], 0)];
    rules.push(rule("b", &["disk"], &["full"], 0));
    assert_eq!(find_best_rule(&rules, "disk full").unwrap().0.id, "a");
    rules.push(rule("c", &["disk"], &["full"], 1));
    let (found, score) = find_best_rule(&rules, "disk full").unwrap();
    assert_eq!((found.id.as_str(), score), ("c", 71));
}
