//! Remediation rules, and the choice of the rule that fits an incident best.
use vstd::prelude::*;
#[allow(unused_imports)]
use vstd::utf8::is_ascii_chars;

#[allow(unused_imports)]
use crate::outside::{ascii_lower, ascii_lowercase, lowercase};
use crate::outside::lowercased;
use crate::text::contains;
#[allow(unused_imports)]
use crate::text::{
    is_substring,
    law_substring_is_read_letter_by_letter,
    occurs_at,
    reads_at,
    texts,
};

verus! {

/// The score below which a rule does not count as a match.
pub const MIN_MATCH_SCORE: i32 = 60;

/// What an error pattern that occurs in the incident adds to the score.
pub const ERROR_PATTERN_SCORE: i32 = 50;

/// What a context pattern that occurs in the incident adds to the score.
pub const CONTEXT_PATTERN_SCORE: i32 = 20;

/// What a rule does about an incident.
#[derive(Debug, Clone)]
pub enum Remediation {
    ServiceRestart { service: String },
    ContainerRestart { container: String },
}

/// How a rule finds out whether its remediation helped.
#[derive(Debug, Clone)]
pub enum Verification {
    ServiceActive { service: String },
    ContainerRunning { container: String },
}

/// A rule: the patterns that incidents are matched against, and what to do
/// about an incident that matches.
#[derive(Debug, Clone)]
pub struct Rule {
    pub id: String,
    pub name: String,
    pub severity: String,
    pub error_patterns: Vec<String>,
    pub context_patterns: Vec<String>,
    pub remediation: Remediation,
    pub verification: Verification,
    pub priority: i32,
}

/// `pattern` occurs in `text`, both taken in lower case.
pub open spec fn mentions(text: Seq<char>, pattern: Seq<char>) -> bool {
    is_substring(lowercase(pattern), lowercase(text))
}

/// The number of patterns that occur in an incident.
pub open spec fn hits(patterns: Seq<String>, incident: Seq<char>) -> nat {
    patterns.filter(|pattern: String| mentions(incident, pattern@)).len()
}

/// What the patterns of a rule contribute to its score.
pub open spec fn pattern_score(error_hits: nat, context_hits: nat) -> int {
    ERROR_PATTERN_SCORE * error_hits + CONTEXT_PATTERN_SCORE * context_hits
}

/// The score of a rule for an incident.
pub open spec fn score(rule: Rule, incident: Seq<char>) -> int {
    pattern_score(
        hits(rule.error_patterns@, incident),
        hits(rule.context_patterns@, incident),
    ) + rule.priority
}

/// Neither the contribution of the patterns nor the score with the priority
/// exceeds an `i32`.
pub open spec fn fits(error_hits: nat, context_hits: nat, priority: i32) -> bool {
    &&& pattern_score(error_hits, context_hits) <= i32::MAX
    &&& pattern_score(error_hits, context_hits) + priority <= i32::MAX
}

/// The score of a rule for an incident can be computed.
pub open spec fn score_fits(rule: Rule, incident: Seq<char>) -> bool {
    fits(
        hits(rule.error_patterns@, incident),
        hits(rule.context_patterns@, incident),
        rule.priority,
    )
}

/// The score of each of a list of rules can be computed.
pub open spec fn scores_fit(rules: Seq<Rule>, incident: Seq<char>) -> bool {
    forall|i: int| 0 <= i < rules.len() ==> #[trigger] score_fits(rules[i], incident)
}

/// The scores of a list of rules.
pub open spec fn scores(rules: Seq<Rule>, incident: Seq<char>) -> Seq<int> {
    rules.map_values(|rule: Rule| score(rule, incident))
}

/// The score at `best` is a match, no other is higher, and none of the earlier
/// ones is as high.
pub open spec fn is_best(scores: Seq<int>, best: int) -> bool {
    &&& 0 <= best < scores.len()
    &&& scores[best] >= MIN_MATCH_SCORE
    &&& forall|i: int| 0 <= i < scores.len() ==> scores[i] <= scores[best]
    &&& forall|i: int| 0 <= i < best ==> scores[i] < scores[best]
}

/// No score is a match.
pub open spec fn no_match(scores: Seq<int>) -> bool {
    forall|i: int| 0 <= i < scores.len() ==> scores[i] < MIN_MATCH_SCORE
}

/// The place of the best score, if any score is a match.
pub open spec fn best_index(scores: Seq<int>) -> Option<int> {
    if exists|best: int| is_best(scores, best) {
        Some(choose|best: int| is_best(scores, best))
    } else {
        None
    }
}

/// `found` is the best of a list of rules for an incident, with its score.
pub open spec fn is_best_rule(
    rules: Seq<Rule>,
    incident: Seq<char>,
    found: Option<(&Rule, i32)>,
) -> bool {
    match best_index(scores(rules, incident)) {
        Some(best) => {
            &&& is_best(scores(rules, incident), best)
            &&& found matches Some((rule, total))
            &&& *rule == rules[best]
            &&& total == score(rules[best], incident)
        },
        None => {
            &&& no_match(scores(rules, incident))
            &&& found is None
        },
    }
}

/// Tells whether a pattern occurs in a text, whatever the case of either.
pub fn contains_case_insensitive(text: &str, pattern: &str) -> (found: bool)
    ensures
        found == mentions(text@, pattern@),
        is_ascii_chars(text@) ==> lowercase(text@) == ascii_lowercase(text@),
        is_ascii_chars(pattern@) ==> lowercase(pattern@) == ascii_lowercase(pattern@),
        is_ascii_chars(text@) && is_ascii_chars(pattern@) ==> (found <==> exists|at: int|
            reads_in_any_case_at(text@, at, pattern@)),
{
    proof {
        law_pattern_is_found_letter_by_letter(text@, pattern@);
    }
    contains(lowercased(text).as_str(), lowercased(pattern).as_str())
}

/// Counts the patterns that occur in an incident.
pub fn count_hits(patterns: &Vec<String>, incident: &str) -> (count: usize)
    ensures
        count == hits(patterns@, incident@),
{
    let mut count: usize = 0;
    let ghost occurs = |pattern: String| mentions(incident@, pattern@);
    proof {
        reveal(Seq::filter);
    }
    for i in 0..patterns.len()
        invariant
            occurs == (|pattern: String| mentions(incident@, pattern@)),
            count == patterns@.take(i as int).filter(occurs).len(),
            count <= i,
    {
        proof {
            reveal(Seq::filter);
            assert(patterns@.take(i + 1).drop_last() =~= patterns@.take(i as int));
            assert(patterns@.take(i + 1).last() == patterns@[i as int]);
        }
        if contains_case_insensitive(incident, patterns[i].as_str()) {
            count = count + 1;
        }
    }
    assert(patterns@.take(patterns@.len() as int) =~= patterns@);
    count
}

/// The score that so many hits and a priority make, or `None` where it exceeds
/// an `i32`.
pub fn match_score(error_hits: usize, context_hits: usize, priority: i32) -> (total: Option<i32>)
    ensures
        match total {
            Some(total) => fits(error_hits as nat, context_hits as nat, priority) && total
                == pattern_score(error_hits as nat, context_hits as nat) + priority,
            None => !fits(error_hits as nat, context_hits as nat, priority),
        },
{
    let from_patterns: i128 = ERROR_PATTERN_SCORE as i128 * error_hits as i128
        + CONTEXT_PATTERN_SCORE as i128 * context_hits as i128;
    let total: i128 = from_patterns + priority as i128;
    if from_patterns <= i32::MAX as i128 && total <= i32::MAX as i128 {
        Some(total as i32)
    } else {
        None
    }
}

/// The score of a rule for an incident.
pub fn calculate_match_score(rule: &Rule, incident: &str) -> (total: i32)
    requires
        score_fits(*rule, incident@),
    ensures
        total == score(*rule, incident@),
{
    let error_hits: usize = count_hits(&rule.error_patterns, incident);
    let context_hits: usize = count_hits(&rule.context_patterns, incident);
    match_score(error_hits, context_hits, rule.priority).unwrap()
}

/// Tells whether the score of a rule for an incident can be computed.
pub fn can_score(rule: &Rule, incident: &str) -> (can: bool)
    ensures
        can == score_fits(*rule, incident@),
{
    let error_hits: usize = count_hits(&rule.error_patterns, incident);
    let context_hits: usize = count_hits(&rule.context_patterns, incident);
    match_score(error_hits, context_hits, rule.priority).is_some()
}

/// Tells whether the score of each of a list of rules can be computed.
pub fn can_score_all(rules: &[Rule], incident: &str) -> (can: bool)
    ensures
        can == scores_fit(rules@, incident@),
{
    for i in 0..rules.len()
        invariant
            forall|k: int| 0 <= k < i ==> #[trigger] score_fits(rules@[k], incident@),
    {
        if !can_score(&rules[i], incident) {
            return false;
        }
    }
    true
}

/// The score of a rule for an incident, or `None` where it cannot be computed.
pub fn checked_match_score(rule: &Rule, incident: &str) -> (total: Option<i32>)
    ensures
        match total {
            Some(total) => score_fits(*rule, incident@) && total == score(*rule, incident@),
            None => !score_fits(*rule, incident@),
        },
{
    if can_score(rule, incident) {
        Some(calculate_match_score(rule, incident))
    } else {
        None
    }
}

/// The first of the highest scores, where that is a match.
pub fn best_score(scores: &Vec<i32>) -> (best: Option<usize>)
    ensures
        match best {
            Some(best) => is_best(scores@.map_values(|s: i32| s as int), best as int),
            None => no_match(scores@.map_values(|s: i32| s as int)),
        },
{
    let mut best: Option<usize> = None;
    let mut highest: i32 = 0;
    for i in 0..scores.len()
        invariant
            match best {
                Some(best) => {
                    &&& best < i
                    &&& highest == scores@[best as int]
                    &&& highest >= MIN_MATCH_SCORE
                    &&& forall|k: int| 0 <= k < i ==> scores@[k] <= highest
                    &&& forall|k: int| 0 <= k < best ==> scores@[k] < highest
                },
                None => {
                    &&& highest == 0
                    &&& forall|k: int| 0 <= k < i ==> scores@[k] < MIN_MATCH_SCORE
                },
            },
    {
        if scores[i] >= MIN_MATCH_SCORE && scores[i] > highest {
            highest = scores[i];
            best = Some(i);
        }
    }
    best
}

/// The rule that fits an incident best, with its score: the first of those with
/// the highest score, where that score is a match.
pub fn find_best_rule<'a>(rules: &'a [Rule], incident: &str) -> (found: Option<(&'a Rule, i32)>)
    requires
        scores_fit(rules@, incident@),
    ensures
        is_best_rule(rules@, incident@, found),
{
    let mut totals: Vec<i32> = Vec::new();
    for i in 0..rules.len()
        invariant
            scores_fit(rules@, incident@),
            totals@.len() == i,
            forall|k: int| 0 <= k < i ==> totals@[k] == score(rules@[k], incident@),
    {
        assert(score_fits(rules@[i as int], incident@));
        totals.push(calculate_match_score(&rules[i], incident));
    }
    assert(totals@.map_values(|s: i32| s as int) =~= scores(rules@, incident@));
    let best = best_score(&totals);
    proof {
        law_best_is_unique(scores(rules@, incident@));
    }
    match best {
        Some(best) => Some((&rules[best], totals[best])),
        None => None,
    }
}

/// The rule that fits an incident best, or `Err` where the score of a rule
/// cannot be computed.
pub fn checked_best_rule<'a>(rules: &'a [Rule], incident: &str) -> (found: Result<
    Option<(&'a Rule, i32)>,
    (),
>)
    ensures
        match found {
            Ok(found) => scores_fit(rules@, incident@) && is_best_rule(rules@, incident@, found),
            Err(()) => !scores_fit(rules@, incident@),
        },
{
    if can_score_all(rules, incident) {
        Ok(find_best_rule(rules, incident))
    } else {
        Err(())
    }
}

/// At most one place holds the best score, and one does exactly if some score is
/// a match.
pub proof fn law_best_is_unique(scores: Seq<int>)
    ensures
        forall|i: int, j: int| is_best(scores, i) && is_best(scores, j) ==> i == j,
        forall|i: int| is_best(scores, i) ==> best_index(scores) == Some(i),
        best_index(scores) matches Some(i) ==> is_best(scores, i),
        best_index(scores) is None <==> no_match(scores),
{
    assert forall|i: int, j: int| is_best(scores, i) && is_best(scores, j) implies i == j by {
        if i < j {
            assert(scores[i] < scores[j]);
        }
        if j < i {
            assert(scores[j] < scores[i]);
        }
    }
    if !no_match(scores) {
        let hit = choose|i: int| 0 <= i < scores.len() && scores[i] >= MIN_MATCH_SCORE;
        lemma_best_exists(scores, hit);
    }
}

/// Where a score is a match there is a best one.
proof fn lemma_best_exists(scores: Seq<int>, hit: int)
    requires
        0 <= hit < scores.len(),
        scores[hit] >= MIN_MATCH_SCORE,
    ensures
        exists|best: int| is_best(scores, best),
    decreases scores.len(),
{
    let front = scores.drop_last();
    let last = scores.len() - 1;
    if exists|i: int| 0 <= i < front.len() && front[i] >= MIN_MATCH_SCORE {
        let earlier = choose|i: int| 0 <= i < front.len() && front[i] >= MIN_MATCH_SCORE;
        lemma_best_exists(front, earlier);
        let best = choose|best: int| is_best(front, best);
        law_later_rule_must_score_higher(front, best, scores[last]);
        assert(front.push(scores[last]) =~= scores);
    } else {
        assert forall|i: int| 0 <= i < last implies scores[i] < MIN_MATCH_SCORE by {
            assert(front[i] == scores[i]);
        }
        assert(is_best(scores, last));
    }
}

/// A rule that is added behind the others is chosen exactly if it scores higher
/// than the rule that was chosen so far.
pub proof fn law_later_rule_must_score_higher(scores: Seq<int>, best: int, added: int)
    requires
        is_best(scores, best),
    ensures
        added > scores[best] ==> is_best(scores.push(added), scores.len() as int),
        added <= scores[best] ==> is_best(scores.push(added), best),
{
}

/// Of two rules with the same score the later one is not chosen.
pub proof fn law_earlier_rule_wins_ties(
    rules: Seq<Rule>,
    incident: Seq<char>,
    earlier: int,
    later: int,
)
    requires
        0 <= earlier < later < rules.len(),
        score(rules[earlier], incident) >= score(rules[later], incident),
    ensures
        best_index(scores(rules, incident)) != Some(later),
{
    law_best_is_unique(scores(rules, incident));
    assert(scores(rules, incident)[earlier] == score(rules[earlier], incident));
    assert(scores(rules, incident)[later] == score(rules[later], incident));
}

/// Two lists of patterns count together what each counts alone, and one more
/// pattern counts exactly if it occurs in the incident.
pub proof fn law_patterns_count_one_by_one(
    patterns: Seq<String>,
    more: Seq<String>,
    pattern: String,
    incident: Seq<char>,
)
    ensures
        hits(patterns + more, incident) == hits(patterns, incident) + hits(more, incident),
        hits(patterns.push(pattern), incident) == hits(patterns, incident) + if mentions(
            incident,
            pattern@,
        ) {
            1nat
        } else {
            0nat
        },
{
    lemma_hits_add(patterns, more, incident);
    lemma_hits_push(patterns, pattern, incident);
}

/// The order of the patterns plays no part: lists that hold the same patterns
/// equally often count the same.
pub proof fn law_order_of_patterns_plays_no_part(
    patterns: Seq<String>,
    others: Seq<String>,
    incident: Seq<char>,
)
    requires
        texts(patterns).to_multiset() == texts(others).to_multiset(),
    ensures
        hits(patterns, incident) == hits(others, incident),
    decreases patterns.len(),
{
    texts(patterns).to_multiset_ensures();
    texts(others).to_multiset_ensures();
    if patterns.len() == 0 {
        assert(patterns =~= others);
    } else {
        let pattern = patterns.last();
        assert(texts(patterns)[patterns.len() - 1] == pattern@);
        assert(texts(patterns).contains(pattern@));
        assert(texts(others).to_multiset().count(pattern@) > 0);
        let at = texts(others).index_of(pattern@);
        let before = others.take(at);
        let after = others.skip(at + 1);
        assert(texts(patterns.drop_last()) =~= texts(patterns).remove(patterns.len() - 1));
        assert(texts(before + after) =~= texts(others).remove(at));
        law_order_of_patterns_plays_no_part(patterns.drop_last(), before + after, incident);
        assert(patterns.drop_last().push(pattern) =~= patterns);
        lemma_hits_push(patterns.drop_last(), pattern, incident);
        assert(before.push(others[at]) + after =~= others);
        lemma_hits_add(before.push(others[at]), after, incident);
        lemma_hits_push(before, others[at], incident);
        lemma_hits_add(before, after, incident);
    }
}

proof fn lemma_hits_push(patterns: Seq<String>, pattern: String, incident: Seq<char>)
    ensures
        hits(patterns.push(pattern), incident) == hits(patterns, incident) + if mentions(
            incident,
            pattern@,
        ) {
            1nat
        } else {
            0nat
        },
{
    reveal(Seq::filter);
    assert(patterns.push(pattern).drop_last() =~= patterns);
}

proof fn lemma_hits_add(patterns: Seq<String>, more: Seq<String>, incident: Seq<char>)
    ensures
        hits(patterns + more, incident) == hits(patterns, incident) + hits(more, incident),
    decreases more.len(),
{
    reveal(Seq::filter);
    if more.len() == 0 {
        assert(patterns + more =~= patterns);
    } else {
        let front = more.drop_last();
        lemma_hits_add(patterns, front, incident);
        lemma_hits_push(patterns + front, more.last(), incident);
        lemma_hits_push(front, more.last(), incident);
        assert((patterns + front).push(more.last()) =~= patterns + more);
        assert(front.push(more.last()) =~= more);
    }
}

/// The case of texts and patterns plays no part.
pub proof fn law_case_plays_no_part(
    text: Seq<char>,
    other_text: Seq<char>,
    pattern: Seq<char>,
    other_pattern: Seq<char>,
)
    requires
        lowercase(text) == lowercase(other_text),
        lowercase(pattern) == lowercase(other_pattern),
    ensures
        mentions(text, pattern) == mentions(other_text, other_pattern),
{
}

/// A pattern that stands in a text letter by letter also stands in it when the
/// ASCII letters of both are taken in lower case, which is what decides about
/// texts and patterns of ASCII characters. Beyond ASCII this need not hold: a
/// sigma becomes another letter at the end of a word than within one.
pub proof fn law_literal_occurrence_is_found(text: Seq<char>, pattern: Seq<char>)
    requires
        is_substring(pattern, text),
    ensures
        is_substring(ascii_lowercase(pattern), ascii_lowercase(text)),
        lowercase(text) == ascii_lowercase(text) && lowercase(pattern) == ascii_lowercase(pattern)
            ==> mentions(text, pattern),
{
    let at = choose|at: int| occurs_at(pattern, text, at);
    let found = ascii_lowercase(text).subrange(at, at + pattern.len());
    assert forall|i: int| 0 <= i < pattern.len() implies found[i] == ascii_lowercase(
        pattern,
    )[i] by {
        assert(text.subrange(at, at + pattern.len())[i] == pattern[i]);
    }
    assert(found =~= ascii_lowercase(pattern));
    assert(occurs_at(ascii_lowercase(pattern), ascii_lowercase(text), at));
}

/// No score is above what its rule reaches when every pattern occurs, and none
/// is below the rule's priority. So a rule that stays within an `i32` with all
/// of its patterns can be scored for every incident.
pub proof fn law_score_is_bounded(rule: Rule, incident: Seq<char>)
    ensures
        rule.priority <= score(rule, incident),
        score(rule, incident) <= pattern_score(
            rule.error_patterns@.len(),
            rule.context_patterns@.len(),
        ) + rule.priority,
        fits(rule.error_patterns@.len(), rule.context_patterns@.len(), rule.priority)
            ==> score_fits(rule, incident),
{
    broadcast use Seq::lemma_filter_len;

}

/// From the place `at` on, a text reads `pattern`, letter by letter, where an ASCII
/// letter is the same in upper and in lower case.
pub open spec fn reads_in_any_case_at(text: Seq<char>, at: int, pattern: Seq<char>) -> bool {
    &&& 0 <= at
    &&& at + pattern.len() <= text.len()
    &&& forall|k: int|
        0 <= k < pattern.len() ==> ascii_lower(#[trigger] pattern[k]) == ascii_lower(text[at + k])
}

/// A pattern counts as found exactly if the text reads the whole of it from some
/// place on, both in lower case. For texts and patterns that are lowered as ASCII
/// is, this means letter by letter in any case.
pub proof fn law_pattern_is_found_letter_by_letter(text: Seq<char>, pattern: Seq<char>)
    ensures
        mentions(text, pattern) <==> exists|at: int|
            reads_at(lowercase(text), at, lowercase(pattern)),
        lowercase(text) == ascii_lowercase(text) && lowercase(pattern) == ascii_lowercase(pattern)
            ==> (mentions(text, pattern) <==> exists|at: int|
            reads_in_any_case_at(text, at, pattern)),
{
    law_substring_is_read_letter_by_letter(lowercase(pattern), lowercase(text));
    if lowercase(text) == ascii_lowercase(text) && lowercase(pattern) == ascii_lowercase(pattern) {
        lemma_reading_in_any_case(text, pattern);
    }
}

proof fn lemma_reading_in_any_case(text: Seq<char>, pattern: Seq<char>)
    ensures
        (exists|at: int| reads_at(ascii_lowercase(text), at, ascii_lowercase(pattern))) <==> (exists|
            at: int,
        |
            reads_in_any_case_at(text, at, pattern)),
{
    assert forall|at: int|
        reads_at(ascii_lowercase(text), at, ascii_lowercase(pattern)) == reads_in_any_case_at(
            text,
            at,
            pattern,
        ) by {
        if reads_at(ascii_lowercase(text), at, ascii_lowercase(pattern)) {
            assert forall|k: int| 0 <= k < pattern.len() implies ascii_lower(#[trigger] pattern[k])
                == ascii_lower(text[at + k]) by {
                assert(ascii_lowercase(pattern)[k] == ascii_lowercase(text)[at + k]);
            }
        }
        if reads_in_any_case_at(text, at, pattern) {
            assert forall|k: int| 0 <= k < ascii_lowercase(pattern).len() implies (
            #[trigger] ascii_lowercase(pattern)[k]) == ascii_lowercase(text)[at + k] by {
                assert(ascii_lower(pattern[k]) == ascii_lower(text[at + k]));
            }
        }
    }
    if exists|at: int| reads_at(ascii_lowercase(text), at, ascii_lowercase(pattern)) {
        let at = choose|at: int| reads_at(ascii_lowercase(text), at, ascii_lowercase(pattern));
        assert(reads_in_any_case_at(text, at, pattern));
    }
    if exists|at: int| reads_in_any_case_at(text, at, pattern) {
        let at = choose|at: int| reads_in_any_case_at(text, at, pattern);
        assert(reads_at(ascii_lowercase(text), at, ascii_lowercase(pattern)));
    }
}

/// Without patterns there is nothing to hit, and every hit is one of the patterns.
pub proof fn law_hits_are_patterns(patterns: Seq<String>, incident: Seq<char>)
    ensures
        hits(seq![], incident) == 0,
        hits(patterns, incident) <= patterns.len(),
        hits(patterns, incident) > 0 <==> exists|i: int|
            0 <= i < patterns.len() && mentions(incident, (#[trigger] patterns[i])@),
    decreases patterns.len(),
{
    reveal(Seq::filter);
    if patterns.len() > 0 {
        let front = patterns.drop_last();
        law_hits_are_patterns(front, incident);
        assert(front.push(patterns.last()) =~= patterns);
        lemma_hits_push(front, patterns.last(), incident);
        if hits(front, incident) > 0 {
            let i = choose|i: int|
                0 <= i < front.len() && mentions(incident, (#[trigger] front[i])@);
            assert(patterns[i] == front[i]);
        }
        if exists|i: int| 0 <= i < patterns.len() && mentions(incident, (#[trigger] patterns[i])@) {
            let i = choose|i: int|
                0 <= i < patterns.len() && mentions(incident, (#[trigger] patterns[i])@);
            if i < front.len() {
                assert(front[i] == patterns[i]);
            }
        }
    }
}

/// A rule without patterns scores its priority. An error pattern that is added to a
/// rule raises the score by 50 if it occurs in the incident, a context pattern by
/// 20, and neither changes anything if it does not.
pub proof fn law_each_pattern_adds_its_share(
    rule: Rule,
    with_error: Rule,
    with_context: Rule,
    pattern: String,
    incident: Seq<char>,
)
    requires
        with_error.error_patterns@ == rule.error_patterns@.push(pattern),
        with_error.context_patterns@ == rule.context_patterns@,
        with_error.priority == rule.priority,
        with_context.error_patterns@ == rule.error_patterns@,
        with_context.context_patterns@ == rule.context_patterns@.push(pattern),
        with_context.priority == rule.priority,
    ensures
        rule.error_patterns@.len() == 0 && rule.context_patterns@.len() == 0 ==> score(
            rule,
            incident,
        ) == rule.priority,
        mentions(incident, pattern@) ==> score(with_error, incident) == score(rule, incident) + 50,
        mentions(incident, pattern@) ==> score(with_context, incident) == score(rule, incident) + 20,
        !mentions(incident, pattern@) ==> score(with_error, incident) == score(rule, incident),
        !mentions(incident, pattern@) ==> score(with_context, incident) == score(rule, incident),
{
    lemma_hits_push(rule.error_patterns@, pattern, incident);
    lemma_hits_push(rule.context_patterns@, pattern, incident);
    law_hits_are_patterns(rule.error_patterns@, incident);
    law_hits_are_patterns(rule.context_patterns@, incident);
}

/// A score is 50 for each error pattern that occurs, 20 for each context pattern
/// that occurs, and the priority, and it can be computed exactly if neither this
/// sum nor the part of it without the priority exceeds an `i32`.
pub proof fn law_score_adds_up(rule: Rule, incident: Seq<char>)
    ensures
        ({
            let shares = 50 * hits(rule.error_patterns@, incident) + 20 * hits(
                rule.context_patterns@,
                incident,
            );
            &&& score(rule, incident) == shares + rule.priority
            &&& score_fits(rule, incident) <==> shares <= 2_147_483_647 && shares + rule.priority
                <= 2_147_483_647
        }),
{
}

/// The scores of a list of rules are those of its rules, one by one, and can be
/// computed exactly if each of them can.
pub proof fn law_scores_are_those_of_the_rules(rules: Seq<Rule>, incident: Seq<char>)
    ensures
        scores(rules, incident).len() == rules.len(),
        forall|i: int|
            0 <= i < rules.len() ==> #[trigger] scores(rules, incident)[i] == score(
                rules[i],
                incident,
            ),
        scores_fit(rules, incident) <==> forall|i: int|
            0 <= i < rules.len() ==> score_fits(#[trigger] rules[i], incident),
{
}

/// A rule is chosen exactly if it scores 60 or more, no rule scores higher, and no
/// rule before it scores as high; none is chosen exactly if all score below 60.
pub proof fn law_first_of_the_highest_is_chosen(rules: Seq<Rule>, incident: Seq<char>, best: int)
    ensures
        best_index(scores(rules, incident)) == Some(best) <==> {
            &&& 0 <= best < rules.len()
            &&& score(rules[best], incident) >= 60
            &&& forall|i: int|
                0 <= i < rules.len() ==> score(#[trigger] rules[i], incident) <= score(
                    rules[best],
                    incident,
                )
            &&& forall|i: int|
                0 <= i < best ==> score(#[trigger] rules[i], incident) < score(
                    rules[best],
                    incident,
                )
        },
        best_index(scores(rules, incident)) is None <==> forall|i: int|
            0 <= i < rules.len() ==> score(#[trigger] rules[i], incident) < 60,
{
    let all = scores(rules, incident);
    law_best_is_unique(all);
    assert forall|i: int| 0 <= i < rules.len() implies all[i] == score(
        #[trigger] rules[i],
        incident,
    ) by {}
    if 0 <= best < rules.len() && score(rules[best], incident) >= 60 && (forall|i: int|
        0 <= i < rules.len() ==> score(#[trigger] rules[i], incident) <= score(
            rules[best],
            incident,
        )) && (forall|i: int|
        0 <= i < best ==> score(#[trigger] rules[i], incident) < score(rules[best], incident)) {
        assert forall|i: int| 0 <= i < all.len() implies all[i] <= all[best] by {
            assert(score(rules[i], incident) <= score(rules[best], incident));
        }
        assert forall|i: int| 0 <= i < best implies all[i] < all[best] by {
            assert(score(rules[i], incident) < score(rules[best], incident));
        }
        assert(is_best(all, best));
    }
    if best_index(all) is Some {
        let found = best_index(all)->Some_0;
        assert(score(rules[found], incident) == all[found]);
        assert forall|i: int| 0 <= i < rules.len() implies score(#[trigger] rules[i], incident)
            <= all[found] by {
            assert(all[i] <= all[found]);
        }
        assert forall|i: int| 0 <= i < found implies score(#[trigger] rules[i], incident)
            < all[found] by {
            assert(all[i] < all[found]);
        }
    } else {
        assert forall|i: int| 0 <= i < rules.len() implies score(#[trigger] rules[i], incident)
            < 60 by {
            assert(all[i] < MIN_MATCH_SCORE);
        }
    }
    if forall|i: int| 0 <= i < rules.len() ==> score(#[trigger] rules[i], incident) < 60 {
        assert forall|i: int| 0 <= i < all.len() implies all[i] < MIN_MATCH_SCORE by {
            assert(score(rules[i], incident) < 60);
        }
    }
}

/// What counts as the best rule is one of the rules, with its own score, which is
/// 60 or more, the highest, and higher than all before it; and there is none only
/// if all score below 60.
pub proof fn law_best_rule_is_the_first_of_the_highest(
    rules: Seq<Rule>,
    incident: Seq<char>,
    found: Option<(&Rule, i32)>,
)
    requires
        is_best_rule(rules, incident, found),
    ensures
        found matches Some((rule, total)) ==> {
            &&& total >= 60
            &&& total == score(*rule, incident)
            &&& exists|best: int|
                0 <= best < rules.len() && *rule == #[trigger] rules[best] && forall|i: int|
                    0 <= i < best ==> score(#[trigger] rules[i], incident) < total
            &&& forall|i: int|
                0 <= i < rules.len() ==> score(#[trigger] rules[i], incident) <= total
        },
        found is None ==> forall|i: int|
            0 <= i < rules.len() ==> score(#[trigger] rules[i], incident) < 60,
{
    match best_index(scores(rules, incident)) {
        Some(best) => {
            law_first_of_the_highest_is_chosen(rules, incident, best);
            assert(*found->Some_0.0 == rules[best]);
        },
        None => law_first_of_the_highest_is_chosen(rules, incident, 0),
    }
}

} // verus!
