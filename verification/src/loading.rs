//! The rules that directories hold, and what the incident log says of them.
use vstd::prelude::*;

#[allow(unused_imports)]
use crate::rules::{best_index, law_earlier_rule_wins_ties, score, scores};
use crate::rules::Rule;
use crate::text::{decimal_text, same};
#[allow(unused_imports)]
use crate::text::{decimal, texts};

verus! {

/// Where the rules that come with Aegira are.
pub const BUILTIN_RULES_DIR: &'static str = "/home/pikachu/aegira/rules/builtin";

/// Where the rules of the operator are.
pub const CUSTOM_RULES_DIR: &'static str = "/home/pikachu/aegira/rules/custom";

/// What came of reading a rule file: it could not be read, it does not hold a
/// rule, or it holds this one.
#[derive(Debug)]
pub enum FileContent {
    Unreadable(String),
    Invalid(String),
    Parsed(Rule),
}

/// A rule file, with its path as it is to be shown.
#[derive(Debug)]
pub struct RuleFile {
    pub path: String,
    pub content: FileContent,
}

/// What came of reading a directory of rules: it does not exist, it could not be
/// read, or it has these rule files.
#[derive(Debug)]
pub enum DirectoryContent {
    Missing,
    Unreadable(String),
    Listed(Vec<RuleFile>),
}

/// Rules, and the lines that the incident log gets while they are loaded.
#[derive(Debug)]
pub struct LoadedRules {
    pub rules: Vec<Rule>,
    pub log: Vec<String>,
}

/// The rules that files hold, in the order of the files.
pub open spec fn rules_in(files: Seq<RuleFile>) -> Seq<Rule>
    decreases files.len(),
{
    if files.len() == 0 {
        Seq::empty()
    } else {
        match files.last().content {
            FileContent::Parsed(rule) => rules_in(files.drop_last()).push(rule),
            _ => rules_in(files.drop_last()),
        }
    }
}

/// What the incident log says of a rule file.
pub open spec fn file_line(file: RuleFile) -> Seq<char> {
    match file.content {
        FileContent::Unreadable(error) => "[RULES ERROR] Failed reading "@ + file.path@ + ": "@
            + error@,
        FileContent::Invalid(error) => "[RULES ERROR] Invalid rule "@ + file.path@ + ": "@ + error@,
        FileContent::Parsed(rule) => "[RULES] Loaded: "@ + rule.id@,
    }
}

/// The rules of a directory.
pub open spec fn directory_rules(content: DirectoryContent) -> Seq<Rule> {
    match content {
        DirectoryContent::Listed(files) => rules_in(files@),
        _ => Seq::empty(),
    }
}

/// What the incident log says of a directory.
pub open spec fn directory_log(path: Seq<char>, content: DirectoryContent) -> Seq<Seq<char>> {
    match content {
        DirectoryContent::Missing => seq!["[RULES] Directory does not exist: "@ + path],
        DirectoryContent::Unreadable(error) => seq![
            "[RULES ERROR] Failed to read "@ + path + ": "@ + error@,
        ],
        DirectoryContent::Listed(files) => files@.map_values(|file: RuleFile| file_line(file)),
    }
}

/// What the incident log says while both directories are loaded.
pub open spec fn loading_log(builtin: DirectoryContent, custom: DirectoryContent) -> Seq<
    Seq<char>,
> {
    let builtin_count = directory_rules(builtin).len();
    let custom_count = directory_rules(custom).len();
    seq!["[RULES] Loading built-in rules..."@] + directory_log(BUILTIN_RULES_DIR@, builtin) + seq![
        "[RULES] Built-in rules loaded: "@ + decimal(builtin_count),
        "[RULES] Loading custom rules..."@,
    ] + directory_log(CUSTOM_RULES_DIR@, custom) + seq![
        "[RULES] Custom rules loaded: "@ + decimal(custom_count),
        "[RULES] Total rules available: "@ + decimal(builtin_count + custom_count),
    ]
}

/// Tells by its extension whether a file of a rules directory is a rule file.
pub fn is_rule_file(extension: Option<&str>) -> (is: bool)
    ensures
        is == (extension matches Some(extension) && extension@ == "json"@),
{
    match extension {
        Some(extension) => same(extension, "json"),
        None => false,
    }
}

/// Chooses the rule files among the entries of a directory by their extensions:
/// the places of all of them, in the order of the directory.
pub fn rule_entries(extensions: &Vec<Option<String>>) -> (chosen: Vec<usize>)
    ensures
        forall|j: int, k: int| 0 <= j < k < chosen@.len() ==> chosen@[j] < chosen@[k],
        forall|j: int|
            0 <= j < chosen@.len() ==> #[trigger] chosen@[j] < extensions@.len(),
        forall|i: usize|
            i < extensions@.len() ==> (#[trigger] chosen@.contains(i) <==> (
            extensions@[i as int] matches Some(extension) && extension@ == "json"@)),
{
    let mut chosen: Vec<usize> = Vec::new();
    for i in 0..extensions.len()
        invariant
            forall|j: int, k: int| 0 <= j < k < chosen@.len() ==> chosen@[j] < chosen@[k],
            forall|j: int| 0 <= j < chosen@.len() ==> #[trigger] chosen@[j] < i,
            forall|k: usize|
                k < i ==> (#[trigger] chosen@.contains(k) <==> (
                extensions@[k as int] matches Some(extension) && extension@ == "json"@)),
    {
        let ghost before = chosen@;
        let extension = match &extensions[i] {
            Some(extension) => Some(extension.as_str()),
            None => None,
        };
        if is_rule_file(extension) {
            chosen.push(i);
            assert(chosen@[before.len() as int] == i);
            assert forall|k: usize| k < i implies #[trigger] chosen@.contains(k)
                == before.contains(k) by {
                if before.contains(k) {
                    assert(chosen@[before.index_of(k)] == k);
                }
            }
        }
        assert(!before.contains(i));
    }
    chosen
}

/// The rules of a directory, from what came of reading it.
pub fn load_rules_from_directory(path: &str, content: DirectoryContent) -> (loaded: LoadedRules)
    ensures
        loaded.rules@ == directory_rules(content),
        texts(loaded.log@) == directory_log(path@, content),
{
    let mut rules: Vec<Rule> = Vec::new();
    let mut log: Vec<String> = Vec::new();
    match content {
        DirectoryContent::Missing => {
            log.push("[RULES] Directory does not exist: ".to_owned().concat(path));
        },
        DirectoryContent::Unreadable(error) => {
            log.push(
                "[RULES ERROR] Failed to read ".to_owned().concat(path).concat(": ").concat(
                    error.as_str(),
                ),
            );
        },
        DirectoryContent::Listed(files) => {
            let ghost all = files@;
            for file in it: files
                invariant
                    it.seq() == all,
                    rules@ == rules_in(all.take(it.index() as int)),
                    texts(log@) == all.take(it.index() as int).map_values(
                        |file: RuleFile| file_line(file),
                    ),
            {
                let ghost done = all.take(it.index() as int);
                let ghost more = all.take(it.index() + 1);
                assert(more.drop_last() =~= done);
                assert(more.last() == file);
                let ghost log_before = log@;
                match file.content {
                    FileContent::Unreadable(error) => {
                        log.push(
                            "[RULES ERROR] Failed reading ".to_owned().concat(
                                file.path.as_str(),
                            ).concat(": ").concat(error.as_str()),
                        );
                    },
                    FileContent::Invalid(error) => {
                        log.push(
                            "[RULES ERROR] Invalid rule ".to_owned().concat(
                                file.path.as_str(),
                            ).concat(": ").concat(error.as_str()),
                        );
                    },
                    FileContent::Parsed(rule) => {
                        log.push("[RULES] Loaded: ".to_owned().concat(rule.id.as_str()));
                        rules.push(rule);
                    },
                }
                assert(texts(log@) =~= texts(log_before).push(file_line(file)));
                assert(texts(log@) =~= more.map_values(|file: RuleFile| file_line(file)));
            }
            assert(all.take(all.len() as int) =~= all);
        },
    }
    LoadedRules { rules, log }
}

/// All rules, the built-in ones before the custom ones, from what came of
/// reading the two directories.
pub fn load_all_rules(builtin: DirectoryContent, custom: DirectoryContent) -> (loaded: LoadedRules)
    ensures
        loaded.rules@ == directory_rules(builtin) + directory_rules(custom),
        texts(loaded.log@) == loading_log(builtin, custom),
{
    let mut log: Vec<String> = Vec::new();
    log.push("[RULES] Loading built-in rules...".to_owned());
    let mut from_builtin = load_rules_from_directory(BUILTIN_RULES_DIR, builtin);
    let ghost builtin_log = from_builtin.log@;
    log.append(&mut from_builtin.log);
    let mut rules = from_builtin.rules;
    log.push(
        "[RULES] Built-in rules loaded: ".to_owned().concat(
            decimal_text(rules.len() as u64).as_str(),
        ),
    );
    log.push("[RULES] Loading custom rules...".to_owned());
    let mut from_custom = load_rules_from_directory(CUSTOM_RULES_DIR, custom);
    let ghost custom_log = from_custom.log@;
    log.append(&mut from_custom.log);
    log.push(
        "[RULES] Custom rules loaded: ".to_owned().concat(
            decimal_text(from_custom.rules.len() as u64).as_str(),
        ),
    );
    rules.append(&mut from_custom.rules);
    log.push(
        "[RULES] Total rules available: ".to_owned().concat(
            decimal_text(rules.len() as u64).as_str(),
        ),
    );
    assert(texts(builtin_log) == directory_log(BUILTIN_RULES_DIR@, builtin));
    assert(texts(custom_log) == directory_log(CUSTOM_RULES_DIR@, custom));
    assert(texts(log@) =~= loading_log(builtin, custom));
    LoadedRules { rules, log }
}

/// A file that holds no rule takes nothing from the rules of the other files.
pub proof fn law_bad_file_is_skipped(before: Seq<RuleFile>, bad: RuleFile, after: Seq<RuleFile>)
    requires
        !(bad.content is Parsed),
    ensures
        rules_in(before + seq![bad] + after) == rules_in(before) + rules_in(after),
        rules_in(before + after) == rules_in(before) + rules_in(after),
{
    lemma_rules_in_add(before + seq![bad], after);
    lemma_rules_in_add(before, after);
    assert((before + seq![bad]).drop_last() =~= before);
}

proof fn lemma_rules_in_add(files: Seq<RuleFile>, more: Seq<RuleFile>)
    ensures
        rules_in(files + more) == rules_in(files) + rules_in(more),
    decreases more.len(),
{
    if more.len() == 0 {
        assert(files + more =~= files);
    } else {
        lemma_rules_in_add(files, more.drop_last());
        assert((files + more).drop_last() =~= files + more.drop_last());
        assert(rules_in(files + more) =~= rules_in(files) + rules_in(more));
    }
}

/// A custom rule is chosen only if it scores higher than every built-in rule.
pub proof fn law_builtin_rule_wins_ties(
    builtin: DirectoryContent,
    custom: DirectoryContent,
    incident: Seq<char>,
    best: int,
    rival: int,
)
    requires
        best_index(scores(directory_rules(builtin) + directory_rules(custom), incident)) == Some(
            best,
        ),
        directory_rules(builtin).len() <= best,
        0 <= rival < directory_rules(builtin).len(),
    ensures
        score((directory_rules(builtin) + directory_rules(custom))[best], incident) > score(
            directory_rules(builtin)[rival],
            incident,
        ),
{
    let rules = directory_rules(builtin) + directory_rules(custom);
    assert(rules[rival] == directory_rules(builtin)[rival]);
    crate::rules::law_best_is_unique(scores(rules, incident));
    if score(rules[rival], incident) >= score(rules[best], incident) {
        law_earlier_rule_wins_ties(rules, incident, rival, best);
    }
}

/// The rules come file by file: a file that holds a rule adds it behind those of
/// the files before, any other file adds nothing, and only a directory that could
/// be listed has rules at all.
pub proof fn law_rules_come_file_by_file(
    files: Seq<RuleFile>,
    file: RuleFile,
    content: DirectoryContent,
)
    ensures
        rules_in(seq![]).len() == 0,
        file.content matches FileContent::Parsed(rule) ==> rules_in(files.push(file)) == rules_in(
            files,
        ).push(rule),
        !(file.content is Parsed) ==> rules_in(files.push(file)) == rules_in(files),
        content matches DirectoryContent::Listed(listed) ==> directory_rules(content) == rules_in(
            listed@,
        ),
        !(content is Listed) ==> directory_rules(content).len() == 0,
{
    assert(files.push(file).drop_last() =~= files);
}

/// The incident log gets one line for each rule file, in their order: the id of the
/// rule that it holds, or why it holds none; and one line for a directory that is
/// not there or cannot be read.
pub proof fn law_loading_tells_of_every_file(path: Seq<char>, content: DirectoryContent)
    ensures
        content is Missing ==> directory_log(path, content) == seq![
            "[RULES] Directory does not exist: "@ + path,
        ],
        content matches DirectoryContent::Unreadable(error) ==> directory_log(path, content)
            == seq!["[RULES ERROR] Failed to read "@ + path + ": "@ + error@],
        content matches DirectoryContent::Listed(files) ==> {
            &&& directory_log(path, content).len() == files@.len()
            &&& forall|i: int|
                0 <= i < files@.len() ==> (#[trigger] directory_log(path, content)[i])
                    == match files@[i].content {
                    FileContent::Unreadable(error) => "[RULES ERROR] Failed reading "@
                        + files@[i].path@ + ": "@ + error@,
                    FileContent::Invalid(error) => "[RULES ERROR] Invalid rule "@ + files@[i].path@
                        + ": "@ + error@,
                    FileContent::Parsed(rule) => "[RULES] Loaded: "@ + rule.id@,
                }
        },
{
}

/// The incident log tells of the built-in rules first and of the custom ones after
/// them, each time with the number of rules, and of the sum at the end.
pub proof fn law_loading_tells_the_numbers(builtin: DirectoryContent, custom: DirectoryContent)
    ensures
        ({
            let log = loading_log(builtin, custom);
            let first = directory_log("/home/pikachu/aegira/rules/builtin"@, builtin);
            let second = directory_log("/home/pikachu/aegira/rules/custom"@, custom);
            let from = 3 + first.len() as int;
            let counted = from + second.len() as int;
            &&& log.len() == counted + 2
            &&& log[0] == "[RULES] Loading built-in rules..."@
            &&& log.subrange(1, 1 + first.len() as int) == first
            &&& log[from - 2] == "[RULES] Built-in rules loaded: "@ + decimal(
                directory_rules(builtin).len(),
            )
            &&& log[from - 1] == "[RULES] Loading custom rules..."@
            &&& log.subrange(from, counted) == second
            &&& log[counted] == "[RULES] Custom rules loaded: "@ + decimal(
                directory_rules(custom).len(),
            )
            &&& log[counted + 1] == "[RULES] Total rules available: "@ + decimal(
                directory_rules(builtin).len() + directory_rules(custom).len(),
            )
        }),
{
    let log = loading_log(builtin, custom);
    let first = directory_log(BUILTIN_RULES_DIR@, builtin);
    let second = directory_log(CUSTOM_RULES_DIR@, custom);
    assert(log.subrange(1, 1 + first.len() as int) =~= first);
    assert(log.subrange(
        3 + first.len() as int,
        3 + first.len() as int + second.len() as int,
    ) =~= second);
}

} // verus!
