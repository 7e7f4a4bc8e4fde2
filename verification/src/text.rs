//! Texts as sequences of characters: comparison, search, trimming and numbers.
use vstd::prelude::*;

verus! {

/// `needle` stands in `text` at the position `at`.
pub open spec fn occurs_at(needle: Seq<char>, text: Seq<char>, at: int) -> bool {
    &&& 0 <= at <= text.len() - needle.len()
    &&& text.subrange(at, at + needle.len()) == needle
}

/// `needle` stands somewhere in `text`.
pub open spec fn is_substring(needle: Seq<char>, text: Seq<char>) -> bool {
    exists|at: int| occurs_at(needle, text, at)
}

/// The characters that have the Unicode property `White_Space`.
pub open spec fn white_space(c: char) -> bool {
    ||| '\u{9}' <= c <= '\u{d}'
    ||| c == '\u{20}'
    ||| c == '\u{85}'
    ||| c == '\u{a0}'
    ||| c == '\u{1680}'
    ||| '\u{2000}' <= c <= '\u{200a}'
    ||| c == '\u{2028}'
    ||| c == '\u{2029}'
    ||| c == '\u{202f}'
    ||| c == '\u{205f}'
    ||| c == '\u{3000}'
}

/// `text` without the white space that it starts with.
pub open spec fn without_leading_space(text: Seq<char>) -> Seq<char>
    decreases text.len(),
{
    if text.len() > 0 && white_space(text.first()) {
        without_leading_space(text.drop_first())
    } else {
        text
    }
}

/// `text` without the white space that it ends with.
pub open spec fn without_trailing_space(text: Seq<char>) -> Seq<char>
    decreases text.len(),
{
    if text.len() > 0 && white_space(text.last()) {
        without_trailing_space(text.drop_last())
    } else {
        text
    }
}

/// `text` without white space at either end.
pub open spec fn trim(text: Seq<char>) -> Seq<char> {
    without_trailing_space(without_leading_space(text))
}

/// `text` without any of the copies of `suffix` that it ends with.
pub open spec fn without_suffixes(text: Seq<char>, suffix: Seq<char>) -> Seq<char>
    decreases text.len(),
{
    if 0 < suffix.len() && suffix.is_suffix_of(text) {
        without_suffixes(text.take(text.len() - suffix.len()), suffix)
    } else {
        text
    }
}

/// The character of a decimal digit.
pub open spec fn digit(value: nat) -> char {
    ('0' as u32 + value) as char
}

/// A number in decimal, without leading zeros.
pub open spec fn decimal(number: nat) -> Seq<char>
    decreases number,
{
    if number < 10 {
        seq![digit(number)]
    } else {
        decimal(number / 10).push(digit(number % 10))
    }
}

/// The contents of a list of strings.
pub open spec fn texts(strings: Seq<String>) -> Seq<Seq<char>> {
    strings.map_values(|string: String| string@)
}

/// Texts in a row, with `separator` between each two of them.
pub open spec fn joined(parts: Seq<Seq<char>>, separator: Seq<char>) -> Seq<char>
    decreases parts.len(),
{
    if parts.len() == 0 {
        Seq::empty()
    } else if parts.len() == 1 {
        parts[0]
    } else {
        joined(parts.drop_last(), separator) + separator + parts.last()
    }
}

/// Tells whether a character is white space.
pub fn is_white_space(c: char) -> (white: bool)
    ensures
        white == white_space(c),
{
    ('\u{9}' <= c && c <= '\u{d}') || c == '\u{20}' || c == '\u{85}' || c == '\u{a0}' || c
        == '\u{1680}' || ('\u{2000}' <= c && c <= '\u{200a}') || c == '\u{2028}' || c == '\u{2029}'
        || c == '\u{202f}' || c == '\u{205f}' || c == '\u{3000}'
}

/// The characters of a text.
fn characters(text: &str) -> (all: Vec<char>)
    ensures
        all@ == text@,
{
    let mut all: Vec<char> = Vec::new();
    for c in it: text.chars()
        invariant
            it.seq() == text@,
            all@ == text@.take(it.index() as int),
    {
        all.push(c);
    }
    all
}

/// Tells whether `needle` stands in `text` at the position `at`.
fn stands_at(text: &Vec<char>, needle: &Vec<char>, at: usize) -> (found: bool)
    requires
        at + needle.len() <= text.len(),
    ensures
        found == (text@.subrange(at as int, at + needle@.len()) == needle@),
{
    for i in 0..needle.len()
        invariant
            at + needle.len() <= text.len(),
            forall|k: int| 0 <= k < i ==> text@[at + k] == needle@[k],
    {
        if text[at + i] != needle[i] {
            assert(text@.subrange(at as int, at + needle@.len())[i as int] != needle@[i as int]);
            return false;
        }
    }
    assert(text@.subrange(at as int, at + needle@.len()) =~= needle@);
    true
}

/// Tells whether `pattern` stands somewhere in `text`.
pub fn contains(text: &str, pattern: &str) -> (found: bool)
    ensures
        found == is_substring(pattern@, text@),
{
    let text_chars = characters(text);
    let pattern_chars = characters(pattern);
    if pattern_chars.len() > text_chars.len() {
        return false;
    }
    let last: usize = text_chars.len() - pattern_chars.len();
    let mut at: usize = 0;
    loop
        invariant
            at <= last,
            last == text@.len() - pattern@.len(),
            text_chars@ == text@,
            pattern_chars@ == pattern@,
            forall|k: int| 0 <= k < at ==> !occurs_at(pattern@, text@, k),
        decreases last - at,
    {
        if stands_at(&text_chars, &pattern_chars, at) {
            assert(occurs_at(pattern@, text@, at as int));
            return true;
        }
        if at == last {
            return false;
        }
        at = at + 1;
    }
}

/// Takes the white space off both ends of a text.
pub fn trimmed<'a>(text: &'a str) -> (inner: &'a str)
    ensures
        inner@ == trim(text@),
{
    let all = characters(text);
    let mut from: usize = 0;
    assert(text@.skip(0) =~= text@);
    while from < all.len() && is_white_space(all[from])
        invariant
            from <= all@.len(),
            all@ == text@,
            without_leading_space(text@.skip(from as int)) == without_leading_space(text@),
        decreases all@.len() - from,
    {
        assert(text@.skip(from as int).drop_first() =~= text@.skip(from + 1));
        from = from + 1;
    }
    let ghost rest = text@.skip(from as int);
    let mut to: usize = all.len();
    assert(text@.subrange(from as int, to as int) =~= rest);
    while from < to && is_white_space(all[to - 1])
        invariant
            from <= to <= all@.len(),
            all@ == text@,
            rest == text@.skip(from as int),
            without_trailing_space(text@.subrange(from as int, to as int))
                == without_trailing_space(rest),
        decreases to,
    {
        assert(text@.subrange(from as int, to as int).drop_last() =~= text@.subrange(
            from as int,
            to - 1,
        ));
        to = to - 1;
    }
    text.substring_char(from, to)
}

/// Takes every copy of `suffix` off the end of a text.
pub fn strip_suffixes<'a>(text: &'a str, suffix: &str) -> (rest: &'a str)
    ensures
        rest@ == without_suffixes(text@, suffix@),
{
    let all = characters(text);
    let tail = characters(suffix);
    let mut to: usize = all.len();
    assert(text@.take(to as int) =~= text@);
    while 0 < tail.len() && tail.len() <= to && stands_at(&all, &tail, to - tail.len())
        invariant
            to <= all@.len(),
            all@ == text@,
            tail@ == suffix@,
            without_suffixes(text@.take(to as int), suffix@) == without_suffixes(text@, suffix@),
        decreases to,
    {
        proof {
            let now = text@.take(to as int);
            assert(now.subrange(now.len() - suffix@.len(), now.len() as int) =~= text@.subrange(
                to - suffix@.len(),
                to as int,
            ));
            assert(suffix@.is_suffix_of(now));
            assert(now.take(now.len() - suffix@.len()) =~= text@.take(to - suffix@.len()));
        }
        to = to - tail.len();
    }
    proof {
        let now = text@.take(to as int);
        if 0 < suffix@.len() && suffix@.is_suffix_of(now) {
            assert(now.subrange(now.len() - suffix@.len(), now.len() as int) =~= text@.subrange(
                to - suffix@.len(),
                to as int,
            ));
        }
        assert(now =~= text@.subrange(0, to as int));
    }
    text.substring_char(0, to)
}

/// Tells whether two texts are the same.
pub fn same(left: &str, right: &str) -> (equal: bool)
    ensures
        equal == (left@ == right@),
{
    left.to_owned() == right.to_owned()
}

/// The text of a decimal digit.
fn digit_text(value: u64) -> (text: &'static str)
    requires
        value < 10,
    ensures
        text@ == seq![digit(value as nat)],
{
    proof {
        reveal_strlit("0");
        reveal_strlit("1");
        reveal_strlit("2");
        reveal_strlit("3");
        reveal_strlit("4");
        reveal_strlit("5");
        reveal_strlit("6");
        reveal_strlit("7");
        reveal_strlit("8");
        reveal_strlit("9");
    }
    match value {
        0 => "0",
        1 => "1",
        2 => "2",
        3 => "3",
        4 => "4",
        5 => "5",
        6 => "6",
        7 => "7",
        8 => "8",
        _ => "9",
    }
}

/// Writes a number in decimal.
pub fn decimal_text(number: u64) -> (text: String)
    ensures
        text@ == decimal(number as nat),
    decreases number,
{
    if number < 10 {
        digit_text(number).to_owned()
    } else {
        decimal_text(number / 10).concat(digit_text(number % 10))
    }
}

/// Puts texts in a row, with `separator` between each two of them.
pub fn join(parts: &Vec<String>, separator: &str) -> (row: String)
    ensures
        row@ == joined(texts(parts@), separator@),
{
    let mut row: String = String::new();
    for i in 0..parts.len()
        invariant
            row@ == joined(texts(parts@).take(i as int), separator@),
    {
        if i > 0 {
            row.append(separator);
        }
        row.append(parts[i].as_str());
        proof {
            let done = texts(parts@).take(i + 1);
            assert(done.drop_last() =~= texts(parts@).take(i as int));
            assert(done.last() == parts@[i as int]@);
            if i == 0 {
                assert(row@ =~= parts@[0]@);
            }
        }
    }
    assert(texts(parts@).take(parts@.len() as int) =~= texts(parts@));
    row
}

/// A text stands in every text that it is a part of.
pub proof fn lemma_part_is_substring(before: Seq<char>, part: Seq<char>, after: Seq<char>)
    ensures
        is_substring(part, before + part + after),
{
    let whole = before + part + after;
    let at = before.len() as int;
    assert(whole.subrange(at, at + part.len()) =~= part);
    assert(occurs_at(part, whole, at));
}

/// A trimmed text neither starts nor ends with white space, and is a part of the
/// text; trimming it again changes nothing.
pub proof fn law_trim_leaves_no_space_around(text: Seq<char>)
    ensures
        trim(text).len() > 0 ==> !white_space(trim(text).first()) && !white_space(
            trim(text).last(),
        ),
        trim(trim(text)) == trim(text),
        is_substring(trim(text), text),
{
    let inner = without_leading_space(text);
    lemma_leading_space(text);
    lemma_trailing_space(inner);
    let from = text.len() - inner.len();
    assert(trim(text) =~= text.subrange(from, from + trim(text).len()));
    assert(occurs_at(trim(text), text, from));
}

proof fn lemma_leading_space(text: Seq<char>)
    ensures
        without_leading_space(text).is_suffix_of(text),
        without_leading_space(text).len() > 0 ==> !white_space(without_leading_space(text).first()),
    decreases text.len(),
{
    if text.len() > 0 && white_space(text.first()) {
        let rest = text.drop_first();
        lemma_leading_space(rest);
        let inner = without_leading_space(rest);
        assert(text.subrange(text.len() - inner.len(), text.len() as int) =~= rest.subrange(
            rest.len() - inner.len(),
            rest.len() as int,
        ));
    } else {
        assert(text.subrange(0, text.len() as int) =~= text);
    }
}

proof fn lemma_trailing_space(text: Seq<char>)
    ensures
        without_trailing_space(text).is_prefix_of(text),
        without_trailing_space(text).len() > 0 ==> !white_space(
            without_trailing_space(text).last(),
        ),
    decreases text.len(),
{
    if text.len() > 0 && white_space(text.last()) {
        lemma_trailing_space(text.drop_last());
    }
}

/// White space before or after a text is trimmed away.
pub proof fn law_trim_ignores_space_around(text: Seq<char>, space: char)
    requires
        white_space(space),
    ensures
        trim(seq![space] + text) == trim(text),
        trim(text.push(space)) == trim(text),
{
    assert((seq![space] + text).drop_first() =~= text);
    lemma_leading_space_push(text, space);
    lemma_leading_space(text);
    let inner = without_leading_space(text);
    if inner.len() > 0 {
        assert(inner.push(space).drop_last() =~= inner);
    }
}

proof fn lemma_leading_space_push(text: Seq<char>, last: char)
    requires
        white_space(last),
    ensures
        without_leading_space(text).len() > 0 ==> without_leading_space(text.push(last))
            == without_leading_space(text).push(last),
        without_leading_space(text).len() == 0 ==> without_leading_space(text.push(last)).len()
            == 0,
    decreases text.len(),
{
    if text.len() == 0 {
        assert(text.push(last).drop_first() =~= text);
    } else if white_space(text.first()) {
        assert(text.push(last).drop_first() =~= text.drop_first().push(last));
        lemma_leading_space_push(text.drop_first(), last);
    }
}

/// Taking suffixes off leaves a text that does not end with the suffix, and one
/// more copy of the suffix makes no difference.
pub proof fn law_suffixes_are_all_taken_off(text: Seq<char>, suffix: Seq<char>)
    requires
        suffix.len() > 0,
    ensures
        !suffix.is_suffix_of(without_suffixes(text, suffix)),
        without_suffixes(text + suffix, suffix) == without_suffixes(text, suffix),
    decreases text.len(),
{
    let longer = text + suffix;
    assert(longer.subrange(longer.len() - suffix.len(), longer.len() as int) =~= suffix);
    assert(longer.take(longer.len() - suffix.len()) =~= text);
    if suffix.is_suffix_of(text) {
        law_suffixes_are_all_taken_off(text.take(text.len() - suffix.len()), suffix);
    }
}

/// From the place `at` on, a text reads `needle`, letter by letter.
pub open spec fn reads_at(text: Seq<char>, at: int, needle: Seq<char>) -> bool {
    &&& 0 <= at
    &&& at + needle.len() <= text.len()
    &&& forall|k: int| 0 <= k < needle.len() ==> #[trigger] needle[k] == text[at + k]
}

/// A text consists of white space.
pub open spec fn all_white(text: Seq<char>) -> bool {
    forall|i: int| 0 <= i < text.len() ==> white_space(#[trigger] text[i])
}

/// A text so many times in a row.
pub open spec fn repeated(part: Seq<char>, times: nat) -> Seq<char>
    decreases times,
{
    if times == 0 {
        seq![]
    } else {
        repeated(part, (times - 1) as nat) + part
    }
}

/// The number that digits stand for.
pub open spec fn number_read(digits: Seq<char>) -> int
    decreases digits.len(),
{
    if digits.len() == 0 {
        0
    } else {
        10 * number_read(digits.drop_last()) + (digits.last() as int - '0' as int)
    }
}

/// A text stands in another exactly if the other reads it from some place on, the
/// whole of it, letter by letter.
pub proof fn law_substring_is_read_letter_by_letter(needle: Seq<char>, text: Seq<char>)
    ensures
        is_substring(needle, text) <==> exists|at: int| reads_at(text, at, needle),
{
    if is_substring(needle, text) {
        let at = choose|at: int| occurs_at(needle, text, at);
        assert forall|k: int| 0 <= k < needle.len() implies #[trigger] needle[k] == text[at + k] by {
            assert(text.subrange(at, at + needle.len())[k] == text[at + k]);
        }
        assert(reads_at(text, at, needle));
    }
    if exists|at: int| reads_at(text, at, needle) {
        let at = choose|at: int| reads_at(text, at, needle);
        assert(text.subrange(at, at + needle.len()) =~= needle);
        assert(occurs_at(needle, text, at));
    }
}

/// Trimming gives what stands between the white space: whatever neither starts nor
/// ends with white space comes back whole from between any white space.
pub proof fn law_trim_gives_what_stands_between(
    before: Seq<char>,
    inner: Seq<char>,
    after: Seq<char>,
)
    requires
        all_white(before),
        all_white(after),
        inner.len() > 0 ==> !white_space(inner.first()) && !white_space(inner.last()),
    ensures
        trim(before + inner + after) == inner,
    decreases before.len() + after.len(),
{
    if after.len() > 0 {
        law_trim_gives_what_stands_between(before, inner, after.drop_last());
        law_trim_ignores_space_around(before + inner + after.drop_last(), after.last());
        assert((before + inner + after.drop_last()).push(after.last()) =~= before + inner + after);
    } else if before.len() > 0 {
        law_trim_gives_what_stands_between(before.drop_first(), inner, after);
        assert(white_space(before[0]));
        law_trim_ignores_space_around(before.drop_first() + inner + after, before[0]);
        assert(seq![before[0]] + (before.drop_first() + inner + after) =~= before + inner + after);
    } else {
        assert(before + inner + after =~= inner);
    }
}

/// Trimming takes nothing but white space off a text: the text is what is left
/// with white space before and after it.
pub proof fn law_trim_takes_only_space(text: Seq<char>) -> (around: (Seq<char>, Seq<char>))
    ensures
        all_white(around.0),
        all_white(around.1),
        text == around.0 + trim(text) + around.1,
{
    let inner = without_leading_space(text);
    let before = lemma_leading_space_is_white(text);
    let after = lemma_trailing_space_is_white(inner);
    assert(text =~= before + trim(text) + after);
    (before, after)
}

proof fn lemma_leading_space_is_white(text: Seq<char>) -> (before: Seq<char>)
    ensures
        all_white(before),
        text == before + without_leading_space(text),
    decreases text.len(),
{
    if text.len() > 0 && white_space(text.first()) {
        let rest = lemma_leading_space_is_white(text.drop_first());
        let before = seq![text.first()] + rest;
        assert forall|i: int| 0 <= i < before.len() implies white_space(#[trigger] before[i]) by {
            if i > 0 {
                assert(before[i] == rest[i - 1]);
            }
        }
        let inner = without_leading_space(text.drop_first());
        assert(text =~= seq![text.first()] + (rest + inner));
        assert(text =~= before + inner);
        before
    } else {
        assert(text =~= seq![] + without_leading_space(text));
        seq![]
    }
}

proof fn lemma_trailing_space_is_white(text: Seq<char>) -> (after: Seq<char>)
    ensures
        all_white(after),
        text == without_trailing_space(text) + after,
    decreases text.len(),
{
    if text.len() > 0 && white_space(text.last()) {
        let rest = lemma_trailing_space_is_white(text.drop_last());
        let after = rest.push(text.last());
        let inner = without_trailing_space(text.drop_last());
        assert(text =~= (inner + rest).push(text.last()));
        assert(text =~= inner + after);
        after
    } else {
        assert(text =~= without_trailing_space(text) + seq![]);
        seq![]
    }
}

/// Taking suffixes off gives what stands before them: whatever does not end with
/// the suffix comes back whole from before any number of copies.
pub proof fn law_suffixes_leave_what_stands_before(
    name: Seq<char>,
    suffix: Seq<char>,
    times: nat,
)
    requires
        suffix.len() > 0,
        !suffix.is_suffix_of(name),
    ensures
        without_suffixes(name + repeated(suffix, times), suffix) == name,
        without_suffixes(name, seq![]) == name,
    decreases times,
{
    if times == 0 {
        assert(name + repeated(suffix, times) =~= name);
    } else {
        let fewer = repeated(suffix, (times - 1) as nat);
        law_suffixes_leave_what_stands_before(name, suffix, (times - 1) as nat);
        law_suffixes_are_all_taken_off(name + fewer, suffix);
        assert(name + fewer + suffix =~= name + repeated(suffix, times));
    }
}

/// A number in decimal consists of the digits 0 to 9, has no leading zero, and
/// reads back as the number.
pub proof fn law_decimal_reads_back(number: nat)
    ensures
        number_read(decimal(number)) == number,
        decimal(number).len() > 0,
        decimal(number).len() > 1 ==> decimal(number).first() != '0',
        forall|i: int| 0 <= i < decimal(number).len() ==> '0' <= #[trigger] decimal(number)[i] <= '9',
    decreases number,
{
    if number < 10 {
        assert(decimal(number).drop_last() =~= seq![]);
        assert(number_read(seq![]) == 0);
    } else {
        law_decimal_reads_back(number / 10);
        let front = decimal(number / 10);
        assert(decimal(number).drop_last() =~= front);
        assert forall|i: int| 0 <= i < decimal(number).len() implies '0' <= #[trigger] decimal(
            number,
        )[i] <= '9' by {
            if i < front.len() {
                assert(decimal(number)[i] == front[i]);
            }
        }
        if front.len() == 1 {
            assert(number_read(front.drop_last()) == 0);
            assert(number_read(front) == front[0] as int - '0' as int);
        }
    }
}

/// Rows of texts can be put together from shorter rows: one text is a row by
/// itself, and between two rows comes the separator.
pub proof fn law_rows_are_joined_by_the_separator(
    part: Seq<char>,
    row: Seq<Seq<char>>,
    more: Seq<Seq<char>>,
    separator: Seq<char>,
)
    requires
        row.len() > 0,
        more.len() > 0,
    ensures
        joined(seq![], separator).len() == 0,
        joined(seq![part], separator) == part,
        joined(row + more, separator) == joined(row, separator) + separator + joined(
            more,
            separator,
        ),
    decreases more.len(),
{
    assert((row + more).last() == more.last());
    if more.len() == 1 {
        assert((row + more).drop_last() =~= row);
    } else {
        law_rows_are_joined_by_the_separator(part, row, more.drop_last(), separator);
        assert((row + more).drop_last() =~= row + more.drop_last());
        assert(joined(row + more, separator) =~= joined(row, separator) + separator + joined(
            more,
            separator,
        ));
    }
}

/// The contents of a list of strings are those of its strings, one by one.
pub proof fn law_texts_are_those_of_the_strings(strings: Seq<String>)
    ensures
        texts(strings).len() == strings.len(),
        forall|i: int| 0 <= i < strings.len() ==> #[trigger] texts(strings)[i] == strings[i]@,
{
}

} // verus!
