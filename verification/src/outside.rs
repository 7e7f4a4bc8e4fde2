//! The functions of `std`, `serde_json` and `reqwest` whose results the library
//! names instead of computing.
use serde_json::Value;
use vstd::prelude::*;
#[allow(unused_imports)]
use vstd::utf8::{decode_utf8, is_ascii_chars, valid_utf8};

#[allow(unused_imports)]
use crate::text::decimal;

verus! {

/// What `str::to_lowercase` makes of a text.
pub uninterp spec fn lowercase(text: Seq<char>) -> Seq<char>;

/// What `String::from_utf8_lossy` reads from bytes.
pub uninterp spec fn utf8_lossy(bytes: Seq<u8>) -> Seq<char>;

/// How `{:.2?}` writes the `Duration` of so many seconds and nanoseconds.
pub uninterp spec fn duration_text(secs: u64, nanos: u32) -> Seq<char>;

/// What `serde_json::from_str` reads from a text when it is asked for a
/// `serde_json::Value`: the document, or the message of the error.
pub uninterp spec fn json_document(text: Seq<char>) -> Result<DocumentView, Seq<char>>;

/// How `serde_json` writes an object with these fields.
pub uninterp spec fn json_text(fields: Seq<(Seq<char>, FieldView)>) -> Seq<char>;

/// How a `StatusCode` with this number shows itself.
pub uninterp spec fn status_text(status: u16) -> Seq<char>;

/// The lower case of an ASCII letter; any other character stays.
pub open spec fn ascii_lower(c: char) -> char {
    if 'A' <= c <= 'Z' {
        (c as u32 + 32) as char
    } else {
        c
    }
}

/// A text with its ASCII letters in lower case.
pub open spec fn ascii_lowercase(text: Seq<char>) -> Seq<char> {
    text.map_values(|c: char| ascii_lower(c))
}

/// One member of a JSON object, as far as it is looked at: the content of a
/// boolean or a string, and only the kind of anything else.
#[derive(Debug)]
pub enum Member {
    Null,
    Bool(bool),
    Number,
    Text(String),
    Array,
    Object,
}

/// What a `Member` stands for.
pub enum MemberView {
    Null,
    Bool(bool),
    Number,
    Text(Seq<char>),
    Array,
    Object,
}

impl View for Member {
    type V = MemberView;

    open spec fn view(&self) -> MemberView {
        match self {
            Member::Null => MemberView::Null,
            Member::Bool(value) => MemberView::Bool(*value),
            Member::Number => MemberView::Number,
            Member::Text(value) => MemberView::Text(value@),
            Member::Array => MemberView::Array,
            Member::Object => MemberView::Object,
        }
    }
}

/// A JSON document: an object with its named members, or anything else.
#[derive(Debug)]
pub enum Document {
    Object(Vec<(String, Member)>),
    Plain(Member),
}

/// What a `Document` stands for.
pub enum DocumentView {
    Object(Seq<(Seq<char>, MemberView)>),
    Plain(MemberView),
}

/// What a list of named members stands for.
pub open spec fn members_view(members: Seq<(String, Member)>) -> Seq<(Seq<char>, MemberView)> {
    members.map_values(|member: (String, Member)| (member.0@, member.1@))
}

impl View for Document {
    type V = DocumentView;

    open spec fn view(&self) -> DocumentView {
        match self {
            Document::Object(members) => DocumentView::Object(members_view(members@)),
            Document::Plain(member) => DocumentView::Plain(member@),
        }
    }
}

/// A string or a boolean in a JSON object that is to be written.
#[derive(Debug)]
pub enum Scalar {
    Text(String),
    Flag(bool),
}

/// What a `Scalar` stands for.
pub enum ScalarView {
    Text(Seq<char>),
    Flag(bool),
}

impl View for Scalar {
    type V = ScalarView;

    open spec fn view(&self) -> ScalarView {
        match self {
            Scalar::Text(value) => ScalarView::Text(value@),
            Scalar::Flag(value) => ScalarView::Flag(*value),
        }
    }
}

/// A field of a JSON object that is to be written: a scalar, or an object that
/// has scalars only.
#[derive(Debug)]
pub enum Field {
    Plain(Scalar),
    Group(Vec<(String, Scalar)>),
}

/// What a `Field` stands for.
pub enum FieldView {
    Plain(ScalarView),
    Group(Seq<(Seq<char>, ScalarView)>),
}

impl View for Field {
    type V = FieldView;

    open spec fn view(&self) -> FieldView {
        match self {
            Field::Plain(scalar) => FieldView::Plain(scalar@),
            Field::Group(scalars) => FieldView::Group(scalars_view(scalars@)),
        }
    }
}

/// What a list of named scalars stands for.
pub open spec fn scalars_view(scalars: Seq<(String, Scalar)>) -> Seq<(Seq<char>, ScalarView)> {
    scalars.map_values(|scalar: (String, Scalar)| (scalar.0@, scalar.1@))
}

/// What a list of named fields stands for.
pub open spec fn fields_view(fields: Seq<(String, Field)>) -> Seq<(Seq<char>, FieldView)> {
    fields.map_values(|field: (String, Field)| (field.0@, field.1@))
}

/// Calls `str::to_lowercase`. The result depends on the text alone. In a text
/// of ASCII characters the letters `A` to `Z` become `a` to `z` and the rest
/// stays; what becomes of other characters is Unicode's to say and is only
/// named here.
#[verifier::external_body]
pub(crate) fn lowercased(text: &str) -> (lower: String)
    ensures
        lower@ == lowercase(text@),
        is_ascii_chars(text@) ==> lower@ == ascii_lowercase(text@),
{
    text.to_lowercase()
}

/// Calls `String::from_utf8_lossy`. The result depends on the bytes alone.
/// Valid UTF-8 is decoded; how invalid bytes are replaced is only named here.
#[verifier::external_body]
pub(crate) fn decoded(bytes: &[u8]) -> (text: String)
    ensures
        text@ == utf8_lossy(bytes@),
        valid_utf8(bytes@) ==> text@ == decode_utf8(bytes@),
{
    String::from_utf8_lossy(bytes).into_owned()
}

/// Writes a `Duration` with `{:.2?}`, which is its `Debug` form with two places
/// after the point. The result depends on the two numbers alone.
/// `Duration::new` panics where the nanoseconds carry into seconds that do not
/// fit, which less than a second of nanoseconds rules out.
#[verifier::external_body]
pub(crate) fn duration(secs: u64, nanos: u32) -> (text: String)
    requires
        nanos < 1_000_000_000,
    ensures
        text@ == duration_text(secs, nanos),
{
    format!("{:.2?}", std::time::Duration::new(secs, nanos))
}

/// Calls `serde_json::from_str` for a `serde_json::Value` and hands out what it
/// returns: the document with the members of an object, or the text of the
/// error. The result depends on the text alone.
#[verifier::external_body]
pub(crate) fn parsed(text: &str) -> (document: Result<Document, String>)
    ensures
        (match document {
            Ok(document) => Ok(document@),
            Err(message) => Err(message@),
        }) == json_document(text@),
{
    let member = |value: Value| match value {
        Value::Null => Member::Null,
        Value::Bool(value) => Member::Bool(value),
        Value::Number(_) => Member::Number,
        Value::String(value) => Member::Text(value),
        Value::Array(_) => Member::Array,
        Value::Object(_) => Member::Object,
    };
    match serde_json::from_str::<Value>(text) {
        Ok(Value::Object(map)) => Ok(Document::Object(map.into_iter().map(|(name, value)| (name, member(value))).collect())),
        Ok(value) => Ok(Document::Plain(member(value))),
        Err(error) => Err(error.to_string()),
    }
}

/// Makes a `serde_json::Value` of the fields of an object and writes it with
/// `Value::to_string`. The result depends on the fields alone.
#[verifier::external_body]
pub(crate) fn written(fields: Vec<(String, Field)>) -> (text: String)
    ensures
        text@ == json_text(fields_view(fields@)),
{
    let plain = |scalar: Scalar| match scalar {
        Scalar::Text(value) => Value::String(value),
        Scalar::Flag(value) => Value::Bool(value),
    };
    let convert = |field: Field| match field {
        Field::Plain(scalar) => plain(scalar),
        Field::Group(scalars) => Value::Object(scalars.into_iter().map(|(name, scalar)| (name, plain(scalar))).collect()),
    };
    Value::Object(fields.into_iter().map(|(name, field)| (name, convert(field))).collect()).to_string()
}

/// Calls `StatusCode::from_u16` and shows the status with `to_string`. The result
/// depends on the number alone: it is the number in decimal, a space, and a
/// phrase that is only named here. `from_u16` refuses numbers below 100 and
/// above 999.
#[verifier::external_body]
pub(crate) fn status_line(status: u16) -> (line: String)
    requires
        100 <= status < 1000,
    ensures
        line@ == status_text(status),
        (decimal(status as nat) + " "@).is_prefix_of(line@),
{
    reqwest::StatusCode::from_u16(status).unwrap().to_string()
}

/// In ASCII the upper-case letters stand 32 places before the lower-case ones; only
/// they change, and each by that.
pub proof fn law_ascii_lower_moves_upper_case_only(c: char, text: Seq<char>)
    ensures
        'A' <= c <= 'Z' ==> ascii_lower(c) as int == c as int + 32,
        !('A' <= c <= 'Z') ==> ascii_lower(c) == c,
        ascii_lowercase(text).len() == text.len(),
        forall|i: int|
            0 <= i < text.len() ==> #[trigger] ascii_lowercase(text)[i] == ascii_lower(text[i]),
{
}

/// A document and the fields of an object stand for what they hold, member by
/// member and in their order.
pub proof fn law_json_values_stand_for_what_they_hold(
    document: Document,
    member: Member,
    fields: Seq<(String, Field)>,
    scalars: Seq<(String, Scalar)>,
)
    ensures
        document matches Document::Object(members) ==> (document@ matches DocumentView::Object(seen)
            && seen.len() == members@.len() && forall|i: int|
            0 <= i < members@.len() ==> (#[trigger] seen[i]).0 == members@[i].0@ && seen[i].1
                == members@[i].1@),
        document matches Document::Plain(value) ==> document@ == DocumentView::Plain(value@),
        member matches Member::Bool(value) ==> member@ == MemberView::Bool(value),
        member matches Member::Text(value) ==> member@ == MemberView::Text(value@),
        !(member is Bool) ==> !(member@ is Bool),
        !(member is Text) ==> !(member@ is Text),
        fields_view(fields).len() == fields.len(),
        forall|i: int|
            0 <= i < fields.len() ==> (#[trigger] fields_view(fields)[i]).0 == fields[i].0@
                && match fields[i].1 {
                Field::Plain(Scalar::Text(value)) => fields_view(fields)[i].1 == FieldView::Plain(
                    ScalarView::Text(value@),
                ),
                Field::Plain(Scalar::Flag(value)) => fields_view(fields)[i].1 == FieldView::Plain(
                    ScalarView::Flag(value),
                ),
                Field::Group(group) => fields_view(fields)[i].1 == FieldView::Group(
                    scalars_view(group@),
                ),
            },
        scalars_view(scalars).len() == scalars.len(),
        forall|i: int|
            0 <= i < scalars.len() ==> (#[trigger] scalars_view(scalars)[i]).0 == scalars[i].0@
                && match scalars[i].1 {
                Scalar::Text(value) => scalars_view(scalars)[i].1 == ScalarView::Text(value@),
                Scalar::Flag(value) => scalars_view(scalars)[i].1 == ScalarView::Flag(value),
            },
{
}

} // verus!
