//! Talking to a text-generation service: where to send a prompt, and what
//! to read from the reply.

use vstd::prelude::*;
use vstd::std_specs::iter::IteratorSpec;
use vstd::string::{StrSliceExecFns, StringExecFns};

verus! {

/// A JSON value. A number is kept as the text that spells it.
#[derive(Debug, PartialEq, Eq)]
pub enum Json {
    Null,
    Bool(bool),
    Number(String),
    Text(String),
    Array(Vec<Json>),
    Object(Vec<(String, Json)>),
}

/// The value kept under `key` among the entries of an object: that of the
/// first entry with this key.
pub open spec fn member_of(entries: Seq<(String, Json)>, key: Seq<char>) -> Option<Json>
    decreases entries.len(),
{
    if entries.len() == 0 {
        None
    } else if entries[0].0@ == key {
        Some(entries[0].1)
    } else {
        member_of(entries.drop_first(), key)
    }
}

/// A borrowed value as a value.
pub open spec fn lent(value: Option<&Json>) -> Option<Json> {
    match value {
        Some(json) => Some(*json),
        None => None,
    }
}

impl Json {
    /// The value kept under `key`, where this is an object that has one.
    pub open spec fn member(self, key: Seq<char>) -> Option<Json> {
        match self {
            Json::Object(entries) => member_of(entries@, key),
            _ => None,
        }
    }

    /// The items, where this is an array.
    pub open spec fn items(self) -> Option<Seq<Json>> {
        match self {
            Json::Array(items) => Some(items@),
            _ => None,
        }
    }

    /// The text, where this is a string.
    pub open spec fn text(self) -> Option<Seq<char>> {
        match self {
            Json::Text(text) => Some(text@),
            _ => None,
        }
    }

    /// Looks up `key`, where this is an object.
    pub fn get(&self, key: &str) -> (found: Option<&Json>)
        ensures
            lent(found) == self.member(key@),
    {
        match self {
            Json::Object(entries) => {
                let wanted = key.to_string();
                let mut i: usize = 0;
                assert(entries@.skip(0) == entries@);
                while i < entries.len()
                    invariant
                        i <= entries@.len(),
                        wanted@ == key@,
                        self.member(key@) == member_of(entries@, key@),
                        member_of(entries@, key@) == member_of(entries@.skip(i as int), key@),
                    decreases entries.len() - i,
                {
                    let ghost rest = entries@.skip(i as int);
                    assert(rest[0] == entries@[i as int]);
                    assert(rest.drop_first() == entries@.skip(i + 1));
                    if entries[i].0 == wanted {
                        return Some(&entries[i].1);
                    }
                    i = i + 1;
                }
                None
            },
            _ => None,
        }
    }

    /// The items, where this is an array.
    pub fn as_array(&self) -> (items: Option<&Vec<Json>>)
        ensures
            (match items {
                Some(list) => Some(list@),
                None => None,
            }) == self.items(),
    {
        match self {
            Json::Array(items) => Some(items),
            _ => None,
        }
    }

    /// The text, where this is a string.
    pub fn as_str(&self) -> (text: Option<&str>)
        ensures
            (match text {
                Some(t) => Some(t@),
                None => None,
            }) == self.text(),
    {
        match self {
            Json::Text(text) => Some(text.as_str()),
            _ => None,
        }
    }
}

/// The `content` of the first candidate of a reply, where the reply has
/// candidates, the first is an object and it has a content.
pub open spec fn first_content(reply: Json) -> Option<Json> {
    match reply.member("candidates"@) {
        Some(Json::Array(candidates)) => if candidates@.len() > 0 {
            match candidates@[0] {
                Json::Object(entries) => member_of(entries@, "content"@),
                _ => None,
            }
        } else {
            None
        },
        _ => None,
    }
}

/// The text that a part carries, where it carries one.
pub open spec fn part_text(part: Json) -> Option<Seq<char>> {
    match part.member("text"@) {
        Some(Json::Text(text)) => Some(text@),
        _ => None,
    }
}

/// The texts of the parts, one after the other; a part without a text adds
/// nothing.
pub open spec fn joined_texts(parts: Seq<Json>) -> Seq<char>
    decreases parts.len(),
{
    if parts.len() == 0 {
        Seq::empty()
    } else {
        joined_texts(parts.drop_last()) + (match part_text(parts.last()) {
            Some(text) => text,
            None => Seq::empty(),
        })
    }
}

/// The words that report a reply without a first candidate's content.
pub open spec fn no_content_text(rendered: Seq<char>) -> Seq<char> {
    "`candidates` 配列の最初の要素、またはその中の `content` フィールドが見つかりませんでした。  "@
        + rendered
}

/// The words that report a content without a list of parts.
pub open spec fn no_parts_text() -> Seq<char> {
    "`content.parts` が配列でないか、見つかりませんでした。"@
}

/// What is read from a reply: the joined texts of the parts of the first
/// candidate's content, or the words that say what was missing. `rendered`
/// is the reply as text, for those words.
pub open spec fn reply_text(reply: Json, rendered: Seq<char>) -> Result<Seq<char>, Seq<char>> {
    match first_content(reply) {
        Some(content) => match content.member("parts"@) {
            Some(Json::Array(parts)) => Ok(joined_texts(parts@)),
            _ => Err(no_parts_text()),
        },
        None => Err(no_content_text(rendered)),
    }
}

/// A fallible text as plain values.
pub open spec fn outcome_view(outcome: Result<String, String>) -> Result<Seq<char>, Seq<char>> {
    match outcome {
        Ok(text) => Ok(text@),
        Err(text) => Err(text@),
    }
}

/// The content of the first candidate of a reply.
fn content_of(reply: &Json) -> (content: Option<&Json>)
    ensures
        lent(content) == first_content(*reply),
{
    match reply.get("candidates") {
        Some(candidates) => match candidates.as_array() {
            Some(list) => {
                if list.len() > 0 {
                    match &list[0] {
                        Json::Object(_) => list[0].get("content"),
                        _ => None,
                    }
                } else {
                    None
                }
            },
            None => None,
        },
        None => None,
    }
}

/// Joins the texts of the parts.
fn join_texts(parts: &Vec<Json>) -> (joined: String)
    ensures
        joined@ == joined_texts(parts@),
{
    let mut joined = String::new();
    let mut i: usize = 0;
    while i < parts.len()
        invariant
            i <= parts@.len(),
            joined@ == joined_texts(parts@.take(i as int)),
        decreases parts.len() - i,
    {
        proof {
            let next = parts@.take(i + 1);
            assert(next.drop_last() == parts@.take(i as int));
            assert(next.last() == parts@[i as int]);
        }
        match parts[i].get("text") {
            Some(value) => match value.as_str() {
                Some(text) => {
                    joined.append(text);
                },
                None => {},
            },
            None => {},
        }
        i = i + 1;
    }
    proof {
        assert(parts@.take(parts@.len() as int) == parts@);
    }
    joined
}

/// Reads the generated text from a reply. `rendered` is the reply as text.
pub fn read_reply(reply: &Json, rendered: &str) -> (text: Result<String, String>)
    ensures
        outcome_view(text) == reply_text(*reply, rendered@),
{
    match content_of(reply) {
        Some(content) => match content.get("parts") {
            Some(parts) => match parts.as_array() {
                Some(list) => Ok(join_texts(list)),
                None => Err("`content.parts` が配列でないか、見つかりませんでした。".to_string()),
            },
            None => Err("`content.parts` が配列でないか、見つかりませんでした。".to_string()),
        },
        None => {
            let mut words =
                "`candidates` 配列の最初の要素、またはその中の `content` フィールドが見つかりませんでした。  ".to_string();
            words.append(rendered);
            Err(words)
        },
    }
}

/// What came back from the service: the reply and its text, or the words of
/// the failure to send the prompt or to parse the reply.
pub open spec fn exchange_text(exchange: Result<(Json, String), String>) -> Result<
    Seq<char>,
    Seq<char>,
> {
    match exchange {
        Ok((reply, rendered)) => reply_text(reply, rendered@),
        Err(words) => Err(words@),
    }
}

/// The generated text of an exchange with the service. A failed exchange is
/// reported in its own words.
pub fn inner_request(exchange: Result<(Json, String), String>) -> (text: Result<String, String>)
    ensures
        outcome_view(text) == exchange_text(exchange),
{
    match exchange {
        Ok((reply, rendered)) => read_reply(&reply, rendered.as_str()),
        Err(words) => Err(words),
    }
}

/// What the environment says about the service.
#[derive(Clone, Debug, PartialEq, Eq)]
pub struct Settings {
    /// The model to use; empty where none is set.
    pub model: String,
    /// A comma-separated list of models; its first is used where `model` is
    /// empty.
    pub models: String,
    /// The API token; empty where none is set.
    pub token: String,
    /// The token to use where `token` is empty.
    pub fallback_token: String,
}

/// Where a prompt is sent.
#[derive(Clone, Debug, PartialEq, Eq)]
pub struct Target {
    pub model: String,
    pub url: String,
}

/// What a request comes to: the model that was asked and its text.
#[derive(Clone, Debug, PartialEq, Eq)]
pub struct Generated {
    pub model: String,
    pub result: String,
}

/// The part of `list` before its first comma; all of it where it has none.
pub open spec fn first_listed(list: Seq<char>) -> Seq<char>
    decreases list.len(),
{
    if list.len() == 0 || list[0] == ',' {
        Seq::empty()
    } else {
        seq![list[0]] + first_listed(list.drop_first())
    }
}

/// The model that the settings select: the one set, else the first listed.
pub open spec fn selected_model(model: Seq<char>, models: Seq<char>) -> Seq<char> {
    if model.len() == 0 {
        first_listed(models)
    } else {
        model
    }
}

/// The token that the settings select: the one set, else the fallback.
pub open spec fn selected_token(token: Seq<char>, fallback: Seq<char>) -> Seq<char> {
    if token.len() == 0 {
        fallback
    } else {
        token
    }
}

/// The address that generates content with `model` for the holder of
/// `token`.
pub open spec fn endpoint(model: Seq<char>, token: Seq<char>) -> Seq<char> {
    "https://generativelanguage.googleapis.com/v1beta/models/"@ + model + ":generateContent?key="@
        + token
}

/// The words that report missing settings.
pub open spec fn unset_text() -> Seq<char> {
    "GEMINI_MODEL or GEMINI_API_TOKEN is empty"@
}

/// The first model of a comma-separated list.
pub fn first_of(list: &str) -> (first: String)
    ensures
        first@ == first_listed(list@),
{
    broadcast use vstd::string::group_string_axioms;

    let total = list.unicode_len();
    let mut end: usize = 0;
    let mut scanning = true;
    for c in it: list.chars()
        invariant
            it.seq() == list@,
            total == list@.len(),
            end <= it.index(),
            scanning ==> end == it.index(),
            scanning ==> forall|k: int| 0 <= k < end ==> list@[k] != ',',
            !scanning ==> end < list@.len() && list@[end as int] == ',' && forall|k: int|
                0 <= k < end ==> list@[k] != ',',
    {
        if scanning {
            if c == ',' {
                scanning = false;
            } else {
                end = end + 1;
            }
        }
    }
    proof {
        lemma_first_listed(list@, end as int);
    }
    list.substring_char(0, end).to_string()
}

/// The first listed item ends where the first comma stands, or with the
/// list.
proof fn lemma_first_listed(list: Seq<char>, end: int)
    requires
        0 <= end <= list.len(),
        forall|k: int| 0 <= k < end ==> list[k] != ',',
        end < list.len() ==> list[end] == ',',
    ensures
        first_listed(list) == list.subrange(0, end),
    decreases list.len(),
{
    if list.len() == 0 || list[0] == ',' {
        assert(list.subrange(0, end) =~= Seq::<char>::empty());
    } else {
        let rest = list.drop_first();
        assert forall|k: int| 0 <= k < end - 1 implies rest[k] != ',' by {
            assert(rest[k] == list[k + 1]);
        }
        lemma_first_listed(rest, end - 1);
        assert(list.subrange(0, end) =~= seq![list[0]] + rest.subrange(0, end - 1));
    }
}

/// Decides where a prompt is sent. Without a model or without a token
/// nothing is sent.
pub fn request(settings: &Settings) -> (target: Result<Target, String>)
    ensures
        ({
            let model = selected_model(settings.model@, settings.models@);
            let token = selected_token(settings.token@, settings.fallback_token@);
            if model.len() == 0 || token.len() == 0 {
                target matches Err(words) && words@ == unset_text()
            } else {
                target matches Ok(to) && to.model@ == model && to.url@ == endpoint(model, token)
            }
        }),
{
    let model = if settings.model.as_str().unicode_len() == 0 {
        first_of(settings.models.as_str())
    } else {
        settings.model.clone()
    };
    let token = if settings.token.as_str().unicode_len() == 0 {
        settings.fallback_token.clone()
    } else {
        settings.token.clone()
    };
    if model.as_str().unicode_len() == 0 || token.as_str().unicode_len() == 0 {
        return Err("GEMINI_MODEL or GEMINI_API_TOKEN is empty".to_string());
    }
    let mut url = "https://generativelanguage.googleapis.com/v1beta/models/".to_string();
    url.append(model.as_str());
    url.append(":generateContent?key=");
    url.append(token.as_str());
    Ok(Target { model, url })
}

/// What a request comes to, given the model that was asked and the text
/// that was read from its reply.
pub fn generated(model: String, text: Result<String, String>) -> (outcome: Result<Generated, String>)
    ensures
        match text {
            Ok(result) => outcome matches Ok(made) && made.model == model && made.result == result,
            Err(words) => outcome matches Err(said) && said == words,
        },
{
    match text {
        Ok(result) => Ok(Generated { model, result }),
        Err(words) => Err(words),
    }
}

} // verus!
