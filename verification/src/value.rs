//! Primitive values crossing the host/sandbox boundary.
//!
//! Host and sandbox share no memory: every value is copied across the
//! boundary as a string, a list, or a record composed of strings.  This
//! module builds the argument list of a chat invocation and reads messages
//! back out of a result list, with the shapes pinned down exactly.

use vstd::prelude::*;
use crate::chat::ChatMessage;
use crate::text::str_eq;

verus! {

broadcast use vstd::string::group_string_axioms;

/// A named field of a record value.
#[derive(Debug, Clone)]
pub struct Field {
    pub name: String,
    pub text: String,
}

/// A primitive boundary value.
#[derive(Debug)]
pub enum Value {
    /// A string.
    Str(String),
    /// A record whose fields are strings.
    Record(Vec<Field>),
    /// An ordered list of values.
    List(Vec<Value>),
    /// The placeholder a result slot holds until the call fills it.
    Absent,
}

/// The text of the first field named `key`, in declaration order.
pub open spec fn spec_field_text(fields: Seq<Field>, key: Seq<char>) -> Option<Seq<char>>
    decreases fields.len(),
{
    if fields.len() == 0 {
        None
    } else if fields[0].name@ == key {
        Some(fields[0].text@)
    } else {
        spec_field_text(fields.drop_first(), key)
    }
}

/// The message a record value carries: the texts of its `role` and
/// `content` fields, when both are present.
pub open spec fn spec_message_of(v: Value) -> Option<(Seq<char>, Seq<char>)> {
    match v {
        Value::Record(fields) => match (
            spec_field_text(fields@, "role"@),
            spec_field_text(fields@, "content"@),
        ) {
            (Some(role), Some(content)) => Some((role, content)),
            _ => None,
        },
        _ => None,
    }
}

proof fn lemma_field_text_found(fields: Seq<Field>, key: Seq<char>, i: int)
    requires
        0 <= i < fields.len(),
        fields[i].name@ == key,
        forall|j: int| 0 <= j < i ==> (#[trigger] fields[j]).name@ != key,
    ensures
        spec_field_text(fields, key) == Some(fields[i].text@),
    decreases i,
{
    if i > 0 {
        let rest = fields.drop_first();
        assert(forall|j: int| 0 <= j < rest.len() ==> rest[j] == fields[j + 1]);
        lemma_field_text_found(rest, key, i - 1);
    }
}

proof fn lemma_field_text_none(fields: Seq<Field>, key: Seq<char>)
    requires
        forall|j: int| 0 <= j < fields.len() ==> (#[trigger] fields[j]).name@ != key,
    ensures
        spec_field_text(fields, key) is None,
    decreases fields.len(),
{
    if fields.len() > 0 {
        let rest = fields.drop_first();
        assert(forall|j: int| 0 <= j < rest.len() ==> rest[j] == fields[j + 1]);
        lemma_field_text_none(rest, key);
    }
}

/// Finds the first field named `key` and hands its text out.
pub fn field_text(fields: &Vec<Field>, key: &str) -> (r: Option<String>)
    ensures
        match r {
            Some(t) => spec_field_text(fields@, key@) == Some(t@),
            None => spec_field_text(fields@, key@) is None,
        },
{
    let mut i: usize = 0;
    while i < fields.len()
        invariant
            i <= fields@.len(),
            forall|j: int| 0 <= j < i ==> (#[trigger] fields@[j]).name@ != key@,
        decreases fields@.len() - i,
    {
        if str_eq(fields[i].name.as_str(), key) {
            proof {
                lemma_field_text_found(fields@, key@, i as int);
            }
            return Some(fields[i].text.clone());
        }
        i = i + 1;
    }
    proof {
        lemma_field_text_none(fields@, key@);
    }
    None
}

/// Reads a message out of one boundary value: a record with `role` and
/// `content` fields, anything else carries no message.
pub fn record_message(v: &Value) -> (r: Option<ChatMessage>)
    ensures
        match r {
            Some(m) => spec_message_of(*v) == Some((m.role@, m.content@)),
            None => spec_message_of(*v) is None,
        },
{
    match v {
        Value::Record(fields) => {
            let role = field_text(fields, "role");
            let content = field_text(fields, "content");
            match (role, content) {
                (Some(role), Some(content)) => Some(ChatMessage { role, content }),
                _ => None,
            }
        },
        _ => None,
    }
}

/// Marshals a message into the record the sandbox expects; reading the
/// record back yields the message unchanged (the round trip holds by
/// [`spec_message_of`]).
pub fn message_record(m: &ChatMessage) -> (r: Value)
    ensures
        spec_message_of(r) == Some((m.role@, m.content@)),
{
    let mut fields: Vec<Field> = Vec::new();
    fields.push(Field { name: "role".to_owned(), text: m.role.clone() });
    fields.push(Field { name: "content".to_owned(), text: m.content.clone() });
    proof {
        reveal_strlit("role");
        reveal_strlit("content");
        assert("role"@.len() != "content"@.len());
        let fs = fields@;
        assert(fs.drop_first()[0] == fs[1]);
        assert(spec_field_text(fs, "role"@) == Some(m.role@));
        assert(spec_field_text(fs.drop_first(), "content"@) == Some(m.content@));
        assert(spec_field_text(fs, "content"@) == Some(m.content@));
    }
    Value::Record(fields)
}

/// Marshals a conversation into the list the sandbox expects, one record per
/// message, in order.
pub fn messages_value(messages: &Vec<ChatMessage>) -> (r: Value)
    ensures
        r matches Value::List(vs) && vs@.len() == messages@.len() && forall|i: int|
            0 <= i < messages@.len() ==> spec_message_of(#[trigger] vs@[i]) == Some(
                (messages@[i].role@, messages@[i].content@),
            ),
{
    let mut list: Vec<Value> = Vec::new();
    let mut i: usize = 0;
    while i < messages.len()
        invariant
            i <= messages@.len(),
            list@.len() == i,
            forall|j: int|
                0 <= j < i ==> spec_message_of(#[trigger] list@[j]) == Some(
                    (messages@[j].role@, messages@[j].content@),
                ),
        decreases messages@.len() - i,
    {
        let record = message_record(&messages[i]);
        list.push(record);
        i = i + 1;
    }
    Value::List(list)
}

/// Builds the argument list of a chat invocation: provider, model,
/// credential, then the conversation.
pub fn chat_params(provider: &str, model: &str, api_key: &str, messages: &Vec<ChatMessage>) -> (r:
    Vec<Value>)
    ensures
        r@.len() == 4,
        (r@[0] matches Value::Str(s) && s@ == provider@),
        (r@[1] matches Value::Str(s) && s@ == model@),
        (r@[2] matches Value::Str(s) && s@ == api_key@),
        (r@[3] matches Value::List(vs) && vs@.len() == messages@.len() && forall|i: int|
            0 <= i < messages@.len() ==> spec_message_of(#[trigger] vs@[i]) == Some(
                (messages@[i].role@, messages@[i].content@),
            )),
{
    let mut params: Vec<Value> = Vec::new();
    params.push(Value::Str(provider.to_owned()));
    params.push(Value::Str(model.to_owned()));
    params.push(Value::Str(api_key.to_owned()));
    params.push(messages_value(messages));
    params
}

/// The first message carried by a result list, in order.
pub open spec fn spec_first_message(results: Seq<Value>) -> Option<(Seq<char>, Seq<char>)>
    decreases results.len(),
{
    if results.len() == 0 {
        None
    } else {
        match spec_message_of(results[0]) {
            Some(m) => Some(m),
            None => spec_first_message(results.drop_first()),
        }
    }
}

proof fn lemma_first_message_found(results: Seq<Value>, i: int)
    requires
        0 <= i < results.len(),
        spec_message_of(results[i]) is Some,
        forall|j: int| 0 <= j < i ==> spec_message_of(#[trigger] results[j]) is None,
    ensures
        spec_first_message(results) == spec_message_of(results[i]),
    decreases i,
{
    if i > 0 {
        let rest = results.drop_first();
        assert(forall|j: int| 0 <= j < rest.len() ==> rest[j] == results[j + 1]);
        lemma_first_message_found(rest, i - 1);
    }
}

proof fn lemma_first_message_none(results: Seq<Value>)
    requires
        forall|j: int| 0 <= j < results.len() ==> spec_message_of(#[trigger] results[j]) is None,
    ensures
        spec_first_message(results) is None,
    decreases results.len(),
{
    if results.len() > 0 {
        let rest = results.drop_first();
        assert(forall|j: int| 0 <= j < rest.len() ==> rest[j] == results[j + 1]);
        lemma_first_message_none(rest);
    }
}

/// Reads the first message out of a call's result list.
pub fn first_message(results: &Vec<Value>) -> (r: Option<ChatMessage>)
    ensures
        match r {
            Some(m) => spec_first_message(results@) == Some((m.role@, m.content@)),
            None => spec_first_message(results@) is None,
        },
{
    let mut i: usize = 0;
    while i < results.len()
        invariant
            i <= results@.len(),
            forall|j: int| 0 <= j < i ==> spec_message_of(#[trigger] results@[j]) is None,
        decreases results@.len() - i,
    {
        match record_message(&results[i]) {
            Some(m) => {
                proof {
                    lemma_first_message_found(results@, i as int);
                }
                return Some(m);
            },
            None => {},
        }
        i = i + 1;
    }
    proof {
        lemma_first_message_none(results@);
    }
    None
}

/// Pre-allocates a call's result list: one absent placeholder per declared
/// result, so no shorter or uninitialized list can escape an early failure.
pub fn prepare_results(arity: usize) -> (r: Vec<Value>)
    ensures
        r@.len() == arity,
        forall|i: int| 0 <= i < arity ==> r@[i] is Absent,
{
    let mut slots: Vec<Value> = Vec::new();
    let mut i: usize = 0;
    while i < arity
        invariant
            i <= arity,
            slots@.len() == i,
            forall|j: int| 0 <= j < i ==> slots@[j] is Absent,
        decreases arity - i,
    {
        slots.push(Value::Absent);
        i = i + 1;
    }
    slots
}

} // verus!
