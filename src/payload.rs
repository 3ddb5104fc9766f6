//! Outbound JSON payloads: the reply that is sent back, and the arguments of a fetch.
use vstd::prelude::*;

use crate::json::{
    int_value, json_array, json_i64, json_object, json_str, list_value, object_entries, object_value,
    text_value,
};

verus! {

/// A reply to send: its text, the chat it goes to, and the message it answers, if any.
#[derive(Debug)]
pub struct Response {
    pub text: String,
    pub chat_id: i64,
    pub reply_to_message_id: Option<i64>,
}

/// The value of one member of an outbound payload.
pub enum FieldValue {
    Int(i64),
    Text(String),
    EmptyList,
}

/// One member of an outbound payload: a key and its value.
pub struct Field {
    pub key: String,
    pub value: FieldValue,
}

/// The value of a member, as a mathematical value.
pub enum FieldModel {
    Int(int),
    Text(Seq<char>),
    EmptyList,
}

impl View for FieldValue {
    type V = FieldModel;

    open spec fn view(&self) -> FieldModel {
        match self {
            FieldValue::Int(n) => FieldModel::Int(*n as int),
            FieldValue::Text(s) => FieldModel::Text(s@),
            FieldValue::EmptyList => FieldModel::EmptyList,
        }
    }
}

impl View for Field {
    type V = (Seq<char>, FieldModel);

    open spec fn view(&self) -> (Seq<char>, FieldModel) {
        (self.key@, self.value@)
    }
}

/// The members of a payload, in order, as keys and values.
pub open spec fn fields_model(fields: Seq<Field>) -> Seq<(Seq<char>, FieldModel)> {
    fields.map_values(|f: Field| f@)
}

/// The keys of a sequence of members.
pub open spec fn model_keys(fields: Seq<(Seq<char>, FieldModel)>) -> Set<Seq<char>> {
    Set::new(|k: Seq<char>| exists|i: int| 0 <= i < fields.len() && fields[i].0 == k)
}

/// The members that a reply is sent with: `chat_id` and `text`, then
/// `reply_to_message_id` only where the reply answers a message.
pub open spec fn response_fields(chat_id: int, text: Seq<char>, reply_to: Option<i64>) -> Seq<
    (Seq<char>, FieldModel),
> {
    let base = seq![("chat_id"@, FieldModel::Int(chat_id)), ("text"@, FieldModel::Text(text))];
    match reply_to {
        Some(n) => base.push(("reply_to_message_id"@, FieldModel::Int(n as int))),
        None => base,
    }
}

/// The members of the fetch request: a long-poll timeout of 120 seconds, the
/// first update identifier wanted, and an empty list of update kinds.
pub open spec fn fetch_fields(offset: int) -> Seq<(Seq<char>, FieldModel)> {
    seq![
        ("timeout"@, FieldModel::Int(120)),
        ("offset"@, FieldModel::Int(offset)),
        ("allowed_updates"@, FieldModel::EmptyList),
    ]
}

/// A JSON value stands for a member's value: it reads back as the same integer,
/// the same string, or an empty list.
pub open spec fn holds(j: serde_json::Value, m: FieldModel) -> bool {
    match m {
        FieldModel::Int(n) => json_i64(j) matches Some(x) && x as int == n,
        FieldModel::Text(t) => json_str(j) == Some(t),
        FieldModel::EmptyList => json_array(j) == Some(Seq::<serde_json::Value>::empty()),
    }
}

/// The members of a JSON object stand for a sequence of members: the same keys,
/// and under each key the value that the sequence last gives it.
pub open spec fn represents(
    members: Map<Seq<char>, serde_json::Value>,
    fields: Seq<(Seq<char>, FieldModel)>,
) -> bool {
    &&& members.dom() == model_keys(fields)
    &&& forall|k: Seq<char>|
        #[trigger] members.contains_key(k) ==> (lookup(fields, k) matches Some(fm) && holds(
            members[k],
            fm,
        ))
}

/// Whether a sequence of members holds `key`, and with which value.
pub open spec fn lookup(fields: Seq<(Seq<char>, FieldModel)>, key: Seq<char>) -> Option<FieldModel>
    decreases fields.len(),
{
    if fields.len() == 0 {
        None
    } else if fields.last().0 == key {
        Some(fields.last().1)
    } else {
        lookup(fields.drop_last(), key)
    }
}

/// A reply's payload holds `reply_to_message_id` exactly where the reply answers
/// a message, and then with that message's identifier; its other members are
/// `chat_id` and `text`, with the reply's values.
pub proof fn lemma_reply_target_member(chat_id: int, text: Seq<char>, reply_to: Option<i64>)
    ensures
        lookup(response_fields(chat_id, text, reply_to), "reply_to_message_id"@) == match reply_to {
            Some(n) => Some(FieldModel::Int(n as int)),
            None => None::<FieldModel>,
        },
        lookup(response_fields(chat_id, text, reply_to), "chat_id"@) == Some(FieldModel::Int(chat_id)),
        lookup(response_fields(chat_id, text, reply_to), "text"@) == Some(FieldModel::Text(text)),
        model_keys(response_fields(chat_id, text, reply_to)) == match reply_to {
            Some(_) => set!["chat_id"@, "text"@, "reply_to_message_id"@],
            None => set!["chat_id"@, "text"@],
        },
{
    reveal_strlit("reply_to_message_id");
    reveal_strlit("chat_id");
    reveal_strlit("text");
    let fields = response_fields(chat_id, text, reply_to);
    let base = seq![("chat_id"@, FieldModel::Int(chat_id)), ("text"@, FieldModel::Text(text))];
    assert("chat_id"@ != "reply_to_message_id"@ && "text"@ != "reply_to_message_id"@) by {
        assert("chat_id"@.len() != "reply_to_message_id"@.len());
        assert("text"@.len() != "reply_to_message_id"@.len());
    }
    assert("chat_id"@ != "text"@) by {
        assert("chat_id"@.len() != "text"@.len());
    }
    assert(base.drop_last() =~= seq![("chat_id"@, FieldModel::Int(chat_id))]);
    assert(base.drop_last().drop_last() =~= Seq::<(Seq<char>, FieldModel)>::empty());
    let one = base.drop_last();
    assert(lookup(one.drop_last(), "reply_to_message_id"@) == None::<FieldModel>);
    assert(lookup(one, "reply_to_message_id"@) == None::<FieldModel>);
    assert(lookup(base, "reply_to_message_id"@) == None::<FieldModel>);
    assert(lookup(one, "chat_id"@) == Some(FieldModel::Int(chat_id)));
    assert(lookup(base, "chat_id"@) == Some(FieldModel::Int(chat_id)));
    assert(lookup(base, "text"@) == Some(FieldModel::Text(text)));
    if reply_to is Some {
        assert(fields.drop_last() =~= base);
        let want = set!["chat_id"@, "text"@, "reply_to_message_id"@];
        assert(model_keys(fields) =~= want) by {
            assert(fields[0].0 == "chat_id"@ && fields[1].0 == "text"@);
            assert(fields[2].0 == "reply_to_message_id"@);
        }
    } else {
        let want = set!["chat_id"@, "text"@];
        assert(model_keys(fields) =~= want) by {
            assert(fields[0].0 == "chat_id"@ && fields[1].0 == "text"@);
        }
    }
}

fn key(s: &str) -> (r: String)
    ensures
        r@ == s@,
{
    String::from_str(s)
}

impl Response {
    /// The members of the payload that sends this reply.
    pub fn fields(&self) -> (r: Vec<Field>)
        ensures
            fields_model(r@) == response_fields(
                self.chat_id as int,
                self.text@,
                self.reply_to_message_id,
            ),
    {
        let mut r: Vec<Field> = Vec::new();
        r.push(Field { key: key("chat_id"), value: FieldValue::Int(self.chat_id) });
        r.push(Field { key: key("text"), value: FieldValue::Text(self.text.clone()) });
        match self.reply_to_message_id {
            Some(n) => {
                r.push(Field { key: key("reply_to_message_id"), value: FieldValue::Int(n) });
            },
            None => {},
        }
        assert(fields_model(r@) =~= response_fields(
            self.chat_id as int,
            self.text@,
            self.reply_to_message_id,
        ));
        r
    }

    /// The JSON object that sends this reply, with exactly its members.
    pub fn json_object(&self) -> (r: serde_json::Map<String, serde_json::Value>)
        ensures
            represents(
                object_entries(r),
                response_fields(self.chat_id as int, self.text@, self.reply_to_message_id),
            ),
    {
        object_of(&self.fields())
    }
}

/// The members of the fetch request that asks for updates from `offset` on.
pub fn fetch_request_fields(offset: i64) -> (r: Vec<Field>)
    ensures
        fields_model(r@) == fetch_fields(offset as int),
{
    let mut r: Vec<Field> = Vec::new();
    r.push(Field { key: key("timeout"), value: FieldValue::Int(120) });
    r.push(Field { key: key("offset"), value: FieldValue::Int(offset) });
    r.push(Field { key: key("allowed_updates"), value: FieldValue::EmptyList });
    assert(fields_model(r@) =~= fetch_fields(offset as int));
    r
}

fn field_json(v: &FieldValue) -> (r: serde_json::Value)
    ensures
        holds(r, v@),
{
    match v {
        FieldValue::Int(n) => int_value(*n),
        FieldValue::Text(s) => text_value(s.clone()),
        FieldValue::EmptyList => list_value(Vec::new()),
    }
}

/// A JSON object with the given members: exactly their keys, and under each
/// key the value that the members last give it.
pub fn object_of(fields: &Vec<Field>) -> (r: serde_json::Map<String, serde_json::Value>)
    ensures
        represents(object_entries(r), fields_model(fields@)),
{
    let mut m = serde_json::Map::new();
    assert(model_keys(fields_model(fields@).take(0)) =~= Set::<Seq<char>>::empty());
    let mut i: usize = 0;
    while i < fields.len()
        invariant
            i <= fields@.len(),
            represents(object_entries(m), fields_model(fields@).take(i as int)),
        decreases fields@.len() - i,
    {
        let ghost prior = object_entries(m);
        let j = field_json(&fields[i].value);
        m.insert(fields[i].key.clone(), j);
        let ghost all = fields_model(fields@);
        assert(all.take(i as int + 1).drop_last() =~= all.take(i as int));
        assert(all.take(i as int + 1).last() == all[i as int]);
        assert(model_keys(all.take(i as int + 1)) =~= model_keys(all.take(i as int)).insert(
            fields@[i as int].key@,
        )) by {
            assert(all.take(i as int + 1)[i as int] == all[i as int]);
            assert forall|j: int| 0 <= j < i implies all.take(i as int + 1)[j] == all.take(
                i as int,
            )[j] by {}
        }
        i = i + 1;
    }
    assert(fields_model(fields@).take(i as int) =~= fields_model(fields@));
    m
}

/// The JSON object with the given members.
pub fn payload_json(fields: &Vec<Field>) -> (r: serde_json::Value)
    ensures
        json_object(r) matches Some(ms) && represents(ms, fields_model(fields@)),
{
    object_value(object_of(fields))
}

/// The JSON payload that sends `resp`, as the remote service expects it: an
/// object with `chat_id` and `text`, and with `reply_to_message_id` exactly
/// where the reply answers a message.
pub fn resp_json(resp: &Response) -> (r: serde_json::Value)
    ensures
        json_object(r) matches Some(ms) && {
            &&& represents(
                ms,
                response_fields(resp.chat_id as int, resp.text@, resp.reply_to_message_id),
            )
            &&& ms.dom() == match resp.reply_to_message_id {
                Some(_) => set!["chat_id"@, "text"@, "reply_to_message_id"@],
                None => set!["chat_id"@, "text"@],
            }
            &&& json_i64(ms["chat_id"@]) == Some(resp.chat_id)
            &&& json_str(ms["text"@]) == Some(resp.text@)
            &&& resp.reply_to_message_id matches Some(n) ==> json_i64(ms["reply_to_message_id"@])
                == Some(n)
        },
{
    let r = object_value(resp.json_object());
    proof {
        lemma_reply_target_member(resp.chat_id as int, resp.text@, resp.reply_to_message_id);
        reveal_strlit("chat_id");
        reveal_strlit("text");
        reveal_strlit("reply_to_message_id");
        let ms = json_object(r)->Some_0;
        assert(ms.contains_key("chat_id"@));
        assert(ms.contains_key("text"@));
        if resp.reply_to_message_id is Some {
            assert(ms.contains_key("reply_to_message_id"@));
        }
    }
    r
}

/// The JSON payloads of a sequence of replies, one for each, in the same order.
pub fn reply_payloads(responses: &Vec<Response>) -> (r: Vec<Vec<Field>>)
    ensures
        r@.len() == responses@.len(),
        forall|i: int|
            0 <= i < r@.len() ==> fields_model(#[trigger] r@[i]@) == response_fields(
                responses@[i].chat_id as int,
                responses@[i].text@,
                responses@[i].reply_to_message_id,
            ),
{
    let mut r: Vec<Vec<Field>> = Vec::new();
    let mut i: usize = 0;
    while i < responses.len()
        invariant
            i <= responses@.len(),
            r@.len() == i,
            forall|j: int|
                0 <= j < i ==> fields_model(#[trigger] r@[j]@) == response_fields(
                    responses@[j].chat_id as int,
                    responses@[j].text@,
                    responses@[j].reply_to_message_id,
                ),
        decreases responses@.len() - i,
    {
        r.push(responses[i].fields());
        i = i + 1;
    }
    r
}

} // verus!
