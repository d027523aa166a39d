use vstd::prelude::*;

verus! {

/// The mathematical model of a JSON document.
pub ghost enum Json {
    Null,
    Bool(bool),
    Int(int),
    Float(Seq<char>),
    Str(Seq<char>),
    Array(Seq<Json>),
    Object(Seq<(Seq<char>, Json)>),
}

/// A JSON document. Object members keep the order in which they were produced.
#[derive(Debug, PartialEq)]
pub enum JsonValue {
    Null,
    Bool(bool),
    /// An integer.
    Int(i128),
    /// A finite floating-point number, in its decimal text form.
    Float(String),
    Str(String),
    Array(Vec<JsonValue>),
    Object(Vec<(String, JsonValue)>),
}

impl JsonValue {
    pub open spec fn view(self) -> Json
        decreases self,
    {
        match self {
            JsonValue::Null => Json::Null,
            JsonValue::Bool(b) => Json::Bool(b),
            JsonValue::Int(i) => Json::Int(i as int),
            JsonValue::Float(s) => Json::Float(s@),
            JsonValue::Str(s) => Json::Str(s@),
            JsonValue::Array(items) => Json::Array(json_seq_view(items@)),
            JsonValue::Object(members) => Json::Object(json_members_view(members@)),
        }
    }
}

pub open spec fn json_seq_view(s: Seq<JsonValue>) -> Seq<Json>
    decreases s,
{
    if s.len() == 0 {
        Seq::empty()
    } else {
        json_seq_view(s.drop_last()).push(s.last().view())
    }
}

pub open spec fn json_members_view(s: Seq<(String, JsonValue)>) -> Seq<(Seq<char>, Json)>
    decreases s,
{
    if s.len() == 0 {
        Seq::empty()
    } else {
        json_members_view(s.drop_last()).push((s.last().0@, s.last().1.view()))
    }
}

/// Viewing a sequence with one more value appends that value's view.
pub proof fn lemma_json_seq_push(s: Seq<JsonValue>, x: JsonValue)
    ensures
        json_seq_view(s.push(x)) == json_seq_view(s).push(x@),
{
    assert(s.push(x).drop_last() =~= s);
}

/// Viewing members with one more member appends that member's view.
pub proof fn lemma_json_members_push(s: Seq<(String, JsonValue)>, k: String, x: JsonValue)
    ensures
        json_members_view(s.push((k, x))) == json_members_view(s).push((k@, x@)),
{
    assert(s.push((k, x)).drop_last() =~= s);
}

} // verus!
