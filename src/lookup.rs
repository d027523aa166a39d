//! The JSON body of a request that previews a lookup call.
use vstd::prelude::*;
use crate::json::{json_members_view, json_seq_view, lemma_json_members_push, lemma_json_seq_push, Json, JsonValue};
use crate::node::{Arg, LookupCanister};
use crate::principal::principal_text;
use crate::text::{bytes_to_hex, hex_encode};

verus! {

/// A value under a one-member object whose key names its kind.
pub open spec fn tagged(tag: Seq<char>, j: Json) -> Json {
    Json::Object(seq![(tag, j)])
}

/// The JSON of a call argument: an object whose one key names the argument's kind.
pub open spec fn arg_json(a: Arg) -> Json
    decreases a,
{
    match a {
        Arg::String(s) => tagged("String"@, Json::Str(s@)),
        Arg::Number(n) => tagged("Number"@, Json::Int(n as int)),
        Arg::Principal(p) => tagged("Principal"@, Json::Str(principal_text(p@))),
        Arg::BigInt(n) => tagged("BigInt"@, Json::Int(n as int)),
        Arg::Boolean(b) => tagged("Boolean"@, Json::Bool(b)),
        Arg::Array(items) => tagged("Array"@, Json::Array(args_json(items@))),
        Arg::Object(members) => tagged("Object"@, Json::Object(arg_members_json(members@))),
        Arg::Field(s) => tagged("Field"@, Json::Str(s@)),
    }
}

/// The JSON of each argument, in order.
pub open spec fn args_json(s: Seq<Arg>) -> Seq<Json>
    decreases s,
{
    if s.len() == 0 {
        Seq::empty()
    } else {
        args_json(s.drop_last()).push(arg_json(s.last()))
    }
}

/// The members of an object argument, in order.
pub open spec fn arg_members_json(s: Seq<(String, Arg)>) -> Seq<(Seq<char>, Json)>
    decreases s,
{
    if s.len() == 0 {
        Seq::empty()
    } else {
        arg_members_json(s.drop_last()).push((s.last().0@, arg_json(s.last().1)))
    }
}

/// The body of a preview request for a lookup on a canister.
pub open spec fn lookup_body(data: LookupCanister) -> Json {
    Json::Object(
        seq![
            ("canisterId"@, Json::Str(principal_text(data.canister@))),
            ("methodName"@, Json::Str(data.method@)),
            ("args"@, Json::Array(args_json(data.args@))),
        ],
    )
}

fn tag(name: &str, j: JsonValue) -> (r: JsonValue)
    ensures
        r@ == tagged(name@, j@),
{
    let mut members: Vec<(String, JsonValue)> = Vec::new();
    let key = String::from_str(name);
    proof { lemma_json_members_push(members@, key, j); }
    members.push((key, j));
    assert(json_members_view(members@) =~= seq![(name@, j@)]);
    JsonValue::Object(members)
}

fn args_to_json(items: &Vec<Arg>) -> (r: Vec<JsonValue>)
    ensures
        json_seq_view(r@) == args_json(items@),
    decreases items@,
{
    let n = items.len();
    let mut out: Vec<JsonValue> = Vec::new();
    let mut i: usize = 0;
    while i < n
        invariant
            n == items@.len(),
            i <= n,
            json_seq_view(out@) == args_json(items@.subrange(0, i as int)),
        decreases n - i,
    {
        proof {
            assert(items@.subrange(0, i + 1).drop_last() =~= items@.subrange(0, i as int));
            assert(decreases_to!(items@ => items@[i as int]));
        }
        let j = arg_to_json(&items[i]);
        proof { lemma_json_seq_push(out@, j); }
        out.push(j);
        i = i + 1;
    }
    assert(items@.subrange(0, n as int) =~= items@);
    out
}

/// The JSON of a call argument, as its serialisation tags it.
pub fn arg_to_json(a: &Arg) -> (r: JsonValue)
    ensures
        r@ == arg_json(*a),
    decreases a,
{
    match a {
        Arg::String(s) => tag("String", JsonValue::Str(s.clone())),
        Arg::Number(n) => tag("Number", JsonValue::Int(*n as i128)),
        Arg::Principal(p) => tag("Principal", JsonValue::Str(p.to_text())),
        Arg::BigInt(n) => tag("BigInt", JsonValue::Int(*n as i128)),
        Arg::Boolean(b) => tag("Boolean", JsonValue::Bool(*b)),
        Arg::Array(items) => {
            proof {
                assert(decreases_to!(*a => (*a)->Array_0));
                assert(decreases_to!((*a)->Array_0 => items@));
            }
            tag("Array", JsonValue::Array(args_to_json(items)))
        },
        Arg::Object(members) => {
            let n = members.len();
            let mut out: Vec<(String, JsonValue)> = Vec::new();
            let mut i: usize = 0;
            while i < n
                invariant
                    *a == Arg::Object(*members),
                    n == members@.len(),
                    i <= n,
                    json_members_view(out@) == arg_members_json(members@.subrange(0, i as int)),
                decreases n - i,
            {
                proof {
                    assert(members@.subrange(0, i + 1).drop_last() =~= members@.subrange(0, i as int));
                    assert(decreases_to!(*a => (*a)->Object_0));
                    assert(decreases_to!(*members => members[i as int]));
                    assert(decreases_to!(members[i as int] => members[i as int].1));
                }
                let key = members[i].0.clone();
                let j = arg_to_json(&members[i].1);
                proof { lemma_json_members_push(out@, key, j); }
                out.push((key, j));
                i = i + 1;
            }
            assert(members@.subrange(0, n as int) =~= members@);
            tag("Object", JsonValue::Object(out))
        },
        Arg::Field(s) => tag("Field", JsonValue::Str(s.clone())),
    }
}

/// The body of a preview request for a lookup on a canister: the canister's
/// principal text, the method and the arguments.
pub fn lookup_request_body(data: &LookupCanister) -> (r: JsonValue)
    ensures
        r@ == lookup_body(*data),
{
    let mut members: Vec<(String, JsonValue)> = Vec::new();
    let k1 = String::from_str("canisterId");
    let v1 = JsonValue::Str(data.canister.to_text());
    proof { lemma_json_members_push(members@, k1, v1); }
    members.push((k1, v1));
    let k2 = String::from_str("methodName");
    let v2 = JsonValue::Str(data.method.clone());
    proof { lemma_json_members_push(members@, k2, v2); }
    members.push((k2, v2));
    let k3 = String::from_str("args");
    let v3 = JsonValue::Array(args_to_json(&data.args));
    proof { lemma_json_members_push(members@, k3, v3); }
    members.push((k3, v3));
    assert(json_members_view(members@) =~= lookup_body(*data)->Object_0);
    JsonValue::Object(members)
}

/// The security headers that a transformed HTTP response carries, in order.
pub open spec fn security_headers() -> Seq<(Seq<char>, Seq<char>)> {
    seq![
        ("Content-Security-Policy"@, "default-src 'self'"@),
        ("Referrer-Policy"@, "strict-origin"@),
        ("Permissions-Policy"@, "geolocation=(self)"@),
        ("Strict-Transport-Security"@, "max-age=63072000"@),
        ("X-Frame-Options"@, "DENY"@),
        ("X-Content-Type-Options"@, "nosniff"@),
    ]
}

fn push_header(headers: &mut Vec<(String, String)>, name: &str, value: &str)
    ensures
        final(headers)@.len() == old(headers)@.len() + 1,
        forall|i: int| 0 <= i < old(headers)@.len() ==> #[trigger] final(headers)@[i] == old(headers)@[i],
        final(headers)@.last().0@ == name@,
        final(headers)@.last().1@ == value@,
{
    headers.push((String::from_str(name), String::from_str(value)));
}

/// The headers of a transformed HTTP response: the security headers, replacing
/// whatever the response had, so that every replica sees the same response.
pub fn transform_headers() -> (r: Vec<(String, String)>)
    ensures
        r@.len() == security_headers().len(),
        forall|i: int| 0 <= i < r@.len() ==> (#[trigger] r@[i].0@, r@[i].1@) == security_headers()[i],
{
    let mut h: Vec<(String, String)> = Vec::new();
    push_header(&mut h, "Content-Security-Policy", "default-src 'self'");
    push_header(&mut h, "Referrer-Policy", "strict-origin");
    push_header(&mut h, "Permissions-Policy", "geolocation=(self)");
    push_header(&mut h, "Strict-Transport-Security", "max-age=63072000");
    push_header(&mut h, "X-Frame-Options", "DENY");
    push_header(&mut h, "X-Content-Type-Options", "nosniff");
    h
}

/// The idempotency key of a request, from random bytes: "UUID-" and their hex digits.
pub fn idempotency_key(random: &[u8]) -> (r: String)
    ensures
        r@ == "UUID-"@ + hex_encode(random@),
{
    let mut key = String::from_str("UUID-");
    key.append(bytes_to_hex(random).as_str());
    key
}

} // verus!
