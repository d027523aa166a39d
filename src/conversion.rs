//! Projection of decoded Candid values to JSON, blind or guided by a schema.
use vstd::prelude::*;
use crate::idl_prog::{first_type_in, get_type_from_any};
use crate::json::{json_members_view, json_seq_view, lemma_json_members_push, lemma_json_seq_push, Json, JsonValue};
use crate::principal::principal_text;
use crate::text::{decimal, decimal_value, lemma_decimal_exact, grouped_decimal, hex_encode, i64_to_decimal, nybble2hex, signed_decimal, u64_to_decimal};
use crate::wire::{label_id, Label, PrimType, SchemaDocument, TypeField, WireArgs, WireField, WireType, WireValue};

verus! {

/// How to represent a byte blob.
#[derive(Clone, Copy, PartialEq, Eq, Structural, Debug)]
pub enum BytesFormat {
    /// An array of numbers: `[1,34,0]`.
    Numbers,
    /// Two lowercase hex digits per byte: `"a4b7"`.
    Hex,
}

impl Default for BytesFormat {
    fn default() -> (r: BytesFormat)
        ensures
            r == BytesFormat::Numbers,
    {
        BytesFormat::Numbers
    }
}

/// Options of the projection.
pub struct Idl2JsonOptions {
    /// How to represent byte blobs; `Numbers` when not set.
    pub bytes_as: Option<BytesFormat>,
    /// How to represent byte blobs of at least the given length.
    pub long_bytes_as: Option<(usize, BytesFormat)>,
    /// Type declaration documents; a name resolves to its first declaration in the first
    /// document that declares it.
    pub prog: Vec<SchemaDocument>,
    /// Compact JSON, without formatting whitespace. It changes no structure.
    pub compact: bool,
}

impl Default for Idl2JsonOptions {
    fn default() -> (r: Idl2JsonOptions)
        ensures
            r.bytes_as is None,
            r.long_bytes_as is None,
            r.prog@.len() == 0,
            !r.compact,
    {
        Idl2JsonOptions { bytes_as: None, long_bytes_as: None, prog: Vec::new(), compact: false }
    }
}

/// The format used for a byte blob of `n` bytes.
pub open spec fn chosen_format(n: nat, o: Idl2JsonOptions) -> BytesFormat {
    let fallback = match o.bytes_as {
        Some(f) => f,
        None => BytesFormat::Numbers,
    };
    match o.long_bytes_as {
        Some((len, f)) => if n >= len {
            f
        } else {
            fallback
        },
        None => fallback,
    }
}

/// Whether every element is an 8-bit unsigned integer.
pub open spec fn all_bytes(s: Seq<WireValue>) -> bool {
    forall|i: int| 0 <= i < s.len() ==> #[trigger] s[i] is Nat8
}

/// The bytes of a sequence of 8-bit unsigned integers.
pub open spec fn byte_values(s: Seq<WireValue>) -> Seq<u8> {
    Seq::new(s.len(), |i: int| s[i]->Nat8_0)
}

/// Bytes as JSON numbers.
pub open spec fn byte_numbers(b: Seq<u8>) -> Seq<Json>
    decreases b.len(),
{
    if b.len() == 0 {
        Seq::empty()
    } else {
        byte_numbers(b.drop_last()).push(Json::Int(b.last() as int))
    }
}

/// A byte blob in the given format.
pub open spec fn blob_json(b: Seq<u8>, f: BytesFormat) -> Json {
    match f {
        BytesFormat::Numbers => Json::Array(byte_numbers(b)),
        BytesFormat::Hex => Json::Str(hex_encode(b)),
    }
}

/// The key that a label gives in JSON: a name as it is, a number in decimal
/// grouped by three with '_'.
pub open spec fn label_text(l: Label) -> Seq<char> {
    match l {
        Label::Id(n) => grouped_decimal(n as nat),
        Label::Named(s) => s@,
        Label::Unnamed(n) => grouped_decimal(n as nat),
    }
}

/// A floating-point value in JSON: its number, or the string "NaN" when it is not finite.
pub open spec fn float_json(f: Option<String>) -> Json {
    match f {
        Some(t) => Json::Float(t@),
        None => Json::Str(seq!['N', 'a', 'N']),
    }
}

/// The textual form of the placeholder value.
pub open spec fn reserved_text() -> Seq<char> {
    seq!['n', 'u', 'l', 'l', ' ', ':', ' ', 'r', 'e', 's', 'e', 'r', 'v', 'e', 'd']
}

/// The JSON of a value without type information.
pub open spec fn project(v: WireValue, o: Idl2JsonOptions) -> Json
    decreases v,
{
    match v {
        WireValue::Bool(b) => Json::Bool(b),
        WireValue::Null => Json::Null,
        WireValue::Text(s) => Json::Str(s@),
        WireValue::Number(s) => Json::Str(s@),
        WireValue::Float64(f) => float_json(f),
        WireValue::Opt(b) => Json::Array(seq![project(*b, o)]),
        WireValue::Vec(items) => if all_bytes(items@) {
            blob_json(byte_values(items@), chosen_format(items@.len(), o))
        } else {
            Json::Array(project_seq(items@, o))
        },
        WireValue::Record(fields) => Json::Object(project_fields(fields@, o)),
        WireValue::Variant(f) => Json::Object(seq![(label_text(f.id), project(f.val, o))]),
        WireValue::Principal(p) => Json::Str(principal_text(p@)),
        WireValue::Service(p) => Json::Str(principal_text(p@)),
        WireValue::Func(p, m) => Json::Object(
            seq![
                (seq!['p', 'r', 'i', 'n', 'c', 'i', 'p', 'a', 'l'], Json::Str(principal_text(p@))),
                (seq!['c', 'o', 'd', 'e'], Json::Str(m@)),
            ],
        ),
        WireValue::Absent => Json::Array(Seq::empty()),
        WireValue::Int(s) => Json::Str(s@),
        WireValue::Nat(s) => Json::Str(s@),
        WireValue::Nat8(i) => Json::Int(i as int),
        WireValue::Nat16(i) => Json::Int(i as int),
        WireValue::Nat32(i) => Json::Int(i as int),
        WireValue::Nat64(i) => Json::Str(decimal(i as nat)),
        WireValue::Int8(i) => Json::Int(i as int),
        WireValue::Int16(i) => Json::Int(i as int),
        WireValue::Int32(i) => Json::Int(i as int),
        WireValue::Int64(i) => Json::Str(signed_decimal(i as int)),
        WireValue::Float32(f) => float_json(f),
        WireValue::Reserved => Json::Str(reserved_text()),
    }
}

/// The JSON of each value, in order.
pub open spec fn project_seq(s: Seq<WireValue>, o: Idl2JsonOptions) -> Seq<Json>
    decreases s,
{
    if s.len() == 0 {
        Seq::empty()
    } else {
        project_seq(s.drop_last(), o).push(project(s.last(), o))
    }
}

/// The members of a record without type information: each field's label and JSON, in order.
pub open spec fn project_fields(s: Seq<WireField>, o: Idl2JsonOptions) -> Seq<(Seq<char>, Json)>
    decreases s,
{
    if s.len() == 0 {
        Seq::empty()
    } else {
        project_fields(s.drop_last(), o).push((label_text(s.last().id), project(s.last().val, o)))
    }
}

proof fn lemma_prefix_step(s: Seq<WireValue>, i: int, o: Idl2JsonOptions)
    requires
        0 <= i < s.len(),
    ensures
        project_seq(s.subrange(0, i + 1), o) == project_seq(s.subrange(0, i), o).push(project(s[i], o)),
{
    assert(s.subrange(0, i + 1).drop_last() =~= s.subrange(0, i));
}

proof fn lemma_prefix_bytes(s: Seq<WireValue>, i: int)
    requires
        0 <= i < s.len(),
    ensures
        byte_values(s.subrange(0, i + 1)) == byte_values(s.subrange(0, i)).push(s[i]->Nat8_0),
        all_bytes(s.subrange(0, i)) && s[i] is Nat8 ==> all_bytes(s.subrange(0, i + 1)),
{
    assert(byte_values(s.subrange(0, i + 1)) =~= byte_values(s.subrange(0, i)).push(s[i]->Nat8_0));
}

proof fn lemma_bytes_step(b: Seq<u8>, x: u8)
    ensures
        byte_numbers(b.push(x)) == byte_numbers(b).push(Json::Int(x as int)),
        hex_encode(b.push(x)) == hex_encode(b) + seq![crate::text::hex_digit(x / 16), crate::text::hex_digit(x % 16)],
{
    assert(b.push(x).drop_last() =~= b);
}

/// Formats a supposed byte blob. Fails when an element is not an 8-bit unsigned integer.
fn format_bytes(bytes: &[WireValue], bytes_format: &BytesFormat) -> (r: Result<JsonValue, ()>)
    ensures
        r is Ok <==> all_bytes(bytes@),
        r matches Ok(j) ==> j@ == blob_json(byte_values(bytes@), *bytes_format),
{
    let n = bytes.len();
    let mut numbers: Vec<JsonValue> = Vec::new();
    let mut hex = String::new();
    let mut i: usize = 0;
    while i < n
        invariant
            n == bytes@.len(),
            i <= n,
            all_bytes(bytes@.subrange(0, i as int)),
            *bytes_format is Numbers ==> json_seq_view(numbers@) == byte_numbers(byte_values(bytes@.subrange(0, i as int))),
            *bytes_format is Hex ==> hex@ == hex_encode(byte_values(bytes@.subrange(0, i as int))),
        decreases n - i,
    {
        proof { lemma_prefix_bytes(bytes@, i as int); }
        match &bytes[i] {
            WireValue::Nat8(b) => {
                let b = *b;
                proof {
                    lemma_bytes_step(byte_values(bytes@.subrange(0, i as int)), b);
                    lemma_json_seq_push(numbers@, JsonValue::Int(b as i128));
                }
                match bytes_format {
                    BytesFormat::Numbers => {
                        numbers.push(JsonValue::Int(b as i128));
                    },
                    BytesFormat::Hex => {
                        assert(b >> 4 == b / 16 && b & 0xf == b % 16) by (bit_vector);
                        hex.append(nybble2hex(b >> 4));
                        hex.append(nybble2hex(b & 0xf));
                    },
                }
            },
            _ => {
                return Err(());
            },
        }
        i = i + 1;
    }
    assert(bytes@.subrange(0, n as int) =~= bytes@);
    match bytes_format {
        BytesFormat::Numbers => Ok(JsonValue::Array(numbers)),
        BytesFormat::Hex => Ok(JsonValue::Str(hex)),
    }
}

/// Converts a supposed byte blob, in the format that the options choose for its length.
/// Fails when an element is not an 8-bit unsigned integer.
pub fn convert_bytes(bytes: &[WireValue], options: &Idl2JsonOptions) -> (r: Result<JsonValue, ()>)
    ensures
        r is Ok <==> all_bytes(bytes@),
        r matches Ok(j) ==> j@ == blob_json(byte_values(bytes@), chosen_format(bytes@.len(), *options)),
{
    if let Some((len, bytes_format)) = &options.long_bytes_as {
        if bytes.len() >= *len {
            return format_bytes(bytes, bytes_format);
        }
    }
    let fallback = match &options.bytes_as {
        Some(f) => *f,
        None => BytesFormat::Numbers,
    };
    format_bytes(bytes, &fallback)
}

/// Relies on the `Display` of candid's `Label::Id`: the decimal digits of the
/// number, grouped by three from the right and joined by '_'.
#[verifier::external_body]
fn label_number_text(n: u32) -> (r: String)
    ensures
        r@ == grouped_decimal(n as nat),
{
    candid::types::internal::Label::Id(n).to_string()
}

/// The JSON key of a label.
pub fn label_to_string(l: &Label) -> (r: String)
    ensures
        r@ == label_text(*l),
{
    match l {
        Label::Id(n) => label_number_text(*n),
        Label::Named(s) => s.clone(),
        Label::Unnamed(n) => label_number_text(*n),
    }
}

fn float_to_json(f: &Option<String>) -> (r: JsonValue)
    ensures
        r@ == float_json(*f),
{
    match f {
        Some(t) => JsonValue::Float(t.clone()),
        None => {
            proof { reveal_strlit("NaN"); }
            let t = String::from_str("NaN");
            assert(t@ =~= seq!['N', 'a', 'N']);
            JsonValue::Str(t)
        },
    }
}

fn one_member(key: String, val: JsonValue) -> (r: JsonValue)
    ensures
        r@ == Json::Object(seq![(key@, val@)]),
{
    let mut members: Vec<(String, JsonValue)> = Vec::new();
    proof { lemma_json_members_push(members@, key, val); }
    members.push((key, val));
    assert(json_members_view(members@) =~= seq![(key@, val@)]);
    JsonValue::Object(members)
}

/// Converts a decoded Candid value to JSON, without type information.
pub fn idl2json(idl: &WireValue, options: &Idl2JsonOptions) -> (r: JsonValue)
    ensures
        r@ == project(*idl, *options),
    decreases idl,
{
    match idl {
        WireValue::Bool(b) => JsonValue::Bool(*b),
        WireValue::Null => JsonValue::Null,
        WireValue::Text(s) => JsonValue::Str(s.clone()),
        WireValue::Number(s) => JsonValue::Str(s.clone()),
        WireValue::Float64(f) => float_to_json(f),
        WireValue::Opt(value) => {
            let inner = idl2json(&**value, options);
            let mut items: Vec<JsonValue> = Vec::new();
            proof { lemma_json_seq_push(items@, inner); }
            items.push(inner);
            assert(json_seq_view(items@) =~= seq![project(**value, *options)]);
            JsonValue::Array(items)
        },
        WireValue::Vec(value) => match convert_bytes(value.as_slice(), options) {
            Ok(j) => j,
            Err(_) => {
                let n = value.len();
                let mut items: Vec<JsonValue> = Vec::new();
                let mut i: usize = 0;
                while i < n
                    invariant
                        *idl == WireValue::Vec(*value),
                        n == value@.len(),
                        i <= n,
                        json_seq_view(items@) == project_seq(value@.subrange(0, i as int), *options),
                    decreases n - i,
                {
                    proof {
                        lemma_prefix_step(value@, i as int, *options);
                        assert(decreases_to!(*idl => (*idl)->Vec_0));
                        assert(decreases_to!(*value => value[i as int]));
                        assert(decreases_to!(*idl => value[i as int]));
                    }
                    let item = idl2json(&value[i], options);
                    proof { lemma_json_seq_push(items@, item); }
                    items.push(item);
                    i = i + 1;
                }
                assert(value@.subrange(0, n as int) =~= value@);
                JsonValue::Array(items)
            },
        },
        WireValue::Record(fields) => {
            let n = fields.len();
            let mut members: Vec<(String, JsonValue)> = Vec::new();
            let mut i: usize = 0;
            while i < n
                invariant
                    *idl == WireValue::Record(*fields),
                    n == fields@.len(),
                    i <= n,
                    json_members_view(members@) == project_fields(fields@.subrange(0, i as int), *options),
                decreases n - i,
            {
                proof {
                    assert(fields@.subrange(0, i + 1).drop_last() =~= fields@.subrange(0, i as int));
                    assert(decreases_to!(*idl => (*idl)->Record_0));
                    assert(decreases_to!(*fields => fields[i as int]));
                    assert(decreases_to!(fields[i as int] => fields[i as int].val));
                    assert(decreases_to!(*idl => fields[i as int].val));
                }
                let key = label_to_string(&fields[i].id);
                let val = idl2json(&fields[i].val, options);
                proof { lemma_json_members_push(members@, key, val); }
                members.push((key, val));
                i = i + 1;
            }
            assert(fields@.subrange(0, n as int) =~= fields@);
            JsonValue::Object(members)
        },
        WireValue::Variant(field) => {
            let key = label_to_string(&field.id);
            let val = idl2json(&field.val, options);
            one_member(key, val)
        },
        WireValue::Principal(p) => JsonValue::Str(p.to_text()),
        WireValue::Service(p) => JsonValue::Str(p.to_text()),
        WireValue::Func(p, c) => {
            proof {
                reveal_strlit("principal");
                reveal_strlit("code");
            }
            let mut members: Vec<(String, JsonValue)> = Vec::new();
            let k1 = String::from_str("principal");
            assert(k1@ =~= seq!['p', 'r', 'i', 'n', 'c', 'i', 'p', 'a', 'l']);
            let v1 = JsonValue::Str(p.to_text());
            proof { lemma_json_members_push(members@, k1, v1); }
            members.push((k1, v1));
            let k2 = String::from_str("code");
            assert(k2@ =~= seq!['c', 'o', 'd', 'e']);
            let v2 = JsonValue::Str(c.clone());
            proof { lemma_json_members_push(members@, k2, v2); }
            members.push((k2, v2));
            assert(json_members_view(members@) =~= project(*idl, *options)->Object_0);
            JsonValue::Object(members)
        },
        WireValue::Absent => {
            let items: Vec<JsonValue> = Vec::new();
            assert(json_seq_view(items@) =~= Seq::<Json>::empty());
            JsonValue::Array(items)
        },
        WireValue::Int(s) => JsonValue::Str(s.clone()),
        WireValue::Nat(s) => JsonValue::Str(s.clone()),
        WireValue::Nat8(i) => JsonValue::Int(*i as i128),
        WireValue::Nat16(i) => JsonValue::Int(*i as i128),
        WireValue::Nat32(i) => JsonValue::Int(*i as i128),
        WireValue::Nat64(i) => JsonValue::Str(u64_to_decimal(*i)),
        WireValue::Int8(i) => JsonValue::Int(*i as i128),
        WireValue::Int16(i) => JsonValue::Int(*i as i128),
        WireValue::Int32(i) => JsonValue::Int(*i as i128),
        WireValue::Int64(i) => JsonValue::Str(i64_to_decimal(*i)),
        WireValue::Float32(f) => float_to_json(f),
        WireValue::Reserved => {
            proof { reveal_strlit("null : reserved"); }
            let t = String::from_str("null : reserved");
            assert(t@ =~= reserved_text());
            JsonValue::Str(t)
        },
    }
}

/// Converts each value to JSON, without type information, into an array.
pub fn convert_non_bytes_array(value: &[WireValue], options: &Idl2JsonOptions) -> (r: JsonValue)
    ensures
        r@ == Json::Array(project_seq(value@, *options)),
{
    let n = value.len();
    let mut items: Vec<JsonValue> = Vec::new();
    let mut i: usize = 0;
    while i < n
        invariant
            n == value@.len(),
            i <= n,
            json_seq_view(items@) == project_seq(value@.subrange(0, i as int), *options),
        decreases n - i,
    {
        proof { lemma_prefix_step(value@, i as int, *options); }
        let item = idl2json(&value[i], options);
        proof { lemma_json_seq_push(items@, item); }
        items.push(item);
        i = i + 1;
    }
    assert(value@.subrange(0, n as int) =~= value@);
    JsonValue::Array(items)
}

/// Converts an argument list to a JSON array, without type information.
pub fn idl_args2json(args: &WireArgs, options: &Idl2JsonOptions) -> (r: JsonValue)
    ensures
        r@ == Json::Array(project_seq(args.args@, *options)),
{
    convert_non_bytes_array(args.args.as_slice(), options)
}

/// How many name references a resolution follows at most: one per declaration
/// (saturating at the largest `usize`). A longer chain of names is a cycle.
pub open spec fn hop_limit(progs: Seq<SchemaDocument>) -> nat
    decreases progs.len(),
{
    if progs.len() == 0 {
        0
    } else {
        let c = hop_limit(progs.drop_last()) + progs.last().decs@.len();
        if c > usize::MAX {
            usize::MAX as nat
        } else {
            c
        }
    }
}

/// Follows name references through the documents: the first type that is not a
/// reference, or `None` when a name is not declared or the chain does not end
/// within `fuel` steps.
pub open spec fn resolve(progs: Seq<SchemaDocument>, t: WireType, fuel: nat) -> Option<WireType>
    decreases fuel,
{
    match t {
        WireType::VarT(name) => if fuel == 0 {
            None
        } else {
            match first_type_in(progs, name@) {
                Some(t2) => resolve(progs, t2, (fuel - 1) as nat),
                None => None,
            }
        },
        _ => Some(t),
    }
}

/// The type that a type reference stands for under the options' documents.
pub open spec fn resolved(t: WireType, o: Idl2JsonOptions) -> Option<WireType> {
    resolve(o.prog@, t, hop_limit(o.prog@))
}

/// The index of the first field type whose label has the id, or -1.
pub open spec fn first_field(s: Seq<TypeField>, id: u32) -> int
    decreases s.len(),
{
    if s.len() == 0 {
        -1
    } else if label_id(s[0].label) == id {
        0
    } else {
        let k = first_field(s.drop_first(), id);
        if k < 0 {
            -1
        } else {
            k + 1
        }
    }
}

/// Whether a type is the 8-bit unsigned integer type.
pub open spec fn is_nat8_type(t: WireType) -> bool {
    match t {
        WireType::PrimT(p) => p == PrimType::Nat8,
        _ => false,
    }
}

/// The JSON of a value under a declared type: the type only names fields, and
/// wherever it does not fit the value, the value is projected without it.
pub open spec fn project_typed(v: WireValue, t: WireType, o: Idl2JsonOptions) -> Json
    decreases v,
{
    match resolved(t, o) {
        None => project(v, o),
        Some(rt) => match v {
            WireValue::Opt(b) => match rt {
                WireType::OptT(ot) => Json::Array(seq![project_typed(*b, *ot, o)]),
                _ => project(v, o),
            },
            WireValue::Vec(items) => match rt {
                WireType::VecT(et) => if all_bytes(items@) {
                    blob_json(byte_values(items@), chosen_format(items@.len(), o))
                } else if is_nat8_type(*et) {
                    Json::Array(project_seq(items@, o))
                } else {
                    Json::Array(project_typed_seq(items@, *et, o))
                },
                _ => project(v, o),
            },
            WireValue::Record(fields) => match rt {
                WireType::RecordT(tfs) => Json::Object(project_typed_fields(fields@, tfs@, o)),
                _ => project(v, o),
            },
            WireValue::Variant(f) => match rt {
                WireType::VariantT(tfs) => Json::Object(seq![typed_member(*f, tfs@, o)]),
                _ => project(v, o),
            },
            _ => project(v, o),
        },
    }
}

/// The JSON of each value under one element type, in order.
pub open spec fn project_typed_seq(s: Seq<WireValue>, t: WireType, o: Idl2JsonOptions) -> Seq<Json>
    decreases s,
{
    if s.len() == 0 {
        Seq::empty()
    } else {
        project_typed_seq(s.drop_last(), t, o).push(project_typed(s.last(), t, o))
    }
}

/// The members of a record under its field types, in the value's order.
pub open spec fn project_typed_fields(s: Seq<WireField>, tfs: Seq<TypeField>, o: Idl2JsonOptions) -> Seq<(Seq<char>, Json)>
    decreases s,
{
    if s.len() == 0 {
        Seq::empty()
    } else {
        project_typed_fields(s.drop_last(), tfs, o).push(typed_member(s.last(), tfs, o))
    }
}

/// A field as a JSON member: under the declared label and type of the first field
/// type with its id, or under its own label without type information.
pub open spec fn typed_member(f: WireField, tfs: Seq<TypeField>, o: Idl2JsonOptions) -> (Seq<char>, Json)
    decreases f,
{
    let k = first_field(tfs, label_id(f.id));
    if 0 <= k < tfs.len() {
        (label_text(tfs[k].label), project_typed(f.val, tfs[k].typ, o))
    } else {
        (label_text(f.id), project(f.val, o))
    }
}

fn hop_limit_of(progs: &[SchemaDocument]) -> (r: usize)
    ensures
        r as nat == hop_limit(progs@),
{
    let n = progs.len();
    let mut total: usize = 0;
    let mut i: usize = 0;
    while i < n
        invariant
            n == progs@.len(),
            i <= n,
            total as nat == hop_limit(progs@.subrange(0, i as int)),
        decreases n - i,
    {
        assert(progs@.subrange(0, i + 1).drop_last() =~= progs@.subrange(0, i as int));
        total = total.saturating_add(progs[i].decs.len());
        i = i + 1;
    }
    assert(progs@.subrange(0, n as int) =~= progs@);
    total
}

/// Follows name references from `t` for at most `fuel` steps.
fn resolve_type<'a>(progs: &'a [SchemaDocument], t: &'a WireType, fuel: usize) -> (r: Option<&'a WireType>)
    ensures
        match resolve(progs@, *t, fuel as nat) {
            Some(rt) => r == Some(&rt),
            None => r is None,
        },
{
    let mut cur = t;
    let mut left = fuel;
    loop
        invariant
            resolve(progs@, *t, fuel as nat) == resolve(progs@, *cur, left as nat),
        decreases left,
    {
        match cur {
            WireType::VarT(name) => {
                if left == 0 {
                    return None;
                }
                match get_type_from_any(progs, name.as_str()) {
                    Some(next) => {
                        cur = next;
                        left = left - 1;
                    },
                    None => {
                        return None;
                    },
                }
            },
            _ => {
                return Some(cur);
            },
        }
    }
}

proof fn lemma_first_field(s: Seq<TypeField>, id: u32, k: int)
    requires
        0 <= k <= s.len(),
        forall|j: int| 0 <= j < k ==> label_id(#[trigger] s[j].label) != id,
        k == s.len() || label_id(s[k].label) == id,
    ensures
        first_field(s, id) == if k == s.len() {
            -1
        } else {
            k
        },
    decreases k,
{
    if k > 0 {
        let t = s.drop_first();
        assert forall|j: int| 0 <= j < k - 1 implies label_id(#[trigger] t[j].label) != id by {
            assert(t[j] == s[j + 1]);
        }
        lemma_first_field(t, id, k - 1);
    }
}

/// The index of the first field type with the given id.
fn find_type_field(types: &[TypeField], id: u32) -> (r: Option<usize>)
    ensures
        first_field(types@, id) < 0 ==> r is None,
        first_field(types@, id) >= 0 ==> r == Some(first_field(types@, id) as usize),
        first_field(types@, id) < types@.len(),
{
    let n = types.len();
    let mut i: usize = 0;
    while i < n
        invariant
            n == types@.len(),
            i <= n,
            forall|j: int| 0 <= j < i ==> label_id(#[trigger] types@[j].label) != id,
        decreases n - i,
    {
        if types[i].label.get_id() == id {
            proof { lemma_first_field(types@, id, i as int); }
            return Some(i);
        }
        i = i + 1;
    }
    proof { lemma_first_field(types@, id, n as int); }
    None
}

proof fn lemma_typed_prefix(s: Seq<WireValue>, i: int, t: WireType, o: Idl2JsonOptions)
    requires
        0 <= i < s.len(),
    ensures
        project_typed_seq(s.subrange(0, i + 1), t, o) == project_typed_seq(s.subrange(0, i), t, o).push(project_typed(s[i], t, o)),
{
    assert(s.subrange(0, i + 1).drop_last() =~= s.subrange(0, i));
}

fn is_nat8(t: &WireType) -> (r: bool)
    ensures
        r == is_nat8_type(*t),
{
    match t {
        WireType::PrimT(PrimType::Nat8) => true,
        _ => false,
    }
}

/// Converts a decoded Candid value to JSON, naming fields as the declared type does
/// where it can.
///
/// The names are best effort: where the type does not fit the value, the value
/// wins and is converted without type information. Data is never omitted, and no
/// field is added; members keep the order of the value.
pub fn idl2json_with_weak_names(idl: &WireValue, idl_type: &WireType, options: &Idl2JsonOptions) -> (r: JsonValue)
    ensures
        r@ == project_typed(*idl, *idl_type, *options),
    decreases idl,
{
    let limit = hop_limit_of(options.prog.as_slice());
    let rt = match resolve_type(options.prog.as_slice(), idl_type, limit) {
        Some(rt) => rt,
        None => {
            return idl2json(idl, options);
        },
    };
    match idl {
        WireValue::Opt(value) => match rt {
            WireType::OptT(opt_type) => {
                let inner = idl2json_with_weak_names(&**value, &**opt_type, options);
                let mut items: Vec<JsonValue> = Vec::new();
                proof { lemma_json_seq_push(items@, inner); }
                items.push(inner);
                assert(json_seq_view(items@) =~= seq![inner@]);
                JsonValue::Array(items)
            },
            _ => idl2json(idl, options),
        },
        WireValue::Vec(value) => match rt {
            WireType::VecT(item_type) => match convert_bytes(value.as_slice(), options) {
                Ok(j) => j,
                Err(_) => {
                    if is_nat8(&**item_type) {
                        convert_non_bytes_array(value.as_slice(), options)
                    } else {
                        let n = value.len();
                        let mut items: Vec<JsonValue> = Vec::new();
                        let mut i: usize = 0;
                        while i < n
                            invariant
                                *idl == WireValue::Vec(*value),
                                n == value@.len(),
                                i <= n,
                                json_seq_view(items@) == project_typed_seq(value@.subrange(0, i as int), **item_type, *options),
                            decreases n - i,
                        {
                            proof {
                                lemma_typed_prefix(value@, i as int, **item_type, *options);
                                assert(decreases_to!(*idl => (*idl)->Vec_0));
                                assert(decreases_to!(*value => value[i as int]));
                                assert(decreases_to!(*idl => value[i as int]));
                            }
                            let item = idl2json_with_weak_names(&value[i], &**item_type, options);
                            proof { lemma_json_seq_push(items@, item); }
                            items.push(item);
                            i = i + 1;
                        }
                        assert(value@.subrange(0, n as int) =~= value@);
                        JsonValue::Array(items)
                    }
                },
            },
            _ => idl2json(idl, options),
        },
        WireValue::Record(fields) => match rt {
            WireType::RecordT(record_types) => {
                let n = fields.len();
                let mut members: Vec<(String, JsonValue)> = Vec::new();
                let mut i: usize = 0;
                while i < n
                    invariant
                        *idl == WireValue::Record(*fields),
                        n == fields@.len(),
                        i <= n,
                        json_members_view(members@) == project_typed_fields(fields@.subrange(0, i as int), record_types@, *options),
                    decreases n - i,
                {
                    proof {
                        assert(fields@.subrange(0, i + 1).drop_last() =~= fields@.subrange(0, i as int));
                        assert(decreases_to!(*idl => (*idl)->Record_0));
                        assert(decreases_to!(*fields => fields[i as int]));
                        assert(decreases_to!(*idl => fields[i as int]));
                    }
                    let (key, val) = convert_idl_field(&fields[i], record_types.as_slice(), options);
                    proof { lemma_json_members_push(members@, key, val); }
                    members.push((key, val));
                    i = i + 1;
                }
                assert(fields@.subrange(0, n as int) =~= fields@);
                JsonValue::Object(members)
            },
            _ => idl2json(idl, options),
        },
        WireValue::Variant(field) => match rt {
            WireType::VariantT(record_types) => {
                let (key, val) = convert_idl_field(&**field, record_types.as_slice(), options);
                one_member(key, val)
            },
            _ => idl2json(idl, options),
        },
        _ => idl2json(idl, options),
    }
}

/// A field as a (key, JSON) pair: the key and type come from the first field type
/// with the field's id, if any; else the key is the field's own label and the value
/// is converted without type information.
fn convert_idl_field(field: &WireField, record_types: &[TypeField], options: &Idl2JsonOptions) -> (r: (String, JsonValue))
    ensures
        (r.0@, r.1@) == typed_member(*field, record_types@, *options),
    decreases field,
{
    let field_id = field.id.get_id();
    match find_type_field(record_types, field_id) {
        Some(k) => {
            let key = label_to_string(&record_types[k].label);
            let val = idl2json_with_weak_names(&field.val, &record_types[k].typ, options);
            (key, val)
        },
        None => (label_to_string(&field.id), idl2json(&field.val, options)),
    }
}

/// Whether a value and a resolved type have the same container shape.
pub open spec fn shapes_agree(v: WireValue, t: Option<WireType>) -> bool {
    match t {
        Some(WireType::OptT(_)) => v is Opt,
        Some(WireType::VecT(_)) => v is Vec,
        Some(WireType::RecordT(_)) => v is Record,
        Some(WireType::VariantT(_)) => v is Variant,
        _ => false,
    }
}

/// Where a value and its declared type disagree in shape, or the type does not
/// resolve, the schema-directed JSON is exactly the JSON without type information.
pub proof fn lemma_mismatch_degrades(v: WireValue, t: WireType, o: Idl2JsonOptions)
    requires
        !shapes_agree(v, resolved(t, o)),
    ensures
        project_typed(v, t, o) == project(v, o),
{
}

proof fn lemma_fields_len(s: Seq<WireField>, o: Idl2JsonOptions)
    ensures
        project_fields(s, o).len() == s.len(),
    decreases s.len(),
{
    if s.len() > 0 {
        lemma_fields_len(s.drop_last(), o);
    }
}

proof fn lemma_typed_fields_len(s: Seq<WireField>, tfs: Seq<TypeField>, o: Idl2JsonOptions)
    ensures
        project_typed_fields(s, tfs, o).len() == s.len(),
    decreases s.len(),
{
    if s.len() > 0 {
        lemma_typed_fields_len(s.drop_last(), tfs, o);
    }
}

/// A record becomes an object with one member per field, with a schema or without.
pub proof fn lemma_record_keeps_fields(fields: Vec<WireField>, t: WireType, o: Idl2JsonOptions)
    ensures
        project(WireValue::Record(fields), o) is Object,
        project(WireValue::Record(fields), o)->Object_0.len() == fields@.len(),
        project_typed(WireValue::Record(fields), t, o) is Object,
        project_typed(WireValue::Record(fields), t, o)->Object_0.len() == fields@.len(),
{
    lemma_fields_len(fields@, o);
    match resolved(t, o) {
        Some(WireType::RecordT(tfs)) => lemma_typed_fields_len(fields@, tfs@, o),
        _ => {},
    }
}

/// 64-bit integers become JSON strings of their exact decimal digits, which read
/// back to the same number; arbitrary-precision integers keep their decimal text.
pub proof fn lemma_integers_exact(x: u64, y: i64, big: String, o: Idl2JsonOptions)
    ensures
        project(WireValue::Nat64(x), o) == Json::Str(decimal(x as nat)),
        decimal_value(decimal(x as nat)) == x,
        project(WireValue::Int64(y), o) == Json::Str(signed_decimal(y as int)),
        y >= 0 ==> decimal_value(signed_decimal(y as int)) == y,
        y < 0 ==> signed_decimal(y as int)[0] == '-' && decimal_value(signed_decimal(y as int).drop_first()) == -y,
        project(WireValue::Nat(big), o) == Json::Str(big@),
        project(WireValue::Int(big), o) == Json::Str(big@),
{
    lemma_decimal_exact(x as nat);
    if y >= 0 {
        lemma_decimal_exact(y as nat);
    } else {
        lemma_decimal_exact((-y) as nat);
        assert(signed_decimal(y as int).drop_first() =~= decimal((-y) as nat));
    }
}

} // verus!
