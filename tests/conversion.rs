use circuitz::arity::{to_tuple, ArityError, TupleVariant};
use circuitz::conversion::{
    convert_bytes, idl2json, idl2json_with_weak_names, idl_args2json, label_to_string, BytesFormat,
    Idl2JsonOptions,
};
use circuitz::idl_prog::{get, get_init_arg_type, get_type, get_type_from_any};
use circuitz::json::JsonValue;
use circuitz::principal::Principal;
use circuitz::text::{i64_to_decimal, nybble2hex, u64_to_decimal};
use circuitz::wire::{
    idl_hash, Binding, Dec, Label, PrimType, SchemaDocument, TypeField, WireArgs, WireField, WireType,
    WireValue,
};

fn s(x: &str) -> String {
    x.to_string()
}

fn text(x: &str) -> WireValue {
    WireValue::Text(s(x))
}

fn jstr(x: &str) -> JsonValue {
    JsonValue::Str(s(x))
}

fn field(id: Label, val: WireValue) -> WireField {
    WireField { id, val }
}

fn type_field(label: Label, typ: WireType) -> TypeField {
    TypeField { label, typ }
}

fn bytes(b: &[u8]) -> WireValue {
    WireValue::Vec(b.iter().map(|x| WireValue::Nat8(*x)).collect())
}

fn doc(decs: Vec<(&str, WireType)>) -> SchemaDocument {
    SchemaDocument {
        decs: decs.into_iter().map(|(n, t)| Dec::TypD(Binding { id: s(n), typ: t })).collect(),
        actor: None,
    }
}

#[test]
fn boolean_without_schema() {
    let o = Idl2JsonOptions::default();
    assert_eq!(idl2json(&WireValue::Bool(true), &o), JsonValue::Bool(true));
}

#[test]
fn bytes_default_and_hex() {
    let v = bytes(&[0x0A, 0xFF]);
    let o = Idl2JsonOptions::default();
    assert_eq!(idl2json(&v, &o), JsonValue::Array(vec![JsonValue::Int(10), JsonValue::Int(255)]));
    let hex = Idl2JsonOptions { bytes_as: Some(BytesFormat::Hex), ..Idl2JsonOptions::default() };
    assert_eq!(idl2json(&v, &hex), jstr("0aff"));
}

#[test]
fn hex_digits_two_per_byte() {
    let v = bytes(&[0x00, 0x0f, 0xf0, 0xff, 0x5a]);
    let hex = Idl2JsonOptions { bytes_as: Some(BytesFormat::Hex), ..Idl2JsonOptions::default() };
    assert_eq!(idl2json(&v, &hex), jstr("000ff0ff5a"));
    assert_eq!(idl2json(&bytes(&[]), &hex), jstr(""));
    assert_eq!(nybble2hex(11), "b");
    assert_eq!(nybble2hex(16), "?");
}

#[test]
fn long_bytes_threshold() {
    let o = Idl2JsonOptions { long_bytes_as: Some((3, BytesFormat::Hex)), ..Idl2JsonOptions::default() };
    assert_eq!(idl2json(&bytes(&[1, 2]), &o), JsonValue::Array(vec![JsonValue::Int(1), JsonValue::Int(2)]));
    assert_eq!(idl2json(&bytes(&[1, 2, 3]), &o), jstr("010203"));
}

#[test]
fn non_bytes_are_not_a_blob() {
    let items = vec![WireValue::Nat8(1), WireValue::Nat16(2)];
    let o = Idl2JsonOptions::default();
    assert_eq!(convert_bytes(&items, &o), Err(()));
    assert_eq!(
        idl2json(&WireValue::Vec(items), &o),
        JsonValue::Array(vec![JsonValue::Int(1), JsonValue::Int(2)])
    );
}

#[test]
fn record_without_and_with_schema() {
    let o = Idl2JsonOptions::default();
    let v = WireValue::Record(vec![field(Label::Id(1), text("x"))]);
    assert_eq!(idl2json(&v, &o), JsonValue::Object(vec![(s("1"), jstr("x"))]));
    let unresolved = WireType::RecordT(vec![type_field(Label::Id(2), WireType::PrimT(PrimType::Text))]);
    assert_eq!(idl2json_with_weak_names(&v, &unresolved, &o), JsonValue::Object(vec![(s("1"), jstr("x"))]));

    let named = WireValue::Record(vec![field(Label::Id(idl_hash("name")), text("x"))]);
    let t = WireType::RecordT(vec![type_field(Label::Named(s("name")), WireType::PrimT(PrimType::Text))]);
    assert_eq!(idl2json_with_weak_names(&named, &t, &o), JsonValue::Object(vec![(s("name"), jstr("x"))]));
}

#[test]
fn schema_by_name_through_documents() {
    let person = WireType::RecordT(vec![type_field(Label::Named(s("name")), WireType::PrimT(PrimType::Text))]);
    let o = Idl2JsonOptions {
        prog: vec![doc(vec![("other", WireType::PrimT(PrimType::Nat))]), doc(vec![("person", person)])],
        ..Idl2JsonOptions::default()
    };
    let v = WireValue::Record(vec![field(Label::Id(idl_hash("name")), text("ada"))]);
    let t = WireType::VarT(s("person"));
    assert_eq!(idl2json_with_weak_names(&v, &t, &o), JsonValue::Object(vec![(s("name"), jstr("ada"))]));
}

#[test]
fn cyclic_names_degrade() {
    let o = Idl2JsonOptions {
        prog: vec![doc(vec![("a", WireType::VarT(s("b"))), ("b", WireType::VarT(s("a")))])],
        ..Idl2JsonOptions::default()
    };
    let v = WireValue::Record(vec![field(Label::Id(7), WireValue::Nat16(3))]);
    assert_eq!(idl2json_with_weak_names(&v, &WireType::VarT(s("a")), &o), idl2json(&v, &o));
}

#[test]
fn mismatched_shapes_degrade() {
    let o = Idl2JsonOptions::default();
    let cases = vec![
        (WireValue::Opt(Box::new(WireValue::Bool(false))), WireType::RecordT(vec![])),
        (WireValue::Vec(vec![text("a")]), WireType::OptT(Box::new(WireType::PrimT(PrimType::Text)))),
        (WireValue::Record(vec![field(Label::Id(3), text("z"))]), WireType::VecT(Box::new(WireType::PrimT(PrimType::Nat8)))),
        (
            WireValue::Variant(Box::new(field(Label::Id(9), WireValue::Null))),
            WireType::RecordT(vec![type_field(Label::Id(9), WireType::PrimT(PrimType::Null))]),
        ),
        (WireValue::Nat32(5), WireType::VarT(s("missing"))),
    ];
    for (v, t) in cases {
        assert_eq!(idl2json_with_weak_names(&v, &t, &o), idl2json(&v, &o));
    }
}

#[test]
fn record_keeps_every_field() {
    let v = WireValue::Record(vec![
        field(Label::Id(1), WireValue::Nat8(1)),
        field(Label::Named(s("b")), WireValue::Int8(-2)),
        field(Label::Unnamed(3), WireValue::Null),
    ]);
    let t = WireType::RecordT(vec![type_field(Label::Id(1), WireType::PrimT(PrimType::Text))]);
    let o = Idl2JsonOptions::default();
    for j in [idl2json(&v, &o), idl2json_with_weak_names(&v, &t, &o)] {
        match j {
            JsonValue::Object(members) => assert_eq!(members.len(), 3),
            other => panic!("not an object: {:?}", other),
        }
    }
}

#[test]
fn wide_integers_as_decimal_text() {
    let o = Idl2JsonOptions::default();
    assert_eq!(idl2json(&WireValue::Nat64(u64::MAX), &o), jstr("18446744073709551615"));
    assert_eq!(idl2json(&WireValue::Int64(i64::MIN), &o), jstr("-9223372036854775808"));
    assert_eq!(idl2json(&WireValue::Int64(42), &o), jstr("42"));
    let big = "123456789012345678901234567890";
    assert_eq!(idl2json(&WireValue::Nat(s(big)), &o), jstr(big));
    assert_eq!(idl2json(&WireValue::Int(s("-7")), &o), jstr("-7"));
    assert_eq!(u64_to_decimal(0), "0");
    assert_eq!(i64_to_decimal(-10), "-10");
}

#[test]
fn narrow_integers_as_numbers() {
    let o = Idl2JsonOptions::default();
    assert_eq!(idl2json(&WireValue::Nat32(u32::MAX), &o), JsonValue::Int(4294967295));
    assert_eq!(idl2json(&WireValue::Int32(i32::MIN), &o), JsonValue::Int(-2147483648));
    assert_eq!(idl2json(&WireValue::Int16(-3), &o), JsonValue::Int(-3));
}

#[test]
fn scalars_and_options() {
    let o = Idl2JsonOptions::default();
    assert_eq!(idl2json(&WireValue::Null, &o), JsonValue::Null);
    assert_eq!(idl2json(&WireValue::Absent, &o), JsonValue::Array(vec![]));
    assert_eq!(idl2json(&WireValue::Opt(Box::new(text("y"))), &o), JsonValue::Array(vec![jstr("y")]));
    assert_eq!(idl2json(&WireValue::Number(s("1.50")), &o), jstr("1.50"));
    assert_eq!(idl2json(&WireValue::Float64(None), &o), jstr("NaN"));
    assert_eq!(idl2json(&WireValue::Float32(Some(s("2.5"))), &o), JsonValue::Float(s("2.5")));
    assert_eq!(idl2json(&WireValue::Reserved, &o), jstr("null : reserved"));
}

#[test]
fn references_as_text() {
    let o = Idl2JsonOptions::default();
    let p = Principal::anonymous();
    assert_eq!(idl2json(&WireValue::Principal(p), &o), jstr("2vxsx-fae"));
    assert_eq!(idl2json(&WireValue::Service(p), &o), jstr("2vxsx-fae"));
    assert_eq!(
        idl2json(&WireValue::Func(p, s("greet")), &o),
        JsonValue::Object(vec![(s("principal"), jstr("2vxsx-fae")), (s("code"), jstr("greet"))])
    );
}

#[test]
fn variant_has_one_key() {
    let o = Idl2JsonOptions::default();
    let v = WireValue::Variant(Box::new(field(Label::Id(1234567), WireValue::Bool(true))));
    assert_eq!(idl2json(&v, &o), JsonValue::Object(vec![(s("1_234_567"), JsonValue::Bool(true))]));
    let t = WireType::VariantT(vec![type_field(Label::Id(1234567), WireType::PrimT(PrimType::Bool))]);
    assert_eq!(idl2json_with_weak_names(&v, &t, &o), JsonValue::Object(vec![(s("1_234_567"), JsonValue::Bool(true))]));
    assert_eq!(label_to_string(&Label::Unnamed(999)), "999");
    assert_eq!(label_to_string(&Label::Named(s("ok"))), "ok");
}

#[test]
fn typed_vectors_and_options() {
    let o = Idl2JsonOptions::default();
    let inner = WireType::RecordT(vec![type_field(Label::Named(s("n")), WireType::PrimT(PrimType::Nat16))]);
    let t = WireType::OptT(Box::new(WireType::VecT(Box::new(inner))));
    let v = WireValue::Opt(Box::new(WireValue::Vec(vec![
        WireValue::Record(vec![field(Label::Id(idl_hash("n")), WireValue::Nat16(1))]),
        WireValue::Record(vec![field(Label::Id(idl_hash("n")), WireValue::Nat16(2))]),
    ])));
    assert_eq!(
        idl2json_with_weak_names(&v, &t, &o),
        JsonValue::Array(vec![JsonValue::Array(vec![
            JsonValue::Object(vec![(s("n"), JsonValue::Int(1))]),
            JsonValue::Object(vec![(s("n"), JsonValue::Int(2))]),
        ])])
    );
    let hex = Idl2JsonOptions { bytes_as: Some(BytesFormat::Hex), ..Idl2JsonOptions::default() };
    let blob = WireType::VecT(Box::new(WireType::PrimT(PrimType::Nat8)));
    assert_eq!(idl2json_with_weak_names(&bytes(&[1, 171]), &blob, &hex), jstr("01ab"));
}

#[test]
fn argument_lists() {
    let o = Idl2JsonOptions::default();
    let args = WireArgs { args: vec![WireValue::Bool(false), text("q")] };
    assert_eq!(idl_args2json(&args, &o), JsonValue::Array(vec![JsonValue::Bool(false), jstr("q")]));
}

#[test]
fn schema_lookups_first_match() {
    let first = doc(vec![("t", WireType::PrimT(PrimType::Text)), ("t", WireType::PrimT(PrimType::Nat))]);
    let second = doc(vec![("u", WireType::PrincipalT), ("t", WireType::PrimT(PrimType::Bool))]);
    assert!(matches!(get_type(&first, "t"), Some(WireType::PrimT(PrimType::Text))));
    assert!(matches!(get(&first, "t"), Some(WireType::PrimT(PrimType::Text))));
    assert!(get_type(&first, "u").is_none());
    let progs = vec![first, second];
    assert!(matches!(get_type_from_any(&progs, "u"), Some(WireType::PrincipalT)));
    assert!(matches!(get_type_from_any(&progs, "t"), Some(WireType::PrimT(PrimType::Text))));
    assert!(get_type_from_any(&progs, "v").is_none());
}

#[test]
fn init_args_of_service_constructor() {
    let with_class = SchemaDocument {
        decs: vec![],
        actor: Some(WireType::ClassT(vec![WireType::PrimT(PrimType::Nat)], Box::new(WireType::ServT))),
    };
    assert_eq!(get_init_arg_type(&with_class).map(|a| a.len()), Some(1));
    let plain = SchemaDocument { decs: vec![], actor: Some(WireType::ServT) };
    assert!(get_init_arg_type(&plain).is_none());
}

#[test]
fn label_hash_of_names() {
    assert_eq!(idl_hash(""), 0);
    assert_eq!(idl_hash("a"), 97);
    assert_eq!(Label::Named(s("ab")).get_id(), 97 * 223 + 98);
    assert_eq!(idl_hash("name"), candid::idl_hash("name"));
}

#[test]
fn tuple_of_three_round_trips() {
    let t = to_tuple(vec![s("A"), s("B"), s("C")]).unwrap();
    assert_eq!(t, TupleVariant::Three(s("A"), s("B"), s("C")));
    if let TupleVariant::Three(a, b, c) = t {
        let payload = candid::encode_args((a, b, c)).unwrap();
        let back: (String, String, String) = candid::decode_args(&payload).unwrap();
        assert_eq!(back, (s("A"), s("B"), s("C")));
    } else {
        panic!("not three");
    }
}

#[test]
fn tuple_arity_bounds() {
    let ten: Vec<u8> = (0..10).collect();
    assert_eq!(to_tuple(ten), Ok(TupleVariant::Ten(0, 1, 2, 3, 4, 5, 6, 7, 8, 9)));
    let eleven: Vec<u8> = (0..11).collect();
    assert_eq!(to_tuple(eleven), Err(ArityError::TooManyArguments));
}

#[test]
fn tuple_of_nothing_is_zero() {
    assert_eq!(to_tuple(Vec::<u8>::new()), Ok(TupleVariant::Zero));
    assert_eq!(to_tuple(vec![7u8]), Ok(TupleVariant::One(7)));
}
