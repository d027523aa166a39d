use vstd::prelude::*;
use crate::principal::Principal;
use vstd::utf8::encode_utf8;
use vstd::string::StringSliceAdditionalSpecFns;

verus! {

/// The id of a record or variant field: a number, or a name that is hashed to one.
pub enum Label {
    Id(u32),
    Named(String),
    Unnamed(u32),
}

/// One field of a record or the selected field of a variant.
pub struct WireField {
    pub id: Label,
    pub val: WireValue,
}

/// A decoded Candid value.
///
/// Floating-point values are held as the decimal text of a finite value, or
/// `None` for NaN and the infinities. Arbitrary-precision integers are held
/// as their decimal text.
pub enum WireValue {
    Bool(bool),
    Null,
    Text(String),
    /// A numeric literal of no declared type, verbatim.
    Number(String),
    Float64(Option<String>),
    Opt(Box<WireValue>),
    Vec(Vec<WireValue>),
    Record(Vec<WireField>),
    Variant(Box<WireField>),
    Principal(Principal),
    Service(Principal),
    Func(Principal, String),
    /// The absent optional value.
    Absent,
    Int(String),
    Nat(String),
    Nat8(u8),
    Nat16(u16),
    Nat32(u32),
    Nat64(u64),
    Int8(i8),
    Int16(i16),
    Int32(i32),
    Int64(i64),
    Float32(Option<String>),
    Reserved,
}

/// The argument list of a call or a reply: zero or more values.
pub struct WireArgs {
    pub args: Vec<WireValue>,
}

/// The primitive Candid types.
#[derive(Clone, Copy, PartialEq, Eq, Structural)]
pub enum PrimType {
    Nat,
    Nat8,
    Nat16,
    Nat32,
    Nat64,
    Int,
    Int8,
    Int16,
    Int32,
    Int64,
    Float32,
    Float64,
    Bool,
    Text,
    Null,
    Reserved,
    Empty,
}

/// A Candid type, as written in a type declaration document.
pub enum WireType {
    PrimT(PrimType),
    /// A reference to a named declaration.
    VarT(String),
    FuncT,
    OptT(Box<WireType>),
    VecT(Box<WireType>),
    RecordT(Vec<TypeField>),
    VariantT(Vec<TypeField>),
    ServT,
    /// A service constructor: its init arguments and the service type.
    ClassT(Vec<WireType>, Box<WireType>),
    PrincipalT,
}

/// A labelled field of a record or variant type.
pub struct TypeField {
    pub label: Label,
    pub typ: WireType,
}

/// A named type declaration.
pub struct Binding {
    pub id: String,
    pub typ: WireType,
}

/// A declaration of a type declaration document.
pub enum Dec {
    TypD(Binding),
    ImportD(String),
}

/// A parsed type declaration document: its declarations and its service, if any.
pub struct SchemaDocument {
    pub decs: Vec<Dec>,
    pub actor: Option<WireType>,
}

/// Candid's field-name hash over UTF-8 bytes: `h = h * 223 + b`, wrapping.
pub open spec fn idl_hash_bytes(b: Seq<u8>) -> u32
    decreases b.len(),
{
    if b.len() == 0 {
        0
    } else {
        idl_hash_bytes(b.drop_last()).wrapping_mul(223).wrapping_add(b.last() as u32)
    }
}

/// The numeric id of a label.
pub open spec fn label_id(l: Label) -> u32 {
    match l {
        Label::Id(n) => n,
        Label::Named(s) => idl_hash_bytes(encode_utf8(s@)),
        Label::Unnamed(n) => n,
    }
}

/// Candid's field-name hash.
pub fn idl_hash(s: &str) -> (r: u32)
    ensures
        r == idl_hash_bytes(encode_utf8(s@)),
{
    let b = s.as_bytes();
    let mut h: u32 = 0;
    let mut i: usize = 0;
    while i < b.len()
        invariant
            i <= b@.len(),
            b@ == s.spec_bytes(),
            h == idl_hash_bytes(b@.subrange(0, i as int)),
        decreases b@.len() - i,
    {
        proof {
            assert(b@.subrange(0, i + 1).drop_last() =~= b@.subrange(0, i as int));
        }
        h = h.wrapping_mul(223).wrapping_add(b[i] as u32);
        i = i + 1;
    }
    assert(b@.subrange(0, i as int) =~= b@);
    h
}

impl Label {
    /// The numeric id of the label.
    pub fn get_id(&self) -> (r: u32)
        ensures
            r == label_id(*self),
    {
        match self {
            Label::Id(n) => *n,
            Label::Named(s) => idl_hash(s.as_str()),
            Label::Unnamed(n) => *n,
        }
    }
}

} // verus!
