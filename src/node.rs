use vstd::prelude::*;
use crate::principal::Principal;

verus! {

/// Header names and values.
pub type Headers = Vec<(String, String)>;

/// A step of a circuit.
#[derive(Debug)]
pub struct Node {
    pub id: u32,
    pub user_id: Principal,
    pub circuit_id: u32,
    pub order: u32,
    pub is_enabled: bool,
    pub is_error: bool,
    pub is_running: bool,
    pub node_type: NodeType,
    /// The node's hooks, at most one of each kind of pin type.
    pub pins: Vec<Pin>,
    pub created_at: u64,
    pub updated_at: u64,
}

impl Node {
    /// The empty node: an unverified canister input of the anonymous principal, with
    /// no pins.
    pub fn default() -> (r: Node)
        ensures
            r.id == 0 && r.circuit_id == 0 && r.order == 0,
            r.user_id@ == seq![4u8],
            !r.is_enabled && !r.is_error && !r.is_running,
            r.node_type matches NodeType::Canister(c) && c.name@.len() == 0 && c.description is None
                && c.sample_data is None && c.verification_type is Unverified,
            r.pins@.len() == 0,
            r.created_at == 0 && r.updated_at == 0,
    {
        Node {
            id: 0,
            user_id: Principal::anonymous(),
            circuit_id: 0,
            order: 0,
            is_enabled: false,
            is_error: false,
            is_running: false,
            node_type: NodeType::Canister(Canister {
                description: None,
                name: String::new(),
                sample_data: None,
                verification_type: VerificationType::Unverified,
            }),
            pins: Vec::new(),
            created_at: 0,
            updated_at: 0,
        }
    }
}

/// What a node does.
#[derive(Debug)]
pub enum NodeType {
    /// An input node fed by a canister.
    Canister(Canister),
    /// An input node fed by an HTTP request.
    HttpRequest(HttpRequest),
    Output(Output),
    /// A lookup of data on another canister.
    LookupCanister(LookupCanister),
    /// A lookup of data at another HTTP endpoint.
    LookupHttpRequest(HttpRequest),
}

#[derive(Clone, Debug)]
pub struct Output {
    pub name: String,
    pub description: Option<String>,
    pub canister: Principal,
    pub method: String,
}

#[derive(Clone, Debug)]
pub struct Transformer {
    pub input: String,
    pub output: String,
}

#[derive(Clone, Debug)]
pub struct Mapper {
    pub input: String,
    pub output: String,
    /// The interface that the fields are read from.
    pub interface: String,
}

#[derive(Debug)]
pub struct LookupCanister {
    pub name: String,
    pub description: Option<String>,
    pub canister: Principal,
    pub method: String,
    pub args: Vec<Arg>,
    pub cycles: u128,
}

#[derive(Clone, Debug)]
pub struct LookupHttpRequest {
    pub name: String,
    pub description: Option<String>,
    pub url: String,
    pub headers: Headers,
}

/// The body of a request that previews a lookup call.
#[allow(non_snake_case)]
#[derive(Debug)]
pub struct ICCPost {
    pub canisterId: String,
    pub methodName: String,
    pub args: Vec<Arg>,
}

/// An argument of a lookup call.
#[derive(Debug)]
pub enum Arg {
    String(String),
    Number(u32),
    Principal(Principal),
    BigInt(u64),
    Boolean(bool),
    Array(Vec<Arg>),
    /// Named members, in order.
    Object(Vec<(String, Arg)>),
    Field(String),
}

#[derive(Clone, Debug)]
pub struct HttpRequest {
    pub name: String,
    pub description: Option<String>,
    pub url: String,
    pub method: HttpRequestMethod,
    pub headers: Headers,
    pub request_body: Option<String>,
}

#[derive(Clone, Copy, Debug, PartialEq, Eq, Structural)]
pub enum HttpRequestMethod {
    GET,
    POST,
}

#[derive(Clone, Debug)]
pub struct Canister {
    pub name: String,
    pub verification_type: VerificationType,
    pub description: Option<String>,
    pub sample_data: Option<String>,
}

/// How a canister input node checks who feeds it.
#[derive(Clone, Debug)]
pub enum VerificationType {
    Unverified,
    Token(Token),
    Whitelist(Vec<Principal>),
}

#[derive(Clone, Debug)]
pub struct Token {
    pub token: String,
    pub field: String,
}

/// A hook of a node.
#[derive(Clone, Debug)]
pub struct Pin {
    pub pin_type: PinType,
    pub order: u32,
}

#[derive(Clone, Debug)]
pub enum PinType {
    /// Logic applied to the node's data before the node runs.
    PrePin(CustomPinLogic),
    /// Logic applied to the node's data after the node ran.
    PostPin(CustomPinLogic),
    /// Maps the node's data to another shape.
    MapperPin(Mapper),
    /// Keeps the node from running unless its rules hold.
    FilterPin(FilterPin),
    /// Transforms the node's data after a lookup.
    LookupTransformPin(LookupTransformPin),
}

#[derive(Clone, Debug)]
pub struct CustomPinLogic {
    pub function: Option<String>,
    pub script: Option<String>,
}

#[derive(Clone, Debug)]
pub struct FilterPin {
    pub rules: Vec<Rule>,
    pub condition: Condition,
    pub condition_group: Option<ConditionGroup>,
}

#[derive(Clone, Debug)]
pub struct Rule {
    pub field: String,
    pub operator: Operator,
    pub value: String,
    pub operand: Operand,
}

#[derive(Clone, Copy, Debug, PartialEq, Eq, Structural)]
pub enum Condition {
    Not,
    Is,
}

#[derive(Clone, Copy, Debug, PartialEq, Eq, Structural)]
pub enum ConditionGroup {
    And,
    Or,
}

#[derive(Clone, Copy, Debug, PartialEq, Eq, Structural)]
pub enum Operator {
    Equal,
    NotEqual,
    GreaterThan,
    LessThan,
    GreaterThanOrEqual,
    LessThanOrEqual,
    Contains,
}

#[derive(Clone, Copy, Debug, PartialEq, Eq, Structural)]
pub struct Operand {
    pub operand_type: OperandType,
    pub data_type: DataType,
}

#[derive(Clone, Copy, Debug, PartialEq, Eq, Structural)]
pub enum OperandType {
    Value,
    Field,
}

#[derive(Clone, Copy, Debug, PartialEq, Eq, Structural)]
pub enum DataType {
    String,
    Number,
    Principal,
    BigInt,
    Boolean,
}

#[derive(Clone, Debug)]
pub struct LookupTransformPin {
    pub input: String,
    pub output: String,
}

/// Whether two optional texts are equal.
pub open spec fn same_opt_text(a: Option<String>, b: Option<String>) -> bool {
    match (a, b) {
        (Some(x), Some(y)) => x@ == y@,
        (None, None) => true,
        _ => false,
    }
}

/// Whether two rules are equal, field by field.
pub open spec fn same_rule(a: Rule, b: Rule) -> bool {
    a.field@ == b.field@ && a.operator == b.operator && a.value@ == b.value@ && a.operand == b.operand
}

/// Whether two pin types are equal, field by field.
pub open spec fn same_pin_type(a: PinType, b: PinType) -> bool {
    match (a, b) {
        (PinType::PrePin(x), PinType::PrePin(y)) => same_opt_text(x.function, y.function) && same_opt_text(x.script, y.script),
        (PinType::PostPin(x), PinType::PostPin(y)) => same_opt_text(x.function, y.function) && same_opt_text(x.script, y.script),
        (PinType::MapperPin(x), PinType::MapperPin(y)) => x.input@ == y.input@ && x.output@ == y.output@ && x.interface@ == y.interface@,
        (PinType::FilterPin(x), PinType::FilterPin(y)) => x.rules@.len() == y.rules@.len()
            && (forall|i: int| 0 <= i < x.rules@.len() ==> same_rule(#[trigger] x.rules@[i], y.rules@[i]))
            && x.condition == y.condition && x.condition_group == y.condition_group,
        (PinType::LookupTransformPin(x), PinType::LookupTransformPin(y)) => x.input@ == y.input@ && x.output@ == y.output@,
        _ => false,
    }
}

/// Whether two pin types are of the same kind.
pub open spec fn same_pin_kind(a: PinType, b: PinType) -> bool {
    match (a, b) {
        (PinType::PrePin(_), PinType::PrePin(_)) => true,
        (PinType::PostPin(_), PinType::PostPin(_)) => true,
        (PinType::MapperPin(_), PinType::MapperPin(_)) => true,
        (PinType::FilterPin(_), PinType::FilterPin(_)) => true,
        (PinType::LookupTransformPin(_), PinType::LookupTransformPin(_)) => true,
        _ => false,
    }
}

fn opt_text_eq(a: &Option<String>, b: &Option<String>) -> (r: bool)
    ensures
        r == same_opt_text(*a, *b),
{
    match (a, b) {
        (Some(x), Some(y)) => *x == *y,
        (None, None) => true,
        _ => false,
    }
}

fn rules_eq(a: &Vec<Rule>, b: &Vec<Rule>) -> (r: bool)
    ensures
        r == (a@.len() == b@.len() && forall|i: int| 0 <= i < a@.len() ==> same_rule(#[trigger] a@[i], b@[i])),
{
    if a.len() != b.len() {
        return false;
    }
    let n = a.len();
    let mut i: usize = 0;
    while i < n
        invariant
            n == a@.len() == b@.len(),
            i <= n,
            forall|j: int| 0 <= j < i ==> same_rule(#[trigger] a@[j], b@[j]),
        decreases n - i,
    {
        let x = &a[i];
        let y = &b[i];
        if !(x.field == y.field && x.operator == y.operator && x.value == y.value && x.operand == y.operand) {
            return false;
        }
        i = i + 1;
    }
    true
}

/// Whether two pin types are equal, field by field.
pub fn pin_type_eq(a: &PinType, b: &PinType) -> (r: bool)
    ensures
        r == same_pin_type(*a, *b),
{
    match (a, b) {
        (PinType::PrePin(x), PinType::PrePin(y)) => opt_text_eq(&x.function, &y.function) && opt_text_eq(&x.script, &y.script),
        (PinType::PostPin(x), PinType::PostPin(y)) => opt_text_eq(&x.function, &y.function) && opt_text_eq(&x.script, &y.script),
        (PinType::MapperPin(x), PinType::MapperPin(y)) => x.input == y.input && x.output == y.output && x.interface == y.interface,
        (PinType::FilterPin(x), PinType::FilterPin(y)) => rules_eq(&x.rules, &y.rules) && x.condition == y.condition
            && x.condition_group == y.condition_group,
        (PinType::LookupTransformPin(x), PinType::LookupTransformPin(y)) => x.input == y.input && x.output == y.output,
        _ => false,
    }
}

/// Whether two pin types are of the same kind.
pub fn pin_kind_eq(a: &PinType, b: &PinType) -> (r: bool)
    ensures
        r == same_pin_kind(*a, *b),
{
    match (a, b) {
        (PinType::PrePin(_), PinType::PrePin(_)) => true,
        (PinType::PostPin(_), PinType::PostPin(_)) => true,
        (PinType::MapperPin(_), PinType::MapperPin(_)) => true,
        (PinType::FilterPin(_), PinType::FilterPin(_)) => true,
        (PinType::LookupTransformPin(_), PinType::LookupTransformPin(_)) => true,
        _ => false,
    }
}

} // verus!
