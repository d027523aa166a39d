use circuitz::api_error::ApiError;
use circuitz::circuit::{Circuit, CircuitsStore, PostCircuit};
use circuitz::connector::{
    Authentication, ConnectorKey, ConnectorType, ConnectorsStore, HttpConnector, PostConnector,
};
use circuitz::node::{
    Canister, Condition, CustomPinLogic, FilterPin, LookupTransformPin, Mapper, NodeType, Pin, PinType,
    VerificationType,
};
use circuitz::json::JsonValue;
use circuitz::lookup::lookup_request_body;
use circuitz::node::{Arg, LookupCanister};
use circuitz::nodes_store::NodesStore;
use circuitz::principal::Principal;
use circuitz::trace::{Trace, TraceKey, TraceStatus, TracesStore};
use circuitz::user::{User, UsersStore};
use circuitz::validate::{validate_admin, validate_anonymous};

fn s(x: &str) -> String {
    x.to_string()
}

fn alice() -> Principal {
    Principal::try_from_slice(&[1, 2, 3]).unwrap()
}

fn bob() -> Principal {
    Principal::try_from_slice(&[9]).unwrap()
}

fn post(name: &str) -> PostCircuit {
    PostCircuit { name: s(name), description: None }
}

fn canister_node() -> NodeType {
    NodeType::Canister(Canister {
        name: s("input"),
        verification_type: VerificationType::Unverified,
        description: None,
        sample_data: None,
    })
}

fn logic_pin(script: &str) -> Pin {
    Pin { pin_type: PinType::PrePin(CustomPinLogic { function: None, script: Some(s(script)) }), order: 0 }
}

#[test]
fn principal_text_forms() {
    assert_eq!(Principal::anonymous().to_text(), "2vxsx-fae");
    let p = Principal::from_text("2vxsx-fae").unwrap();
    assert_eq!(p.as_slice(), vec![4]);
    assert!(Principal::from_text("not a principal").is_none());
    assert!(Principal::try_from_slice(&[0u8; 30]).is_none());
    let a = alice();
    assert!(Principal::from_text(&a.to_text()).unwrap().same_as(&a));
}

#[test]
fn anonymous_is_refused() {
    assert!(matches!(validate_anonymous(&Principal::anonymous()), Err(ApiError::Unauthorized(m)) if m == "UNAUTHORIZED"));
    assert!(validate_anonymous(&alice()).unwrap().same_as(&alice()));
}

#[test]
fn admin_whitelist() {
    let list = vec![bob(), alice()];
    assert!(validate_admin(&alice(), &list).is_ok());
    assert!(matches!(validate_admin(&Principal::anonymous(), &list), Err(ApiError::Unauthorized(_))));
}

#[test]
fn default_circuit_and_user() {
    let c = Circuit::default();
    assert_eq!(c.id, 0);
    assert_eq!(c.user_id.to_text(), "2vxsx-fae");
    assert!(c.name.is_empty() && !c.is_enabled && c.run_at.is_none());
    let u = User::default();
    assert!(u.circuits.is_empty() && u.username.is_none());
}

#[test]
fn circuits_by_owner() {
    let mut store = CircuitsStore::new();
    assert_eq!(store.add_circuit(post("one"), &alice(), 10).id, 1);
    assert_eq!(store.add_circuit(post("two"), &bob(), 11).id, 2);
    let third = store.add_circuit(post("three"), &alice(), 12);
    assert_eq!(third.id, 3);
    assert_eq!(third.created_at, 12);
    assert_eq!(store.get_circuits().len(), 3);
    let mine: Vec<u32> = store.get_user_circuits(&alice()).iter().map(|c| c.id).collect();
    assert_eq!(mine, vec![1, 3]);
    assert_eq!(store.get_circuit(2, &bob()).unwrap().name, "two");
    assert!(matches!(store.get_circuit(2, &alice()), Err(ApiError::NotFound(m)) if m == "NOT FOUND"));
    assert_eq!(store.get_node_canister_id(1, &alice()).unwrap().to_text(), "2vxsx-fae");
    assert!(store.get_node_canister_id(9, &alice()).is_err());
}

#[test]
fn circuits_edit_and_toggle() {
    let mut store = CircuitsStore::new();
    store.add_circuit(post("one"), &alice(), 10);
    let edited = store
        .edit_circuit(1, PostCircuit { name: s("renamed"), description: Some(s("d")) }, &alice(), 20)
        .unwrap();
    assert_eq!(edited.name, "renamed");
    assert_eq!(edited.updated_at, 20);
    assert_eq!(edited.created_at, 10);
    assert!(store.edit_circuit(1, post("x"), &bob(), 21).is_err());
    assert!(store.toggle_circuit(1, true, &alice(), 30).unwrap().is_enabled);
    assert!(store.toggle_circuit(2, true, &alice(), 30).is_err());
}

#[test]
fn users_create_once() {
    let mut store = UsersStore::new();
    assert!(matches!(store.get_user(&alice()), Err(ApiError::NotFound(m)) if m == "USER_NOT_FOUND"));
    assert_eq!(store.create_user(&alice(), Some(s("al")), 5).unwrap().created_at, 5);
    assert!(matches!(store.create_user(&alice(), None, 6), Err(ApiError::AlreadyExists(m)) if m == "USER_EXISTS"));
    store.create_user(&bob(), None, 7).unwrap();
    assert_eq!(store.get_users().len(), 2);
    assert_eq!(store.get_user(&alice()).unwrap().username, Some(s("al")));
}

fn trace(id: u32, circuit_id: u32) -> Trace {
    Trace {
        id,
        user_id: alice(),
        node_id: 1,
        circuit_id,
        status: TraceStatus::Success,
        errors: vec![],
        data: s("{}"),
        duration: 0,
        started_at: 0,
        completed_at: 0,
        created_at: 0,
        updated_at: 0,
    }
}

#[test]
fn traces_of_a_circuit() {
    let mut store = TracesStore::new();
    let owner = alice().to_text();
    for (id, circuit_id, who) in [(1, 1, owner.clone()), (2, 2, owner.clone()), (3, 1, bob().to_text()), (4, 1, owner.clone())] {
        store.traces.push((TraceKey { id, circuit_id, node_id: 1, owner: who }, trace(id, circuit_id)));
    }
    let ids: Vec<u32> = store.get_circuit_traces(1, &alice()).iter().map(|t| t.id).collect();
    assert_eq!(ids, vec![1, 4]);
}

fn http() -> ConnectorType {
    ConnectorType::Http(HttpConnector {
        base_url: s("https://example.org"),
        headers: vec![],
        authentication: Authentication::Unauthenticated,
        test_connection: None,
    })
}

#[test]
fn connectors_by_owner() {
    let mut store = ConnectorsStore::new();
    store.add_connector(PostConnector { name: s("a"), connector_type: http() }, &alice(), 1);
    store.add_connector(PostConnector { name: s("b"), connector_type: ConnectorType::Canister(s("aaaaa-aa")) }, &bob(), 2);
    let mine = store.get_user_connectors(&alice());
    assert_eq!(mine.len(), 1);
    assert_eq!(mine[0].name, "a");
    let edited = store
        .edit_connector(2, PostConnector { name: s("c"), connector_type: http() }, &bob(), 3)
        .unwrap();
    assert_eq!(edited.name, "c");
    assert!(store.edit_connector(2, PostConnector { name: s("d"), connector_type: http() }, &alice(), 4).is_err());
    let _key = ConnectorKey { id: 1, owner: alice().to_text() };
}

#[test]
fn nodes_lifecycle() {
    let mut store = NodesStore::new();
    let a = alice();
    assert_eq!(store.add_node(1, canister_node(), &a, 5).id, 1);
    assert_eq!(store.add_node(2, canister_node(), &a, 6).id, 2);
    assert_eq!(store.get_circuit_nodes(1, &a).len(), 1);
    assert_eq!(store.edit_order(2, 9, &a, 7).unwrap().order, 9);
    assert!(!store.toggle_node(2, false, &a, 8).unwrap().is_enabled);
    assert!(matches!(store.get_circuit_node(3, &a), Err(ApiError::NotFound(m)) if m == "NOT FOUND"));
    let removed = store.delete_node(1, &a).unwrap();
    assert_eq!(removed.id, 1);
    assert!(store.get_circuit_node(1, &a).is_err());
    // the next id is one more than the count, and replaces the node that holds it
    let replaced = store.add_node(3, canister_node(), &a, 9);
    assert_eq!(replaced.id, 2);
    assert_eq!(replaced.circuit_id, 3);
    assert_eq!(store.nodes.len(), 1);
    assert!(store.edit_node(2, canister_node(), &a, 10).is_ok());
}

#[test]
fn pins_of_a_node() {
    let mut store = NodesStore::new();
    let a = alice();
    store.add_node(1, canister_node(), &a, 5);
    assert_eq!(store.add_pin(1, logic_pin("x"), &a).unwrap().pins.len(), 1);
    assert!(matches!(store.add_pin(1, logic_pin("x"), &a), Err(ApiError::NotFound(m)) if m == "ALREADY EXISTS"));
    assert_eq!(store.add_pin(1, logic_pin("y"), &a).unwrap().pins.len(), 2);
    let mapper = Pin {
        pin_type: PinType::MapperPin(Mapper { input: s("i"), output: s("o"), interface: s("f") }),
        order: 1,
    };
    assert!(matches!(store.edit_pin(1, mapper, &a), Err(ApiError::NotFound(m)) if m == "NODE INDEX NOT FOUND"));
    let node = store.edit_pin(1, logic_pin("z"), &a).unwrap();
    match &node.pins[0].pin_type {
        PinType::PrePin(l) => assert_eq!(l.script, Some(s("z"))),
        _ => panic!("wrong pin"),
    }
    assert_eq!(store.delete_pin(1, logic_pin("any"), &a).unwrap().pins.len(), 1);
    let filter = Pin {
        pin_type: PinType::FilterPin(FilterPin { rules: vec![], condition: Condition::Is, condition_group: None }),
        order: 2,
    };
    assert!(store.add_pin(1, filter, &a).is_ok());
    let transform = Pin { pin_type: PinType::LookupTransformPin(LookupTransformPin { input: s("a"), output: s("b") }), order: 3 };
    assert!(store.add_pin(9, transform, &a).is_err());
}

#[test]
fn lookup_request_body_fields() {
    let data = LookupCanister {
        name: s("n"),
        description: None,
        canister: Principal::anonymous(),
        method: s("get"),
        args: vec![
            Arg::BigInt(u64::MAX),
            Arg::Array(vec![Arg::Boolean(true)]),
            Arg::Object(vec![(s("k"), Arg::Field(s("f")))]),
        ],
        cycles: 0,
    };
    let tag = |k: &str, v: JsonValue| JsonValue::Object(vec![(s(k), v)]);
    assert_eq!(
        lookup_request_body(&data),
        JsonValue::Object(vec![
            (s("canisterId"), JsonValue::Str(s("2vxsx-fae"))),
            (s("methodName"), JsonValue::Str(s("get"))),
            (
                s("args"),
                JsonValue::Array(vec![
                    tag("BigInt", JsonValue::Int(18446744073709551615)),
                    tag("Array", JsonValue::Array(vec![tag("Boolean", JsonValue::Bool(true))])),
                    tag("Object", JsonValue::Object(vec![(s("k"), tag("Field", JsonValue::Str(s("f"))))])),
                ])
            ),
        ])
    );
}

#[test]
fn transformed_response_headers() {
    let h = circuitz::lookup::transform_headers();
    assert_eq!(h.len(), 6);
    assert_eq!(h[0], (s("Content-Security-Policy"), s("default-src 'self'")));
    assert_eq!(h[4], (s("X-Frame-Options"), s("DENY")));
}

#[test]
fn default_node_and_connector() {
    let n = circuitz::node::Node::default();
    assert!(n.pins.is_empty());
    assert!(matches!(n.node_type, NodeType::Canister(ref c) if c.name.is_empty()));
    let c = circuitz::connector::Connector::default();
    assert!(matches!(c.connector_type, ConnectorType::Http(ref h) if h.base_url.is_empty()));
    assert_eq!(c.user_id.to_text(), "2vxsx-fae");
}

#[test]
fn idempotency_key_from_random_bytes() {
    assert_eq!(circuitz::lookup::idempotency_key(&[0xde, 0xad, 0x01]), "UUID-dead01");
    assert_eq!(circuitz::lookup::idempotency_key(&[]), "UUID-");
    assert_eq!(circuitz::text::bytes_to_hex(&[0, 255]), "00ff");
}
