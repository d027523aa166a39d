//! Circuit workflow data: a projector from decoded Candid values to JSON,
//! the byte-blob formatter it uses, a fixed-arity argument adapter, a
//! schema store, and the owner-scoped stores of circuits, nodes, traces,
//! users and connectors, and the bodies of lookup requests.
pub mod arity;
pub mod conversion;
pub mod idl_prog;
pub mod json;
pub mod principal;
pub mod text;
pub mod wire;
pub mod api_error;
pub mod keyed;
pub mod circuit;
pub mod user;
pub mod validate;
pub mod trace;
pub mod node;
pub mod nodes_store;
pub mod connector;
pub mod notify;
pub mod lookup;
