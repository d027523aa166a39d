use vstd::prelude::*;
use crate::keyed::{entry_refs, lemma_values_where_all, lemma_values_where_step, values_where};
use crate::principal::{principal_text, Principal};

verus! {

/// The key of a stored trace: its id, circuit, node and owner's principal text.
#[derive(Clone, Debug)]
pub struct TraceKey {
    pub id: u32,
    pub circuit_id: u32,
    pub node_id: u32,
    pub owner: String,
}

/// The record of one run of a node.
#[derive(Clone, Debug)]
pub struct Trace {
    pub id: u32,
    pub user_id: Principal,
    pub node_id: u32,
    pub circuit_id: u32,
    pub status: TraceStatus,
    pub errors: Vec<TraceError>,
    /// JSON text.
    pub data: String,
    pub duration: u32,
    pub started_at: u64,
    pub completed_at: u64,
    pub created_at: u64,
    pub updated_at: u64,
}

/// How a run ended, or that it goes on.
#[derive(Clone, Copy, Debug, PartialEq, Eq, Structural)]
pub enum TraceStatus {
    Success,
    Failed,
    Cancelled,
    InProgress,
}

/// An error that a run met.
#[derive(Clone, Debug)]
pub struct TraceError {
    pub code: String,
    pub message: String,
    pub source: String,
    pub resolved_at: Option<u64>,
    pub created_at: u64,
    pub updated_at: u64,
}

/// Whether a trace key is of the given circuit and owner.
pub open spec fn trace_of(circuit_id: u32, owner: Seq<char>) -> spec_fn(TraceKey) -> bool {
    |k: TraceKey| k.circuit_id == circuit_id && k.owner@ == owner
}

/// The traces, keyed by id, circuit, node and owner.
pub struct TracesStore {
    pub traces: Vec<(TraceKey, Trace)>,
}

impl TracesStore {
    /// An empty store.
    pub fn new() -> (r: TracesStore)
        ensures
            r.traces@.len() == 0,
    {
        TracesStore { traces: Vec::new() }
    }

    /// The traces of the caller's circuit, in the store's order.
    pub fn get_circuit_traces(&self, circuit_id: u32, caller_principal: &Principal) -> (r: Vec<&Trace>)
        ensures
            r@ == values_where(entry_refs(&self.traces), trace_of(circuit_id, principal_text(caller_principal@))),
    {
        let owner = caller_principal.to_text();
        let ghost p = trace_of(circuit_id, owner@);
        let n = self.traces.len();
        let mut r: Vec<&Trace> = Vec::new();
        let mut i: usize = 0;
        proof { lemma_values_where_all(&self.traces, p); }
        while i < n
            invariant
                n == self.traces@.len(),
                i <= n,
                p == trace_of(circuit_id, owner@),
                r@ == values_where(entry_refs(&self.traces).subrange(0, i as int), p),
            decreases n - i,
        {
            proof { lemma_values_where_step(&self.traces, i as int, p); }
            if self.traces[i].0.circuit_id == circuit_id && self.traces[i].0.owner == owner {
                r.push(&self.traces[i].1);
            }
            i = i + 1;
        }
        r
    }
}

} // verus!
