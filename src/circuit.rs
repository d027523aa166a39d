use vstd::prelude::*;
use crate::api_error::{not_found, ApiError};
use crate::keyed::{entry_refs, lemma_values_where_all, lemma_values_where_step, values_where};
use crate::principal::{principal_text, Principal};

verus! {

/// The key of a stored circuit: its id and its owner's principal text.
#[derive(Clone, Debug)]
pub struct CircuitKey {
    pub id: u32,
    pub owner: String,
}

/// A circuit: a named workflow of nodes that a user owns.
#[derive(Clone, Debug)]
pub struct Circuit {
    pub id: u32,
    pub user_id: Principal,
    pub node_canister_id: Principal,
    pub name: String,
    pub description: Option<String>,
    pub is_favorite: bool,
    pub is_enabled: bool,
    pub is_running: bool,
    pub run_at: Option<u64>,
    pub created_at: u64,
    pub updated_at: u64,
}

/// What a user sends to create or edit a circuit.
#[derive(Clone, Debug)]
pub struct PostCircuit {
    pub name: String,
    pub description: Option<String>,
}

impl Circuit {
    /// The empty circuit, owned by and running on the anonymous principal.
    pub fn default() -> (r: Circuit)
        ensures
            r.id == 0,
            r.user_id@ == seq![4u8],
            r.node_canister_id@ == seq![4u8],
            r.name@.len() == 0,
            r.description is None,
            !r.is_favorite && !r.is_enabled && !r.is_running,
            r.run_at is None,
            r.created_at == 0 && r.updated_at == 0,
    {
        Circuit {
            id: 0,
            user_id: Principal::anonymous(),
            node_canister_id: Principal::anonymous(),
            name: String::new(),
            description: None,
            is_favorite: false,
            is_enabled: false,
            is_running: false,
            run_at: None,
            created_at: 0,
            updated_at: 0,
        }
    }
}

/// Whether a circuit key belongs to the owner with the given principal text.
pub open spec fn circuit_owned_by(owner: Seq<char>) -> spec_fn(CircuitKey) -> bool {
    |k: CircuitKey| k.owner@ == owner
}

/// Every circuit key.
pub open spec fn any_circuit() -> spec_fn(CircuitKey) -> bool {
    |k: CircuitKey| true
}

/// Whether a circuit key has the given id and owner.
pub open spec fn circuit_key_is(k: CircuitKey, id: u32, owner: Seq<char>) -> bool {
    k.id == id && k.owner@ == owner
}

/// The circuits, keyed by id and owner, in the order of their ids.
pub struct CircuitsStore {
    pub circuits: Vec<(CircuitKey, Circuit)>,
}

impl CircuitsStore {
    /// Ids increase strictly along the entries, so no two entries share a key.
    pub open spec fn wf(&self) -> bool {
        forall|i: int, j: int|
            0 <= i < j < self.circuits@.len() ==> #[trigger] self.circuits@[i].0.id < #[trigger] self.circuits@[j].0.id
    }

    /// Whether entry `i` is the circuit with the given id and owner.
    pub open spec fn holds_at(&self, i: int, id: u32, owner: Seq<char>) -> bool {
        0 <= i < self.circuits@.len() && circuit_key_is(self.circuits@[i].0, id, owner)
    }

    /// Whether the store holds the circuit with the given id and owner.
    pub open spec fn holds(&self, id: u32, owner: Seq<char>) -> bool {
        exists|i: int| self.holds_at(i, id, owner)
    }

    /// The id that the next added circuit gets: one more than the largest.
    pub open spec fn next_id(&self) -> int {
        if self.circuits@.len() == 0 {
            1
        } else {
            self.circuits@.last().0.id + 1
        }
    }

    /// An empty store.
    pub fn new() -> (r: CircuitsStore)
        ensures
            r.wf(),
            r.circuits@.len() == 0,
    {
        CircuitsStore { circuits: Vec::new() }
    }

    fn find(&self, circuit_id: u32, owner: &String) -> (r: Option<usize>)
        requires
            self.wf(),
        ensures
            r is Some <==> self.holds(circuit_id, owner@),
            r matches Some(i) ==> self.holds_at(i as int, circuit_id, owner@),
    {
        let n = self.circuits.len();
        let mut i: usize = 0;
        while i < n
            invariant
                n == self.circuits@.len(),
                i <= n,
                forall|j: int| 0 <= j < i ==> !#[trigger] self.holds_at(j, circuit_id, owner@),
            decreases n - i,
        {
            if self.circuits[i].0.id == circuit_id && self.circuits[i].0.owner == *owner {
                assert(self.holds_at(i as int, circuit_id, owner@));
                return Some(i);
            }
            i = i + 1;
        }
        None
    }

    /// All circuits, in the order of their ids.
    pub fn get_circuits(&self) -> (r: Vec<&Circuit>)
        ensures
            r@ == values_where(entry_refs(&self.circuits), any_circuit()),
    {
        let ghost p = any_circuit();
        let n = self.circuits.len();
        let mut r: Vec<&Circuit> = Vec::new();
        let mut i: usize = 0;
        proof { lemma_values_where_all(&self.circuits, p); }
        while i < n
            invariant
                n == self.circuits@.len(),
                i <= n,
                p == any_circuit(),
                r@ == values_where(entry_refs(&self.circuits).subrange(0, i as int), p),
            decreases n - i,
        {
            proof {
                lemma_values_where_step(&self.circuits, i as int, p);
                assert(p(self.circuits@[i as int].0));
            }
            r.push(&self.circuits[i].1);
            i = i + 1;
        }
        r
    }

    /// The caller's circuit with the given id.
    pub fn get_circuit(&self, circuit_id: u32, caller_principal: &Principal) -> (r: Result<&Circuit, ApiError>)
        requires
            self.wf(),
        ensures
            r is Ok <==> self.holds(circuit_id, principal_text(caller_principal@)),
            r matches Ok(c) ==> exists|i: int|
                self.holds_at(i, circuit_id, principal_text(caller_principal@)) && c == &self.circuits@[i].1,
            r matches Err(e) ==> e matches ApiError::NotFound(m) && m@ == "NOT FOUND"@,
    {
        let owner = caller_principal.to_text();
        match self.find(circuit_id, &owner) {
            Some(i) => Ok(&self.circuits[i].1),
            None => Err(not_found("NOT FOUND")),
        }
    }

    /// The caller's circuits, in the order of their ids.
    pub fn get_user_circuits(&self, caller_principal: &Principal) -> (r: Vec<&Circuit>)
        ensures
            r@ == values_where(entry_refs(&self.circuits), circuit_owned_by(principal_text(caller_principal@))),
    {
        let owner = caller_principal.to_text();
        let ghost p = circuit_owned_by(owner@);
        let n = self.circuits.len();
        let mut r: Vec<&Circuit> = Vec::new();
        let mut i: usize = 0;
        proof { lemma_values_where_all(&self.circuits, p); }
        while i < n
            invariant
                n == self.circuits@.len(),
                i <= n,
                p == circuit_owned_by(owner@),
                r@ == values_where(entry_refs(&self.circuits).subrange(0, i as int), p),
            decreases n - i,
        {
            proof { lemma_values_where_step(&self.circuits, i as int, p); }
            if self.circuits[i].0.owner == owner {
                r.push(&self.circuits[i].1);
            }
            i = i + 1;
        }
        r
    }

    /// The principal of the canister that runs the nodes of the caller's circuit.
    pub fn get_node_canister_id(&self, circuit_id: u32, caller_principal: &Principal) -> (r: Result<Principal, ApiError>)
        requires
            self.wf(),
        ensures
            r is Ok <==> self.holds(circuit_id, principal_text(caller_principal@)),
            r matches Ok(p) ==> exists|i: int|
                self.holds_at(i, circuit_id, principal_text(caller_principal@)) && p == self.circuits@[i].1.node_canister_id,
            r matches Err(e) ==> e matches ApiError::NotFound(m) && m@ == "NOT FOUND"@,
    {
        let circuit = self.get_circuit(circuit_id, caller_principal)?;
        Ok(circuit.node_canister_id)
    }

    /// Adds a circuit for the caller, with the next id, created and updated `now`.
    /// It starts disabled, not running and not a favorite, on the anonymous canister.
    pub fn add_circuit(&mut self, data: PostCircuit, caller_principal: &Principal, now: u64) -> (r: &Circuit)
        requires
            old(self).wf(),
            old(self).next_id() <= u32::MAX,
        ensures
            final(self).wf(),
            final(self).circuits@.len() == old(self).circuits@.len() + 1,
            final(self).circuits@.drop_last() == old(self).circuits@,
            circuit_key_is(final(self).circuits@.last().0, old(self).next_id() as u32, principal_text(caller_principal@)),
            r == &final(self).circuits@.last().1,
            r.id == old(self).next_id(),
            r.user_id == *caller_principal,
            r.node_canister_id@ == seq![4u8],
            r.name == data.name,
            r.description == data.description,
            !r.is_favorite && !r.is_running && !r.is_enabled,
            r.run_at is None,
            r.created_at == now && r.updated_at == now,
    {
        let n = self.circuits.len();
        let circuit_id: u32 = if n == 0 {
            1
        } else {
            self.circuits[n - 1].0.id + 1
        };
        let new_circuit = Circuit {
            id: circuit_id,
            user_id: *caller_principal,
            node_canister_id: Principal::anonymous(),
            name: data.name,
            description: data.description,
            is_favorite: false,
            is_running: false,
            is_enabled: false,
            run_at: None,
            created_at: now,
            updated_at: now,
        };
        let key = CircuitKey { id: circuit_id, owner: caller_principal.to_text() };
        self.circuits.push((key, new_circuit));
        proof {
            assert(final(self).circuits@.drop_last() =~= old(self).circuits@);
        }
        &self.circuits[n].1
    }

    /// Renames and redescribes the caller's circuit, updated `now`.
    pub fn edit_circuit(&mut self, circuit_id: u32, data: PostCircuit, caller_principal: &Principal, now: u64) -> (r: Result<&Circuit, ApiError>)
        requires
            old(self).wf(),
        ensures
            final(self).wf(),
            r is Ok <==> old(self).holds(circuit_id, principal_text(caller_principal@)),
            r is Err ==> *final(self) == *old(self),
            r matches Err(e) ==> e matches ApiError::NotFound(m) && m@ == "NOT FOUND"@,
            r is Ok ==> exists|i: int| #![trigger old(self).circuits@[i]]
                old(self).holds_at(i, circuit_id, principal_text(caller_principal@))
                && final(self).circuits@.len() == old(self).circuits@.len()
                && (forall|j: int| 0 <= j < old(self).circuits@.len() && j != i ==> final(self).circuits@[j] == old(self).circuits@[j])
                && final(self).circuits@[i].0 == old(self).circuits@[i].0
                && r == Ok::<&Circuit, ApiError>(&final(self).circuits@[i].1)
                && final(self).circuits@[i].1 == (Circuit {
                    name: data.name,
                    description: data.description,
                    updated_at: now,
                    ..old(self).circuits@[i].1
                }),
    {
        let owner = caller_principal.to_text();
        match self.find(circuit_id, &owner) {
            Some(i) => {
                let (key, mut circuit) = self.circuits.remove(i);
                circuit.name = data.name;
                circuit.description = data.description;
                circuit.updated_at = now;
                self.circuits.insert(i, (key, circuit));
                proof {
                    assert forall|j: int| 0 <= j < old(self).circuits@.len() && j != i implies final(self).circuits@[j] == old(self).circuits@[j] by {}
                }
                Ok(&self.circuits[i].1)
            },
            None => Err(not_found("NOT FOUND")),
        }
    }

    /// Enables or disables the caller's circuit, updated `now`.
    pub fn toggle_circuit(&mut self, circuit_id: u32, enabled: bool, caller_principal: &Principal, now: u64) -> (r: Result<&Circuit, ApiError>)
        requires
            old(self).wf(),
        ensures
            final(self).wf(),
            r is Ok <==> old(self).holds(circuit_id, principal_text(caller_principal@)),
            r is Err ==> *final(self) == *old(self),
            r matches Err(e) ==> e matches ApiError::NotFound(m) && m@ == "NOT FOUND"@,
            r is Ok ==> exists|i: int| #![trigger old(self).circuits@[i]]
                old(self).holds_at(i, circuit_id, principal_text(caller_principal@))
                && final(self).circuits@.len() == old(self).circuits@.len()
                && (forall|j: int| 0 <= j < old(self).circuits@.len() && j != i ==> final(self).circuits@[j] == old(self).circuits@[j])
                && final(self).circuits@[i].0 == old(self).circuits@[i].0
                && r == Ok::<&Circuit, ApiError>(&final(self).circuits@[i].1)
                && final(self).circuits@[i].1 == (Circuit {
                    is_enabled: enabled,
                    updated_at: now,
                    ..old(self).circuits@[i].1
                }),
    {
        let owner = caller_principal.to_text();
        match self.find(circuit_id, &owner) {
            Some(i) => {
                let (key, mut circuit) = self.circuits.remove(i);
                circuit.is_enabled = enabled;
                circuit.updated_at = now;
                self.circuits.insert(i, (key, circuit));
                Ok(&self.circuits[i].1)
            },
            None => Err(not_found("NOT FOUND")),
        }
    }
}

} // verus!
