use vstd::prelude::*;
use crate::api_error::{not_found, ApiError};
use crate::node::{pin_kind_eq, pin_type_eq, same_pin_kind, same_pin_type, Node, NodeType, Pin};
use crate::principal::Principal;

verus! {

/// The nodes of the entries of `s` that belong to the circuit, in order.
pub open spec fn nodes_of<'a>(s: Seq<&'a (u32, Node)>, circuit_id: u32) -> Seq<&'a Node>
    decreases s.len(),
{
    if s.len() == 0 {
        Seq::empty()
    } else if s.last().1.circuit_id == circuit_id {
        nodes_of(s.drop_last(), circuit_id).push(&s.last().1)
    } else {
        nodes_of(s.drop_last(), circuit_id)
    }
}

/// `new` is `old` with only the value of entry `i` changed.
pub open spec fn replaced_at(old: Seq<(u32, Node)>, new: Seq<(u32, Node)>, i: int) -> bool {
    &&& 0 <= i < old.len()
    &&& new.len() == old.len()
    &&& new[i].0 == old[i].0
    &&& forall|j: int| 0 <= j < old.len() && j != i ==> #[trigger] new[j] == old[j]
}

/// Whether pin `j` is the first of the same kind as `p`.
pub open spec fn first_of_kind(pins: Seq<Pin>, j: int, p: Pin) -> bool {
    &&& 0 <= j < pins.len()
    &&& same_pin_kind(pins[j].pin_type, p.pin_type)
    &&& forall|k: int| 0 <= k < j ==> !same_pin_kind(#[trigger] pins[k].pin_type, p.pin_type)
}

/// Whether some pin has the same kind as `p`.
pub open spec fn has_kind(pins: Seq<Pin>, p: Pin) -> bool {
    exists|j: int| 0 <= j < pins.len() && same_pin_kind(#[trigger] pins[j].pin_type, p.pin_type)
}

/// Whether some pin has a pin type equal to that of `p`.
pub open spec fn has_equal(pins: Seq<Pin>, p: Pin) -> bool {
    exists|j: int| 0 <= j < pins.len() && same_pin_type(#[trigger] pins[j].pin_type, p.pin_type)
}

fn find_equal_pin(pins: &Vec<Pin>, data: &Pin) -> (r: bool)
    ensures
        r == has_equal(pins@, *data),
{
    let n = pins.len();
    let mut j: usize = 0;
    while j < n
        invariant
            n == pins@.len(),
            j <= n,
            forall|k: int| 0 <= k < j ==> !same_pin_type(#[trigger] pins@[k].pin_type, data.pin_type),
        decreases n - j,
    {
        if pin_type_eq(&pins[j].pin_type, &data.pin_type) {
            return true;
        }
        j = j + 1;
    }
    false
}

fn find_pin_kind(pins: &Vec<Pin>, data: &Pin) -> (r: Option<usize>)
    ensures
        r is Some <==> has_kind(pins@, *data),
        r matches Some(j) ==> first_of_kind(pins@, j as int, *data),
{
    let n = pins.len();
    let mut j: usize = 0;
    while j < n
        invariant
            n == pins@.len(),
            j <= n,
            forall|k: int| 0 <= k < j ==> !same_pin_kind(#[trigger] pins@[k].pin_type, data.pin_type),
        decreases n - j,
    {
        if pin_kind_eq(&pins[j].pin_type, &data.pin_type) {
            return Some(j);
        }
        j = j + 1;
    }
    None
}

/// The nodes, keyed by id, in the order their ids were first stored.
pub struct NodesStore {
    pub nodes: Vec<(u32, Node)>,
}

impl NodesStore {
    /// No two entries share an id.
    pub open spec fn wf(&self) -> bool {
        forall|i: int, j: int| 0 <= i < j < self.nodes@.len() ==> #[trigger] self.nodes@[i].0 != #[trigger] self.nodes@[j].0
    }

    /// Whether entry `i` is the node with the id.
    pub open spec fn holds_at(&self, i: int, node_id: u32) -> bool {
        0 <= i < self.nodes@.len() && self.nodes@[i].0 == node_id
    }

    /// Whether the store holds the node with the id.
    pub open spec fn holds(&self, node_id: u32) -> bool {
        exists|i: int| self.holds_at(i, node_id)
    }

    /// An empty store.
    pub fn new() -> (r: NodesStore)
        ensures
            r.wf(),
            r.nodes@.len() == 0,
    {
        NodesStore { nodes: Vec::new() }
    }

    fn find(&self, node_id: u32) -> (r: Option<usize>)
        ensures
            r is Some <==> self.holds(node_id),
            r matches Some(i) ==> self.holds_at(i as int, node_id),
    {
        let n = self.nodes.len();
        let mut i: usize = 0;
        while i < n
            invariant
                n == self.nodes@.len(),
                i <= n,
                forall|j: int| 0 <= j < i ==> !#[trigger] self.holds_at(j, node_id),
            decreases n - i,
        {
            if self.nodes[i].0 == node_id {
                assert(self.holds_at(i as int, node_id));
                return Some(i);
            }
            i = i + 1;
        }
        None
    }

    /// The node with the id.
    pub fn get_circuit_node(&self, node_id: u32, _caller_principal: &Principal) -> (r: Result<&Node, ApiError>)
        ensures
            r is Ok <==> self.holds(node_id),
            r matches Ok(node) ==> exists|i: int| self.holds_at(i, node_id) && node == &self.nodes@[i].1,
            r matches Err(e) ==> e matches ApiError::NotFound(m) && m@ == "NOT FOUND"@,
    {
        match self.find(node_id) {
            Some(i) => Ok(&self.nodes[i].1),
            None => Err(not_found("NOT FOUND")),
        }
    }

    /// The nodes of a circuit, in the store's order.
    pub fn get_circuit_nodes(&self, circuit_id: u32, _caller_principal: &Principal) -> (r: Vec<&Node>)
        ensures
            r@ == nodes_of(Seq::new(self.nodes@.len(), |i: int| &self.nodes@[i]), circuit_id),
    {
        let ghost all = Seq::new(self.nodes@.len(), |i: int| &self.nodes@[i]);
        let n = self.nodes.len();
        let mut r: Vec<&Node> = Vec::new();
        let mut i: usize = 0;
        while i < n
            invariant
                n == self.nodes@.len(),
                i <= n,
                all == Seq::new(self.nodes@.len(), |i: int| &self.nodes@[i]),
                r@ == nodes_of(all.subrange(0, i as int), circuit_id),
            decreases n - i,
        {
            assert(all.subrange(0, i + 1).drop_last() =~= all.subrange(0, i as int));
            if self.nodes[i].1.circuit_id == circuit_id {
                r.push(&self.nodes[i].1);
            }
            i = i + 1;
        }
        assert(all.subrange(0, n as int) =~= all);
        r
    }

    /// Removes the node with the id and returns it.
    pub fn delete_node(&mut self, node_id: u32, _caller_principal: &Principal) -> (r: Result<Node, ApiError>)
        requires
            old(self).wf(),
        ensures
            final(self).wf(),
            r is Ok <==> old(self).holds(node_id),
            r is Err ==> *final(self) == *old(self),
            r matches Err(e) ==> e matches ApiError::NotFound(m) && m@ == "NOT FOUND"@,
            r matches Ok(node) ==> exists|i: int|
                old(self).holds_at(i, node_id) && node == old(self).nodes@[i].1
                && final(self).nodes@ == old(self).nodes@.remove(i),
    {
        match self.find(node_id) {
            Some(i) => {
                let (_, node) = self.nodes.remove(i);
                proof {
                    assert forall|a: int, b: int| 0 <= a < b < final(self).nodes@.len() implies
                        #[trigger] final(self).nodes@[a].0 != #[trigger] final(self).nodes@[b].0 by {
                        let oa = if a < i { a } else { a + 1 };
                        let ob = if b < i { b } else { b + 1 };
                        assert(old(self).nodes@[oa].0 != old(self).nodes@[ob].0);
                    }
                }
                Ok(node)
            },
            None => Err(not_found("NOT FOUND")),
        }
    }

    /// Adds a node to a circuit for the caller, created and updated `now`. Its id, and
    /// its order, is one more than the number of stored nodes; a stored node with that
    /// id is replaced. It starts enabled, not running, without error and without pins.
    pub fn add_node(&mut self, circuit_id: u32, data: NodeType, caller_principal: &Principal, now: u64) -> (r: &Node)
        requires
            old(self).wf(),
            old(self).nodes@.len() < u32::MAX,
        ensures
            final(self).wf(),
            r.id == old(self).nodes@.len() + 1,
            r.circuit_id == circuit_id && r.user_id == *caller_principal,
            r.is_enabled && !r.is_error && !r.is_running,
            r.node_type == data,
            r.order == r.id,
            r.pins@.len() == 0,
            r.created_at == now && r.updated_at == now,
            old(self).holds(r.id) ==> exists|i: int|
                old(self).holds_at(i, r.id) && replaced_at(old(self).nodes@, final(self).nodes@, i)
                && r == &final(self).nodes@[i].1,
            !old(self).holds(r.id) ==> final(self).nodes@.drop_last() == old(self).nodes@
                && final(self).nodes@.len() == old(self).nodes@.len() + 1
                && final(self).nodes@.last().0 == r.id
                && r == &final(self).nodes@.last().1,
    {
        let node_id = self.nodes.len() as u32 + 1;
        let new_node = Node {
            id: node_id,
            circuit_id,
            user_id: *caller_principal,
            is_enabled: true,
            is_error: false,
            is_running: false,
            node_type: data,
            order: node_id,
            pins: Vec::new(),
            created_at: now,
            updated_at: now,
        };
        match self.find(node_id) {
            Some(i) => {
                self.nodes.set(i, (node_id, new_node));
                &self.nodes[i].1
            },
            None => {
                let n = self.nodes.len();
                self.nodes.push((node_id, new_node));
                proof {
                    assert(final(self).nodes@.drop_last() =~= old(self).nodes@);
                    assert forall|a: int, b: int| 0 <= a < b < final(self).nodes@.len() implies
                        #[trigger] final(self).nodes@[a].0 != #[trigger] final(self).nodes@[b].0 by {
                        if b == n {
                            assert(!old(self).holds_at(a, node_id));
                        }
                    }
                }
                &self.nodes[n].1
            },
        }
    }

    /// Replaces what the node does, updated `now`.
    pub fn edit_node(&mut self, node_id: u32, data: NodeType, _caller_principal: &Principal, now: u64) -> (r: Result<&Node, ApiError>)
        requires
            old(self).wf(),
        ensures
            final(self).wf(),
            r is Ok <==> old(self).holds(node_id),
            r is Err ==> *final(self) == *old(self),
            r matches Err(e) ==> e matches ApiError::NotFound(m) && m@ == "NOT FOUND"@,
            r is Ok ==> exists|i: int| #![trigger old(self).nodes@[i]]
                old(self).holds_at(i, node_id) && replaced_at(old(self).nodes@, final(self).nodes@, i)
                && r == Ok::<&Node, ApiError>(&final(self).nodes@[i].1)
                && final(self).nodes@[i].1 == (Node { node_type: data, updated_at: now, ..old(self).nodes@[i].1 }),
    {
        match self.find(node_id) {
            Some(i) => {
                let (key, mut node) = self.nodes.remove(i);
                node.node_type = data;
                node.updated_at = now;
                self.nodes.insert(i, (key, node));
                Ok(&self.nodes[i].1)
            },
            None => Err(not_found("NOT FOUND")),
        }
    }

    /// Sets the node's order, updated `now`.
    pub fn edit_order(&mut self, node_id: u32, order: u32, _caller_principal: &Principal, now: u64) -> (r: Result<&Node, ApiError>)
        requires
            old(self).wf(),
        ensures
            final(self).wf(),
            r is Ok <==> old(self).holds(node_id),
            r is Err ==> *final(self) == *old(self),
            r matches Err(e) ==> e matches ApiError::NotFound(m) && m@ == "NOT FOUND"@,
            r is Ok ==> exists|i: int| #![trigger old(self).nodes@[i]]
                old(self).holds_at(i, node_id) && replaced_at(old(self).nodes@, final(self).nodes@, i)
                && r == Ok::<&Node, ApiError>(&final(self).nodes@[i].1)
                && final(self).nodes@[i].1 == (Node { order: order, updated_at: now, ..old(self).nodes@[i].1 }),
    {
        match self.find(node_id) {
            Some(i) => {
                let (key, mut node) = self.nodes.remove(i);
                node.order = order;
                node.updated_at = now;
                self.nodes.insert(i, (key, node));
                Ok(&self.nodes[i].1)
            },
            None => Err(not_found("NOT FOUND")),
        }
    }

    /// Enables or disables the node, updated `now`.
    pub fn toggle_node(&mut self, node_id: u32, enabled: bool, _caller_principal: &Principal, now: u64) -> (r: Result<&Node, ApiError>)
        requires
            old(self).wf(),
        ensures
            final(self).wf(),
            r is Ok <==> old(self).holds(node_id),
            r is Err ==> *final(self) == *old(self),
            r matches Err(e) ==> e matches ApiError::NotFound(m) && m@ == "NOT FOUND"@,
            r is Ok ==> exists|i: int| #![trigger old(self).nodes@[i]]
                old(self).holds_at(i, node_id) && replaced_at(old(self).nodes@, final(self).nodes@, i)
                && r == Ok::<&Node, ApiError>(&final(self).nodes@[i].1)
                && final(self).nodes@[i].1 == (Node { is_enabled: enabled, updated_at: now, ..old(self).nodes@[i].1 }),
    {
        match self.find(node_id) {
            Some(i) => {
                let (key, mut node) = self.nodes.remove(i);
                node.is_enabled = enabled;
                node.updated_at = now;
                self.nodes.insert(i, (key, node));
                Ok(&self.nodes[i].1)
            },
            None => Err(not_found("NOT FOUND")),
        }
    }

    /// Adds a pin to the node, unless the node has a pin with an equal pin type.
    pub fn add_pin(&mut self, node_id: u32, data: Pin, _caller_principal: &Principal) -> (r: Result<&Node, ApiError>)
        requires
            old(self).wf(),
        ensures
            final(self).wf(),
            r is Ok <==> exists|i: int| old(self).holds_at(i, node_id) && !has_equal(old(self).nodes@[i].1.pins@, data),
            r is Err ==> *final(self) == *old(self),
            !old(self).holds(node_id) ==> (r matches Err(ApiError::NotFound(m)) && m@ == "NOT FOUND"@),
            old(self).holds(node_id) && r is Err ==> (r matches Err(ApiError::NotFound(m)) && m@ == "ALREADY EXISTS"@),
            r is Ok ==> exists|i: int| #![trigger old(self).nodes@[i]]
                old(self).holds_at(i, node_id) && replaced_at(old(self).nodes@, final(self).nodes@, i)
                && r == Ok::<&Node, ApiError>(&final(self).nodes@[i].1)
                && final(self).nodes@[i].1.pins@ == old(self).nodes@[i].1.pins@.push(data)
                && final(self).nodes@[i].1 == (Node { pins: final(self).nodes@[i].1.pins, ..old(self).nodes@[i].1 }),
    {
        match self.find(node_id) {
            Some(i) => {
                if find_equal_pin(&self.nodes[i].1.pins, &data) {
                    return Err(not_found("ALREADY EXISTS"));
                }
                let (key, mut node) = self.nodes.remove(i);
                node.pins.push(data);
                self.nodes.insert(i, (key, node));
                Ok(&self.nodes[i].1)
            },
            None => Err(not_found("NOT FOUND")),
        }
    }

    /// Replaces the node's first pin of the same kind as `data`.
    pub fn edit_pin(&mut self, node_id: u32, data: Pin, _caller_principal: &Principal) -> (r: Result<&Node, ApiError>)
        requires
            old(self).wf(),
        ensures
            final(self).wf(),
            r is Ok <==> exists|i: int| old(self).holds_at(i, node_id) && has_kind(old(self).nodes@[i].1.pins@, data),
            r is Err ==> *final(self) == *old(self),
            !old(self).holds(node_id) ==> (r matches Err(ApiError::NotFound(m)) && m@ == "NOT FOUND"@),
            old(self).holds(node_id) && r is Err ==> (r matches Err(ApiError::NotFound(m)) && m@ == "NODE INDEX NOT FOUND"@),
            r is Ok ==> exists|i: int, j: int| #![trigger old(self).nodes@[i], first_of_kind(old(self).nodes@[i].1.pins@, j, data)]
                old(self).holds_at(i, node_id) && replaced_at(old(self).nodes@, final(self).nodes@, i)
                && r == Ok::<&Node, ApiError>(&final(self).nodes@[i].1)
                && first_of_kind(old(self).nodes@[i].1.pins@, j, data)
                && final(self).nodes@[i].1.pins@ == old(self).nodes@[i].1.pins@.update(j, data)
                && final(self).nodes@[i].1 == (Node { pins: final(self).nodes@[i].1.pins, ..old(self).nodes@[i].1 }),
    {
        match self.find(node_id) {
            Some(i) => {
                let j = match find_pin_kind(&self.nodes[i].1.pins, &data) {
                    Some(j) => j,
                    None => {
                        return Err(not_found("NODE INDEX NOT FOUND"));
                    },
                };
                let (key, mut node) = self.nodes.remove(i);
                node.pins.set(j, data);
                self.nodes.insert(i, (key, node));
                Ok(&self.nodes[i].1)
            },
            None => Err(not_found("NOT FOUND")),
        }
    }

    /// Removes the node's first pin of the same kind as `data`.
    pub fn delete_pin(&mut self, node_id: u32, data: Pin, _caller_principal: &Principal) -> (r: Result<&Node, ApiError>)
        requires
            old(self).wf(),
        ensures
            final(self).wf(),
            r is Ok <==> exists|i: int| old(self).holds_at(i, node_id) && has_kind(old(self).nodes@[i].1.pins@, data),
            r is Err ==> *final(self) == *old(self),
            !old(self).holds(node_id) ==> (r matches Err(ApiError::NotFound(m)) && m@ == "NOT FOUND"@),
            old(self).holds(node_id) && r is Err ==> (r matches Err(ApiError::NotFound(m)) && m@ == "NODE INDEX NOT FOUND"@),
            r is Ok ==> exists|i: int, j: int| #![trigger old(self).nodes@[i], first_of_kind(old(self).nodes@[i].1.pins@, j, data)]
                old(self).holds_at(i, node_id) && replaced_at(old(self).nodes@, final(self).nodes@, i)
                && r == Ok::<&Node, ApiError>(&final(self).nodes@[i].1)
                && first_of_kind(old(self).nodes@[i].1.pins@, j, data)
                && final(self).nodes@[i].1.pins@ == old(self).nodes@[i].1.pins@.remove(j)
                && final(self).nodes@[i].1 == (Node { pins: final(self).nodes@[i].1.pins, ..old(self).nodes@[i].1 }),
    {
        match self.find(node_id) {
            Some(i) => {
                let j = match find_pin_kind(&self.nodes[i].1.pins, &data) {
                    Some(j) => j,
                    None => {
                        return Err(not_found("NODE INDEX NOT FOUND"));
                    },
                };
                let (key, mut node) = self.nodes.remove(i);
                node.pins.remove(j);
                self.nodes.insert(i, (key, node));
                Ok(&self.nodes[i].1)
            },
            None => Err(not_found("NOT FOUND")),
        }
    }
}

} // verus!
