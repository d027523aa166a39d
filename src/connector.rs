use vstd::prelude::*;
use crate::api_error::{not_found, ApiError};
use crate::keyed::{entry_refs, lemma_values_where_all, lemma_values_where_step, values_where};
use crate::node::{Headers, HttpRequestMethod};
use crate::principal::{principal_text, Principal};

verus! {

/// A saved way to reach an outside service.
#[derive(Clone, Debug)]
pub struct Connector {
    pub id: u32,
    pub user_id: Principal,
    pub name: String,
    pub connector_type: ConnectorType,
    pub created_at: u64,
    pub updated_at: u64,
}

impl Connector {
    /// The empty connector: an unauthenticated HTTP connector of the anonymous
    /// principal, with no base URL and no headers.
    pub fn default() -> (r: Connector)
        ensures
            r.id == 0,
            r.user_id@ == seq![4u8],
            r.name@.len() == 0,
            r.connector_type matches ConnectorType::Http(h) && h.base_url@.len() == 0 && h.headers@.len() == 0
                && h.authentication is Unauthenticated && h.test_connection is None,
            r.created_at == 0 && r.updated_at == 0,
    {
        Connector {
            id: 0,
            user_id: Principal::anonymous(),
            name: String::new(),
            connector_type: ConnectorType::Http(HttpConnector {
                base_url: String::new(),
                headers: Vec::new(),
                authentication: Authentication::Unauthenticated,
                test_connection: None,
            }),
            created_at: 0,
            updated_at: 0,
        }
    }
}

/// What a user sends to create or edit a connector.
#[derive(Clone, Debug)]
pub struct PostConnector {
    pub name: String,
    pub connector_type: ConnectorType,
}

#[derive(Clone, Debug)]
pub enum ConnectorType {
    Http(HttpConnector),
    /// A canister, by its principal's text.
    Canister(String),
}

#[derive(Clone, Debug)]
pub struct HttpConnector {
    pub base_url: String,
    pub headers: Headers,
    pub authentication: Authentication,
    pub test_connection: Option<TestConnection>,
}

#[derive(Clone, Debug)]
pub enum Authentication {
    Unauthenticated,
    /// User name and password.
    Basic(String, String),
    JWT(JWTConfig),
    Token(TokenConfig),
}

#[derive(Clone, Debug)]
pub struct JWTConfig {
    pub signature_method: SignatureMethod,
    pub secret: String,
    pub secret_key: String,
    pub payload: String,
    pub location: TokenLocation,
    pub sample_data: String,
}

#[derive(Clone, Copy, Debug, PartialEq, Eq, Structural)]
pub enum SignatureMethod {
    HS256,
    HS384,
    HS512,
    RS256,
    RS384,
    RS512,
    ES256,
    ES384,
    ES512,
}

#[derive(Clone, Debug)]
pub struct TokenConfig {
    pub token: String,
    pub location: TokenLocation,
}

#[derive(Clone, Debug)]
pub enum TokenLocation {
    /// Header name and scheme.
    HTTPHeader(String, String),
    Query(String),
}

#[derive(Clone, Debug)]
pub struct TestConnection {
    pub relative_url: String,
    pub method: HttpRequestMethod,
    /// The field and value that mark an error.
    pub error: Option<(String, String)>,
}

/// The key of a stored connector: its id and its owner's principal text.
#[derive(Clone, Debug)]
pub struct ConnectorKey {
    pub id: u32,
    pub owner: String,
}

/// Whether a connector key belongs to the owner with the given principal text.
pub open spec fn connector_owned_by(owner: Seq<char>) -> spec_fn(ConnectorKey) -> bool {
    |k: ConnectorKey| k.owner@ == owner
}

/// Whether a connector key has the given id and owner.
pub open spec fn connector_key_is(k: ConnectorKey, id: u32, owner: Seq<char>) -> bool {
    k.id == id && k.owner@ == owner
}

/// The connectors, keyed by id and owner, in the order of their ids.
pub struct ConnectorsStore {
    pub connectors: Vec<(ConnectorKey, Connector)>,
}

impl ConnectorsStore {
    /// Ids increase strictly along the entries, so no two entries share a key.
    pub open spec fn wf(&self) -> bool {
        forall|i: int, j: int|
            0 <= i < j < self.connectors@.len() ==> #[trigger] self.connectors@[i].0.id < #[trigger] self.connectors@[j].0.id
    }

    /// Whether entry `i` is the connector with the given id and owner.
    pub open spec fn holds_at(&self, i: int, id: u32, owner: Seq<char>) -> bool {
        0 <= i < self.connectors@.len() && connector_key_is(self.connectors@[i].0, id, owner)
    }

    /// Whether the store holds the connector with the given id and owner.
    pub open spec fn holds(&self, id: u32, owner: Seq<char>) -> bool {
        exists|i: int| self.holds_at(i, id, owner)
    }

    /// The id that the next added connector gets: one more than the largest.
    pub open spec fn next_id(&self) -> int {
        if self.connectors@.len() == 0 {
            1
        } else {
            self.connectors@.last().0.id + 1
        }
    }

    /// An empty store.
    pub fn new() -> (r: ConnectorsStore)
        ensures
            r.wf(),
            r.connectors@.len() == 0,
    {
        ConnectorsStore { connectors: Vec::new() }
    }

    fn find(&self, connector_id: u32, owner: &String) -> (r: Option<usize>)
        ensures
            r is Some <==> self.holds(connector_id, owner@),
            r matches Some(i) ==> self.holds_at(i as int, connector_id, owner@),
    {
        let n = self.connectors.len();
        let mut i: usize = 0;
        while i < n
            invariant
                n == self.connectors@.len(),
                i <= n,
                forall|j: int| 0 <= j < i ==> !#[trigger] self.holds_at(j, connector_id, owner@),
            decreases n - i,
        {
            if self.connectors[i].0.id == connector_id && self.connectors[i].0.owner == *owner {
                assert(self.holds_at(i as int, connector_id, owner@));
                return Some(i);
            }
            i = i + 1;
        }
        None
    }

    /// The caller's connectors, in the order of their ids.
    pub fn get_user_connectors(&self, caller_principal: &Principal) -> (r: Vec<&Connector>)
        ensures
            r@ == values_where(entry_refs(&self.connectors), connector_owned_by(principal_text(caller_principal@))),
    {
        let owner = caller_principal.to_text();
        let ghost p = connector_owned_by(owner@);
        let n = self.connectors.len();
        let mut r: Vec<&Connector> = Vec::new();
        let mut i: usize = 0;
        proof { lemma_values_where_all(&self.connectors, p); }
        while i < n
            invariant
                n == self.connectors@.len(),
                i <= n,
                p == connector_owned_by(owner@),
                r@ == values_where(entry_refs(&self.connectors).subrange(0, i as int), p),
            decreases n - i,
        {
            proof { lemma_values_where_step(&self.connectors, i as int, p); }
            if self.connectors[i].0.owner == owner {
                r.push(&self.connectors[i].1);
            }
            i = i + 1;
        }
        r
    }

    /// Adds a connector for the caller, with the next id, created and updated `now`.
    pub fn add_connector(&mut self, data: PostConnector, caller_principal: &Principal, now: u64) -> (r: &Connector)
        requires
            old(self).wf(),
            old(self).next_id() <= u32::MAX,
        ensures
            final(self).wf(),
            final(self).connectors@.len() == old(self).connectors@.len() + 1,
            final(self).connectors@.drop_last() == old(self).connectors@,
            connector_key_is(final(self).connectors@.last().0, old(self).next_id() as u32, principal_text(caller_principal@)),
            r == &final(self).connectors@.last().1,
            r.id == old(self).next_id(),
            r.user_id == *caller_principal,
            r.name == data.name,
            r.connector_type == data.connector_type,
            r.created_at == now && r.updated_at == now,
    {
        let n = self.connectors.len();
        let connector_id: u32 = if n == 0 {
            1
        } else {
            self.connectors[n - 1].0.id + 1
        };
        let new_connector = Connector {
            id: connector_id,
            user_id: *caller_principal,
            name: data.name,
            connector_type: data.connector_type,
            created_at: now,
            updated_at: now,
        };
        let key = ConnectorKey { id: connector_id, owner: caller_principal.to_text() };
        self.connectors.push((key, new_connector));
        proof {
            assert(final(self).connectors@.drop_last() =~= old(self).connectors@);
        }
        &self.connectors[n].1
    }

    /// Renames the caller's connector and replaces its type, updated `now`.
    pub fn edit_connector(&mut self, connector_id: u32, data: PostConnector, caller_principal: &Principal, now: u64) -> (r: Result<&Connector, ApiError>)
        requires
            old(self).wf(),
        ensures
            final(self).wf(),
            r is Ok <==> old(self).holds(connector_id, principal_text(caller_principal@)),
            r is Err ==> *final(self) == *old(self),
            r matches Err(e) ==> e matches ApiError::NotFound(m) && m@ == "NOT FOUND"@,
            r is Ok ==> exists|i: int| #![trigger old(self).connectors@[i]]
                old(self).holds_at(i, connector_id, principal_text(caller_principal@))
                && final(self).connectors@.len() == old(self).connectors@.len()
                && (forall|j: int| 0 <= j < old(self).connectors@.len() && j != i ==> final(self).connectors@[j] == old(self).connectors@[j])
                && final(self).connectors@[i].0 == old(self).connectors@[i].0
                && r == Ok::<&Connector, ApiError>(&final(self).connectors@[i].1)
                && final(self).connectors@[i].1 == (Connector {
                    name: data.name,
                    connector_type: data.connector_type,
                    updated_at: now,
                    ..old(self).connectors@[i].1
                }),
    {
        let owner = caller_principal.to_text();
        match self.find(connector_id, &owner) {
            Some(i) => {
                let (key, mut connector) = self.connectors.remove(i);
                connector.name = data.name;
                connector.connector_type = data.connector_type;
                connector.updated_at = now;
                self.connectors.insert(i, (key, connector));
                Ok(&self.connectors[i].1)
            },
            None => Err(not_found("NOT FOUND")),
        }
    }
}

} // verus!
