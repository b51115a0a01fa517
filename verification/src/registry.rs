//! The registry of provider clients: filled at startup, then only read.

use vstd::prelude::*;
use crate::client::{AuthorizationCodeClient, ClientView};
use crate::errors::RegistryError;
use crate::text::str_eq;

verus! {

/// Whether some client of `clients` serves the provider `name`.
spec fn serves(clients: Seq<AuthorizationCodeClient>, name: Seq<char>) -> bool {
    exists|i: int| 0 <= i < clients.len() && (#[trigger] clients[i]).provider_id@ == name
}

/// The position of a client that serves the provider `name`.
spec fn position_of(clients: Seq<AuthorizationCodeClient>, name: Seq<char>) -> int {
    choose|i: int| 0 <= i < clients.len() && (#[trigger] clients[i]).provider_id@ == name
}

/// No two clients serve the same provider.
spec fn providers_distinct(clients: Seq<AuthorizationCodeClient>) -> bool {
    forall|i: int, j: int|
        0 <= i < j < clients.len() ==> (#[trigger] clients[i]).provider_id@ != (
        #[trigger] clients[j]).provider_id@
}

/// The clients by the name of their provider.
spec fn clients_map(clients: Seq<AuthorizationCodeClient>) -> Map<Seq<char>, ClientView> {
    Map::new(
        |name: Seq<char>| serves(clients, name),
        |name: Seq<char>| clients[position_of(clients, name)]@,
    )
}

/// The provider clients of this process, one per provider name.
pub struct ClientRegistry {
    clients: Vec<AuthorizationCodeClient>,
}

impl View for ClientRegistry {
    type V = Map<Seq<char>, ClientView>;

    closed spec fn view(&self) -> Map<Seq<char>, ClientView> {
        clients_map(self.clients@)
    }
}

impl ClientRegistry {
    #[verifier::type_invariant]
    spec fn distinct(self) -> bool {
        providers_distinct(self.clients@)
    }

    /// A registry without clients.
    pub fn new() -> (registry: ClientRegistry)
        ensures
            registry@ == Map::<Seq<char>, ClientView>::empty(),
    {
        let registry = ClientRegistry { clients: Vec::new() };
        assert(registry@ =~= Map::<Seq<char>, ClientView>::empty());
        registry
    }

    fn find(&self, name: &str) -> (found: Option<usize>)
        ensures
            match found {
                Some(i) => i < self.clients@.len() && self.clients@[i as int].provider_id@
                    == name@,
                None => !serves(self.clients@, name@),
            },
    {
        let n: usize = self.clients.len();
        let mut i: usize = 0;
        while i < n
            invariant
                i <= n,
                n == self.clients@.len(),
                forall|j: int| 0 <= j < i ==> (#[trigger] self.clients@[j]).provider_id@ != name@,
            decreases n - i,
        {
            if str_eq(self.clients[i].provider_id.as_str(), name) {
                return Some(i);
            }
            i = i + 1;
        }
        None
    }

    /// Files `client` under the name of its provider, in place of any client
    /// that was filed under that name.
    pub fn register(&mut self, client: AuthorizationCodeClient)
        ensures
            final(self)@ == old(self)@.insert(client.provider_id@, client@),
    {
        proof {
            use_type_invariant(&*self);
        }
        let ghost before = self.clients@;
        let ghost name = client.provider_id@;
        let ghost added = client@;
        let found = self.find(client.provider_id.as_str());
        let mut clients: Vec<AuthorizationCodeClient> = Vec::new();
        core::mem::swap(&mut self.clients, &mut clients);
        match found {
            Some(i) => {
                clients.set(i, client);
                proof {
                    let after = clients@;
                    assert forall|k: Seq<char>| serves(after, k) <==> serves(before, k) by {
                        if serves(before, k) {
                            let j = position_of(before, k);
                            assert(after[j].provider_id@ == k);
                        }
                        if serves(after, k) {
                            let j = position_of(after, k);
                            assert(before[j].provider_id@ == k);
                        }
                    }
                    assert(after[i as int].provider_id@ == name);
                    assert(clients_map(after) =~= clients_map(before).insert(name, added));
                }
            },
            None => {
                clients.push(client);
                proof {
                    let after = clients@;
                    let last = before.len() as int;
                    assert(after[last].provider_id@ == name);
                    assert forall|k: Seq<char>| serves(after, k) <==> (serves(before, k) || k
                        == name) by {
                        if serves(before, k) {
                            let j = position_of(before, k);
                            assert(after[j].provider_id@ == k);
                        }
                        if serves(after, k) && k != name {
                            let j = position_of(after, k);
                            assert(before[j].provider_id@ == k);
                        }
                    }
                    assert(clients_map(after) =~= clients_map(before).insert(name, added));
                }
            },
        }
        core::mem::swap(&mut self.clients, &mut clients);
    }

    /// The client that serves the provider `name`.
    pub fn get(&self, name: &str) -> (found: Result<&AuthorizationCodeClient, RegistryError>)
        ensures
            match found {
                Ok(client) => self@.contains_key(name@) && client@ == self@[name@],
                Err(e) => !self@.contains_key(name@) && e == RegistryError::UnknownProvider,
            },
    {
        proof {
            use_type_invariant(self);
        }
        match self.find(name) {
            Some(i) => {
                assert(serves(self.clients@, name@));
                Ok(&self.clients[i])
            },
            None => Err(RegistryError::UnknownProvider),
        }
    }
}

} // verus!
