//! The profile of a connected client, and the registry of connected clients
//! keyed by their uuid.
use vstd::prelude::*;
use crate::text::str_eq;

verus! {

/// A client profile as the contracts see it: `(uuid, username, address)`.
pub type ClientView = (Seq<char>, Seq<char>, Seq<char>);

/// The profile of a connected client.
#[derive(Debug)]
pub struct Client {
    pub uuid: String,
    pub username: String,
    pub address: String,
}

impl View for Client {
    type V = ClientView;

    open spec fn view(&self) -> ClientView {
        (self.uuid@, self.username@, self.address@)
    }
}

impl Clone for Client {
    fn clone(&self) -> (r: Self)
        ensures
            r@ == self@,
    {
        Client {
            uuid: self.uuid.clone(),
            username: self.username.clone(),
            address: self.address.clone(),
        }
    }
}

impl Client {
    /// The client's uuid.
    pub fn get_uuid(&self) -> (r: &String)
        ensures
            r@ == self@.0,
    {
        &self.uuid
    }

    /// The client's username.
    pub fn get_username(&self) -> (r: &String)
        ensures
            r@ == self@.1,
    {
        &self.username
    }

    /// The client's address.
    pub fn get_address(&self) -> (r: &String)
        ensures
            r@ == self@.2,
    {
        &self.address
    }
}

/// No uuid occurs twice.
pub open spec fn uuids_distinct(cs: Seq<ClientView>) -> bool {
    forall|i: int, j: int| 0 <= i < j < cs.len() ==> cs[i].0 != cs[j].0
}

/// A client with uuid `u` is registered.
pub open spec fn has_uuid(cs: Seq<ClientView>, u: Seq<char>) -> bool {
    exists|i: int| 0 <= i < cs.len() && cs[i].0 == u
}

/// The position of the client with uuid `u` (meaningful when `has_uuid`).
pub open spec fn uuid_pos(cs: Seq<ClientView>, u: Seq<char>) -> int {
    choose|i: int| 0 <= i < cs.len() && cs[i].0 == u
}

/// The client registered under uuid `u`, if any.
pub open spec fn find_client(cs: Seq<ClientView>, u: Seq<char>) -> Option<ClientView> {
    if has_uuid(cs, u) {
        Some(cs[uuid_pos(cs, u)])
    } else {
        None
    }
}

/// Registering `c` under its uuid: an existing client with that uuid is
/// replaced in place, a new one is appended.
pub open spec fn register(cs: Seq<ClientView>, c: ClientView) -> Seq<ClientView> {
    if has_uuid(cs, c.0) {
        cs.update(uuid_pos(cs, c.0), c)
    } else {
        cs.push(c)
    }
}

/// Removing the client with uuid `u` (nothing changes when there is none).
pub open spec fn unregister(cs: Seq<ClientView>, u: Seq<char>) -> Seq<ClientView> {
    if has_uuid(cs, u) {
        cs.remove(uuid_pos(cs, u))
    } else {
        cs
    }
}

pub proof fn lemma_uuid_pos(cs: Seq<ClientView>, i: int)
    requires
        uuids_distinct(cs),
        0 <= i < cs.len(),
    ensures
        has_uuid(cs, cs[i].0),
        uuid_pos(cs, cs[i].0) == i,
        find_client(cs, cs[i].0) == Some(cs[i]),
{
    let u = cs[i].0;
    assert(has_uuid(cs, u));
    let j = uuid_pos(cs, u);
    if j < i {
        assert(cs[j].0 != cs[i].0);
    } else if i < j {
        assert(cs[i].0 != cs[j].0);
    }
}

/// Registering keeps the uuids distinct; afterwards `c` is found under its
/// uuid and every other uuid finds what it found before.
pub proof fn lemma_register(cs: Seq<ClientView>, c: ClientView)
    requires
        uuids_distinct(cs),
    ensures
        uuids_distinct(register(cs, c)),
        find_client(register(cs, c), c.0) == Some(c),
        forall|u: Seq<char>| u != c.0 ==> find_client(register(cs, c), u) == find_client(cs, u),
{
    let r = register(cs, c);
    let p = if has_uuid(cs, c.0) {
        uuid_pos(cs, c.0)
    } else {
        cs.len() as int
    };
    assert forall|i: int, j: int| 0 <= i < j < r.len() implies r[i].0 != r[j].0 by {
        if j < cs.len() && i != p && j != p {
            assert(cs[i].0 != cs[j].0);
        } else if i == p {
            assert(r[i].0 == c.0);
            assert(r[j] == cs[j]);
            if has_uuid(cs, c.0) {
                assert(cs[p].0 == c.0);
                assert(cs[p].0 != cs[j].0);
            }
        } else if j == p {
            assert(r[i] == cs[i]);
            if has_uuid(cs, c.0) {
                assert(cs[i].0 != cs[p].0);
            } else {
                assert(!(cs[i].0 == c.0));
            }
        }
    }
    assert(r[p] == c);
    lemma_uuid_pos(r, p);
    assert forall|u: Seq<char>| u != c.0 implies find_client(r, u) == find_client(cs, u) by {
        if has_uuid(cs, u) {
            let q = uuid_pos(cs, u);
            lemma_uuid_pos(cs, q);
            assert(r[q] == cs[q]);
            lemma_uuid_pos(r, q);
        }
        if has_uuid(r, u) {
            let q = uuid_pos(r, u);
            assert(q != p);
            assert(r[q] == cs[q]);
            assert(has_uuid(cs, u));
        }
    }
}

/// Removing keeps the uuids distinct; afterwards `u` is not found and every
/// other uuid finds what it found before.
pub proof fn lemma_unregister(cs: Seq<ClientView>, u: Seq<char>)
    requires
        uuids_distinct(cs),
    ensures
        uuids_distinct(unregister(cs, u)),
        !has_uuid(unregister(cs, u), u),
        forall|v: Seq<char>| v != u ==> find_client(unregister(cs, u), v) == find_client(cs, v),
{
    let r = unregister(cs, u);
    if has_uuid(cs, u) {
        let p = uuid_pos(cs, u);
        assert forall|i: int, j: int| 0 <= i < j < r.len() implies r[i].0 != r[j].0 by {
            let ii = if i < p { i } else { i + 1 };
            let jj = if j < p { j } else { j + 1 };
            assert(r[i] == cs[ii] && r[j] == cs[jj]);
            assert(cs[ii].0 != cs[jj].0);
        }
        assert(!has_uuid(r, u)) by {
            if has_uuid(r, u) {
                let i = choose|i: int| 0 <= i < r.len() && r[i].0 == u;
                let ii = if i < p { i } else { i + 1 };
                assert(r[i] == cs[ii]);
                assert(cs[ii].0 != cs[p].0);
            }
        }
        assert forall|v: Seq<char>| v != u implies find_client(r, v) == find_client(cs, v) by {
            if has_uuid(cs, v) {
                let q = uuid_pos(cs, v);
                assert(q != p);
                let qq = if q < p { q } else { q - 1 };
                assert(r[qq] == cs[q]);
                lemma_uuid_pos(r, qq);
            }
            if has_uuid(r, v) {
                let q = uuid_pos(r, v);
                let qq = if q < p { q } else { q + 1 };
                assert(r[q] == cs[qq]);
                assert(has_uuid(cs, v));
            }
        }
    }
}

/// What a uuid finds is a registered client with that uuid, and a uuid
/// finds nothing only when no registered client has it.
pub proof fn law_find_gives_the_client_with_that_uuid(cs: Seq<ClientView>, u: Seq<char>)
    ensures
        find_client(cs, u) matches Some(c) ==> c.0 == u && cs.contains(c),
        find_client(cs, u) is None ==> forall|i: int| 0 <= i < cs.len() ==> (#[trigger] cs[i]).0 != u,
{
    if let Some(c) = find_client(cs, u) {
        assert(cs[uuid_pos(cs, u)] == c);
    }
}

/// Reading after registering: a client registered under its uuid is what
/// that uuid then finds, and no other uuid finds anything different.
pub proof fn law_find_after_register(cs: Seq<ClientView>, c: ClientView)
    requires
        uuids_distinct(cs),
    ensures
        find_client(register(cs, c), c.0) == Some(c),
        forall|u: Seq<char>| u != c.0 ==> find_client(register(cs, c), u) == find_client(cs, u),
{
    lemma_register(cs, c);
}

/// Registering a client that was not registered and then removing it
/// leaves every uuid finding what it found before.
pub proof fn law_unregister_undoes_register(cs: Seq<ClientView>, c: ClientView)
    requires
        uuids_distinct(cs),
        !has_uuid(cs, c.0),
    ensures
        forall|u: Seq<char>| find_client(unregister(register(cs, c), c.0), u) == find_client(cs, u),
{
    lemma_register(cs, c);
    lemma_unregister(register(cs, c), c.0);
    assert forall|u: Seq<char>| find_client(unregister(register(cs, c), c.0), u) == find_client(cs, u) by {
        if u == c.0 {
            assert(!has_uuid(unregister(register(cs, c), c.0), u));
        }
    }
}

/// The connected clients, keyed by uuid.
#[derive(Debug)]
pub struct ClientRegistry {
    clients: Vec<Client>,
}

impl View for ClientRegistry {
    type V = Seq<ClientView>;

    closed spec fn view(&self) -> Seq<ClientView> {
        self.clients@.map_values(|c: Client| c@)
    }
}

impl ClientRegistry {
    /// The uuids of the registered clients are distinct.
    #[verifier::type_invariant]
    pub open spec fn inv(&self) -> bool {
        uuids_distinct(self@)
    }

    /// An empty registry.
    pub fn new() -> (r: ClientRegistry)
        ensures
            r@ == Seq::<ClientView>::empty(),
    {
        let r = ClientRegistry { clients: Vec::new() };
        assert(r@ =~= Seq::<ClientView>::empty());
        r
    }

    /// The number of registered clients.
    pub fn len(&self) -> (n: usize)
        ensures
            n == self@.len(),
    {
        self.clients.len()
    }

    /// The `i`-th registered client.
    pub fn client_at(&self, i: usize) -> (r: &Client)
        requires
            i < self@.len(),
        ensures
            r@ == self@[i as int],
    {
        &self.clients[i]
    }

    fn position(&self, uuid: &str) -> (r: Option<usize>)
        ensures
            match r {
                Some(i) => i < self@.len() && self@[i as int].0 == uuid@,
                None => !has_uuid(self@, uuid@),
            },
    {
        let mut i: usize = 0;
        while i < self.clients.len()
            invariant
                i <= self.clients@.len(),
                forall|j: int| 0 <= j < i ==> self@[j].0 != uuid@,
            decreases self.clients@.len() - i,
        {
            if str_eq(self.clients[i].uuid.as_str(), uuid) {
                return Some(i);
            }
            i = i + 1;
        }
        None
    }

    /// The client registered under `uuid` (`HashMap::get`).
    pub fn get(&self, uuid: &str) -> (r: Option<&Client>)
        ensures
            match r {
                Some(c) => find_client(self@, uuid@) == Some(c@),
                None => find_client(self@, uuid@) is None,
            },
    {
        proof {
            use_type_invariant(self);
        }
        match self.position(uuid) {
            Some(i) => {
                proof {
                    lemma_uuid_pos(self@, i as int);
                }
                Some(&self.clients[i])
            },
            None => None,
        }
    }

    /// Whether a client is registered under `uuid`.
    pub fn contains_key(&self, uuid: &str) -> (b: bool)
        ensures
            b == has_uuid(self@, uuid@),
    {
        self.position(uuid).is_some()
    }

    /// Registers `client` under its uuid, replacing a client with the same
    /// uuid (`HashMap::insert` keyed by the uuid).
    pub fn insert(&mut self, client: Client)
        ensures
            final(self)@ == register(old(self)@, client@),
    {
        proof {
            use_type_invariant(&*self);
            lemma_register(self@, client@);
        }
        let ghost old_view = self@;
        let mut clients = Vec::new();
        std::mem::swap(&mut clients, &mut self.clients);
        match Self::position_in(&clients, client.uuid.as_str()) {
            Some(i) => {
                proof {
                    lemma_uuid_pos(old_view, i as int);
                }
                clients.set(i, client);
            },
            None => {
                clients.push(client);
            },
        }
        assert(clients@.map_values(|c: Client| c@) =~= register(old_view, client@));
        self.clients = clients;
    }

    fn position_in(clients: &Vec<Client>, uuid: &str) -> (r: Option<usize>)
        ensures
            match r {
                Some(i) => i < clients@.len() && clients@[i as int]@.0 == uuid@,
                None => !has_uuid(clients@.map_values(|c: Client| c@), uuid@),
            },
    {
        let mut i: usize = 0;
        while i < clients.len()
            invariant
                i <= clients@.len(),
                forall|j: int| 0 <= j < i ==> clients@[j]@.0 != uuid@,
            decreases clients@.len() - i,
        {
            if str_eq(clients[i].uuid.as_str(), uuid) {
                return Some(i);
            }
            i = i + 1;
        }
        proof {
            let v = clients@.map_values(|c: Client| c@);
            assert forall|j: int| 0 <= j < v.len() implies v[j].0 != uuid@ by {
                assert(v[j] == clients@[j]@);
            }
        }
        None
    }

    /// Removes the client registered under `uuid` and returns it
    /// (`HashMap::remove`).
    pub fn remove(&mut self, uuid: &str) -> (r: Option<Client>)
        ensures
            final(self)@ == unregister(old(self)@, uuid@),
            match r {
                Some(c) => find_client(old(self)@, uuid@) == Some(c@),
                None => find_client(old(self)@, uuid@) is None,
            },
    {
        proof {
            use_type_invariant(&*self);
            lemma_unregister(self@, uuid@);
        }
        let ghost old_view = self@;
        let mut clients = Vec::new();
        std::mem::swap(&mut clients, &mut self.clients);
        let r = match Self::position_in(&clients, uuid) {
            Some(i) => {
                proof {
                    lemma_uuid_pos(old_view, i as int);
                }
                let c = clients.remove(i);
                assert(clients@.map_values(|c: Client| c@) =~= unregister(old_view, uuid@));
                Some(c)
            },
            None => {
                assert(clients@.map_values(|c: Client| c@) =~= unregister(old_view, uuid@));
                None
            },
        };
        self.clients = clients;
        r
    }
}

} // verus!
