//! The manager of the connected clients of the component-based server.
pub mod client;
pub mod traits;

use vstd::prelude::*;
use vstd::seq_lib::{to_multiset_build, to_multiset_insert};
use self::client::{Client, ClientMessage, ClientRecord};
use self::traits::TClientManager;

verus! {

/// The views of a list of clients.
pub open spec fn records(v: Seq<Client>) -> Seq<ClientRecord> {
    v.map_values(|c: Client| c@)
}

/// The clients are in ascending order of uuid.
pub open spec fn sorted_by_uuid(cs: Seq<ClientRecord>) -> bool {
    forall|i: int, j: int| 0 <= i < j < cs.len() ==> cs[i].0 <= cs[j].0
}

/// The test for the clients with uuid `u`.
pub open spec fn uuid_is(u: u128) -> spec_fn(ClientRecord) -> bool {
    |c: ClientRecord| c.0 == u
}

/// The clients with uuid `u`, in order.
pub open spec fn with_uuid(cs: Seq<ClientRecord>, u: u128) -> Seq<ClientRecord> {
    cs.filter(uuid_is(u))
}

/// Inserting `x` at a position after which every uuid is greater than
/// `x`'s appends `x` to the clients with its uuid and leaves the others.
proof fn lemma_with_uuid_insert(s: Seq<ClientRecord>, p: int, x: ClientRecord, u: u128)
    requires
        0 <= p <= s.len(),
        forall|q: int| p <= q < s.len() ==> s[q].0 > x.0,
    ensures
        with_uuid(s.insert(p, x), u) == if x.0 == u {
            with_uuid(s, u).push(x)
        } else {
            with_uuid(s, u)
        },
{
    let pred = uuid_is(u);
    let a = s.subrange(0, p);
    let b = s.subrange(p, s.len() as int);
    assert(s =~= a + b);
    assert(s.insert(p, x) =~= (a + seq![x]) + b);
    Seq::filter_distributes_over_add(a, b, pred);
    Seq::filter_distributes_over_add(a + seq![x], b, pred);
    Seq::filter_distributes_over_add(a, seq![x], pred);
    assert(seq![x] =~= Seq::<ClientRecord>::empty().push(x));
    Seq::<ClientRecord>::empty().lemma_filter_push(x, pred);
    assert(Seq::<ClientRecord>::empty().filter(pred) =~= Seq::<ClientRecord>::empty()) by {
        reveal(Seq::filter);
    }
    if x.0 == u {
        assert(b.all(|c: ClientRecord| !pred(c)));
        b.lemma_all_neg_filter_empty(pred);
        assert(b.filter(pred) =~= Seq::<ClientRecord>::empty());
        assert(with_uuid(s.insert(p, x), u) =~= with_uuid(s, u).push(x));
    } else {
        assert(with_uuid(s.insert(p, x), u) =~= with_uuid(s, u));
    }
}

/// The clients, reordered by ascending uuid; clients with the same uuid
/// keep their order (a stable insertion sort).
pub fn sort_by_uuid(clients: &Vec<Client>) -> (r: Vec<Client>)
    ensures
        sorted_by_uuid(records(r@)),
        forall|u: u128| #[trigger] with_uuid(records(r@), u) == with_uuid(records(clients@), u),
        records(r@).to_multiset() == records(clients@).to_multiset(),
{
    let mut sorted: Vec<Client> = Vec::new();
    let mut i: usize = 0;
    assert(records(clients@).subrange(0, 0) =~= Seq::<ClientRecord>::empty());
    assert(records(sorted@) =~= Seq::<ClientRecord>::empty());
    while i < clients.len()
        invariant
            i <= clients@.len(),
            sorted_by_uuid(records(sorted@)),
            forall|u: u128| #[trigger] with_uuid(records(sorted@), u) == with_uuid(
                records(clients@).subrange(0, i as int),
                u,
            ),
            records(sorted@).to_multiset() == records(clients@).subrange(0, i as int).to_multiset(),
        decreases clients@.len() - i,
    {
        let x = clients[i].clone();
        let mut p: usize = 0;
        while p < sorted.len() && sorted[p].uuid <= x.uuid
            invariant
                p <= sorted@.len(),
                forall|q: int| 0 <= q < p ==> (#[trigger] sorted@[q]).uuid <= x.uuid,
            decreases sorted@.len() - p,
        {
            p = p + 1;
        }
        let ghost before = records(sorted@);
        assert(p == before.len() || before[p as int].0 > x@.0);
        sorted.insert(p, x);
        proof {
            assert(records(sorted@) =~= before.insert(p as int, x@));
            to_multiset_insert(before, p as int, x@);
            let sub = records(clients@).subrange(0, i + 1);
            assert(sub =~= records(clients@).subrange(0, i as int).push(x@));
            to_multiset_build(records(clients@).subrange(0, i as int), x@);
            assert forall|q: int| p <= q < before.len() implies before[q].0 > x@.0 by {
                if q > p {
                    assert(before[p as int].0 <= before[q].0);
                }
            }
            assert forall|u: u128| #[trigger] with_uuid(records(sorted@), u) == with_uuid(
                sub,
                u,
            ) by {
                lemma_with_uuid_insert(before, p as int, x@, u);
                records(clients@).subrange(0, i as int).lemma_filter_push(x@, uuid_is(u));
            }
            let s = records(sorted@);
            assert forall|a: int, b: int| 0 <= a < b < s.len() implies s[a].0 <= s[b].0 by {
                if a < p && b < p {
                    assert(before[a].0 <= before[b].0);
                } else if a < p && b == p {
                    assert(s[a] == sorted@[a]@);
                } else if a < p && b > p {
                    assert(before[a].0 <= before[b - 1].0);
                } else if a == p {
                    if p < before.len() {
                        assert(!(sorted@[p + 1].uuid <= x.uuid) || b == p);
                        assert(before[p as int].0 <= before[b - 1].0 || b - 1 == p);
                    }
                } else {
                    assert(before[a - 1].0 <= before[b - 1].0);
                }
            }
        }
        i = i + 1;
    }
    assert(records(clients@).subrange(0, clients@.len() as int) =~= records(clients@));
    sorted
}

/// The connected clients of the component-based server; its channels are
/// kept by the application.
#[derive(Debug)]
pub struct ClientManager {
    pub clients: Vec<Client>,
}

impl ClientManager {
    /// A manager with no client.
    pub fn new() -> (r: ClientManager)
        ensures
            records(r.clients@) == Seq::<ClientRecord>::empty(),
    {
        let r = ClientManager { clients: Vec::new() };
        assert(records(r.clients@) =~= Seq::<ClientRecord>::empty());
        r
    }

    /// The manager's time slice: the clients' own ticks are not run from
    /// here, so nothing happens.
    pub fn tick(&self) {
    }
}

impl TClientManager<Client, ClientMessage> for ClientManager {
    /// Appends the client.
    fn add_client(&mut self, client: Client)
        ensures
            records(final(self).clients@) == records(old(self).clients@).push(client@),
    {
        let ghost c = client@;
        self.clients.push(client);
        assert(records(self.clients@) =~= records(old(self).clients@).push(c));
    }

    /// Removal sorts the clients by uuid, stably, and keeps all of them,
    /// the one with `uuid` included.
    fn remove_client(&mut self, uuid: u128)
        ensures
            sorted_by_uuid(records(final(self).clients@)),
            forall|u: u128| #[trigger] with_uuid(records(final(self).clients@), u) == with_uuid(
                records(old(self).clients@),
                u,
            ),
            records(final(self).clients@).to_multiset() == records(old(self).clients@).to_multiset(),
    {
        let sorted = sort_by_uuid(&self.clients);
        self.clients = sorted;
    }

    /// Sending a client a message has no effect: messages to clients are
    /// not delivered by the manager.
    fn send_message_to_client(&self, uuid: u128, msg: ClientMessage) {
    }
}

} // verus!
