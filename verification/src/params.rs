//! The parameters of a command: a map from parameter names to values,
//! kept as a list of entries in the order their keys were first inserted.
use vstd::prelude::*;
use crate::text::str_eq;

verus! {

/// A parameter list as the contracts see it: `(key, value)` pairs.
pub type ParamsView = Seq<(Seq<char>, Seq<char>)>;

/// No key occurs twice.
pub open spec fn keys_distinct(ps: ParamsView) -> bool {
    forall|i: int, j: int| 0 <= i < j < ps.len() ==> ps[i].0 != ps[j].0
}

/// `k` is one of the keys of `ps`.
pub open spec fn has_key(ps: ParamsView, k: Seq<char>) -> bool {
    exists|i: int| 0 <= i < ps.len() && ps[i].0 == k
}

/// The position of key `k` in `ps` (meaningful when `has_key(ps, k)`).
pub open spec fn key_pos(ps: ParamsView, k: Seq<char>) -> int {
    choose|i: int| 0 <= i < ps.len() && ps[i].0 == k
}

/// The value stored under `k`, if any.
pub open spec fn lookup(ps: ParamsView, k: Seq<char>) -> Option<Seq<char>> {
    if has_key(ps, k) {
        Some(ps[key_pos(ps, k)].1)
    } else {
        None
    }
}

/// Map insertion: the value of an existing key is replaced in place,
/// a new key is appended.
pub open spec fn params_insert(ps: ParamsView, k: Seq<char>, v: Seq<char>) -> ParamsView {
    if has_key(ps, k) {
        ps.update(key_pos(ps, k), (k, v))
    } else {
        ps.push((k, v))
    }
}

/// What `compare_params` decides for two present parameter maps: they have
/// the same number of entries, every key they share has the same value in
/// both, and they share at least one key.
pub open spec fn params_agree(p: ParamsView, o: ParamsView) -> bool {
    &&& p.len() == o.len()
    &&& forall|k: Seq<char>| has_key(p, k) && has_key(o, k) ==> lookup(p, k) == lookup(o, k)
    &&& exists|k: Seq<char>| has_key(p, k) && has_key(o, k)
}

/// The comparison of two optional parameter maps that command equality uses.
pub open spec fn compare_params_spec(p: Option<ParamsView>, o: Option<ParamsView>) -> bool {
    match (p, o) {
        (None, None) => true,
        (Some(p), Some(o)) => params_agree(p, o),
        _ => false,
    }
}

/// In a map with distinct keys, the key of entry `i` is found at `i`.
pub proof fn lemma_key_pos(ps: ParamsView, i: int)
    requires
        keys_distinct(ps),
        0 <= i < ps.len(),
    ensures
        has_key(ps, ps[i].0),
        key_pos(ps, ps[i].0) == i,
        lookup(ps, ps[i].0) == Some(ps[i].1),
{
    let k = ps[i].0;
    assert(has_key(ps, k));
    let j = key_pos(ps, k);
    if j < i {
        assert(ps[j].0 != ps[i].0);
    } else if i < j {
        assert(ps[i].0 != ps[j].0);
    }
}

/// Inserting into a parameter map keeps its keys distinct; afterwards the
/// inserted key maps to the inserted value and every other key maps to what
/// it did before.
pub proof fn law_lookup_after_insert(ps: ParamsView, k: Seq<char>, v: Seq<char>)
    requires
        keys_distinct(ps),
    ensures
        keys_distinct(params_insert(ps, k, v)),
        has_key(params_insert(ps, k, v), k),
        lookup(params_insert(ps, k, v), k) == Some(v),
        forall|k2: Seq<char>| k2 != k ==> lookup(params_insert(ps, k, v), k2) == lookup(ps, k2),
{
    let r = params_insert(ps, k, v);
    if has_key(ps, k) {
        let p = key_pos(ps, k);
        assert forall|i: int, j: int| 0 <= i < j < r.len() implies r[i].0 != r[j].0 by {
            assert(ps[i].0 != ps[j].0);
        }
    } else {
        assert forall|i: int, j: int| 0 <= i < j < r.len() implies r[i].0 != r[j].0 by {
            if j < ps.len() {
                assert(ps[i].0 != ps[j].0);
            } else {
                assert(r[j].0 == k);
                assert(r[i] == ps[i]);
            }
        }
    }
    let ip = key_pos_of_insert(ps, k, v);
    lemma_key_pos(r, ip);
    assert forall|k2: Seq<char>| k2 != k implies lookup(r, k2) == lookup(ps, k2) by {
        if has_key(ps, k2) {
            let q = key_pos(ps, k2);
            lemma_key_pos(ps, q);
            assert(r[q] == ps[q]);
            lemma_key_pos(r, q);
        }
        if has_key(r, k2) {
            let q = key_pos(r, k2);
            assert(r[q].0 == k2);
            assert(q < ps.len());
            assert(r[q] == ps[q]);
            assert(has_key(ps, k2));
        }
    }
}

proof fn key_pos_of_insert(ps: ParamsView, k: Seq<char>, v: Seq<char>) -> (i: int)
    requires
        keys_distinct(ps),
    ensures
        0 <= i < params_insert(ps, k, v).len(),
        params_insert(ps, k, v)[i] == (k, v),
{
    if has_key(ps, k) {
        key_pos(ps, k)
    } else {
        ps.len() as int
    }
}

/// A parameter map whose keys are distinct.
#[derive(Debug)]
pub struct Params {
    entries: Vec<(String, String)>,
}

impl View for Params {
    type V = ParamsView;

    closed spec fn view(&self) -> ParamsView {
        self.entries@.map_values(|e: (String, String)| (e.0@, e.1@))
    }
}

impl Clone for Params {
    fn clone(&self) -> (r: Self)
        ensures
            r@ == self@,
    {
        proof {
            use_type_invariant(self);
        }
        let mut entries: Vec<(String, String)> = Vec::new();
        let mut i: usize = 0;
        while i < self.entries.len()
            invariant
                i <= self.entries@.len(),
                entries@.len() == i,
                forall|j: int|
                    0 <= j < i ==> (#[trigger] entries@[j]).0@ == self.entries@[j].0@
                        && entries@[j].1@ == self.entries@[j].1@,
            decreases self.entries@.len() - i,
        {
            let k = self.entries[i].0.clone();
            let v = self.entries[i].1.clone();
            entries.push((k, v));
            i = i + 1;
        }
        assert(entries@.map_values(|e: (String, String)| (e.0@, e.1@)) =~= self@);
        Params { entries }
    }
}

impl Params {
    /// The keys of a parameter map are distinct.
    #[verifier::type_invariant]
    pub open spec fn inv(&self) -> bool {
        keys_distinct(self@)
    }

    /// An empty parameter map.
    pub fn new() -> (r: Params)
        ensures
            r@ == Seq::<(Seq<char>, Seq<char>)>::empty(),
    {
        let r = Params { entries: Vec::new() };
        assert(r@ =~= Seq::<(Seq<char>, Seq<char>)>::empty());
        r
    }

    /// The number of entries.
    pub fn len(&self) -> (n: usize)
        ensures
            n == self@.len(),
    {
        self.entries.len()
    }

    /// Whether the map has no entry.
    pub fn is_empty(&self) -> (b: bool)
        ensures
            b == (self@.len() == 0),
    {
        self.entries.len() == 0
    }

    /// The `i`-th entry, in insertion order of its key.
    pub fn entry_at(&self, i: usize) -> (r: (&String, &String))
        requires
            i < self@.len(),
        ensures
            (r.0@, r.1@) == self@[i as int],
    {
        (&self.entries[i].0, &self.entries[i].1)
    }

    /// The position of `key`, if it is present.
    fn position(&self, key: &str) -> (r: Option<usize>)
        ensures
            match r {
                Some(i) => i < self@.len() && self@[i as int].0 == key@,
                None => !has_key(self@, key@),
            },
    {
        let mut i: usize = 0;
        while i < self.entries.len()
            invariant
                i <= self.entries@.len(),
                forall|j: int| 0 <= j < i ==> self@[j].0 != key@,
            decreases self.entries@.len() - i,
        {
            if str_eq(self.entries[i].0.as_str(), key) {
                return Some(i);
            }
            i = i + 1;
        }
        None
    }

    /// The value stored under `key` (`HashMap::get`).
    pub fn get(&self, key: &str) -> (r: Option<&String>)
        ensures
            match r {
                Some(v) => lookup(self@, key@) == Some(v@),
                None => lookup(self@, key@) is None,
            },
    {
        proof {
            use_type_invariant(self);
        }
        match self.position(key) {
            Some(i) => {
                proof {
                    lemma_key_pos(self@, i as int);
                }
                Some(&self.entries[i].1)
            },
            None => None,
        }
    }

    /// Whether `key` is present (`HashMap::contains_key`).
    pub fn contains_key(&self, key: &str) -> (b: bool)
        ensures
            b == has_key(self@, key@),
    {
        self.position(key).is_some()
    }

    /// Stores `value` under `key`, replacing the value of an existing key
    /// (`HashMap::insert`).
    pub fn insert(&mut self, key: String, value: String)
        ensures
            final(self)@ == params_insert(old(self)@, key@, value@),
    {
        proof {
            use_type_invariant(&*self);
            law_lookup_after_insert(self@, key@, value@);
        }
        let ghost old_view = self@;
        match self.position(key.as_str()) {
            Some(i) => {
                proof {
                    lemma_key_pos(old_view, i as int);
                }
                let mut entries = Vec::new();
                std::mem::swap(&mut entries, &mut self.entries);
                entries.set(i, (key, value));
                proof {
                    assert(entries@.map_values(|e: (String, String)| (e.0@, e.1@))
                        =~= params_insert(old_view, key@, value@));
                }
                self.entries = entries;
            },
            None => {
                let mut entries = Vec::new();
                std::mem::swap(&mut entries, &mut self.entries);
                entries.push((key, value));
                proof {
                    assert(entries@.map_values(|e: (String, String)| (e.0@, e.1@))
                        =~= params_insert(old_view, key@, value@));
                }
                self.entries = entries;
            },
        }
    }
}

/// The comparison of parameters that command equality uses: two absent
/// maps are equal, an absent and a present one are not, and two present
/// maps are compared entry by entry (see `params_agree`).
pub fn compare_params(params: &Option<Params>, other_params: &Option<Params>) -> (r: bool)
    ensures
        r == compare_params_spec(opt_view(params), opt_view(other_params)),
{
    match (params, other_params) {
        (None, Some(_)) => false,
        (Some(_), None) => false,
        (None, None) => true,
        (Some(p), Some(o)) => {
            proof {
                use_type_invariant(p);
                use_type_invariant(o);
            }
            assert(opt_view(params) == Some(p@) && opt_view(other_params) == Some(o@));
            let mut result = false;
            if p.len() == o.len() {
                let n = p.len();
                let mut i: usize = 0;
                while i < n
                    invariant
                        n == p@.len(),
                        n == o@.len(),
                        opt_view(params) == Some(p@),
                        opt_view(other_params) == Some(o@),
                        i <= n,
                        keys_distinct(p@),
                        keys_distinct(o@),
                        forall|j: int|
                            0 <= j < i && #[trigger] has_key(o@, p@[j].0) ==> lookup(o@, p@[j].0)
                                == Some(p@[j].1),
                        result == (exists|j: int| 0 <= j < i && #[trigger] has_key(o@, p@[j].0)),
                    decreases n - i,
                {
                    let (key, value) = p.entry_at(i);
                    match o.get(key.as_str()) {
                        Some(other_value) => {
                            if !str_eq(value.as_str(), other_value.as_str()) {
                                proof {
                                    lemma_key_pos(p@, i as int);
                                    assert(has_key(o@, key@));
                                    assert(lookup(p@, key@) != lookup(o@, key@));
                                    assert(!params_agree(p@, o@));
                                }
                                return false;
                            } else {
                                result = true;
                            }
                        },
                        None => {},
                    }
                    i = i + 1;
                }
                proof {
                    assert forall|k: Seq<char>| has_key(p@, k) && has_key(o@, k) implies lookup(
                        p@,
                        k,
                    ) == lookup(o@, k) by {
                        let j = key_pos(p@, k);
                        lemma_key_pos(p@, j);
                    }
                    if result {
                        let j = choose|j: int| 0 <= j < n && #[trigger] has_key(o@, p@[j].0);
                        lemma_key_pos(p@, j);
                        assert(has_key(p@, p@[j].0) && has_key(o@, p@[j].0));
                    } else {
                        assert forall|k: Seq<char>| !(has_key(p@, k) && has_key(o@, k)) by {
                            if has_key(p@, k) {
                                let j = key_pos(p@, k);
                                assert(!has_key(o@, p@[j].0));
                            }
                        }
                    }
                }
            }
            result
        },
    }
}

/// The view of an optional parameter map.
pub open spec fn opt_view(p: &Option<Params>) -> Option<ParamsView> {
    match p {
        Some(p) => Some(p@),
        None => None,
    }
}

/// How parameters compare: two absent maps are equal and an absent one is
/// never equal to a present one; two present maps of different sizes are
/// unequal, as are two that give a shared key different values or that
/// share no key; two of the same size that share a key and agree on every
/// key they share are equal.
pub proof fn law_compare_params_cases(p: ParamsView, o: ParamsView, k: Seq<char>)
    ensures
        compare_params_spec(None, None),
        !compare_params_spec(None, Some(o)),
        !compare_params_spec(Some(p), None),
        p.len() != o.len() ==> !compare_params_spec(Some(p), Some(o)),
        has_key(p, k) && has_key(o, k) && lookup(p, k) != lookup(o, k) ==> !compare_params_spec(
            Some(p),
            Some(o),
        ),
        (forall|j: Seq<char>| !(has_key(p, j) && has_key(o, j))) ==> !compare_params_spec(
            Some(p),
            Some(o),
        ),
        p.len() == o.len() && has_key(p, k) && has_key(o, k) && (forall|j: Seq<char>|
            has_key(p, j) && has_key(o, j) ==> lookup(p, j) == lookup(o, j)) ==> compare_params_spec(
            Some(p),
            Some(o),
        ),
{
}

/// Comparing parameter maps is symmetric.
pub proof fn law_compare_params_symmetric(p: Option<ParamsView>, o: Option<ParamsView>)
    ensures
        compare_params_spec(p, o) == compare_params_spec(o, p),
{
    if let (Some(a), Some(b)) = (p, o) {
        if params_agree(a, b) {
            let k = choose|k: Seq<char>| has_key(a, k) && has_key(b, k);
            assert(has_key(b, k) && has_key(a, k));
        }
        if params_agree(b, a) {
            let k = choose|k: Seq<char>| has_key(b, k) && has_key(a, k);
            assert(has_key(a, k) && has_key(b, k));
        }
    }
}

/// A parameter map compares equal to itself exactly when it is absent or
/// holds at least one entry: two present but empty maps compare unequal.
pub proof fn law_compare_params_reflexive(p: Option<ParamsView>)
    requires
        p matches Some(ps) ==> keys_distinct(ps),
    ensures
        compare_params_spec(p, p) <==> (p is None || p->0.len() > 0),
{
    if let Some(ps) = p {
        if ps.len() > 0 {
            lemma_key_pos(ps, 0);
            assert(has_key(ps, ps[0].0));
        }
    }
}

} // verus!
