//! The registry of open rooms, keyed by room id, and the requests that it
//! answers. It is generic over the handle `A` by which a room is reached.

use vstd::prelude::*;

verus! {

/// A request to the registry.
pub enum ManagerRoomRequest<A> {
    /// The room registered under an id, if any.
    Query(String),
    /// Register a room under an id, replacing any room registered under it.
    Create(String, A),
    /// Unregister the room under an id, handing it back.
    Delete(String),
}

/// No two entries of `s` share an id.
pub open spec fn distinct_ids<A>(s: Seq<(String, A)>) -> bool {
    forall|i: int, j: int|
        0 <= i < s.len() && 0 <= j < s.len() && i != j ==> #[trigger] s[i].0@ != #[trigger] s[j].0@
}

/// The map from id to room that the entries of `s` hold.
pub open spec fn entry_map<A>(s: Seq<(String, A)>) -> Map<Seq<char>, A> {
    Map::new(
        |k: Seq<char>| exists|i: int| 0 <= i < s.len() && #[trigger] s[i].0@ == k,
        |k: Seq<char>| s[choose|i: int| 0 <= i < s.len() && #[trigger] s[i].0@ == k].1,
    )
}

/// What a `Query` for `k` answers on `rooms`: a clone of the room under `k`,
/// or `None` where there is none.
pub open spec fn query_answer<A: Clone>(rooms: Map<Seq<char>, A>, k: Seq<char>, r: Option<A>) -> bool {
    match r {
        Some(v) => rooms.contains_key(k) && cloned(rooms[k], v),
        None => !rooms.contains_key(k),
    }
}

/// `after` is `before` with a clone of `a` registered under `k`.
pub open spec fn created<A: Clone>(
    before: Map<Seq<char>, A>,
    after: Map<Seq<char>, A>,
    k: Seq<char>,
    a: A,
) -> bool {
    &&& after.dom() == before.dom().insert(k)
    &&& cloned(a, after[k])
    &&& forall|j: Seq<char>| j != k && before.contains_key(j) ==> after[j] == before[j]
}

/// What a `Delete` of `k` answers on `rooms`: the room under `k`, if any.
pub open spec fn removal_answer<A>(rooms: Map<Seq<char>, A>, k: Seq<char>) -> Option<A> {
    if rooms.contains_key(k) {
        Some(rooms[k])
    } else {
        None
    }
}

proof fn lemma_entry_at<A>(s: Seq<(String, A)>, i: int)
    requires
        distinct_ids(s),
        0 <= i < s.len(),
    ensures
        entry_map(s).contains_key(s[i].0@),
        entry_map(s)[s[i].0@] == s[i].1,
{
    let k = s[i].0@;
    assert(exists|j: int| 0 <= j < s.len() && #[trigger] s[j].0@ == k);
    let c = choose|j: int| 0 <= j < s.len() && #[trigger] s[j].0@ == k;
    assert(c == i);
}

proof fn lemma_entry_push<A>(s: Seq<(String, A)>, e: (String, A))
    requires
        distinct_ids(s),
        !entry_map(s).contains_key(e.0@),
    ensures
        distinct_ids(s.push(e)),
        entry_map(s.push(e)) == entry_map(s).insert(e.0@, e.1),
{
    let t = s.push(e);
    assert forall|i: int, j: int|
        0 <= i < t.len() && 0 <= j < t.len() && i != j implies #[trigger] t[i].0@ != #[trigger] t[j].0@ by {
        if i < s.len() && j < s.len() {
            assert(t[i] == s[i] && t[j] == s[j]);
        } else if i < s.len() {
            assert(s[i].0@ == t[i].0@);
        } else {
            assert(s[j].0@ == t[j].0@);
        }
    }
    assert forall|k: Seq<char>| #[trigger] entry_map(t).contains_key(k) <==> entry_map(s).insert(e.0@, e.1).contains_key(k) by {
        if entry_map(s).contains_key(k) {
            let i = choose|i: int| 0 <= i < s.len() && #[trigger] s[i].0@ == k;
            assert(t[i].0@ == k);
        }
        if k == e.0@ {
            assert(t[s.len() as int].0@ == k);
        }
        if entry_map(t).contains_key(k) {
            let i = choose|i: int| 0 <= i < t.len() && #[trigger] t[i].0@ == k;
            if i < s.len() {
                assert(s[i].0@ == k);
            }
        }
    }
    assert forall|k: Seq<char>| #[trigger] entry_map(t).contains_key(k) implies entry_map(t)[k]
        == entry_map(s).insert(e.0@, e.1)[k] by {
        let i = choose|i: int| 0 <= i < t.len() && #[trigger] t[i].0@ == k;
        lemma_entry_at(t, i);
        if i < s.len() {
            lemma_entry_at(s, i);
            assert(t[i] == s[i]);
        }
    }
    assert(entry_map(t) =~= entry_map(s).insert(e.0@, e.1));
}

proof fn lemma_entry_update<A>(s: Seq<(String, A)>, i: int, e: (String, A))
    requires
        distinct_ids(s),
        0 <= i < s.len(),
        e.0@ == s[i].0@,
    ensures
        distinct_ids(s.update(i, e)),
        entry_map(s.update(i, e)) == entry_map(s).insert(e.0@, e.1),
{
    let t = s.update(i, e);
    assert forall|a: int, b: int|
        0 <= a < t.len() && 0 <= b < t.len() && a != b implies #[trigger] t[a].0@ != #[trigger] t[b].0@ by {
        assert(t[a].0@ == s[a].0@ && t[b].0@ == s[b].0@);
    }
    assert forall|k: Seq<char>| #[trigger] entry_map(t).contains_key(k) <==> entry_map(s).insert(e.0@, e.1).contains_key(k) by {
        if entry_map(s).contains_key(k) {
            let j = choose|j: int| 0 <= j < s.len() && #[trigger] s[j].0@ == k;
            assert(t[j].0@ == k);
        }
        if k == e.0@ {
            assert(t[i].0@ == k);
        }
        if entry_map(t).contains_key(k) {
            let j = choose|j: int| 0 <= j < t.len() && #[trigger] t[j].0@ == k;
            assert(s[j].0@ == k);
        }
    }
    assert forall|k: Seq<char>| #[trigger] entry_map(t).contains_key(k) implies entry_map(t)[k]
        == entry_map(s).insert(e.0@, e.1)[k] by {
        let j = choose|j: int| 0 <= j < t.len() && #[trigger] t[j].0@ == k;
        lemma_entry_at(t, j);
        if j != i {
            lemma_entry_at(s, j);
            assert(t[j] == s[j]);
        }
    }
    assert(entry_map(t) =~= entry_map(s).insert(e.0@, e.1));
}

proof fn lemma_entry_remove<A>(s: Seq<(String, A)>, i: int)
    requires
        distinct_ids(s),
        0 <= i < s.len(),
    ensures
        distinct_ids(s.remove(i)),
        entry_map(s.remove(i)) == entry_map(s).remove(s[i].0@),
{
    let t = s.remove(i);
    let gone = s[i].0@;
    assert forall|a: int, b: int|
        0 <= a < t.len() && 0 <= b < t.len() && a != b implies #[trigger] t[a].0@ != #[trigger] t[b].0@ by {
        let sa = if a < i { a } else { a + 1 };
        let sb = if b < i { b } else { b + 1 };
        assert(t[a] == s[sa] && t[b] == s[sb]);
    }
    assert forall|k: Seq<char>| #[trigger] entry_map(t).contains_key(k) <==> entry_map(s).remove(gone).contains_key(k) by {
        if entry_map(s).contains_key(k) && k != gone {
            let j = choose|j: int| 0 <= j < s.len() && #[trigger] s[j].0@ == k;
            if j < i {
                assert(t[j].0@ == k);
            } else {
                assert(t[j - 1].0@ == k);
            }
        }
        if entry_map(t).contains_key(k) {
            let j = choose|j: int| 0 <= j < t.len() && #[trigger] t[j].0@ == k;
            let sj = if j < i { j } else { j + 1 };
            assert(s[sj].0@ == k);
            assert(sj != i);
        }
    }
    assert forall|k: Seq<char>| #[trigger] entry_map(t).contains_key(k) implies entry_map(t)[k]
        == entry_map(s).remove(gone)[k] by {
        let j = choose|j: int| 0 <= j < t.len() && #[trigger] t[j].0@ == k;
        lemma_entry_at(t, j);
        let sj = if j < i { j } else { j + 1 };
        assert(t[j] == s[sj]);
        lemma_entry_at(s, sj);
    }
    assert(entry_map(t) =~= entry_map(s).remove(gone));
}

/// Only finitely many ids have an entry in `s`.
proof fn lemma_entry_finite<A>(s: Seq<(String, A)>)
    ensures
        entry_map(s).dom().finite(),
{
    let ids = s.map_values(|e: (String, A)| e.0@);
    assert forall|k: Seq<char>| #[trigger] entry_map(s).dom().contains(k) <==> ids.to_set().contains(k) by {
        if entry_map(s).dom().contains(k) {
            let i = choose|i: int| 0 <= i < s.len() && #[trigger] s[i].0@ == k;
            assert(ids[i] == k);
        }
        if ids.to_set().contains(k) {
            let i = choose|i: int| 0 <= i < ids.len() && ids[i] == k;
            assert(s[i].0@ == k);
        }
    }
    assert(entry_map(s).dom() =~= ids.to_set());
    vstd::seq_lib::seq_to_set_is_finite(ids);
}

/// The registry: one entry per room id.
///
/// The entries are held in a `Vec` whose ids are distinct, not in a
/// `HashMap<String, A>`: vstd specifies `HashMap` only for key types known to
/// obey its key model, and `String` is not among them (an `insert` on such a
/// map proves nothing of its contents), while vstd's `StringHashMap` removes an
/// entry without handing it back, which a `Delete` must do.
pub struct Manager<A>(Vec<(String, A)>);

impl<A> Manager<A> {
    #[verifier::type_invariant]
    closed spec fn inv(self) -> bool {
        distinct_ids(self.0@)
    }

    /// The rooms, by id.
    pub closed spec fn rooms(self) -> Map<Seq<char>, A> {
        entry_map(self.0@)
    }

    /// An empty registry.
    pub fn new() -> (r: Self)
        ensures
            r.rooms() == Map::<Seq<char>, A>::empty(),
            r.rooms().dom().finite(),
    {
        let r = Manager(Vec::new());
        assert(r.rooms() =~= Map::<Seq<char>, A>::empty());
        r
    }

    /// Where `key` stands among `entries`.
    fn find(entries: &Vec<(String, A)>, key: &String) -> (r: Option<usize>)
        ensures
            match r {
                Some(i) => i < entries.len() && entries@[i as int].0@ == key@,
                None => forall|j: int| 0 <= j < entries.len() ==> #[trigger] entries@[j].0@ != key@,
            },
    {
        let mut i: usize = 0;
        while i < entries.len()
            invariant
                i <= entries.len(),
                forall|j: int| 0 <= j < i ==> #[trigger] entries@[j].0@ != key@,
            decreases entries.len() - i,
        {
            if entries[i].0 == *key {
                return Some(i);
            }
            i = i + 1;
        }
        None
    }
}

impl<A> Default for Manager<A> {
    /// An empty registry.
    fn default() -> (r: Self)
        ensures
            r.rooms() == Map::<Seq<char>, A>::empty(),
            r.rooms().dom().finite(),
    {
        Manager::new()
    }
}

impl<A: Clone> Manager<A> {
    /// Answers a request: a `Query` changes nothing and answers a clone of
    /// the room under its id, a `Create` registers a clone of its room and
    /// answers the room it was given, and a `Delete` unregisters the room
    /// under its id and answers it.
    pub fn handle(&mut self, msg: ManagerRoomRequest<A>) -> (r: Option<A>)
        ensures
            old(self).rooms().dom().finite(),
            final(self).rooms().dom().finite(),
            match msg {
                ManagerRoomRequest::Query(k) => {
                    &&& final(self).rooms() == old(self).rooms()
                    &&& query_answer(old(self).rooms(), k@, r)
                },
                ManagerRoomRequest::Create(k, a) => {
                    &&& created(old(self).rooms(), final(self).rooms(), k@, a)
                    &&& r == Some(a)
                },
                ManagerRoomRequest::Delete(k) => {
                    &&& final(self).rooms() == old(self).rooms().remove(k@)
                    &&& r == removal_answer(old(self).rooms(), k@)
                },
            },
    {
        proof {
            use_type_invariant(&*self);
            lemma_entry_finite(self.0@);
        }
        let mut entries: Vec<(String, A)> = Vec::new();
        std::mem::swap(&mut entries, &mut self.0);
        let ghost s = entries@;
        let r = match msg {
            ManagerRoomRequest::Query(query) => {
                let r = match Self::find(&entries, &query) {
                    Some(i) => {
                        proof {
                            lemma_entry_at(s, i as int);
                        }
                        Some(entries[i].1.clone())
                    },
                    None => None,
                };
                self.0 = entries;
                r
            },
            ManagerRoomRequest::Create(query, room) => {
                let stored = room.clone();
                match Self::find(&entries, &query) {
                    Some(i) => {
                        proof {
                            lemma_entry_update(s, i as int, (query, stored));
                        }
                        entries.set(i, (query, stored));
                    },
                    None => {
                        proof {
                            lemma_entry_push(s, (query, stored));
                        }
                        entries.push((query, stored));
                    },
                }
                self.0 = entries;
                assert(self.rooms()[query@] == stored);
                Some(room)
            },
            ManagerRoomRequest::Delete(query) => {
                match Self::find(&entries, &query) {
                    Some(i) => {
                        proof {
                            lemma_entry_at(s, i as int);
                            lemma_entry_remove(s, i as int);
                        }
                        let (_, room) = entries.remove(i);
                        self.0 = entries;
                        Some(room)
                    },
                    None => {
                        assert(entry_map(s).remove(query@) =~= entry_map(s));
                        self.0 = entries;
                        None
                    },
                }
            },
        };
        proof {
            lemma_entry_finite(self.0@);
        }
        r
    }
}

/// A `Query` right after a `Create` under the same id finds a room.
pub proof fn lemma_query_after_create<A: Clone>(
    before: Map<Seq<char>, A>,
    after: Map<Seq<char>, A>,
    k: Seq<char>,
    a: A,
    r: Option<A>,
)
    requires
        created(before, after, k, a),
        query_answer(after, k, r),
    ensures
        r matches Some(v) && cloned(after[k], v) && cloned(a, after[k]),
{
}

/// A `Delete` right after a `Create` under the same id hands back the room
/// that was registered, and leaves the registry as the `Create` would have
/// found it without that id.
pub proof fn lemma_delete_after_create<A: Clone>(
    before: Map<Seq<char>, A>,
    after: Map<Seq<char>, A>,
    k: Seq<char>,
    a: A,
)
    requires
        created(before, after, k, a),
    ensures
        removal_answer(after, k) matches Some(v) && cloned(a, v),
        after.remove(k) == before.remove(k),
{
    assert(after.remove(k) =~= before.remove(k));
}

/// A `Query` right after a `Delete` under the same id finds nothing.
pub proof fn lemma_query_after_delete<A: Clone>(rooms: Map<Seq<char>, A>, k: Seq<char>, r: Option<A>)
    requires
        query_answer(rooms.remove(k), k, r),
    ensures
        r is None,
{
}

/// Of two `Create`s under the same id, the later one wins, as if the first
/// had not happened.
pub proof fn lemma_create_overwrites<A: Clone>(
    m0: Map<Seq<char>, A>,
    m1: Map<Seq<char>, A>,
    m2: Map<Seq<char>, A>,
    k: Seq<char>,
    a: A,
    b: A,
)
    requires
        created(m0, m1, k, a),
        created(m1, m2, k, b),
    ensures
        created(m0, m2, k, b),
{
    assert(m2.dom() =~= m0.dom().insert(k));
}

/// A `Delete` of an id under which nothing is registered changes nothing.
pub proof fn lemma_delete_absent<A>(rooms: Map<Seq<char>, A>, k: Seq<char>)
    requires
        !rooms.contains_key(k),
    ensures
        rooms.remove(k) == rooms,
        removal_answer(rooms, k) is None,
{
    assert(rooms.remove(k) =~= rooms);
}

} // verus!
