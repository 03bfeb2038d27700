use vstd::prelude::*;

use crate::online_user::{record_hash, Hashable, OnlineUser};

verus! {

/// Whether some user of `users` has the hash `k`.
pub open spec fn hash_in(users: Seq<OnlineUser>, k: u64) -> bool {
    exists|j: int| 0 <= j < users.len() && record_hash(#[trigger] users[j]) == k
}

/// `records` after observing `u`: appended when no record has its hash.
pub open spec fn observe_one(records: Seq<OnlineUser>, u: OnlineUser) -> Seq<OnlineUser> {
    if hash_in(records, record_hash(u)) {
        records
    } else {
        records.push(u)
    }
}

/// `records` after observing each of `users` in turn.
pub open spec fn observe_all(records: Seq<OnlineUser>, users: Seq<OnlineUser>) -> Seq<OnlineUser>
    decreases users.len(),
{
    if users.len() == 0 {
        records
    } else {
        observe_one(observe_all(records, users.drop_last()), users.last())
    }
}

/// The records whose hash no user of `current` has, in their order.
pub open spec fn missing_from(records: Seq<OnlineUser>, current: Seq<OnlineUser>) -> Seq<OnlineUser> {
    records.filter(|u: OnlineUser| !hash_in(current, record_hash(u)))
}

/// No two records share a hash.
pub open spec fn hashes_distinct(records: Seq<OnlineUser>) -> bool {
    forall|i: int, j: int|
        0 <= i < records.len() && 0 <= j < records.len() && i != j ==> record_hash(
            #[trigger] records[i],
        ) != record_hash(#[trigger] records[j])
}

/// Every distinct session seen so far, keyed by its content hash; the first
/// record seen with a hash is the one kept.
pub struct HistManager {
    hist: Vec<(u64, OnlineUser)>,
}

impl View for HistManager {
    type V = Seq<OnlineUser>;

    /// The stored records, in the order in which they were first seen.
    closed spec fn view(&self) -> Seq<OnlineUser> {
        self.hist@.map_values(|e: (u64, OnlineUser)| e.1)
    }
}

impl HistManager {
    /// Each record is stored under its own hash, and no hash twice.
    pub closed spec fn wf(&self) -> bool {
        &&& forall|i: int| 0 <= i < self.hist@.len() ==> (#[trigger] self.hist@[i]).0 == record_hash(self.hist@[i].1)
        &&& hashes_distinct(self@)
    }

    /// An empty history.
    pub fn new() -> (r: Self)
        ensures
            r.wf(),
            r@ == Seq::<OnlineUser>::empty(),
    {
        let r = HistManager { hist: Vec::new() };
        assert(r@ =~= Seq::<OnlineUser>::empty());
        r
    }

    proof fn lemma_view_facts(&self)
        requires
            self.wf(),
        ensures
            self@.len() == self.hist@.len(),
            forall|i: int| 0 <= i < self.hist@.len() ==> self@[i] == (#[trigger] self.hist@[i]).1,
            hashes_distinct(self@),
    {
    }

    /// The stored record with hash `k`, if any, as an index.
    fn find(&self, k: u64) -> (r: Option<usize>)
        requires
            self.wf(),
        ensures
            r is None ==> !hash_in(self@, k),
            r matches Some(i) ==> i < self@.len() && record_hash(self@[i as int]) == k,
    {
        let mut i: usize = 0;
        while i < self.hist.len()
            invariant
                self.wf(),
                i <= self.hist@.len(),
                forall|j: int| 0 <= j < i ==> record_hash(#[trigger] self@[j]) != k,
            decreases self.hist@.len() - i,
        {
            if self.hist[i].0 == k {
                return Some(i);
            }
            i = i + 1;
        }
        None
    }

    /// Stores `value` unless a record with its hash is already stored.
    pub fn add(&mut self, value: OnlineUser)
        requires
            old(self).wf(),
        ensures
            final(self).wf(),
            final(self)@ == observe_one(old(self)@, value),
    {
        let hash = value.hash_value();
        match self.find(hash) {
            Some(_) => {},
            None => {
                let ghost before = self@;
                self.hist.push((hash, value));
                assert(self@ =~= before.push(value));
            },
        }
    }

    /// Stores each of `values` in turn, as `add` does.
    pub fn add_vec(&mut self, values: &Vec<OnlineUser>)
        requires
            old(self).wf(),
        ensures
            final(self).wf(),
            final(self)@ == observe_all(old(self)@, values@),
    {
        let ghost start = self@;
        let mut i: usize = 0;
        while i < values.len()
            invariant
                self.wf(),
                i <= values@.len(),
                self@ == observe_all(start, values@.subrange(0, i as int)),
            decreases values@.len() - i,
        {
            assert(values@.subrange(0, i as int + 1).drop_last() =~= values@.subrange(0, i as int));
            self.add(values[i].clone());
            i = i + 1;
        }
        assert(values@.subrange(0, values@.len() as int) =~= values@);
    }

    /// Forgets every record.
    pub fn clear(&mut self)
        ensures
            final(self).wf(),
            final(self)@ == Seq::<OnlineUser>::empty(),
    {
        self.hist.clear();
        assert(self@ =~= Seq::<OnlineUser>::empty());
    }

    /// The stored records that no user of `current` matches by hash.
    pub fn histories(&self, current: &[OnlineUser]) -> (r: Vec<OnlineUser>)
        requires
            self.wf(),
        ensures
            r@ == missing_from(self@, current@),
    {
        let mut current_h: Vec<u64> = Vec::new();
        let mut c: usize = 0;
        while c < current.len()
            invariant
                c <= current@.len(),
                current_h@.len() == c,
                forall|j: int| 0 <= j < c ==> current_h@[j] == record_hash(#[trigger] current@[j]),
            decreases current@.len() - c,
        {
            current_h.push(current[c].hash_value());
            c = c + 1;
        }
        let mut r: Vec<OnlineUser> = Vec::new();
        let mut i: usize = 0;
        while i < self.hist.len()
            invariant
                self.wf(),
                i <= self.hist@.len(),
                current_h@.len() == current@.len(),
                forall|j: int| 0 <= j < current@.len() ==> current_h@[j] == record_hash(#[trigger] current@[j]),
                r@ == missing_from(self@.subrange(0, i as int), current@),
            decreases self.hist@.len() - i,
        {
            let key = self.hist[i].0;
            let mut found = false;
            let mut j: usize = 0;
            while j < current_h.len()
                invariant
                    j <= current_h@.len(),
                    current_h@.len() == current@.len(),
                    forall|m: int| 0 <= m < current@.len() ==> current_h@[m] == record_hash(#[trigger] current@[m]),
                    found <==> exists|m: int| 0 <= m < j && current_h@[m] == key,
                decreases current_h@.len() - j,
            {
                if current_h[j] == key {
                    found = true;
                }
                j = j + 1;
            }
            proof {
                reveal_with_fuel(Seq::filter, 1);
                self.lemma_view_facts();
                let sub = self@.subrange(0, i as int + 1);
                assert(sub.drop_last() =~= self@.subrange(0, i as int));
                assert(sub.last() == self@[i as int]);
                if found {
                    let m = choose|m: int| 0 <= m < current_h@.len() && current_h@[m] == key;
                    assert(record_hash(current@[m]) == record_hash(sub.last()));
                }
                if hash_in(current@, record_hash(sub.last())) {
                    let m = choose|m: int| 0 <= m < current@.len() && record_hash(#[trigger] current@[m]) == record_hash(sub.last());
                    assert(current_h@[m] == key);
                }
            }
            if !found {
                r.push(self.hist[i].1.clone());
            }
            i = i + 1;
        }
        proof {
            self.lemma_view_facts();
            assert(self@.subrange(0, self@.len() as int) =~= self@);
        }
        r
    }
}

/// Observing a user whose name, type, login time and address equal those of
/// the user just observed changes nothing; from an empty history that leaves
/// one record.
pub proof fn lemma_observe_same_twice(records: Seq<OnlineUser>, u: OnlineUser, v: OnlineUser)
    requires
        u.name@ == v.name@,
        u.user_type@ == v.user_type@,
        u.login_time@ == v.login_time@,
        u.client_address.ip_address@ == v.client_address.ip_address@,
    ensures
        observe_one(observe_one(records, u), v) == observe_one(records, u),
        observe_all(Seq::empty(), seq![u, v]).len() == 1,
{
    let once = observe_one(records, u);
    if !hash_in(records, record_hash(u)) {
        assert(once[records.len() as int] == u);
    }
    assert(hash_in(once, record_hash(v)));
    let e = Seq::<OnlineUser>::empty();
    assert(seq![u, v].drop_last() =~= seq![u]);
    assert(seq![u].drop_last() =~= e);
    assert(!hash_in(e, record_hash(u)));
    assert(observe_one(e, u) =~= seq![u]);
    let su = seq![u];
    assert(su[0] == u);
    assert(hash_in(su, record_hash(v)));
    assert(seq![u, v].last() == v);
    assert(su.last() == u);
    assert(observe_all(e, su.drop_last()) == e);
    assert(observe_all(e, su) == observe_one(e, u));
    assert(observe_all(e, seq![u, v]) == observe_one(su, v));
}

/// After observing `a` and then `b`, whose hashes differ, the records missing
/// from a poll that holds only `a` are exactly `b`.
pub proof fn lemma_missing_after_two(a: OnlineUser, b: OnlineUser)
    requires
        record_hash(a) != record_hash(b),
    ensures
        missing_from(observe_all(Seq::empty(), seq![a, b]), seq![a]) == seq![b],
{
    reveal_with_fuel(Seq::filter, 3);
    let e = Seq::<OnlineUser>::empty();
    assert(seq![a, b].drop_last() =~= seq![a]);
    assert(seq![a].drop_last() =~= e);
    assert(!hash_in(e, record_hash(a)));
    assert(observe_one(e, a) =~= seq![a]);
    assert(!hash_in(seq![a], record_hash(b)));
    let ab = seq![a].push(b);
    assert(seq![a, b].last() == b);
    assert(seq![a].last() == a);
    assert(observe_all(e, seq![a].drop_last()) == e);
    assert(observe_all(e, seq![a]) == seq![a]);
    assert(observe_all(e, seq![a, b]) == observe_one(seq![a], b));
    assert(observe_one(seq![a], b) =~= ab);
    assert(ab.drop_last() =~= seq![a]);
    assert(ab.last() == b);
    assert(seq![a].last() == a);
    let sa = seq![a];
    assert(sa[0] == a);
    assert(hash_in(sa, record_hash(a)));
    assert(missing_from(seq![a].drop_last(), seq![a]) == e);
    assert(missing_from(seq![a], seq![a]) == e);
    assert(missing_from(ab, seq![a]) =~= seq![b]);
}

/// A record keeps the fields it was first stored with: observing any user
/// with the same hash leaves it as it was, whatever that user's login time.
pub proof fn lemma_first_seen_kept(records: Seq<OnlineUser>, i: int, u: OnlineUser)
    requires
        0 <= i < records.len(),
        record_hash(u) == record_hash(records[i]),
    ensures
        observe_one(records, u) == records,
        observe_one(records, u)[i].login_time == records[i].login_time,
{
    assert(hash_in(records, record_hash(u)));
}

} // verus!
