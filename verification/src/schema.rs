//! The ledger schema: a typed key→record index over a borrowed store view,
//! together with the mathematical theory of its lookup and put operations.
use vstd::prelude::*;

use crate::bytes::{
    bytes_eq, bytes_lt, key_lt, lemma_key_lt_irrefl, lemma_key_lt_total, lemma_key_lt_trans,
};
use crate::property::{Property, PropertySpec};

verus! {

/// First record in `s` stored under `key`, or `None` when no record is.
pub open spec fn lookup(s: Seq<PropertySpec>, key: Seq<u8>) -> Option<PropertySpec>
    decreases s.len(),
{
    if s.len() == 0 {
        None
    } else if s[0].property_id == key {
        Some(s[0])
    } else {
        lookup(s.drop_first(), key)
    }
}

/// `s` with `p` written under its key: the record under the same key is
/// replaced in place, and when none exists `p` enters at its key's position
/// in the ascending key order.
pub open spec fn store_put(s: Seq<PropertySpec>, p: PropertySpec) -> Seq<PropertySpec>
    decreases s.len(),
{
    if s.len() == 0 {
        seq![p]
    } else if s[0].property_id == p.property_id {
        seq![p] + s.drop_first()
    } else if key_lt(p.property_id, s[0].property_id) {
        seq![p] + s
    } else {
        seq![s[0]] + store_put(s.drop_first(), p)
    }
}

/// No two records share a key.
pub open spec fn keys_unique(s: Seq<PropertySpec>) -> bool {
    forall|i: int, j: int|
        0 <= i < s.len() && 0 <= j < s.len() && i != j ==> s[i].property_id != s[j].property_id
}

/// The records stand in strictly ascending key order.
pub open spec fn sorted_by_key(s: Seq<PropertySpec>) -> bool {
    forall|i: int, j: int|
        0 <= i < j < s.len() ==> key_lt(#[trigger] s[i].property_id, #[trigger] s[j].property_id)
}

/// Every record is well formed.
pub open spec fn all_wf(s: Seq<PropertySpec>) -> bool {
    forall|i: int| 0 <= i < s.len() ==> s[i].wf()
}

/// The namespaced key→record index this service keeps in the host's store.
/// Records stand in ascending key order, the store's native order; at most
/// one record exists per `property_id`.
pub struct PropertyStore {
    /// The records, in ascending key order.
    pub entries: Vec<Property>,
}

impl View for PropertyStore {
    type V = Seq<PropertySpec>;

    open spec fn view(&self) -> Seq<PropertySpec> {
        Seq::new(self.entries@.len(), |i: int| self.entries@[i]@)
    }
}

impl PropertyStore {
    /// The records are key-sorted, keys are unique, and every record is
    /// well formed.
    pub open spec fn wf(self) -> bool {
        &&& sorted_by_key(self@)
        &&& keys_unique(self@)
        &&& all_wf(self@)
    }

    /// An empty index.
    pub fn new() -> (r: PropertyStore)
        ensures
            r@ == Seq::<PropertySpec>::empty(),
            r.wf(),
    {
        let r = PropertyStore { entries: Vec::new() };
        assert(r@ =~= Seq::<PropertySpec>::empty());
        r
    }

    /// Current record under `pub_key`, or `None` if never created.
    pub fn get(&self, pub_key: &Vec<u8>) -> (r: Option<Property>)
        ensures
            match r {
                Some(p) => lookup(self@, pub_key@) == Some(p@),
                None => lookup(self@, pub_key@) is None,
            },
    {
        let n = self.entries.len();
        let mut i: usize = 0;
        while i < n
            invariant
                n == self.entries.len(),
                i <= n,
                forall|j: int| 0 <= j < i ==> self@[j].property_id != pub_key@,
            decreases n - i,
        {
            if bytes_eq(&self.entries[i].property_id, pub_key) {
                proof {
                    lemma_lookup_skip(self@, pub_key@, i as int);
                    assert(self@.skip(i as int)[0] == self@[i as int]);
                }
                return Some(self.entries[i].duplicate());
            }
            i = i + 1;
        }
        proof {
            lemma_lookup_skip(self@, pub_key@, self@.len() as int);
            assert(self@.skip(self@.len() as int) =~= Seq::<PropertySpec>::empty());
        }
        None
    }

    /// Writes `prop` under its own `property_id`: the record already stored
    /// there is replaced in place, and a fresh key enters at its position in
    /// the ascending key order.
    pub fn put(&mut self, prop: Property)
        requires
            old(self).wf(),
            prop.wf(),
        ensures
            final(self)@ == store_put(old(self)@, prop@),
            final(self).wf(),
    {
        let n = self.entries.len();
        let mut i: usize = 0;
        while i < n
            invariant
                n == self.entries.len(),
                i <= n,
                *self == *old(self),
                old(self).wf(),
                prop.wf(),
                forall|j: int|
                    0 <= j < i ==> self@[j].property_id != prop@.property_id && !key_lt(
                        prop@.property_id,
                        self@[j].property_id,
                    ),
            decreases n - i,
        {
            if bytes_eq(&self.entries[i].property_id, &prop.property_id) {
                proof {
                    lemma_store_put_found(old(self)@, prop@, i as int);
                }
                self.entries[i] = prop;
                proof {
                    assert(self@ =~= old(self)@.update(i as int, prop@));
                    lemma_put_found_wf(old(self)@, prop@, i as int);
                }
                return ;
            }
            if bytes_lt(&prop.property_id, &self.entries[i].property_id) {
                proof {
                    lemma_store_put_insert(old(self)@, prop@, i as int);
                }
                self.entries.insert(i, prop);
                proof {
                    assert(self@ =~= old(self)@.insert(i as int, prop@));
                    lemma_put_insert_wf(old(self)@, prop@, i as int);
                }
                return ;
            }
            i = i + 1;
        }
        proof {
            lemma_store_put_insert(old(self)@, prop@, n as int);
        }
        self.entries.push(prop);
        proof {
            assert(self@ =~= old(self)@.insert(n as int, prop@));
            lemma_put_insert_wf(old(self)@, prop@, n as int);
        }
    }

    /// Every stored record, in the store's ascending key order.
    pub fn values(&self) -> (r: Vec<Property>)
        ensures
            r@.len() == self@.len(),
            forall|i: int| 0 <= i < r@.len() ==> r@[i]@ == self@[i],
            self.wf() ==> forall|i: int, j: int|
                0 <= i < j < r@.len() ==> key_lt(
                    (#[trigger] r@[i])@.property_id,
                    (#[trigger] r@[j])@.property_id,
                ),
    {
        let n = self.entries.len();
        let mut out: Vec<Property> = Vec::new();
        let mut i: usize = 0;
        while i < n
            invariant
                n == self.entries.len(),
                i <= n,
                out@.len() == i,
                forall|j: int| 0 <= j < i ==> out@[j]@ == self@[j],
            decreases n - i,
        {
            out.push(self.entries[i].duplicate());
            i = i + 1;
        }
        proof {
            if self.wf() {
                assert forall|a: int, b: int| 0 <= a < b < out@.len() implies key_lt(
                    (#[trigger] out@[a])@.property_id,
                    (#[trigger] out@[b])@.property_id,
                ) by {
                    assert(out@[a]@ == self@[a]);
                    assert(out@[b]@ == self@[b]);
                }
            }
        }
        out
    }

    /// Number of stored records.
    pub fn len(&self) -> (r: usize)
        ensures
            r == self@.len(),
    {
        self.entries.len()
    }
}

/// A request-scoped accessor over a borrowed read view of the store, as the
/// query layer uses it. It owns no state of its own.
pub struct PropertySchema<'a> {
    /// The borrowed store view.
    pub view: &'a PropertyStore,
}

impl<'a> PropertySchema<'a> {
    /// The key→record index the borrowed view exposes.
    pub fn properties(&self) -> (r: &'a PropertyStore)
        ensures
            r == self.view,
    {
        self.view
    }

    /// Current record under `pub_key`, or `None` if never created.
    pub fn property(&self, pub_key: &Vec<u8>) -> (r: Option<Property>)
        ensures
            match r {
                Some(p) => lookup(self.view@, pub_key@) == Some(p@),
                None => lookup(self.view@, pub_key@) is None,
            },
    {
        self.view.get(pub_key)
    }
}

/// Scanning past a prefix that misses `key` does not change the lookup.
pub proof fn lemma_lookup_skip(s: Seq<PropertySpec>, key: Seq<u8>, i: int)
    requires
        0 <= i <= s.len(),
        forall|j: int| 0 <= j < i ==> s[j].property_id != key,
    ensures
        lookup(s, key) == lookup(s.skip(i), key),
    decreases i,
{
    if i > 0 {
        let t = s.drop_first();
        assert(t =~= s.skip(1));
        assert(forall|j: int| 0 <= j < i - 1 ==> t[j].property_id != key);
        lemma_lookup_skip(t, key, i - 1);
        assert(t.skip(i - 1) =~= s.skip(i));
    } else {
        assert(s.skip(0) =~= s);
    }
}

/// When the record under the put key stands at `i`, behind records under
/// neither the same nor a greater key, the put replaces it in place.
pub proof fn lemma_store_put_found(s: Seq<PropertySpec>, p: PropertySpec, i: int)
    requires
        0 <= i < s.len(),
        s[i].property_id == p.property_id,
        forall|j: int|
            0 <= j < i ==> s[j].property_id != p.property_id && !key_lt(
                p.property_id,
                s[j].property_id,
            ),
    ensures
        store_put(s, p) == s.update(i, p),
    decreases i,
{
    if i == 0 {
        assert(store_put(s, p) =~= s.update(0, p));
    } else {
        let t = s.drop_first();
        assert(forall|j: int|
            0 <= j < i - 1 ==> t[j].property_id != p.property_id && !key_lt(
                p.property_id,
                t[j].property_id,
            ));
        assert(t[i - 1] == s[i]);
        lemma_store_put_found(t, p, i - 1);
        assert(seq![s[0]] + t.update(i - 1, p) =~= s.update(i, p));
    }
}

/// When no record under the put key exists and `i` is its position in the
/// key order, the put inserts there.
pub proof fn lemma_store_put_insert(s: Seq<PropertySpec>, p: PropertySpec, i: int)
    requires
        0 <= i <= s.len(),
        forall|j: int|
            0 <= j < i ==> s[j].property_id != p.property_id && !key_lt(
                p.property_id,
                s[j].property_id,
            ),
        i == s.len() || key_lt(p.property_id, s[i].property_id),
    ensures
        store_put(s, p) == s.insert(i, p),
    decreases s.len(),
{
    if s.len() == 0 {
        assert(store_put(s, p) =~= s.insert(0, p));
    } else if i == 0 {
        if s[0].property_id == p.property_id {
            lemma_key_lt_irrefl(p.property_id);
        }
        assert(store_put(s, p) =~= s.insert(0, p));
    } else {
        let t = s.drop_first();
        assert(forall|j: int|
            0 <= j < i - 1 ==> t[j].property_id != p.property_id && !key_lt(
                p.property_id,
                t[j].property_id,
            ));
        if i < s.len() {
            assert(t[i - 1] == s[i]);
        }
        lemma_store_put_insert(t, p, i - 1);
        assert(seq![s[0]] + t.insert(i - 1, p) =~= s.insert(i, p));
    }
}

/// Replacing a record by one under the same key keeps the store well formed.
proof fn lemma_put_found_wf(s: Seq<PropertySpec>, p: PropertySpec, i: int)
    requires
        sorted_by_key(s),
        keys_unique(s),
        all_wf(s),
        p.wf(),
        0 <= i < s.len(),
        s[i].property_id == p.property_id,
    ensures
        sorted_by_key(s.update(i, p)),
        keys_unique(s.update(i, p)),
        all_wf(s.update(i, p)),
{
    let u = s.update(i, p);
    assert forall|a: int, b: int| 0 <= a < b < u.len() implies key_lt(
        (#[trigger] u[a]).property_id,
        (#[trigger] u[b]).property_id,
    ) by {
        assert(u[a].property_id == s[a].property_id);
        assert(u[b].property_id == s[b].property_id);
    }
}

/// Inserting a record under a fresh key at its key-order position keeps the
/// store well formed.
proof fn lemma_put_insert_wf(s: Seq<PropertySpec>, p: PropertySpec, i: int)
    requires
        sorted_by_key(s),
        keys_unique(s),
        all_wf(s),
        p.wf(),
        0 <= i <= s.len(),
        forall|j: int|
            0 <= j < i ==> s[j].property_id != p.property_id && !key_lt(
                p.property_id,
                s[j].property_id,
            ),
        i == s.len() || key_lt(p.property_id, s[i].property_id),
    ensures
        sorted_by_key(s.insert(i, p)),
        keys_unique(s.insert(i, p)),
        all_wf(s.insert(i, p)),
{
    let u = s.insert(i, p);
    s.insert_ensures(i, p);
    assert forall|j: int| 0 <= j < i implies key_lt(s[j].property_id, p.property_id) by {
        lemma_key_lt_total(s[j].property_id, p.property_id);
    }
    assert forall|a: int, b: int| 0 <= a < b < u.len() implies key_lt(
        (#[trigger] u[a]).property_id,
        (#[trigger] u[b]).property_id,
    ) by {
        if a < i && b == i {
            assert(u[a] == s[a]);
            assert(u[b] == p);
        } else if a < i && b > i {
            assert(u[a] == s[a]);
            assert(u[b] == s[b - 1]);
        } else if a == i && b > i {
            assert(u[a] == p);
            assert(u[b] == s[b - 1]);
            if b - 1 == i {
            } else {
                assert(key_lt(p.property_id, s[i].property_id));
                assert(key_lt(s[i].property_id, s[b - 1].property_id));
                lemma_key_lt_trans(p.property_id, s[i].property_id, s[b - 1].property_id);
            }
        } else if a > i {
            assert(u[a] == s[a - 1]);
            assert(u[b] == s[b - 1]);
        } else {
            assert(u[a] == s[a]);
            assert(u[b] == s[b]);
        }
    }
    assert forall|a: int, b: int|
        0 <= a < u.len() && 0 <= b < u.len() && a != b implies u[a].property_id
        != u[b].property_id by {
        let (lo, hi) = if a < b {
            (a, b)
        } else {
            (b, a)
        };
        assert(key_lt(u[lo].property_id, u[hi].property_id));
        if u[lo].property_id == u[hi].property_id {
            lemma_key_lt_irrefl(u[lo].property_id);
        }
    }
    assert forall|j: int| 0 <= j < u.len() implies u[j].wf() by {
        if j < i {
            assert(u[j] == s[j]);
        } else if j > i {
            assert(u[j] == s[j - 1]);
        }
    }
}

/// A key's lookup comes up empty exactly when no record carries the key.
pub proof fn lemma_lookup_none(s: Seq<PropertySpec>, key: Seq<u8>)
    ensures
        lookup(s, key) is None <==> (forall|j: int|
            0 <= j < s.len() ==> s[j].property_id != key),
    decreases s.len(),
{
    if s.len() > 0 {
        let t = s.drop_first();
        lemma_lookup_none(t, key);
        if s[0].property_id == key {
        } else if lookup(t, key) is None {
            assert forall|j: int| 0 <= j < s.len() implies s[j].property_id != key by {
                if j > 0 {
                    assert(t[j - 1] == s[j]);
                }
            }
        } else {
            let j = choose|j: int| 0 <= j < t.len() && t[j].property_id == key;
            assert(s[j + 1] == t[j]);
        }
    }
}

/// After a put, the put key holds exactly the written record.
pub proof fn lemma_lookup_put_same(s: Seq<PropertySpec>, p: PropertySpec)
    ensures
        lookup(store_put(s, p), p.property_id) == Some(p),
    decreases s.len(),
{
    if s.len() == 0 {
    } else if s[0].property_id == p.property_id {
        assert((seq![p] + s.drop_first())[0] == p);
    } else if key_lt(p.property_id, s[0].property_id) {
        assert((seq![p] + s)[0] == p);
    } else {
        let t = s.drop_first();
        lemma_lookup_put_same(t, p);
        assert((seq![s[0]] + store_put(t, p))[0] == s[0]);
        assert((seq![s[0]] + store_put(t, p)).drop_first() =~= store_put(t, p));
    }
}

/// A put leaves every other key's lookup unchanged.
pub proof fn lemma_lookup_put_other(s: Seq<PropertySpec>, p: PropertySpec, key: Seq<u8>)
    requires
        key != p.property_id,
    ensures
        lookup(store_put(s, p), key) == lookup(s, key),
    decreases s.len(),
{
    if s.len() == 0 {
        assert(store_put(s, p)[0] == p);
        assert(store_put(s, p).drop_first() =~= s);
    } else if s[0].property_id == p.property_id {
        assert((seq![p] + s.drop_first())[0] == p);
        assert((seq![p] + s.drop_first()).drop_first() =~= s.drop_first());
    } else if key_lt(p.property_id, s[0].property_id) {
        assert((seq![p] + s)[0] == p);
        assert((seq![p] + s).drop_first() =~= s);
    } else {
        let t = s.drop_first();
        lemma_lookup_put_other(t, p, key);
        assert((seq![s[0]] + store_put(t, p))[0] == s[0]);
        assert((seq![s[0]] + store_put(t, p)).drop_first() =~= store_put(t, p));
    }
}

/// A put under an absent key grows the store by exactly one record.
pub proof fn lemma_store_put_len(s: Seq<PropertySpec>, p: PropertySpec)
    requires
        lookup(s, p.property_id) is None,
    ensures
        store_put(s, p).len() == s.len() + 1,
    decreases s.len(),
{
    if s.len() == 0 {
    } else if s[0].property_id == p.property_id {
    } else if key_lt(p.property_id, s[0].property_id) {
    } else {
        lemma_store_put_len(s.drop_first(), p);
    }
}

} // verus!
