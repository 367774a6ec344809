//! The service's laws: what the transaction rules guarantee for every store
//! state and every transaction, proved once and for all.
use vstd::prelude::*;

use crate::property::PropertySpec;
use crate::bytes::key_lt;
use crate::schema::{
    lemma_lookup_put_other, lemma_lookup_put_same, lemma_store_put_len, lookup, store_put,
};
use crate::tx::{
    change_execute, changed_record, create_execute, created_record, TxSpec,
};
use crate::{STATUS_CHANGED, STATUS_REGISTERED};

verus! {

/// Law: creating a record under a never-created key and then fetching that
/// key yields the submitted fields with status 1.
pub proof fn lemma_create_then_get(s: Seq<PropertySpec>, tx: TxSpec)
    requires
        lookup(s, tx.property_id) is None,
    ensures
        lookup(create_execute(s, tx), tx.property_id) == Some(created_record(tx)),
        created_record(tx).status == STATUS_REGISTERED,
{
    lemma_lookup_put_same(s, created_record(tx));
}

/// Law: a second create under an occupied key leaves the store — and so the
/// stored record — unchanged, whatever fields the second create carries.
pub proof fn lemma_create_idempotent(s: Seq<PropertySpec>, tx: TxSpec)
    requires
        lookup(s, tx.property_id) is Some,
    ensures
        create_execute(s, tx) == s,
{
}

/// Law: a status change followed by a fetch of its key yields exactly the
/// transaction's fields with status forced to 2, whatever stood under the
/// key before — including nothing at all.
pub proof fn lemma_change_status_then_get(s: Seq<PropertySpec>, tx: TxSpec)
    ensures
        lookup(change_execute(s, tx), tx.property_id) == Some(changed_record(tx)),
        changed_record(tx).status == STATUS_CHANGED,
{
    lemma_lookup_put_same(s, changed_record(tx));
}

/// Law: no transaction touches the record under any other key.
pub proof fn lemma_other_keys_untouched(s: Seq<PropertySpec>, tx: TxSpec, key: Seq<u8>)
    requires
        key != tx.property_id,
    ensures
        lookup(create_execute(s, tx), key) == lookup(s, key),
        lookup(change_execute(s, tx), key) == lookup(s, key),
{
    if lookup(s, tx.property_id) is None {
        lemma_lookup_put_other(s, created_record(tx), key);
    }
    lemma_lookup_put_other(s, changed_record(tx), key);
}

/// Every record in `s` carries a canonical status: 1 (registered) or
/// 2 (changed).
pub open spec fn statuses_canonical(s: Seq<PropertySpec>) -> bool {
    forall|i: int|
        0 <= i < s.len() ==> ((#[trigger] s[i].status) == STATUS_REGISTERED || s[i].status
            == STATUS_CHANGED)
}

/// Writing a record with a canonical status keeps every stored status
/// canonical.
proof fn lemma_store_put_statuses(s: Seq<PropertySpec>, p: PropertySpec)
    requires
        statuses_canonical(s),
        p.status == STATUS_REGISTERED || p.status == STATUS_CHANGED,
    ensures
        statuses_canonical(store_put(s, p)),
    decreases s.len(),
{
    let r = store_put(s, p);
    if s.len() == 0 {
        assert(r[0] == p);
    } else if s[0].property_id == p.property_id {
        assert forall|i: int|
            0 <= i < r.len() implies ((#[trigger] r[i].status) == STATUS_REGISTERED || r[i].status
            == STATUS_CHANGED) by {
            if i > 0 {
                assert(r[i] == s.drop_first()[i - 1]);
                assert(s.drop_first()[i - 1] == s[i]);
            }
        }
    } else if key_lt(p.property_id, s[0].property_id) {
        assert forall|i: int|
            0 <= i < r.len() implies ((#[trigger] r[i].status) == STATUS_REGISTERED || r[i].status
            == STATUS_CHANGED) by {
            if i > 0 {
                assert(r[i] == s[i - 1]);
            }
        }
    } else {
        let t = s.drop_first();
        assert(forall|i: int| 0 <= i < t.len() ==> t[i] == s[i + 1]);
        lemma_store_put_statuses(t, p);
        assert forall|i: int|
            0 <= i < r.len() implies ((#[trigger] r[i].status) == STATUS_REGISTERED || r[i].status
            == STATUS_CHANGED) by {
            if i > 0 {
                assert(r[i] == store_put(t, p)[i - 1]);
            }
        }
    }
}

/// Law: whatever status value a transaction carries on the wire, the
/// observable status stays canonical — both transitions keep every stored
/// record's status at exactly 1 or 2, starting from any such store (the
/// empty one included).
pub proof fn lemma_status_stays_canonical(s: Seq<PropertySpec>, tx: TxSpec)
    requires
        statuses_canonical(s),
    ensures
        statuses_canonical(create_execute(s, tx)),
        statuses_canonical(change_execute(s, tx)),
{
    if lookup(s, tx.property_id) is None {
        lemma_store_put_statuses(s, created_record(tx));
    }
    lemma_store_put_statuses(s, changed_record(tx));
}

/// The store states reached by running a sequence of creates, in order.
pub open spec fn run_creates(s: Seq<PropertySpec>, txs: Seq<TxSpec>) -> Seq<PropertySpec>
    decreases txs.len(),
{
    if txs.len() == 0 {
        s
    } else {
        run_creates(create_execute(s, txs[0]), txs.drop_first())
    }
}

/// The creates address pairwise distinct keys.
pub open spec fn distinct_keys(txs: Seq<TxSpec>) -> bool {
    forall|i: int, j: int|
        0 <= i < txs.len() && 0 <= j < txs.len() && i != j ==> txs[i].property_id
            != txs[j].property_id
}

/// Running creates touches no key outside the creates' own.
pub proof fn lemma_run_creates_frame(s: Seq<PropertySpec>, txs: Seq<TxSpec>, key: Seq<u8>)
    requires
        forall|i: int| 0 <= i < txs.len() ==> (#[trigger] txs[i].property_id) != key,
    ensures
        lookup(run_creates(s, txs), key) == lookup(s, key),
    decreases txs.len(),
{
    if txs.len() > 0 {
        let s1 = create_execute(s, txs[0]);
        if lookup(s, txs[0].property_id) is None {
            lemma_lookup_put_other(s, created_record(txs[0]), key);
        }
        let rest = txs.drop_first();
        assert(forall|i: int| 0 <= i < rest.len() ==> (#[trigger] rest[i]) == txs[i + 1]);
        lemma_run_creates_frame(s1, rest, key);
    }
}

/// Law: creating any number of records under distinct fresh keys stores
/// exactly one record per create — the full list holds exactly as many
/// records as creates ran, and each created key holds its own transaction's
/// fields with status 1. Where the records stand in the list is the store's
/// business: its ascending key order.
pub proof fn lemma_list_after_creates(s: Seq<PropertySpec>, txs: Seq<TxSpec>)
    requires
        distinct_keys(txs),
        forall|i: int| 0 <= i < txs.len() ==> lookup(s, #[trigger] txs[i].property_id) is None,
    ensures
        run_creates(s, txs).len() == s.len() + txs.len(),
        forall|i: int|
            0 <= i < txs.len() ==> lookup(run_creates(s, txs), (#[trigger] txs[i]).property_id)
                == Some(created_record(txs[i])),
    decreases txs.len(),
{
    if txs.len() > 0 {
        let tx0 = txs[0];
        let rec0 = created_record(tx0);
        let rest = txs.drop_first();
        lemma_store_put_len(s, rec0);
        let s1 = create_execute(s, tx0);
        assert(s1 == store_put(s, rec0));
        assert(forall|i: int| 0 <= i < rest.len() ==> (#[trigger] rest[i]) == txs[i + 1]);
        assert forall|i: int|
            0 <= i < rest.len() implies lookup(s1, (#[trigger] rest[i]).property_id) is None by {
            lemma_lookup_put_other(s, rec0, rest[i].property_id);
        }
        assert forall|i: int, j: int|
            0 <= i < rest.len() && 0 <= j < rest.len() && i != j implies rest[i].property_id
            != rest[j].property_id by {
            assert(rest[i] == txs[i + 1]);
            assert(rest[j] == txs[j + 1]);
        }
        lemma_list_after_creates(s1, rest);
        assert(run_creates(s, txs) == run_creates(s1, rest));
        assert forall|i: int|
            0 <= i < txs.len() implies lookup(run_creates(s, txs), (#[trigger] txs[i]).property_id)
            == Some(created_record(txs[i])) by {
            if i == 0 {
                lemma_lookup_put_same(s, rec0);
                assert forall|k: int|
                    0 <= k < rest.len() implies (#[trigger] rest[k].property_id)
                    != tx0.property_id by {
                    assert(rest[k] == txs[k + 1]);
                }
                lemma_run_creates_frame(s1, rest, tx0.property_id);
            } else {
                assert(rest[i - 1] == txs[i]);
            }
        }
    }
}

} // verus!
