use vstd::prelude::*;

use crate::handlers::{
    after_create, after_delete, after_update, delete_reply, read_reply, status_of, update_reply,
    ReplyView, STATUS_NOT_FOUND, STATUS_OK,
};
use crate::item::{record_of, PayloadRecord};
use crate::store::StoreView;

verus! {

/// A read of the identifier that a create was given answers with the
/// created record: the description and flag that were sent, under that
/// identifier.
pub proof fn lemma_read_after_create(s: StoreView, id: u128, p: PayloadRecord)
    ensures
        read_reply(after_create(s, id, p), id) == ReplyView::Item(record_of(id, p)),
        record_of(id, p).id == id,
        record_of(id, p).description == p.description,
        record_of(id, p).completed == p.completed,
{
}

/// Deleting a stored identifier twice answers 200, then 404.
pub proof fn lemma_delete_twice(s: StoreView, id: u128)
    requires
        s.contains_key(id),
    ensures
        status_of(delete_reply(s, id)) == STATUS_OK,
        status_of(delete_reply(after_delete(s, id), id)) == STATUS_NOT_FOUND,
{
}

/// An update replaces the whole record: a later read answers with what
/// the update sent and nothing of the record before it, and the update
/// answers with that same record where one was there.
pub proof fn lemma_update_replaces(s: StoreView, id: u128, p: PayloadRecord)
    ensures
        read_reply(after_update(s, id, p), id) == ReplyView::Item(record_of(id, p)),
        s.contains_key(id) ==> update_reply(s, id, p) == ReplyView::Item(record_of(id, p)),
{
}

/// A create, update or delete of one identifier leaves what a read of
/// any other identifier answers as it was.
pub proof fn lemma_isolation(s: StoreView, a: u128, b: u128, p: PayloadRecord)
    requires
        a != b,
    ensures
        read_reply(after_create(s, a, p), b) == read_reply(s, b),
        read_reply(after_update(s, a, p), b) == read_reply(s, b),
        read_reply(after_delete(s, a), b) == read_reply(s, b),
{
}

/// The store after creates of `ps[i]` under `ids[i]`, one after the other.
pub open spec fn after_creates(s: StoreView, ids: Seq<u128>, ps: Seq<PayloadRecord>) -> StoreView
    decreases ids.len(),
{
    if ids.len() == 0 || ps.len() == 0 {
        s
    } else {
        after_creates(after_create(s, ids[0], ps[0]), ids.drop_first(), ps.drop_first())
    }
}

/// Creates run one at a time under the store's lock. When the identifiers
/// they were given are pairwise distinct, every created record can be read
/// afterwards, each under its own identifier: none is lost to another.
pub proof fn lemma_creates_all_readable(s: StoreView, ids: Seq<u128>, ps: Seq<PayloadRecord>)
    requires
        ids.len() == ps.len(),
        ids.no_duplicates(),
    ensures
        forall|i: int|
            0 <= i < ids.len() ==> read_reply(after_creates(s, ids, ps), #[trigger] ids[i])
                == ReplyView::Item(record_of(ids[i], ps[i])),
    decreases ids.len(),
{
    if ids.len() > 0 {
        let s1 = after_create(s, ids[0], ps[0]);
        let rest = ids.drop_first();
        lemma_creates_all_readable(s1, rest, ps.drop_first());
        lemma_creates_keep_absent(s1, rest, ps.drop_first(), ids[0]);
        assert forall|i: int| 0 <= i < ids.len() implies read_reply(
            after_creates(s, ids, ps),
            #[trigger] ids[i],
        ) == ReplyView::Item(record_of(ids[i], ps[i])) by {
            if i > 0 {
                assert(ids[i] == rest[i - 1]);
            }
        }
    }
}

/// Creates under identifiers other than `k` leave what a read of `k`
/// answers as it was.
pub proof fn lemma_creates_keep_absent(
    s: StoreView,
    ids: Seq<u128>,
    ps: Seq<PayloadRecord>,
    k: u128,
)
    requires
        !ids.contains(k),
    ensures
        read_reply(after_creates(s, ids, ps), k) == read_reply(s, k),
    decreases ids.len(),
{
    if ids.len() > 0 && ps.len() > 0 {
        assert(ids[0] != k);
        let rest = ids.drop_first();
        assert(!rest.contains(k)) by {
            if rest.contains(k) {
                let j = choose|j: int| 0 <= j < rest.len() && rest[j] == k;
                assert(ids[j + 1] == k);
            }
        }
        lemma_creates_keep_absent(after_create(s, ids[0], ps[0]), rest, ps.drop_first(), k);
    }
}

} // verus!
