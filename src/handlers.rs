use vstd::prelude::*;

use crate::item::{record_of, PayloadRecord, TodoItem, TodoPayload, TodoRecord};
use crate::store::{StoreView, TodoStore};

verus! {

/// What a handler answers: a record as the body, an empty body, or
/// "not found".
#[derive(Clone, Debug, PartialEq, Eq)]
pub enum Reply {
    Item(TodoItem),
    Empty,
    NotFound,
}

/// The mathematical value of a reply.
pub enum ReplyView {
    Item(TodoRecord),
    Empty,
    NotFound,
}

impl View for Reply {
    type V = ReplyView;

    open spec fn view(&self) -> ReplyView {
        match self {
            Reply::Item(it) => ReplyView::Item(it@),
            Reply::Empty => ReplyView::Empty,
            Reply::NotFound => ReplyView::NotFound,
        }
    }
}

pub const STATUS_OK: u16 = 200;

pub const STATUS_NOT_FOUND: u16 = 404;

/// The HTTP status of a reply.
pub open spec fn status_of(r: ReplyView) -> u16 {
    match r {
        ReplyView::NotFound => STATUS_NOT_FOUND,
        _ => STATUS_OK,
    }
}

impl Reply {
    /// The HTTP status code that goes with this reply.
    pub fn status(&self) -> (r: u16)
        ensures
            r == status_of(self@),
    {
        match self {
            Reply::NotFound => STATUS_NOT_FOUND,
            _ => STATUS_OK,
        }
    }
}

/// The store after a create of `p` under the fresh identifier `id`.
pub open spec fn after_create(s: StoreView, id: u128, p: PayloadRecord) -> StoreView {
    s.insert(id, record_of(id, p))
}

/// The store after a delete of `id`.
pub open spec fn after_delete(s: StoreView, id: u128) -> StoreView {
    s.remove(id)
}

/// The store after an update of `id` to `p`: the record is written
/// whether or not one was there.
pub open spec fn after_update(s: StoreView, id: u128, p: PayloadRecord) -> StoreView {
    s.insert(id, record_of(id, p))
}

/// The reply to a read of `id`.
pub open spec fn read_reply(s: StoreView, id: u128) -> ReplyView {
    if s.contains_key(id) {
        ReplyView::Item(s[id])
    } else {
        ReplyView::NotFound
    }
}

/// The reply to a delete of `id`.
pub open spec fn delete_reply(s: StoreView, id: u128) -> ReplyView {
    if s.contains_key(id) {
        ReplyView::Empty
    } else {
        ReplyView::NotFound
    }
}

/// The reply to an update of `id` to `p`: the new record where one was
/// there before, else "not found".
pub open spec fn update_reply(s: StoreView, id: u128, p: PayloadRecord) -> ReplyView {
    if s.contains_key(id) {
        ReplyView::Item(record_of(id, p))
    } else {
        ReplyView::NotFound
    }
}

/// Creates a record from `payload` under `id`, the identifier that the
/// caller generated for it, and answers with the new record.
pub fn create_todo(store: &mut TodoStore, id: u128, payload: TodoPayload) -> (r: Reply)
    requires
        old(store).wf(),
    ensures
        final(store).wf(),
        final(store)@ == after_create(old(store)@, id, payload@),
        r@ == ReplyView::Item(record_of(id, payload@)),
{
    let item = TodoItem::from_payload(id, payload);
    let body = item.duplicate();
    store.add(item);
    Reply::Item(body)
}

/// Answers with the record under `id`, or "not found".
pub fn read_todo(store: &TodoStore, id: u128) -> (r: Reply)
    requires
        store.wf(),
    ensures
        r@ == read_reply(store@, id),
{
    match store.get(id) {
        Some(it) => Reply::Item(it),
        None => Reply::NotFound,
    }
}

/// Removes the record under `id`: an empty answer where there was one,
/// else "not found".
pub fn delete_todo(store: &mut TodoStore, id: u128) -> (r: Reply)
    requires
        old(store).wf(),
    ensures
        final(store).wf(),
        final(store)@ == after_delete(old(store)@, id),
        r@ == delete_reply(old(store)@, id),
{
    match store.remove(id) {
        Some(_) => Reply::Empty,
        None => Reply::NotFound,
    }
}

/// Writes the record that `payload` describes under `id`. The answer is
/// the new record where one was there before, else "not found"; the
/// record is written in both cases.
pub fn update_todo(store: &mut TodoStore, id: u128, payload: TodoPayload) -> (r: Reply)
    requires
        old(store).wf(),
    ensures
        final(store).wf(),
        final(store)@ == after_update(old(store)@, id, payload@),
        r@ == update_reply(old(store)@, id, payload@),
{
    let item = TodoItem::from_payload(id, payload);
    let body = item.duplicate();
    match store.update(id, item) {
        Some(_) => Reply::Item(body),
        None => Reply::NotFound,
    }
}

} // verus!
