use vstd::prelude::*;

verus! {

/// The mathematical value of a todo record.
pub struct TodoRecord {
    pub id: u128,
    pub description: Seq<char>,
    pub completed: bool,
}

/// The mathematical value of a create or update request body.
pub struct PayloadRecord {
    pub description: Seq<char>,
    pub completed: bool,
}

/// A todo record: its identifier, its text and whether it is done.
#[derive(Clone, Debug, PartialEq, Eq)]
pub struct TodoItem {
    pub id: u128,
    pub description: String,
    pub completed: bool,
}

/// The fields that a client sends to create or update a record.
/// Any identifier a client might send is not part of it: the server
/// decides identifiers.
#[derive(Clone, Debug, PartialEq, Eq)]
pub struct TodoPayload {
    pub description: String,
    pub completed: bool,
}

impl View for TodoItem {
    type V = TodoRecord;

    open spec fn view(&self) -> TodoRecord {
        TodoRecord { id: self.id, description: self.description@, completed: self.completed }
    }
}

impl View for TodoPayload {
    type V = PayloadRecord;

    open spec fn view(&self) -> PayloadRecord {
        PayloadRecord { description: self.description@, completed: self.completed }
    }
}

/// The record stored under `id` for a request body `p`.
pub open spec fn record_of(id: u128, p: PayloadRecord) -> TodoRecord {
    TodoRecord { id, description: p.description, completed: p.completed }
}

impl TodoItem {
    pub fn new(id: u128, description: String, completed: bool) -> (r: TodoItem)
        ensures
            r@ == (TodoRecord { id, description: description@, completed }),
    {
        TodoItem { id, description, completed }
    }

    /// Builds the record that a request body describes, under `id`.
    pub fn from_payload(id: u128, payload: TodoPayload) -> (r: TodoItem)
        ensures
            r@ == record_of(id, payload@),
    {
        TodoItem { id, description: payload.description, completed: payload.completed }
    }

    /// A copy of this record, field for field.
    pub fn duplicate(&self) -> (r: TodoItem)
        ensures
            r@ == self@,
    {
        TodoItem { id: self.id, description: self.description.clone(), completed: self.completed }
    }
}

impl TodoPayload {
    pub fn new(description: String, completed: bool) -> (r: TodoPayload)
        ensures
            r@ == (PayloadRecord { description: description@, completed }),
    {
        TodoPayload { description, completed }
    }
}

} // verus!
