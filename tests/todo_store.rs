use todo_service::handlers::{create_todo, delete_todo, read_todo, update_todo, Reply};
use todo_service::item::{TodoItem, TodoPayload};
use todo_service::store::TodoStore;

fn payload(description: &str, completed: bool) -> TodoPayload {
    TodoPayload::new(description.to_string(), completed)
}

fn item(id: u128, description: &str, completed: bool) -> TodoItem {
    TodoItem::new(id, description.to_string(), completed)
}

const MILK_ID: u128 = 0x67e5_5044_10b1_426f_9247_bb68_0e5f_e0c8;

#[test]
fn scenario_buy_milk() {
    let mut store = TodoStore::new();
    let created = create_todo(&mut store, MILK_ID, payload("buy milk", false));
    assert_eq!(created.status(), 200);
    assert_eq!(created, Reply::Item(item(MILK_ID, "buy milk", false)));

    let read = read_todo(&store, MILK_ID);
    assert_eq!(read.status(), 200);
    assert_eq!(read, created);

    let updated = update_todo(&mut store, MILK_ID, payload("buy milk", true));
    assert_eq!(updated.status(), 200);
    assert_eq!(updated, Reply::Item(item(MILK_ID, "buy milk", true)));

    let deleted = delete_todo(&mut store, MILK_ID);
    assert_eq!(deleted.status(), 200);
    assert_eq!(deleted, Reply::Empty);

    let gone = read_todo(&store, MILK_ID);
    assert_eq!(gone.status(), 404);
    assert_eq!(gone, Reply::NotFound);
}

#[test]
fn read_after_create_returns_sent_fields() {
    let mut store = TodoStore::new();
    create_todo(&mut store, 5, payload("write report", true));
    match read_todo(&store, 5) {
        Reply::Item(it) => {
            assert_eq!(it.id, 5);
            assert_eq!(it.description, "write report");
            assert!(it.completed);
        }
        other => panic!("expected the record, got {:?}", other),
    }
}

#[test]
fn delete_twice_gives_ok_then_not_found() {
    let mut store = TodoStore::new();
    create_todo(&mut store, 9, payload("x", false));
    assert_eq!(delete_todo(&mut store, 9).status(), 200);
    assert_eq!(delete_todo(&mut store, 9).status(), 404);
}

#[test]
fn delete_of_unknown_id_is_not_found() {
    let mut store = TodoStore::new();
    assert_eq!(delete_todo(&mut store, 1), Reply::NotFound);
}

#[test]
fn read_of_unknown_id_is_not_found() {
    let store = TodoStore::new();
    assert_eq!(read_todo(&store, 0), Reply::NotFound);
    assert_eq!(read_todo(&store, u128::MAX).status(), 404);
}

#[test]
fn update_replaces_whole_record() {
    let mut store = TodoStore::new();
    create_todo(&mut store, 3, payload("old text", true));
    update_todo(&mut store, 3, payload("new text", false));
    assert_eq!(read_todo(&store, 3), Reply::Item(item(3, "new text", false)));
}

#[test]
fn update_of_unknown_id_answers_not_found_but_stores_record() {
    let mut store = TodoStore::new();
    let r = update_todo(&mut store, 42, payload("late", false));
    assert_eq!(r, Reply::NotFound);
    assert_eq!(r.status(), 404);
    assert_eq!(read_todo(&store, 42), Reply::Item(item(42, "late", false)));
    let again = update_todo(&mut store, 42, payload("later", true));
    assert_eq!(again, Reply::Item(item(42, "later", true)));
}

#[test]
fn operations_on_one_id_leave_another_alone() {
    let mut store = TodoStore::new();
    create_todo(&mut store, 1, payload("a", false));
    create_todo(&mut store, 2, payload("b", true));
    update_todo(&mut store, 1, payload("a2", true));
    assert_eq!(read_todo(&store, 2), Reply::Item(item(2, "b", true)));
    delete_todo(&mut store, 1);
    assert_eq!(read_todo(&store, 2), Reply::Item(item(2, "b", true)));
    create_todo(&mut store, 3, payload("c", false));
    assert_eq!(read_todo(&store, 2), Reply::Item(item(2, "b", true)));
}

#[test]
fn many_creates_are_all_readable() {
    let mut store = TodoStore::new();
    let n: u128 = 100;
    for i in 0..n {
        let r = create_todo(&mut store, i * 7 + 1, payload(&format!("task {}", i), i % 2 == 0));
        assert_eq!(r.status(), 200);
    }
    for i in 0..n {
        let expected = item(i * 7 + 1, &format!("task {}", i), i % 2 == 0);
        assert_eq!(read_todo(&store, i * 7 + 1), Reply::Item(expected));
    }
}

#[test]
fn empty_description_is_accepted() {
    let mut store = TodoStore::new();
    let r = create_todo(&mut store, 11, payload("", false));
    assert_eq!(r, Reply::Item(item(11, "", false)));
}

#[test]
fn store_get_add_remove_update() {
    let mut store = TodoStore::new();
    assert_eq!(store.get(4), None);
    store.add(item(4, "first", false));
    assert_eq!(store.get(4), Some(item(4, "first", false)));
    store.add(item(4, "overwritten", true));
    assert_eq!(store.get(4), Some(item(4, "overwritten", true)));
    assert_eq!(store.update(4, item(4, "third", false)), Some(item(4, "overwritten", true)));
    assert_eq!(store.update(6, item(6, "new", false)), None);
    assert_eq!(store.get(6), Some(item(6, "new", false)));
    assert_eq!(store.remove(4), Some(item(4, "third", false)));
    assert_eq!(store.remove(4), None);
}

#[test]
fn item_duplicate_keeps_fields() {
    let original = item(8, "copy me", true);
    let copy = original.duplicate();
    assert_eq!(copy, original);
    assert_eq!(TodoItem::from_payload(8, payload("copy me", true)), original);
}
