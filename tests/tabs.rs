use tab_server::reply::{
    list_reply, save_reply, FailurePolicy, ListFailure, ListReply, SaveFailure, SaveReply,
    StoreError, HEALTH_BODY, SAVED_BODY, SELECT_ALL_TABS, UPSERT_TAB,
};
use tab_server::tab::Tab;
use tab_server::table::TabTable;

fn tab(id: &str, title: &str, content: &str, parent_id: Option<&str>, created_at: i64) -> Tab {
    Tab::new(
        id.to_string(),
        title.to_string(),
        content.to_string(),
        parent_id.map(|p| p.to_string()),
        created_at,
    )
}

fn row<'a>(rows: &'a [Tab], id: &str) -> &'a Tab {
    let found: Vec<&Tab> = rows.iter().filter(|t| t.id == id).collect();
    assert_eq!(found.len(), 1, "exactly one row with id {}", id);
    found[0]
}

fn store_error() -> StoreError {
    StoreError { message: "connection refused".to_string() }
}

#[test]
fn save_then_list_shows_the_row_then_update_keeps_creation_time() {
    let mut table = TabTable::new();
    table.upsert(tab("a", "T1", "C1", None, 1000));
    let rows = table.list();
    assert_eq!(rows, vec![tab("a", "T1", "C1", None, 1000)]);

    table.upsert(tab("a", "T2", "C2", Some("b"), 9999));
    let rows = table.list();
    assert_eq!(rows, vec![tab("a", "T2", "C2", Some("b"), 1000)]);
}

#[test]
fn unreachable_database_lists_as_empty() {
    let policy = FailurePolicy::established();
    let r = list_reply(&policy, Err(store_error()));
    assert_eq!(r, ListReply::Tabs(Vec::new()));
}

#[test]
fn list_failure_can_be_reported() {
    let policy = FailurePolicy { on_list: ListFailure::Report, on_save: SaveFailure::Abort };
    let r = list_reply(&policy, Err(store_error()));
    assert_eq!(r, ListReply::Failed(store_error()));
}

#[test]
fn fetched_rows_are_listed_as_they_came() {
    let policy = FailurePolicy::established();
    let rows = vec![tab("x", "X", "", None, 1), tab("y", "Y", "body", Some("x"), 2)];
    let r = list_reply(&policy, Ok(rows));
    assert_eq!(
        r,
        ListReply::Tabs(vec![tab("x", "X", "", None, 1), tab("y", "Y", "body", Some("x"), 2)])
    );
}

#[test]
fn save_acknowledged_with_ok() {
    let policy = FailurePolicy::established();
    assert_eq!(save_reply(&policy, Ok(1)), SaveReply::Saved);
    assert_eq!(SAVED_BODY, "OK");
}

#[test]
fn save_failure_aborts_under_established_policy() {
    let policy = FailurePolicy::established();
    assert_eq!(save_reply(&policy, Err(store_error())), SaveReply::Abort(store_error()));
}

#[test]
fn save_failure_can_be_reported() {
    let policy = FailurePolicy { on_list: ListFailure::EmptyList, on_save: SaveFailure::Report };
    assert_eq!(save_reply(&policy, Err(store_error())), SaveReply::Failed(store_error()));
}

#[test]
fn established_policy_degrades_reads_and_aborts_writes() {
    let policy = FailurePolicy::established();
    assert_eq!(policy.on_list, ListFailure::EmptyList);
    assert_eq!(policy.on_save, SaveFailure::Abort);
}

#[test]
fn round_trip_lists_every_submitted_field() {
    let mut table = TabTable::new();
    table.upsert(tab("n1", "Notes", "hello", Some("root"), 42));
    table.upsert(tab("n2", "More", "world", None, 43));
    let rows = table.list();
    assert_eq!(rows.len(), 2);
    assert_eq!(row(&rows, "n1"), &tab("n1", "Notes", "hello", Some("root"), 42));
    assert_eq!(row(&rows, "n2"), &tab("n2", "More", "world", None, 43));
}

#[test]
fn saving_twice_keeps_one_row() {
    let mut table = TabTable::new();
    table.upsert(tab("a", "T", "C", None, 5));
    assert_eq!(table.len(), 1);
    table.upsert(tab("a", "T", "C", None, 5));
    assert_eq!(table.len(), 1);
    let rows = table.list();
    assert_eq!(rows, vec![tab("a", "T", "C", None, 5)]);
}

#[test]
fn count_grows_only_for_new_ids() {
    let mut table = TabTable::new();
    assert_eq!(table.len(), 0);
    assert!(table.list().is_empty());
    table.upsert(tab("a", "", "", None, 0));
    table.upsert(tab("b", "", "", None, 0));
    table.upsert(tab("a", "again", "", None, 0));
    assert_eq!(table.len(), 2);
    assert_eq!(table.list().len(), 2);
}

#[test]
fn update_changes_fields_and_leaves_others() {
    let mut table = TabTable::new();
    table.upsert(tab("p", "Parent", "", None, 10));
    table.upsert(tab("c", "Child", "old", Some("p"), 20));
    table.upsert(tab("c", "Child 2", "new", None, 30));
    let rows = table.list();
    assert_eq!(row(&rows, "c"), &tab("c", "Child 2", "new", None, 20));
    assert_eq!(row(&rows, "p"), &tab("p", "Parent", "", None, 10));
}

#[test]
fn missing_parent_is_stored_as_null() {
    let mut table = TabTable::new();
    table.upsert(tab("solo", "S", "", None, 1));
    assert_eq!(row(&table.list(), "solo").parent_id, None);
}

#[test]
fn dangling_parent_is_still_stored() {
    let mut table = TabTable::new();
    table.upsert(tab("kid", "K", "", Some("nobody"), 1));
    let rows = table.list();
    assert_eq!(row(&rows, "kid").parent_id, Some("nobody".to_string()));
}

#[test]
fn updated_by_takes_new_text_and_keeps_id_and_time() {
    let stored = tab("a", "old", "old body", Some("x"), 7);
    let r = stored.updated_by(tab("a", "new", "new body", None, 99));
    assert_eq!(r, tab("a", "new", "new body", None, 7));
}

#[test]
fn clone_keeps_every_field() {
    let t = tab("a", "T", "C", Some("p"), -3);
    assert_eq!(t.clone(), t);
}

#[test]
fn fixed_bodies_and_statements() {
    assert_eq!(HEALTH_BODY, "Backend is healthy!");
    assert_eq!(SELECT_ALL_TABS, "SELECT id, title, content, parent_id, created_at FROM tabs");
    assert!(UPSERT_TAB.starts_with("INSERT INTO tabs (id, title, content, parent_id, created_at)"));
    assert!(UPSERT_TAB.ends_with("ON CONFLICT (id) DO UPDATE SET title = $2, content = $3, parent_id = $4"));
}
