use postboy_sync::base::new_id;
use postboy_sync::collection::{Collection, Folder, SyncStatus, Variable, VariableType};

fn lookup<'a>(pairs: &'a [(String, String)], key: &str) -> Option<&'a String> {
    pairs.iter().rev().find(|(k, _)| k == key).map(|(_, v)| v)
}

#[test]
fn test_collection_creation() {
    let collection = Collection::new("My API".to_string());
    assert_eq!(collection.name, "My API");
    assert_eq!(collection.folders.len(), 0);
    assert_eq!(collection.requests.len(), 0);
    assert!(!collection.is_synced());
}

#[test]
fn test_collection_with_variable() {
    let collection = Collection::new("My API".to_string())
        .with_variable("base_url".to_string(), "https://api.example.com".to_string());
    assert_eq!(collection.variables.len(), 1);
    assert_eq!(collection.variables[0].key, "base_url");
    let base_url = collection.get_variable("base_url");
    assert!(base_url.is_some());
    assert_eq!(base_url.unwrap().value, "https://api.example.com");
}

#[test]
fn test_folder_hierarchy() {
    let mut collection = Collection::new("My API".to_string());
    let mut parent_folder = Folder::new("Parent".to_string());
    let child_folder = Folder::new("Child".to_string());
    parent_folder.add_child(child_folder);
    collection.add_folder(parent_folder);
    assert_eq!(collection.folders.len(), 1);
    assert_eq!(collection.folders[0].children.len(), 1);
    let all_ids = collection.all_request_ids();
    assert_eq!(all_ids.len(), 0);
}

#[test]
fn test_folder_find() {
    let mut collection = Collection::new("My API".to_string());
    let folder = Folder::new("Test Folder".to_string());
    let folder_id = folder.id;
    collection.add_folder(folder);
    let found = collection.find_folder(folder_id);
    assert!(found.is_some());
    assert_eq!(found.unwrap().name, "Test Folder");
}

#[test]
fn collection_test_variable_types() {
    let string_var = Variable::new("key".to_string(), "value".to_string());
    assert_eq!(string_var.variable_type, VariableType::String);
    let secret_var = Variable::secret("password".to_string(), "secret123".to_string());
    assert_eq!(secret_var.variable_type, VariableType::Secret);
    let json_var = Variable::json("config".to_string(), r#"{"key":"value"}"#.to_string());
    assert_eq!(json_var.variable_type, VariableType::Json);
}

#[test]
fn test_sync_state() {
    let mut collection = Collection::new("My API".to_string());
    assert_eq!(collection.sync_state.status, SyncStatus::NotSynced);
    collection.mark_syncing();
    assert_eq!(collection.sync_state.status, SyncStatus::Syncing);
    collection.mark_synced(new_id(), 1);
    assert!(collection.is_synced());
}

#[test]
fn collection_test_pending_changes() {
    let mut collection = Collection::new("My API".to_string());
    collection.increment_pending_changes();
    assert!(collection.has_pending_changes());
    assert_eq!(collection.sync_state.pending_changes, 1);
    collection.increment_pending_changes();
    assert_eq!(collection.sync_state.pending_changes, 2);
}

#[test]
fn test_enabled_variables_map() {
    let mut collection = Collection::new("My API".to_string())
        .with_variable("key1".to_string(), "value1".to_string())
        .with_variable("key2".to_string(), "value2".to_string());
    collection.variables[1].enabled = false;
    let map = collection.enabled_variables_map();
    assert_eq!(map.len(), 1);
    assert_eq!(lookup(&map, "key1"), Some(&"value1".to_string()));
    assert_eq!(lookup(&map, "key2"), None);
}

#[test]
fn test_folder_depth() {
    let mut folder = Folder::new("Parent".to_string());
    let mut child = Folder::new("Child".to_string());
    let mut grandchild = Folder::new("Grandchild".to_string());
    folder.set_depth(0);
    assert_eq!(folder.depth(), 0);
    child.set_depth(1);
    grandchild.set_depth(2);
    child.add_child(grandchild);
    folder.add_child(child);
    assert_eq!(folder.depth(), 0);
    assert_eq!(folder.children[0].depth(), 1);
    assert_eq!(folder.children[0].children[0].depth(), 2);
}

#[test]
fn set_depth_reaches_every_level() {
    let mut grandchild = Folder::new("G".to_string());
    grandchild.set_depth(9);
    let mut child = Folder::new("C".to_string());
    child.add_child(grandchild);
    let mut root = Folder::new("R".to_string());
    root.add_child(child);
    root.set_depth(3);
    assert_eq!(root.children[0].depth(), 4);
    assert_eq!(root.children[0].children[0].depth(), 5);
}

#[test]
fn request_ids_and_search_cover_nested_folders() {
    let (r1, r2, r3, r4) = (new_id(), new_id(), new_id(), new_id());
    let mut inner = Folder::new("Inner".to_string());
    inner.add_request(r3);
    let inner_id = inner.id;
    let mut outer = Folder::new("Outer".to_string()).with_description("d".to_string());
    outer.add_request(r2);
    outer.add_child(inner);
    let mut collection = Collection::new("C".to_string());
    collection.add_request(r1);
    collection.add_folder(outer);
    let mut other = Folder::new("Other".to_string());
    other.add_request(r4);
    collection.add_folder(other);
    assert_eq!(collection.all_request_ids(), vec![r1, r2, r3, r4]);
    assert_eq!(collection.find_folder(inner_id).unwrap().name, "Inner");
    assert!(collection.find_folder(new_id()).is_none());
    assert!(collection.remove_request(r1));
    assert!(!collection.remove_request(r1));
    let outer_id = collection.folders[0].id;
    assert!(collection.remove_folder(outer_id));
    assert_eq!(collection.all_request_ids(), vec![r4]);
}

#[test]
fn duplicates_get_new_ids_and_names() {
    let mut collection = Collection::new("API".to_string());
    collection.mark_synced(new_id(), 3);
    let copy = collection.duplicate();
    assert_ne!(copy.id, collection.id);
    assert_eq!(copy.name, "API (Copy)");
    assert_eq!(copy.sync_state.status, SyncStatus::NotSynced);
    let mut folder = Folder::new("F".to_string()).with_parent(new_id());
    folder.add_child(Folder::new("Sub".to_string()));
    let folder_copy = folder.duplicate();
    assert_eq!(folder_copy.name, "F (Copy)");
    assert_eq!(folder_copy.children.len(), 1);
    assert_eq!(folder_copy.parent_id, folder.parent_id);
}

#[test]
fn postman_type_names_and_variable_builders() {
    for t in [VariableType::String, VariableType::Boolean, VariableType::Secret, VariableType::Json, VariableType::Number] {
        assert_eq!(VariableType::from_postman_name(t.postman_name()), Some(t));
    }
    assert_eq!(VariableType::from_postman_name("any"), None);
    let v = Variable::new("k".to_string(), "v".to_string()).with_hint("h".to_string()).disabled();
    assert_eq!(v.hint, Some("h".to_string()));
    assert!(!v.enabled);
    let c = Collection::new("C".to_string()).with_variable("k".to_string(), "v".to_string());
    let mut c2 = c.clone();
    c2.variables[0].enabled = false;
    assert!(c2.get_variable("k").is_none());
    c2.mark_sync_failed();
    assert_eq!(c2.sync_state.status, SyncStatus::Failed);
}

#[test]
fn find_folder_mut_changes_the_nested_folder() {
    let inner = Folder::new("Inner".to_string());
    let inner_id = inner.id;
    let mut outer = Folder::new("Outer".to_string());
    outer.add_child(inner);
    let mut collection = Collection::new("C".to_string());
    collection.add_folder(outer);
    collection.find_folder_mut(inner_id).unwrap().name = "Renamed".to_string();
    assert_eq!(collection.find_folder(inner_id).unwrap().name, "Renamed");
    assert!(collection.find_folder_mut(new_id()).is_none());
}

#[test]
fn enabled_variables_map_keeps_the_last_value() {
    let c = Collection::new("C".to_string())
        .with_variable("k".to_string(), "1".to_string())
        .with_variable("k".to_string(), "2".to_string());
    let map = c.enabled_variables_map();
    assert_eq!(map.len(), 1);
    assert_eq!(lookup(&map, "k"), Some(&"2".to_string()));
}
