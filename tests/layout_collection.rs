use kachaka_api::LayoutCollection;

#[derive(Debug, Clone, PartialEq)]
struct Entity {
    id: String,
    name: String,
    payload: u32,
}

fn entity(id: &str, name: &str, payload: u32) -> Entity {
    Entity { id: id.to_string(), name: name.to_string(), payload }
}

fn build(items: Vec<Entity>) -> LayoutCollection<Entity> {
    LayoutCollection::new(items, |e: &Entity| e.id.clone(), |e: &Entity| e.name.clone())
}

#[test]
fn lookup_by_id_finds_each_entity() {
    let items = vec![entity("L1", "Dock", 1), entity("L2", "Kitchen", 2), entity("L3", "Desk", 3)];
    let collection = build(items.clone());
    for item in &items {
        assert_eq!(collection.get_by_id(&item.id), Some(item));
    }
}

#[test]
fn lookup_by_absent_id_finds_nothing() {
    let collection = build(vec![entity("L1", "Dock", 1), entity("L2", "Kitchen", 2)]);
    assert_eq!(collection.get_by_id("L9"), None);
    assert_eq!(collection.get_by_id(""), None);
    assert_eq!(collection.get_by_id("Dock"), None);
}

#[test]
fn lookup_by_name_finds_entity() {
    let collection = build(vec![entity("L1", "Dock", 1), entity("L2", "Kitchen", 2)]);
    assert_eq!(collection.get_by_name("Kitchen"), Some(&entity("L2", "Kitchen", 2)));
    assert_eq!(collection.get_by_name("Dock"), Some(&entity("L1", "Dock", 1)));
    assert_eq!(collection.get_by_name("L1"), None);
}

#[test]
fn empty_collection_finds_nothing() {
    let collection = build(Vec::new());
    assert_eq!(collection.get_by_id("L1"), None);
    assert_eq!(collection.get_by_name("Dock"), None);
    assert!(collection.all().is_empty());
}

#[test]
fn repeated_keys_resolve_to_the_later_entity() {
    let collection = build(vec![
        entity("A", "Same", 1),
        entity("B", "Same", 2),
        entity("A", "Other", 3),
    ]);
    assert_eq!(collection.get_by_id("A"), Some(&entity("A", "Other", 3)));
    assert_eq!(collection.get_by_name("Same"), Some(&entity("B", "Same", 2)));
    assert_eq!(collection.all().len(), 3);
}

#[test]
fn all_keeps_the_list_order() {
    let items = vec![entity("S2", "B", 7), entity("S1", "A", 8)];
    let collection = build(items.clone());
    assert_eq!(collection.all(), &items);
}

#[test]
fn rebuilt_collection_forgets_old_ids() {
    let first = build(vec![entity("L1", "Dock", 1), entity("L2", "Kitchen", 2)]);
    assert!(first.get_by_id("L2").is_some());
    let second = build(vec![entity("L1", "Dock", 10), entity("L3", "Desk", 3)]);
    assert_eq!(second.get_by_id("L2"), None);
    assert_eq!(second.get_by_name("Kitchen"), None);
    assert_eq!(second.get_by_id("L1"), Some(&entity("L1", "Dock", 10)));
}
