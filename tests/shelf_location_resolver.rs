use kachaka_api::{KachakaApiError, LongPollChannel, ShelfLocationResolver};

#[derive(Debug, Clone, PartialEq)]
struct Location {
    id: String,
    name: String,
}

#[derive(Debug, Clone, PartialEq)]
struct Shelf {
    id: String,
    name: String,
    home: String,
}

fn location(id: &str, name: &str) -> Location {
    Location { id: id.to_string(), name: name.to_string() }
}

fn shelf(id: &str, name: &str, home: &str) -> Shelf {
    Shelf { id: id.to_string(), name: name.to_string(), home: home.to_string() }
}

fn apply_locations(
    resolver: &mut ShelfLocationResolver<Location, Shelf>,
    update: Result<Vec<Location>, KachakaApiError>,
) {
    resolver.apply_locations_update(update, |l: &Location| l.id.clone(), |l: &Location| l.name.clone());
}

fn apply_shelves(
    resolver: &mut ShelfLocationResolver<Location, Shelf>,
    update: Result<Vec<Shelf>, KachakaApiError>,
) {
    resolver.apply_shelves_update(update, |s: &Shelf| s.id.clone(), |s: &Shelf| s.name.clone());
}

/// A scripted long-poll endpoint: each call answers with the next scripted
/// response and records the cursor it was asked with.
struct FakeEndpoint {
    script: Vec<Result<(i64, Vec<Location>), KachakaApiError>>,
    asked: Vec<i64>,
}

impl FakeEndpoint {
    fn poll(&mut self, cursor: i64) -> Result<(i64, Vec<Location>), KachakaApiError> {
        self.asked.push(cursor);
        self.script.remove(0)
    }
}

#[test]
fn new_resolver_is_empty() {
    let resolver: ShelfLocationResolver<Location, Shelf> = ShelfLocationResolver::new();
    assert!(resolver.get_all_locations().is_empty());
    assert!(resolver.get_all_shelves().is_empty());
    assert_eq!(resolver.get_location_by_id("L1"), None);
    assert_eq!(resolver.get_shelf_by_name("S"), None);
}

#[test]
fn failed_update_keeps_last_snapshot() {
    let mut resolver = ShelfLocationResolver::new();
    let list = vec![location("L1", "Dock"), location("L2", "Kitchen")];
    apply_locations(&mut resolver, Ok(list.clone()));
    apply_locations(
        &mut resolver,
        Err(KachakaApiError::CommunicationError(tonic::Status::unavailable("down"))),
    );
    assert_eq!(resolver.get_all_locations(), &list);
    assert_eq!(resolver.get_location_by_id("L2"), Some(&location("L2", "Kitchen")));
}

#[test]
fn replacement_forgets_removed_ids() {
    let mut resolver = ShelfLocationResolver::new();
    apply_locations(&mut resolver, Ok(vec![location("L1", "Dock"), location("L2", "Kitchen")]));
    apply_locations(&mut resolver, Ok(vec![location("L3", "Desk")]));
    assert_eq!(resolver.get_location_by_id("L1"), None);
    assert_eq!(resolver.get_location_by_id("L2"), None);
    assert_eq!(resolver.get_location_by_name("Dock"), None);
    assert_eq!(resolver.get_location_by_id("L3"), Some(&location("L3", "Desk")));
    assert_eq!(resolver.get_all_locations(), &vec![location("L3", "Desk")]);
}

#[test]
fn shelves_and_locations_update_independently() {
    let mut resolver = ShelfLocationResolver::new();
    apply_locations(&mut resolver, Ok(vec![location("L1", "Dock")]));
    apply_shelves(&mut resolver, Ok(vec![shelf("S1", "Cart", "L1")]));
    assert_eq!(resolver.get_shelf_by_id("S1"), Some(&shelf("S1", "Cart", "L1")));
    assert_eq!(resolver.get_shelf_by_name("Cart"), Some(&shelf("S1", "Cart", "L1")));
    assert_eq!(resolver.get_location_by_id("L1"), Some(&location("L1", "Dock")));
    apply_shelves(&mut resolver, Err(KachakaApiError::NullResult));
    assert_eq!(resolver.get_all_shelves(), &vec![shelf("S1", "Cart", "L1")]);
    apply_shelves(&mut resolver, Ok(Vec::new()));
    assert!(resolver.get_all_shelves().is_empty());
    assert_eq!(resolver.get_all_locations(), &vec![location("L1", "Dock")]);
}

#[test]
fn end_to_end_long_poll_feeds_the_cache() {
    let mut endpoint = FakeEndpoint {
        script: vec![
            Ok((1, vec![location("L1", "Dock")])),
            Ok((2, vec![location("L1", "Dock"), location("L2", "Shelf Area")])),
        ],
        asked: Vec::new(),
    };
    let mut channel = LongPollChannel::new();
    let mut resolver: ShelfLocationResolver<Location, Shelf> = ShelfLocationResolver::new();
    for _ in 0..2 {
        let outcome = endpoint.poll(channel.cursor());
        let item = channel.complete(outcome);
        apply_locations(&mut resolver, item);
    }
    assert_eq!(endpoint.asked, vec![0, 1]);
    assert_eq!(resolver.get_location_by_id("L2"), Some(&location("L2", "Shelf Area")));
    assert_eq!(resolver.get_location_by_name("Dock"), Some(&location("L1", "Dock")));
}

#[test]
fn concurrent_readers_see_whole_snapshots() {
    let runtime = tokio::runtime::Builder::new_multi_thread().worker_threads(4).build().unwrap();
    runtime.block_on(async {
        let shared: std::sync::Arc<tokio::sync::RwLock<ShelfLocationResolver<Location, Shelf>>> =
            std::sync::Arc::new(tokio::sync::RwLock::new(ShelfLocationResolver::new()));
        let first = vec![location("A", "one"), location("B", "two")];
        let second = vec![location("B", "deux"), location("C", "trois"), location("A", "un")];
        let writer = {
            let shared = shared.clone();
            let (first, second) = (first.clone(), second.clone());
            tokio::spawn(async move {
                for round in 0..500 {
                    let list = if round % 2 == 0 { first.clone() } else { second.clone() };
                    let mut state = shared.write().await;
                    apply_locations(&mut state, Ok(list));
                }
            })
        };
        let mut readers = Vec::new();
        for _ in 0..4 {
            let shared = shared.clone();
            let (first, second) = (first.clone(), second.clone());
            readers.push(tokio::spawn(async move {
                for _ in 0..500 {
                    let state = shared.read().await;
                    let all = state.get_all_locations().clone();
                    assert!(all.is_empty() || all == first || all == second);
                    for item in &all {
                        assert_eq!(state.get_location_by_id(&item.id), Some(item));
                        assert_eq!(state.get_location_by_name(&item.name), Some(item));
                    }
                    assert_eq!(state.get_location_by_id("C").is_some(), all == second);
                }
            }));
        }
        writer.await.unwrap();
        for reader in readers {
            reader.await.unwrap();
        }
    });
}
