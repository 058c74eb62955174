use crate::layout_collection::LayoutCollection;
use crate::types::KachakaApiError;
use vstd::prelude::*;

verus! {

/// Whether `keys` holds, position for position, what `key_of` returns for
/// each of `items`.
pub open spec fn keyed_by<T, F: Fn(&T) -> String>(items: Seq<T>, keys: Seq<String>, key_of: F) -> bool {
    &&& keys.len() == items.len()
    &&& forall|i: int| 0 <= i < items.len() ==> key_of.ensures((&items[i],), #[trigger] keys[i])
}

/// Whether `key_of` may be called on every one of `items`.
pub open spec fn callable_on_all<T, F: Fn(&T) -> String>(items: Seq<T>, key_of: F) -> bool {
    forall|i: int| 0 <= i < items.len() ==> key_of.requires((&items[i],))
}

/// The resolver's cache: the latest snapshots of the controller's locations
/// (`L`) and shelves (`S`).
///
/// Each half starts empty and is replaced whole by every list that its
/// stream delivers; a failed poll leaves it as it was.
pub struct ShelfLocationResolver<L, S> {
    locations_collection: LayoutCollection<L>,
    shelves_collection: LayoutCollection<S>,
}

impl<L, S> ShelfLocationResolver<L, S> {
    /// The current snapshot of the locations.
    pub closed spec fn locations(&self) -> LayoutCollection<L> {
        self.locations_collection
    }

    /// The current snapshot of the shelves.
    pub closed spec fn shelves(&self) -> LayoutCollection<S> {
        self.shelves_collection
    }

    /// Whether `next` is what this cache becomes when `update` arrives on the
    /// locations stream: a list replaces the locations, an error changes
    /// nothing, and the shelves stay as they are.
    pub open spec fn locations_updated(&self, update: Result<Vec<L>, KachakaApiError>, next: Self) -> bool {
        match update {
            Ok(list) => next.locations()@ == list@ && next.shelves() == self.shelves(),
            Err(_) => next == *self,
        }
    }

    /// Whether `next` is what this cache becomes when `update` arrives on the
    /// shelves stream.
    pub open spec fn shelves_updated(&self, update: Result<Vec<S>, KachakaApiError>, next: Self) -> bool {
        match update {
            Ok(list) => next.shelves()@ == list@ && next.locations() == self.locations(),
            Err(_) => next == *self,
        }
    }

    /// An empty cache: no location and no shelf is known yet.
    pub fn new() -> (r: Self)
        ensures
            r.locations()@ == Seq::<L>::empty(),
            r.locations().ids() == Seq::<String>::empty(),
            r.locations().names() == Seq::<String>::empty(),
            r.shelves()@ == Seq::<S>::empty(),
            r.shelves().ids() == Seq::<String>::empty(),
            r.shelves().names() == Seq::<String>::empty(),
    {
        let no_locations: Vec<L> = Vec::new();
        let no_shelves: Vec<S> = Vec::new();
        let locations_collection = LayoutCollection::new(
            no_locations,
            |_location: &L| String::new(),
            |_location: &L| String::new(),
        );
        let shelves_collection = LayoutCollection::new(
            no_shelves,
            |_shelf: &S| String::new(),
            |_shelf: &S| String::new(),
        );
        ShelfLocationResolver { locations_collection, shelves_collection }
    }

    /// Takes in one item of the locations stream. A list replaces the
    /// locations snapshot as a unit, keyed by `get_id` and `get_name`; an
    /// error keeps the last good snapshot.
    pub fn apply_locations_update(
        &mut self,
        update: Result<Vec<L>, KachakaApiError>,
        get_id: impl Fn(&L) -> String,
        get_name: impl Fn(&L) -> String,
    )
        requires
            update is Ok ==> callable_on_all(update->Ok_0@, get_id),
            update is Ok ==> callable_on_all(update->Ok_0@, get_name),
        ensures
            old(self).locations_updated(update, *final(self)),
            update is Ok ==> keyed_by(update->Ok_0@, final(self).locations().ids(), get_id),
            update is Ok ==> keyed_by(update->Ok_0@, final(self).locations().names(), get_name),
    {
        match update {
            Ok(locations) => {
                self.locations_collection = LayoutCollection::new(locations, get_id, get_name);
            },
            Err(_) => {},
        }
    }

    /// Takes in one item of the shelves stream, as `apply_locations_update`
    /// does for locations.
    pub fn apply_shelves_update(
        &mut self,
        update: Result<Vec<S>, KachakaApiError>,
        get_id: impl Fn(&S) -> String,
        get_name: impl Fn(&S) -> String,
    )
        requires
            update is Ok ==> callable_on_all(update->Ok_0@, get_id),
            update is Ok ==> callable_on_all(update->Ok_0@, get_name),
        ensures
            old(self).shelves_updated(update, *final(self)),
            update is Ok ==> keyed_by(update->Ok_0@, final(self).shelves().ids(), get_id),
            update is Ok ==> keyed_by(update->Ok_0@, final(self).shelves().names(), get_name),
    {
        match update {
            Ok(shelves) => {
                self.shelves_collection = LayoutCollection::new(shelves, get_id, get_name);
            },
            Err(_) => {},
        }
    }

    /// The cached location with identifier `id`, if any.
    pub fn get_location_by_id(&self, id: &str) -> (r: Option<&L>)
        ensures
            match r {
                Some(location) => self.locations().spec_get_by_id(id@) == Some(*location),
                None => self.locations().spec_get_by_id(id@) is None,
            },
    {
        self.locations_collection.get_by_id(id)
    }

    /// The cached location named `name`, if any.
    pub fn get_location_by_name(&self, name: &str) -> (r: Option<&L>)
        ensures
            match r {
                Some(location) => self.locations().spec_get_by_name(name@) == Some(*location),
                None => self.locations().spec_get_by_name(name@) is None,
            },
    {
        self.locations_collection.get_by_name(name)
    }

    /// Every cached location, in the order the controller listed them.
    pub fn get_all_locations(&self) -> (r: &Vec<L>)
        ensures
            r@ == self.locations()@,
    {
        self.locations_collection.all()
    }

    /// The cached shelf with identifier `id`, if any.
    pub fn get_shelf_by_id(&self, id: &str) -> (r: Option<&S>)
        ensures
            match r {
                Some(shelf) => self.shelves().spec_get_by_id(id@) == Some(*shelf),
                None => self.shelves().spec_get_by_id(id@) is None,
            },
    {
        self.shelves_collection.get_by_id(id)
    }

    /// The cached shelf named `name`, if any.
    pub fn get_shelf_by_name(&self, name: &str) -> (r: Option<&S>)
        ensures
            match r {
                Some(shelf) => self.shelves().spec_get_by_name(name@) == Some(*shelf),
                None => self.shelves().spec_get_by_name(name@) is None,
            },
    {
        self.shelves_collection.get_by_name(name)
    }

    /// Every cached shelf, in the order the controller listed them.
    pub fn get_all_shelves(&self) -> (r: &Vec<S>)
        ensures
            r@ == self.shelves()@,
    {
        self.shelves_collection.all()
    }
}

/// A failed update that follows a successful one leaves the successful
/// snapshot in place: the listing is exactly the last list received.
pub proof fn lemma_failed_update_keeps_snapshot<L, S>(
    start: ShelfLocationResolver<L, S>,
    updated: ShelfLocationResolver<L, S>,
    after_failure: ShelfLocationResolver<L, S>,
    list: Vec<L>,
    error: KachakaApiError,
)
    requires
        start.locations_updated(Ok(list), updated),
        updated.locations_updated(Err(error), after_failure),
    ensures
        after_failure.locations() == updated.locations(),
        after_failure.locations()@ == list@,
{
}

} // verus!
