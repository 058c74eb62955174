use vstd::hash_map::StringHashMap;
use vstd::prelude::*;

verus! {

/// The position of the last key in `keys` whose text is `k`, if any.
///
/// An entity list may hold two entities with one key; the later one is the
/// one that a lookup finds.
pub open spec fn last_index_of(keys: Seq<String>, k: Seq<char>) -> Option<int>
    decreases keys.len(),
{
    if keys.len() == 0 {
        None
    } else if keys.last()@ == k {
        Some(keys.len() - 1)
    } else {
        last_index_of(keys.drop_last(), k)
    }
}

/// The index that is built by inserting each key with its position, in order.
pub open spec fn key_positions(keys: Seq<String>) -> Map<Seq<char>, usize>
    decreases keys.len(),
{
    if keys.len() == 0 {
        Map::empty()
    } else {
        key_positions(keys.drop_last()).insert(keys.last()@, (keys.len() - 1) as usize)
    }
}

/// The position that `last_index_of` finds is one whose key is `k`, and every
/// later key differs from `k`.
pub proof fn lemma_last_index_of(keys: Seq<String>, k: Seq<char>)
    ensures
        match last_index_of(keys, k) {
            Some(i) => 0 <= i < keys.len() && keys[i]@ == k && forall|j: int|
                i < j < keys.len() ==> (#[trigger] keys[j])@ != k,
            None => forall|j: int| 0 <= j < keys.len() ==> (#[trigger] keys[j])@ != k,
        },
    decreases keys.len(),
{
    if keys.len() > 0 {
        let rest = keys.drop_last();
        lemma_last_index_of(rest, k);
        assert(forall|j: int| 0 <= j < rest.len() ==> rest[j] == keys[j]);
    }
}

/// The index built from `keys` maps each key to its last position.
proof fn lemma_key_positions(keys: Seq<String>, k: Seq<char>)
    requires
        keys.len() <= usize::MAX + 1,
    ensures
        key_positions(keys).contains_key(k) <==> last_index_of(keys, k) is Some,
        key_positions(keys).contains_key(k) ==> key_positions(keys)[k] as int == last_index_of(
            keys,
            k,
        )->0,
    decreases keys.len(),
{
    if keys.len() > 0 {
        lemma_key_positions(keys.drop_last(), k);
    }
}

/// An immutable snapshot of entities with two indices: by identifier and by
/// display name.
///
/// A collection is built whole from a list and never changed afterwards; a
/// newer snapshot replaces it as a unit.
pub struct LayoutCollection<T> {
    items: Vec<T>,
    id_index: StringHashMap<usize>,
    name_index: StringHashMap<usize>,
    ids: Ghost<Seq<String>>,
    names: Ghost<Seq<String>>,
}

impl<T> View for LayoutCollection<T> {
    type V = Seq<T>;

    closed spec fn view(&self) -> Seq<T> {
        self.items@
    }
}

impl<T> LayoutCollection<T> {
    /// Each index holds exactly the keys of the items, each at its last
    /// position: no index entry can point outside the items or to an item
    /// of another generation.
    #[verifier::type_invariant]
    spec fn well_formed(&self) -> bool {
        &&& self.ids@.len() == self.items@.len()
        &&& self.names@.len() == self.items@.len()
        &&& forall|k: Seq<char>|
            (#[trigger] self.id_index@.contains_key(k)) <==> last_index_of(self.ids@, k) is Some
        &&& forall|k: Seq<char>| #[trigger]
            self.id_index@.contains_key(k) ==> self.id_index@[k] as int == last_index_of(
                self.ids@,
                k,
            )->0
        &&& forall|k: Seq<char>|
            (#[trigger] self.name_index@.contains_key(k)) <==> last_index_of(self.names@, k) is Some
        &&& forall|k: Seq<char>| #[trigger]
            self.name_index@.contains_key(k) ==> self.name_index@[k] as int == last_index_of(
                self.names@,
                k,
            )->0
    }

    /// The identifier of each item, position for position.
    pub closed spec fn ids(&self) -> Seq<String> {
        self.ids@
    }

    /// The display name of each item, position for position.
    pub closed spec fn names(&self) -> Seq<String> {
        self.names@
    }

    /// The item that a lookup by identifier finds.
    pub open spec fn spec_get_by_id(&self, id: Seq<char>) -> Option<T> {
        match last_index_of(self.ids(), id) {
            Some(i) => Some(self@[i]),
            None => None,
        }
    }

    /// The item that a lookup by display name finds.
    pub open spec fn spec_get_by_name(&self, name: Seq<char>) -> Option<T> {
        match last_index_of(self.names(), name) {
            Some(i) => Some(self@[i]),
            None => None,
        }
    }

    /// Builds the snapshot of `items`, keying each item by what `get_id` and
    /// `get_name` return for it. On a repeated key the later item wins.
    pub fn new(items: Vec<T>, get_id: impl Fn(&T) -> String, get_name: impl Fn(&T) -> String) -> (r:
        Self)
        requires
            forall|i: int| 0 <= i < items@.len() ==> get_id.requires((&items@[i],)),
            forall|i: int| 0 <= i < items@.len() ==> get_name.requires((&items@[i],)),
        ensures
            r@ == items@,
            r.ids().len() == items@.len(),
            r.names().len() == items@.len(),
            forall|i: int| 0 <= i < items@.len() ==> get_id.ensures((&items@[i],), #[trigger] r.ids()[i]),
            forall|i: int| 0 <= i < items@.len() ==> get_name.ensures((&items@[i],), #[trigger] r.names()[i]),
    {
        let mut id_index: StringHashMap<usize> = StringHashMap::new();
        let mut name_index: StringHashMap<usize> = StringHashMap::new();
        let ghost mut ids: Seq<String> = Seq::empty();
        let ghost mut names: Seq<String> = Seq::empty();
        let mut idx: usize = 0;
        while idx < items.len()
            invariant
                idx <= items@.len(),
                ids.len() == idx,
                names.len() == idx,
                forall|i: int| 0 <= i < items@.len() ==> get_id.requires((&items@[i],)),
                forall|i: int| 0 <= i < items@.len() ==> get_name.requires((&items@[i],)),
                forall|i: int| 0 <= i < idx ==> get_id.ensures((&items@[i],), #[trigger] ids[i]),
                forall|i: int| 0 <= i < idx ==> get_name.ensures((&items@[i],), #[trigger] names[i]),
                id_index@ == key_positions(ids),
                name_index@ == key_positions(names),
            decreases items@.len() - idx,
        {
            let id = get_id(&items[idx]);
            let name = get_name(&items[idx]);
            proof {
                assert(ids.push(id).drop_last() =~= ids);
                assert(names.push(name).drop_last() =~= names);
                ids = ids.push(id);
                names = names.push(name);
            }
            id_index.insert(id, idx);
            name_index.insert(name, idx);
            idx = idx + 1;
        }
        proof {
            assert forall|k: Seq<char>| #[trigger] id_index@.contains_key(k) == (last_index_of(
                ids,
                k,
            ) is Some) && (id_index@.contains_key(k) ==> id_index@[k] as int == last_index_of(
                ids,
                k,
            )->0) by {
                lemma_key_positions(ids, k);
            }
            assert forall|k: Seq<char>| #[trigger] name_index@.contains_key(k) == (last_index_of(
                names,
                k,
            ) is Some) && (name_index@.contains_key(k) ==> name_index@[k] as int
                == last_index_of(names, k)->0) by {
                lemma_key_positions(names, k);
            }
        }
        LayoutCollection { items, id_index, name_index, ids: Ghost(ids), names: Ghost(names) }
    }

    /// Looks an item up by identifier; `None` where no item has it.
    pub fn get_by_id(&self, id: &str) -> (r: Option<&T>)
        ensures
            match r {
                Some(item) => self.spec_get_by_id(id@) == Some(*item),
                None => self.spec_get_by_id(id@) is None,
            },
    {
        proof {
            use_type_invariant(self);
            lemma_last_index_of(self.ids@, id@);
        }
        match self.id_index.get(id) {
            Some(idx) => Some(&self.items[*idx]),
            None => None,
        }
    }

    /// Looks an item up by display name; `None` where no item has it.
    pub fn get_by_name(&self, name: &str) -> (r: Option<&T>)
        ensures
            match r {
                Some(item) => self.spec_get_by_name(name@) == Some(*item),
                None => self.spec_get_by_name(name@) is None,
            },
    {
        proof {
            use_type_invariant(self);
            lemma_last_index_of(self.names@, name@);
        }
        match self.name_index.get(name) {
            Some(idx) => Some(&self.items[*idx]),
            None => None,
        }
    }

    /// All items of the snapshot, in the order of the list it was built from.
    pub fn all(&self) -> (r: &Vec<T>)
        ensures
            r@ == self@,
    {
        &self.items
    }
}

/// Where no two items of a snapshot share an identifier, a lookup by
/// identifier finds the item that carries it, and finds nothing for an
/// identifier that no item carries.
pub proof fn lemma_lookup_by_unique_id<T>(c: LayoutCollection<T>, id: Seq<char>)
    requires
        c.ids().len() == c@.len(),
        forall|i: int, j: int| 0 <= i < j < c.ids().len() ==> c.ids()[i]@ != c.ids()[j]@,
    ensures
        forall|i: int| 0 <= i < c@.len() && (#[trigger] c.ids()[i])@ == id ==> c.spec_get_by_id(id) == Some(c@[i]),
        (forall|i: int| 0 <= i < c@.len() ==> (#[trigger] c.ids()[i])@ != id) ==> c.spec_get_by_id(id) is None,
{
    lemma_last_index_of(c.ids(), id);
}

/// Once a snapshot replaces another, an identifier that only the replaced one
/// held finds nothing: lookups see the new list alone.
pub proof fn lemma_replacement_forgets_old_ids<T>(
    replaced: LayoutCollection<T>,
    current: LayoutCollection<T>,
    id: Seq<char>,
)
    requires
        exists|i: int| 0 <= i < replaced.ids().len() && (#[trigger] replaced.ids()[i])@ == id,
        forall|j: int| 0 <= j < current.ids().len() ==> (#[trigger] current.ids()[j])@ != id,
    ensures
        current.spec_get_by_id(id) is None,
{
    lemma_last_index_of(current.ids(), id);
}

} // verus!
