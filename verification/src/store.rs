//! A grocery list: names with quantities, and the four requests that a
//! server takes for it.

use vstd::prelude::*;
use crate::entries::distinct_keys;
use crate::entries::find;
use crate::entries::lemma_push_inserts;
use crate::entries::lemma_remove_removes;
use crate::entries::lemma_update_inserts;
use crate::entries::map_of;

verus! {

/// Status code of a reply that reports something new: "201 Created".
pub const CREATED: u16 = 201;

/// Status code of a reply that reports success: "200 OK".
pub const OK: u16 = 200;

/// A grocery with its quantity.
#[derive(Debug, Clone)]
pub struct Item {
    name: String,
    quantity: i32,
}

/// The name of a grocery.
#[derive(Debug, Clone)]
pub struct Id {
    name: String,
}

/// The grocery list.
#[derive(Clone)]
pub struct Store {
    grocery_list: Vec<(String, i32)>,
}

/// What a request is answered with.
#[derive(Debug, Clone, Copy)]
pub struct Reply {
    pub message: &'static str,
    pub status: u16,
}

impl Item {
    /// The item's name.
    pub closed spec fn name(&self) -> Seq<char> {
        self.name@
    }

    /// The item's quantity.
    pub closed spec fn quantity(&self) -> i32 {
        self.quantity
    }

    /// The item `name` in the quantity `quantity`.
    pub fn new(name: String, quantity: i32) -> (item: Item)
        ensures
            item.name() == name@,
            item.quantity() == quantity,
    {
        Item { name, quantity }
    }
}

impl Id {
    /// The name.
    pub closed spec fn name(&self) -> Seq<char> {
        self.name@
    }

    /// The name `name`.
    pub fn new(name: String) -> (id: Id)
        ensures
            id.name() == name@,
    {
        Id { name }
    }
}

impl View for Store {
    type V = Map<Seq<char>, i32>;

    closed spec fn view(&self) -> Map<Seq<char>, i32> {
        map_of(self.grocery_list@)
    }
}

impl Store {
    /// No name is listed twice.
    pub closed spec fn wf(&self) -> bool {
        distinct_keys(self.grocery_list@)
    }

    /// An empty grocery list.
    pub fn new() -> (store: Store)
        ensures
            store.wf(),
            store@ == Map::<Seq<char>, i32>::empty(),
    {
        let store = Store { grocery_list: Vec::new() };
        assert(store@ =~= Map::<Seq<char>, i32>::empty());
        store
    }

    /// Puts `quantity` beside `name`, whether the name was listed or not.
    fn put(&mut self, name: String, quantity: i32)
        requires
            old(self).wf(),
        ensures
            final(self).wf(),
            final(self)@ == old(self)@.insert(name@, quantity),
    {
        match find(&self.grocery_list, &name) {
            Some(i) => {
                proof {
                    lemma_update_inserts(self.grocery_list@, i as int, name, quantity);
                }
                self.grocery_list.set(i, (name, quantity));
            },
            None => {
                proof {
                    lemma_push_inserts(self.grocery_list@, name, quantity);
                }
                self.grocery_list.push((name, quantity));
            },
        }
    }
}

/// `listing` holds each grocery of `groceries` once, with its quantity, and
/// nothing else.
pub open spec fn lists_all(listing: Seq<(String, i32)>, groceries: Map<Seq<char>, i32>) -> bool {
    distinct_keys(listing) && map_of(listing) == groceries
}

/// Adds an item to the list; an item of the same name is replaced. The
/// answer is "Added to store", created.
pub fn add_grocery_list_item(item: Item, store: &mut Store) -> (reply: Reply)
    requires
        old(store).wf(),
    ensures
        final(store).wf(),
        final(store)@ == old(store)@.insert(item.name(), item.quantity()),
        reply.message@ == "Added to store"@,
        reply.status == CREATED,
{
    store.put(item.name, item.quantity);
    Reply { message: "Added to store", status: CREATED }
}

/// The whole list, each grocery once with its quantity.
pub fn get_grocery_list(store: &Store) -> (listing: Vec<(String, i32)>)
    requires
        store.wf(),
    ensures
        lists_all(listing@, store@),
{
    let mut listing: Vec<(String, i32)> = Vec::new();
    let mut i: usize = 0;
    while i < store.grocery_list.len()
        invariant
            i <= store.grocery_list@.len(),
            listing@ == store.grocery_list@.take(i as int),
        decreases store.grocery_list@.len() - i,
    {
        let name = store.grocery_list[i].0.clone();
        let quantity: i32 = store.grocery_list[i].1;
        listing.push((name, quantity));
        assert(listing@ =~= store.grocery_list@.take(i as int + 1));
        i = i + 1;
    }
    assert(listing@ =~= store.grocery_list@);
    listing
}

/// Takes the grocery named by `id` off the list, if it is there. The answer
/// is "Removed item from list", success, either way.
pub fn delete_grocery_list_item(id: Id, store: &mut Store) -> (reply: Reply)
    requires
        old(store).wf(),
    ensures
        final(store).wf(),
        final(store)@ == old(store)@.remove(id.name()),
        reply.message@ == "Removed item from list"@,
        reply.status == OK,
{
    match find(&store.grocery_list, &id.name) {
        Some(i) => {
            proof {
                lemma_remove_removes(store.grocery_list@, i as int);
            }
            store.grocery_list.remove(i);
        },
        None => {
            assert(store@ =~= store@.remove(id.name()));
        },
    }
    Reply { message: "Removed item from list", status: OK }
}

/// Sets the quantity of an item; an item that was not listed is added. The
/// answer is "Updated item in store", created.
pub fn update_grocery_list_item(item: Item, store: &mut Store) -> (reply: Reply)
    requires
        old(store).wf(),
    ensures
        final(store).wf(),
        final(store)@ == old(store)@.insert(item.name(), item.quantity()),
        reply.message@ == "Updated item in store"@,
        reply.status == CREATED,
{
    store.put(item.name, item.quantity);
    Reply { message: "Updated item in store", status: CREATED }
}

} // verus!
