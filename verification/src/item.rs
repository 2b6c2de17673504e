//! The items to be packed.

use vstd::prelude::*;

use crate::text::{append_decimal, copy_optional_vec, copy_vec};
use crate::text::{decimal, string_views};

verus! {

/// A closed two-dimensional shape, given by its outer boundary, to be placed a number of times.
#[derive(Debug)]
pub struct Item<F> {
    /// The identifier of the item, unique among the items of an instance.
    pub id: String,
    /// How many copies are to be placed; strictly positive.
    pub demand: u64,
    /// The angles in degrees by which the item may be turned. Without a list it turns
    /// freely; an empty list stands for the angle zero alone.
    pub allowed_orientations: Option<Vec<F>>,
    /// The corners of the boundary in order. The first may be repeated as the last.
    pub shape: Vec<(F, F)>,
}

/// The mathematical content of an `Item`.
#[verifier::ext_equal]
pub struct ItemView<F> {
    pub id: Seq<char>,
    pub demand: u64,
    pub allowed_orientations: Option<Seq<F>>,
    pub shape: Seq<(F, F)>,
}

/// The contents of an optional vector.
pub open spec fn optional_view<T>(v: Option<Vec<T>>) -> Option<Seq<T>> {
    match v {
        Some(inner) => Some(inner@),
        None => None,
    }
}

impl<F> View for Item<F> {
    type V = ItemView<F>;

    open spec fn view(&self) -> ItemView<F> {
        ItemView {
            id: self.id@,
            demand: self.demand,
            allowed_orientations: optional_view(self.allowed_orientations),
            shape: self.shape@,
        }
    }
}

impl<F> ItemView<F> {
    /// A strictly positive demand.
    pub open spec fn wf(self) -> bool {
        self.demand > 0
    }

    /// The printed form of an item whose corners print as `shape` and whose angles, where
    /// it has any, print as `orientations`.
    pub open spec fn text(self, shape: Seq<char>, orientations: Seq<char>) -> Seq<char> {
        let common = "Item(id="@ + self.id + ",shape="@ + shape + ", demand="@ + decimal(
            self.demand as nat,
        );
        if self.allowed_orientations is Some {
            common + ", allowed_orientations="@ + orientations + ")"@
        } else {
            common + ")"@
        }
    }
}

impl<F> Item<F> {
    /// An item with the given properties.
    pub fn new(
        id: String,
        shape: Vec<(F, F)>,
        demand: u64,
        allowed_orientations: Option<Vec<F>>,
    ) -> (item: Self)
        requires
            demand > 0,
        ensures
            item.id == id,
            item.demand == demand,
            item.allowed_orientations == allowed_orientations,
            item.shape == shape,
            item@.wf(),
            item@ == (ItemView {
                id: id@,
                demand,
                allowed_orientations: optional_view(allowed_orientations),
                shape: shape@,
            }),
    {
        Item { id, demand, allowed_orientations, shape }
    }

    /// The printed form of the item, around the printed corners `shape` and the printed
    /// angles `orientations`. The latter shows only where the item lists angles.
    pub fn repr(&self, shape: &str, orientations: &str) -> (text: String)
        ensures
            text@ == self@.text(shape@, orientations@),
            self.allowed_orientations is Some ==> text@ == "Item(id="@ + self.id@ + ",shape="@
                + shape@ + ", demand="@ + decimal(self.demand as nat) + ", allowed_orientations="@
                + orientations@ + ")"@,
            self.allowed_orientations is None ==> text@ == "Item(id="@ + self.id@ + ",shape="@
                + shape@ + ", demand="@ + decimal(self.demand as nat) + ")"@,
    {
        let mut text = String::from_str("Item(id=");
        text.append(self.id.as_str());
        text.append(",shape=");
        text.append(shape);
        text.append(", demand=");
        append_decimal(&mut text, self.demand);
        if self.allowed_orientations.is_some() {
            text.append(", allowed_orientations=");
            text.append(orientations);
        }
        text.append(")");
        text
    }
}

impl<F: Copy> Clone for Item<F> {
    /// A copy that shares nothing with the item.
    fn clone(&self) -> (copy: Self)
        ensures
            copy@ == self@,
            copy.id@ == self.id@,
            copy.demand == self.demand,
            copy.allowed_orientations is Some == self.allowed_orientations is Some,
            self.allowed_orientations matches Some(angles) ==> copy.allowed_orientations->0@
                == angles@,
            copy.shape@ == self.shape@,
    {
        Item {
            id: self.id.clone(),
            demand: self.demand,
            allowed_orientations: copy_optional_vec(&self.allowed_orientations),
            shape: copy_vec(&self.shape),
        }
    }
}

/// The contents of each item.
pub open spec fn item_views<F>(items: Seq<Item<F>>) -> Seq<ItemView<F>> {
    items.map_values(|item: Item<F>| item@)
}

/// The identifiers of the items, in order.
pub open spec fn item_ids<F>(items: Seq<ItemView<F>>) -> Seq<Seq<char>> {
    items.map_values(|item: ItemView<F>| item.id)
}

/// A copy of a list of items.
pub fn copy_items<F: Copy>(items: &Vec<Item<F>>) -> (copy: Vec<Item<F>>)
    ensures
        item_views(copy@) == item_views(items@),
        copy.len() == items.len(),
        forall|i: int| 0 <= i < items.len() ==> #[trigger] copy@[i]@ == items@[i]@,
{
    let mut copy: Vec<Item<F>> = Vec::new();
    let mut i: usize = 0;
    while i < items.len()
        invariant
            i <= items.len(),
            copy.len() == i,
            forall|j: int| 0 <= j < i ==> #[trigger] copy@[j]@ == items@[j]@,
        decreases items.len() - i,
    {
        copy.push(items[i].clone());
        i += 1;
    }
    assert(item_views(copy@) =~= item_views(items@));
    copy
}

/// The identifiers of the items, in order.
pub fn collect_item_ids<F>(items: &Vec<Item<F>>) -> (ids: Vec<String>)
    ensures
        string_views(ids@) == item_ids(item_views(items@)),
        ids.len() == items.len(),
        forall|i: int| 0 <= i < items.len() ==> #[trigger] ids@[i]@ == items@[i].id@,
{
    let mut ids: Vec<String> = Vec::new();
    let mut i: usize = 0;
    while i < items.len()
        invariant
            i <= items.len(),
            ids.len() == i,
            forall|j: int| 0 <= j < i ==> #[trigger] ids@[j]@ == items@[j].id@,
        decreases items.len() - i,
    {
        ids.push(items[i].id.clone());
        i += 1;
    }
    assert(string_views(ids@) =~= item_ids(item_views(items@)));
    ids
}

} // verus!
