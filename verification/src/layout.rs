//! Layouts, as users see them (items by identifier) and as the packing engine
//! exchanges them (items by index), and the way from each to the other.

use vstd::hash_map::StringHashMap;
use vstd::prelude::*;

use crate::error::{ValueError, ValueErrorView};
use crate::text::string_views;

verus! {

/// Where a copy of an item stands: turned about the origin, then moved.
#[derive(Debug)]
pub struct PlacedItem<F> {
    /// The identifier of the item.
    pub id: String,
    /// The translation, applied after the rotation.
    pub translation: (F, F),
    /// The rotation in degrees.
    pub rotation: F,
}

/// The mathematical content of a `PlacedItem`.
#[verifier::ext_equal]
pub struct PlacedItemView<F> {
    pub id: Seq<char>,
    pub translation: (F, F),
    pub rotation: F,
}

impl<F> View for PlacedItem<F> {
    type V = PlacedItemView<F>;

    open spec fn view(&self) -> PlacedItemView<F> {
        PlacedItemView { id: self.id@, translation: self.translation, rotation: self.rotation }
    }
}

impl<F: Copy> Clone for PlacedItem<F> {
    /// A copy that shares nothing with the placed item.
    fn clone(&self) -> (copy: Self)
        ensures
            copy@ == self@,
            copy.id@ == self.id@,
            copy.translation == self.translation,
            copy.rotation == self.rotation,
    {
        PlacedItem {
            id: self.id.clone(),
            translation: self.translation,
            rotation: self.rotation,
        }
    }
}

/// A layout of an instance.
#[derive(Debug)]
pub struct StripPackingSolution<F> {
    /// The width of the strip that holds all items.
    pub width: F,
    /// Where the items stand.
    pub placed_items: Vec<PlacedItem<F>>,
    /// The fraction of the strip that the items cover.
    pub density: F,
}

/// The mathematical content of a `StripPackingSolution`.
#[verifier::ext_equal]
pub struct StripPackingSolutionView<F> {
    pub width: F,
    pub placed_items: Seq<PlacedItemView<F>>,
    pub density: F,
}

/// The contents of each placed item.
pub open spec fn placed_item_views<F>(placed: Seq<PlacedItem<F>>) -> Seq<PlacedItemView<F>> {
    placed.map_values(|p: PlacedItem<F>| p@)
}

impl<F> View for StripPackingSolution<F> {
    type V = StripPackingSolutionView<F>;

    open spec fn view(&self) -> StripPackingSolutionView<F> {
        StripPackingSolutionView {
            width: self.width,
            placed_items: placed_item_views(self.placed_items@),
            density: self.density,
        }
    }
}

impl<F: Copy> Clone for StripPackingSolution<F> {
    /// A copy that shares nothing with the solution.
    fn clone(&self) -> (copy: Self)
        ensures
            copy@ == self@,
            copy.width == self.width,
            copy.density == self.density,
            copy.placed_items.len() == self.placed_items.len(),
            forall|i: int|
                0 <= i < self.placed_items.len() ==> #[trigger] copy.placed_items@[i]@
                    == self.placed_items@[i]@,
    {
        let mut placed_items: Vec<PlacedItem<F>> = Vec::new();
        let mut i: usize = 0;
        while i < self.placed_items.len()
            invariant
                i <= self.placed_items.len(),
                placed_items.len() == i,
                forall|j: int|
                    0 <= j < i ==> #[trigger] placed_items@[j]@ == self.placed_items@[j]@,
            decreases self.placed_items.len() - i,
        {
            placed_items.push(self.placed_items[i].clone());
            i += 1;
        }
        assert(placed_item_views(placed_items@) =~= placed_item_views(self.placed_items@));
        StripPackingSolution { width: self.width, placed_items, density: self.density }
    }
}

/// A rotation in degrees followed by a translation.
#[derive(Debug, PartialEq)]
pub struct ExtTransformation<F> {
    pub rotation: F,
    pub translation: (F, F),
}

impl<F: Copy> Clone for ExtTransformation<F> {
    fn clone(&self) -> (copy: Self)
        ensures
            copy == *self,
    {
        *self
    }
}

impl<F: Copy> Copy for ExtTransformation<F> {

}

/// A copy of the item with the index `item_id`, where the engine placed it.
#[derive(Debug, PartialEq)]
pub struct ExtPlacedItem<F> {
    pub item_id: u64,
    pub transformation: ExtTransformation<F>,
}

impl<F: Copy> Clone for ExtPlacedItem<F> {
    fn clone(&self) -> (copy: Self)
        ensures
            copy == *self,
    {
        *self
    }
}

impl<F: Copy> Copy for ExtPlacedItem<F> {

}

/// The items placed in one container.
#[derive(Debug)]
pub struct ExtLayout<F> {
    pub container_id: u64,
    pub placed_items: Vec<ExtPlacedItem<F>>,
    pub density: F,
}

/// A layout as the engine exchanges it.
#[derive(Debug)]
pub struct ExtSPSolution<F> {
    pub strip_width: F,
    pub layout: ExtLayout<F>,
    pub density: F,
    pub run_time_sec: u64,
}

/// The mathematical content of an `ExtLayout`.
#[verifier::ext_equal]
pub struct ExtLayoutView<F> {
    pub container_id: u64,
    pub placed_items: Seq<ExtPlacedItem<F>>,
    pub density: F,
}

/// The mathematical content of an `ExtSPSolution`.
#[verifier::ext_equal]
pub struct ExtSPSolutionView<F> {
    pub strip_width: F,
    pub layout: ExtLayoutView<F>,
    pub density: F,
    pub run_time_sec: u64,
}

impl<F> View for ExtLayout<F> {
    type V = ExtLayoutView<F>;

    open spec fn view(&self) -> ExtLayoutView<F> {
        ExtLayoutView {
            container_id: self.container_id,
            placed_items: self.placed_items@,
            density: self.density,
        }
    }
}

impl<F> View for ExtSPSolution<F> {
    type V = ExtSPSolutionView<F>;

    open spec fn view(&self) -> ExtSPSolutionView<F> {
        ExtSPSolutionView {
            strip_width: self.strip_width,
            layout: self.layout@,
            density: self.density,
            run_time_sec: self.run_time_sec,
        }
    }
}

/// The index of the item that `id` stands for: the last one to carry it.
pub open spec fn item_index(ids: Seq<Seq<char>>, id: Seq<char>) -> Option<int>
    decreases ids.len(),
{
    if ids.len() == 0 {
        None
    } else if ids.last() == id {
        Some(ids.len() - 1)
    } else {
        item_index(ids.drop_last(), id)
    }
}

/// `item_index` finds a carrier of the identifier with none after it, wherever there is one.
pub proof fn lemma_item_index(ids: Seq<Seq<char>>, id: Seq<char>)
    ensures
        item_index(ids, id) is Some <==> ids.contains(id),
        item_index(ids, id) matches Some(i) ==> {
            &&& 0 <= i < ids.len()
            &&& ids[i] == id
            &&& forall|j: int| i < j < ids.len() ==> ids[j] != id
        },
    decreases ids.len(),
{
    if ids.len() > 0 {
        if ids.last() == id {
            assert(ids[ids.len() - 1] == id);
        } else {
            let front = ids.drop_last();
            lemma_item_index(front, id);
            if ids.contains(id) {
                let j = choose|j: int| 0 <= j < ids.len() && ids[j] == id;
                assert(front[j] == id);
            }
            assert forall|j: int|
                item_index(front, id) is Some && item_index(front, id)->0 < j < ids.len() implies
                ids[j] != id by {
                if j < front.len() {
                    assert(front[j] == ids[j]);
                }
            }
        }
    }
}

/// A placed item as the engine exchanges it.
pub open spec fn placement<F>(placed: PlacedItemView<F>, ids: Seq<Seq<char>>) -> ExtPlacedItem<F> {
    ExtPlacedItem {
        item_id: item_index(ids, placed.id)->0 as u64,
        transformation: ExtTransformation {
            rotation: placed.rotation,
            translation: placed.translation,
        },
    }
}

/// Placed items as the engine exchanges them.
pub open spec fn placements<F>(
    placed: Seq<PlacedItemView<F>>,
    ids: Seq<Seq<char>>,
) -> Seq<ExtPlacedItem<F>> {
    placed.map_values(|p: PlacedItemView<F>| placement(p, ids))
}

/// Every placed item has an identifier of `ids`.
pub open spec fn all_known<F>(placed: Seq<PlacedItemView<F>>, ids: Seq<Seq<char>>) -> bool {
    forall|i: int| 0 <= i < placed.len() ==> ids.contains(#[trigger] placed[i].id)
}

/// The placed item at `i` is the first whose identifier is not one of `ids`.
pub open spec fn is_first_unknown<F>(
    placed: Seq<PlacedItemView<F>>,
    ids: Seq<Seq<char>>,
    i: int,
) -> bool {
    &&& 0 <= i < placed.len()
    &&& !ids.contains(placed[i].id)
    &&& forall|j: int| 0 <= j < i ==> ids.contains(#[trigger] placed[j].id)
}

/// The first placed item whose identifier is not one of `ids`, where there is one.
pub open spec fn first_unknown<F>(placed: Seq<PlacedItemView<F>>, ids: Seq<Seq<char>>) -> int {
    choose|i: int| is_first_unknown(placed, ids, i)
}

/// The layout to start from, as the engine reads it. There is one strip, hence one container,
/// and nobody has spent time on the layout yet.
pub open spec fn start_layout<F>(
    sol: StripPackingSolutionView<F>,
    ids: Seq<Seq<char>>,
) -> ExtSPSolutionView<F> {
    ExtSPSolutionView {
        strip_width: sol.width,
        layout: ExtLayoutView {
            container_id: 0,
            placed_items: placements(sol.placed_items, ids),
            density: sol.density,
        },
        density: sol.density,
        run_time_sec: 0,
    }
}

/// What becomes of a layout to start from: the engine's form of it, or the refusal that names
/// its first unknown identifier.
pub open spec fn initial_solution<F>(
    sol: StripPackingSolutionView<F>,
    ids: Seq<Seq<char>>,
) -> Result<ExtSPSolutionView<F>, ValueErrorView> {
    if all_known(sol.placed_items, ids) {
        Ok(start_layout(sol, ids))
    } else {
        Err(
            ValueErrorView::UnknownItemId {
                id: sol.placed_items[first_unknown(sol.placed_items, ids)].id,
            },
        )
    }
}

/// The contents of either outcome.
pub open spec fn result_view<T: View, E: View>(result: Result<T, E>) -> Result<T::V, E::V> {
    match result {
        Ok(value) => Ok(value@),
        Err(error) => Err(error@),
    }
}

/// The index of each identifier.
fn index_by_id(ids: &[String]) -> (index: StringHashMap<u64>)
    ensures
        forall|id: Seq<char>| #[trigger]
            index@.contains_key(id) <==> item_index(string_views(ids@), id) is Some,
        forall|id: Seq<char>| #[trigger]
            index@.contains_key(id) ==> index@[id] == item_index(string_views(ids@), id)->0,
{
    let mut index: StringHashMap<u64> = StringHashMap::new();
    let ghost all = string_views(ids@);
    let mut i: usize = 0;
    while i < ids.len()
        invariant
            i <= ids.len(),
            all == string_views(ids@),
            forall|id: Seq<char>| #[trigger]
                index@.contains_key(id) <==> item_index(all.take(i as int), id) is Some,
            forall|id: Seq<char>| #[trigger]
                index@.contains_key(id) ==> index@[id] == item_index(all.take(i as int), id)->0,
        decreases ids.len() - i,
    {
        assert(all.take(i + 1).drop_last() =~= all.take(i as int));
        assert(all.take(i + 1).last() == ids@[i as int]@);
        index.insert(ids[i].clone(), i as u64);
        i += 1;
    }
    assert(all.take(i as int) =~= all);
    index
}

/// Turns a layout that names its items into the form that the engine reads, for a search that
/// starts from it.
///
/// `item_ids` are the identifiers of the instance's items in order. An identifier that none of
/// them carries is refused; the first such identifier is the one reported.
pub fn build_initial_solution<F: Copy>(
    sol: &StripPackingSolution<F>,
    item_ids: &[String],
) -> (result: Result<ExtSPSolution<F>, ValueError>)
    ensures
        result is Ok <==> all_known(sol@.placed_items, string_views(item_ids@)),
        result matches Ok(ext) ==> ext@ == start_layout(sol@, string_views(item_ids@)),
        result matches Err(error) ==> exists|i: int| #[trigger]
            is_first_unknown(sol@.placed_items, string_views(item_ids@), i) && error@ == (
            ValueErrorView::UnknownItemId { id: sol@.placed_items[i].id }),
        result_view(result) == initial_solution(sol@, string_views(item_ids@)),
        result matches Ok(ext) ==> {
            &&& ext.strip_width == sol.width
            &&& ext.density == sol.density
            &&& ext.run_time_sec == 0
            &&& ext.layout.container_id == 0
            &&& ext.layout.density == sol.density
            &&& ext.layout.placed_items@.len() == sol.placed_items@.len()
            &&& forall|i: int|
                0 <= i < sol.placed_items@.len() ==> {
                    let handed = #[trigger] ext.layout.placed_items@[i];
                    &&& handed.item_id < item_ids@.len()
                    &&& item_ids@[handed.item_id as int]@ == sol.placed_items@[i].id@
                    &&& handed.transformation.rotation == sol.placed_items@[i].rotation
                    &&& handed.transformation.translation == sol.placed_items@[i].translation
                }
            &&& forall|i: int, k: int|
                0 <= i < sol.placed_items@.len() && (
                #[trigger] ext.layout.placed_items@[i]).item_id < k < item_ids@.len() ==>
                #[trigger] item_ids@[k]@ != sol.placed_items@[i].id@
        },
        result matches Err(error) ==> error matches ValueError::UnknownItemId { id } && {
            &&& forall|k: int| 0 <= k < item_ids@.len() ==> #[trigger] item_ids@[k]@ != id@
            &&& exists|i: int|
                0 <= i < sol.placed_items@.len() && (#[trigger] sol.placed_items@[i]).id@ == id@ && (
                forall|j: int|
                    0 <= j < i ==> exists|k: int|
                        0 <= k < item_ids@.len() && #[trigger] item_ids@[k]@ == (
                        #[trigger] sol.placed_items@[j]).id@)
        },
{
    let index = index_by_id(item_ids);
    let ghost ids = string_views(item_ids@);
    let ghost placed = sol@.placed_items;
    let mut placed_items: Vec<ExtPlacedItem<F>> = Vec::new();
    let mut i: usize = 0;
    while i < sol.placed_items.len()
        invariant
            i <= sol.placed_items.len(),
            ids == string_views(item_ids@),
            placed == sol@.placed_items,
            forall|id: Seq<char>| #[trigger]
                index@.contains_key(id) <==> item_index(ids, id) is Some,
            forall|id: Seq<char>| #[trigger]
                index@.contains_key(id) ==> index@[id] == item_index(ids, id)->0,
            placed_items@ == placements(placed, ids).take(i as int),
            forall|j: int| 0 <= j < i ==> ids.contains(#[trigger] placed[j].id),
            forall|j: int|
                0 <= j < i ==> exists|k: int|
                    0 <= k < item_ids@.len() && #[trigger] item_ids@[k]@ == (
                    #[trigger] sol.placed_items@[j]).id@,
            placed_items@.len() == i,
            forall|j: int|
                0 <= j < i ==> {
                    let handed = #[trigger] placed_items@[j];
                    &&& handed.item_id < item_ids@.len()
                    &&& item_ids@[handed.item_id as int]@ == sol.placed_items@[j].id@
                    &&& handed.transformation.rotation == sol.placed_items@[j].rotation
                    &&& handed.transformation.translation == sol.placed_items@[j].translation
                },
            forall|j: int, k: int|
                0 <= j < i && (#[trigger] placed_items@[j]).item_id < k < item_ids@.len() ==>
                #[trigger] item_ids@[k]@ != sol.placed_items@[j].id@,
        decreases sol.placed_items.len() - i,
    {
        let p = &sol.placed_items[i];
        assert(placed[i as int] == p@);
        proof {
            lemma_item_index(ids, p.id@);
        }
        let item_id: u64 = match index.get(p.id.as_str()) {
            Some(item_id) => *item_id,
            None => {
                let error = ValueError::UnknownItemId { id: p.id.clone() };
                proof {
                    assert(!index@.contains_key(p.id@));
                    assert forall|k: int| 0 <= k < item_ids@.len() implies #[trigger] item_ids@[k]@
                        != p.id@ by {
                        assert(ids[k] == item_ids@[k]@);
                    }
                    assert(sol.placed_items@[i as int].id@ == p.id@);
                    assert(is_first_unknown(placed, ids, i as int));
                    let k = first_unknown(placed, ids);
                    assert(is_first_unknown(placed, ids, k));
                    if k < i {
                        assert(ids.contains(placed[k].id));
                    }
                    if i < k {
                        assert(ids.contains(placed[i as int].id));
                    }
                }
                return Err(error);
            },
        };
        proof {
            assert(item_index(ids, p.id@) == Some(item_id as int));
            assert(ids[item_id as int] == item_ids@[item_id as int]@);
            assert forall|k: int| item_id < k < item_ids@.len() implies #[trigger] item_ids@[k]@
                != p.id@ by {
                assert(ids[k] == item_ids@[k]@);
            }
        }
        placed_items.push(
            ExtPlacedItem {
                item_id,
                transformation: ExtTransformation {
                    rotation: p.rotation,
                    translation: p.translation,
                },
            },
        );
        i += 1;
    }
    assert(placements(placed, ids).take(i as int) =~= placements(placed, ids));
    Ok(
        ExtSPSolution {
            strip_width: sol.width,
            layout: ExtLayout { container_id: 0, placed_items, density: sol.density },
            density: sol.density,
            run_time_sec: 0,
        },
    )
}

/// Every placement refers to one of `n` items.
pub open spec fn in_range<F>(ext: ExtSPSolutionView<F>, n: nat) -> bool {
    forall|i: int|
        0 <= i < ext.layout.placed_items.len() ==> (
        #[trigger] ext.layout.placed_items[i].item_id as usize) < n
}

/// Whether every placement refers to one of `n` items.
pub fn indices_in_range<F>(ext: &ExtSPSolution<F>, n: usize) -> (yes: bool)
    ensures
        yes == in_range(ext@, n as nat),
        yes <==> forall|i: int|
            0 <= i < ext.layout.placed_items@.len() ==> (
            #[trigger] ext.layout.placed_items@[i].item_id as usize) < n,
{
    let mut i: usize = 0;
    while i < ext.layout.placed_items.len()
        invariant
            i <= ext.layout.placed_items.len(),
            forall|j: int|
                0 <= j < i ==> (#[trigger] ext@.layout.placed_items[j].item_id as usize) < n,
            forall|j: int|
                0 <= j < i ==> (#[trigger] ext.layout.placed_items@[j].item_id as usize) < n,
        decreases ext.layout.placed_items.len() - i,
    {
        if ext.layout.placed_items[i].item_id as usize >= n {
            assert(ext@.layout.placed_items[i as int].item_id as usize >= n);
            assert(ext.layout.placed_items@[i as int].item_id as usize >= n);
            return false;
        }
        i += 1;
    }
    true
}

/// A placement as a user sees it.
pub open spec fn named<F>(ext: ExtPlacedItem<F>, ids: Seq<Seq<char>>) -> PlacedItemView<F> {
    PlacedItemView {
        id: ids[ext.item_id as usize as int],
        translation: ext.transformation.translation,
        rotation: ext.transformation.rotation,
    }
}

/// The engine's layout as a user sees it.
pub open spec fn named_layout<F>(
    ext: ExtSPSolutionView<F>,
    ids: Seq<Seq<char>>,
) -> StripPackingSolutionView<F> {
    StripPackingSolutionView {
        width: ext.strip_width,
        placed_items: ext.layout.placed_items.map_values(|p: ExtPlacedItem<F>| named(p, ids)),
        density: ext.density,
    }
}

/// Turns an exported layout into one that names its items.
///
/// `item_ids` are the identifiers of the instance's items in order.
pub fn name_items<F: Copy>(ext: &ExtSPSolution<F>, item_ids: &Vec<String>) -> (sol:
    StripPackingSolution<F>)
    requires
        in_range(ext@, item_ids@.len()),
    ensures
        sol@ == named_layout(ext@, string_views(item_ids@)),
        sol.width == ext.strip_width,
        sol.density == ext.density,
        sol.placed_items@.len() == ext.layout.placed_items@.len(),
        forall|i: int|
            0 <= i < sol.placed_items@.len() ==> {
                let placed = #[trigger] sol.placed_items@[i];
                let found = ext.layout.placed_items@[i];
                &&& placed.id@ == item_ids@[found.item_id as usize as int]@
                &&& placed.rotation == found.transformation.rotation
                &&& placed.translation == found.transformation.translation
            },
{
    let ghost ids = string_views(item_ids@);
    let mut placed_items: Vec<PlacedItem<F>> = Vec::new();
    let mut i: usize = 0;
    while i < ext.layout.placed_items.len()
        invariant
            i <= ext.layout.placed_items.len(),
            ids == string_views(item_ids@),
            in_range(ext@, item_ids@.len()),
            placed_items.len() == i,
            forall|j: int|
                0 <= j < i ==> #[trigger] placed_items@[j]@ == named(
                    ext@.layout.placed_items[j],
                    ids,
                ),
            forall|j: int|
                0 <= j < i ==> {
                    let placed = #[trigger] placed_items@[j];
                    let found = ext.layout.placed_items@[j];
                    &&& placed.id@ == item_ids@[found.item_id as usize as int]@
                    &&& placed.rotation == found.transformation.rotation
                    &&& placed.translation == found.transformation.translation
                },
        decreases ext.layout.placed_items.len() - i,
    {
        let p = &ext.layout.placed_items[i];
        assert(*p == ext@.layout.placed_items[i as int]);
        placed_items.push(
            PlacedItem {
                id: item_ids[p.item_id as usize].clone(),
                rotation: p.transformation.rotation,
                translation: p.transformation.translation,
            },
        );
        i += 1;
    }
    let sol = StripPackingSolution { width: ext.strip_width, placed_items, density: ext.density };
    assert(sol@.placed_items =~= named_layout(ext@, ids).placed_items);
    sol
}

} // verus!
