//! Instances of the strip packing problem.

use vstd::hash_set::StringHashSet;
use vstd::prelude::*;

use crate::error::{ValueError, ValueErrorView};
use crate::item::{collect_item_ids, copy_items, Item, ItemView};
use crate::item::{item_ids, item_views, optional_view};
use crate::text::{copy_optional_vec, copy_vec};
use crate::text::{str_views, string_views};

verus! {

/// Items to be packed into a strip of fixed height and smallest width.
#[derive(Debug)]
pub struct StripPackingInstance<F> {
    /// A name, which may be empty.
    pub name: String,
    /// The height of the strip, in the unit of the items.
    pub strip_height: F,
    /// The items, all to the same scale.
    pub items: Vec<Item<F>>,
}

/// The mathematical content of a `StripPackingInstance`.
#[verifier::ext_equal]
pub struct StripPackingInstanceView<F> {
    pub name: Seq<char>,
    pub strip_height: F,
    pub items: Seq<ItemView<F>>,
}

impl<F> View for StripPackingInstance<F> {
    type V = StripPackingInstanceView<F>;

    open spec fn view(&self) -> StripPackingInstanceView<F> {
        StripPackingInstanceView {
            name: self.name@,
            strip_height: self.strip_height,
            items: item_views(self.items@),
        }
    }
}

impl<F> StripPackingInstanceView<F> {
    /// The identifiers of the items, in order.
    pub open spec fn ids(self) -> Seq<Seq<char>> {
        item_ids(self.items)
    }

    /// No two items share an identifier.
    pub open spec fn ids_unique(self) -> bool {
        self.ids().no_duplicates()
    }
}

/// Whether no string occurs twice.
pub fn all_unique(strings: &[&str]) -> (unique: bool)
    ensures
        unique == str_views(strings@).no_duplicates(),
        unique <==> forall|i: int, j: int|
            0 <= i < j < strings@.len() ==> #[trigger] strings@[i]@ != #[trigger] strings@[j]@,
{
    let mut seen = StringHashSet::new();
    let mut i: usize = 0;
    while i < strings.len()
        invariant
            i <= strings.len(),
            str_views(strings@).take(i as int).no_duplicates(),
            seen@ == str_views(strings@).take(i as int).to_set(),
        decreases strings.len() - i,
    {
        let ghost all = str_views(strings@);
        let ghost before = all.take(i as int);
        let ghost after = all.take(i + 1);
        assert(after =~= before.push(all[i as int]));
        if !seen.insert(strings[i].to_string()) {
            proof {
                let j = choose|j: int| 0 <= j < before.len() && before[j] == all[i as int];
                assert(all[j] == all[i as int]);
            }
            return false;
        }
        proof {
            assert(after.to_set() =~= before.to_set().insert(all[i as int])) by {
                assert forall|s: Seq<char>| after.to_set().contains(s) implies
                    before.to_set().insert(all[i as int]).contains(s) by {
                    let j = choose|j: int| 0 <= j < after.len() && after[j] == s;
                    if j < i {
                        assert(before[j] == s);
                    }
                }
                assert forall|s: Seq<char>|
                    before.to_set().insert(all[i as int]).contains(s) implies
                    after.to_set().contains(s) by {
                    if s == all[i as int] {
                        assert(after[i as int] == s);
                    } else {
                        let j = choose|j: int| 0 <= j < before.len() && before[j] == s;
                        assert(after[j] == s);
                    }
                }
            }
            assert forall|j: int, k: int|
                0 <= j < after.len() && 0 <= k < after.len() && j != k implies
                after[j] != after[k] by {
                if j < i && k < i {
                    assert(before[j] != before[k]);
                } else if j < i {
                    assert(before.contains(before[j]));
                } else {
                    assert(before.contains(before[k]));
                }
            }
        }
        i += 1;
    }
    assert(str_views(strings@).take(i as int) =~= str_views(strings@));
    assert forall|j: int, k: int| 0 <= j < k < strings@.len() implies #[trigger] strings@[j]@
        != #[trigger] strings@[k]@ by {
        assert(str_views(strings@)[j] != str_views(strings@)[k]);
    }
    true
}

impl<F> StripPackingInstance<F> {
    /// An instance over the given items, refused where two of them share an identifier.
    pub fn new(name: String, strip_height: F, items: Vec<Item<F>>) -> (result: Result<
        Self,
        ValueError,
    >)
        ensures
            result is Ok <==> item_ids(item_views(items@)).no_duplicates(),
            result is Ok <==> forall|i: int, j: int|
                0 <= i < j < items@.len() ==> #[trigger] items@[i].id@ != #[trigger] items@[j].id@,
            result matches Ok(instance) ==> {
                &&& instance.name == name
                &&& instance.strip_height == strip_height
                &&& instance.items == items
                &&& instance@.ids_unique()
                &&& instance@ == (StripPackingInstanceView {
                    name: name@,
                    strip_height,
                    items: item_views(items@),
                })
            },
            result matches Err(error) ==> error@ == (ValueErrorView::ItemIdsNotUnique {
                ids: item_ids(item_views(items@)),
            }),
            result matches Err(error) ==> error matches ValueError::ItemIdsNotUnique { ids } && {
                &&& ids@.len() == items@.len()
                &&& forall|i: int| 0 <= i < items@.len() ==> #[trigger] ids@[i]@ == items@[i].id@
            },
    {
        let mut ids: Vec<&str> = Vec::new();
        let mut i: usize = 0;
        while i < items.len()
            invariant
                i <= items.len(),
                ids.len() == i,
                forall|j: int| 0 <= j < i ==> #[trigger] ids@[j]@ == items@[j].id@,
            decreases items.len() - i,
        {
            ids.push(items[i].id.as_str());
            i += 1;
        }
        assert(str_views(ids@) =~= item_ids(item_views(items@)));
        if !all_unique(ids.as_slice()) {
            return Err(ValueError::ItemIdsNotUnique { ids: collect_item_ids(&items) });
        }
        assert forall|j: int, k: int| 0 <= j < k < items@.len() implies #[trigger] items@[j].id@
            != #[trigger] items@[k].id@ by {
            assert(ids@[j]@ != ids@[k]@);
        }
        Ok(StripPackingInstance { name, strip_height, items })
    }
}

impl<F: Copy> Clone for StripPackingInstance<F> {
    /// A copy that shares nothing with the instance.
    fn clone(&self) -> (copy: Self)
        ensures
            copy@ == self@,
            copy.name@ == self.name@,
            copy.strip_height == self.strip_height,
            copy.items.len() == self.items.len(),
            forall|i: int|
                0 <= i < self.items.len() ==> #[trigger] copy.items@[i]@ == self.items@[i]@,
    {
        StripPackingInstance {
            name: self.name.clone(),
            strip_height: self.strip_height,
            items: copy_items(&self.items),
        }
    }
}

/// The shape of an item, as the engine reads it.
#[derive(Debug)]
pub enum ExtShape<F> {
    /// A polygon without holes, given by its corners in order.
    SimplePolygon(Vec<(F, F)>),
}

/// An item, as the engine reads it, without its demand.
#[derive(Debug)]
pub struct BaseItem<F> {
    pub id: u64,
    pub allowed_orientations: Option<Vec<F>>,
    pub shape: ExtShape<F>,
    pub min_quality: Option<usize>,
}

/// An item with its demand, as the engine reads it.
#[derive(Debug)]
pub struct ExtItem<F> {
    pub base: BaseItem<F>,
    pub demand: u64,
}

/// An instance, as the engine reads it.
#[derive(Debug)]
pub struct ExtSPInstance<F> {
    pub name: String,
    pub items: Vec<ExtItem<F>>,
    pub strip_height: F,
}

/// The mathematical content of an `ExtShape`.
#[verifier::ext_equal]
pub enum ExtShapeView<F> {
    SimplePolygon(Seq<(F, F)>),
}

/// The mathematical content of an `ExtItem`.
#[verifier::ext_equal]
pub struct ExtItemView<F> {
    pub id: u64,
    pub allowed_orientations: Option<Seq<F>>,
    pub shape: ExtShapeView<F>,
    pub min_quality: Option<usize>,
    pub demand: u64,
}

/// The mathematical content of an `ExtSPInstance`.
#[verifier::ext_equal]
pub struct ExtSPInstanceView<F> {
    pub name: Seq<char>,
    pub items: Seq<ExtItemView<F>>,
    pub strip_height: F,
}

impl<F> View for ExtShape<F> {
    type V = ExtShapeView<F>;

    open spec fn view(&self) -> ExtShapeView<F> {
        match self {
            ExtShape::SimplePolygon(corners) => ExtShapeView::SimplePolygon(corners@),
        }
    }
}

impl<F> View for ExtItem<F> {
    type V = ExtItemView<F>;

    open spec fn view(&self) -> ExtItemView<F> {
        ExtItemView {
            id: self.base.id,
            allowed_orientations: optional_view(self.base.allowed_orientations),
            shape: self.base.shape@,
            min_quality: self.base.min_quality,
            demand: self.demand,
        }
    }
}

impl<F> View for ExtSPInstance<F> {
    type V = ExtSPInstanceView<F>;

    open spec fn view(&self) -> ExtSPInstanceView<F> {
        ExtSPInstanceView {
            name: self.name@,
            items: self.items@.map_values(|item: ExtItem<F>| item@),
            strip_height: self.strip_height,
        }
    }
}

/// The item at `index` as the engine reads it: it goes by its index, asks for no quality, and
/// is a polygon without holes.
pub open spec fn ext_item<F>(item: ItemView<F>, index: int) -> ExtItemView<F> {
    ExtItemView {
        id: index as u64,
        allowed_orientations: item.allowed_orientations,
        shape: ExtShapeView::SimplePolygon(item.shape),
        min_quality: None,
        demand: item.demand,
    }
}

impl<F> StripPackingInstanceView<F> {
    /// The instance as the engine reads it.
    pub open spec fn ext(self) -> ExtSPInstanceView<F> {
        ExtSPInstanceView {
            name: self.name,
            items: Seq::new(self.items.len(), |i: int| ext_item(self.items[i], i)),
            strip_height: self.strip_height,
        }
    }
}

impl<F: Copy> StripPackingInstance<F> {
    /// The instance as the engine reads it: items go by their index.
    pub fn to_ext(&self) -> (ext: ExtSPInstance<F>)
        ensures
            ext@ == self@.ext(),
            ext.name@ == self.name@,
            ext.strip_height == self.strip_height,
            ext.items.len() == self.items.len(),
            forall|i: int|
                0 <= i < self.items.len() ==> {
                    let given = self.items@[i];
                    let handed = #[trigger] ext.items@[i];
                    &&& handed.base.id == i
                    &&& handed.demand == given.demand
                    &&& handed.base.min_quality is None
                    &&& handed.base.shape matches ExtShape::SimplePolygon(corners) && corners@
                        == given.shape@
                    &&& match given.allowed_orientations {
                        Some(angles) => handed.base.allowed_orientations matches Some(handed_angles)
                            && handed_angles@ == angles@,
                        None => handed.base.allowed_orientations is None,
                    }
                },
    {
        let mut items: Vec<ExtItem<F>> = Vec::new();
        let mut i: usize = 0;
        while i < self.items.len()
            invariant
                i <= self.items.len(),
                items.len() == i,
                forall|j: int|
                    0 <= j < i ==> #[trigger] items@[j]@ == ext_item(self.items@[j]@, j),
                forall|j: int|
                    0 <= j < i ==> {
                        let given = self.items@[j];
                        let handed = #[trigger] items@[j];
                        &&& handed.base.id == j
                        &&& handed.demand == given.demand
                        &&& handed.base.min_quality is None
                        &&& handed.base.shape matches ExtShape::SimplePolygon(corners) && corners@
                            == given.shape@
                        &&& match given.allowed_orientations {
                            Some(angles) => handed.base.allowed_orientations matches Some(
                                handed_angles,
                            ) && handed_angles@ == angles@,
                            None => handed.base.allowed_orientations is None,
                        }
                    },
            decreases self.items.len() - i,
        {
            let item = &self.items[i];
            let ext = ExtItem {
                base: BaseItem {
                    id: i as u64,
                    allowed_orientations: copy_optional_vec(&item.allowed_orientations),
                    shape: ExtShape::SimplePolygon(copy_vec(&item.shape)),
                    min_quality: None,
                },
                demand: item.demand,
            };
            assert(ext@ == ext_item(self.items@[i as int]@, i as int));
            items.push(ext);
            i += 1;
        }
        let ext = ExtSPInstance { name: self.name.clone(), items, strip_height: self.strip_height };
        assert(ext@.items =~= self@.ext().items);
        ext
    }
}

} // verus!
