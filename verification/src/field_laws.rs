//! What each operation hands on, field by field: how the parts of its result
//! follow from the parts of what it was given.

use vstd::prelude::*;

use crate::config::{times_granted, times_usable};
use crate::config::{StripPackingConfig, TimeSpan};
use crate::error::{ValueError, ValueErrorView};
use crate::host::{generator_for, pretty_debug};
use crate::instance::{
    ExtItem, ExtSPInstance, ExtShape, ExtShapeView, StripPackingInstance, StripPackingInstanceView,
};
use crate::item::{item_ids, item_views, optional_view};
use crate::item::{Item, ItemView};
use crate::layout::{
    all_known, in_range, initial_solution, is_first_unknown, item_index, lemma_item_index,
    named_layout, placed_item_views, result_view, start_layout,
};
use crate::layout::{
    ExtSPSolution, ExtSPSolutionView, PlacedItem, StripPackingSolution, StripPackingSolutionView,
};
use crate::progress::{report_views, used};
use crate::progress::{ProgressReport, QueueUse, ReportType, SolListener, SolListenerView};
use crate::solve::{group_views, groups_or_none, optional_solution_view};
use crate::solve::{
    EarlyTermination, SolveAction, SolveActionView, SolveCallView, SolveEvent, SolveEventView,
    SolvePhase,
};
use crate::text::{decimal, str_views, string_views};

verus! {

/// The number that a numeral stands for.
pub open spec fn numeral_value(numeral: Seq<char>) -> nat
    decreases numeral.len(),
{
    if numeral.len() == 0 {
        0
    } else {
        numeral_value(numeral.drop_last()) * 10 + (numeral.last() as nat - '0' as nat) as nat
    }
}

/// A decimal numeral consists of digits, reads back as its number, and starts with a zero
/// only where it is the zero.
pub proof fn law_decimal_reads_back(n: nat)
    ensures
        decimal(n).len() > 0,
        forall|i: int| 0 <= i < decimal(n).len() ==> '0' <= #[trigger] decimal(n)[i] <= '9',
        numeral_value(decimal(n)) == n,
        decimal(n)[0] == '0' ==> n == 0 && decimal(n).len() == 1,
    decreases n,
{
    if n < 10 {
        assert(decimal(n).drop_last() =~= Seq::<char>::empty());
        assert(numeral_value(decimal(n).drop_last()) == 0);
    } else {
        law_decimal_reads_back(n / 10);
        assert(decimal(n).drop_last() =~= decimal(n / 10));
        assert(decimal(n)[0] == decimal(n / 10)[0]);
    }
}

/// What an item looks like is what it holds.
pub proof fn law_item_shows_what_it_holds<F>(item: Item<F>)
    ensures
        item@.id == item.id@,
        item@.demand == item.demand,
        item@.shape == item.shape@,
        item.allowed_orientations is None ==> item@.allowed_orientations is None,
        item.allowed_orientations matches Some(angles) ==> item@.allowed_orientations == Some(
            angles@,
        ),
        item@.wf() <==> item.demand > 0,
{
}

/// The printed form of an item names its identifier, corners and demand, and its angles exactly
/// where it lists some.
pub proof fn law_item_prints_all_of_it<F>(item: ItemView<F>, shape: Seq<char>, angles: Seq<char>)
    ensures
        item.allowed_orientations is Some ==> item.text(shape, angles) == "Item(id="@ + item.id
            + ",shape="@ + shape + ", demand="@ + decimal(item.demand as nat)
            + ", allowed_orientations="@ + angles + ")"@,
        item.allowed_orientations is None ==> item.text(shape, angles) == "Item(id="@ + item.id
            + ",shape="@ + shape + ", demand="@ + decimal(item.demand as nat) + ")"@,
{
}

/// An instance looks like what it holds, its items in order.
pub proof fn law_instance_shows_what_it_holds<F>(instance: StripPackingInstance<F>)
    ensures
        instance@.name == instance.name@,
        instance@.strip_height == instance.strip_height,
        instance@.items.len() == instance.items@.len(),
        instance@.ids().len() == instance.items@.len(),
        forall|i: int|
            0 <= i < instance.items@.len() ==> {
                &&& #[trigger] instance@.items[i] == instance.items@[i]@
                &&& instance@.ids()[i] == instance.items@[i].id@
            },
        instance@.ids_unique() <==> forall|i: int, j: int|
            0 <= i < j < instance.items@.len() ==> #[trigger] instance.items@[i].id@
                != #[trigger] instance.items@[j].id@,
{
    let ids = instance@.ids();
    assert(forall|i: int| 0 <= i < ids.len() ==> #[trigger] ids[i] == instance.items@[i].id@);
    if forall|i: int, j: int|
        0 <= i < j < instance.items@.len() ==> #[trigger] instance.items@[i].id@
            != #[trigger] instance.items@[j].id@ {
        assert forall|i: int, j: int| 0 <= i < ids.len() && 0 <= j < ids.len() && i != j implies
            ids[i] != ids[j] by {
            if i < j {
                assert(instance.items@[i].id@ != instance.items@[j].id@);
            } else {
                assert(instance.items@[j].id@ != instance.items@[i].id@);
            }
        }
    }
    if instance@.ids_unique() {
        assert forall|i: int, j: int| 0 <= i < j < instance.items@.len() implies
            #[trigger] instance.items@[i].id@ != #[trigger] instance.items@[j].id@ by {
            assert(ids[i] != ids[j]);
        }
    }
}

/// Lists look like what they hold, element by element and in order.
pub proof fn law_lists_show_what_they_hold<F>(
    strings: Seq<String>,
    slices: Seq<&str>,
    items: Seq<Item<F>>,
    placed: Seq<PlacedItem<F>>,
    reports: Seq<(ReportType, StripPackingSolution<F>)>,
    groups: Seq<Vec<usize>>,
)
    ensures
        string_views(strings).len() == strings.len(),
        forall|i: int| 0 <= i < strings.len() ==> #[trigger] string_views(strings)[i] == strings[i]@,
        str_views(slices).len() == slices.len(),
        forall|i: int| 0 <= i < slices.len() ==> #[trigger] str_views(slices)[i] == slices[i]@,
        item_views(items).len() == items.len(),
        forall|i: int| 0 <= i < items.len() ==> #[trigger] item_views(items)[i] == items[i]@,
        item_ids(item_views(items)).len() == items.len(),
        forall|i: int|
            0 <= i < items.len() ==> #[trigger] item_ids(item_views(items))[i] == items[i].id@,
        placed_item_views(placed).len() == placed.len(),
        forall|i: int|
            0 <= i < placed.len() ==> #[trigger] placed_item_views(placed)[i] == placed[i]@,
        report_views(reports).len() == reports.len(),
        forall|i: int|
            0 <= i < reports.len() ==> (#[trigger] report_views(reports)[i]).0 == reports[i].0
                && report_views(reports)[i].1 == reports[i].1@,
        group_views(groups).len() == groups.len(),
        forall|i: int| 0 <= i < groups.len() ==> #[trigger] group_views(groups)[i] == groups[i]@,
{
}

/// What may be missing looks like what it holds where it is there, and is missing where it is
/// not; without groups there are none.
pub proof fn law_options_show_what_they_hold<F>(
    values: Vec<F>,
    groups: Vec<Vec<usize>>,
    solution: StripPackingSolution<F>,
    error: ValueError,
)
    ensures
        optional_view(Some(values)) == Some(values@),
        optional_view(None::<Vec<F>>) is None,
        groups_or_none(Some(groups)).len() == groups@.len(),
        forall|i: int|
            0 <= i < groups@.len() ==> #[trigger] groups_or_none(Some(groups))[i] == groups@[i]@,
        groups_or_none(None).len() == 0,
        optional_solution_view(Some(solution)) == Some(solution@),
        optional_solution_view(None::<StripPackingSolution<F>>) is None,
        result_view(Ok::<StripPackingSolution<F>, ValueError>(solution)) == Ok::<
            StripPackingSolutionView<F>,
            ValueErrorView,
        >(solution@),
        result_view(Err::<StripPackingSolution<F>, ValueError>(error)) == Err::<
            StripPackingSolutionView<F>,
            ValueErrorView,
        >(error@),
{
}

/// Layouts look like what they hold.
pub proof fn law_layouts_show_what_they_hold<F>(
    placed: PlacedItem<F>,
    sol: StripPackingSolution<F>,
    ext: ExtSPSolution<F>,
    report: ProgressReport<F>,
)
    ensures
        placed@.id == placed.id@,
        placed@.translation == placed.translation,
        placed@.rotation == placed.rotation,
        sol@.width == sol.width,
        sol@.density == sol.density,
        sol@.placed_items.len() == sol.placed_items@.len(),
        forall|i: int|
            0 <= i < sol.placed_items@.len() ==> #[trigger] sol@.placed_items[i]
                == sol.placed_items@[i]@,
        ext@.strip_width == ext.strip_width,
        ext@.density == ext.density,
        ext@.run_time_sec == ext.run_time_sec,
        ext@.layout.container_id == ext.layout.container_id,
        ext@.layout.density == ext.layout.density,
        ext@.layout.placed_items == ext.layout.placed_items@,
        report@.0 == report.report_type,
        report@.1 == report.solution@,
{
}

/// What the engine is given looks like what it holds.
pub proof fn law_engine_input_shows_what_it_holds<F>(item: ExtItem<F>, instance: ExtSPInstance<F>)
    ensures
        item@.id == item.base.id,
        item@.demand == item.demand,
        item@.min_quality == item.base.min_quality,
        item.base.allowed_orientations is None ==> item@.allowed_orientations is None,
        item.base.allowed_orientations matches Some(angles) ==> item@.allowed_orientations == Some(
            angles@,
        ),
        item.base.shape matches ExtShape::SimplePolygon(corners) && item@.shape
            == ExtShapeView::SimplePolygon(corners@),
        instance@.name == instance.name@,
        instance@.strip_height == instance.strip_height,
        instance@.items.len() == instance.items@.len(),
        forall|i: int|
            0 <= i < instance.items@.len() ==> #[trigger] instance@.items[i] == instance.items@[i]@,
{
}

/// Errors look like what they hold.
pub proof fn law_errors_show_what_they_hold(error: ValueError)
    ensures
        error is TimeArguments ==> error@ is TimeArguments,
        error matches ValueError::ItemIdsNotUnique { ids } ==> (error@
            matches ValueErrorView::ItemIdsNotUnique { ids: shown } && {
            &&& shown.len() == ids@.len()
            &&& forall|i: int| 0 <= i < ids@.len() ==> #[trigger] shown[i] == ids@[i]@
        }),
        error matches ValueError::UnknownItemId { id } ==> error@
            == (ValueErrorView::UnknownItemId { id: id@ }),
{
}

/// Each error has its own message, with the identifiers that it is about.
pub proof fn law_errors_say_what_is_wrong(ids: Seq<Seq<char>>, id: Seq<char>)
    ensures
        ValueErrorView::TimeArguments.text()
            == "Either total_computation_time or both exploration_time and compression_time should be provided, not all 3 or some other combination"@,
        (ValueErrorView::ItemIdsNotUnique { ids }).text() == "The item ids are not uniques: "@
            + pretty_debug(ids),
        (ValueErrorView::UnknownItemId { id }).text()
            == "initial_solution references unknown item id '"@ + id + "'"@,
{
}

/// Actions and events look like what they hold.
pub proof fn law_steps_show_what_they_hold<F>(action: SolveAction<F>, event: SolveEvent<F>)
    ensures
        action matches SolveAction::Return(Ok(sol)) ==> action@ == SolveActionView::Return(
            Ok(sol@),
        ),
        action matches SolveAction::Return(Err(error)) ==> action@ == SolveActionView::<F>::Return(
            Err(error@),
        ),
        action matches SolveAction::ImportInstance { settings, instance } ==> action@
            == (SolveActionView::ImportInstance { settings, instance: instance@ }),
        action matches SolveAction::ImportSolution { solution } ==> action@
            == (SolveActionView::ImportSolution { solution: solution@ }),
        action matches SolveAction::Optimize { settings, rng, groups, listener, warm } ==> (action@
            matches SolveActionView::Optimize {
            settings: shown_settings,
            rng: shown_rng,
            groups: shown_groups,
            listener: shown_listener,
            warm: shown_warm,
        } && {
            &&& shown_settings == settings
            &&& shown_rng == rng
            &&& shown_groups.len() == groups@.len()
            &&& forall|i: int| 0 <= i < groups@.len() ==> #[trigger] shown_groups[i] == groups@[i]@
            &&& shown_listener == listener@
            &&& shown_warm == warm
        }),
        event is InstanceImported ==> event@ is InstanceImported,
        event is SolutionImported ==> event@ is SolutionImported,
        event matches SolveEvent::Optimized(exported) ==> event@ == SolveEventView::Optimized(
            exported@,
        ),
{
}

/// The three phases have three names, and every kind of report prints as itself.
pub proof fn law_report_kinds_are_named(kind: ReportType)
    ensures
        kind == ReportType::ExplFeas ==> kind.phase() == "exploring"@ && kind.text()
            == "ReportType.ExplFeas"@,
        kind == ReportType::ExplInfeas ==> kind.phase() == "exploring"@ && kind.text()
            == "ReportType.ExplInfeas"@,
        kind == ReportType::ExplImproving ==> kind.phase() == "exploring"@ && kind.text()
            == "ReportType.ExplImproving"@,
        kind == ReportType::CmprFeas ==> kind.phase() == "compressing"@ && kind.text()
            == "ReportType.CmprFeas"@,
        kind == ReportType::Final ==> kind.phase() == "final"@ && kind.text()
            == "ReportType.Final"@,
{
}

/// The time arguments are usable as a total alone or as both parts alone, and not otherwise.
pub proof fn law_usable_time_arguments(
    total: Option<u64>,
    exploration: Option<u64>,
    compression: Option<u64>,
)
    ensures
        total is Some && exploration is None && compression is None ==> times_usable(
            total,
            exploration,
            compression,
        ),
        total is None && exploration is Some && compression is Some ==> times_usable(
            total,
            exploration,
            compression,
        ),
        total is Some && (exploration is Some || compression is Some) ==> !times_usable(
            total,
            exploration,
            compression,
        ),
        total is None && (exploration is None || compression is None) ==> !times_usable(
            total,
            exploration,
            compression,
        ),
{
}

/// Times that are granted are in proper form. Of a total, exploring has four fifths and
/// compressing one fifth; parts are granted as they are given.
pub proof fn law_times_are_granted_as_asked(
    total: Option<u64>,
    exploration: Option<u64>,
    compression: Option<u64>,
    explore: TimeSpan,
    compress: TimeSpan,
)
    requires
        times_granted(total, exploration, compression, (explore, compress)),
    ensures
        explore.nanos < 1_000_000_000,
        compress.nanos < 1_000_000_000,
        total matches Some(t) ==> {
            &&& 5 * (explore.secs * 1_000_000_000 + explore.nanos) == 4 * (t * 1_000_000_000)
            &&& 5 * (compress.secs * 1_000_000_000 + compress.nanos) == t * 1_000_000_000
        },
        exploration matches Some(e) ==> total is None ==> explore.secs == e && explore.nanos == 0,
        compression matches Some(c) ==> total is None ==> compress.secs == c && compress.nanos == 0,
{
}

/// A configuration that answers its arguments keeps every one of them.
pub proof fn law_configuration_keeps_its_arguments<F>(
    config: StripPackingConfig<F>,
    early_termination: bool,
    quadtree_depth: u8,
    min_items_separation: Option<F>,
    total: Option<u64>,
    exploration: Option<u64>,
    compression: Option<u64>,
    num_workers: Option<usize>,
    seed: Option<u64>,
)
    requires
        config.answers(
            early_termination,
            quadtree_depth,
            min_items_separation,
            total,
            exploration,
            compression,
            num_workers,
            seed,
        ),
    ensures
        config.early_termination == early_termination,
        config.quadtree_depth == quadtree_depth,
        config.min_items_separation == min_items_separation,
        seed matches Some(s) ==> config.seed == s,
        num_workers matches Some(n) ==> config.num_workers == n,
        num_workers is None ==> config.num_workers >= 1,
        times_granted(
            total,
            exploration,
            compression,
            (config.exploration_time, config.compression_time),
        ),
{
}

/// The settings of a solve are those of its configuration, each in its place: the seed, the
/// time and the workers of either phase, the depth of the quadtree and the separation. The
/// limits for giving up early are set exactly where the configuration allows it.
pub proof fn law_settings_follow_the_configuration<F>(
    config: StripPackingConfig<F>,
    limits: EarlyTermination<F>,
)
    ensures
        ({
            let settings = config.settings_for(limits);
            &&& settings.rng_seed == Some(config.seed as usize)
            &&& settings.exploration_time_limit == config.exploration_time
            &&& settings.exploration_workers == config.num_workers
            &&& settings.compression_time_limit == config.compression_time
            &&& settings.compression_workers == config.num_workers
            &&& config.early_termination ==> settings.early_termination == Some(limits)
            &&& !config.early_termination ==> settings.early_termination is None
            &&& settings.quadtree_depth == config.quadtree_depth
            &&& settings.min_item_separation == config.min_items_separation
        }),
{
}

/// The engine is given every item with its own demand, angles and corners, under its index, and
/// nothing is asked of its quality. Name and height of the strip are those of the instance.
pub proof fn law_engine_gets_the_items_as_given<F>(instance: StripPackingInstanceView<F>)
    requires
        instance.items.len() <= usize::MAX,
    ensures
        instance.ext().name == instance.name,
        instance.ext().strip_height == instance.strip_height,
        instance.ext().items.len() == instance.items.len(),
        forall|i: int|
            0 <= i < instance.items.len() ==> {
                let given = instance.items[i];
                let handed = #[trigger] instance.ext().items[i];
                &&& handed.id == i
                &&& handed.demand == given.demand
                &&& handed.allowed_orientations == given.allowed_orientations
                &&& handed.shape == ExtShapeView::SimplePolygon(given.shape)
                &&& handed.min_quality is None
            },
{
}

/// The layout to start from reaches the engine with its own width, density, rotations and
/// translations, each placed item under the index of the last item of its identifier, in the
/// one container there is.
pub proof fn law_start_layout_hands_on<F>(sol: StripPackingSolutionView<F>, ids: Seq<Seq<char>>)
    requires
        ids.len() <= usize::MAX,
        forall|i: int| 0 <= i < sol.placed_items.len() ==> ids.contains(
            (#[trigger] sol.placed_items[i]).id,
        ),
    ensures
        initial_solution(sol, ids) matches Ok(ext) && {
            &&& ext.strip_width == sol.width
            &&& ext.density == sol.density
            &&& ext.run_time_sec == 0
            &&& ext.layout.container_id == 0
            &&& ext.layout.density == sol.density
            &&& ext.layout.placed_items.len() == sol.placed_items.len()
            &&& forall|i: int|
                0 <= i < sol.placed_items.len() ==> {
                    let handed = #[trigger] ext.layout.placed_items[i];
                    &&& handed.item_id < ids.len()
                    &&& ids[handed.item_id as int] == sol.placed_items[i].id
                    &&& handed.transformation.rotation == sol.placed_items[i].rotation
                    &&& handed.transformation.translation == sol.placed_items[i].translation
                }
            &&& forall|i: int, k: int|
                0 <= i < sol.placed_items.len() && (#[trigger] ext.layout.placed_items[i]).item_id < k
                    < ids.len() ==> #[trigger] ids[k] != sol.placed_items[i].id
        },
{
    let ext = start_layout(sol, ids);
    assert(all_known(sol.placed_items, ids));
    assert forall|i: int| 0 <= i < sol.placed_items.len() implies {
        let handed = #[trigger] ext.layout.placed_items[i];
        &&& handed.item_id == item_index(ids, sol.placed_items[i].id)->0
        &&& handed.item_id < ids.len()
        &&& ids[handed.item_id as int] == sol.placed_items[i].id
        &&& handed.transformation.rotation == sol.placed_items[i].rotation
        &&& handed.transformation.translation == sol.placed_items[i].translation
    } by {
        assert(ids.contains(sol.placed_items[i].id));
        lemma_item_index(ids, sol.placed_items[i].id);
    }
    assert forall|i: int, k: int|
        0 <= i < sol.placed_items.len() && (#[trigger] ext.layout.placed_items[i]).item_id < k
            < ids.len() implies #[trigger] ids[k] != sol.placed_items[i].id by {
        lemma_item_index(ids, sol.placed_items[i].id);
    }
}

/// A layout to start from that places an item of no known identifier is refused with the first
/// such identifier.
pub proof fn law_unknown_item_is_refused<F>(
    sol: StripPackingSolutionView<F>,
    ids: Seq<Seq<char>>,
    i: int,
)
    requires
        0 <= i < sol.placed_items.len(),
        !ids.contains(sol.placed_items[i].id),
        forall|j: int| 0 <= j < i ==> ids.contains((#[trigger] sol.placed_items[j]).id),
    ensures
        initial_solution(sol, ids) == Err::<ExtSPSolutionView<F>, ValueErrorView>(
            ValueErrorView::UnknownItemId { id: sol.placed_items[i].id },
        ),
{
    assert(is_first_unknown(sol.placed_items, ids, i));
    crate::laws::law_first_unknown_item_is_named(sol, ids, i);
}

/// A placement is in range exactly where its index is that of an item.
pub proof fn law_range_of_indices<F>(ext: ExtSPSolutionView<F>, n: nat)
    ensures
        in_range(ext, n) <==> forall|i: int|
            0 <= i < ext.layout.placed_items.len() ==> (
            #[trigger] ext.layout.placed_items[i].item_id as usize) < n,
{
}

/// A layout of the engine reaches the user with its own width, density, rotations and
/// translations, in its own order, each placement under the identifier of its item.
pub proof fn law_named_layout_hands_on<F>(ext: ExtSPSolutionView<F>, ids: Seq<Seq<char>>)
    ensures
        ({
            let sol = named_layout(ext, ids);
            &&& sol.width == ext.strip_width
            &&& sol.density == ext.density
            &&& sol.placed_items.len() == ext.layout.placed_items.len()
            &&& forall|i: int|
                0 <= i < sol.placed_items.len() ==> {
                    let placed = #[trigger] sol.placed_items[i];
                    let found = ext.layout.placed_items[i];
                    &&& placed.id == ids[found.item_id as usize as int]
                    &&& placed.rotation == found.transformation.rotation
                    &&& placed.translation == found.transformation.translation
                }
        }),
{
}

/// A use of a queue either puts its report behind those waiting and fetches none, or fetches
/// those waiting as they are and leaves none.
pub proof fn law_queue_use<F>(
    waiting: Seq<(ReportType, StripPackingSolutionView<F>)>,
    report: (ReportType, StripPackingSolutionView<F>),
)
    ensures
        used(waiting, QueueUse::Push(report)).0.len() == 0,
        used(waiting, QueueUse::Push(report)).1.len() == waiting.len() + 1,
        used(waiting, QueueUse::Push(report)).1.drop_last() == waiting,
        used(waiting, QueueUse::Push(report)).1.last() == report,
        used(waiting, QueueUse::<F>::Drain).0 == waiting,
        used(waiting, QueueUse::<F>::Drain).1.len() == 0,
{
    assert(used(waiting, QueueUse::Push(report)).1.drop_last() =~= waiting);
}

/// A listener looks like what it holds: the identifiers that it reports with, or silence.
pub proof fn law_listener_shows_what_it_holds(listener: SolListener)
    ensures
        listener is Dummy ==> listener@ is Dummy,
        listener matches SolListener::Progress(reporting) ==> (listener@
            matches SolListenerView::Progress { item_ids: shown } && {
            &&& shown.len() == reporting.item_ids@.len()
            &&& forall|i: int|
                0 <= i < shown.len() ==> #[trigger] shown[i] == reporting.item_ids@[i]@
        }),
{
}

/// A reporting listener puts every report that it hears, of whatever kind, behind those that
/// wait: one report, of that kind, of the layout as the user sees it. A silent one leaves the
/// queue as it is. Either may hear of any layout whose placements it can name.
pub proof fn law_every_report_is_queued<F>(
    ids: Seq<Seq<char>>,
    queue: Seq<(ReportType, StripPackingSolutionView<F>)>,
    kind: ReportType,
    ext: ExtSPSolutionView<F>,
)
    ensures
        SolListenerView::Dummy.accepts(ext),
        SolListenerView::Dummy.heard(queue, kind, ext) == queue,
        (SolListenerView::Progress { item_ids: ids }).accepts(ext) <==> forall|i: int|
            0 <= i < ext.layout.placed_items.len() ==> (
            #[trigger] ext.layout.placed_items[i].item_id as usize) < ids.len(),
        ({
            let after = (SolListenerView::Progress { item_ids: ids }).heard(queue, kind, ext);
            let sol = after.last().1;
            &&& after.len() == queue.len() + 1
            &&& after.drop_last() == queue
            &&& after.last().0 == kind
            &&& sol.width == ext.strip_width
            &&& sol.density == ext.density
            &&& sol.placed_items.len() == ext.layout.placed_items.len()
            &&& forall|i: int|
                0 <= i < sol.placed_items.len() ==> {
                    let placed = #[trigger] sol.placed_items[i];
                    let found = ext.layout.placed_items[i];
                    &&& placed.id == ids[found.item_id as usize as int]
                    &&& placed.rotation == found.transformation.rotation
                    &&& placed.translation == found.transformation.translation
                }
        }),
{
    let after = (SolListenerView::Progress { item_ids: ids }).heard(queue, kind, ext);
    assert(after.drop_last() =~= queue);
}

/// A solve of no items returns at once, a layout of nothing without width or density. A solve
/// of any has the engine set up as the configuration says and given the items as they are.
pub proof fn law_first_step<F>(
    call: SolveCallView<F>,
    instance: StripPackingInstanceView<F>,
    zero: F,
)
    requires
        instance.items.len() <= usize::MAX,
    ensures
        ({
            let (then, action) = call.first(instance, zero);
            &&& then.item_ids == call.item_ids
            &&& then.config == call.config
            &&& then.limits == call.limits
            &&& then.progress == call.progress
            &&& then.groups == call.groups
            &&& then.initial_solution == call.initial_solution
            &&& instance.items.len() == 0 ==> then.phase == SolvePhase::Over && (action
                matches SolveActionView::Return(Ok(sol)) && {
                &&& sol.width == zero
                &&& sol.density == zero
                &&& sol.placed_items.len() == 0
            })
            &&& instance.items.len() > 0 ==> then.phase == SolvePhase::ImportingInstance && (action
                matches SolveActionView::ImportInstance { settings, instance: handed } && {
                &&& settings.rng_seed == Some(call.config.seed as usize)
                &&& settings.exploration_time_limit == call.config.exploration_time
                &&& settings.exploration_workers == call.config.num_workers
                &&& settings.compression_time_limit == call.config.compression_time
                &&& settings.compression_workers == call.config.num_workers
                &&& call.config.early_termination ==> settings.early_termination == Some(call.limits)
                &&& !call.config.early_termination ==> settings.early_termination is None
                &&& settings.quadtree_depth == call.config.quadtree_depth
                &&& settings.min_item_separation == call.config.min_items_separation
                &&& handed.name == instance.name
                &&& handed.strip_height == instance.strip_height
                &&& handed.items.len() == instance.items.len()
                &&& forall|i: int|
                    0 <= i < instance.items.len() ==> {
                        let item = #[trigger] handed.items[i];
                        &&& item.id == i
                        &&& item.demand == instance.items[i].demand
                        &&& item.allowed_orientations == instance.items[i].allowed_orientations
                        &&& item.shape == ExtShapeView::SimplePolygon(instance.items[i].shape)
                        &&& item.min_quality is None
                    }
            })
        }),
{
}

/// Without a layout to start from, the optimizer runs cold once the instance is imported, with
/// the settings, generator, groups and listener that were asked for.
pub proof fn law_cold_optimizer_run<F>(call: SolveCallView<F>)
    requires
        call.initial_solution is None,
    ensures
        ({
            let (then, action) = call.next(SolveEventView::InstanceImported);
            &&& then.item_ids == call.item_ids
            &&& then.config == call.config
            &&& then.limits == call.limits
            &&& then.progress == call.progress
            &&& then.groups == call.groups
            &&& then.initial_solution == call.initial_solution
            &&& then.phase == SolvePhase::Optimizing
            &&& action matches SolveActionView::Optimize { settings, rng, groups, listener, warm } && {
                &&& settings.rng_seed == Some(call.config.seed as usize)
                &&& settings.exploration_time_limit == call.config.exploration_time
                &&& settings.exploration_workers == call.config.num_workers
                &&& settings.compression_time_limit == call.config.compression_time
                &&& settings.compression_workers == call.config.num_workers
                &&& call.config.early_termination ==> settings.early_termination == Some(call.limits)
                &&& !call.config.early_termination ==> settings.early_termination is None
                &&& settings.quadtree_depth == call.config.quadtree_depth
                &&& settings.min_item_separation == call.config.min_items_separation
                &&& rng == generator_for(call.config.seed)
                &&& groups == call.groups
                &&& call.progress ==> listener == SolListenerView::Progress { item_ids: call.item_ids }
                &&& !call.progress ==> listener is Dummy
                &&& warm == false
            }
        }),
{
}

/// With a layout of known items to start from, the engine is given that layout once the
/// instance is imported.
pub proof fn law_start_layout_is_imported<F>(
    call: SolveCallView<F>,
    sol: StripPackingSolutionView<F>,
)
    requires
        call.initial_solution == Some(sol),
        call.item_ids.len() <= usize::MAX,
        forall|i: int| 0 <= i < sol.placed_items.len() ==> call.item_ids.contains(
            (#[trigger] sol.placed_items[i]).id,
        ),
    ensures
        ({
            let (then, action) = call.next(SolveEventView::InstanceImported);
            let ids = call.item_ids;
            &&& then.item_ids == call.item_ids
            &&& then.config == call.config
            &&& then.limits == call.limits
            &&& then.progress == call.progress
            &&& then.groups == call.groups
            &&& then.initial_solution == call.initial_solution
            &&& then.phase == SolvePhase::ImportingSolution
            &&& action matches SolveActionView::ImportSolution { solution: ext } && {
                &&& ext.strip_width == sol.width
                &&& ext.density == sol.density
                &&& ext.run_time_sec == 0
                &&& ext.layout.container_id == 0
                &&& ext.layout.density == sol.density
                &&& ext.layout.placed_items.len() == sol.placed_items.len()
                &&& forall|i: int|
                    0 <= i < sol.placed_items.len() ==> {
                        let handed = #[trigger] ext.layout.placed_items[i];
                        &&& handed.item_id < ids.len()
                        &&& ids[handed.item_id as int] == sol.placed_items[i].id
                        &&& handed.transformation.rotation == sol.placed_items[i].rotation
                        &&& handed.transformation.translation == sol.placed_items[i].translation
                    }
                &&& forall|i: int, k: int|
                    0 <= i < sol.placed_items.len() && (#[trigger] ext.layout.placed_items[i]).item_id < k
                        < ids.len() ==> #[trigger] ids[k] != sol.placed_items[i].id
            }
        }),
{
    law_start_layout_hands_on(sol, call.item_ids);
}

/// Once the layout to start from is imported, the optimizer runs from it, with the settings,
/// generator, groups and listener that were asked for.
pub proof fn law_warm_optimizer_run<F>(call: SolveCallView<F>)
    ensures
        ({
            let (then, action) = call.next(SolveEventView::SolutionImported);
            &&& then.item_ids == call.item_ids
            &&& then.config == call.config
            &&& then.limits == call.limits
            &&& then.progress == call.progress
            &&& then.groups == call.groups
            &&& then.initial_solution == call.initial_solution
            &&& then.phase == SolvePhase::Optimizing
            &&& action matches SolveActionView::Optimize { settings, rng, groups, listener, warm } && {
                &&& settings.rng_seed == Some(call.config.seed as usize)
                &&& settings.exploration_time_limit == call.config.exploration_time
                &&& settings.exploration_workers == call.config.num_workers
                &&& settings.compression_time_limit == call.config.compression_time
                &&& settings.compression_workers == call.config.num_workers
                &&& call.config.early_termination ==> settings.early_termination == Some(call.limits)
                &&& !call.config.early_termination ==> settings.early_termination is None
                &&& settings.quadtree_depth == call.config.quadtree_depth
                &&& settings.min_item_separation == call.config.min_items_separation
                &&& rng == generator_for(call.config.seed)
                &&& groups == call.groups
                &&& call.progress ==> listener == SolListenerView::Progress { item_ids: call.item_ids }
                &&& !call.progress ==> listener is Dummy
                &&& warm == true
            }
        }),
{
}

/// A layout to start from that places an item of no known identifier ends the solve, once the
/// instance is imported, with the first such identifier.
pub proof fn law_unknown_item_is_returned<F>(
    call: SolveCallView<F>,
    sol: StripPackingSolutionView<F>,
    i: int,
)
    requires
        call.initial_solution == Some(sol),
        0 <= i < sol.placed_items.len(),
        !call.item_ids.contains(sol.placed_items[i].id),
        forall|j: int| 0 <= j < i ==> call.item_ids.contains((#[trigger] sol.placed_items[j]).id),
    ensures
        ({
            let (then, action) = call.next(SolveEventView::InstanceImported);
            &&& then.item_ids == call.item_ids
            &&& then.config == call.config
            &&& then.limits == call.limits
            &&& then.progress == call.progress
            &&& then.groups == call.groups
            &&& then.initial_solution == call.initial_solution
            &&& then.phase == SolvePhase::Over
            &&& action == SolveActionView::<F>::Return(
                Err(ValueErrorView::UnknownItemId { id: sol.placed_items[i].id }),
            )
        }),
{
    law_unknown_item_is_refused(sol, call.item_ids, i);
}

/// What the optimizer found is returned with its own width, density, rotations and
/// translations, in its own order, each placement under the identifier of its item.
pub proof fn law_found_layout_is_returned<F>(call: SolveCallView<F>, ext: ExtSPSolutionView<F>)
    ensures
        ({
            let (then, action) = call.next(SolveEventView::Optimized(ext));
            let ids = call.item_ids;
            &&& then.item_ids == call.item_ids
            &&& then.config == call.config
            &&& then.limits == call.limits
            &&& then.progress == call.progress
            &&& then.groups == call.groups
            &&& then.initial_solution == call.initial_solution
            &&& then.phase == SolvePhase::Over
            &&& action matches SolveActionView::Return(Ok(sol)) && {
                &&& sol.width == ext.strip_width
                &&& sol.density == ext.density
                &&& sol.placed_items.len() == ext.layout.placed_items.len()
                &&& forall|i: int|
                    0 <= i < sol.placed_items.len() ==> {
                        let placed = #[trigger] sol.placed_items[i];
                        let found = ext.layout.placed_items[i];
                        &&& placed.id == ids[found.item_id as usize as int]
                        &&& placed.rotation == found.transformation.rotation
                        &&& placed.translation == found.transformation.translation
                    }
            }
        }),
{
}

/// A solve waits for one kind of event in each phase, and for none once it is over.
pub proof fn law_awaited_events<F>(call: SolveCallView<F>, ext: ExtSPSolutionView<F>)
    ensures
        call.awaits(SolveEventView::InstanceImported) <==> call.phase
            == SolvePhase::ImportingInstance,
        call.awaits(SolveEventView::SolutionImported) <==> call.phase
            == SolvePhase::ImportingSolution,
        call.awaits(SolveEventView::Optimized(ext)) <==> call.phase == SolvePhase::Optimizing && (
        forall|i: int|
            0 <= i < ext.layout.placed_items.len() ==> (
            #[trigger] ext.layout.placed_items[i].item_id as usize) < call.item_ids.len()),
{
}

/// A total reaches the optimizer split: cold or warm, it explores for four fifths of it and
/// compresses for one fifth.
pub proof fn law_total_reaches_the_optimizer<F>(
    call: SolveCallView<F>,
    event: SolveEventView<F>,
    total: u64,
)
    requires
        times_granted(
            Some(total),
            None,
            None,
            (call.config.exploration_time, call.config.compression_time),
        ),
    ensures
        call.next(event).1 matches SolveActionView::Optimize { settings, .. } ==> {
            let explore = settings.exploration_time_limit;
            let compress = settings.compression_time_limit;
            &&& 5 * (explore.secs * 1_000_000_000 + explore.nanos) == 4 * (total * 1_000_000_000)
            &&& 5 * (compress.secs * 1_000_000_000 + compress.nanos) == total * 1_000_000_000
        },
{
}

} // verus!
