//! What holds of the library as a whole: across calls, across conversions
//! and for every run.

use vstd::prelude::*;

use crate::config::{times_granted, times_usable};
use crate::config::{StripPackingConfig, TimeSpan, NANOS_PER_SEC};
use crate::error::ValueErrorView;
use crate::instance::StripPackingInstanceView;
use crate::layout::{
    all_known, in_range, initial_solution, is_first_unknown, item_index, lemma_item_index, named,
    named_layout, placement, placements, start_layout,
};
use crate::layout::{ExtLayoutView, ExtPlacedItem, ExtSPSolutionView, StripPackingSolutionView};
use crate::progress::used;
use crate::progress::{QueueUse, ReportType, SolListenerView};
use crate::solve::empty_layout;
use crate::solve::{SolveActionView, SolveCallView, SolveEventView, SolvePhase};

verus! {

/// Where no identifier occurs twice, looking one up leads to the index of its item.
pub proof fn law_id_leads_to_index(ids: Seq<Seq<char>>, i: int)
    requires
        ids.no_duplicates(),
        0 <= i < ids.len(),
    ensures
        item_index(ids, ids[i]) == Some(i),
{
    lemma_item_index(ids, ids[i]);
    assert(ids.contains(ids[i]));
}

/// The engine is given the items under consecutive indices from zero, and an index of the
/// engine leads back to the identifier of the item that it was given for.
pub proof fn law_index_leads_back<F>(
    instance: StripPackingInstanceView<F>,
    p: ExtPlacedItem<F>,
    i: int,
)
    requires
        instance.items.len() <= usize::MAX,
        0 <= i < instance.items.len(),
        p.item_id == instance.ext().items[i].id,
    ensures
        instance.ext().items.len() == instance.items.len(),
        instance.ext().items[i].id == i,
        named(p, instance.ids()).id == instance.items[i].id,
{
}

/// Every item that the engine is given asks for at least one copy, if the items do.
pub proof fn law_demands_stay_positive<F>(instance: StripPackingInstanceView<F>)
    requires
        forall|i: int| 0 <= i < instance.items.len() ==> #[trigger] instance.items[i].wf(),
    ensures
        forall|i: int|
            0 <= i < instance.ext().items.len() ==> #[trigger] instance.ext().items[i].demand > 0,
{
    assert forall|i: int| 0 <= i < instance.ext().items.len() implies
        #[trigger] instance.ext().items[i].demand > 0 by {
        assert(instance.items[i].wf());
    }
}

/// A layout that the engine exported, named for the user and handed back as a layout to start
/// from, reaches the engine with the very placements, width and density that it was exported
/// with, where no identifier occurs twice.
pub proof fn law_exported_layout_round_trips<F>(ext: ExtSPSolutionView<F>, ids: Seq<Seq<char>>)
    requires
        ids.no_duplicates(),
        ids.len() <= usize::MAX,
        forall|i: int|
            0 <= i < ext.layout.placed_items.len() ==> (
            #[trigger] ext.layout.placed_items[i]).item_id < ids.len(),
    ensures
        in_range(ext, ids.len()),
        initial_solution(named_layout(ext, ids), ids) == Ok::<
            ExtSPSolutionView<F>,
            ValueErrorView,
        >(
            ExtSPSolutionView {
                strip_width: ext.strip_width,
                layout: ExtLayoutView {
                    container_id: 0,
                    placed_items: ext.layout.placed_items,
                    density: ext.density,
                },
                density: ext.density,
                run_time_sec: 0,
            },
        ),
{
    let exported = ext.layout.placed_items;
    let sol = named_layout(ext, ids);
    assert forall|i: int| 0 <= i < exported.len() implies {
        &&& ids.contains(#[trigger] sol.placed_items[i].id)
        &&& placement(sol.placed_items[i], ids) == exported[i]
    } by {
        let p = exported[i];
        assert(sol.placed_items[i] == named(p, ids));
        law_id_leads_to_index(ids, p.item_id as int);
        assert(ids.contains(ids[p.item_id as int]));
    }
    assert(placements(sol.placed_items, ids) =~= exported);
}

/// A layout of known items, handed to the engine as a layout to start from and named again,
/// is the layout that it was.
pub proof fn law_start_layout_round_trips<F>(
    sol: StripPackingSolutionView<F>,
    ids: Seq<Seq<char>>,
)
    requires
        ids.len() <= usize::MAX,
        all_known(sol.placed_items, ids),
    ensures
        in_range(start_layout(sol, ids), ids.len()),
        named_layout(start_layout(sol, ids), ids) == sol,
{
    let ext = start_layout(sol, ids);
    assert forall|i: int| 0 <= i < sol.placed_items.len() implies {
        &&& (#[trigger] ext.layout.placed_items[i].item_id as usize) < ids.len()
        &&& named(ext.layout.placed_items[i], ids) == sol.placed_items[i]
    } by {
        let p = sol.placed_items[i];
        assert(ids.contains(p.id));
        lemma_item_index(ids, p.id);
        assert(ext.layout.placed_items[i] == placement(p, ids));
    }
    assert(named_layout(ext, ids).placed_items =~= sol.placed_items);
}

/// A named layout places as many items as the engine did, in the same order and the same way,
/// and only items that the instance has.
pub proof fn law_named_layout_keeps_to_the_instance<F>(
    ext: ExtSPSolutionView<F>,
    ids: Seq<Seq<char>>,
)
    requires
        in_range(ext, ids.len()),
    ensures
        named_layout(ext, ids).placed_items.len() == ext.layout.placed_items.len(),
        all_known(named_layout(ext, ids).placed_items, ids),
        forall|i: int|
            0 <= i < ext.layout.placed_items.len() ==> {
                let p = #[trigger] named_layout(ext, ids).placed_items[i];
                &&& p.rotation == ext.layout.placed_items[i].transformation.rotation
                &&& p.translation == ext.layout.placed_items[i].transformation.translation
            },
{
    let sol = named_layout(ext, ids);
    assert forall|i: int| 0 <= i < sol.placed_items.len() implies ids.contains(
        #[trigger] sol.placed_items[i].id,
    ) by {
        let p = ext.layout.placed_items[i];
        assert((ext.layout.placed_items[i].item_id as usize) < ids.len());
        assert(sol.placed_items[i].id == ids[p.item_id as usize as int]);
    }
}

/// The refusal of a layout to start from names the first item that the instance does not have,
/// whichever come after it.
pub proof fn law_first_unknown_item_is_named<F>(
    sol: StripPackingSolutionView<F>,
    ids: Seq<Seq<char>>,
    i: int,
)
    requires
        is_first_unknown(sol.placed_items, ids, i),
    ensures
        initial_solution(sol, ids) == Err::<ExtSPSolutionView<F>, ValueErrorView>(
            ValueErrorView::UnknownItemId { id: sol.placed_items[i].id },
        ),
{
    let k = crate::layout::first_unknown(sol.placed_items, ids);
    assert(is_first_unknown(sol.placed_items, ids, k));
    assert(!ids.contains(sol.placed_items[i].id));
    if k < i {
        assert(ids.contains(sol.placed_items[k].id));
    }
    if i < k {
        assert(ids.contains(sol.placed_items[i].id));
    }
}

/// A total is spent to the last nanosecond, four parts exploring to one part compressing.
pub proof fn law_total_is_spent(total: u64, spans: (TimeSpan, TimeSpan))
    requires
        times_granted(Some(total), None, None, spans),
    ensures
        spans.0.as_nanos() + spans.1.as_nanos() == total * NANOS_PER_SEC,
        spans.0.as_nanos() == 4 * spans.1.as_nanos(),
{
}

/// A length of time is written in one way only.
proof fn lemma_nanos_determine_span(a: TimeSpan, b: TimeSpan)
    requires
        a.wf(),
        b.wf(),
        a.as_nanos() == b.as_nanos(),
    ensures
        a == b,
{
    let (p, q) = (a.secs as int, b.secs as int);
    let (m, n) = (a.nanos as int, b.nanos as int);
    assert(p == q && m == n) by (nonlinear_arith)
        requires
            p * 1_000_000_000 + m == q * 1_000_000_000 + n,
            0 <= m < 1_000_000_000,
            0 <= n < 1_000_000_000,
    ;
}

/// The time arguments leave no choice: there is one way to grant them.
pub proof fn law_times_are_determined(
    total: Option<u64>,
    exploration: Option<u64>,
    compression: Option<u64>,
    a: (TimeSpan, TimeSpan),
    b: (TimeSpan, TimeSpan),
)
    requires
        times_usable(total, exploration, compression),
        times_granted(total, exploration, compression, a),
        times_granted(total, exploration, compression, b),
    ensures
        a == b,
{
    lemma_nanos_determine_span(a.0, b.0);
    lemma_nanos_determine_span(a.1, b.1);
}

/// The reports fetched and the reports still waiting after a history of uses.
pub open spec fn after<F>(history: Seq<QueueUse<F>>) -> (
    Seq<(ReportType, StripPackingSolutionView<F>)>,
    Seq<(ReportType, StripPackingSolutionView<F>)>,
)
    decreases history.len(),
{
    if history.len() == 0 {
        (Seq::empty(), Seq::empty())
    } else {
        let (fetched, waiting) = after(history.drop_last());
        let (got, left) = used(waiting, history.last());
        (fetched + got, left)
    }
}

/// The reports that arrived in a history of uses.
pub open spec fn arrived<F>(history: Seq<QueueUse<F>>) -> Seq<
    (ReportType, StripPackingSolutionView<F>),
>
    decreases history.len(),
{
    if history.len() == 0 {
        Seq::empty()
    } else {
        match history.last() {
            QueueUse::Push(report) => arrived(history.drop_last()).push(report),
            QueueUse::Drain => arrived(history.drop_last()),
        }
    }
}

/// However arrivals and fetches interleave, no report is lost, repeated or overtaken: those
/// fetched, followed by those waiting, are those that arrived.
pub proof fn law_each_report_once_in_order<F>(history: Seq<QueueUse<F>>)
    ensures
        after(history).0 + after(history).1 == arrived(history),
    decreases history.len(),
{
    if history.len() > 0 {
        law_each_report_once_in_order(history.drop_last());
        let (fetched, waiting) = after(history.drop_last());
        assert(after(history).0 + after(history).1 =~= arrived(history)) by {
            match history.last() {
                QueueUse::Push(report) => {
                    assert(fetched + waiting.push(report) =~= (fetched + waiting).push(report));
                },
                QueueUse::Drain => {},
            }
        }
    } else {
        assert(after(history).0 + after(history).1 =~= arrived(history));
    }
}

/// How many steps a solve still has ahead of it at most.
pub open spec fn steps_ahead(phase: SolvePhase) -> nat {
    match phase {
        SolvePhase::ImportingInstance => 3,
        SolvePhase::ImportingSolution => 2,
        SolvePhase::Optimizing => 1,
        SolvePhase::Over => 0,
    }
}

/// Every event brings a solve nearer to its end, so no solve takes more than three.
pub proof fn law_solve_ends<F>(call: SolveCallView<F>, event: SolveEventView<F>)
    requires
        call.awaits(event),
    ensures
        steps_ahead(call.next(event).0.phase) < steps_ahead(call.phase),
{
}

/// A solve is over exactly where it returns, and waits for nothing from then on.
pub proof fn law_solve_returns_once<F>(
    call: SolveCallView<F>,
    event: SolveEventView<F>,
    later: SolveEventView<F>,
)
    requires
        call.awaits(event),
    ensures
        call.next(event).1 is Return <==> call.next(event).0.phase == SolvePhase::Over,
        call.next(event).1 is Return ==> !call.next(event).0.awaits(later),
{
}

/// Nothing of the call changes on the way but its phase.
pub proof fn law_solve_keeps_its_arguments<F>(call: SolveCallView<F>, event: SolveEventView<F>)
    ensures
        call.next(event).0 == call.in_phase(call.next(event).0.phase),
{
}

/// An instance without items is solved at once by the layout of nothing, whatever else was
/// asked for.
pub proof fn law_nothing_to_pack<F>(
    call: SolveCallView<F>,
    instance: StripPackingInstanceView<F>,
    zero: F,
)
    requires
        instance.items.len() == 0,
    ensures
        call.first(instance, zero).1 == SolveActionView::Return(Ok(empty_layout(zero))),
        call.first(instance, zero).0.phase == SolvePhase::Over,
{
}

/// Without a layout to start from, a solve imports the instance, runs the optimizer cold, and
/// returns what the optimizer found with the items named.
pub proof fn law_cold_solve<F>(
    call: SolveCallView<F>,
    instance: StripPackingInstanceView<F>,
    zero: F,
    found: ExtSPSolutionView<F>,
)
    requires
        call.item_ids == instance.ids(),
        call.initial_solution is None,
        instance.items.len() > 0,
        in_range(found, instance.items.len()),
    ensures
        ({
            let (imported, first) = call.first(instance, zero);
            let (running, second) = imported.next(SolveEventView::InstanceImported);
            let (over, last) = running.next(SolveEventView::Optimized(found));
            &&& first is ImportInstance
            &&& imported.awaits(SolveEventView::InstanceImported)
            &&& second == call.optimize(false)
            &&& running.awaits(SolveEventView::Optimized(found))
            &&& last == SolveActionView::Return(Ok(named_layout(found, instance.ids())))
            &&& over.phase == SolvePhase::Over
        }),
{
}

/// With a layout of known items to start from, a solve imports the instance, then the layout,
/// runs the optimizer from it, and returns what the optimizer found with the items named.
pub proof fn law_warm_solve<F>(
    call: SolveCallView<F>,
    instance: StripPackingInstanceView<F>,
    zero: F,
    sol: StripPackingSolutionView<F>,
    found: ExtSPSolutionView<F>,
)
    requires
        call.item_ids == instance.ids(),
        call.initial_solution == Some(sol),
        instance.items.len() > 0,
        all_known(sol.placed_items, instance.ids()),
        in_range(found, instance.items.len()),
    ensures
        ({
            let (imported, first) = call.first(instance, zero);
            let (starting, second) = imported.next(SolveEventView::InstanceImported);
            let (running, third) = starting.next(SolveEventView::SolutionImported);
            let (over, last) = running.next(SolveEventView::Optimized(found));
            &&& first is ImportInstance
            &&& imported.awaits(SolveEventView::InstanceImported)
            &&& second == SolveActionView::ImportSolution {
                solution: start_layout(sol, instance.ids()),
            }
            &&& starting.awaits(SolveEventView::<F>::SolutionImported)
            &&& third == call.optimize(true)
            &&& running.awaits(SolveEventView::Optimized(found))
            &&& last == SolveActionView::Return(Ok(named_layout(found, instance.ids())))
            &&& over.phase == SolvePhase::Over
        }),
{
}

/// A layout to start from that places an unknown item ends a solve, before the optimizer
/// runs, with the refusal that names the first such item.
pub proof fn law_unknown_item_ends_solve<F>(
    call: SolveCallView<F>,
    sol: StripPackingSolutionView<F>,
    i: int,
)
    requires
        call.phase == SolvePhase::ImportingInstance,
        call.initial_solution == Some(sol),
        is_first_unknown(sol.placed_items, call.item_ids, i),
    ensures
        call.next(SolveEventView::InstanceImported).1 == SolveActionView::<F>::Return(
            Err(ValueErrorView::UnknownItemId { id: sol.placed_items[i].id }),
        ),
        call.next(SolveEventView::InstanceImported).0.phase == SolvePhase::Over,
{
    law_first_unknown_item_is_named(sol, call.item_ids, i);
}

/// The result of one solve is a layout that another solve of the same instance can start
/// from: it hands the engine the placements that the first solve found.
pub proof fn law_result_can_be_started_from<F>(
    again: SolveCallView<F>,
    instance: StripPackingInstanceView<F>,
    found: ExtSPSolutionView<F>,
)
    requires
        instance.ids_unique(),
        instance.items.len() <= usize::MAX,
        forall|i: int|
            0 <= i < found.layout.placed_items.len() ==> (
            #[trigger] found.layout.placed_items[i]).item_id < instance.items.len(),
        again.item_ids == instance.ids(),
        again.initial_solution == Some(named_layout(found, instance.ids())),
    ensures
        again.next(SolveEventView::InstanceImported).1 matches SolveActionView::ImportSolution {
            solution,
        } && {
            &&& solution.layout.placed_items == found.layout.placed_items
            &&& solution.strip_width == found.strip_width
            &&& solution.density == found.density
        },
{
    law_exported_layout_round_trips(found, instance.ids());
}

/// The seed decides the random number generator: solves with the same seed run the optimizer
/// with the same one, whatever else they were asked for.
pub proof fn law_seed_decides_generator<F>(
    a: SolveCallView<F>,
    b: SolveCallView<F>,
    warm_a: bool,
    warm_b: bool,
)
    requires
        a.config.seed == b.config.seed,
    ensures
        a.optimize(warm_a)->rng == b.optimize(warm_b)->rng,
{
}

/// A seed and a number of workers leave nothing to chance or the machine: the same usable
/// arguments give the same configuration.
pub proof fn law_seeded_configuration_is_determined<F>(
    early_termination: bool,
    quadtree_depth: u8,
    min_items_separation: Option<F>,
    total: Option<u64>,
    exploration: Option<u64>,
    compression: Option<u64>,
    num_workers: usize,
    seed: u64,
    a: StripPackingConfig<F>,
    b: StripPackingConfig<F>,
)
    requires
        times_usable(total, exploration, compression),
        a.answers(
            early_termination,
            quadtree_depth,
            min_items_separation,
            total,
            exploration,
            compression,
            Some(num_workers),
            Some(seed),
        ),
        b.answers(
            early_termination,
            quadtree_depth,
            min_items_separation,
            total,
            exploration,
            compression,
            Some(num_workers),
            Some(seed),
        ),
    ensures
        a == b,
{
    law_times_are_determined(
        total,
        exploration,
        compression,
        (a.exploration_time, a.compression_time),
        (b.exploration_time, b.compression_time),
    );
}

/// Two calls were asked for the same, whether or not progress is to be reported.
pub open spec fn same_request<F>(a: SolveCallView<F>, b: SolveCallView<F>) -> bool {
    &&& a.item_ids == b.item_ids
    &&& a.config == b.config
    &&& a.limits == b.limits
    &&& a.groups == b.groups
    &&& a.initial_solution == b.initial_solution
}

/// An action, whoever listens.
pub open spec fn unheard<F>(action: SolveActionView<F>) -> SolveActionView<F> {
    match action {
        SolveActionView::Optimize { settings, rng, groups, listener, warm } =>
            SolveActionView::Optimize {
            settings,
            rng,
            groups,
            listener: SolListenerView::Dummy,
            warm,
        },
        _ => action,
    }
}

/// The call and the actions handed out so far, from the first step of a solve through a
/// history of events.
pub open spec fn run<F>(
    call: SolveCallView<F>,
    instance: StripPackingInstanceView<F>,
    zero: F,
    events: Seq<SolveEventView<F>>,
) -> (SolveCallView<F>, Seq<SolveActionView<F>>)
    decreases events.len(),
{
    if events.len() == 0 {
        let (started, action) = call.first(instance, zero);
        (started, seq![action])
    } else {
        let (before, actions) = run(call, instance, zero, events.drop_last());
        let (now, action) = before.next(events.last());
        (now, actions.push(action))
    }
}

/// Two solves of the same items that were asked for the same hand out the same actions and
/// return the same, event by event, the listener apart: whether progress is reported makes no
/// difference to anything else.
pub proof fn law_same_request_same_actions<F>(
    a: SolveCallView<F>,
    b: SolveCallView<F>,
    instance: StripPackingInstanceView<F>,
    zero: F,
    events: Seq<SolveEventView<F>>,
)
    requires
        same_request(a, b),
    ensures
        same_request(run(a, instance, zero, events).0, run(b, instance, zero, events).0),
        run(a, instance, zero, events).0.phase == run(b, instance, zero, events).0.phase,
        run(a, instance, zero, events).1.len() == events.len() + 1,
        run(b, instance, zero, events).1.len() == events.len() + 1,
        forall|i: int|
            0 <= i <= events.len() ==> unheard(#[trigger] run(a, instance, zero, events).1[i])
                == unheard(run(b, instance, zero, events).1[i]),
        forall|i: int|
            0 <= i <= events.len() && (#[trigger] run(a, instance, zero, events).1[i]) !is Optimize
                ==> run(a, instance, zero, events).1[i] == run(b, instance, zero, events).1[i],
    decreases events.len(),
{
    if events.len() > 0 {
        law_same_request_same_actions(a, b, instance, zero, events.drop_last());
    }
}

/// What a whole solve returns, where `found` says what the optimizer finds after the actions
/// that led to it.
pub open spec fn outcome<F>(
    call: SolveCallView<F>,
    instance: StripPackingInstanceView<F>,
    zero: F,
    found: spec_fn(Seq<SolveActionView<F>>) -> ExtSPSolutionView<F>,
) -> Result<StripPackingSolutionView<F>, ValueErrorView> {
    let (imported, first) = call.first(instance, zero);
    let (ready, second) = imported.next(SolveEventView::InstanceImported);
    let (warmed, third) = ready.next(SolveEventView::SolutionImported);
    match (first, second) {
        (SolveActionView::Return(result), _) => result,
        (_, SolveActionView::Return(result)) => result,
        (_, SolveActionView::ImportSolution { .. }) => Ok(
            named_layout(
                found(seq![unheard(first), unheard(second), unheard(third)]),
                warmed.item_ids,
            ),
        ),
        _ => Ok(named_layout(found(seq![unheard(first), unheard(second)]), ready.item_ids)),
    }
}

/// What `outcome` says is what the steps of a solve return, where what the optimizer finds
/// places items of the instance only.
pub proof fn law_outcome_is_returned<F>(
    call: SolveCallView<F>,
    instance: StripPackingInstanceView<F>,
    zero: F,
    found: spec_fn(Seq<SolveActionView<F>>) -> ExtSPSolutionView<F>,
)
    requires
        call.item_ids == instance.ids(),
        forall|actions: Seq<SolveActionView<F>>|
            in_range(#[trigger] found(actions), instance.items.len()),
    ensures
        ({
            let (imported, first) = call.first(instance, zero);
            let (ready, second) = imported.next(SolveEventView::InstanceImported);
            let (warmed, third) = ready.next(SolveEventView::SolutionImported);
            let cold = SolveEventView::Optimized(found(seq![unheard(first), unheard(second)]));
            let warm = SolveEventView::Optimized(
                found(seq![unheard(first), unheard(second), unheard(third)]),
            );
            let returned = SolveActionView::Return(outcome(call, instance, zero, found));
            if first is Return {
                first == returned
            } else {
                &&& imported.awaits(SolveEventView::InstanceImported)
                &&& match second {
                    SolveActionView::Return(_) => second == returned,
                    SolveActionView::ImportSolution { .. } => {
                        &&& ready.awaits(SolveEventView::SolutionImported)
                        &&& third is Optimize
                        &&& warmed.awaits(warm)
                        &&& warmed.next(warm).1 == returned
                    },
                    _ => {
                        &&& second is Optimize
                        &&& ready.awaits(cold)
                        &&& ready.next(cold).1 == returned
                    },
                }
            }
        }),
{
}

/// Solves are reproducible as far as the optimizer is: where what it finds depends only on
/// what it was given, two solves of the same items that were asked for the same return the
/// same, be it a layout or a refusal, with or without progress reports.
pub proof fn law_same_request_same_result<F>(
    a: SolveCallView<F>,
    b: SolveCallView<F>,
    instance: StripPackingInstanceView<F>,
    zero: F,
    found: spec_fn(Seq<SolveActionView<F>>) -> ExtSPSolutionView<F>,
)
    requires
        same_request(a, b),
    ensures
        outcome(a, instance, zero, found) == outcome(b, instance, zero, found),
{
}

/// The result of a solve, imported as a layout to start from and exported again by an engine
/// that keeps the width and the placements that it is given, is the result again: the same
/// width and the same items in the same places.
pub proof fn law_reexported_result_comes_back<F>(
    found: ExtSPSolutionView<F>,
    ids: Seq<Seq<char>>,
    exported: ExtSPSolutionView<F>,
)
    requires
        ids.len() <= usize::MAX,
        in_range(found, ids.len()),
        exported.strip_width == start_layout(named_layout(found, ids), ids).strip_width,
        exported.layout.placed_items == start_layout(
            named_layout(found, ids),
            ids,
        ).layout.placed_items,
    ensures
        initial_solution(named_layout(found, ids), ids) is Ok,
        in_range(exported, ids.len()),
        named_layout(exported, ids).width == named_layout(found, ids).width,
        named_layout(exported, ids).placed_items == named_layout(found, ids).placed_items,
{
    let result = named_layout(found, ids);
    law_named_layout_keeps_to_the_instance(found, ids);
    law_start_layout_round_trips(result, ids);
    let start = start_layout(result, ids);
    assert forall|i: int| 0 <= i < exported.layout.placed_items.len() implies (
    #[trigger] exported.layout.placed_items[i].item_id as usize) < ids.len() by {
        assert((start.layout.placed_items[i].item_id as usize) < ids.len());
    }
}

} // verus!
