//! One solve, from its arguments to its result.
//!
//! The engine and the optimizer do their work between the steps: each step
//! hands out the next action, and is told what came of it.

use rand::rngs::Xoshiro256PlusPlus;
use vstd::prelude::*;

use crate::config::{StripPackingConfig, TimeSpan};
use crate::error::{ValueError, ValueErrorView};
use crate::host::{generator_for, seeded_generator};
use crate::instance::{
    ExtSPInstance, ExtSPInstanceView, ExtShape, StripPackingInstance, StripPackingInstanceView,
};
use crate::item::collect_item_ids;
use crate::layout::{build_initial_solution, indices_in_range, name_items};
use crate::layout::{in_range, initial_solution, named_layout, result_view};
use crate::layout::{
    ExtSPSolution, ExtSPSolutionView, StripPackingSolution, StripPackingSolutionView,
};
use crate::progress::{ProgressListener, SolListener, SolListenerView};
use crate::text::{copy_strings, copy_vec};
use crate::text::string_views;

verus! {

/// When the optimizer gives up early.
#[derive(Debug)]
pub struct EarlyTermination<F> {
    /// The number of failures in a row after which exploring ends.
    pub max_conseq_fails: usize,
    /// The ratio by which each failure while compressing lessens the next step.
    pub fail_decay_ratio: F,
}

impl<F: Copy> Clone for EarlyTermination<F> {
    fn clone(&self) -> (copy: Self)
        ensures
            copy == *self,
    {
        *self
    }
}

impl<F: Copy> Copy for EarlyTermination<F> {

}

/// What a configuration sets in the engine and the optimizer. All else stays at its default.
#[derive(Debug)]
pub struct SolverSettings<F> {
    pub rng_seed: Option<usize>,
    pub exploration_time_limit: TimeSpan,
    pub exploration_workers: usize,
    pub compression_time_limit: TimeSpan,
    pub compression_workers: usize,
    /// Given where the optimizer is to give up early; otherwise its defaults stay.
    pub early_termination: Option<EarlyTermination<F>>,
    pub quadtree_depth: u8,
    pub min_item_separation: Option<F>,
}

impl<F: Copy> Clone for SolverSettings<F> {
    fn clone(&self) -> (copy: Self)
        ensures
            copy == *self,
    {
        *self
    }
}

impl<F: Copy> Copy for SolverSettings<F> {

}

impl<F> StripPackingConfig<F> {
    /// What the configuration sets, where `limits` say when to give up early.
    pub open spec fn settings_for(self, limits: EarlyTermination<F>) -> SolverSettings<F> {
        SolverSettings {
            rng_seed: Some(self.seed as usize),
            exploration_time_limit: self.exploration_time,
            exploration_workers: self.num_workers,
            compression_time_limit: self.compression_time,
            compression_workers: self.num_workers,
            early_termination: if self.early_termination {
                Some(limits)
            } else {
                None
            },
            quadtree_depth: self.quadtree_depth,
            min_item_separation: self.min_items_separation,
        }
    }
}

impl<F: Copy> StripPackingConfig<F> {
    /// What the configuration sets, where `limits` say when to give up early.
    pub fn settings(&self, limits: EarlyTermination<F>) -> (settings: SolverSettings<F>)
        ensures
            settings == self.settings_for(limits),
            settings.rng_seed == Some(self.seed as usize),
            settings.exploration_time_limit == self.exploration_time,
            settings.exploration_workers == self.num_workers,
            settings.compression_time_limit == self.compression_time,
            settings.compression_workers == self.num_workers,
            self.early_termination ==> settings.early_termination == Some(limits),
            !self.early_termination ==> settings.early_termination is None,
            settings.quadtree_depth == self.quadtree_depth,
            settings.min_item_separation == self.min_items_separation,
    {
        SolverSettings {
            rng_seed: Some(
                #[verifier::truncate]
                (self.seed as usize),
            ),
            exploration_time_limit: self.exploration_time,
            exploration_workers: self.num_workers,
            compression_time_limit: self.compression_time,
            compression_workers: self.num_workers,
            early_termination: if self.early_termination {
                Some(limits)
            } else {
                None
            },
            quadtree_depth: self.quadtree_depth,
            min_item_separation: self.min_items_separation,
        }
    }

    /// The random number generator that the configuration's seed stands for.
    pub fn generator(&self) -> (rng: Xoshiro256PlusPlus)
        ensures
            rng == generator_for(self.seed),
    {
        seeded_generator(self.seed)
    }
}

/// The contents of each group of item indices.
pub open spec fn group_views(groups: Seq<Vec<usize>>) -> Seq<Seq<usize>> {
    groups.map_values(|group: Vec<usize>| group@)
}

/// The groups that were asked for, or none.
pub open spec fn groups_or_none(groups: Option<Vec<Vec<usize>>>) -> Seq<Seq<usize>> {
    match groups {
        Some(inner) => group_views(inner@),
        None => Seq::empty(),
    }
}

/// A copy of the groups that were asked for, or no groups.
pub fn groups_or_default(groups: &Option<Vec<Vec<usize>>>) -> (copy: Vec<Vec<usize>>)
    ensures
        group_views(copy@) == groups_or_none(*groups),
        groups is None ==> copy@.len() == 0,
        groups matches Some(asked) ==> {
            &&& copy@.len() == asked@.len()
            &&& forall|i: int| 0 <= i < asked@.len() ==> #[trigger] copy@[i]@ == asked@[i]@
        },
{
    let mut copy: Vec<Vec<usize>> = Vec::new();
    match groups {
        None => {},
        Some(inner) => {
            let mut i: usize = 0;
            while i < inner.len()
                invariant
                    i <= inner.len(),
                    copy.len() == i,
                    forall|j: int| 0 <= j < i ==> #[trigger] copy@[j]@ == inner@[j]@,
                decreases inner.len() - i,
            {
                copy.push(copy_vec(&inner[i]));
                i += 1;
            }
        },
    }
    assert(group_views(copy@) =~= groups_or_none(*groups));
    copy
}

/// What has to be done next.
#[derive(Debug)]
pub enum SolveAction<F> {
    /// Hand the result to the caller: the solve is over.
    Return(Result<StripPackingSolution<F>, ValueError>),
    /// Set up the engine and let it import the instance.
    ImportInstance { settings: SolverSettings<F>, instance: ExtSPInstance<F> },
    /// Let the engine import the layout to start from.
    ImportSolution { solution: ExtSPSolution<F> },
    /// Run the optimizer, from the imported layout where `warm`, and export what it found.
    Optimize {
        settings: SolverSettings<F>,
        rng: Xoshiro256PlusPlus,
        groups: Vec<Vec<usize>>,
        listener: SolListener,
        warm: bool,
    },
}

/// The mathematical content of a `SolveAction`.
#[verifier::ext_equal]
pub enum SolveActionView<F> {
    Return(Result<StripPackingSolutionView<F>, ValueErrorView>),
    ImportInstance { settings: SolverSettings<F>, instance: ExtSPInstanceView<F> },
    ImportSolution { solution: ExtSPSolutionView<F> },
    Optimize {
        settings: SolverSettings<F>,
        rng: Xoshiro256PlusPlus,
        groups: Seq<Seq<usize>>,
        listener: SolListenerView,
        warm: bool,
    },
}

impl<F> View for SolveAction<F> {
    type V = SolveActionView<F>;

    open spec fn view(&self) -> SolveActionView<F> {
        match self {
            SolveAction::Return(result) => SolveActionView::Return(result_view(*result)),
            SolveAction::ImportInstance { settings, instance } => SolveActionView::ImportInstance {
                settings: *settings,
                instance: instance@,
            },
            SolveAction::ImportSolution { solution } => SolveActionView::ImportSolution {
                solution: solution@,
            },
            SolveAction::Optimize { settings, rng, groups, listener, warm } =>
                SolveActionView::Optimize {
                settings: *settings,
                rng: *rng,
                groups: group_views(groups@),
                listener: listener@,
                warm: *warm,
            },
        }
    }
}

/// What came of an action.
#[derive(Debug)]
pub enum SolveEvent<F> {
    /// The engine has the instance.
    InstanceImported,
    /// The engine has the layout to start from.
    SolutionImported,
    /// The optimizer is done; this is the layout that it found.
    Optimized(ExtSPSolution<F>),
}

/// The mathematical content of a `SolveEvent`.
#[verifier::ext_equal]
pub enum SolveEventView<F> {
    InstanceImported,
    SolutionImported,
    Optimized(ExtSPSolutionView<F>),
}

impl<F> View for SolveEvent<F> {
    type V = SolveEventView<F>;

    open spec fn view(&self) -> SolveEventView<F> {
        match self {
            SolveEvent::InstanceImported => SolveEventView::InstanceImported,
            SolveEvent::SolutionImported => SolveEventView::SolutionImported,
            SolveEvent::Optimized(exported) => SolveEventView::Optimized(exported@),
        }
    }
}

/// How far a solve has come: what it waits for.
#[derive(Clone, Copy, Debug, PartialEq, Eq, Structural)]
pub enum SolvePhase {
    ImportingInstance,
    ImportingSolution,
    Optimizing,
    Over,
}

/// A solve under way.
#[derive(Debug)]
pub struct SolveCall<F> {
    item_ids: Vec<String>,
    config: StripPackingConfig<F>,
    limits: EarlyTermination<F>,
    progress: bool,
    groups: Option<Vec<Vec<usize>>>,
    initial_solution: Option<StripPackingSolution<F>>,
    phase: SolvePhase,
}

/// The mathematical content of a `SolveCall`.
#[verifier::ext_equal]
pub struct SolveCallView<F> {
    /// The identifiers of the instance's items, in order.
    pub item_ids: Seq<Seq<char>>,
    pub config: StripPackingConfig<F>,
    pub limits: EarlyTermination<F>,
    /// Whether progress is to be reported.
    pub progress: bool,
    pub groups: Seq<Seq<usize>>,
    /// The layout to start from, where there is one.
    pub initial_solution: Option<StripPackingSolutionView<F>>,
    pub phase: SolvePhase,
}

/// The contents of an optional layout.
pub open spec fn optional_solution_view<F>(solution: Option<StripPackingSolution<F>>) -> Option<
    StripPackingSolutionView<F>,
> {
    match solution {
        Some(inner) => Some(inner@),
        None => None,
    }
}

impl<F> View for SolveCall<F> {
    type V = SolveCallView<F>;

    closed spec fn view(&self) -> SolveCallView<F> {
        SolveCallView {
            item_ids: string_views(self.item_ids@),
            config: self.config,
            limits: self.limits,
            progress: self.progress,
            groups: groups_or_none(self.groups),
            initial_solution: optional_solution_view(self.initial_solution),
            phase: self.phase,
        }
    }
}

/// The layout of nothing, in a strip without width.
pub open spec fn empty_layout<F>(zero: F) -> StripPackingSolutionView<F> {
    StripPackingSolutionView { width: zero, placed_items: Seq::empty(), density: zero }
}

impl<F> SolveCallView<F> {
    /// The call, in another phase.
    pub open spec fn in_phase(self, phase: SolvePhase) -> Self {
        SolveCallView { phase, ..self }
    }

    /// The first step: without items the solve is over before anything else is looked at.
    /// Otherwise the engine has to import the instance.
    pub open spec fn first(
        self,
        instance: StripPackingInstanceView<F>,
        zero: F,
    ) -> (SolveCallView<F>, SolveActionView<F>) {
        if instance.items.len() == 0 {
            (self.in_phase(SolvePhase::Over), SolveActionView::Return(Ok(empty_layout(zero))))
        } else {
            (
                self.in_phase(SolvePhase::ImportingInstance),
                SolveActionView::ImportInstance {
                    settings: self.config.settings_for(self.limits),
                    instance: instance.ext(),
                },
            )
        }
    }

    /// The listener of the call.
    pub open spec fn listener(self) -> SolListenerView {
        if self.progress {
            SolListenerView::Progress { item_ids: self.item_ids }
        } else {
            SolListenerView::Dummy
        }
    }

    /// Running the optimizer.
    pub open spec fn optimize(self, warm: bool) -> SolveActionView<F> {
        SolveActionView::Optimize {
            settings: self.config.settings_for(self.limits),
            rng: generator_for(self.config.seed),
            groups: self.groups,
            listener: self.listener(),
            warm,
        }
    }

    /// The call waits for an event of this kind. A layout that the optimizer found places
    /// items of the instance only.
    pub open spec fn awaits(self, event: SolveEventView<F>) -> bool {
        match event {
            SolveEventView::InstanceImported => self.phase == SolvePhase::ImportingInstance,
            SolveEventView::SolutionImported => self.phase == SolvePhase::ImportingSolution,
            SolveEventView::Optimized(exported) => {
                &&& self.phase == SolvePhase::Optimizing
                &&& in_range(exported, self.item_ids.len())
            },
        }
    }

    /// The step that follows an event.
    pub open spec fn next(self, event: SolveEventView<F>) -> (
        SolveCallView<F>,
        SolveActionView<F>,
    ) {
        match event {
            SolveEventView::InstanceImported => match self.initial_solution {
                None => (self.in_phase(SolvePhase::Optimizing), self.optimize(false)),
                Some(sol) => match initial_solution(sol, self.item_ids) {
                    Ok(solution) => (
                        self.in_phase(SolvePhase::ImportingSolution),
                        SolveActionView::ImportSolution { solution },
                    ),
                    Err(error) => (
                        self.in_phase(SolvePhase::Over),
                        SolveActionView::Return(Err(error)),
                    ),
                },
            },
            SolveEventView::SolutionImported => (
                self.in_phase(SolvePhase::Optimizing),
                self.optimize(true),
            ),
            SolveEventView::Optimized(exported) => (
                self.in_phase(SolvePhase::Over),
                SolveActionView::Return(Ok(named_layout(exported, self.item_ids))),
            ),
        }
    }
}

impl<F: Copy> StripPackingInstance<F> {
    /// Begins a solve of the instance and says what to do first.
    ///
    /// `limits` say when the optimizer gives up early, where the configuration lets it, and
    /// `zero` is the width and density of the layout of nothing.
    pub fn solve(
        &self,
        config: StripPackingConfig<F>,
        limits: EarlyTermination<F>,
        zero: F,
        progress: bool,
        groups: Option<Vec<Vec<usize>>>,
        initial_solution: Option<StripPackingSolution<F>>,
    ) -> (step: (SolveCall<F>, SolveAction<F>))
        ensures
            step.0@.item_ids == self@.ids(),
            step.0@.config == config,
            step.0@.limits == limits,
            step.0@.progress == progress,
            step.0@.groups == groups_or_none(groups),
            step.0@.initial_solution == optional_solution_view(initial_solution),
            (step.0@, step.1@) == step.0@.first(self@, zero),
            step.0@.item_ids.len() == self.items@.len(),
            forall|i: int|
                0 <= i < self.items@.len() ==> #[trigger] step.0@.item_ids[i] == self.items@[i].id@,
            groups is None ==> step.0@.groups.len() == 0,
            groups matches Some(asked) ==> {
                &&& step.0@.groups.len() == asked@.len()
                &&& forall|i: int|
                    0 <= i < asked@.len() ==> #[trigger] step.0@.groups[i] == asked@[i]@
            },
            initial_solution is None ==> step.0@.initial_solution is None,
            initial_solution matches Some(sol) ==> step.0@.initial_solution == Some(sol@),
            self.items@.len() == 0 ==> {
                &&& step.0@.phase == SolvePhase::Over
                &&& step.1 matches SolveAction::Return(Ok(sol)) && {
                    &&& sol.width == zero
                    &&& sol.density == zero
                    &&& sol.placed_items@.len() == 0
                }
            },
            self.items@.len() > 0 ==> {
                &&& step.0@.phase == SolvePhase::ImportingInstance
                &&& step.1 matches SolveAction::ImportInstance { settings, instance } && {
                    &&& settings.rng_seed == Some(config.seed as usize)
                    &&& settings.exploration_time_limit == config.exploration_time
                    &&& settings.exploration_workers == config.num_workers
                    &&& settings.compression_time_limit == config.compression_time
                    &&& settings.compression_workers == config.num_workers
                    &&& config.early_termination ==> settings.early_termination == Some(limits)
                    &&& !config.early_termination ==> settings.early_termination is None
                    &&& settings.quadtree_depth == config.quadtree_depth
                    &&& settings.min_item_separation == config.min_items_separation
                    &&& instance.name@ == self.name@
                    &&& instance.strip_height == self.strip_height
                    &&& instance.items@.len() == self.items@.len()
                    &&& forall|i: int|
                        0 <= i < self.items@.len() ==> {
                            let given = self.items@[i];
                            let handed = #[trigger] instance.items@[i];
                            &&& handed.base.id == i
                            &&& handed.demand == given.demand
                            &&& handed.base.min_quality is None
                            &&& handed.base.shape matches ExtShape::SimplePolygon(corners)
                                && corners@ == given.shape@
                            &&& match given.allowed_orientations {
                                Some(angles) => handed.base.allowed_orientations matches Some(
                                    handed_angles,
                                ) && handed_angles@ == angles@,
                                None => handed.base.allowed_orientations is None,
                            }
                        }
                }
            },
    {
        let phase = if self.items.len() == 0 {
            SolvePhase::Over
        } else {
            SolvePhase::ImportingInstance
        };
        let call = SolveCall {
            item_ids: collect_item_ids(&self.items),
            config,
            limits,
            progress,
            groups,
            initial_solution,
            phase,
        };
        let action = if self.items.len() == 0 {
            let solution = StripPackingSolution {
                width: zero,
                placed_items: Vec::new(),
                density: zero,
            };
            assert(solution@.placed_items =~= empty_layout(zero).placed_items);
            SolveAction::Return(Ok(solution))
        } else {
            SolveAction::ImportInstance {
                settings: config.settings(limits),
                instance: self.to_ext(),
            }
        };
        (call, action)
    }
}

impl<F: Copy> SolveCall<F> {
    /// Whether the call waits for this event, so that `advance` can be told of it.
    pub fn expects(&self, event: &SolveEvent<F>) -> (yes: bool)
        ensures
            yes == self@.awaits(event@),
            event is InstanceImported ==> yes == (self@.phase == SolvePhase::ImportingInstance),
            event is SolutionImported ==> yes == (self@.phase == SolvePhase::ImportingSolution),
            event matches SolveEvent::Optimized(exported) ==> (yes <==> (self@.phase
                == SolvePhase::Optimizing && forall|i: int|
                0 <= i < exported.layout.placed_items@.len() ==> (
                #[trigger] exported.layout.placed_items@[i].item_id as usize)
                    < self@.item_ids.len())),
    {
        match event {
            SolveEvent::InstanceImported => self.phase == SolvePhase::ImportingInstance,
            SolveEvent::SolutionImported => self.phase == SolvePhase::ImportingSolution,
            SolveEvent::Optimized(exported) => self.phase == SolvePhase::Optimizing
                && indices_in_range(exported, self.item_ids.len()),
        }
    }

    /// Running the optimizer.
    fn optimize(&self, warm: bool) -> (action: SolveAction<F>)
        ensures
            action@ == self@.optimize(warm),
            action matches SolveAction::Optimize {
                settings,
                rng,
                groups,
                listener,
                warm: from_layout,
            } && {
                &&& settings.rng_seed == Some(self@.config.seed as usize)
                &&& settings.exploration_time_limit == self@.config.exploration_time
                &&& settings.exploration_workers == self@.config.num_workers
                &&& settings.compression_time_limit == self@.config.compression_time
                &&& settings.compression_workers == self@.config.num_workers
                &&& self@.config.early_termination ==> settings.early_termination == Some(self@.limits)
                &&& !self@.config.early_termination ==> settings.early_termination is None
                &&& settings.quadtree_depth == self@.config.quadtree_depth
                &&& settings.min_item_separation == self@.config.min_items_separation
                &&& rng == generator_for(self@.config.seed)
                &&& groups@.len() == self@.groups.len()
                &&& forall|i: int| 0 <= i < groups@.len() ==> #[trigger] groups@[i]@ == self@.groups[i]
                &&& self@.progress ==> (listener matches SolListener::Progress(reporting) && {
                    &&& reporting.item_ids@.len() == self@.item_ids.len()
                    &&& forall|i: int|
                        0 <= i < self@.item_ids.len() ==> #[trigger] reporting.item_ids@[i]@
                            == self@.item_ids[i]
                })
                &&& !self@.progress ==> listener is Dummy
                &&& from_layout == warm
            },
    {
        let listener = if self.progress {
            SolListener::Progress(ProgressListener { item_ids: copy_strings(&self.item_ids) })
        } else {
            SolListener::Dummy
        };
        SolveAction::Optimize {
            settings: self.config.settings(self.limits),
            rng: self.config.generator(),
            groups: groups_or_default(&self.groups),
            listener,
            warm,
        }
    }

    /// Takes note of what came of the last action and says what to do next.
    pub fn advance(&mut self, event: SolveEvent<F>) -> (action: SolveAction<F>)
        requires
            old(self)@.awaits(event@),
        ensures
            (final(self)@, action@) == old(self)@.next(event@),
            final(self)@.item_ids == old(self)@.item_ids,
            final(self)@.config == old(self)@.config,
            final(self)@.limits == old(self)@.limits,
            final(self)@.progress == old(self)@.progress,
            final(self)@.groups == old(self)@.groups,
            final(self)@.initial_solution == old(self)@.initial_solution,
            event is InstanceImported && old(self)@.initial_solution is None ==> {
                &&& final(self)@.phase == SolvePhase::Optimizing
                &&& action matches SolveAction::Optimize { settings, rng, groups, listener, warm } && {
                    &&& settings.rng_seed == Some(old(self)@.config.seed as usize)
                    &&& settings.exploration_time_limit == old(self)@.config.exploration_time
                    &&& settings.exploration_workers == old(self)@.config.num_workers
                    &&& settings.compression_time_limit == old(self)@.config.compression_time
                    &&& settings.compression_workers == old(self)@.config.num_workers
                    &&& old(self)@.config.early_termination ==> settings.early_termination == Some(old(self)@.limits)
                    &&& !old(self)@.config.early_termination ==> settings.early_termination is None
                    &&& settings.quadtree_depth == old(self)@.config.quadtree_depth
                    &&& settings.min_item_separation == old(self)@.config.min_items_separation
                    &&& rng == generator_for(old(self)@.config.seed)
                    &&& groups@.len() == old(self)@.groups.len()
                    &&& forall|i: int| 0 <= i < groups@.len() ==> #[trigger] groups@[i]@ == old(self)@.groups[i]
                    &&& old(self)@.progress ==> (listener matches SolListener::Progress(reporting) && {
                        &&& reporting.item_ids@.len() == old(self)@.item_ids.len()
                        &&& forall|i: int|
                            0 <= i < old(self)@.item_ids.len() ==> #[trigger] reporting.item_ids@[i]@
                                == old(self)@.item_ids[i]
                    })
                    &&& !old(self)@.progress ==> listener is Dummy
                    &&& warm == false
                }
            },
            event is SolutionImported ==> {
                &&& final(self)@.phase == SolvePhase::Optimizing
                &&& action matches SolveAction::Optimize { settings, rng, groups, listener, warm } && {
                    &&& settings.rng_seed == Some(old(self)@.config.seed as usize)
                    &&& settings.exploration_time_limit == old(self)@.config.exploration_time
                    &&& settings.exploration_workers == old(self)@.config.num_workers
                    &&& settings.compression_time_limit == old(self)@.config.compression_time
                    &&& settings.compression_workers == old(self)@.config.num_workers
                    &&& old(self)@.config.early_termination ==> settings.early_termination == Some(old(self)@.limits)
                    &&& !old(self)@.config.early_termination ==> settings.early_termination is None
                    &&& settings.quadtree_depth == old(self)@.config.quadtree_depth
                    &&& settings.min_item_separation == old(self)@.config.min_items_separation
                    &&& rng == generator_for(old(self)@.config.seed)
                    &&& groups@.len() == old(self)@.groups.len()
                    &&& forall|i: int| 0 <= i < groups@.len() ==> #[trigger] groups@[i]@ == old(self)@.groups[i]
                    &&& old(self)@.progress ==> (listener matches SolListener::Progress(reporting) && {
                        &&& reporting.item_ids@.len() == old(self)@.item_ids.len()
                        &&& forall|i: int|
                            0 <= i < old(self)@.item_ids.len() ==> #[trigger] reporting.item_ids@[i]@
                                == old(self)@.item_ids[i]
                    })
                    &&& !old(self)@.progress ==> listener is Dummy
                    &&& warm == true
                }
            },
            old(self)@.initial_solution matches Some(sol) ==> event is InstanceImported ==> match action {
                SolveAction::ImportSolution { solution } => {
                    &&& final(self)@.phase == SolvePhase::ImportingSolution
                    &&& solution.strip_width == sol.width
                    &&& solution.density == sol.density
                    &&& solution.run_time_sec == 0
                    &&& solution.layout.container_id == 0
                    &&& solution.layout.density == sol.density
                    &&& solution.layout.placed_items@.len() == sol.placed_items.len()
                    &&& forall|i: int|
                        0 <= i < sol.placed_items.len() ==> {
                            let handed = #[trigger] solution.layout.placed_items@[i];
                            &&& handed.item_id < old(self)@.item_ids.len()
                            &&& old(self)@.item_ids[handed.item_id as int]
                                == sol.placed_items[i].id
                            &&& handed.transformation.rotation == sol.placed_items[i].rotation
                            &&& handed.transformation.translation
                                == sol.placed_items[i].translation
                        }
                },
                SolveAction::Return(Err(ValueError::UnknownItemId { id })) => {
                    &&& final(self)@.phase == SolvePhase::Over
                    &&& !old(self)@.item_ids.contains(id@)
                    &&& exists|i: int|
                        0 <= i < sol.placed_items.len() && (#[trigger] sol.placed_items[i]).id
                            == id@ && forall|j: int|
                            0 <= j < i ==> old(self)@.item_ids.contains(
                                (#[trigger] sol.placed_items[j]).id,
                            )
                },
                _ => false,
            },
            event matches SolveEvent::Optimized(exported) ==> {
                &&& final(self)@.phase == SolvePhase::Over
                &&& action matches SolveAction::Return(Ok(sol)) && {
                    &&& sol.width == exported.strip_width
                    &&& sol.density == exported.density
                    &&& sol.placed_items@.len() == exported.layout.placed_items@.len()
                    &&& forall|i: int|
                        0 <= i < sol.placed_items@.len() ==> {
                            let placed = #[trigger] sol.placed_items@[i];
                            let found = exported.layout.placed_items@[i];
                            &&& placed.id@ == old(self)@.item_ids[found.item_id as usize as int]
                            &&& placed.rotation == found.transformation.rotation
                            &&& placed.translation == found.transformation.translation
                        }
                }
            },
    {
        match event {
            SolveEvent::InstanceImported => match &self.initial_solution {
                None => {
                    self.phase = SolvePhase::Optimizing;
                    self.optimize(false)
                },
                Some(sol) => match build_initial_solution(sol, self.item_ids.as_slice()) {
                    Ok(solution) => {
                        self.phase = SolvePhase::ImportingSolution;
                        SolveAction::ImportSolution { solution }
                    },
                    Err(error) => {
                        self.phase = SolvePhase::Over;
                        SolveAction::Return(Err(error))
                    },
                },
            },
            SolveEvent::SolutionImported => {
                self.phase = SolvePhase::Optimizing;
                self.optimize(true)
            },
            SolveEvent::Optimized(exported) => {
                self.phase = SolvePhase::Over;
                SolveAction::Return(Ok(name_items(&exported, &self.item_ids)))
            },
        }
    }
}

} // verus!
