//! Progress reports: their kinds, the queue that collects them and the
//! listeners that fill it.

use std::collections::VecDeque;

use vstd::prelude::*;

use crate::layout::{in_range, named_layout};
use crate::layout::{indices_in_range, name_items};
use crate::layout::{
    ExtSPSolution, ExtSPSolutionView, StripPackingSolution, StripPackingSolutionView,
};
use crate::text::string_views;

verus! {

/// The kind of a progress report.
#[derive(Clone, Copy, Debug, PartialEq, Eq, Structural)]
pub enum ReportType {
    /// A feasible layout found while exploring.
    ExplFeas,
    /// An infeasible layout met while exploring.
    ExplInfeas,
    /// An improving layout met while exploring, not feasible yet.
    ExplImproving,
    /// A feasible layout found while compressing.
    CmprFeas,
    /// The final layout.
    Final,
}

impl ReportType {
    /// The name of the phase that a report of this kind belongs to.
    pub open spec fn phase(self) -> Seq<char> {
        match self {
            ReportType::ExplFeas | ReportType::ExplInfeas | ReportType::ExplImproving =>
                "exploring"@,
            ReportType::CmprFeas => "compressing"@,
            ReportType::Final => "final"@,
        }
    }

    /// The printed form of the kind.
    pub open spec fn text(self) -> Seq<char> {
        match self {
            ReportType::ExplFeas => "ReportType.ExplFeas"@,
            ReportType::ExplInfeas => "ReportType.ExplInfeas"@,
            ReportType::ExplImproving => "ReportType.ExplImproving"@,
            ReportType::CmprFeas => "ReportType.CmprFeas"@,
            ReportType::Final => "ReportType.Final"@,
        }
    }

    /// The name of the phase that a report of this kind belongs to.
    pub fn phase_name(&self) -> (name: &'static str)
        ensures
            name@ == self.phase(),
            *self == ReportType::ExplFeas ==> name@ == "exploring"@,
            *self == ReportType::ExplInfeas ==> name@ == "exploring"@,
            *self == ReportType::ExplImproving ==> name@ == "exploring"@,
            *self == ReportType::CmprFeas ==> name@ == "compressing"@,
            *self == ReportType::Final ==> name@ == "final"@,
    {
        match self {
            ReportType::ExplFeas | ReportType::ExplInfeas | ReportType::ExplImproving =>
                "exploring",
            ReportType::CmprFeas => "compressing",
            ReportType::Final => "final",
        }
    }

    /// The printed form of the kind.
    pub fn repr(&self) -> (text: &'static str)
        ensures
            text@ == self.text(),
            *self == ReportType::ExplFeas ==> text@ == "ReportType.ExplFeas"@,
            *self == ReportType::ExplInfeas ==> text@ == "ReportType.ExplInfeas"@,
            *self == ReportType::ExplImproving ==> text@ == "ReportType.ExplImproving"@,
            *self == ReportType::CmprFeas ==> text@ == "ReportType.CmprFeas"@,
            *self == ReportType::Final ==> text@ == "ReportType.Final"@,
    {
        match self {
            ReportType::ExplFeas => "ReportType.ExplFeas",
            ReportType::ExplInfeas => "ReportType.ExplInfeas",
            ReportType::ExplImproving => "ReportType.ExplImproving",
            ReportType::CmprFeas => "ReportType.CmprFeas",
            ReportType::Final => "ReportType.Final",
        }
    }
}

/// A layout met on the way, with the occasion of the report.
#[derive(Debug)]
pub struct ProgressReport<F> {
    pub report_type: ReportType,
    pub solution: StripPackingSolution<F>,
}

impl<F> View for ProgressReport<F> {
    type V = (ReportType, StripPackingSolutionView<F>);

    open spec fn view(&self) -> (ReportType, StripPackingSolutionView<F>) {
        (self.report_type, self.solution@)
    }
}

/// Reports in the order of their arrival, until they are fetched.
#[derive(Debug)]
pub struct ProgressQueue<F> {
    inner: VecDeque<ProgressReport<F>>,
}

impl<F> View for ProgressQueue<F> {
    type V = Seq<(ReportType, StripPackingSolutionView<F>)>;

    closed spec fn view(&self) -> Seq<(ReportType, StripPackingSolutionView<F>)> {
        self.inner@.map_values(|r: ProgressReport<F>| r@)
    }
}

/// The contents of fetched reports.
pub open spec fn report_views<F>(reports: Seq<(ReportType, StripPackingSolution<F>)>) -> Seq<
    (ReportType, StripPackingSolutionView<F>),
> {
    reports.map_values(|r: (ReportType, StripPackingSolution<F>)| (r.0, r.1@))
}

/// What happens to a queue: a report arrives, or the waiting reports are fetched.
pub enum QueueUse<F> {
    Push((ReportType, StripPackingSolutionView<F>)),
    Drain,
}

/// The reports that a use of a queue fetches, and those that wait after it, where `waiting`
/// waited before.
pub open spec fn used<F>(
    waiting: Seq<(ReportType, StripPackingSolutionView<F>)>,
    what: QueueUse<F>,
) -> (
    Seq<(ReportType, StripPackingSolutionView<F>)>,
    Seq<(ReportType, StripPackingSolutionView<F>)>,
) {
    match what {
        QueueUse::Push(report) => (Seq::empty(), waiting.push(report)),
        QueueUse::Drain => (waiting, Seq::empty()),
    }
}

impl<F> ProgressQueue<F> {
    /// A queue without reports.
    pub fn new() -> (queue: Self)
        ensures
            queue@ == Seq::<(ReportType, StripPackingSolutionView<F>)>::empty(),
    {
        let queue = ProgressQueue { inner: VecDeque::new() };
        assert(queue@ =~= Seq::<(ReportType, StripPackingSolutionView<F>)>::empty());
        queue
    }

    /// Puts a report behind those that wait.
    pub fn push(&mut self, report: ProgressReport<F>)
        ensures
            final(self)@ == used(old(self)@, QueueUse::Push(report@)).1,
            final(self)@ == old(self)@.push((report.report_type, report.solution@)),
    {
        self.inner.push_back(report);
        assert(self@ =~= old(self)@.push(report@));
    }

    /// Fetches all waiting reports, first come first, and leaves none.
    pub fn drain(&mut self) -> (reports: Vec<(ReportType, StripPackingSolution<F>)>)
        ensures
            (report_views(reports@), final(self)@) == used(old(self)@, QueueUse::Drain),
            final(self)@.len() == 0,
            reports@.len() == old(self)@.len(),
            forall|i: int|
                0 <= i < reports@.len() ==> (#[trigger] reports@[i]).0 == old(self)@[i].0
                    && reports@[i].1@ == old(self)@[i].1,
    {
        let ghost all = self.inner@;
        let mut reports: Vec<(ReportType, StripPackingSolution<F>)> = Vec::new();
        while self.inner.len() > 0
            invariant
                reports.len() + self.inner@.len() == all.len(),
                self.inner@ == all.skip(reports.len() as int),
                forall|j: int|
                    0 <= j < reports.len() ==> #[trigger] reports@[j].0 == all[j].report_type
                        && reports@[j].1 == all[j].solution,
            decreases self.inner@.len(),
        {
            let ghost taken = reports.len() as int;
            match self.inner.pop_front() {
                Some(report) => {
                    reports.push((report.report_type, report.solution));
                    assert(self.inner@ =~= all.skip(taken + 1));
                },
                None => {},
            }
        }
        assert(report_views(reports@) =~= old(self)@);
        assert(self@ =~= Seq::<(ReportType, StripPackingSolutionView<F>)>::empty());
        reports
    }
}

/// A listener that turns the layouts it hears of into progress reports.
#[derive(Debug)]
pub struct ProgressListener {
    /// The identifiers of the instance's items, in order.
    pub item_ids: Vec<String>,
}

impl ProgressListener {
    /// Queues a report of an exported layout, its items named.
    pub fn report<F: Copy>(
        &self,
        queue: &mut ProgressQueue<F>,
        report_type: ReportType,
        exported: &ExtSPSolution<F>,
    )
        requires
            in_range(exported@, self.item_ids@.len()),
        ensures
            final(queue)@ == old(queue)@.push(
                (report_type, named_layout(exported@, string_views(self.item_ids@))),
            ),
            final(queue)@.len() == old(queue)@.len() + 1,
            final(queue)@.drop_last() == old(queue)@,
            final(queue)@.last().0 == report_type,
            final(queue)@.last().1.width == exported.strip_width,
            final(queue)@.last().1.density == exported.density,
            final(queue)@.last().1.placed_items.len() == exported.layout.placed_items@.len(),
            forall|i: int|
                0 <= i < exported.layout.placed_items@.len() ==> {
                    let placed = #[trigger] final(queue)@.last().1.placed_items[i];
                    let found = exported.layout.placed_items@[i];
                    &&& placed.id == self.item_ids@[found.item_id as usize as int]@
                    &&& placed.rotation == found.transformation.rotation
                    &&& placed.translation == found.transformation.translation
                },
    {
        let solution = name_items(exported, &self.item_ids);
        queue.push(ProgressReport { report_type, solution });
    }
}

/// The listener of a solve: one that reports, or one that stays silent.
#[derive(Debug)]
pub enum SolListener {
    Dummy,
    Progress(ProgressListener),
}

/// The mathematical content of a `SolListener`: the identifiers that it reports with.
pub enum SolListenerView {
    Dummy,
    Progress { item_ids: Seq<Seq<char>> },
}

impl View for SolListener {
    type V = SolListenerView;

    open spec fn view(&self) -> SolListenerView {
        match self {
            SolListener::Dummy => SolListenerView::Dummy,
            SolListener::Progress(listener) => SolListenerView::Progress {
                item_ids: string_views(listener.item_ids@),
            },
        }
    }
}

impl SolListenerView {
    /// The listener may hear of the layout.
    pub open spec fn accepts<F>(self, exported: ExtSPSolutionView<F>) -> bool {
        match self {
            SolListenerView::Dummy => true,
            SolListenerView::Progress { item_ids } => in_range(exported, item_ids.len()),
        }
    }

    /// The queue after the listener has heard of a layout.
    pub open spec fn heard<F>(
        self,
        queue: Seq<(ReportType, StripPackingSolutionView<F>)>,
        report_type: ReportType,
        exported: ExtSPSolutionView<F>,
    ) -> Seq<(ReportType, StripPackingSolutionView<F>)> {
        match self {
            SolListenerView::Dummy => queue,
            SolListenerView::Progress { item_ids } => queue.push(
                (report_type, named_layout(exported, item_ids)),
            ),
        }
    }
}

impl SolListener {
    /// Whether the listener makes anything of what it hears.
    pub fn reports(&self) -> (yes: bool)
        ensures
            yes == (self@ is Progress),
            yes == (self is Progress),
    {
        match self {
            SolListener::Dummy => false,
            SolListener::Progress(_) => true,
        }
    }

    /// Whether the listener may hear of an exported layout.
    pub fn can_hear<F>(&self, exported: &ExtSPSolution<F>) -> (yes: bool)
        ensures
            yes == self@.accepts(exported@),
            self is Dummy ==> yes,
            self matches SolListener::Progress(listener) ==> (yes <==> forall|i: int|
                0 <= i < exported.layout.placed_items@.len() ==> (
                #[trigger] exported.layout.placed_items@[i].item_id as usize)
                    < listener.item_ids@.len()),
    {
        match self {
            SolListener::Dummy => true,
            SolListener::Progress(listener) => indices_in_range(exported, listener.item_ids.len()),
        }
    }

    /// Lets the listener hear of an exported layout.
    pub fn report<F: Copy>(
        &self,
        queue: &mut ProgressQueue<F>,
        report_type: ReportType,
        exported: &ExtSPSolution<F>,
    )
        requires
            self@.accepts(exported@),
        ensures
            final(queue)@ == self@.heard(old(queue)@, report_type, exported@),
            self is Dummy ==> final(queue)@ == old(queue)@,
            self matches SolListener::Progress(listener) ==> {
                let named = final(queue)@.last().1;
                &&& final(queue)@.len() == old(queue)@.len() + 1
                &&& final(queue)@.drop_last() == old(queue)@
                &&& final(queue)@.last().0 == report_type
                &&& named.width == exported.strip_width
                &&& named.density == exported.density
                &&& named.placed_items.len() == exported.layout.placed_items@.len()
                &&& forall|i: int|
                    0 <= i < named.placed_items.len() ==> {
                        let placed = #[trigger] named.placed_items[i];
                        let found = exported.layout.placed_items@[i];
                        &&& placed.id == listener.item_ids@[found.item_id as usize as int]@
                        &&& placed.rotation == found.transformation.rotation
                        &&& placed.translation == found.transformation.translation
                    }
            },
    {
        match self {
            SolListener::Dummy => {},
            SolListener::Progress(listener) => listener.report(queue, report_type, exported),
        }
    }
}

} // verus!
