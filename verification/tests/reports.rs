use spyrrow::layout::{ExtLayout, ExtPlacedItem, ExtSPSolution, ExtTransformation};
use spyrrow::progress::{ProgressListener, ProgressReport, SolListener};
use spyrrow::{ProgressQueue, ReportType, StripPackingSolution};

fn report(report_type: ReportType, width: f32) -> ProgressReport<f32> {
    ProgressReport {
        report_type,
        solution: StripPackingSolution { width, density: 0.5, placed_items: vec![] },
    }
}

fn exported(item_id: u64) -> ExtSPSolution<f32> {
    ExtSPSolution {
        strip_width: 12.5,
        layout: ExtLayout {
            container_id: 0,
            placed_items: vec![ExtPlacedItem {
                item_id,
                transformation: ExtTransformation { rotation: 90.0, translation: (1.0, 2.0) },
            }],
            density: 0.75,
        },
        density: 0.75,
        run_time_sec: 17,
    }
}

#[test]
fn phases_have_names() {
    assert_eq!(ReportType::ExplFeas.phase_name(), "exploring");
    assert_eq!(ReportType::ExplInfeas.phase_name(), "exploring");
    assert_eq!(ReportType::ExplImproving.phase_name(), "exploring");
    assert_eq!(ReportType::CmprFeas.phase_name(), "compressing");
    assert_eq!(ReportType::Final.phase_name(), "final");
}

#[test]
fn kinds_print_and_count_in_order() {
    let kinds = [
        ReportType::ExplFeas,
        ReportType::ExplInfeas,
        ReportType::ExplImproving,
        ReportType::CmprFeas,
        ReportType::Final,
    ];
    for (i, kind) in kinds.iter().enumerate() {
        assert_eq!(kind.repr(), format!("ReportType.{:?}", kind));
        assert_eq!(*kind as usize, i);
    }
}

#[test]
fn each_report_is_fetched_once_in_order() {
    let mut queue = ProgressQueue::new();
    assert!(queue.drain().is_empty());
    queue.push(report(ReportType::ExplInfeas, 1.0));
    queue.push(report(ReportType::ExplFeas, 2.0));
    let first = queue.drain();
    assert!(queue.drain().is_empty());
    queue.push(report(ReportType::Final, 3.0));
    let second = queue.drain();
    let widths: Vec<(ReportType, f32)> =
        first.iter().chain(second.iter()).map(|(kind, sol)| (*kind, sol.width)).collect();
    assert_eq!(
        widths,
        vec![
            (ReportType::ExplInfeas, 1.0),
            (ReportType::ExplFeas, 2.0),
            (ReportType::Final, 3.0)
        ]
    );
}

#[test]
fn listener_queues_named_layouts() {
    let listener = ProgressListener { item_ids: vec!["a".to_string(), "b".to_string()] };
    let mut queue = ProgressQueue::new();
    queue.push(report(ReportType::ExplFeas, 1.0));
    listener.report(&mut queue, ReportType::CmprFeas, &exported(1));
    let reports = queue.drain();
    assert_eq!(reports.len(), 2);
    let (kind, sol) = &reports[1];
    assert_eq!(*kind, ReportType::CmprFeas);
    assert_eq!(sol.width, 12.5);
    assert_eq!(sol.density, 0.75);
    assert_eq!(sol.placed_items.len(), 1);
    assert_eq!(sol.placed_items[0].id, "b");
    assert_eq!(sol.placed_items[0].rotation, 90.0);
    assert_eq!(sol.placed_items[0].translation, (1.0, 2.0));
}

#[test]
fn silent_listener_leaves_the_queue_alone() {
    let mut queue = ProgressQueue::new();
    let silent = SolListener::Dummy;
    assert!(!silent.reports());
    assert!(silent.can_hear(&exported(9)));
    silent.report(&mut queue, ReportType::Final, &exported(9));
    assert!(queue.drain().is_empty());

    let loud = SolListener::Progress(ProgressListener { item_ids: vec!["a".to_string()] });
    assert!(loud.reports());
    assert!(loud.can_hear(&exported(0)));
    assert!(!loud.can_hear(&exported(1)));
    loud.report(&mut queue, ReportType::Final, &exported(0));
    assert_eq!(queue.drain().len(), 1);
}
