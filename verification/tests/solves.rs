use rand::rngs::Xoshiro256PlusPlus;
use rand::SeedableRng;
use spyrrow::layout::{ExtLayout, ExtPlacedItem, ExtSPSolution, ExtTransformation};
use spyrrow::progress::SolListener;
use spyrrow::solve::{groups_or_default, EarlyTermination};
use spyrrow::{
    Item, PlacedItem, SolveAction, SolveCall, SolveEvent, StripPackingConfig, StripPackingInstance,
    StripPackingSolution, ValueError,
};

const LIMITS: EarlyTermination<f32> =
    EarlyTermination { max_conseq_fails: 10, fail_decay_ratio: 0.5 };

fn item(id: &str) -> Item<f32> {
    Item::new(id.to_string(), vec![(0.0, 0.0), (1.0, 0.0), (0.0, 1.0)], 2, None)
}

fn instance(ids: &[&str]) -> StripPackingInstance<f32> {
    StripPackingInstance::new(
        "test".to_string(),
        10.0,
        ids.iter().map(|id| item(id)).collect(),
    )
    .unwrap()
}

fn config() -> StripPackingConfig<f32> {
    StripPackingConfig::new(true, 4, None, Some(10), None, None, Some(2), Some(77)).unwrap()
}

fn ext_placed(item_id: u64, rotation: f32) -> ExtPlacedItem<f32> {
    ExtPlacedItem {
        item_id,
        transformation: ExtTransformation { rotation, translation: (1.0, 2.0) },
    }
}

fn found(placed_items: Vec<ExtPlacedItem<f32>>) -> ExtSPSolution<f32> {
    ExtSPSolution {
        strip_width: 6.5,
        layout: ExtLayout { container_id: 0, placed_items, density: 0.5 },
        density: 0.5,
        run_time_sec: 9,
    }
}

fn layout(ids: &[&str]) -> StripPackingSolution<f32> {
    StripPackingSolution {
        width: 20.0,
        density: 0.25,
        placed_items: ids
            .iter()
            .map(|id| PlacedItem { id: id.to_string(), rotation: 45.0, translation: (3.0, 4.0) })
            .collect(),
    }
}

fn finish(
    call: &mut SolveCall<f32>,
    placements: Vec<ExtPlacedItem<f32>>,
) -> StripPackingSolution<f32> {
    let event = SolveEvent::Optimized(found(placements));
    assert!(call.expects(&event));
    match call.advance(event) {
        SolveAction::Return(Ok(solution)) => solution,
        _ => panic!("the solve should be over"),
    }
}

#[test]
fn nothing_to_pack_is_solved_at_once() {
    let (call, action) =
        instance(&[]).solve(config(), LIMITS, 0.0, true, None, Some(layout(&["ghost"])));
    match action {
        SolveAction::Return(Ok(solution)) => {
            assert_eq!(solution.width, 0.0);
            assert_eq!(solution.density, 0.0);
            assert!(solution.placed_items.is_empty());
        }
        _ => panic!("the solve should be over"),
    }
    assert!(!call.expects(&SolveEvent::InstanceImported));
    assert!(!call.expects(&SolveEvent::SolutionImported));
    assert!(!call.expects(&SolveEvent::Optimized(found(vec![]))));
}

#[test]
fn cold_solve_runs_to_its_result() {
    let (mut call, action) =
        instance(&["a", "b"]).solve(config(), LIMITS, 0.0, false, None, None);
    match action {
        SolveAction::ImportInstance { settings, instance } => {
            assert_eq!(settings.rng_seed, Some(77));
            assert_eq!(settings.exploration_time_limit.secs, 8);
            assert_eq!(settings.compression_time_limit.secs, 2);
            assert_eq!(settings.early_termination.unwrap().max_conseq_fails, 10);
            assert_eq!(instance.items.len(), 2);
            assert_eq!(instance.items[1].base.id, 1);
            assert_eq!(instance.strip_height, 10.0);
        }
        _ => panic!("the instance should be imported"),
    }
    assert!(call.expects(&SolveEvent::InstanceImported));
    assert!(!call.expects(&SolveEvent::SolutionImported));
    match call.advance(SolveEvent::InstanceImported) {
        SolveAction::Optimize { rng, groups, listener, warm, .. } => {
            assert_eq!(rng, Xoshiro256PlusPlus::seed_from_u64(77));
            assert!(groups.is_empty());
            assert!(matches!(listener, SolListener::Dummy));
            assert!(!warm);
        }
        _ => panic!("the optimizer should run"),
    }
    assert!(!call.expects(&SolveEvent::Optimized(found(vec![ext_placed(2, 0.0)]))));
    let solution = finish(&mut call, vec![ext_placed(1, 90.0), ext_placed(0, 0.0)]);
    assert_eq!(solution.width, 6.5);
    assert_eq!(solution.density, 0.5);
    assert_eq!(solution.placed_items[0].id, "b");
    assert_eq!(solution.placed_items[0].rotation, 90.0);
    assert_eq!(solution.placed_items[1].id, "a");
    assert_eq!(solution.placed_items[1].translation, (1.0, 2.0));
    assert!(!call.expects(&SolveEvent::Optimized(found(vec![]))));
}

#[test]
fn warm_solve_starts_from_the_layout() {
    let (mut call, _) = instance(&["a", "b"]).solve(
        config(),
        LIMITS,
        0.0,
        true,
        Some(vec![vec![0, 1], vec![]]),
        Some(layout(&["b", "a", "b"])),
    );
    match call.advance(SolveEvent::InstanceImported) {
        SolveAction::ImportSolution { solution } => {
            let indices: Vec<u64> =
                solution.layout.placed_items.iter().map(|p| p.item_id).collect();
            assert_eq!(indices, vec![1, 0, 1]);
            assert_eq!(solution.strip_width, 20.0);
        }
        _ => panic!("the layout should be imported"),
    }
    assert!(call.expects(&SolveEvent::SolutionImported));
    match call.advance(SolveEvent::SolutionImported) {
        SolveAction::Optimize { groups, listener, warm, .. } => {
            assert_eq!(groups, vec![vec![0, 1], vec![]]);
            assert!(warm);
            match listener {
                SolListener::Progress(p) => assert_eq!(p.item_ids, vec!["a", "b"]),
                SolListener::Dummy => panic!("progress should be reported"),
            }
        }
        _ => panic!("the optimizer should run"),
    }
    assert_eq!(finish(&mut call, vec![]).placed_items.len(), 0);
}

#[test]
fn unknown_item_ends_the_solve() {
    let (mut call, action) = instance(&["a", "b"]).solve(
        config(),
        LIMITS,
        0.0,
        false,
        None,
        Some(layout(&["a", "ghost", "wraith"])),
    );
    assert!(matches!(action, SolveAction::ImportInstance { .. }));
    match call.advance(SolveEvent::InstanceImported) {
        SolveAction::Return(Err(error)) => {
            assert!(matches!(&error, ValueError::UnknownItemId { id } if id == "ghost"));
            assert_eq!(error.message(), "initial_solution references unknown item id 'ghost'");
        }
        _ => panic!("the layout should be refused"),
    }
    assert!(!call.expects(&SolveEvent::SolutionImported));
}

#[test]
fn result_can_be_started_from() {
    let packing = instance(&["a", "b", "c"]);
    let placements = vec![ext_placed(2, 12.5), ext_placed(0, 0.0), ext_placed(2, 270.0)];
    let (mut call, _) = packing.solve(config(), LIMITS, 0.0, false, None, None);
    let _ = call.advance(SolveEvent::InstanceImported);
    let solution = finish(&mut call, placements.clone());
    let (mut again, _) = packing.solve(config(), LIMITS, 0.0, false, None, Some(solution));
    match again.advance(SolveEvent::InstanceImported) {
        SolveAction::ImportSolution { solution } => {
            assert_eq!(solution.layout.placed_items, placements);
            assert_eq!(solution.strip_width, 6.5);
            assert_eq!(solution.density, 0.5);
        }
        _ => panic!("the layout should be imported"),
    }
}

#[test]
fn no_groups_without_asking() {
    assert!(groups_or_default(&None).is_empty());
    let asked = Some(vec![vec![3, 1], vec![2]]);
    assert_eq!(groups_or_default(&asked), vec![vec![3, 1], vec![2]]);
}

#[test]
fn same_request_gives_the_same_result_with_or_without_progress() {
    let packing = instance(&["a", "b"]);
    let mut printed = Vec::new();
    for progress in [false, true] {
        let (mut call, first) = packing.solve(
            config(),
            LIMITS,
            0.0,
            progress,
            Some(vec![vec![1]]),
            Some(layout(&["b", "a"])),
        );
        let second = call.advance(SolveEvent::InstanceImported);
        let (settings, generator, groups, warm) =
            match call.advance(SolveEvent::SolutionImported) {
                SolveAction::Optimize { settings, rng, groups, listener, warm } => {
                    assert_eq!(listener.reports(), progress);
                    (settings, rng, groups, warm)
                }
                _ => panic!("the optimizer should run"),
            };
        let result = finish(&mut call, vec![ext_placed(1, 90.0), ext_placed(0, 0.0)]);
        printed.push(format!(
            "{:?}{:?}{:?}{:?}{:?}{}{:?}",
            first, second, settings, generator, groups, warm, result
        ));
    }
    assert_eq!(printed[0], printed[1]);
}

#[test]
fn reexported_result_comes_back() {
    let packing = instance(&["a", "b"]);
    let (mut call, _) = packing.solve(config(), LIMITS, 0.0, false, None, None);
    let _ = call.advance(SolveEvent::InstanceImported);
    let result = finish(&mut call, vec![ext_placed(1, 90.0), ext_placed(0, 12.25)]);
    let (mut again, _) =
        packing.solve(config(), LIMITS, 0.0, false, None, Some(result.clone()));
    let handed = match again.advance(SolveEvent::InstanceImported) {
        SolveAction::ImportSolution { solution } => solution,
        _ => panic!("the layout should be imported"),
    };
    let _ = again.advance(SolveEvent::SolutionImported);
    match again.advance(SolveEvent::Optimized(handed)) {
        SolveAction::Return(Ok(back)) => {
            assert_eq!(format!("{:?}", back), format!("{:?}", result))
        }
        _ => panic!("the solve should be over"),
    }
}
