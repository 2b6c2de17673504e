use spyrrow::layout::{
    build_initial_solution, indices_in_range, name_items, ExtLayout, ExtPlacedItem, ExtSPSolution,
    ExtTransformation,
};
use spyrrow::{PlacedItem, StripPackingSolution, ValueError};

fn ids(list: &[&str]) -> Vec<String> {
    list.iter().map(|s| s.to_string()).collect()
}

fn placed(id: &str, rotation: f32, translation: (f32, f32)) -> PlacedItem<f32> {
    PlacedItem { id: id.to_string(), rotation, translation }
}

fn ext_placed(item_id: u64, rotation: f32, translation: (f32, f32)) -> ExtPlacedItem<f32> {
    ExtPlacedItem { item_id, transformation: ExtTransformation { rotation, translation } }
}

fn exported(placed_items: Vec<ExtPlacedItem<f32>>) -> ExtSPSolution<f32> {
    ExtSPSolution {
        strip_width: 12.5,
        layout: ExtLayout { container_id: 3, placed_items, density: 0.75 },
        density: 0.75,
        run_time_sec: 17,
    }
}

#[test]
fn layout_to_start_from_goes_by_index() {
    let sol = StripPackingSolution {
        width: 8.0,
        density: 0.5,
        placed_items: vec![placed("b", 90.0, (1.0, 2.0)), placed("a", 0.0, (3.0, 4.0))],
    };
    let ext = build_initial_solution(&sol, &ids(&["a", "b", "c"])).unwrap();
    assert_eq!(ext.strip_width, 8.0);
    assert_eq!(ext.density, 0.5);
    assert_eq!(ext.run_time_sec, 0);
    assert_eq!(ext.layout.container_id, 0);
    assert_eq!(ext.layout.density, 0.5);
    assert_eq!(
        ext.layout.placed_items,
        vec![ext_placed(1, 90.0, (1.0, 2.0)), ext_placed(0, 0.0, (3.0, 4.0))]
    );
}

#[test]
fn first_unknown_id_is_reported() {
    let sol = StripPackingSolution {
        width: 8.0,
        density: 0.5,
        placed_items: vec![
            placed("a", 0.0, (1.0, 2.0)),
            placed("ghost", 0.0, (3.0, 4.0)),
            placed("spectre", 0.0, (3.0, 4.0)),
        ],
    };
    let error = build_initial_solution(&sol, &ids(&["a", "b"])).err().unwrap();
    assert!(matches!(&error, ValueError::UnknownItemId { id } if id == "ghost"));
    assert_eq!(error.message(), "initial_solution references unknown item id 'ghost'");
}

#[test]
fn repeated_id_stands_for_its_last_item() {
    let sol = StripPackingSolution {
        width: 8.0,
        density: 0.5,
        placed_items: vec![placed("a", 0.0, (1.0, 2.0))],
    };
    let ext = build_initial_solution(&sol, &ids(&["a", "a", "b"])).unwrap();
    assert_eq!(ext.layout.placed_items[0].item_id, 1);
}

#[test]
fn nothing_placed_needs_no_items() {
    let sol = StripPackingSolution { width: 0.0, density: 0.0, placed_items: vec![] };
    let ext = build_initial_solution(&sol, &[]).unwrap();
    assert!(ext.layout.placed_items.is_empty());
}

#[test]
fn exported_layout_names_its_items() {
    let ext = exported(vec![
        ext_placed(2, 30.0, (1.0, 2.0)),
        ext_placed(0, 0.0, (3.0, 4.0)),
        ext_placed(2, -30.0, (5.0, 6.0)),
    ]);
    let sol = name_items(&ext, &ids(&["a", "b", "c"]));
    assert_eq!(sol.width, 12.5);
    assert_eq!(sol.density, 0.75);
    let got: Vec<(&str, f32, (f32, f32))> =
        sol.placed_items.iter().map(|p| (p.id.as_str(), p.rotation, p.translation)).collect();
    assert_eq!(
        got,
        vec![("c", 30.0, (1.0, 2.0)), ("a", 0.0, (3.0, 4.0)), ("c", -30.0, (5.0, 6.0))]
    );
}

#[test]
fn range_of_indices_is_checked() {
    let ext = exported(vec![ext_placed(0, 0.0, (0.0, 0.0)), ext_placed(2, 0.0, (0.0, 0.0))]);
    assert!(indices_in_range(&ext, 3));
    assert!(!indices_in_range(&ext, 2));
    assert!(!indices_in_range(&ext, 0));
    assert!(indices_in_range(&exported(vec![]), 0));
}

#[test]
fn exported_layout_round_trips() {
    let items = ids(&["a", "b", "c"]);
    let placements = vec![
        ext_placed(2, 33.333, (0.1, 0.2)),
        ext_placed(1, 180.0, (-3.0, 4.5)),
        ext_placed(2, 0.0, (7.0, 1e-9)),
    ];
    let ext = exported(placements.clone());
    let back = build_initial_solution(&name_items(&ext, &items), &items).unwrap();
    assert_eq!(back.layout.placed_items, placements);
    assert_eq!(back.strip_width, ext.strip_width);
    assert_eq!(back.density, ext.density);
    assert_eq!(back.layout.density, ext.density);
}

#[test]
fn start_layout_round_trips() {
    let items = ids(&["a", "a", "b"]);
    let sol = StripPackingSolution {
        width: 8.0,
        density: 0.5,
        placed_items: vec![placed("b", 90.0, (1.0, 2.0)), placed("a", 0.25, (3.0, 4.0))],
    };
    let back = name_items(&build_initial_solution(&sol, &items).unwrap(), &items);
    assert_eq!(back.width, sol.width);
    assert_eq!(back.density, sol.density);
    assert_eq!(back.placed_items.len(), 2);
    for (p, q) in back.placed_items.iter().zip(sol.placed_items.iter()) {
        assert_eq!(p.id, q.id);
        assert_eq!(p.rotation, q.rotation);
        assert_eq!(p.translation, q.translation);
    }
}

#[test]
fn copies_of_layouts_are_equal_and_separate() {
    let mut sol = StripPackingSolution {
        width: 8.0,
        density: 0.5,
        placed_items: vec![placed("b", 90.0, (1.0, 2.0))],
    };
    let copy = sol.clone();
    sol.placed_items[0].id.push('x');
    assert_eq!(copy.width, 8.0);
    assert_eq!(copy.density, 0.5);
    assert_eq!(copy.placed_items.len(), 1);
    assert_eq!(copy.placed_items[0].id, "b");
    assert_eq!(copy.placed_items[0].rotation, 90.0);
    assert_eq!(copy.placed_items[0].translation, (1.0, 2.0));
}
