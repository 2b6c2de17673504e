use spyrrow::error::not_unique_message;
use spyrrow::instance::{all_unique, ExtShape};
use spyrrow::text::append_decimal;
use spyrrow::{Item, StripPackingInstance, ValueError};

fn square(id: &str, demand: u64, orientations: Option<Vec<f32>>) -> Item<f32> {
    Item::new(
        id.to_string(),
        vec![(0.0, 0.0), (1.0, 0.0), (1.0, 1.5), (0.0, 1.5)],
        demand,
        orientations,
    )
}

#[test]
fn repeated_string_is_found() {
    assert!(!all_unique(&["a", "b", "a"]));
    assert!(!all_unique(&["", ""]));
    assert!(all_unique(&["a", "b", "c"]));
    assert!(all_unique(&["a", "A"]));
    assert!(all_unique(&[]));
}

#[test]
fn numerals_have_no_leading_zeros() {
    let cases = [
        (0u64, "0"),
        (7, "7"),
        (10, "10"),
        (1234567890, "1234567890"),
        (u64::MAX, "18446744073709551615"),
    ];
    for (n, expected) in cases {
        let mut out = String::from("n=");
        append_decimal(&mut out, n);
        assert_eq!(out, format!("n={}", expected));
    }
}

#[test]
fn item_prints_its_orientations_where_it_has_them() {
    let item = square("a", 20, Some(vec![0.0, 90.5]));
    let shape = format!("{:?}", item.shape);
    let angles = format!("{:?}", vec![0.0f32, 90.5]);
    assert_eq!(
        item.repr(&shape, &angles),
        "Item(id=a,shape=[(0.0, 0.0), (1.0, 0.0), (1.0, 1.5), (0.0, 1.5)], demand=20, allowed_orientations=[0.0, 90.5])"
    );
    let free = square("b", 3, None);
    assert_eq!(
        free.repr(&shape, "unused"),
        "Item(id=b,shape=[(0.0, 0.0), (1.0, 0.0), (1.0, 1.5), (0.0, 1.5)], demand=3)"
    );
}

#[test]
fn copies_of_items_are_equal_and_separate() {
    let mut item = square("a", 2, Some(vec![0.0, 180.0]));
    let copy = item.clone();
    item.shape.push((9.0, 9.0));
    item.id.push('x');
    assert_eq!(copy.id, "a");
    assert_eq!(copy.demand, 2);
    assert_eq!(copy.allowed_orientations, Some(vec![0.0, 180.0]));
    assert_eq!(copy.shape.len(), 4);
}

#[test]
fn instance_with_unique_ids_is_made() {
    let instance = StripPackingInstance::new(
        "test".to_string(),
        5.0f32,
        vec![square("a", 1, None), square("b", 2, None)],
    )
    .unwrap();
    assert_eq!(instance.name, "test");
    assert_eq!(instance.strip_height, 5.0);
    assert_eq!(instance.items.len(), 2);
    let copy = instance.clone();
    assert_eq!(copy.items[1].id, "b");
    assert_eq!(copy.items[1].demand, 2);
    assert_eq!(copy.name, "test");
}

#[test]
fn instance_with_a_repeated_id_is_refused() {
    let error = StripPackingInstance::new(
        String::new(),
        5.0f32,
        vec![square("a", 1, None), square("b\n", 2, None), square("a", 2, None)],
    )
    .err()
    .unwrap();
    match &error {
        ValueError::ItemIdsNotUnique { ids } => assert_eq!(ids, &["a", "b\n", "a"]),
        _ => panic!("wrong error"),
    }
    assert_eq!(
        error.message(),
        "The item ids are not uniques: [\n    \"a\",\n    \"b\\n\",\n    \"a\",\n]"
    );
    assert_eq!(not_unique_message("[]"), "The item ids are not uniques: []");
}

#[test]
fn engine_gets_items_by_index() {
    let instance = StripPackingInstance::new(
        "test".to_string(),
        5.0f32,
        vec![square("x", 4, None), square("y", 2, Some(vec![])), square("z", 1, Some(vec![45.0]))],
    )
    .unwrap();
    let ext = instance.to_ext();
    assert_eq!(ext.name, "test");
    assert_eq!(ext.strip_height, 5.0);
    assert_eq!(ext.items.len(), 3);
    for (i, item) in ext.items.iter().enumerate() {
        assert_eq!(item.base.id, i as u64);
        assert_eq!(item.base.min_quality, None);
        let ExtShape::SimplePolygon(corners) = &item.base.shape;
        assert_eq!(corners, &vec![(0.0, 0.0), (1.0, 0.0), (1.0, 1.5), (0.0, 1.5)]);
    }
    assert_eq!(ext.items[0].demand, 4);
    assert_eq!(ext.items[1].demand, 2);
    assert_eq!(ext.items[2].demand, 1);
    assert_eq!(ext.items[0].base.allowed_orientations, None);
    assert_eq!(ext.items[1].base.allowed_orientations, Some(vec![]));
    assert_eq!(ext.items[2].base.allowed_orientations, Some(vec![45.0]));
}
