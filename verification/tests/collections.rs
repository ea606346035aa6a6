use std::collections::HashMap;

use whosinbot::util::collections::{CollectionTools, Walk};

#[test]
fn test_first_with_empty_vec() {
    let input = Vec::<i32>::new();
    let actual = input.take_first();
    assert_eq!(None, actual);
}

#[test]
fn test_first_with_non_empty_vec() {
    let input = vec!["first", "second"];
    let expected = Some("first");
    let actual = input.take_first();

    assert_eq!(expected, actual);
}

#[test]
fn test_into_groups_by_with_empty_vec() {
    let input = Vec::<i32>::new();
    let expected = HashMap::<bool, Vec<i32>>::new();
    let actual = input.into_groups_by(|i| i % 2 == 0);
    assert_eq!(expected, actual);
}

#[test]
fn test_into_groups_by_with_non_empty_vec_1() {
    let input = vec![1, 2, 3, 4, 5, 6, 7, 8];

    let mut expected = HashMap::new();
    expected.insert(0, vec![3, 6]);
    expected.insert(1, vec![1, 4, 7]);
    expected.insert(2, vec![2, 5, 8]);

    let actual = input.into_groups_by(|&i| i % 3);
    assert_eq!(expected, actual);
}

#[test]
fn test_into_groups_by_with_non_empty_vec_2() {
    let input = vec!["hello", "wonderful", "world"];

    let mut expected = HashMap::new();
    expected.insert("length: 5".to_owned(), vec!["hello", "world"]);
    expected.insert("length: 9".to_owned(), vec!["wonderful"]);

    let actual = input.into_groups_by(|i| format!("length: {}", i.len()));
    assert_eq!(expected, actual);
}

#[test]
fn test_map_values_with_empty_input() {
    let input = HashMap::<i32, &str>::new();
    let expected = HashMap::<i32, String>::new();
    let actual = input.map_values(|v| format!("v:{}", v));

    assert_eq!(expected, actual);
}

#[test]
fn test_map_values_with_non_empty_input() {
    let mut input = HashMap::new();
    input.insert(1, "one");
    input.insert(2, "two");

    let mut expected = HashMap::new();
    expected.insert(1, "en:one".to_owned());
    expected.insert(2, "en:two".to_owned());

    let actual = input.map_values(|v| format!("en:{}", v));

    assert_eq!(expected, actual);
}

#[test]
fn groups_keep_the_order_of_the_items() {
    let input = vec![(2, 'a'), (1, 'b'), (2, 'c'), (2, 'd'), (1, 'e')];
    let actual = input.into_groups_by(|pair| pair.0);
    let mut expected = HashMap::new();
    expected.insert(1, vec![(1, 'b'), (1, 'e')]);
    expected.insert(2, vec![(2, 'a'), (2, 'c'), (2, 'd')]);
    assert_eq!(expected, actual);
}

#[test]
fn map_values_of_pairs_takes_the_last_of_a_key() {
    let input = vec![(1, 10), (2, 20), (1, 30)];
    let actual = input.map_values(|v| v + 1);
    let mut expected = HashMap::new();
    expected.insert(1, 31);
    expected.insert(2, 21);
    assert_eq!(expected, actual);
}

#[test]
fn walk_through_a_map_gives_each_entry_once() {
    let mut input = HashMap::new();
    input.insert(1, "one");
    input.insert(2, "two");
    input.insert(3, "three");
    let mut items = input.clone().into_items();
    items.sort();
    assert_eq!(vec![(1, "one"), (2, "two"), (3, "three")], items);
    let first = input.clone().take_first().unwrap();
    assert_eq!(Some(&first.1), input.get(&first.0));
    assert_eq!(None, HashMap::<i32, i32>::new().take_first());
    let groups = input.into_groups_by(|pair| pair.1.len());
    assert_eq!(vec![(3, "three")], groups[&5]);
    assert_eq!(2, groups[&3].len());
}
