use serde_json::Value;
use zkstate::change::{changes_between, changes_of, DiffCall};
use zkstate::{Change, Key};

fn json(text: &str) -> Value {
    serde_json::from_str(text).unwrap()
}

fn key(name: &str) -> Key {
    Key::String(name.to_string())
}

#[test]
fn an_added_element_is_reported_with_its_index() {
    let a = json(r#"["systemd*", "rsync*"]"#);
    let b = json(r#"["systemd*", "rsync*", "firefox*"]"#);
    assert_eq!(
        changes_between(&a, &b),
        vec![Change::Added(vec![Key::Index(2)], json(r#""firefox*""#))]
    );
}

#[test]
fn a_removed_field_is_reported_with_its_name_and_value() {
    let a = json(r#"{"a": 1, "b": {"c": true}}"#);
    let b = json(r#"{"a": 1, "b": {}}"#);
    assert_eq!(
        changes_between(&a, &b),
        vec![Change::Removed(vec![key("b"), key("c")], json("true"))]
    );
}

#[test]
fn a_modified_field_is_reported_with_the_old_and_the_new_value() {
    let a = json(r#"{"my_field": "yoyo", "other": 1}"#);
    let b = json(r#"{"my_field": "hello world again", "other": 1}"#);
    assert_eq!(
        changes_between(&a, &b),
        vec![Change::Modified(
            vec![key("my_field")],
            json(r#""yoyo""#),
            json(r#""hello world again""#)
        )]
    );
}

#[test]
fn a_modified_scalar_has_an_empty_way_to_it() {
    assert_eq!(
        changes_between(&json("1"), &json("2")),
        vec![Change::Modified(vec![], json("1"), json("2"))]
    );
}

#[test]
fn equal_values_have_no_changes() {
    for text in ["null", "7", "[]", "{}", r#"{"a": [1, {"b": 2}]}"#] {
        assert_eq!(changes_between(&json(text), &json(text)), vec![]);
    }
}

#[test]
fn several_changes_come_in_the_order_of_the_comparison() {
    let a = json(r#"{"a": 1, "gone": 2, "same": 3}"#);
    let b = json(r#"{"a": 10, "new": 4, "same": 3}"#);
    assert_eq!(
        changes_between(&a, &b),
        vec![
            Change::Modified(vec![key("a")], json("1"), json("10")),
            Change::Added(vec![key("new")], json("4")),
            Change::Removed(vec![key("gone")], json("2")),
        ]
    );
}

#[test]
fn findings_become_changes_one_for_one_but_for_unchanged() {
    let calls = vec![
        DiffCall::Unchanged(vec![1], 'a'),
        DiffCall::Removed(vec![2], 'b'),
        DiffCall::Modified(vec![], 'c', 'd'),
        DiffCall::Unchanged(vec![], 'e'),
        DiffCall::Added(vec![3, 4], 'f'),
    ];
    assert_eq!(
        changes_of(calls),
        vec![
            Change::Removed(vec![2], 'b'),
            Change::Modified(vec![], 'c', 'd'),
            Change::Added(vec![3, 4], 'f'),
        ]
    );
}

#[test]
fn no_findings_are_no_changes() {
    assert_eq!(changes_of(Vec::<DiffCall<u8, u8>>::new()), vec![]);
    assert_eq!(changes_of(vec![DiffCall::Unchanged(vec![1], 2)]), vec![]);
}

#[test]
fn changes_compare_by_kind_place_and_value() {
    assert_eq!(Change::<u8, u8>::Unchanged(), Change::Unchanged());
    assert_ne!(Change::Added(vec![1], 2), Change::Removed(vec![1], 2));
    assert_ne!(Change::Added(vec![1], 2), Change::Added(vec![1], 3));
    assert_ne!(Change::Added(vec![1], 2), Change::Unchanged());
}

#[test]
fn comparing_the_other_way_round_exchanges_the_changes() {
    let a = json(r#"{"gone":1,"list":[1,2],"kept":true,"zero":0.0}"#);
    let b = json(r#"{"new":{"x":null},"list":[1],"kept":true,"zero":-0.0}"#);
    let there = changes_between(&a, &b);
    let mut back: Vec<_> = changes_between(&b, &a)
        .into_iter()
        .map(|change| match change {
            Change::Added(k, v) => Change::Removed(k, v),
            Change::Removed(k, v) => Change::Added(k, v),
            Change::Modified(k, v, w) => Change::Modified(k, w, v),
            Change::Unchanged() => Change::Unchanged(),
        })
        .collect();
    assert_eq!(there.len(), 3);
    for change in there {
        let i = back.iter().position(|other| *other == change).unwrap();
        back.remove(i);
    }
    assert!(back.is_empty());
}
