use media_core::binary32::Single;
use media_core::color::spaces::ColorSpace;
use media_core::geometry::{Position, Rect};
use media_core::structures::object::{Object, ObjectValues};
use media_core::structures::properties::{Properties, PropertyValue};

fn int_of(value: Option<&PropertyValue>) -> Option<i32> {
    match value {
        Some(PropertyValue::Int(number)) => Some(*number),
        _ => None,
    }
}

#[test]
fn a_value_that_was_set_is_the_value_got() {
    let mut store = Properties::default();
    store.set("gain", PropertyValue::Int(7));
    assert_eq!(int_of(store.get("gain")), Some(7));
    assert!(store.get("Gain").is_none());
    assert!(store.get("").is_none());
}

#[test]
fn every_variant_round_trips() {
    let mut store = Properties::default();
    store.set("unset", PropertyValue::Unset);
    store.set("int", PropertyValue::Int(-3));
    store.set("int64", PropertyValue::Int64(1 << 40));
    store.set("double", PropertyValue::Double(Single::from_bits(1.5f32.to_bits())));
    store.set("string", PropertyValue::String("text".to_string()));
    store.set("position", PropertyValue::Position(Position { x: Single::from_i64(1), y: Single::from_i64(2) }));
    store.set(
        "rect",
        PropertyValue::Rect(Rect {
            top: Single::from_i64(1),
            left: Single::from_i64(2),
            right: Single::from_i64(3),
            bottom: Single::from_i64(4),
        }),
    );
    store.set("buffer", PropertyValue::Buffer(vec![1, 2, 3]));
    store.set("color", PropertyValue::Color(ColorSpace::Bt709));
    assert_eq!(store.len(), 9);
    assert!(matches!(store.get("unset"), Some(PropertyValue::Unset)));
    assert!(matches!(store.get("int"), Some(PropertyValue::Int(-3))));
    assert!(matches!(store.get("int64"), Some(PropertyValue::Int64(1_099_511_627_776))));
    match store.get("double") {
        Some(PropertyValue::Double(value)) => assert_eq!(f32::from_bits(value.to_bits()), 1.5),
        _ => panic!("no double"),
    }
    match store.get("string") {
        Some(PropertyValue::String(text)) => assert_eq!(text, "text"),
        _ => panic!("no string"),
    }
    match store.get("position") {
        Some(PropertyValue::Position(position)) => {
            assert_eq!(f32::from_bits(position.x.to_bits()), 1.0);
            assert_eq!(f32::from_bits(position.y.to_bits()), 2.0);
        }
        _ => panic!("no position"),
    }
    match store.get("rect") {
        Some(PropertyValue::Rect(rect)) => {
            assert_eq!(f32::from_bits(rect.top.to_bits()), 1.0);
            assert_eq!(f32::from_bits(rect.left.to_bits()), 2.0);
            assert_eq!(f32::from_bits(rect.right.to_bits()), 3.0);
            assert_eq!(f32::from_bits(rect.bottom.to_bits()), 4.0);
        }
        _ => panic!("no rect"),
    }
    match store.get("buffer") {
        Some(PropertyValue::Buffer(bytes)) => assert_eq!(bytes, &vec![1u8, 2, 3]),
        _ => panic!("no buffer"),
    }
    assert!(matches!(store.get("color"), Some(PropertyValue::Color(ColorSpace::Bt709))));
}

#[test]
fn the_last_value_set_wins() {
    let mut store = Properties::default();
    store.set("gain", PropertyValue::Int(1));
    store.set("gain", PropertyValue::String("loud".to_string()));
    assert_eq!(store.len(), 1);
    match store.get("gain") {
        Some(PropertyValue::String(text)) => assert_eq!(text, "loud"),
        _ => panic!("the first value is still there"),
    }
}

#[test]
fn set_hands_the_store_back() {
    let mut store = Properties::default();
    let same = store.set("gain", PropertyValue::Int(1));
    assert_eq!(int_of(same.get("gain")), Some(1));
}

#[test]
fn remove_returns_what_was_set_and_leaves_nothing() {
    let mut store = Properties::default();
    store.set("other", PropertyValue::Int(2));
    store.set("gain", PropertyValue::Int(7));
    let removed = store.remove("gain");
    assert!(matches!(removed, Some(PropertyValue::Int(7))));
    assert!(store.get("gain").is_none());
    assert_eq!(int_of(store.get("other")), Some(2));
    assert_eq!(store.len(), 1);
}

#[test]
fn removing_an_absent_key_changes_nothing() {
    let mut store = Properties::default();
    store.set("gain", PropertyValue::Int(7));
    assert!(store.remove("loss").is_none());
    assert_eq!(store.len(), 1);
    assert_eq!(int_of(store.get("gain")), Some(7));
    let mut empty = Properties::default();
    assert!(empty.remove("gain").is_none());
}

#[test]
fn clear_leaves_no_keys() {
    let mut store = Properties::default();
    store.set("a", PropertyValue::Int(1));
    store.set("b", PropertyValue::Int(2));
    store.set("c", PropertyValue::Unset);
    store.clear();
    assert!(store.keys().is_empty());
    assert!(store.values().is_empty());
    assert_eq!(store.len(), 0);
    assert!(store.get("a").is_none());
    let mut empty = Properties::default();
    empty.clear();
    assert!(empty.keys().is_empty());
}

#[test]
fn keys_and_values_list_every_entry_once() {
    let mut store = Properties::default();
    store.set("a", PropertyValue::Int(1));
    store.set("b", PropertyValue::Int(2));
    store.set("a", PropertyValue::Int(3));
    let mut keys: Vec<String> = store.keys().into_iter().map(|key| key.clone()).collect();
    keys.sort();
    assert_eq!(keys, vec!["a".to_string(), "b".to_string()]);
    let mut values: Vec<i32> = store.values().into_iter().map(|value| int_of(Some(value)).unwrap()).collect();
    values.sort();
    assert_eq!(values, vec![2, 3]);
}

#[test]
fn find_returns_an_entry_that_the_predicate_accepts() {
    let mut store = Properties::default();
    store.set("a", PropertyValue::Int(1));
    store.set("b", PropertyValue::Int(20));
    store.set("c", PropertyValue::String("x".to_string()));
    let found = store.find(|entry| matches!(entry.1, PropertyValue::Int(number) if *number > 10));
    match found {
        Some((key, PropertyValue::Int(20))) => assert_eq!(key, "b"),
        _ => panic!("not found"),
    }
    assert!(store.find(|entry| entry.0 == "z").is_none());
    assert!(Properties::default().find(|_| true).is_none());
}

#[test]
fn find_returns_the_first_match_in_the_order_of_the_keys() {
    let mut store = Properties::default();
    store.set("a", PropertyValue::Int(1));
    store.set("b", PropertyValue::Int(2));
    store.set("c", PropertyValue::Int(3));
    let first_key = store.keys()[0].clone();
    let found = store.find(|_| true).unwrap();
    assert_eq!(found.0, &first_key);
}

#[test]
fn filter_returns_the_entries_that_the_predicate_accepts() {
    let mut store = Properties::default();
    store.set("a", PropertyValue::Int(1));
    store.set("b", PropertyValue::Int(2));
    store.set("c", PropertyValue::Int(3));
    store.set("d", PropertyValue::Unset);
    let mut odd: Vec<String> = store
        .filter(|entry| matches!(entry.1, PropertyValue::Int(number) if number % 2 == 1))
        .into_iter()
        .map(|entry| entry.0.clone())
        .collect();
    odd.sort();
    assert_eq!(odd, vec!["a".to_string(), "c".to_string()]);
    assert!(store.filter(|_| false).is_empty());
    assert_eq!(store.filter(|_| true).len(), 4);
    assert_eq!(store.filter(|_| true).len(), 4);
}

#[test]
fn filter_mut_builds_values_and_leaves_the_store() {
    let mut store = Properties::default();
    store.set("a", PropertyValue::Int(1));
    store.set("b", PropertyValue::String("x".to_string()));
    store.set("c", PropertyValue::Int(3));
    let doubled = store.filter_mut(|entry| match entry.1 {
        PropertyValue::Int(number) => Some(PropertyValue::Int64(2 * (*number as i64))),
        _ => None,
    });
    let mut numbers: Vec<i64> = doubled
        .into_iter()
        .map(|value| match value {
            PropertyValue::Int64(number) => number,
            _ => panic!("another variant"),
        })
        .collect();
    numbers.sort();
    assert_eq!(numbers, vec![2, 6]);
    assert_eq!(int_of(store.get("a")), Some(1));
    assert_eq!(store.len(), 3);
}

#[test]
fn values_mut_changes_values_and_keeps_keys() {
    let mut store = Properties::default();
    store.set("a", PropertyValue::Int(1));
    store.set("b", PropertyValue::String("x".to_string()));
    store.set("c", PropertyValue::Int(3));
    let keys_before: Vec<String> = store.keys().into_iter().map(|key| key.clone()).collect();
    store.values_mut(|value| match value {
        PropertyValue::Int(number) => PropertyValue::Int(number + 10),
        other => other,
    });
    let keys_after: Vec<String> = store.keys().into_iter().map(|key| key.clone()).collect();
    assert_eq!(keys_before, keys_after);
    assert_eq!(int_of(store.get("a")), Some(11));
    assert_eq!(int_of(store.get("c")), Some(13));
    match store.get("b") {
        Some(PropertyValue::String(text)) => assert_eq!(text, "x"),
        _ => panic!("the string changed"),
    }
}

#[test]
fn a_copy_of_a_value_holds_the_same() {
    let value = PropertyValue::Buffer(vec![9, 8, 7]);
    match value.clone() {
        PropertyValue::Buffer(bytes) => assert_eq!(bytes, vec![9, 8, 7]),
        _ => panic!("another variant"),
    }
    assert!(matches!(PropertyValue::default(), PropertyValue::Unset));
    assert!(matches!(PropertyValue::String("s".to_string()).clone(), PropertyValue::String(text) if text == "s"));
}

#[test]
fn keys_with_characters_of_several_bytes_are_told_apart() {
    let mut store = Properties::default();
    store.set("é", PropertyValue::Int(1));
    store.set("e", PropertyValue::Int(2));
    store.set("日本", PropertyValue::Int(3));
    assert_eq!(int_of(store.get("é")), Some(1));
    assert_eq!(int_of(store.get("e")), Some(2));
    assert_eq!(int_of(store.get("日本")), Some(3));
    assert!(store.get("日").is_none());
}

#[test]
fn an_object_is_a_store_of_the_same_kind() {
    let mut object = Object::default();
    object.set("gain", ObjectValues::Int(7));
    assert!(matches!(object.get("gain"), Some(ObjectValues::Int(7))));
    assert!(matches!(object.remove("gain"), Some(ObjectValues::Int(7))));
    assert!(object.get("gain").is_none());
}
