use gazebo::coerce::coerce;
use gazebo::coerce::Coerce;
use gazebo::coerce::CoerceKey;
use std::collections::HashMap;
use std::collections::HashSet;

#[derive(Debug, PartialEq, Eq, Hash, Clone)]
struct Wrapper(String);

impl Coerce<String> for Wrapper {
    fn coerce_into(self) -> String {
        self.0
    }
}

impl CoerceKey<String> for Wrapper {}

struct Container<T>(i32, T);

impl<From, To> Coerce<Container<To>> for Container<From>
where
    From: Coerce<To>,
{
    fn coerce_into(self) -> Container<To> {
        Container(self.0, self.1.coerce_into())
    }
}

fn wrap(s: &str) -> Wrapper {
    Wrapper(s.to_owned())
}

#[test]
fn wrapper_sequence_becomes_string_sequence() {
    let value = vec![wrap("a"), wrap("b")];
    let mut value = coerce::<_, Vec<String>>(value);
    assert_eq!(value.pop(), Some("b".to_owned()));
    assert_eq!(value.len(), 1);
    assert_eq!(value, vec!["a".to_owned()]);
}

#[test]
fn coerced_sequence_joins_as_strings() {
    let value = vec![wrap("hello"), wrap("world")];
    let value = coerce::<_, Vec<String>>(value);
    assert_eq!(value.join(" "), "hello world");
}

#[test]
fn sequence_keeps_order_and_count() {
    let names = ["zero", "one", "two", "three", "four", "five", "six"];
    let value: Vec<Wrapper> = names.iter().map(|s| wrap(s)).collect();
    let value = coerce::<_, Vec<String>>(value);
    assert_eq!(value.len(), names.len());
    for (i, name) in names.iter().enumerate() {
        assert_eq!(&value[i], name);
    }
}

#[test]
fn empty_sequence_stays_empty() {
    let value: Vec<Wrapper> = Vec::new();
    let value = coerce::<_, Vec<String>>(value);
    assert!(value.is_empty());
}

#[test]
fn single_value_reads_the_same() {
    assert_eq!(coerce::<_, String>(wrap("twenty")), "twenty");
    assert_eq!(coerce::<String, String>("same".to_owned()), "same");
}

#[test]
fn box_coerces_by_content() {
    let value = Box::new(wrap("boxed"));
    let value = coerce::<_, Box<String>>(value);
    assert_eq!(*value, "boxed");
}

#[test]
fn pair_coerces_by_component() {
    let value = (wrap("left"), "right".to_owned());
    let value = coerce::<_, (String, String)>(value);
    assert_eq!(value, ("left".to_owned(), "right".to_owned()));
}

#[test]
fn rules_compose() {
    let value = vec![(Box::new(wrap("a")), vec![wrap("b"), wrap("c")])];
    let value = coerce::<_, Vec<(Box<String>, Vec<String>)>>(value);
    assert_eq!(value.len(), 1);
    assert_eq!(*value[0].0, "a");
    assert_eq!(value[0].1, vec!["b".to_owned(), "c".to_owned()]);
}

#[test]
fn own_container_rule() {
    let value = Container(20, wrap("twenty"));
    let value = coerce::<_, Container<String>>(value);
    assert_eq!(value.0, 20);
    assert_eq!(value.1, "twenty");
}

fn as_key<From: CoerceKey<To>, To>(x: From) -> To {
    coerce(x)
}

#[test]
fn key_rules_follow_the_plain_rules() {
    assert_eq!(as_key::<_, String>(wrap("k")), "k");
    assert_eq!(as_key::<_, Vec<String>>(vec![wrap("k")]), vec!["k".to_owned()]);
    assert_eq!(*as_key::<_, Box<String>>(Box::new(wrap("k"))), "k");
    assert_eq!(
        as_key::<_, (String, String)>((wrap("k"), "v".to_owned())),
        ("k".to_owned(), "v".to_owned())
    );
}

#[test]
fn set_coerces_by_item() {
    let mut value = HashSet::new();
    value.insert(wrap("a"));
    value.insert(wrap("b"));
    value.insert(wrap("c"));
    let value = coerce::<_, HashSet<String>>(value);
    assert_eq!(value.len(), 3);
    assert!(value.contains("a"));
    assert!(value.contains("b"));
    assert!(value.contains("c"));
    assert!(!value.contains("d"));
}

#[test]
fn empty_set_stays_empty() {
    let value: HashSet<Wrapper> = HashSet::new();
    let value = coerce::<_, HashSet<String>>(value);
    assert!(value.is_empty());
}

#[test]
fn map_coerces_keys_and_values() {
    let mut value = HashMap::new();
    value.insert(wrap("one"), wrap("1"));
    value.insert(wrap("two"), wrap("2"));
    let value = coerce::<_, HashMap<String, String>>(value);
    assert_eq!(value.len(), 2);
    assert_eq!(value.get("one"), Some(&"1".to_owned()));
    assert_eq!(value.get("two"), Some(&"2".to_owned()));
    assert_eq!(value.get("three"), None);
}

#[test]
fn map_values_need_no_key_rule() {
    let mut value = HashMap::new();
    value.insert("k".to_owned(), vec![Container(1, wrap("v"))]);
    let value = coerce::<_, HashMap<String, Vec<Container<String>>>>(value);
    let items = &value["k"];
    assert_eq!(items.len(), 1);
    assert_eq!(items[0].0, 1);
    assert_eq!(items[0].1, "v");
}

#[test]
fn primitives_coerce_to_themselves() {
    assert_eq!(coerce::<u8, u8>(200), 200);
    assert_eq!(coerce::<i64, i64>(-5), -5);
    assert_eq!(coerce::<u128, u128>(u128::MAX), u128::MAX);
    assert_eq!(coerce::<usize, usize>(7), 7);
    assert_eq!(coerce::<bool, bool>(true), true);
    assert_eq!(coerce::<char, char>('x'), 'x');
    assert_eq!(coerce::<_, Vec<i32>>(vec![3, 1, 2]), vec![3, 1, 2]);
    assert_eq!(as_key::<_, (u8, i16)>((1u8, -1i16)), (1, -1));
}

#[test]
fn wrapper_keyed_map_of_primitive_values() {
    let mut value = HashMap::new();
    value.insert(wrap("a"), 1u32);
    value.insert(wrap("b"), 2u32);
    let value = coerce::<_, HashMap<String, u32>>(value);
    assert_eq!(value.get("a"), Some(&1));
    assert_eq!(value.get("b"), Some(&2));
    assert_eq!(value.len(), 2);
}
