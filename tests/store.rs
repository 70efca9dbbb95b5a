use byte_store::store::Store;
use bytes::Bytes;

const KEYS: [&str; 5] = ["hello1", "hello2", "hello3", "hello4", "hello5"];
const VALS: [&str; 5] = ["world1", "world2", "world3", "world4", "world5"];

fn init_store() -> Store {
    let store = Store::new();
    for (k, v) in KEYS.iter().zip(VALS.iter()) {
        store.set(Bytes::from(*k), Bytes::from(*v));
    }
    store
}

#[test]
fn get_and_set() {
    let store = init_store();

    let results = KEYS.map(|k| store.get(Bytes::from(k)).unwrap());
    let expected =
        [49, 50, 51, 52, 53].map(|n: u8| Bytes::from(vec![119, 111, 114, 108, 100, n]));

    assert_eq!(results, expected);
}

#[test]
fn remove() {
    let store = init_store();

    store.remove(Bytes::from("hello5"));
    store.remove(Bytes::from("hello1"));
    store.remove(Bytes::from("hello4"));

    let results: Vec<Bytes> = KEYS[1..3]
        .iter()
        .map(|k| store.get(Bytes::from(*k)).unwrap())
        .collect();
    let expected = [50, 51].map(|n: u8| Bytes::from(vec![119, 111, 114, 108, 100, n]));

    assert_eq!(results, expected);
}

#[test]
fn set_then_get_one_key() {
    let store = Store::new();
    store.set(Bytes::from("hello1"), Bytes::from("world1"));
    assert_eq!(store.get(Bytes::from("hello1")), Some(Bytes::from("world1")));
}

#[test]
fn populated_store_answers_each_key() {
    let store = init_store();
    assert_eq!(store.get(Bytes::from("hello3")), Some(Bytes::from("world3")));
}

#[test]
fn removed_keys_are_absent_and_others_stay() {
    let store = init_store();
    store.remove(Bytes::from("hello5"));
    store.remove(Bytes::from("hello1"));
    store.remove(Bytes::from("hello4"));
    assert_eq!(store.get(Bytes::from("hello2")), Some(Bytes::from("world2")));
    assert_eq!(store.get(Bytes::from("hello3")), Some(Bytes::from("world3")));
    assert_eq!(store.get(Bytes::from("hello1")), None);
    assert_eq!(store.get(Bytes::from("hello4")), None);
    assert_eq!(store.get(Bytes::from("hello5")), None);
}

#[test]
fn missing_key_on_empty_store_is_absent() {
    let store = Store::new();
    assert_eq!(store.get(Bytes::from("missing")), None);
}

#[test]
fn second_set_overwrites_first() {
    let store = Store::new();
    store.set(Bytes::from("k"), Bytes::from("v1"));
    store.set(Bytes::from("k"), Bytes::from("v2"));
    assert_eq!(store.get(Bytes::from("k")), Some(Bytes::from("v2")));
}

#[test]
fn remove_then_get_is_absent() {
    let store = Store::new();
    store.set(Bytes::from("a"), Bytes::from("1"));
    store.remove(Bytes::from("a"));
    assert_eq!(store.get(Bytes::from("a")), None);
}

#[test]
fn remove_of_absent_key_keeps_others() {
    let store = init_store();
    store.remove(Bytes::from("nothing here"));
    for (k, v) in KEYS.iter().zip(VALS.iter()) {
        assert_eq!(store.get(Bytes::from(*k)), Some(Bytes::from(*v)));
    }
}

#[test]
fn empty_key_and_empty_value() {
    let store = Store::new();
    store.set(Bytes::new(), Bytes::from("for the empty key"));
    store.set(Bytes::from("empty value"), Bytes::new());
    assert_eq!(store.get(Bytes::new()), Some(Bytes::from("for the empty key")));
    assert_eq!(store.get(Bytes::from("empty value")), Some(Bytes::new()));
    store.remove(Bytes::new());
    assert_eq!(store.get(Bytes::new()), None);
    assert_eq!(store.get(Bytes::from("empty value")), Some(Bytes::new()));
}

#[test]
fn keys_that_share_a_prefix_stay_apart() {
    let store = Store::new();
    store.set(Bytes::from("ab"), Bytes::from("1"));
    store.set(Bytes::from("abc"), Bytes::from("2"));
    store.set(Bytes::from("a"), Bytes::from("3"));
    assert_eq!(store.get(Bytes::from("ab")), Some(Bytes::from("1")));
    assert_eq!(store.get(Bytes::from("abc")), Some(Bytes::from("2")));
    assert_eq!(store.get(Bytes::from("a")), Some(Bytes::from("3")));
    assert_eq!(store.get(Bytes::from("b")), None);
}

#[test]
fn binary_keys_are_opaque() {
    let store = Store::new();
    store.set(Bytes::from(vec![0u8, 255, 10]), Bytes::from(vec![1u8, 2, 3]));
    assert_eq!(store.get(Bytes::from(vec![0u8, 255, 10])), Some(Bytes::from(vec![1u8, 2, 3])));
    assert_eq!(store.get(Bytes::from(vec![0u8, 255])), None);
}

#[test]
fn clones_share_the_records() {
    let store = Store::new();
    let other = store.clone();
    other.set(Bytes::from("shared"), Bytes::from("yes"));
    assert_eq!(store.get(Bytes::from("shared")), Some(Bytes::from("yes")));
    store.remove(Bytes::from("shared"));
    assert_eq!(other.get(Bytes::from("shared")), None);
}
