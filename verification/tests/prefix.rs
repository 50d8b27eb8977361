use cuttlestore::backends::in_memory::InMemoryBackend;
use cuttlestore::{Cuttlestore, CuttlestoreBuilder};

#[test]
fn prefix_test_in_memory() {
    let mut connection = CuttlestoreBuilder::new("in-memory")
        .prefix("foo")
        .finish_connection::<InMemoryBackend>()
        .unwrap();

    let store_str: Cuttlestore = connection.make("str");
    let store_int: Cuttlestore = connection.make("int");

    let baz = bincode::serialize(&"baz".to_string()).unwrap();
    let thirty_two = bincode::serialize(&32i64).unwrap();
    store_str.put(&mut connection, "bar", &baz).unwrap();
    store_int.put(&mut connection, "bar", &thirty_two).unwrap();

    let found = store_str.get(&mut connection, "bar").unwrap().unwrap();
    assert_eq!(bincode::deserialize::<String>(&found).unwrap(), "baz");
    let found = store_int.get(&mut connection, "bar").unwrap().unwrap();
    assert_eq!(bincode::deserialize::<i64>(&found).unwrap(), 32);

    let pairs = store_str.scan(&mut connection).unwrap();
    let pairs: Vec<(String, String)> = pairs
        .into_iter()
        .map(|(key, value)| (key, bincode::deserialize::<String>(&value).unwrap()))
        .collect();

    assert_eq!(pairs.len(), 1);
    assert_eq!(
        pairs.get(0).unwrap(),
        &("bar".to_string(), "baz".to_string())
    );
}

#[test]
fn keys_are_stored_under_the_prefix() {
    let mut connection = CuttlestoreBuilder::new("in-memory")
        .prefix("foo")
        .finish_connection::<InMemoryBackend>()
        .unwrap();
    let store = connection.make("str");
    assert_eq!(store.key("bar"), "foo:str:bar");
    assert_eq!(store.key(""), "foo:str:");
    assert_eq!(store.strip_prefix("foo:str:bar".to_string()), Some("bar".to_string()));
    assert_eq!(store.strip_prefix("foo:str:".to_string()), Some(String::new()));
    assert_eq!(store.strip_prefix("foo:str".to_string()), None);
    assert_eq!(store.strip_prefix("foo:int:bar".to_string()), None);
    assert_eq!(store.strip_prefix("bar".to_string()), None);
    assert_eq!(store.strip_prefix("foo:strbar".to_string()), None);

    // The store without a prefix sees the key as the backend holds it.
    let (_, plain) = Cuttlestore::new::<InMemoryBackend>("in-memory").unwrap();
    store.put(&mut connection, "bar", b"1").unwrap();
    assert_eq!(plain.key("bar"), "bar");
    assert_eq!(plain.strip_prefix("foo:str:bar".to_string()), Some("foo:str:bar".to_string()));
    assert_eq!(
        plain.scan(&mut connection).unwrap(),
        vec![("foo:str:bar".to_string(), b"1".to_vec())]
    );
}

#[test]
fn a_connection_without_prefix_makes_stores_with_a_leading_colon() {
    let connection = CuttlestoreBuilder::new("in-memory")
        .finish_connection::<InMemoryBackend>()
        .unwrap();
    assert_eq!(connection.make("str").key("bar"), ":str:bar");
}

#[test]
fn finish_gives_a_store_under_the_prefix_of_the_builder() {
    let (mut connection, store) = CuttlestoreBuilder::new("in-memory")
        .prefix("foo")
        .finish::<InMemoryBackend>()
        .unwrap();
    assert_eq!(store.key("bar"), "foo:bar");
    assert_eq!(connection.make("a").key("bar"), "foo:a:bar");
    store.put(&mut connection, "bar", b"1").unwrap();
    assert_eq!(store.get(&mut connection, "bar").unwrap(), Some(b"1".to_vec()));

    // The backend holds the key with the prefix, and the store lists it
    // without.
    let plain = Cuttlestore::unprefixed();
    assert_eq!(plain.get(&mut connection, "bar").unwrap(), None);
    assert_eq!(plain.get(&mut connection, "foo:bar").unwrap(), Some(b"1".to_vec()));
    plain.put(&mut connection, "other:bar", b"2").unwrap();
    assert_eq!(
        store.scan(&mut connection).unwrap(),
        vec![("bar".to_string(), b"1".to_vec())]
    );
    store.delete(&mut connection, "bar").unwrap();
    assert_eq!(plain.get(&mut connection, "foo:bar").unwrap(), None);
    assert_eq!(plain.get(&mut connection, "other:bar").unwrap(), Some(b"2".to_vec()));
}

#[test]
fn finish_without_a_prefix_gives_a_store_without_one() {
    let (mut connection, store) = CuttlestoreBuilder::new("in-memory")
        .finish::<InMemoryBackend>()
        .unwrap();
    assert_eq!(store.key("bar"), "bar");
    store.put(&mut connection, "bar", b"1").unwrap();
    assert_eq!(
        store.scan(&mut connection).unwrap(),
        vec![("bar".to_string(), b"1".to_vec())]
    );
}

#[test]
fn stores_with_distinct_prefixes_do_not_see_each_other() {
    let mut connection = CuttlestoreBuilder::new("in-memory")
        .finish_connection::<InMemoryBackend>()
        .unwrap();
    let first = connection.make("first");
    let second = connection.make("second");

    first.put(&mut connection, "key", b"of the first").unwrap();
    second.put(&mut connection, "key", b"of the second").unwrap();
    second.put(&mut connection, "other", b"more").unwrap();

    assert_eq!(first.get(&mut connection, "key").unwrap(), Some(b"of the first".to_vec()));
    assert_eq!(second.get(&mut connection, "key").unwrap(), Some(b"of the second".to_vec()));
    assert_eq!(first.get(&mut connection, "other").unwrap(), None);

    assert_eq!(
        first.scan(&mut connection).unwrap(),
        vec![("key".to_string(), b"of the first".to_vec())]
    );
    let mut listed = second.scan(&mut connection).unwrap();
    listed.sort();
    assert_eq!(
        listed,
        vec![
            ("key".to_string(), b"of the second".to_vec()),
            ("other".to_string(), b"more".to_vec()),
        ]
    );

    first.delete(&mut connection, "key").unwrap();
    assert_eq!(second.get(&mut connection, "key").unwrap(), Some(b"of the second".to_vec()));
}

#[test]
fn a_clone_of_a_store_sees_the_same_values() {
    let mut connection = CuttlestoreBuilder::new("in-memory")
        .finish_connection::<InMemoryBackend>()
        .unwrap();
    let store = connection.make("shared");
    let clone = store.clone();
    store.put(&mut connection, "key", b"value").unwrap();
    assert_eq!(clone.get(&mut connection, "key").unwrap(), Some(b"value".to_vec()));
}

#[test]
fn a_prefix_with_a_colon_reaches_into_another_namespace() {
    let mut connection = CuttlestoreBuilder::new("in-memory")
        .finish_connection::<InMemoryBackend>()
        .unwrap();
    let outer = connection.make("a");
    let inner = connection.make("a:b");
    inner.put(&mut connection, "k", b"1").unwrap();
    assert_eq!(outer.get(&mut connection, "b:k").unwrap(), Some(b"1".to_vec()));
}

#[test]
fn stores_made_by_hand() {
    let outer = Some("app".to_string());
    assert_eq!(Cuttlestore::within(&outer, "users").key("7"), "app:users:7");
    assert_eq!(Cuttlestore::within(&None, "users").key("7"), ":users:7");
    assert_eq!(Cuttlestore::unprefixed().key("7"), "7");
    assert_eq!(Cuttlestore::with_prefix(outer.clone()).key("7"), "app:7");
    assert_eq!(Cuttlestore::with_prefix(None).key("7"), "7");
    let store = Cuttlestore::within(&outer, "users");
    assert_eq!(store.clone().key("7"), store.key("7"));
}
