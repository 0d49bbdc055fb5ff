use kv_store::{KvError, Kvpair, MemTable, Storage, StorageIter, Value};

fn test_basic_interface(mut store: impl Storage) {
    // the first set creates the table and finds nothing under the key
    let v = store.set("t1", "hello".into(), "world".into());
    assert!(v.unwrap().is_none());
    // a second set on the same key returns the value before it
    let v1 = store.set("t1", "hello".into(), "world1".into());
    assert_eq!(v1, Ok(Some("world".into())));

    // get on a key that is there gives the latest value
    let v = store.get("t1", "hello");
    assert_eq!(v, Ok(Some("world1".into())));

    // get on a missing key or table gives nothing
    assert_eq!(Ok(None), store.get("t1", "hello1"));
    assert!(store.get("t2", "hello1").unwrap().is_none());

    // contains is true for a key that is there, false otherwise
    assert_eq!(store.contains("t1", "hello"), Ok(true));
    assert_eq!(store.contains("t1", "hello1"), Ok(false));
    assert_eq!(store.contains("t2", "hello"), Ok(false));

    // del on a key that is there returns its value
    let v = store.del("t1", "hello");
    assert_eq!(v, Ok(Some("world1".into())));

    // del on a missing key or table returns nothing
    assert_eq!(Ok(None), store.del("t1", "hello1"));
    assert_eq!(Ok(None), store.del("t2", "hello"));
}

fn test_get_all(mut store: impl Storage) {
    store.set("t2", "k1".into(), "v1".into()).unwrap();
    store.set("t2", "k2".into(), "v2".into()).unwrap();
    let mut data = store.get_all("t2").unwrap();
    data.sort_by(|a, b| a.partial_cmp(b).unwrap());
    assert_eq!(
        data,
        vec![
            Kvpair::new("k1", "v1".into()),
            Kvpair::new("k2", "v2".into())
        ]
    )
}

fn test_get_iter(mut store: impl Storage) {
    store.set("t2", "k1".into(), "v1".into()).unwrap();
    store.set("t2", "k2".into(), "v2".into()).unwrap();
    let mut data: Vec<Kvpair> = store.get_iter("t2").unwrap().collect();
    data.sort_by(|a, b| a.partial_cmp(b).unwrap());
    assert_eq!(
        data,
        vec![
            Kvpair::new("k1", "v1".into()),
            Kvpair::new("k2", "v2".into())
        ]
    )
}

#[test]
fn mem_table_should_work() {
    let store = MemTable::new();
    test_basic_interface(store);
}

#[test]
fn mem_table_get_all_should_work() {
    let store = MemTable::new();
    test_get_all(store);
}

#[test]
fn mem_table_iter_should_work() {
    let store = MemTable::new();
    test_get_iter(store);
}

#[test]
fn unset_key_has_no_value() {
    let mut store = MemTable::new();
    assert_eq!(store.get("t", "k"), Ok(None));
    assert_eq!(store.contains("t", "k"), Ok(false));
    store.set("t", "other".into(), 1.into()).unwrap();
    assert_eq!(store.get("t", "k"), Ok(None));
    assert_eq!(store.contains("t", "k"), Ok(false));
    assert_eq!(store.get("other", "other"), Ok(None));
}

#[test]
fn second_set_returns_first_value() {
    let mut store = MemTable::new();
    assert_eq!(store.set("t", "k".into(), 1.into()), Ok(None));
    assert_eq!(store.set("t", "k".into(), 2.into()), Ok(Some(Value::Integer(1))));
    assert_eq!(store.get("t", "k"), Ok(Some(Value::Integer(2))));
}

#[test]
fn second_del_returns_nothing() {
    let mut store = MemTable::new();
    store.set("t", "k".into(), Value::Binary(vec![1, 2, 3])).unwrap();
    assert_eq!(store.del("t", "k"), Ok(Some(Value::Binary(vec![1, 2, 3]))));
    assert_eq!(store.del("t", "k"), Ok(None));
    assert_eq!(store.contains("t", "k"), Ok(false));
}

#[test]
fn get_all_and_get_iter_agree_in_either_order() {
    let expected = vec![
        Kvpair::new("k1", Value::text("v1")),
        Kvpair::new("k2", Value::Float(4607182418800017408)),
    ];

    let mut store = MemTable::new();
    store.set("t", "k1".into(), Value::text("v1")).unwrap();
    store.set("t", "k2".into(), Value::Float(4607182418800017408)).unwrap();
    let mut all = store.get_all("t").unwrap();
    let mut walked = store.get_iter("t").unwrap().collect();
    all.sort();
    walked.sort();
    assert_eq!(all, expected);
    assert_eq!(walked, expected);

    let mut store = MemTable::new();
    store.set("t", "k1".into(), Value::text("v1")).unwrap();
    store.set("t", "k2".into(), Value::Float(4607182418800017408)).unwrap();
    let mut walked = store.get_iter("t").unwrap().collect();
    let mut all = store.get_all("t").unwrap();
    all.sort();
    walked.sort();
    assert_eq!(all, expected);
    assert_eq!(walked, expected);
}

#[test]
fn get_all_of_missing_table_is_empty() {
    let mut store = MemTable::new();
    assert_eq!(store.get_all("nowhere"), Ok(vec![]));
    assert_eq!(store.get_iter("nowhere").unwrap().next(), None);
}

#[test]
fn tables_do_not_share_keys() {
    let mut store = MemTable::new();
    store.set("a", "k".into(), 1.into()).unwrap();
    store.set("b", "k".into(), 2.into()).unwrap();
    assert_eq!(store.get("a", "k"), Ok(Some(Value::Integer(1))));
    assert_eq!(store.get("b", "k"), Ok(Some(Value::Integer(2))));
    assert_eq!(store.del("a", "k"), Ok(Some(Value::Integer(1))));
    assert_eq!(store.get("b", "k"), Ok(Some(Value::Integer(2))));
}

#[test]
fn iter_is_a_snapshot_and_runs_once() {
    let mut store = MemTable::new();
    store.set("t", "k1".into(), 1.into()).unwrap();
    let mut iter = store.get_iter("t").unwrap();
    store.set("t", "k2".into(), 2.into()).unwrap();
    store.set("t", "k1".into(), 3.into()).unwrap();
    assert_eq!(iter.next(), Some(Kvpair::new("k1", 1.into())));
    assert_eq!(iter.next(), None);
    assert_eq!(iter.next(), None);
    assert_eq!(iter.collect(), vec![]);
}

#[test]
fn storage_iter_walks_in_order() {
    let mut iter = StorageIter::new(vec![
        Kvpair::new("b", 2.into()),
        Kvpair::new("a", 1.into()),
        Kvpair::new("c", 3.into()),
    ]);
    assert_eq!(iter.next(), Some(Kvpair::new("b", 2.into())));
    assert_eq!(
        iter.collect(),
        vec![Kvpair::new("a", 1.into()), Kvpair::new("c", 3.into())]
    );
    assert_eq!(iter.next(), None);
}

#[test]
fn many_writes_on_distinct_keys_all_stay() {
    let mut store = MemTable::new();
    let mut expected = Vec::new();
    for i in 0..100i64 {
        let key = format!("key{:03}", i);
        assert_eq!(store.set("t", key.clone(), i.into()), Ok(None));
        expected.push(Kvpair::new(&key, i.into()));
    }
    let mut all = store.get_all("t").unwrap();
    all.sort();
    assert_eq!(all, expected);
}

#[test]
fn default_store_is_empty() {
    let mut store = MemTable::default();
    assert_eq!(store.get_all("t"), Ok(vec![]));
    assert_eq!(store.get("t", "k"), Ok(None));
}

#[test]
fn values_convert_and_copy() {
    assert_eq!(Value::from(7), Value::Integer(7));
    assert_eq!(Value::from("abc".to_string()), Value::Text("abc".to_string()));
    assert_eq!(Value::text("abc"), Value::Text("abc".to_string()));
    assert_eq!(Value::integer(-1), Value::Integer(-1));
    assert_eq!(Value::default(), Value::Empty);
    let b = Value::Binary(vec![0, 255, 7]);
    assert_eq!(b.clone(), b);
    let p = Kvpair::new("k", Value::text("v"));
    assert_eq!(p.clone(), p);
    assert_eq!(p.key, "k");
    assert!(Kvpair::new("a", 2.into()) < Kvpair::new("b", 1.into()));
    assert!(Kvpair::new("a", 1.into()) < Kvpair::new("a", 2.into()));
}

#[test]
fn error_messages() {
    assert_eq!(
        KvError::NotFound("t".into(), "k".into()).message(),
        "Not found for table: t, key: k"
    );
    assert_eq!(
        KvError::InvalidCommand("nothing".into()).message(),
        "Cannot parse command: nothing"
    );
    assert_eq!(KvError::Internal("oops".into()).message(), "Internal error: oops");
}

#[test]
fn clone_is_a_store_of_its_own() {
    let mut store = MemTable::new();
    store.set("t", "k".into(), 1.into()).unwrap();
    let mut copy = store.clone();
    assert_eq!(copy.get("t", "k"), Ok(Some(Value::Integer(1))));
    copy.set("t", "k".into(), 2.into()).unwrap();
    store.set("t", "other".into(), 3.into()).unwrap();
    assert_eq!(store.get("t", "k"), Ok(Some(Value::Integer(1))));
    assert_eq!(copy.get("t", "k"), Ok(Some(Value::Integer(2))));
    assert_eq!(copy.get("t", "other"), Ok(None));
}
