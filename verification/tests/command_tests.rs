use kv_store::service::{hdel_response, hget_response, hgetall_response, hset_response};
use kv_store::storage::Entries;
use kv_store::{
    dispatch, CommandRequest, CommandResponse, Hexist, Hset, KvError, Kvpair, MemTable,
    RequestData, Service, ServiceInner, Storage, StorageIter, Value,
};

fn assert_res_ok(mut res: CommandResponse, values: &[Value], pairs: &[Kvpair]) {
    res.pairs.sort_by(|a, b| a.partial_cmp(b).unwrap());
    assert_eq!(res.status, 200);
    assert_eq!(res.message, "");
    assert_eq!(res.values, values);
    assert_eq!(res.pairs, pairs);
}

fn assert_res_error(res: CommandResponse, code: u32, msg: &str) {
    assert_eq!(res.status, code);
    assert!(res.message.contains(msg));
    assert_eq!(res.values, &[]);
    assert_eq!(res.pairs, &[]);
}

#[test]
fn hset_should_work() {
    let mut store = MemTable::new();

    let cmd = CommandRequest::new_hset("t1", "hello", "world".into());
    let res = dispatch(cmd.clone(), &mut store);
    assert_res_ok(res, &[Value::default()], &[]);

    let res = dispatch(cmd, &mut store);
    assert_res_ok(res, &["world".into()], &[]);
}

#[test]
fn hget_should_work() {
    let mut store = MemTable::new();

    let cmd = CommandRequest::new_hset("score", "u1", 10.into());
    dispatch(cmd, &mut store);

    let cmd = CommandRequest::new_hget("score", "u1");
    let res = dispatch(cmd, &mut store);
    assert_res_ok(res, &[10.into()], &[]);
}

#[test]
fn hdel_should_work() {
    let mut store = MemTable::new();

    let cmd = CommandRequest::new_hset("score", "d1", 10.into());
    dispatch(cmd, &mut store);

    let cmd = CommandRequest::new_hdel("score", "d1");
    let res = dispatch(cmd, &mut store);
    assert_res_ok(res, &[10.into()], &[]);

    let cmd = CommandRequest::new_hdel("score", "d2");
    let res = dispatch(cmd, &mut store);
    assert_res_ok(res, &[], &[])
}

#[test]
fn hget_with_non_exist_key_should_return_404() {
    let mut store = MemTable::new();

    let cmd = CommandRequest::new_hget("score", "u1");
    let res = dispatch(cmd, &mut store);
    assert_res_error(res, 404, "Not found");
}

#[test]
fn hgetall_should_work() {
    let mut store = MemTable::new();
    let cmds = vec![
        CommandRequest::new_hset("score", "u1", 11.into()),
        CommandRequest::new_hset("score", "u2", 12.into()),
        CommandRequest::new_hset("score", "u3", 13.into()),
        CommandRequest::new_hset("score", "u1", 14.into()),
    ];

    for cmd in cmds {
        dispatch(cmd, &mut store);
    }

    let cmd = CommandRequest::new_hgetall("score");
    let res = dispatch(cmd, &mut store);
    let pairs = &[
        Kvpair::new("u1", 14.into()),
        Kvpair::new("u2", 12.into()),
        Kvpair::new("u3", 13.into()),
    ];
    assert_res_ok(res, &[], pairs);
}

#[test]
fn hset_then_hget_end_to_end() {
    let mut store = MemTable::new();
    let cmd = CommandRequest::new_hset("t1", "hello", Value::text("world"));
    assert_res_ok(dispatch(cmd.clone(), &mut store), &[Value::Empty], &[]);
    assert_res_ok(dispatch(cmd, &mut store), &[Value::text("world")], &[]);
    let res = dispatch(CommandRequest::new_hget("t1", "hello"), &mut store);
    assert_res_ok(res, &[Value::text("world")], &[]);
}

#[test]
fn hget_of_absent_key_names_table_and_key() {
    let mut store = MemTable::new();
    let res = dispatch(CommandRequest::new_hget("score", "u1"), &mut store);
    assert_eq!(res.status, 404);
    assert_eq!(res.message, "Not found for table: score, key: u1");
    assert!(res.values.is_empty());
    assert!(res.pairs.is_empty());
}

#[test]
fn hdel_of_absent_key_is_empty_success() {
    let mut store = MemTable::new();
    let res = dispatch(CommandRequest::new_hdel("score", "u1"), &mut store);
    assert_eq!(
        res,
        CommandResponse { status: 200, message: String::new(), values: vec![], pairs: vec![] }
    );
}

#[test]
fn hgetall_of_missing_table_is_empty_success() {
    let mut store = MemTable::new();
    let res = dispatch(CommandRequest::new_hgetall("nowhere"), &mut store);
    assert_res_ok(res, &[], &[]);
}

#[test]
fn request_without_command_is_invalid() {
    let mut store = MemTable::new();
    let res = dispatch(CommandRequest { request_data: None }, &mut store);
    assert_eq!(res.status, 400);
    assert_eq!(res.message, "Cannot parse command: Request has no data");
    assert!(res.values.is_empty());
    assert!(res.pairs.is_empty());
}

#[test]
fn unserved_command_is_internal_error() {
    let mut store = MemTable::new();
    store.set("t", "k".into(), 1.into()).unwrap();
    let cmd = CommandRequest {
        request_data: Some(RequestData::Hexist(Hexist { table: "t".into(), key: "k".into() })),
    };
    let res = dispatch(cmd, &mut store);
    assert_eq!(res.status, 500);
    assert_eq!(res.message, "Internal error: Not implemented");
    assert!(res.values.is_empty());
    assert!(res.pairs.is_empty());
}

#[test]
fn hset_without_pair_writes_nothing() {
    let mut store = MemTable::new();
    let cmd = CommandRequest {
        request_data: Some(RequestData::Hset(Hset { table: "t".into(), pair: None })),
    };
    let res = dispatch(cmd, &mut store);
    assert_res_ok(res, &[Value::Empty], &[]);
    assert_eq!(store.get_all("t"), Ok(vec![]));
}

#[test]
fn responses_follow_the_backend_answer() {
    let nf = KvError::NotFound("t".into(), "k".into());
    let internal = KvError::Internal("disk".into());

    assert_res_ok(hget_response("t".into(), "k".into(), Ok(Some(1.into()))), &[1.into()], &[]);
    assert_res_error(hget_response("t".into(), "k".into(), Ok(None)), 404, "table: t, key: k");
    assert_res_error(hget_response("t".into(), "k".into(), Err(internal)), 500, "disk");

    assert_res_ok(hset_response(Ok(Some(1.into()))), &[1.into()], &[]);
    assert_res_ok(hset_response(Ok(None)), &[Value::Empty], &[]);
    assert_res_error(hset_response(Err(KvError::InvalidCommand("x".into()))), 400, "x");

    assert_res_ok(hdel_response(Ok(Some(1.into()))), &[1.into()], &[]);
    assert_res_ok(hdel_response(Ok(None)), &[], &[]);
    assert_res_error(hdel_response(Err(nf)), 404, "Not found");

    let pairs = vec![Kvpair::new("b", 2.into()), Kvpair::new("a", 1.into())];
    let res = hgetall_response(Ok(pairs.clone()));
    assert_eq!(res.status, 200);
    assert_eq!(res.message, "");
    assert_eq!(res.pairs, pairs);
    assert!(res.values.is_empty());
    assert_res_error(hgetall_response(Err(KvError::Internal("gone".into()))), 500, "gone");
}

#[test]
fn response_constructors() {
    assert_res_ok(CommandResponse::empty(), &[], &[]);
    assert_res_ok(CommandResponse::from_value(Value::text("v")), &[Value::text("v")], &[]);
    let res = CommandResponse::from_pairs(vec![Kvpair::new("k", 1.into())]);
    assert_res_ok(res, &[], &[Kvpair::new("k", 1.into())]);
    let res = CommandResponse::from_error(KvError::NotFound("t".into(), "k".into()));
    assert_res_error(res, 404, "Not found for table: t, key: k");
    let res = CommandResponse::from_error(KvError::InvalidCommand("bad".into()));
    assert_res_error(res, 400, "bad");
    let res = CommandResponse::from_error(KvError::Internal("bad".into()));
    assert_res_error(res, 500, "bad");
}

#[test]
fn service_inner_serves_commands() {
    let mut inner = ServiceInner::new(MemTable::new());
    let res = inner.execute(CommandRequest::new_hset("t1", "k1", Value::text("v1")));
    assert_res_ok(res, &[Value::default()], &[]);
    let res = inner.execute(CommandRequest::new_hget("t1", "k1"));
    assert_res_ok(res, &[Value::text("v1")], &[]);
    assert_eq!(inner.store.contains("t1", "k1"), Ok(true));
}

#[test]
fn service_should_works() {
    let service = Service::new(MemTable::new());

    let service_cloned = service.clone();

    let res = service_cloned.run(CommandRequest::new_hset("t1", "k1", "v1".into()));
    assert_res_ok(res, &[Value::default()], &[]);

    let res = service.run(CommandRequest::new_hget("t1", "k1"));
    assert_res_ok(res, &["v1".into()], &[]);
}

#[test]
fn service_clones_share_one_store() {
    let service: Service = Service::new(MemTable::new());
    let handles = vec![service.clone(), service.clone(), service.clone()];
    for (i, handle) in handles.iter().enumerate() {
        let key = format!("k{}", i);
        let res = handle.run(CommandRequest::new_hset("t", &key, Value::Integer(i as i64)));
        assert_res_ok(res, &[Value::Empty], &[]);
    }
    let res = service.run(CommandRequest::new_hgetall("t"));
    let pairs = &[
        Kvpair::new("k0", 0.into()),
        Kvpair::new("k1", 1.into()),
        Kvpair::new("k2", 2.into()),
    ];
    assert_res_ok(res, &[], pairs);
    let res = service.run(CommandRequest { request_data: None });
    assert_res_error(res, 400, "Request has no data");
}

#[test]
fn values_compare_by_what_they_hold() {
    assert_eq!(Value::Binary(vec![1, 2]), Value::Binary(vec![1, 2]));
    assert_ne!(Value::Binary(vec![1, 2]), Value::Binary(vec![1, 3]));
    assert_ne!(Value::Binary(vec![1, 2]), Value::Binary(vec![1]));
    assert_ne!(Value::Binary(vec![]), Value::Empty);
    assert_ne!(Value::Integer(1), Value::Float(1));
    assert_ne!(Value::text("1"), Value::Integer(1));
    assert_ne!(Value::text("a"), Value::text("b"));
    assert_eq!(Value::Float(9), Value::Float(9));
    assert_ne!(Kvpair::new("k", 1.into()), Kvpair::new("k", 2.into()));
    assert_ne!(Kvpair::new("k", 1.into()), Kvpair::new("j", 1.into()));
}

struct Broken;

fn broken() -> KvError {
    KvError::Internal("backend is down".into())
}

impl Storage for Broken {
    fn entries(&self) -> Entries {
        unreachable!()
    }

    fn may_fail(&self) -> bool {
        true
    }

    fn get(&mut self, _table: &str, _key: &str) -> Result<Option<Value>, KvError> {
        Err(broken())
    }

    fn set(&mut self, _table: &str, _key: String, _value: Value) -> Result<Option<Value>, KvError> {
        Err(broken())
    }

    fn contains(&mut self, _table: &str, _key: &str) -> Result<bool, KvError> {
        Err(broken())
    }

    fn del(&mut self, _table: &str, _key: &str) -> Result<Option<Value>, KvError> {
        Err(broken())
    }

    fn get_all(&mut self, _table: &str) -> Result<Vec<Kvpair>, KvError> {
        Err(broken())
    }

    fn get_iter(&mut self, _table: &str) -> Result<StorageIter, KvError> {
        Err(broken())
    }
}

#[test]
fn failing_backend_reports_its_error() {
    let mut store = Broken;
    let cmds = vec![
        CommandRequest::new_hget("t", "k"),
        CommandRequest::new_hset("t", "k", 1.into()),
        CommandRequest::new_hdel("t", "k"),
        CommandRequest::new_hgetall("t"),
    ];
    for cmd in cmds {
        let res = dispatch(cmd, &mut store);
        assert_eq!(res.status, 500);
        assert_eq!(res.message, "Internal error: backend is down");
        assert!(res.values.is_empty());
        assert!(res.pairs.is_empty());
    }
}

#[test]
fn commands_that_ask_no_backend_are_answered_on_a_failing_one() {
    let mut store = Broken;

    let res = dispatch(CommandRequest { request_data: None }, &mut store);
    assert_eq!(res.status, 400);
    assert_eq!(res.message, "Cannot parse command: Request has no data");
    assert!(res.values.is_empty());
    assert!(res.pairs.is_empty());

    let cmd = CommandRequest {
        request_data: Some(RequestData::Hexist(Hexist { table: "t".into(), key: "k".into() })),
    };
    let res = dispatch(cmd.clone(), &mut store);
    assert_eq!(res.status, 500);
    assert!(res.message.contains("Not implemented"));
    assert_eq!(res.message, "Internal error: Not implemented");
    assert!(res.values.is_empty());
    assert!(res.pairs.is_empty());

    let no_pair = CommandRequest {
        request_data: Some(RequestData::Hset(Hset { table: "t".into(), pair: None })),
    };
    assert_res_ok(dispatch(no_pair.clone(), &mut store), &[Value::Empty], &[]);

    let service = Service::new(Broken);
    let res = service.run(cmd);
    assert_eq!(res.status, 500);
    assert_eq!(res.message, "Internal error: Not implemented");
    assert_res_ok(service.run(no_pair), &[Value::Empty], &[]);
    let res = service.run(CommandRequest::new_hget("t", "k"));
    assert_eq!(res.message, "Internal error: backend is down");
}

#[test]
fn conversions_into_a_response() {
    let res: CommandResponse = Value::from("v").into();
    assert_res_ok(res, &["v".into()], &[]);
    let res = CommandResponse::from(vec![Kvpair::new("k", 1.into())]);
    assert_res_ok(res, &[], &[Kvpair::new("k", 1.into())]);
    let res = CommandResponse::from(Vec::<Kvpair>::new());
    assert_res_ok(res, &[], &[]);
    let res: CommandResponse = KvError::NotFound("t".into(), "k".into()).into();
    assert_res_error(res, 404, "Not found for table: t, key: k");
    let res: CommandResponse = KvError::InvalidCommand("bad".into()).into();
    assert_res_error(res, 400, "Cannot parse command: bad");
    let res: CommandResponse = KvError::Internal("bad".into()).into();
    assert_res_error(res, 500, "Internal error: bad");
}
