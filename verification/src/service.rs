//! Serving a command against a backend.

use vstd::prelude::*;
use vstd::rwlock::{RwLock, RwLockPredicate};
use vstd::string::StringExecFns;
use std::sync::Arc;
use crate::mem_table::MemTable;
use crate::error::{ErrorView, KvError};
use crate::request::{CommandRequest, Hdel, Hget, Hgetall, Hset, RequestData, RequestView};
use crate::response::{
    empty_reply,
    error_reply,
    pairs_reply,
    value_reply,
    CommandResponse,
    ResponseView,
    STATUS_BAD_REQUEST,
    STATUS_INTERNAL_ERROR,
    STATUS_NOT_FOUND,
    STATUS_OK,
};
use crate::storage::{
    found_view,
    is_snapshot,
    lookup,
    with_entry,
    without_entry,
    Entries,
    Storage,
};
use crate::value::{pairs_view, Kvpair, PairView, Value, ValueView};

verus! {

/// What a backend's answer about one value stands for in contracts.
pub open spec fn found_result_view(found: Result<Option<Value>, KvError>) -> Result<
    Option<ValueView>,
    ErrorView,
> {
    match found {
        Ok(v) => Ok(found_view(v)),
        Err(e) => Err(e@),
    }
}

/// What a backend's answer about a table stands for in contracts.
pub open spec fn pairs_result_view(pairs: Result<Vec<Kvpair>, KvError>) -> Result<
    Seq<PairView>,
    ErrorView,
> {
    match pairs {
        Ok(v) => Ok(pairs_view(v@)),
        Err(e) => Err(e@),
    }
}

/// The response to a read of `key` in `table`, given the backend's answer:
/// the value where there is one; a missing key is an error.
pub open spec fn hget_reply(
    table: Seq<char>,
    key: Seq<char>,
    found: Result<Option<ValueView>, ErrorView>,
) -> ResponseView {
    match found {
        Ok(Some(v)) => value_reply(v),
        Ok(None) => error_reply(ErrorView::NotFound(table, key)),
        Err(e) => error_reply(e),
    }
}

/// The response to a read of a whole table, given the backend's answer.
pub open spec fn hgetall_reply(pairs: Result<Seq<PairView>, ErrorView>) -> ResponseView {
    match pairs {
        Ok(p) => pairs_reply(p),
        Err(e) => error_reply(e),
    }
}

/// The response to a write, given the backend's answer: the value that was
/// there before, or the empty value where there was none.
pub open spec fn hset_reply(previous: Result<Option<ValueView>, ErrorView>) -> ResponseView {
    match previous {
        Ok(Some(v)) => value_reply(v),
        Ok(None) => value_reply(ValueView::Empty),
        Err(e) => error_reply(e),
    }
}

/// The response to a removal, given the backend's answer: the value that
/// was removed; a missing key is no error and gives the empty response.
pub open spec fn hdel_reply(removed: Result<Option<ValueView>, ErrorView>) -> ResponseView {
    match removed {
        Ok(Some(v)) => value_reply(v),
        Ok(None) => empty_reply(),
        Err(e) => error_reply(e),
    }
}

/// Whether `res` and `after` are what serving `req` gives on a backend that
/// held `before` and did not fail.
pub open spec fn served(req: RequestView, before: Entries, res: ResponseView, after: Entries) -> bool {
    match req {
        RequestView::Missing => {
            &&& res == error_reply(ErrorView::InvalidCommand("Request has no data"@))
            &&& after == before
        },
        RequestView::Unserved => {
            &&& res == error_reply(ErrorView::Internal("Not implemented"@))
            &&& after == before
        },
        RequestView::Hget(table, key) => {
            &&& res == hget_reply(table, key, Ok(lookup(before, table, key)))
            &&& after == before
        },
        RequestView::Hgetall(table) => {
            &&& res == pairs_reply(res.pairs)
            &&& is_snapshot(res.pairs, before, table)
            &&& after == before
        },
        RequestView::Hset(table, None) => {
            &&& res == value_reply(ValueView::Empty)
            &&& after == before
        },
        RequestView::Hset(table, Some(pair)) => {
            &&& res == hset_reply(Ok(lookup(before, table, pair.0)))
            &&& after == with_entry(before, table, pair.0, pair.1)
        },
        RequestView::Hdel(table, key) => {
            &&& res == hdel_reply(Ok(lookup(before, table, key)))
            &&& after == without_entry(before, table, key)
        },
    }
}

/// Whether `res` reports an error, whichever.
pub open spec fn reports_error(res: ResponseView) -> bool {
    exists|e: ErrorView| res == #[trigger] error_reply(e)
}

/// A read of a key that the table does not hold is answered with the
/// status of "not found", a message that begins with "Not found", and
/// nothing else; the backend stays as it was.
pub proof fn lemma_read_of_absent_key_is_not_found(
    table: Seq<char>,
    key: Seq<char>,
    before: Entries,
    res: ResponseView,
    after: Entries,
)
    requires
        !before.contains_key((table, key)),
        served(RequestView::Hget(table, key), before, res, after),
    ensures
        res.status == STATUS_NOT_FOUND,
        res.message == "Not found for table: "@ + table + ", key: "@ + key,
        res.message.len() >= 9,
        res.message.subrange(0, 9) == "Not found"@,
        res.values.len() == 0,
        res.pairs.len() == 0,
        after == before,
{
    reveal_strlit("Not found for table: ");
    reveal_strlit("Not found");
    assert(res.message.subrange(0, 9) =~= "Not found"@);
}

/// A removal of a key that the table does not hold is no error: it is
/// answered with the empty successful response, and the backend stays as
/// it was.
pub proof fn lemma_removal_of_absent_key_succeeds(
    table: Seq<char>,
    key: Seq<char>,
    before: Entries,
    res: ResponseView,
    after: Entries,
)
    requires
        !before.contains_key((table, key)),
        served(RequestView::Hdel(table, key), before, res, after),
    ensures
        res == empty_reply(),
        res.status == STATUS_OK,
        res.values.len() == 0,
        res.pairs.len() == 0,
        after == before,
{
    assert(without_entry(before, table, key) =~= before);
}

/// A command that is known and not served is answered with the status of
/// an internal error and the words "Not implemented", on every backend and
/// in every state of it, and the backend stays as it was.
pub proof fn lemma_unserved_command_is_internal_error(
    before: Entries,
    res: ResponseView,
    after: Entries,
)
    requires
        served(RequestView::Unserved, before, res, after),
    ensures
        !RequestView::Unserved.asks_backend(),
        res.status == STATUS_INTERNAL_ERROR,
        res.message == "Internal error: "@ + "Not implemented"@,
        res.values.len() == 0,
        res.pairs.len() == 0,
        after == before,
{
}

/// A request without a command is answered with the status of a bad
/// request and the words "Request has no data", on every backend and in
/// every state of it, and the backend stays as it was.
pub proof fn lemma_request_without_command_is_invalid(
    before: Entries,
    res: ResponseView,
    after: Entries,
)
    requires
        served(RequestView::Missing, before, res, after),
    ensures
        !RequestView::Missing.asks_backend(),
        res.status == STATUS_BAD_REQUEST,
        res.message == "Cannot parse command: "@ + "Request has no data"@,
        res.values.len() == 0,
        res.pairs.len() == 0,
        after == before,
{
}

/// A write without a pair is answered with the empty value, on every
/// backend and in every state of it, and the backend stays as it was.
pub proof fn lemma_write_without_pair_changes_nothing(
    table: Seq<char>,
    before: Entries,
    res: ResponseView,
    after: Entries,
)
    requires
        served(RequestView::Hset(table, None), before, res, after),
    ensures
        !RequestView::Hset(table, None).asks_backend(),
        res == value_reply(ValueView::Empty),
        res.status == STATUS_OK,
        after == before,
{
}

/// Every error has exactly one status, and none has that of success.
pub proof fn lemma_error_status_is_total(e: ErrorView)
    ensures
        error_reply(e).status == STATUS_NOT_FOUND || error_reply(e).status == STATUS_BAD_REQUEST
            || error_reply(e).status == STATUS_INTERNAL_ERROR,
        error_reply(e).status != STATUS_OK,
        error_reply(e).status == STATUS_NOT_FOUND <==> e is NotFound,
        error_reply(e).status == STATUS_BAD_REQUEST <==> e is InvalidCommand,
{
}

/// The response to a read of `key` in `table`, given the backend's answer.
pub fn hget_response(table: String, key: String, found: Result<Option<Value>, KvError>) -> (res:
    CommandResponse)
    ensures
        res@ == hget_reply(table@, key@, found_result_view(found)),
{
    match found {
        Ok(Some(v)) => CommandResponse::from_value(v),
        Ok(None) => CommandResponse::from_error(KvError::NotFound(table, key)),
        Err(e) => CommandResponse::from_error(e),
    }
}

/// The response to a read of a whole table, given the backend's answer.
pub fn hgetall_response(pairs: Result<Vec<Kvpair>, KvError>) -> (res: CommandResponse)
    ensures
        res@ == hgetall_reply(pairs_result_view(pairs)),
{
    match pairs {
        Ok(v) => CommandResponse::from_pairs(v),
        Err(e) => CommandResponse::from_error(e),
    }
}

/// The response to a write, given the backend's answer.
pub fn hset_response(previous: Result<Option<Value>, KvError>) -> (res: CommandResponse)
    ensures
        res@ == hset_reply(found_result_view(previous)),
{
    match previous {
        Ok(Some(v)) => CommandResponse::from_value(v),
        Ok(None) => CommandResponse::from_value(Value::default()),
        Err(e) => CommandResponse::from_error(e),
    }
}

/// The response to a removal, given the backend's answer.
pub fn hdel_response(removed: Result<Option<Value>, KvError>) -> (res: CommandResponse)
    ensures
        res@ == hdel_reply(found_result_view(removed)),
{
    match removed {
        Ok(Some(v)) => CommandResponse::from_value(v),
        Ok(None) => CommandResponse::empty(),
        Err(e) => CommandResponse::from_error(e),
    }
}

impl Hget {
    /// Reads the value from `store` and answers with it. The backend is
    /// asked once; where it fails, its error is the answer.
    pub fn execute<S: Storage>(self, store: &mut S) -> (res: CommandResponse)
        ensures
            final(store).may_fail() == old(store).may_fail(),
            final(store).entries() == old(store).entries(),
            served(self@, old(store).entries(), res@, final(store).entries()) || (old(
                store,
            ).may_fail() && reports_error(res@)),
    {
        let found = store.get(self.table.as_str(), self.key.as_str());
        hget_response(self.table, self.key, found)
    }
}

impl Hgetall {
    /// Reads the table from `store` and answers with its pairs, in the
    /// order in which the backend gave them.
    pub fn execute<S: Storage>(self, store: &mut S) -> (res: CommandResponse)
        ensures
            final(store).may_fail() == old(store).may_fail(),
            final(store).entries() == old(store).entries(),
            served(self@, old(store).entries(), res@, final(store).entries()) || (old(
                store,
            ).may_fail() && reports_error(res@)),
    {
        let pairs = store.get_all(self.table.as_str());
        hgetall_response(pairs)
    }
}

impl Hset {
    /// Writes the pair into `store` and answers with the value that was
    /// there before, or with the empty value. A request without a pair
    /// writes nothing and is answered with the empty value.
    pub fn execute<S: Storage>(self, store: &mut S) -> (res: CommandResponse)
        ensures
            final(store).may_fail() == old(store).may_fail(),
            self.pair is None ==> res@ == value_reply(ValueView::Empty) && final(store).entries()
                == old(store).entries(),
            self.pair is None ==> served(
                self@,
                old(store).entries(),
                res@,
                final(store).entries(),
            ),
            served(self@, old(store).entries(), res@, final(store).entries()) || (old(
                store,
            ).may_fail() && reports_error(res@)),
    {
        match self.pair {
            Some(pair) => {
                let previous = store.set(self.table.as_str(), pair.key, pair.value);
                hset_response(previous)
            },
            None => CommandResponse::from_value(Value::default()),
        }
    }
}

impl Hdel {
    /// Removes the key from `store` and answers with the value that was
    /// there, or with the empty response where there was none.
    pub fn execute<S: Storage>(self, store: &mut S) -> (res: CommandResponse)
        ensures
            final(store).may_fail() == old(store).may_fail(),
            served(self@, old(store).entries(), res@, final(store).entries()) || (old(
                store,
            ).may_fail() && reports_error(res@)),
    {
        let removed = store.del(self.table.as_str(), self.key.as_str());
        hdel_response(removed)
    }
}

/// Serves `cmd` against `store`: one command, one response, and no change
/// to the backend but the one that the command asks for. A request without
/// a command is invalid; a command that is not served yet is an internal
/// error; neither these nor a write without a pair ask the backend, so
/// their answer is the same on every backend. Where the backend is asked
/// and fails, the response reports its error.
pub fn dispatch<S: Storage>(cmd: CommandRequest, store: &mut S) -> (res: CommandResponse)
    ensures
        final(store).may_fail() == old(store).may_fail(),
        cmd@.reads_only() ==> final(store).entries() == old(store).entries(),
        !cmd@.asks_backend() ==> served(
            cmd@,
            old(store).entries(),
            res@,
            final(store).entries(),
        ),
        served(cmd@, old(store).entries(), res@, final(store).entries()) || (old(store).may_fail()
            && reports_error(res@)),
{
    match cmd.request_data {
        Some(RequestData::Hset(v)) => v.execute(store),
        Some(RequestData::Hget(v)) => v.execute(store),
        Some(RequestData::Hdel(v)) => v.execute(store),
        Some(RequestData::Hgetall(v)) => v.execute(store),
        None => CommandResponse::from_error(
            KvError::InvalidCommand(String::from_str("Request has no data")),
        ),
        _ => CommandResponse::from_error(KvError::Internal(String::from_str("Not implemented"))),
    }
}

/// What a service owns: the backend that its commands are served against.
pub struct ServiceInner<T: Storage> {
    pub store: T,
}

impl<T: Storage> ServiceInner<T> {
    /// The service state around `store`.
    pub fn new(store: T) -> (inner: Self)
        ensures
            inner.store == store,
    {
        Self { store }
    }

    /// Serves `cmd` against the backend of the service.
    pub fn execute(&mut self, cmd: CommandRequest) -> (res: CommandResponse)
        ensures
            final(self).store.may_fail() == old(self).store.may_fail(),
            cmd@.reads_only() ==> final(self).store.entries() == old(self).store.entries(),
            !cmd@.asks_backend() ==> served(
                cmd@,
                old(self).store.entries(),
                res@,
                final(self).store.entries(),
            ),
            served(cmd@, old(self).store.entries(), res@, final(self).store.entries()) || (old(
                self,
            ).store.may_fail() && reports_error(res@)),
    {
        dispatch(cmd, &mut self.store)
    }
}

/// Whether `res` is what serving `req` gives on some state of a backend
/// that did not fail.
pub open spec fn answers(req: RequestView, res: ResponseView) -> bool {
    exists|before: Entries, after: Entries| #[trigger] served(req, before, res, after)
}

/// What holds of the state behind a service at all times: whether its
/// backend can fail.
pub ghost struct Fallibility {
    pub may_fail: bool,
}

impl<T: Storage> RwLockPredicate<ServiceInner<T>> for Fallibility {
    open spec fn inv(self, inner: ServiceInner<T>) -> bool {
        inner.store.may_fail() == self.may_fail
    }
}

/// `Arc::clone`: one more handle on the same state.
#[verifier::external_body]
fn share<T: Storage>(handle: &Arc<RwLock<ServiceInner<T>, Fallibility>>) -> (copy: Arc<
    RwLock<ServiceInner<T>, Fallibility>,
>)
    ensures
        copy == *handle,
{
    Arc::clone(handle)
}

/// A handle on one store. Every clone serves its commands against the same
/// backend: a clone copies the handle and never the data. Commands from
/// different handles are served one at a time.
pub struct Service<T: Storage = MemTable> {
    inner: Arc<RwLock<ServiceInner<T>, Fallibility>>,
}

impl<T: Storage> Clone for Service<T> {
    fn clone(&self) -> (copy: Self)
        ensures
            copy == *self,
    {
        Service { inner: share(&self.inner) }
    }
}

impl<T: Storage> Service<T> {
    /// Whether the backend behind the handle can fail.
    pub closed spec fn may_fail(&self) -> bool {
        self.inner.pred().may_fail
    }

    /// The service around `store`.
    pub fn new(store: T) -> (service: Self)
        ensures
            service.may_fail() == store.may_fail(),
    {
        let ghost pred = Fallibility { may_fail: store.may_fail() };
        Service { inner: Arc::new(RwLock::new(ServiceInner::new(store), Ghost(pred))) }
    }

    /// Serves `cmd` against the shared backend, in whatever state the
    /// commands served before it have left it.
    pub fn run(&self, cmd: CommandRequest) -> (res: CommandResponse)
        ensures
            !cmd@.asks_backend() ==> answers(cmd@, res@),
            answers(cmd@, res@) || (self.may_fail() && reports_error(res@)),
    {
        let (mut inner, handle) = self.inner.acquire_write();
        let res = inner.execute(cmd);
        handle.release_write(inner);
        res
    }
}

} // verus!
