//! The commands that a caller can send.

use vstd::prelude::*;
use crate::value::{Kvpair, PairView, Value};

verus! {

/// What a [`CommandRequest`] stands for in contracts.
pub ghost enum RequestView {
    /// A request that carries no command.
    Missing,
    /// Read the value under a key: table, then key.
    Hget(Seq<char>, Seq<char>),
    /// Read all the pairs of a table.
    Hgetall(Seq<char>),
    /// Write a pair into a table: table, then the pair if the request has one.
    Hset(Seq<char>, Option<PairView>),
    /// Remove a key: table, then key.
    Hdel(Seq<char>, Seq<char>),
    /// A command that is known and not served yet.
    Unserved,
}

impl RequestView {
    /// Whether serving the request asks the backend for anything. A request
    /// without a command, a command that is not served yet and a write
    /// without a pair are answered without the backend.
    pub open spec fn asks_backend(self) -> bool {
        match self {
            RequestView::Missing => false,
            RequestView::Unserved => false,
            RequestView::Hset(_, None) => false,
            _ => true,
        }
    }

    /// Whether serving the request leaves every backend as it was.
    pub open spec fn reads_only(self) -> bool {
        match self {
            RequestView::Hset(_, Some(_)) => false,
            RequestView::Hdel(_, _) => false,
            _ => true,
        }
    }
}

/// Read the value under `key` in `table`.
#[derive(Debug, PartialEq, Eq)]
pub struct Hget {
    pub table: String,
    pub key: String,
}

/// Read all the pairs of `table`.
#[derive(Debug, PartialEq, Eq)]
pub struct Hgetall {
    pub table: String,
}

/// Write `pair` into `table`.
#[derive(Debug, PartialEq, Eq)]
pub struct Hset {
    pub table: String,
    pub pair: Option<Kvpair>,
}

/// Remove `key` from `table`.
#[derive(Debug, PartialEq, Eq)]
pub struct Hdel {
    pub table: String,
    pub key: String,
}

/// Ask whether `table` holds `key`. The command is known to the store and
/// not served yet.
#[derive(Debug, PartialEq, Eq)]
pub struct Hexist {
    pub table: String,
    pub key: String,
}

/// The command of a request.
#[derive(Debug, PartialEq, Eq)]
pub enum RequestData {
    Hget(Hget),
    Hgetall(Hgetall),
    Hset(Hset),
    Hdel(Hdel),
    Hexist(Hexist),
}

/// A request: at most one command.
#[derive(Debug, PartialEq, Eq)]
pub struct CommandRequest {
    pub request_data: Option<RequestData>,
}

/// The view of a pair that may be missing.
pub open spec fn pair_view(pair: Option<Kvpair>) -> Option<PairView> {
    match pair {
        Some(p) => Some(p@),
        None => None,
    }
}

impl View for Hget {
    type V = RequestView;

    open spec fn view(&self) -> RequestView {
        RequestView::Hget(self.table@, self.key@)
    }
}

impl View for Hgetall {
    type V = RequestView;

    open spec fn view(&self) -> RequestView {
        RequestView::Hgetall(self.table@)
    }
}

impl View for Hset {
    type V = RequestView;

    open spec fn view(&self) -> RequestView {
        RequestView::Hset(self.table@, pair_view(self.pair))
    }
}

impl View for Hdel {
    type V = RequestView;

    open spec fn view(&self) -> RequestView {
        RequestView::Hdel(self.table@, self.key@)
    }
}

impl View for RequestData {
    type V = RequestView;

    open spec fn view(&self) -> RequestView {
        match self {
            RequestData::Hget(c) => c@,
            RequestData::Hgetall(c) => c@,
            RequestData::Hset(c) => c@,
            RequestData::Hdel(c) => c@,
            RequestData::Hexist(_) => RequestView::Unserved,
        }
    }
}

impl View for CommandRequest {
    type V = RequestView;

    open spec fn view(&self) -> RequestView {
        match self.request_data {
            Some(data) => data@,
            None => RequestView::Missing,
        }
    }
}

impl Clone for Hget {
    fn clone(&self) -> (copy: Hget)
        ensures
            copy@ == self@,
    {
        Hget { table: self.table.clone(), key: self.key.clone() }
    }
}

impl Clone for Hgetall {
    fn clone(&self) -> (copy: Hgetall)
        ensures
            copy@ == self@,
    {
        Hgetall { table: self.table.clone() }
    }
}

impl Clone for Hset {
    fn clone(&self) -> (copy: Hset)
        ensures
            copy@ == self@,
    {
        let pair = match &self.pair {
            Some(p) => Some(p.clone()),
            None => None,
        };
        Hset { table: self.table.clone(), pair }
    }
}

impl Clone for Hdel {
    fn clone(&self) -> (copy: Hdel)
        ensures
            copy@ == self@,
    {
        Hdel { table: self.table.clone(), key: self.key.clone() }
    }
}

impl Clone for Hexist {
    fn clone(&self) -> (copy: Hexist)
        ensures
            copy.table@ == self.table@,
            copy.key@ == self.key@,
    {
        Hexist { table: self.table.clone(), key: self.key.clone() }
    }
}

impl Clone for RequestData {
    fn clone(&self) -> (copy: RequestData)
        ensures
            copy@ == self@,
    {
        match self {
            RequestData::Hget(c) => RequestData::Hget(c.clone()),
            RequestData::Hgetall(c) => RequestData::Hgetall(c.clone()),
            RequestData::Hset(c) => RequestData::Hset(c.clone()),
            RequestData::Hdel(c) => RequestData::Hdel(c.clone()),
            RequestData::Hexist(c) => RequestData::Hexist(c.clone()),
        }
    }
}

impl Clone for CommandRequest {
    fn clone(&self) -> (copy: CommandRequest)
        ensures
            copy@ == self@,
    {
        let request_data = match &self.request_data {
            Some(data) => Some(data.clone()),
            None => None,
        };
        CommandRequest { request_data }
    }
}

impl CommandRequest {
    /// The request to write `value` under `key` in `table`.
    pub fn new_hset(table: &str, key: &str, value: Value) -> (cmd: CommandRequest)
        ensures
            cmd@ == RequestView::Hset(table@, Some((key@, value@))),
    {
        CommandRequest {
            request_data: Some(
                RequestData::Hset(
                    Hset { table: table.to_owned(), pair: Some(Kvpair::new(key, value)) },
                ),
            ),
        }
    }

    /// The request to read the value under `key` in `table`.
    pub fn new_hget(table: &str, key: &str) -> (cmd: CommandRequest)
        ensures
            cmd@ == RequestView::Hget(table@, key@),
    {
        CommandRequest {
            request_data: Some(
                RequestData::Hget(Hget { table: table.to_owned(), key: key.to_owned() }),
            ),
        }
    }

    /// The request to remove `key` from `table`.
    pub fn new_hdel(table: &str, key: &str) -> (cmd: CommandRequest)
        ensures
            cmd@ == RequestView::Hdel(table@, key@),
    {
        CommandRequest {
            request_data: Some(
                RequestData::Hdel(Hdel { table: table.to_owned(), key: key.to_owned() }),
            ),
        }
    }

    /// The request to read all the pairs of `table`.
    pub fn new_hgetall(table: &str) -> (cmd: CommandRequest)
        ensures
            cmd@ == RequestView::Hgetall(table@),
    {
        CommandRequest {
            request_data: Some(RequestData::Hgetall(Hgetall { table: table.to_owned() })),
        }
    }
}

} // verus!
