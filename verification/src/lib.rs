//! An in-memory key-value store whose keys live in named tables, with a
//! command layer that turns typed requests into typed responses.

pub mod error;
pub mod mem_table;
pub mod request;
pub mod response;
pub mod service;
pub mod storage;
pub mod value;

pub use error::{ErrorView, KvError};
pub use mem_table::MemTable;
pub use request::{CommandRequest, Hdel, Hexist, Hget, Hgetall, Hset, RequestData, RequestView};
pub use response::{CommandResponse, ResponseView};
pub use service::{dispatch, Service, ServiceInner};
pub use storage::{Storage, StorageIter};
pub use value::{Kvpair, Value, ValueView};
