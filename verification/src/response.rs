//! The response envelope and how values, pairs and errors become one.

use vstd::prelude::*;
use vstd::std_specs::cmp::PartialEqSpecImpl;
use vstd::std_specs::convert::FromSpecImpl;
use crate::error::{ErrorView, KvError};
use crate::value::{pairs_view, values_view, Kvpair, PairView, Value, ValueView};

verus! {

/// What a [`CommandResponse`] stands for in contracts.
pub ghost struct ResponseView {
    pub status: u32,
    pub message: Seq<char>,
    pub values: Seq<ValueView>,
    pub pairs: Seq<PairView>,
}

/// The answer to a command: a status number, a message that is empty on
/// success, and the values or the pairs that the command yields.
#[derive(Debug, Eq)]
pub struct CommandResponse {
    pub status: u32,
    pub message: String,
    pub values: Vec<Value>,
    pub pairs: Vec<Kvpair>,
}

impl View for CommandResponse {
    type V = ResponseView;

    open spec fn view(&self) -> ResponseView {
        ResponseView {
            status: self.status,
            message: self.message@,
            values: values_view(self.values@),
            pairs: pairs_view(self.pairs@),
        }
    }
}

/// Whether two lists hold equal values at each place.
fn same_values(a: &Vec<Value>, b: &Vec<Value>) -> (same: bool)
    ensures
        same == (values_view(a@) == values_view(b@)),
{
    if a.len() != b.len() {
        assert(values_view(a@).len() != values_view(b@).len());
        return false;
    }
    let mut i: usize = 0;
    while i < a.len()
        invariant
            a.len() == b.len(),
            i <= a.len(),
            forall|j: int| 0 <= j < i ==> a@[j]@ == b@[j]@,
        decreases a.len() - i,
    {
        if !(a[i] == b[i]) {
            assert(values_view(a@)[i as int] != values_view(b@)[i as int]);
            return false;
        }
        i += 1;
    }
    assert(values_view(a@) =~= values_view(b@));
    true
}

/// Whether two lists hold equal pairs at each place.
fn same_pairs(a: &Vec<Kvpair>, b: &Vec<Kvpair>) -> (same: bool)
    ensures
        same == (pairs_view(a@) == pairs_view(b@)),
{
    if a.len() != b.len() {
        assert(pairs_view(a@).len() != pairs_view(b@).len());
        return false;
    }
    let mut i: usize = 0;
    while i < a.len()
        invariant
            a.len() == b.len(),
            i <= a.len(),
            forall|j: int| 0 <= j < i ==> a@[j]@ == b@[j]@,
        decreases a.len() - i,
    {
        if !(a[i] == b[i]) {
            assert(pairs_view(a@)[i as int] != pairs_view(b@)[i as int]);
            return false;
        }
        i += 1;
    }
    assert(pairs_view(a@) =~= pairs_view(b@));
    true
}

impl PartialEq for CommandResponse {
    fn eq(&self, other: &CommandResponse) -> (same: bool) {
        self.status == other.status && self.message == other.message && same_values(
            &self.values,
            &other.values,
        ) && same_pairs(&self.pairs, &other.pairs)
    }
}

impl PartialEqSpecImpl for CommandResponse {
    open spec fn obeys_eq_spec() -> bool {
        true
    }

    open spec fn eq_spec(&self, other: &CommandResponse) -> bool {
        self@ == other@
    }
}

/// The status of a success.
pub const STATUS_OK: u32 = 200;

/// The status of a malformed request.
pub const STATUS_BAD_REQUEST: u32 = 400;

/// The status of a read that found nothing.
pub const STATUS_NOT_FOUND: u32 = 404;

/// The status of every other failure.
pub const STATUS_INTERNAL_ERROR: u32 = 500;

/// The status that stands for an error.
pub open spec fn error_status(e: ErrorView) -> u32 {
    match e {
        ErrorView::NotFound(_, _) => STATUS_NOT_FOUND,
        ErrorView::InvalidCommand(_) => STATUS_BAD_REQUEST,
        ErrorView::Internal(_) => STATUS_INTERNAL_ERROR,
    }
}

/// The successful response that carries no value and no pair.
pub open spec fn empty_reply() -> ResponseView {
    ResponseView { status: STATUS_OK, message: Seq::empty(), values: Seq::empty(), pairs: Seq::empty() }
}

/// The successful response that carries the one value `v`.
pub open spec fn value_reply(v: ValueView) -> ResponseView {
    ResponseView { status: STATUS_OK, message: Seq::empty(), values: seq![v], pairs: Seq::empty() }
}

/// The successful response that carries `pairs`, in their order.
pub open spec fn pairs_reply(pairs: Seq<PairView>) -> ResponseView {
    ResponseView { status: STATUS_OK, message: Seq::empty(), values: Seq::empty(), pairs }
}

/// The response that reports the error `e`.
pub open spec fn error_reply(e: ErrorView) -> ResponseView {
    ResponseView {
        status: error_status(e),
        message: e.message(),
        values: Seq::empty(),
        pairs: Seq::empty(),
    }
}

/// `http::StatusCode::OK.as_u16()`: the number of the status "200 OK".
#[verifier::external_body]
fn ok_code() -> (code: u16)
    ensures
        code == 200,
{
    http::StatusCode::OK.as_u16()
}

/// `http::StatusCode::BAD_REQUEST.as_u16()`: the number of the status
/// "400 Bad Request".
#[verifier::external_body]
fn bad_request_code() -> (code: u16)
    ensures
        code == 400,
{
    http::StatusCode::BAD_REQUEST.as_u16()
}

/// `http::StatusCode::NOT_FOUND.as_u16()`: the number of the status
/// "404 Not Found".
#[verifier::external_body]
fn not_found_code() -> (code: u16)
    ensures
        code == 404,
{
    http::StatusCode::NOT_FOUND.as_u16()
}

/// `http::StatusCode::INTERNAL_SERVER_ERROR.as_u16()`: the number of the
/// status "500 Internal Server Error".
#[verifier::external_body]
fn internal_error_code() -> (code: u16)
    ensures
        code == 500,
{
    http::StatusCode::INTERNAL_SERVER_ERROR.as_u16()
}

impl CommandResponse {
    /// The successful response with no value and no pair.
    pub fn empty() -> (res: CommandResponse)
        ensures
            res@ == empty_reply(),
    {
        let res = CommandResponse {
            status: ok_code() as u32,
            message: String::new(),
            values: Vec::new(),
            pairs: Vec::new(),
        };
        assert(res@.values =~= Seq::empty());
        assert(res@.pairs =~= Seq::empty());
        res
    }

    /// The successful response that carries the one value `v`.
    pub fn from_value(v: Value) -> (res: CommandResponse)
        ensures
            res@ == value_reply(v@),
    {
        let mut values: Vec<Value> = Vec::new();
        values.push(v);
        let res = CommandResponse {
            status: ok_code() as u32,
            message: String::new(),
            values,
            pairs: Vec::new(),
        };
        assert(res@.values =~= seq![v@]);
        assert(res@.pairs =~= Seq::empty());
        res
    }

    /// The successful response that carries `pairs`, in the order received.
    pub fn from_pairs(pairs: Vec<Kvpair>) -> (res: CommandResponse)
        ensures
            res@ == pairs_reply(pairs_view(pairs@)),
    {
        let res = CommandResponse {
            status: ok_code() as u32,
            message: String::new(),
            values: Vec::new(),
            pairs,
        };
        assert(res@.values =~= Seq::empty());
        res
    }

    /// The response that reports `e`: the status of its class, its
    /// description as the message, no value and no pair.
    pub fn from_error(e: KvError) -> (res: CommandResponse)
        ensures
            res@ == error_reply(e@),
    {
        let status: u32 = match e {
            KvError::NotFound(_, _) => not_found_code() as u32,
            KvError::InvalidCommand(_) => bad_request_code() as u32,
            _ => internal_error_code() as u32,
        };
        let res = CommandResponse {
            status,
            message: e.message(),
            values: Vec::new(),
            pairs: Vec::new(),
        };
        assert(res@.values =~= Seq::empty());
        assert(res@.pairs =~= Seq::empty());
        res
    }
}

impl From<Value> for CommandResponse {
    /// The successful response that carries the one value `v`.
    fn from(v: Value) -> (res: CommandResponse)
        ensures
            res@ == value_reply(v@),
    {
        CommandResponse::from_value(v)
    }
}

impl FromSpecImpl<Value> for CommandResponse {
    open spec fn obeys_from_spec() -> bool {
        false
    }

    open spec fn from_spec(v: Value) -> CommandResponse {
        arbitrary()
    }
}

impl From<Vec<Kvpair>> for CommandResponse {
    /// The successful response that carries `pairs`, in the order received.
    fn from(pairs: Vec<Kvpair>) -> (res: CommandResponse)
        ensures
            res@ == pairs_reply(pairs_view(pairs@)),
    {
        CommandResponse::from_pairs(pairs)
    }
}

impl FromSpecImpl<Vec<Kvpair>> for CommandResponse {
    open spec fn obeys_from_spec() -> bool {
        false
    }

    open spec fn from_spec(pairs: Vec<Kvpair>) -> CommandResponse {
        arbitrary()
    }
}

impl From<KvError> for CommandResponse {
    /// The response that reports `e`.
    fn from(e: KvError) -> (res: CommandResponse)
        ensures
            res@ == error_reply(e@),
    {
        CommandResponse::from_error(e)
    }
}

impl FromSpecImpl<KvError> for CommandResponse {
    open spec fn obeys_from_spec() -> bool {
        false
    }

    open spec fn from_spec(e: KvError) -> CommandResponse {
        arbitrary()
    }
}

} // verus!
