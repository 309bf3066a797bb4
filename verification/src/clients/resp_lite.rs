use crate::clients::resp::{
    is_ok_text, is_pong_text, ok_text, pong_text, DeleteOutcome, GetOutcome, Response, SetOutcome,
};
use crate::workload::client::ClientRequest;
use crate::workload::ClientWorkItemKind;
use crate::workload::buf::bytes_view;
use bytes::Bytes;
use vstd::prelude::*;

verus! {

/// The RESP command of a work item, with what its reply is checked for.
#[derive(Clone, Debug, PartialEq)]
pub enum RequestWithValidator {
    /// `GET key`.
    Get { key: Vec<u8> },
    /// `SET key value`, with an expiry in seconds when there is a ttl.
    SetValue { key: Vec<u8>, value: Bytes, ttl: Option<u64> },
    /// `DEL key`.
    Delete { key: Vec<u8> },
    /// `PING`, sent as raw bytes.
    Ping,
}

/// What a checked reply says, by command.
#[derive(Clone, Copy, Debug, PartialEq, Eq, Structural)]
pub enum Validated {
    Get(GetOutcome),
    SetValue(SetOutcome),
    Delete(DeleteOutcome),
    Pong,
}

/// The latency histogram a command records into, besides the one of all
/// responses.
#[derive(Clone, Copy, Debug, PartialEq, Eq, Structural)]
pub enum KvLatency {
    Get,
    SetValue,
}

/// Why a work item has no RESP command.
#[derive(Clone, Copy, Debug, PartialEq, Eq, Structural)]
pub enum Unsupported {
    /// The work item is an order to reconnect.
    NotARequest,
    /// The request has no command in this protocol.
    Request,
}

/// The bytes of `PING` as a RESP array: `*1\r\n$4\r\nPING\r\n`.
pub open spec fn ping_command() -> Seq<u8> {
    seq![0x2au8, 0x31u8, 0x0du8, 0x0au8, 0x24u8, 0x34u8, 0x0du8, 0x0au8, 0x50u8, 0x49u8, 0x4eu8, 0x47u8, 0x0du8, 0x0au8]
}

/// Checks the reply to `GET`: a bulk string is a hit, the null bulk string
/// a miss; anything else is an exception.
pub fn validate_get_response(response: Response) -> (r: Result<GetOutcome, ()>)
    ensures
        r == (match response {
            Response::BulkString(Some(_)) => Ok(GetOutcome::Hit),
            Response::BulkString(None) => Ok(GetOutcome::Miss),
            _ => Err::<GetOutcome, ()>(()),
        }),
{
    match response {
        Response::BulkString(data) => {
            if data.is_none() {
                Ok(GetOutcome::Miss)
            } else {
                Ok(GetOutcome::Hit)
            }
        },
        Response::Error(_) => Err(()),
        _ => Err(()),
    }
}

/// Checks the reply to `SET`: `OK` is stored, the null bulk string (a
/// condition not met) is not stored; anything else is an exception.
pub fn validate_set_response(response: Response) -> (r: Result<SetOutcome, ()>)
    ensures
        r == (match response {
            Response::SimpleString(s) => if s@ == ok_text() {
                Ok(SetOutcome::Stored)
            } else {
                Err::<SetOutcome, ()>(())
            },
            Response::BulkString(None) => Ok(SetOutcome::NotStored),
            _ => Err::<SetOutcome, ()>(()),
        }),
{
    match response {
        Response::SimpleString(s) => {
            if is_ok_text(&s) {
                Ok(SetOutcome::Stored)
            } else {
                Err(())
            }
        },
        Response::BulkString(data) => {
            if data.is_none() {
                Ok(SetOutcome::NotStored)
            } else {
                Err(())
            }
        },
        Response::Error(_) => Err(()),
        _ => Err(()),
    }
}

/// Checks the reply to `DEL`: a positive count is a removal, any other
/// count a key not found; anything else is an exception.
pub fn validate_delete_response(response: Response) -> (r: Result<DeleteOutcome, ()>)
    ensures
        r == (match response {
            Response::Integer(n) => if n > 0 {
                Ok(DeleteOutcome::Deleted)
            } else {
                Ok(DeleteOutcome::NotFound)
            },
            _ => Err::<DeleteOutcome, ()>(()),
        }),
{
    match response {
        Response::Integer(n) => {
            if n > 0 {
                Ok(DeleteOutcome::Deleted)
            } else {
                Ok(DeleteOutcome::NotFound)
            }
        },
        Response::Error(_) => Err(()),
        _ => Err(()),
    }
}

/// Checks the reply to `PING`: `PONG` only.
pub fn validate_ping_response(response: Response) -> (r: Result<(), ()>)
    ensures
        r == (match response {
            Response::SimpleString(s) => if s@ == pong_text() {
                Ok(())
            } else {
                Err::<(), ()>(())
            },
            _ => Err::<(), ()>(()),
        }),
{
    match response {
        Response::SimpleString(s) => {
            if is_pong_text(&s) {
                Ok(())
            } else {
                Err(())
            }
        },
        Response::Error(_) => Err(()),
        _ => Err(()),
    }
}

impl RequestWithValidator {
    /// The command of a read.
    pub fn from_get(other: &crate::workload::client::Get) -> (r: Self)
        ensures
            r matches RequestWithValidator::Get { key } && key@ == other.key@,
    {
        RequestWithValidator::Get { key: other.key.clone() }
    }

    /// The command of a removal.
    pub fn from_delete(other: &crate::workload::client::Delete) -> (r: Self)
        ensures
            r matches RequestWithValidator::Delete { key } && key@ == other.key@,
    {
        RequestWithValidator::Delete { key: other.key.clone() }
    }

    /// The command of a write, expiring after the ttl in seconds when
    /// there is one.
    pub fn from_set(other: &crate::workload::client::SetValue) -> (r: Self)
        ensures
            r matches RequestWithValidator::SetValue { key, value, ttl } && key@ == other.key@
                && bytes_view(value) == bytes_view(other.value) && ttl == other.ttl,
    {
        RequestWithValidator::SetValue { key: other.key.clone(), value: other.value.clone(), ttl: other.ttl }
    }

    /// The ping command.
    pub fn ping() -> (r: Self)
        ensures
            r == RequestWithValidator::Ping,
    {
        RequestWithValidator::Ping
    }

    /// Whether the command is a ping, sent as raw bytes.
    pub fn is_ping(&self) -> (r: bool)
        ensures
            r == (self is Ping),
    {
        match self {
            RequestWithValidator::Ping => true,
            _ => false,
        }
    }

    /// The raw bytes of a ping.
    pub fn ping_bytes() -> (r: Vec<u8>)
        ensures
            r@ == ping_command(),
    {
        let r: Vec<u8> = vec![0x2au8, 0x31u8, 0x0du8, 0x0au8, 0x24u8, 0x34u8, 0x0du8, 0x0au8, 0x50u8, 0x49u8, 0x4eu8, 0x47u8, 0x0du8, 0x0au8];
        assert(r@ =~= ping_command());
        r
    }

    /// The command of a work item: reads, writes, removals and pings have
    /// one; an order to reconnect and the other requests have none.
    pub fn try_from(other: &ClientWorkItemKind<ClientRequest>) -> (r: Result<Self, Unsupported>)
        ensures
            match other {
                ClientWorkItemKind::Request { request, .. } => match request {
                    ClientRequest::Get(g) => r matches Ok(RequestWithValidator::Get { key }) && key@ == g.key@,
                    ClientRequest::Delete(d) => r matches Ok(RequestWithValidator::Delete { key }) && key@ == d.key@,
                    ClientRequest::SetValue(s) => r matches Ok(RequestWithValidator::SetValue { key, value, ttl })
                        && key@ == s.key@ && bytes_view(value) == bytes_view(s.value) && ttl == s.ttl,
                    ClientRequest::Ping(_) => r == Ok::<Self, Unsupported>(RequestWithValidator::Ping),
                    _ => r == Err::<Self, Unsupported>(Unsupported::Request),
                },
                ClientWorkItemKind::Reconnect => r == Err::<Self, Unsupported>(Unsupported::NotARequest),
            },
    {
        match other {
            ClientWorkItemKind::Request { request, .. } => match request {
                ClientRequest::Get(r) => Ok(Self::from_get(r)),
                ClientRequest::Delete(r) => Ok(Self::from_delete(r)),
                ClientRequest::SetValue(r) => Ok(Self::from_set(r)),
                ClientRequest::Ping(_) => Ok(Self::ping()),
                _ => Err(Unsupported::Request),
            },
            ClientWorkItemKind::Reconnect => Err(Unsupported::NotARequest),
        }
    }

    /// The histogram the command's latency goes into besides the one of
    /// all responses.
    pub fn kv_latency(&self) -> (r: Option<KvLatency>)
        ensures
            r == (match self {
                RequestWithValidator::Get { .. } => Some(KvLatency::Get),
                RequestWithValidator::SetValue { .. } => Some(KvLatency::SetValue),
                _ => None,
            }),
    {
        match self {
            RequestWithValidator::Get { .. } => Some(KvLatency::Get),
            RequestWithValidator::SetValue { .. } => Some(KvLatency::SetValue),
            _ => None,
        }
    }

    /// Checks a reply with the command's validator.
    pub fn validate(&self, response: Response) -> (r: Result<Validated, ()>)
        ensures
            r == (match self {
                RequestWithValidator::Get { .. } => match response {
                    Response::BulkString(Some(_)) => Ok(Validated::Get(GetOutcome::Hit)),
                    Response::BulkString(None) => Ok(Validated::Get(GetOutcome::Miss)),
                    _ => Err::<Validated, ()>(()),
                },
                RequestWithValidator::SetValue { .. } => match response {
                    Response::SimpleString(s) => if s@ == ok_text() {
                        Ok(Validated::SetValue(SetOutcome::Stored))
                    } else {
                        Err::<Validated, ()>(())
                    },
                    Response::BulkString(None) => Ok(Validated::SetValue(SetOutcome::NotStored)),
                    _ => Err::<Validated, ()>(()),
                },
                RequestWithValidator::Delete { .. } => match response {
                    Response::Integer(n) => if n > 0 {
                        Ok(Validated::Delete(DeleteOutcome::Deleted))
                    } else {
                        Ok(Validated::Delete(DeleteOutcome::NotFound))
                    },
                    _ => Err::<Validated, ()>(()),
                },
                RequestWithValidator::Ping => match response {
                    Response::SimpleString(s) => if s@ == pong_text() {
                        Ok(Validated::Pong)
                    } else {
                        Err::<Validated, ()>(())
                    },
                    _ => Err::<Validated, ()>(()),
                },
            }),
    {
        match self {
            RequestWithValidator::Get { .. } => match validate_get_response(response) {
                Ok(o) => Ok(Validated::Get(o)),
                Err(e) => Err(e),
            },
            RequestWithValidator::SetValue { .. } => match validate_set_response(response) {
                Ok(o) => Ok(Validated::SetValue(o)),
                Err(e) => Err(e),
            },
            RequestWithValidator::Delete { .. } => match validate_delete_response(response) {
                Ok(o) => Ok(Validated::Delete(o)),
                Err(e) => Err(e),
            },
            RequestWithValidator::Ping => match validate_ping_response(response) {
                Ok(_) => Ok(Validated::Pong),
                Err(e) => Err(e),
            },
        }
    }
}

/// The endpoint of each task to launch, one connection per task as RESP is
/// not multiplexed: `poolsize` rounds over the endpoints, in order.
pub fn launch_tasks(poolsize: usize, endpoints: &Vec<String>) -> (r: Vec<String>)
    requires
        poolsize * endpoints@.len() <= usize::MAX,
    ensures
        r@.len() == poolsize * endpoints@.len(),
        forall|i: int| 0 <= i < r@.len() ==> (#[trigger] r@[i])@ == endpoints@[i % endpoints@.len() as int]@,
{
    let n = endpoints.len();
    let mut r: Vec<String> = Vec::new();
    let mut round: usize = 0;
    while round < poolsize
        invariant
            n == endpoints@.len(),
            poolsize * n <= usize::MAX,
            round <= poolsize,
            r@.len() == round * n,
            forall|i: int| 0 <= i < r@.len() ==> (#[trigger] r@[i])@ == endpoints@[i % n as int]@,
        decreases poolsize - round,
    {
        let mut e: usize = 0;
        assert(round * n + n <= poolsize * n) by (nonlinear_arith)
            requires
                round < poolsize,
        ;
        while e < n
            invariant
                n == endpoints@.len(),
                round < poolsize,
                round * n + n <= usize::MAX,
                e <= n,
                r@.len() == round * n + e,
                forall|i: int| 0 <= i < r@.len() ==> (#[trigger] r@[i])@ == endpoints@[i % n as int]@,
            decreases n - e,
        {
            let ghost at = r@.len() as int;
            r.push(endpoints[e].clone());
            proof {
                assert(at % (n as int) == e as int) by (nonlinear_arith)
                    requires
                        at == round * n + e,
                        0 <= e < n,
                ;
            }
            e = e + 1;
        }
        assert((round + 1) * n == round * n + n) by (nonlinear_arith);
        round = round + 1;
    }
    r
}

} // verus!
