use crate::clients::resp::{GetOutcome, Response};
use vstd::prelude::*;

verus! {

/// Checks the reply to a read: a bulk string is a hit, the null bulk string
/// a miss; any other reply is an exception.
pub fn validate_response(response: Response) -> (r: Result<GetOutcome, ()>)
    ensures
        r == (match response {
            Response::BulkString(Some(_)) => Ok(GetOutcome::Hit),
            Response::BulkString(None) => Ok(GetOutcome::Miss),
            _ => Err::<GetOutcome, ()>(()),
        }),
{
    match response {
        Response::BulkString(value) => {
            if value.is_none() {
                Ok(GetOutcome::Miss)
            } else {
                Ok(GetOutcome::Hit)
            }
        },
        _ => Err(()),
    }
}

} // verus!
