use crate::clients::resp::{is_ok_text, ok_text, Response, SetOutcome};
use vstd::prelude::*;

verus! {

/// Checks the reply to a write: a simple string is `OK` when the value was
/// stored and anything else when it was not; any other reply is an
/// exception.
pub fn validate_response(response: Response) -> (r: Result<SetOutcome, ()>)
    ensures
        r == (match response {
            Response::SimpleString(s) => if s@ == ok_text() {
                Ok(SetOutcome::Stored)
            } else {
                Ok(SetOutcome::NotStored)
            },
            _ => Err::<SetOutcome, ()>(()),
        }),
{
    match response {
        Response::SimpleString(s) => {
            if is_ok_text(&s) {
                Ok(SetOutcome::Stored)
            } else {
                Ok(SetOutcome::NotStored)
            }
        },
        _ => Err(()),
    }
}

} // verus!
