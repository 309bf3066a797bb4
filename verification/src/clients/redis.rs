use crate::clients::ResponseError;
use vstd::prelude::*;

verus! {

/// The start of the `LTRIM` that follows a push of a list truncated to
/// `len`: `-(len + 1)`, counted from the end of the list.
pub open spec fn trim_start(len: u32) -> int {
    -(len + 1)
}

/// Whether a push at the back of a list is followed by an `LTRIM`, and from
/// where: only after a push that succeeded, for a list with a truncate.
pub fn list_push_back_trim(push: &Result<(), ResponseError>, truncate: Option<u32>) -> (r: Option<i64>)
    ensures
        r == (match (push, truncate) {
            (Ok(_), Some(len)) => Some(trim_start(len) as i64),
            _ => None::<i64>,
        }),
{
    match (push, truncate) {
        (Ok(_), Some(len)) => Some(-((len as i64) + 1)),
        _ => None,
    }
}

/// The counter a finished list push counts into.
#[derive(Clone, Copy, Debug, PartialEq, Eq, Structural)]
pub enum PushOutcome {
    Succeeded,
    Timeout,
    Exception,
}

/// The result of a push at the back of a list: the trim's result when one
/// followed, else the push's; and the counter it counts into.
pub fn list_push_back_result(
    push: Result<(), ResponseError>,
    trim: Option<Result<(), ResponseError>>,
) -> (r: (Result<(), ResponseError>, PushOutcome))
    requires
        push is Err ==> trim is None,
    ensures
        r.0 == (match trim {
            Some(t) => t,
            None => push,
        }),
        r.1 == (match r.0 {
            Ok(_) => PushOutcome::Succeeded,
            Err(ResponseError::Timeout) => PushOutcome::Timeout,
            Err(_) => PushOutcome::Exception,
        }),
{
    let result = match trim {
        Some(t) => t,
        None => push,
    };
    let outcome = match result {
        Ok(_) => PushOutcome::Succeeded,
        Err(ResponseError::Timeout) => PushOutcome::Timeout,
        Err(_) => PushOutcome::Exception,
    };
    (result, outcome)
}

} // verus!
