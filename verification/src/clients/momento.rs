use crate::workload::client::{ListPushFront, SortedSetAdd, SortedSetRange};
use vstd::prelude::*;

verus! {

/// How members are added to a sorted set.
#[derive(Clone, Copy, Debug, PartialEq, Eq, Structural)]
pub enum SortedSetAddPlan {
    /// No member: nothing is sent, and the add succeeds.
    Nothing,
    /// One member: a put of one element.
    PutElement,
    /// Several members: a put of all the elements at once.
    PutElements,
}

/// How members are added to a sorted set, by how many there are.
pub fn sorted_set_add_plan(request: &SortedSetAdd) -> (r: SortedSetAddPlan)
    ensures
        r == (if request.members@.len() == 0 {
            SortedSetAddPlan::Nothing
        } else if request.members@.len() == 1 {
            SortedSetAddPlan::PutElement
        } else {
            SortedSetAddPlan::PutElements
        }),
{
    if request.members.len() == 0 {
        SortedSetAddPlan::Nothing
    } else if request.members.len() == 1 {
        SortedSetAddPlan::PutElement
    } else {
        SortedSetAddPlan::PutElements
    }
}

/// A fetch of a range of a sorted set, in ascending order.
#[derive(Clone, Copy, Debug, PartialEq, Eq, Structural)]
pub enum SortedSetRangePlan {
    /// By rank, from `start` to `end` where they are given.
    ByRank { start: Option<i32>, end: Option<i32> },
    /// By score, from `min` to `max` where they are given.
    ByScore { min: Option<i32>, max: Option<i32> },
}

/// The fetch a range request asks for: by score when it says so, else by
/// rank, with its bounds.
pub fn sorted_set_range_plan(request: &SortedSetRange) -> (r: SortedSetRangePlan)
    ensures
        r == (if request.by_score {
            SortedSetRangePlan::ByScore { min: request.start, max: request.end }
        } else {
            SortedSetRangePlan::ByRank { start: request.start, end: request.end }
        }),
{
    if request.by_score {
        SortedSetRangePlan::ByScore { min: request.start, max: request.end }
    } else {
        SortedSetRangePlan::ByRank { start: request.start, end: request.end }
    }
}

/// How elements are pushed at the front of a list.
#[derive(Clone, Debug, PartialEq)]
pub enum ListPushFrontPlan {
    /// One element: a push of it at the front.
    PushFront(Vec<u8>),
    /// Several elements: a concatenation at the front of the elements in
    /// reverse order, so that the list ends as after pushing them one by
    /// one.
    ConcatFront(Vec<Vec<u8>>),
}

/// How the elements of a push at the front of a list are sent.
pub fn list_push_front_plan(request: &ListPushFront) -> (r: ListPushFrontPlan)
    ensures
        request.elements@.len() == 1 ==> (r matches ListPushFrontPlan::PushFront(e) && e@
            == request.elements@[0]@),
        request.elements@.len() != 1 ==> (r matches ListPushFrontPlan::ConcatFront(es) && es@.len()
            == request.elements@.len() && forall|i: int|
            0 <= i < es@.len() ==> (#[trigger] es@[i])@ == request.elements@[request.elements@.len() - 1 - i]@),
{
    let n = request.elements.len();
    if n == 1 {
        return ListPushFrontPlan::PushFront(request.elements[0].clone());
    }
    let mut es: Vec<Vec<u8>> = Vec::new();
    let mut j: usize = n;
    while j > 0
        invariant
            n == request.elements@.len(),
            j <= n,
            es@.len() == n - j,
            forall|i: int| 0 <= i < es@.len() ==> (#[trigger] es@[i])@ == request.elements@[n - 1 - i]@,
        decreases j,
    {
        es.push(request.elements[j - 1].clone());
        j = j - 1;
    }
    ListPushFrontPlan::ConcatFront(es)
}

} // verus!
