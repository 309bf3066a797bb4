use bytes::Bytes;
use rpc_perf::clients::redis2;
use rpc_perf::clients::resp::{DeleteOutcome, GetOutcome, Response, SetOutcome};
use rpc_perf::clients::resp_lite::{
    validate_delete_response, validate_get_response, validate_ping_response, validate_set_response, KvLatency,
    RequestWithValidator, Unsupported, Validated,
};
use rpc_perf::clients::{remaining_ms, response_event, step, Phase, ResponseError, TaskEvent};
use rpc_perf::workload::client::{ClientRequest, Delete, Get, HashGetAll, Ping, SetValue};
use rpc_perf::workload::ClientWorkItemKind;
use rpc_perf::clients::redis::{list_push_back_result, list_push_back_trim, PushOutcome};
use rpc_perf::clients::momento::{sorted_set_add_plan, sorted_set_range_plan, SortedSetAddPlan, SortedSetRangePlan};
use rpc_perf::workload::client::{ListPushFront, SortedSetAdd, SortedSetRange};
use rpc_perf::clients::momento::{list_push_front_plan, ListPushFrontPlan};

fn simple(s: &str) -> Response {
    Response::SimpleString(s.as_bytes().to_vec())
}

#[test]
fn get_replies() {
    assert_eq!(validate_get_response(Response::BulkString(Some(b"v".to_vec()))), Ok(GetOutcome::Hit));
    assert_eq!(validate_get_response(Response::BulkString(None)), Ok(GetOutcome::Miss));
    assert_eq!(validate_get_response(Response::error("ERR")), Err(()));
    assert_eq!(validate_get_response(simple("OK")), Err(()));
}

#[test]
fn set_replies() {
    assert_eq!(validate_set_response(simple("OK")), Ok(SetOutcome::Stored));
    assert_eq!(validate_set_response(Response::BulkString(None)), Ok(SetOutcome::NotStored));
    assert_eq!(validate_set_response(simple("QUEUED")), Err(()));
    assert_eq!(validate_set_response(Response::BulkString(Some(vec![]))), Err(()));
    assert_eq!(validate_set_response(Response::Integer(1)), Err(()));
}

#[test]
fn delete_replies() {
    assert_eq!(validate_delete_response(Response::Integer(1)), Ok(DeleteOutcome::Deleted));
    assert_eq!(validate_delete_response(Response::Integer(0)), Ok(DeleteOutcome::NotFound));
    assert_eq!(validate_delete_response(Response::Integer(-1)), Ok(DeleteOutcome::NotFound));
    assert_eq!(validate_delete_response(Response::error("exception")), Err(()));
    assert_eq!(validate_delete_response(Response::Array(None)), Err(()));
}

#[test]
fn ping_replies() {
    assert_eq!(validate_ping_response(simple("PONG")), Ok(()));
    assert_eq!(validate_ping_response(simple("PONGS")), Err(()));
    assert_eq!(validate_ping_response(simple("pong")), Err(()));
    assert_eq!(validate_ping_response(Response::Array(Some(vec![simple("PONG")]))), Err(()));
}

#[test]
fn redis2_replies() {
    assert_eq!(redis2::get::validate_response(Response::BulkString(Some(vec![1]))), Ok(GetOutcome::Hit));
    assert_eq!(redis2::get::validate_response(Response::BulkString(None)), Ok(GetOutcome::Miss));
    assert_eq!(redis2::get::validate_response(Response::error("ERR")), Err(()));
    assert_eq!(redis2::set::validate_response(simple("OK")), Ok(SetOutcome::Stored));
    assert_eq!(redis2::set::validate_response(simple("NO")), Ok(SetOutcome::NotStored));
    assert_eq!(redis2::set::validate_response(Response::BulkString(None)), Err(()));
}

#[test]
fn ping_bytes_are_a_resp_array() {
    assert_eq!(RequestWithValidator::ping_bytes(), b"*1\r\n$4\r\nPING\r\n".to_vec());
    assert!(RequestWithValidator::ping().is_ping());
}

#[test]
fn work_items_to_commands() {
    let get = ClientWorkItemKind::Request { request: ClientRequest::Get(Get { key: b"k".to_vec() }), sequence: 1 };
    assert_eq!(RequestWithValidator::try_from(&get), Ok(RequestWithValidator::Get { key: b"k".to_vec() }));
    let del = ClientWorkItemKind::Request { request: ClientRequest::Delete(Delete { key: b"d".to_vec() }), sequence: 2 };
    assert_eq!(RequestWithValidator::try_from(&del), Ok(RequestWithValidator::Delete { key: b"d".to_vec() }));
    let set = ClientWorkItemKind::Request {
        request: ClientRequest::SetValue(SetValue { key: b"s".to_vec(), value: Bytes::from_static(b"v"), ttl: Some(9) }),
        sequence: 3,
    };
    let cmd = RequestWithValidator::try_from(&set).unwrap();
    assert_eq!(cmd, RequestWithValidator::SetValue { key: b"s".to_vec(), value: Bytes::from_static(b"v"), ttl: Some(9) });
    assert_eq!(cmd.kv_latency(), Some(KvLatency::SetValue));
    let ping = ClientWorkItemKind::Request { request: ClientRequest::Ping(Ping {}), sequence: 4 };
    assert_eq!(RequestWithValidator::try_from(&ping), Ok(RequestWithValidator::Ping));
    let other = ClientWorkItemKind::Request { request: ClientRequest::HashGetAll(HashGetAll { key: b"h".to_vec() }), sequence: 5 };
    assert_eq!(RequestWithValidator::try_from(&other), Err(Unsupported::Request));
    let reconnect: ClientWorkItemKind<ClientRequest> = ClientWorkItemKind::Reconnect;
    assert_eq!(RequestWithValidator::try_from(&reconnect), Err(Unsupported::NotARequest));
}

#[test]
fn command_validation_dispatch() {
    let get = RequestWithValidator::Get { key: b"k".to_vec() };
    assert_eq!(get.validate(Response::BulkString(None)), Ok(Validated::Get(GetOutcome::Miss)));
    assert_eq!(get.kv_latency(), Some(KvLatency::Get));
    let del = RequestWithValidator::Delete { key: b"k".to_vec() };
    assert_eq!(del.validate(Response::Integer(2)), Ok(Validated::Delete(DeleteOutcome::Deleted)));
    assert_eq!(del.kv_latency(), None);
    let set = RequestWithValidator::SetValue { key: b"k".to_vec(), value: Bytes::from_static(b"v"), ttl: None };
    assert_eq!(set.validate(simple("OK")), Ok(Validated::SetValue(SetOutcome::Stored)));
    assert_eq!(set.validate(Response::BulkString(None)), Ok(Validated::SetValue(SetOutcome::NotStored)));
    assert_eq!(set.validate(Response::Integer(0)), Err(()));
    assert_eq!(RequestWithValidator::Ping.validate(simple("PONG")), Ok(Validated::Pong));
    assert_eq!(RequestWithValidator::Ping.validate(Response::error("exception")), Err(()));
}

#[test]
fn a_session_connects_sends_and_keeps_the_connection() {
    let s = step(Phase::Disconnected, TaskEvent::Connected);
    assert_eq!(s.phase, Phase::Ready);
    assert_eq!((s.counts.connect, s.counts.connect_ok, s.counts.connect_curr_up), (1, 1, 1));
    let s = step(Phase::Ready, TaskEvent::Supported);
    assert_eq!(s.phase, Phase::Awaiting);
    assert!(s.send);
    assert_eq!((s.counts.request, s.counts.request_ok), (1, 1));
    let s = step(Phase::Awaiting, TaskEvent::Valid);
    assert_eq!(s.phase, Phase::Ready);
    assert!(s.record_latency);
    assert_eq!((s.counts.response_ok, s.counts.connect_curr_down), (1, 0));
}

#[test]
fn failures_drop_the_connection() {
    for e in [TaskEvent::SendFailed, TaskEvent::Invalid, TaskEvent::Exception, TaskEvent::TimedOut] {
        let s = step(Phase::Awaiting, e);
        assert_eq!(s.phase, Phase::Disconnected);
        assert_eq!(s.counts.connect_curr_down, 1);
        assert!(!s.record_latency);
    }
    assert_eq!(step(Phase::Awaiting, TaskEvent::TimedOut).counts.response_timeout, 1);
    assert_eq!(step(Phase::Awaiting, TaskEvent::Exception).counts.response_ex, 1);
    let s = step(Phase::Ready, TaskEvent::Reconnect);
    assert_eq!(s.phase, Phase::Disconnected);
    assert_eq!((s.counts.request, s.counts.connect_curr_down), (1, 1));
}

#[test]
fn failed_connections_sleep() {
    let s = step(Phase::Disconnected, TaskEvent::ConnectFailed);
    assert_eq!((s.phase, s.sleep_ms, s.counts.connect_ex), (Phase::Disconnected, 100, 1));
    let s = step(Phase::Disconnected, TaskEvent::ConnectTimedOut);
    assert_eq!((s.phase, s.sleep_ms, s.counts.connect_timeout), (Phase::Disconnected, 100, 1));
    let s = step(Phase::Ready, TaskEvent::Unsupported);
    assert_eq!((s.phase, s.counts.request_unsupported), (Phase::Ready, 1));
}

#[test]
fn counters_agree_over_a_run() {
    let events = [
        TaskEvent::ConnectFailed,
        TaskEvent::Connected,
        TaskEvent::Supported,
        TaskEvent::Valid,
        TaskEvent::Unsupported,
        TaskEvent::Supported,
        TaskEvent::TimedOut,
        TaskEvent::Connected,
        TaskEvent::Reconnect,
        TaskEvent::Connected,
        TaskEvent::Supported,
    ];
    let mut phase = Phase::Disconnected;
    let (mut connect, mut ok, mut ex, mut to, mut up, mut down) = (0, 0, 0, 0, 0i64, 0i64);
    let (mut req, mut req_ok, mut unsup, mut resp) = (0, 0, 0, 0);
    for e in events {
        let s = step(phase, e);
        phase = s.phase;
        connect += s.counts.connect;
        ok += s.counts.connect_ok;
        ex += s.counts.connect_ex;
        to += s.counts.connect_timeout;
        up += s.counts.connect_curr_up as i64;
        down += s.counts.connect_curr_down as i64;
        req += s.counts.request;
        req_ok += s.counts.request_ok;
        unsup += s.counts.request_unsupported;
        resp += s.counts.response_ok + s.counts.response_ex + s.counts.response_timeout;
    }
    assert_eq!(phase, Phase::Awaiting);
    assert_eq!(connect, ok + ex + to);
    assert_eq!(up - down, 1);
    assert_eq!(req, 1 + unsup + req_ok);
    assert_eq!(req_ok, resp + 1);
}

#[test]
fn response_outcomes_to_events() {
    assert_eq!(response_event(Ok(true)), TaskEvent::Valid);
    assert_eq!(response_event(Ok(false)), TaskEvent::Invalid);
    assert_eq!(response_event(Err(ResponseError::Exception)), TaskEvent::Exception);
    assert_eq!(response_event(Err(ResponseError::Timeout)), TaskEvent::TimedOut);
}

#[test]
fn remaining_time() {
    assert_eq!(remaining_ms(1_000, 250), 750);
    assert_eq!(remaining_ms(1_000, 1_000), 0);
    assert_eq!(remaining_ms(1_000, 5_000), 0);
}

#[test]
fn list_push_back_trims_after_a_successful_push() {
    assert_eq!(list_push_back_trim(&Ok(()), Some(10)), Some(-11));
    assert_eq!(list_push_back_trim(&Ok(()), None), None);
    assert_eq!(list_push_back_trim(&Err(ResponseError::Timeout), Some(10)), None);
    assert_eq!(list_push_back_trim(&Ok(()), Some(u32::MAX)), Some(-(u32::MAX as i64) - 1));
}

#[test]
fn list_push_back_results() {
    assert_eq!(list_push_back_result(Ok(()), None), (Ok(()), PushOutcome::Succeeded));
    assert_eq!(
        list_push_back_result(Ok(()), Some(Err(ResponseError::Timeout))),
        (Err(ResponseError::Timeout), PushOutcome::Timeout)
    );
    assert_eq!(
        list_push_back_result(Err(ResponseError::Exception), None),
        (Err(ResponseError::Exception), PushOutcome::Exception)
    );
    assert_eq!(list_push_back_result(Ok(()), Some(Ok(()))), (Ok(()), PushOutcome::Succeeded));
}

#[test]
fn sorted_set_plans() {
    let add = |n: usize| SortedSetAdd { key: b"z".to_vec(), members: vec![b"m".to_vec(); n], ttl: None };
    assert_eq!(sorted_set_add_plan(&add(0)), SortedSetAddPlan::Nothing);
    assert_eq!(sorted_set_add_plan(&add(1)), SortedSetAddPlan::PutElement);
    assert_eq!(sorted_set_add_plan(&add(3)), SortedSetAddPlan::PutElements);
    let r = SortedSetRange { key: b"z".to_vec(), start: Some(1), end: None, by_score: false };
    assert_eq!(sorted_set_range_plan(&r), SortedSetRangePlan::ByRank { start: Some(1), end: None });
    let r = SortedSetRange { key: b"z".to_vec(), start: None, end: Some(9), by_score: true };
    assert_eq!(sorted_set_range_plan(&r), SortedSetRangePlan::ByScore { min: None, max: Some(9) });
}

#[test]
fn one_task_per_connection_and_endpoint() {
    let endpoints = vec!["10.0.0.1:6379".to_string(), "10.0.0.2:6379".to_string()];
    assert_eq!(
        rpc_perf::clients::resp_lite::launch_tasks(2, &endpoints),
        vec![endpoints[0].clone(), endpoints[1].clone(), endpoints[0].clone(), endpoints[1].clone()]
    );
    assert!(rpc_perf::clients::resp_lite::launch_tasks(0, &endpoints).is_empty());
    assert!(rpc_perf::clients::resp_lite::launch_tasks(3, &vec![]).is_empty());
}

#[test]
fn list_push_front_plans() {
    let push = |n: u8| ListPushFront { key: b"l".to_vec(), elements: (0..n).map(|i| vec![i]).collect(), truncate: None, ttl: None };
    assert_eq!(list_push_front_plan(&push(1)), ListPushFrontPlan::PushFront(vec![0]));
    assert_eq!(list_push_front_plan(&push(3)), ListPushFrontPlan::ConcatFront(vec![vec![2], vec![1], vec![0]]));
    assert_eq!(list_push_front_plan(&push(0)), ListPushFrontPlan::ConcatFront(vec![]));
}
