use dcs_ts::runtime::{
    ChannelWaitOutcome, Config, GlobalEvent, Runtime, TaskRequest, TaskResult, TaskResultValue,
    UserChannelDirection,
};
use dcs_ts::runtime::trim_newline;

fn json(text: &str) -> serde_json::Value {
    serde_json::from_str(text).unwrap()
}

fn new_runtime() -> Runtime {
    Runtime::new(Config::default())
}

fn request(target: &str, args: Option<serde_json::Value>) -> TaskRequest {
    TaskRequest { target: target.to_string(), args }
}

#[test]
fn ids_strictly_increase_from_zero() {
    let mut rt = new_runtime();
    let a = rt.add_queued_task(request("a", None));
    let b = rt.add_queued_task(request("b", None));
    let c = rt.add_user_channel(UserChannelDirection::FromLua, 4);
    let d = rt.add_queued_task(request("d", None));
    assert_eq!(a, 0);
    assert_eq!(b, 1);
    assert_eq!(c, 2);
    assert_eq!(d, 3);
}

#[test]
fn reset_restarts_ids_at_zero() {
    let mut rt = new_runtime();
    let _ = rt.add_queued_task(request("a", None));
    let _ = rt.add_queued_task(request("b", None));
    rt.reset();
    let a = rt.add_queued_task(request("c", None));
    assert_eq!(a, 0);
}

#[test]
fn drain_is_at_most_once() {
    let mut rt = new_runtime();
    let _ = rt.add_queued_task(request("a", None));
    let _ = rt.add_queued_task(request("b", None));
    let first = rt.get_queued_tasks().expect("two tasks were queued");
    assert_eq!(first.len(), 2);
    assert_eq!(first[0].target, "a");
    assert_eq!(first[1].target, "b");
    assert!(rt.get_queued_tasks().is_none());
}

#[test]
fn drain_of_empty_queue_is_absent() {
    let mut rt = new_runtime();
    assert!(rt.get_queued_tasks().is_none());
}

#[test]
fn complete_delivers_exactly_once() {
    let mut rt = new_runtime();
    let id = rt.add_queued_task(request("a", None));
    let _ = rt.get_queued_tasks();
    rt.complete_task(TaskResult { id, result: TaskResultValue::Success(Some(json("1"))) });
    // A second completion under the same id is a no-op.
    rt.complete_task(TaskResult { id, result: TaskResultValue::Error("late".to_string()) });
    match rt.take_task_result(id) {
        Some(TaskResultValue::Success(Some(v))) => assert_eq!(v, json("1")),
        _ => panic!("the first completion's result was expected"),
    }
    assert!(rt.take_task_result(id).is_none());
}

#[test]
fn completing_an_unknown_id_is_a_no_op() {
    let mut rt = new_runtime();
    rt.complete_task(TaskResult { id: 7, result: TaskResultValue::Success(None) });
    assert!(rt.take_task_result(7).is_none());
}

#[test]
fn pending_task_yields_no_result_yet() {
    let mut rt = new_runtime();
    let id = rt.add_queued_task(request("a", None));
    assert!(rt.take_task_result(id).is_none());
    rt.complete_task(TaskResult { id, result: TaskResultValue::Success(None) });
    assert!(matches!(
        rt.take_task_result(id),
        Some(TaskResultValue::Success(None))
    ));
}

#[test]
fn channel_preserves_fifo_order() {
    let mut rt = new_runtime();
    let id = rt.add_user_channel(UserChannelDirection::FromLua, 3);
    assert!(rt.send_user_channel_message(id, json("{\"n\":1}")));
    assert!(rt.send_user_channel_message(id, json("{\"n\":2}")));
    assert!(rt.send_user_channel_message(id, json("{\"n\":3}")));
    for expected in ["{\"n\":1}", "{\"n\":2}", "{\"n\":3}"] {
        match rt.receive_user_channel_message(id) {
            ChannelWaitOutcome::Message(v) => assert_eq!(v, json(expected)),
            _ => panic!("a buffered message was expected"),
        }
    }
    assert!(matches!(
        rt.receive_user_channel_message(id),
        ChannelWaitOutcome::NoMessage
    ));
}

#[test]
fn send_to_full_channel_fails() {
    let mut rt = new_runtime();
    let id = rt.add_user_channel(UserChannelDirection::FromLua, 2);
    assert!(rt.send_user_channel_message(id, json("1")));
    assert!(rt.send_user_channel_message(id, json("2")));
    assert!(!rt.send_user_channel_message(id, json("3")));
    // The refused message was dropped; the first two are still in order.
    match rt.receive_user_channel_message(id) {
        ChannelWaitOutcome::Message(v) => assert_eq!(v, json("1")),
        _ => panic!("a buffered message was expected"),
    }
    // Room again: a later send is accepted.
    assert!(rt.send_user_channel_message(id, json("4")));
}

#[test]
fn send_to_guest_owned_sender_or_unknown_channel_fails() {
    let mut rt = new_runtime();
    let to_host = rt.add_user_channel(UserChannelDirection::ToLua, 2);
    assert!(!rt.send_user_channel_message(to_host, json("1")));
    assert!(!rt.send_user_channel_message(99, json("1")));
}

#[test]
fn wait_on_sender_direction_fails_immediately() {
    let mut rt = new_runtime();
    let to_host = rt.add_user_channel(UserChannelDirection::ToLua, 2);
    assert!(matches!(
        rt.receive_user_channel_message(to_host),
        ChannelWaitOutcome::WrongDirection
    ));
}

#[test]
fn removed_channel_refuses_sends_and_waits() {
    let mut rt = new_runtime();
    let id = rt.add_user_channel(UserChannelDirection::FromLua, 2);
    assert!(rt.send_user_channel_message(id, json("1")));
    rt.remove_user_channel(id);
    assert!(!rt.send_user_channel_message(id, json("2")));
    assert!(matches!(
        rt.receive_user_channel_message(id),
        ChannelWaitOutcome::UnknownChannel
    ));
    // Removing an unknown id is safe.
    rt.remove_user_channel(42);
}

#[test]
fn reset_invalidates_ids_waiters_and_channels() {
    let mut rt = new_runtime();
    let task_id = rt.add_queued_task(request("a", None));
    let channel_id = rt.add_user_channel(UserChannelDirection::FromLua, 2);
    rt.reset();
    rt.complete_task(TaskResult { id: task_id, result: TaskResultValue::Success(None) });
    assert!(rt.take_task_result(task_id).is_none());
    assert!(!rt.send_user_channel_message(channel_id, json("1")));
    assert!(matches!(
        rt.receive_user_channel_message(channel_id),
        ChannelWaitOutcome::UnknownChannel
    ));
    assert!(rt.get_queued_tasks().is_none());
}

#[test]
fn event_slot_holds_one_event_per_generation() {
    let mut rt = new_runtime();
    // Before the first generation installs a sender, dispatch fails.
    assert!(!rt.dispatch_global_event(GlobalEvent::Loaded));
    rt.reset();
    assert!(rt.dispatch_global_event(GlobalEvent::MissionEnd));
    // The slot is full until the supervisor consumes the event.
    assert!(!rt.dispatch_global_event(GlobalEvent::Reload));
    assert_eq!(rt.take_global_event(), Some(GlobalEvent::MissionEnd));
    assert_eq!(rt.take_global_event(), None);
    assert!(rt.dispatch_global_event(GlobalEvent::Reload));
    assert_eq!(rt.take_global_event(), Some(GlobalEvent::Reload));
}

#[test]
fn task_round_trip_through_host() {
    // The guest queues a task, the host drains it, executes it and delivers
    // the result; the guest's suspended call then takes that value.
    let mut rt = new_runtime();
    rt.reset();  // a generation starts
    let id = rt.add_queued_task(request("foo", Some(json("{\"x\":1}"))));
    assert_eq!(id, 0);
    let tasks = rt.get_queued_tasks().expect("one task was queued");
    assert_eq!(tasks.len(), 1);
    assert_eq!(tasks[0].id, 0);
    assert_eq!(tasks[0].target, "foo");
    assert_eq!(tasks[0].args, Some(json("{\"x\":1}")));
    rt.complete_task(TaskResult {
        id: tasks[0].id,
        result: TaskResultValue::Success(Some(json("{\"y\":2}"))),
    });
    match rt.take_task_result(0) {
        Some(TaskResultValue::Success(Some(v))) => assert_eq!(v, json("{\"y\":2}")),
        _ => panic!("the delivered value was expected"),
    }
}

#[test]
fn bounded_channel_round_trip() {
    // The guest creates a channel the host sends into: two sends fit, the
    // third is refused, and the guest observes the two buffered messages in
    // order, then finds the queue empty.
    let mut rt = new_runtime();
    rt.reset();
    let id = rt.add_user_channel(UserChannelDirection::FromLua, 2);
    assert_eq!(id, 0);
    assert!(rt.send_user_channel_message(0, json("{\"a\":1}")));
    assert!(rt.send_user_channel_message(0, json("{\"a\":2}")));
    assert!(!rt.send_user_channel_message(0, json("{\"a\":3}")));
    match rt.receive_user_channel_message(0) {
        ChannelWaitOutcome::Message(v) => assert_eq!(v, json("{\"a\":1}")),
        _ => panic!("a buffered message was expected"),
    }
    match rt.receive_user_channel_message(0) {
        ChannelWaitOutcome::Message(v) => assert_eq!(v, json("{\"a\":2}")),
        _ => panic!("a buffered message was expected"),
    }
    assert!(matches!(
        rt.receive_user_channel_message(0),
        ChannelWaitOutcome::NoMessage
    ));
    // A new send wakes the waiting side up again.
    assert!(rt.send_user_channel_message(0, json("{\"a\":4}")));
    assert!(matches!(
        rt.receive_user_channel_message(0),
        ChannelWaitOutcome::Message(_)
    ));
}

#[test]
fn direction_decoding() {
    assert_eq!(UserChannelDirection::from_u8(1), Some(UserChannelDirection::ToLua));
    assert_eq!(UserChannelDirection::from_u8(2), Some(UserChannelDirection::FromLua));
    assert_eq!(UserChannelDirection::from_u8(0), None);
    assert_eq!(UserChannelDirection::from_u8(3), None);
    assert_eq!(UserChannelDirection::from_u8(255), None);
}

#[test]
fn malformed_result_payload_becomes_an_error_result() {
    let r = TaskResult::from_decoded(5, Err("failed to process task result: bad".to_string()));
    assert_eq!(r.id, 5);
    match r.result {
        TaskResultValue::Error(m) => assert_eq!(m, "failed to process task result: bad"),
        _ => panic!("an error result was expected"),
    }
    let ok = TaskResult::from_decoded(6, Ok(TaskResultValue::Success(Some(json("3")))));
    assert_eq!(ok.id, 6);
    match ok.result {
        TaskResultValue::Success(Some(v)) => assert_eq!(v, json("3")),
        _ => panic!("the decoded value was expected"),
    }
}

#[test]
fn trim_newline_strips_one_line_break() {
    let mut s = "hello\n".to_string();
    trim_newline(&mut s);
    assert_eq!(s, "hello");

    let mut s = "hello\r\n".to_string();
    trim_newline(&mut s);
    assert_eq!(s, "hello");

    let mut s = "hello".to_string();
    trim_newline(&mut s);
    assert_eq!(s, "hello");

    let mut s = "hello\r".to_string();
    trim_newline(&mut s);
    assert_eq!(s, "hello\r");

    let mut s = "hello\n\n".to_string();
    trim_newline(&mut s);
    assert_eq!(s, "hello\n");

    let mut s = "\n".to_string();
    trim_newline(&mut s);
    assert_eq!(s, "");

    let mut s = String::new();
    trim_newline(&mut s);
    assert_eq!(s, "");
}

#[test]
fn default_config_is_empty() {
    let c = Config::default();
    assert!(c.write_dir.is_none());
    assert!(c.sdk_path.is_none());
    assert!(!c.development);
    assert!(!c.debugging);
    assert!(c.scripts.is_empty());
    assert!(c.break_on_first_statement.is_none());
}
