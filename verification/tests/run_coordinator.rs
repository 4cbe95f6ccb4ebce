use rust_bot::run::{
    build_tool_output, decide_tool_call, drive_to_completion, get_order_status,
    get_order_status_dummy, parse_run_status, RunConfig, RunCoordinator, RunOutcome, RunPhase,
    RunStatus, ToolCall, ToolDecision,
};

fn queued(n: usize) -> Vec<RunStatus> {
    let mut v = Vec::new();
    let mut i = 0;
    while i < n {
        v.push(RunStatus::Queued);
        i += 1;
    }
    v
}

#[test]
fn status_parsing_recognizes_known_statuses() {
    assert_eq!(parse_run_status("queued"), RunStatus::Queued);
    assert_eq!(parse_run_status("in_progress"), RunStatus::InProgress);
    assert_eq!(parse_run_status("requires_action"), RunStatus::RequiresAction);
    assert_eq!(parse_run_status("completed"), RunStatus::Completed);
    assert_eq!(parse_run_status("failed"), RunStatus::Failed);
    assert_eq!(parse_run_status("cancelling"), RunStatus::Other);
    assert_eq!(parse_run_status(""), RunStatus::Other);
}

#[test]
fn drive_times_out_within_one_interval_of_deadline() {
    // A run that never leaves `queued` within the deadline.
    let config = RunConfig { deadline_ms: 3000, poll_interval_ms: 1000 };
    let (outcome, elapsed) = drive_to_completion(&config, &queued(10));
    assert_eq!(outcome, RunOutcome::TimedOut);
    assert!(elapsed >= config.deadline_ms);
    assert!(elapsed < config.deadline_ms + config.poll_interval_ms);
    assert_eq!(elapsed, 3000);

    // A deadline that is not a multiple of the interval is overshot by less
    // than one interval.
    let config = RunConfig { deadline_ms: 2500, poll_interval_ms: 1000 };
    let (outcome, elapsed) = drive_to_completion(&config, &queued(10));
    assert_eq!(outcome, RunOutcome::TimedOut);
    assert_eq!(elapsed, 3000);
    assert!(elapsed >= config.deadline_ms && elapsed < config.deadline_ms + 1000);
}

#[test]
fn drive_stops_at_first_completed_status() {
    let config = RunConfig { deadline_ms: 5000, poll_interval_ms: 1000 };
    let statuses = vec![
        RunStatus::Queued,
        RunStatus::InProgress,
        RunStatus::Completed,
        RunStatus::Queued,
    ];
    let (outcome, elapsed) = drive_to_completion(&config, &statuses);
    assert_eq!(outcome, RunOutcome::Completed);
    assert_eq!(elapsed, 2000);
}

#[test]
fn drive_ignores_completion_that_arrives_after_deadline() {
    let config = RunConfig { deadline_ms: 2000, poll_interval_ms: 1000 };
    let statuses = vec![
        RunStatus::Queued,
        RunStatus::Queued,
        RunStatus::Completed,
    ];
    let (outcome, elapsed) = drive_to_completion(&config, &statuses);
    assert_eq!(outcome, RunOutcome::TimedOut);
    assert_eq!(elapsed, 2000);
}

#[test]
fn dispatch_recognizes_get_orders_with_valid_arguments() {
    let call = ToolCall {
        id: String::from("call_1"),
        name: String::from("get_orders"),
        arguments: Some(String::from("{\"user_id\": \"u7\"}")),
    };
    assert!(matches!(decide_tool_call(&call), ToolDecision::FetchOrders));
}

#[test]
fn dispatch_extracts_order_id_for_status_lookup() {
    let call = ToolCall {
        id: String::from("call_2"),
        name: String::from("get_order_status_dummy"),
        arguments: Some(String::from("{\"order_id\": \"ord_42\"}")),
    };
    match decide_tool_call(&call) {
        ToolDecision::FetchOrderStatus { order_id } => assert_eq!(order_id, "ord_42"),
        _ => panic!("expected an order-status decision"),
    }
    let call = ToolCall {
        id: String::from("call_3"),
        name: String::from("get_order_status"),
        arguments: Some(String::from("{\"order_id\": \"ord_9\"}")),
    };
    match decide_tool_call(&call) {
        ToolDecision::FetchOrderStatus { order_id } => assert_eq!(order_id, "ord_9"),
        _ => panic!("expected an order-status decision"),
    }
}

#[test]
fn dispatch_skips_malformed_and_unrecognized_calls() {
    // Malformed JSON arguments: logged and skipped, never failing the run.
    let call = ToolCall {
        id: String::from("call_4"),
        name: String::from("get_orders"),
        arguments: Some(String::from("{not json")),
    };
    assert!(matches!(decide_tool_call(&call), ToolDecision::Skip));

    // Arguments that were not a string payload at all.
    let call = ToolCall {
        id: String::from("call_5"),
        name: String::from("get_order_status_dummy"),
        arguments: None,
    };
    assert!(matches!(decide_tool_call(&call), ToolDecision::Skip));

    // A missing order_id field.
    let call = ToolCall {
        id: String::from("call_6"),
        name: String::from("get_order_status_dummy"),
        arguments: Some(String::from("{\"other\": 1}")),
    };
    assert!(matches!(decide_tool_call(&call), ToolDecision::Skip));

    // An order_id that is not a string.
    let call = ToolCall {
        id: String::from("call_7"),
        name: String::from("get_order_status_dummy"),
        arguments: Some(String::from("{\"order_id\": 42}")),
    };
    assert!(matches!(decide_tool_call(&call), ToolDecision::Skip));

    // An unrecognized function name.
    let call = ToolCall {
        id: String::from("call_8"),
        name: String::from("get_weather"),
        arguments: Some(String::from("{}")),
    };
    assert!(matches!(decide_tool_call(&call), ToolDecision::Skip));
}

#[test]
fn tool_output_carries_matching_id_and_fallback() {
    let out = build_tool_output("call_9", Some(String::from("two orders")), "No orders found");
    assert_eq!(out.tool_call_id, "call_9");
    assert_eq!(out.output, "two orders");

    let out = build_tool_output("call_10", None, "No orders found");
    assert_eq!(out.tool_call_id, "call_10");
    assert_eq!(out.output, "No orders found");
}

#[test]
fn coordinator_serves_tool_calls_before_polling_again() {
    // A `requires_action` poll naming a recognized function with valid
    // arguments: the local handler's result is submitted as exactly one
    // output per call, carrying the matching identifier, before the next
    // poll; polling then continues.
    let config = RunConfig { deadline_ms: 10_000, poll_interval_ms: 1000 };
    let mut c = RunCoordinator::start(config);
    assert_eq!(c.phase, RunPhase::Polling);

    let calls = vec![
        ToolCall {
            id: String::from("call_a"),
            name: String::from("get_orders"),
            arguments: Some(String::from("{\"user_id\": \"u1\"}")),
        },
        ToolCall {
            id: String::from("call_b"),
            name: String::from("get_weather"),
            arguments: Some(String::from("{}")),
        },
    ];
    c.on_poll(RunStatus::RequiresAction, calls);
    assert_eq!(c.phase, RunPhase::Dispatching);

    // First call: recognized, handler invoked, one matching output.
    assert!(c.has_pending_tool());
    assert!(matches!(c.tool_decision(), ToolDecision::FetchOrders));
    let out = c.settle_tool(Some(String::from("order list"))).expect("one output per call");
    assert_eq!(out.tool_call_id, "call_a");
    assert_eq!(out.output, "order list");

    // Second call: unrecognized, skipped without failing the run.
    assert!(c.has_pending_tool());
    let out = c.settle_tool(None);
    assert!(out.is_none());

    // Every pending call settled: the coordinator sleeps, then polls again.
    assert!(!c.has_pending_tool());
    assert_eq!(c.phase, RunPhase::Waiting);
    c.on_sleep();
    assert_eq!(c.phase, RunPhase::Polling);
    assert_eq!(c.elapsed_ms, 1000);

    c.on_poll(RunStatus::Completed, Vec::new());
    assert_eq!(c.outcome(), Some(RunOutcome::Completed));
}

#[test]
fn coordinator_times_out_at_deadline() {
    let config = RunConfig { deadline_ms: 2000, poll_interval_ms: 1000 };
    let mut c = RunCoordinator::start(config);
    let mut polls = 0;
    while c.outcome().is_none() {
        c.on_poll(RunStatus::InProgress, Vec::new());
        polls += 1;
        if c.phase == RunPhase::Waiting {
            c.on_sleep();
        }
    }
    assert_eq!(c.outcome(), Some(RunOutcome::TimedOut));
    assert_eq!(polls, 2);
    assert!(c.elapsed_ms >= config.deadline_ms);
    assert!(c.elapsed_ms < config.deadline_ms + config.poll_interval_ms);
}

#[test]
fn local_order_handlers_answer_fixed_values() {
    assert_eq!(get_order_status_dummy("u1", "ord_1"), Some(String::from("delivered")));
    assert_eq!(get_order_status("ord_1"), Some(String::from("2023-12-31 12:00:00")));
}
