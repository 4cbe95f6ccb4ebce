use rust_bot::chat::{apology_text, chat_turn, ChatTurn, TurnPhase};
use rust_bot::messages::SimplifiedMessage;
use rust_bot::run::RunOutcome;
use rust_bot::store::Store;
use rust_bot::supervisor::Supervisor;

fn assistant_reply(text: &str, created_at: i64) -> SimplifiedMessage {
    SimplifiedMessage {
        created_at,
        role: String::from("assistant"),
        text: String::from(text),
    }
}

#[test]
fn first_turn_creates_thread_and_persists_both_records() {
    // Input {user_id: "u1", message: "hello"} against a fresh store: a new
    // chats row for u1, the inbound row (chat_id, "user", "hello"), and on a
    // completed run exactly one response message with role "assistant".
    let mut store = Store::new();
    let reply = assistant_reply("hi there", 42);
    let resp = chat_turn(
        &mut store,
        "u1",
        "hello",
        String::from("thread_1"),
        RunOutcome::Completed,
        Some(reply),
        1000,
    );

    assert_eq!(store.chats.len(), 1);
    assert_eq!(store.chats[0].user_id, "u1");
    assert_eq!(store.chats[0].id, "thread_1");

    assert_eq!(store.messages.len(), 2);
    assert_eq!(store.messages[0].chat_id, "thread_1");
    assert_eq!(store.messages[0].role, "user");
    assert_eq!(store.messages[0].content, "hello");
    assert_eq!(store.messages[1].chat_id, "thread_1");
    assert_eq!(store.messages[1].role, "assistant");
    assert_eq!(store.messages[1].content, "hi there");

    assert_eq!(resp.messages.len(), 1);
    assert_eq!(resp.messages[0].role, "assistant");
    assert_eq!(resp.messages[0].text, "hi there");
    assert_eq!(resp.messages[0].created_at, 42);
}

#[test]
fn timed_out_turn_answers_with_the_apology() {
    // A run that never completes within the deadline: the response is the
    // fixed apology under role "error", and a matching error row is
    // persisted.
    let mut store = Store::new();
    let resp = chat_turn(
        &mut store,
        "u1",
        "hello",
        String::from("thread_1"),
        RunOutcome::TimedOut,
        None,
        7777,
    );

    assert_eq!(resp.messages.len(), 1);
    assert_eq!(resp.messages[0].role, "error");
    assert_eq!(
        resp.messages[0].text,
        "Sorry I am currently facing some technical issues, please try again."
    );
    assert_eq!(resp.messages[0].created_at, 7777);

    assert_eq!(store.messages.len(), 2);
    assert_eq!(store.messages[1].role, "error");
    assert_eq!(store.messages[1].content, apology_text());
}

#[test]
fn transcript_grows_by_one_inbound_and_one_outbound_per_turn() {
    // Three turns for one user: three inbound and three outbound records,
    // the outbound roles following each turn's outcome, and still only one
    // thread row.
    let mut store = Store::new();
    chat_turn(
        &mut store,
        "u1",
        "first",
        String::from("thread_1"),
        RunOutcome::Completed,
        Some(assistant_reply("answer one", 1)),
        10,
    );
    chat_turn(
        &mut store,
        "u1",
        "second",
        String::from("thread_unused"),
        RunOutcome::TimedOut,
        None,
        20,
    );
    chat_turn(
        &mut store,
        "u1",
        "third",
        String::from("thread_unused_too"),
        RunOutcome::Completed,
        Some(assistant_reply("answer three", 3)),
        30,
    );

    assert_eq!(store.chats.len(), 1);
    assert_eq!(store.messages.len(), 6);
    let inbound: Vec<&str> = store
        .messages
        .iter()
        .filter(|m| m.role == "user")
        .map(|m| m.content.as_str())
        .collect();
    assert_eq!(inbound, ["first", "second", "third"]);
    let outbound: Vec<&str> = store
        .messages
        .iter()
        .filter(|m| m.role != "user")
        .map(|m| m.role.as_str())
        .collect();
    assert_eq!(outbound, ["assistant", "error", "assistant"]);
    // Every record belongs to the one thread.
    assert!(store.messages.iter().all(|m| m.chat_id == "thread_1"));
}

#[test]
fn thread_resolution_is_idempotent() {
    // With an existing thread row, resolving twice returns the same
    // identifier both times and creates no second row.
    let mut store = Store::new();
    store.save_chat_id("u1", "thread_1");

    let first = store.get_chat_id("u1");
    let second = store.get_chat_id("u1");
    assert_eq!(first.as_deref(), Some("thread_1"));
    assert_eq!(first, second);
    assert_eq!(store.chats.len(), 1);

    // A whole turn for that user creates no second row either, and a later
    // lookup still finds the same thread.
    chat_turn(
        &mut store,
        "u1",
        "again",
        String::from("would_be_fresh"),
        RunOutcome::TimedOut,
        None,
        0,
    );
    assert_eq!(store.chats.len(), 1);
    assert_eq!(store.get_chat_id("u1").as_deref(), Some("thread_1"));
}

#[test]
fn lookup_selects_most_recent_thread_row() {
    // Where creation raced and two rows exist, only the newest is used.
    let mut store = Store::new();
    store.save_chat_id("u1", "thread_old");
    store.save_chat_id("u2", "thread_other");
    store.save_chat_id("u1", "thread_new");
    assert_eq!(store.get_chat_id("u1").as_deref(), Some("thread_new"));
    assert_eq!(store.get_chat_id("u2").as_deref(), Some("thread_other"));
    assert_eq!(store.get_chat_id("u3"), None);
}

#[test]
fn step_machine_walks_resolve_to_respond() {
    let mut store = Store::new();
    let mut turn = ChatTurn::new(String::from("u9"), String::from("question")) ;
    assert_eq!(turn.phase, TurnPhase::ResolveThread);

    turn.resolve_thread(&store);
    assert_eq!(turn.phase, TurnPhase::CreateThread);
    turn.register_thread(&mut store, String::from("thread_9"));
    assert_eq!(turn.phase, TurnPhase::PersistInbound);

    turn.persist_inbound(&mut store);
    assert_eq!(turn.phase, TurnPhase::RelayMessage);
    assert_eq!(store.messages.len(), 1);
    assert_eq!(store.messages[0].role, "user");

    turn.relay_sent();
    assert_eq!(turn.phase, TurnPhase::Run);
    turn.on_run_outcome(&mut store, RunOutcome::Completed, 50);
    assert_eq!(turn.phase, TurnPhase::FetchReply);

    turn.on_reply(&mut store, Some(assistant_reply("done", 60)));
    assert_eq!(turn.phase, TurnPhase::Respond);
    let resp = turn.response();
    assert_eq!(resp.messages.len(), 1);
    assert_eq!(resp.messages[0].text, "done");
    assert_eq!(store.messages.len(), 2);
    assert_eq!(store.messages[1].role, "assistant");
}

#[test]
fn completed_run_with_no_message_answers_empty() {
    let mut store = Store::new();
    let resp = chat_turn(
        &mut store,
        "u1",
        "hello",
        String::from("thread_1"),
        RunOutcome::Completed,
        None,
        0,
    );
    assert_eq!(resp.messages.len(), 0);
    // Only the inbound record exists.
    assert_eq!(store.messages.len(), 1);
    assert_eq!(store.messages[0].role, "user");
}

#[test]
fn generation_swap_isolates_inflight_requests() {
    // A request that read generation A before the refresh keeps running
    // against A; the swap routes new requests to B and hands exactly A out
    // for teardown, only after the swap.
    let mut sup = Supervisor::new(String::from("asst_A"));
    let held_by_request = sup.read_active();
    assert_eq!(held_by_request, "asst_A");

    let superseded = sup.swap(String::from("asst_B"));
    assert_eq!(superseded, "asst_A");
    assert_eq!(held_by_request, "asst_A");
    assert_eq!(sup.read_active(), "asst_B");
}
