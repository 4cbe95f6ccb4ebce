use rust_bot::chat::{
    AssistantChatForm, AssistantChatRequest, AssistantResponse, ChatRequest, ChatResponse,
};
use rust_bot::clock::assistant_generation_name;
use rust_bot::completion::build_completion_messages;
use rust_bot::errors::AssistantError;
use rust_bot::messages::{
    latest_message, shape_messages, simplify_messages, sort_by_time, ChatMessage, ChatMessageList,
    Content, SimplifiedMessage, TextContent,
};
use rust_bot::resources::{Assistant, FileInfo, Files, render_instruction, Ressources};
use rust_bot::store::Store;
use rust_bot::text::{
    generation_name, parse_user_key, placeholder, replace_all, scrape_file_name, str_eq,
};

fn text_block(value: &str) -> Content {
    Content {
        content_type: String::from("text"),
        text: Some(TextContent { value: String::from(value) }),
    }
}

fn image_block() -> Content {
    Content { content_type: String::from("image_file"), text: None }
}

fn message(id: &str, created_at: i64, role: &str, content: Vec<Content>) -> ChatMessage {
    ChatMessage {
        id: String::from(id),
        created_at,
        role: String::from(role),
        content,
    }
}

#[test]
fn replace_all_replaces_left_to_right_without_overlap() {
    assert_eq!(replace_all("a/b/c", "/", "_"), "a_b_c");
    assert_eq!(replace_all("aaa", "aa", "a"), "aa");
    assert_eq!(replace_all("hello", "world", "x"), "hello");
    assert_eq!(replace_all("", "a", "b"), "");
    assert_eq!(replace_all("{name}{name}", "{name}", "f1"), "f1f1");
}

#[test]
fn str_eq_agrees_with_string_equality() {
    assert!(str_eq("", ""));
    assert!(str_eq("abc", "abc"));
    assert!(!str_eq("abc", "abd"));
    assert!(!str_eq("abc", "ab"));
    assert!(str_eq("héllo", "héllo"));
}

#[test]
fn scraped_pages_get_sanitized_file_names() {
    assert_eq!(
        scrape_file_name("https://buycycle.com/faq/shipping"),
        "buycycle.com_faq_shipping.html"
    );
    assert_eq!(scrape_file_name("http://example.org/"), "example.org_.html");
}

#[test]
fn generation_names_carry_the_timestamp() {
    assert_eq!(generation_name("20240101_120000"), "Assistant_20240101_120000");
    assert_eq!(placeholder("bikes.json"), "{bikes.json}");
}

#[test]
fn user_keys_are_plain_decimal_numbers() {
    assert_eq!(parse_user_key("0"), Some(0));
    assert_eq!(parse_user_key("4821"), Some(4821));
    assert_eq!(parse_user_key("18446744073709551615"), Some(u64::MAX));
    assert_eq!(parse_user_key("18446744073709551616"), None);
    assert_eq!(parse_user_key(""), None);
    assert_eq!(parse_user_key("12a"), None);
    assert_eq!(parse_user_key("-4"), None);
    assert_eq!(parse_user_key(" 4"), None);
}

#[test]
fn generation_names_render_the_provisioning_time() {
    // 1431648000 seconds into the epoch is 2015-05-15 00:00:00 UTC.
    assert_eq!(
        assistant_generation_name(1_431_648_000),
        "Assistant_20150515_000000"
    );
}

#[test]
fn instruction_rendering_resolves_known_placeholders_only() {
    // Every {file_name} placeholder becomes the remote identifier; a token
    // naming no uploaded file stays as literal text.
    let files = vec![
        FileInfo { file_id: String::from("file-123"), file_name: String::from("faq.html") },
        FileInfo { file_id: String::from("file-456"), file_name: String::from("bikes.json") },
    ];
    let rendered = render_instruction(
        "Use {faq.html} and {bikes.json}; ignore {missing.txt}.",
        &files,
    );
    assert_eq!(rendered, "Use file-123 and file-456; ignore {missing.txt}.");
}

#[test]
fn ressources_ledger_records_and_tears_down_each_handle_once() {
    let mut r = Ressources::new(
        String::from("context/file_search"),
        String::from("context/code_interpreter"),
        vec![String::from("https://buycycle.com/faq")],
        String::from("instruction/instruction.txt"),
    );
    r.record_file_search_upload(String::from("fs-1"), String::from("faq.html"));
    r.record_file_search_upload(String::from("fs-2"), String::from("sizing.html"));
    r.record_code_interpreter_upload(String::from("ci-1"), String::from("bikes.json"));
    r.set_vector_store_id(String::from("vs-9"));

    assert_eq!(r.file_search_ids(), ["fs-1", "fs-2"]);
    assert_eq!(r.code_interpreter_ids(), ["ci-1"]);

    r.create_instruction("Data: {bikes.json}, docs: {faq.html}.");
    assert_eq!(r.instruction, "Data: ci-1, docs: fs-1.");

    let torn_down = r.take_teardown();
    assert_eq!(torn_down, ["fs-1", "fs-2", "ci-1"]);
    assert!(r.files_info_file_search.is_empty());
    assert!(r.files_info_code_interpreter.is_empty());
    assert_eq!(r.vector_store_id, "vs-9");

    // Nothing is handed out twice.
    assert!(r.take_teardown().is_empty());
}

#[test]
fn files_ledger_hands_uploads_to_teardown() {
    let mut f = Files::new(String::from("context"), Vec::new());
    f.record_upload(String::from("file-a"));
    f.record_upload(String::from("file-b"));
    let ids = f.take_teardown();
    assert_eq!(ids, ["file-a", "file-b"]);
    assert!(f.file_ids.is_empty());
}

#[test]
fn assistant_takes_its_remote_identifier() {
    let mut a = Assistant::new(
        String::from("Assistant_20240101_120000"),
        String::from("gpt-4o"),
        String::from("be helpful"),
    );
    assert_eq!(a.id, "");
    a.assign_remote_id(String::from("asst_123"));
    assert_eq!(a.id, "asst_123");
    assert_eq!(a.model, "gpt-4o");
}

#[test]
fn simplify_keeps_first_text_block_and_drops_textless_messages() {
    let data = vec![
        message("m1", 5, "assistant", vec![image_block(), text_block("reply")]),
        message("m2", 3, "user", vec![image_block()]),
        message("m3", 4, "user", vec![text_block("question"), text_block("ignored")]),
    ];
    let simplified = simplify_messages(&data);
    assert_eq!(simplified.len(), 2);
    assert_eq!(simplified[0].text, "reply");
    assert_eq!(simplified[0].role, "assistant");
    assert_eq!(simplified[0].created_at, 5);
    assert_eq!(simplified[1].text, "question");
}

#[test]
fn latest_message_takes_greatest_created_at_with_last_tie_winning() {
    let msgs = vec![
        SimplifiedMessage { created_at: 3, role: String::from("user"), text: String::from("a") },
        SimplifiedMessage { created_at: 9, role: String::from("assistant"), text: String::from("b") },
        SimplifiedMessage { created_at: 9, role: String::from("assistant"), text: String::from("c") },
        SimplifiedMessage { created_at: 4, role: String::from("user"), text: String::from("d") },
    ];
    let latest = latest_message(&msgs).expect("non-empty");
    assert_eq!(latest.created_at, 9);
    assert_eq!(latest.text, "c");
    assert!(latest_message(&Vec::new()).is_none());
}

#[test]
fn sorting_orders_by_time_and_keeps_every_message() {
    let msgs = vec![
        SimplifiedMessage { created_at: 9, role: String::from("a"), text: String::from("x") },
        SimplifiedMessage { created_at: 1, role: String::from("b"), text: String::from("y") },
        SimplifiedMessage { created_at: 5, role: String::from("c"), text: String::from("z") },
    ];
    let sorted = sort_by_time(&msgs);
    let times: Vec<i64> = sorted.iter().map(|m| m.created_at).collect();
    assert_eq!(times, [1, 5, 9]);
    let texts: Vec<&str> = sorted.iter().map(|m| m.text.as_str()).collect();
    assert_eq!(texts, ["y", "z", "x"]);
}

#[test]
fn shaping_selects_newest_or_sorts_whole_transcript() {
    let list = ChatMessageList {
        object: String::from("list"),
        data: vec![
            message("m1", 8, "assistant", vec![text_block("newest")]),
            message("m2", 2, "user", vec![text_block("oldest")]),
            message("m3", 5, "assistant", vec![image_block()]),
        ],
    };
    let only_last = shape_messages(&list.data, true);
    assert_eq!(only_last.len(), 1);
    assert_eq!(only_last[0].text, "newest");

    let full = shape_messages(&list.data, false);
    let texts: Vec<&str> = full.iter().map(|m| m.text.as_str()).collect();
    assert_eq!(texts, ["oldest", "newest"]);
}

#[test]
fn request_and_response_bodies_carry_their_fields() {
    let request = AssistantChatRequest {
        user_id: String::from("u1"),
        message: String::from("hi"),
    };
    let form = AssistantChatForm {
        user_id: request.user_id.clone(),
        message: request.message.clone(),
    };
    assert_eq!(form.user_id, "u1");
    assert_eq!(form.message, "hi");

    let plain = ChatRequest { chat_id: String::from("c1"), message: String::from("hi") };
    let reply = ChatResponse { response: String::from("hello") };
    assert_eq!(plain.chat_id, "c1");
    assert_eq!(reply.response, "hello");

    let created = AssistantResponse::Success { id: String::from("asst_1") };
    match created {
        AssistantResponse::Success { id } => assert_eq!(id, "asst_1"),
        AssistantResponse::Error { .. } => panic!("expected success"),
    }
    let failed = AssistantResponse::Error { error: String::from("no key") };
    assert!(matches!(failed, AssistantResponse::Error { .. }));
}

#[test]
fn history_returns_one_threads_contents_in_order() {
    let mut store = Store::new();
    store.save_message_to_db("t1", "user", "one");
    store.save_message_to_db("t2", "user", "other thread");
    store.save_message_to_db("t1", "assistant", "two");
    let history = store.get_conversation_history("t1");
    assert_eq!(history, ["one", "two"]);
    assert!(store.get_conversation_history("t3").is_empty());
}

#[test]
fn completion_payload_wraps_history_between_prompt_and_message() {
    let history = vec![String::from("older"), String::from("newer")];
    let msgs = build_completion_messages(&history, "latest question");
    assert_eq!(msgs.len(), 4);
    assert_eq!(msgs[0].role, "system");
    assert_eq!(
        msgs[0].content,
        "You are a helpful buyers guide chat bot that helps to find used bikes."
    );
    assert_eq!(msgs[1].role, "user");
    assert_eq!(msgs[1].content, "older");
    assert_eq!(msgs[2].content, "newer");
    assert_eq!(msgs[3].role, "user");
    assert_eq!(msgs[3].content, "latest question");
}

#[test]
fn errors_map_to_their_status_classes() {
    let db = AssistantError::DatabaseError(String::from("no connection"));
    assert_eq!(db.status_code(), 500);
    assert_eq!(db.message(), "no connection");
    let remote = AssistantError::OpenAIError(String::from("bad gateway"));
    assert_eq!(remote.status_code(), 502);
    assert_eq!(remote.message(), "bad gateway");
}
