//! The chat-turn state machine: one inbound user message carried through
//! thread resolution, inbound persistence, remote relay, the run, and
//! outbound persistence, ending in the response handed back to the client.
//! The surrounding process performs the remote calls between steps; every
//! decision and every store write happens here.

use vstd::prelude::*;
use vstd::string::*;

use crate::messages::{msgs_view, SimplifiedMessage, SimplifiedMessageView};
use crate::run::RunOutcome;
use crate::store::{spec_chat_id, ChatRowView, MessageRowView, Store, StoreView};

verus! {

/// The body of a chat request: who is asking, and what they said.
pub struct AssistantChatRequest {
    pub user_id: String,
    pub message: String,
}

/// The same request arriving form-encoded.
pub struct AssistantChatForm {
    pub user_id: String,
    pub message: String,
}

/// The response of a chat turn: the messages to show, usually exactly one.
pub struct AssistantChatResponse {
    pub messages: Vec<SimplifiedMessage>,
}

/// A plain completion request against an existing conversation.
pub struct ChatRequest {
    pub chat_id: String,
    pub message: String,
}

/// A plain completion response.
pub struct ChatResponse {
    pub response: String,
}

/// The body of a resource-creation reply: the new identifier, or an error.
pub enum AssistantResponse {
    Success { id: String },
    Error { error: String },
}

/// The fixed, non-technical text a timed-out turn answers with.
pub open spec fn spec_apology() -> Seq<char> {
    "Sorry I am currently facing some technical issues, please try again."@
}

pub fn apology_text() -> (r: &'static str)
    ensures
        r@ == spec_apology(),
{
    "Sorry I am currently facing some technical issues, please try again."
}

/// Where a chat turn stands.
#[derive(Clone, Copy, PartialEq, Eq, Structural, Debug)]
pub enum TurnPhase {
    ResolveThread,
    CreateThread,
    PersistInbound,
    RelayMessage,
    Run,
    FetchReply,
    Respond,
}

/// One chat turn in flight: the caller's identity and message, the phase,
/// the resolved thread, and the reply being assembled.
pub struct ChatTurn {
    pub user_id: String,
    pub message: String,
    pub phase: TurnPhase,
    pub chat_id: Option<String>,
    pub reply: Vec<SimplifiedMessage>,
}

/// The thread a turn is bound to, once resolution has assigned one.
pub open spec fn spec_thread(t: ChatTurn) -> Seq<char> {
    match t.chat_id {
        Some(s) => s@,
        None => Seq::empty(),
    }
}

impl ChatTurn {
    /// Begins a turn for one inbound message.
    pub fn new(user_id: String, message: String) -> (t: ChatTurn)
        ensures
            t.user_id == user_id,
            t.message == message,
            t.phase == TurnPhase::ResolveThread,
            t.chat_id is None,
            t.reply@.len() == 0,
    {
        ChatTurn {
            user_id,
            message,
            phase: TurnPhase::ResolveThread,
            chat_id: None,
            reply: Vec::new(),
        }
    }

    /// Resolves the caller's thread: an existing mapping binds the turn to
    /// its most recent thread; otherwise the turn waits for a freshly created
    /// one. The store is only read.
    pub fn resolve_thread(&mut self, store: &Store)
        requires
            old(self).phase == TurnPhase::ResolveThread,
        ensures
            final(self).user_id == old(self).user_id,
            final(self).message == old(self).message,
            final(self).reply == old(self).reply,
            spec_chat_id(store@.chats, old(self).user_id@) is Some ==> final(self).phase
                == TurnPhase::PersistInbound && final(self).chat_id is Some && Some(
                spec_thread(*final(self)),
            ) == spec_chat_id(store@.chats, old(self).user_id@),
            spec_chat_id(store@.chats, old(self).user_id@) is None ==> final(self).phase
                == TurnPhase::CreateThread && final(self).chat_id is None,
    {
        match store.get_chat_id(self.user_id.as_str()) {
            Some(id) => {
                self.chat_id = Some(id);
                self.phase = TurnPhase::PersistInbound;
            },
            None => {
                self.chat_id = None;
                self.phase = TurnPhase::CreateThread;
            },
        }
    }

    /// Binds the turn to a thread the remote service just created and
    /// persists the mapping, making it the caller's active thread.
    pub fn register_thread(&mut self, store: &mut Store, new_id: String)
        requires
            old(self).phase == TurnPhase::CreateThread,
        ensures
            final(self).user_id == old(self).user_id,
            final(self).message == old(self).message,
            final(self).reply == old(self).reply,
            final(self).phase == TurnPhase::PersistInbound,
            final(self).chat_id is Some,
            spec_thread(*final(self)) == new_id@,
            final(store)@.chats == old(store)@.chats.push(
                ChatRowView { id: new_id@, user_id: old(self).user_id@ },
            ),
            final(store)@.messages == old(store)@.messages,
    {
        store.save_chat_id(self.user_id.as_str(), new_id.as_str());
        self.chat_id = Some(new_id);
        self.phase = TurnPhase::PersistInbound;
    }

    /// Persists the inbound message under role `user` — before any remote
    /// call, so a transcript exists even if the relay then fails.
    pub fn persist_inbound(&mut self, store: &mut Store)
        requires
            old(self).phase == TurnPhase::PersistInbound,
            old(self).chat_id is Some,
        ensures
            *final(self) == (ChatTurn { phase: TurnPhase::RelayMessage, ..*old(self) }),
            final(store)@.messages == old(store)@.messages.push(
                MessageRowView {
                    chat_id: spec_thread(*old(self)),
                    role: "user"@,
                    content: old(self).message@,
                },
            ),
            final(store)@.chats == old(store)@.chats,
    {
        let id = match &self.chat_id {
            Some(s) => s.clone(),
            None => vstd::pervasive::unreached(),
        };
        store.save_message_to_db(id.as_str(), "user", self.message.as_str());
        self.phase = TurnPhase::RelayMessage;
    }

    /// Acknowledges that the message reached the remote thread.
    pub fn relay_sent(&mut self)
        requires
            old(self).phase == TurnPhase::RelayMessage,
        ensures
            *final(self) == (ChatTurn { phase: TurnPhase::Run, ..*old(self) }),
    {
        self.phase = TurnPhase::Run;
    }

    /// Takes the run coordinator's outcome. A timed-out run ends the turn at
    /// once: the fixed apology is persisted under role `error` and becomes
    /// the whole reply, stamped with the current time. A completed run moves
    /// on to fetching the assistant's newest message.
    pub fn on_run_outcome(&mut self, store: &mut Store, outcome: RunOutcome, now: i64)
        requires
            old(self).phase == TurnPhase::Run,
            old(self).chat_id is Some,
        ensures
            final(self).user_id == old(self).user_id,
            final(self).message == old(self).message,
            final(self).chat_id == old(self).chat_id,
            match outcome {
                RunOutcome::TimedOut => {
                    &&& final(self).phase == TurnPhase::Respond
                    &&& msgs_view(final(self).reply@) == seq![
                        SimplifiedMessageView {
                            created_at: now as int,
                            role: "error"@,
                            text: spec_apology(),
                        },
                    ]
                    &&& final(store)@.messages == old(store)@.messages.push(
                        MessageRowView {
                            chat_id: spec_thread(*old(self)),
                            role: "error"@,
                            content: spec_apology(),
                        },
                    )
                    &&& final(store)@.chats == old(store)@.chats
                },
                RunOutcome::Completed => {
                    &&& final(self).phase == TurnPhase::FetchReply
                    &&& final(self).reply == old(self).reply
                    &&& *final(store) == *old(store)
                },
            },
    {
        match outcome {
            RunOutcome::TimedOut => {
                let id = match &self.chat_id {
                    Some(s) => s.clone(),
                    None => vstd::pervasive::unreached(),
                };
                store.save_message_to_db(id.as_str(), "error", apology_text());
                let mut reply: Vec<SimplifiedMessage> = Vec::new();
                reply.push(
                    SimplifiedMessage {
                        created_at: now,
                        role: String::from_str("error"),
                        text: String::from_str(apology_text()),
                    },
                );
                proof {
                    assert(msgs_view(reply@) =~= seq![
                        SimplifiedMessageView {
                            created_at: now as int,
                            role: "error"@,
                            text: spec_apology(),
                        },
                    ]);
                }
                self.reply = reply;
                self.phase = TurnPhase::Respond;
            },
            RunOutcome::Completed => {
                self.phase = TurnPhase::FetchReply;
            },
        }
    }

    /// Takes the newest remote message after a completed run. It is persisted
    /// under role `assistant` and becomes the reply; a thread that somehow
    /// has no message yields an empty reply and persists nothing.
    pub fn on_reply(&mut self, store: &mut Store, latest: Option<SimplifiedMessage>)
        requires
            old(self).phase == TurnPhase::FetchReply,
            old(self).chat_id is Some,
        ensures
            final(self).user_id == old(self).user_id,
            final(self).message == old(self).message,
            final(self).chat_id == old(self).chat_id,
            final(self).phase == TurnPhase::Respond,
            match latest {
                Some(m) => {
                    &&& final(self).reply@ == seq![m]
                    &&& final(store)@.messages == old(store)@.messages.push(
                        MessageRowView {
                            chat_id: spec_thread(*old(self)),
                            role: "assistant"@,
                            content: m.text@,
                        },
                    )
                    &&& final(store)@.chats == old(store)@.chats
                },
                None => {
                    &&& final(self).reply@.len() == 0
                    &&& *final(store) == *old(store)
                },
            },
    {
        match latest {
            Some(m) => {
                let id = match &self.chat_id {
                    Some(s) => s.clone(),
                    None => vstd::pervasive::unreached(),
                };
                store.save_message_to_db(id.as_str(), "assistant", m.text.as_str());
                let mut reply: Vec<SimplifiedMessage> = Vec::new();
                reply.push(m);
                proof {
                    assert(reply@ =~= seq![reply@[0]]);
                }
                self.reply = reply;
                self.phase = TurnPhase::Respond;
            },
            None => {
                self.reply = Vec::new();
                self.phase = TurnPhase::Respond;
            },
        }
    }

    /// Hands out the finished turn's response.
    pub fn response(self) -> (r: AssistantChatResponse)
        requires
            self.phase == TurnPhase::Respond,
        ensures
            r.messages == self.reply,
    {
        AssistantChatResponse { messages: self.reply }
    }
}

/// The thread a turn resolves to: the user's most recent mapping, or the
/// freshly created thread where none existed.
pub open spec fn spec_resolved_thread(
    chats: Seq<ChatRowView>,
    user: Seq<char>,
    fresh: Seq<char>,
) -> Seq<char> {
    match spec_chat_id(chats, user) {
        Some(t) => t,
        None => fresh,
    }
}

/// What a turn leaves of the thread mappings: unchanged where one existed,
/// extended by exactly the new mapping where none did.
pub open spec fn spec_turn_chats(
    chats: Seq<ChatRowView>,
    user: Seq<char>,
    fresh: Seq<char>,
) -> Seq<ChatRowView> {
    match spec_chat_id(chats, user) {
        Some(_) => chats,
        None => chats.push(ChatRowView { id: fresh, user_id: user }),
    }
}

/// The outbound record a turn appends: the apology under `error` on timeout,
/// the newest remote message under `assistant` on completion, and nothing
/// only where a completed run's thread had no message to fetch.
pub open spec fn spec_outbound_rows(
    tid: Seq<char>,
    outcome: RunOutcome,
    latest: Option<SimplifiedMessage>,
) -> Seq<MessageRowView> {
    match outcome {
        RunOutcome::TimedOut => seq![
            MessageRowView { chat_id: tid, role: "error"@, content: spec_apology() },
        ],
        RunOutcome::Completed => match latest {
            Some(m) => seq![MessageRowView { chat_id: tid, role: "assistant"@, content: m.text@ }],
            None => Seq::empty(),
        },
    }
}

/// What a turn leaves of the transcript: everything that was there, then the
/// inbound user record, then the outbound record.
pub open spec fn spec_turn_messages(
    msgs: Seq<MessageRowView>,
    tid: Seq<char>,
    message: Seq<char>,
    outcome: RunOutcome,
    latest: Option<SimplifiedMessage>,
) -> Seq<MessageRowView> {
    msgs.push(MessageRowView { chat_id: tid, role: "user"@, content: message }) + spec_outbound_rows(
        tid,
        outcome,
        latest,
    )
}

/// The reply a turn answers with: the timestamped apology on timeout, the
/// newest remote message on completion.
pub open spec fn spec_turn_reply(
    outcome: RunOutcome,
    latest: Option<SimplifiedMessage>,
    now: int,
) -> Seq<SimplifiedMessageView> {
    match outcome {
        RunOutcome::TimedOut => seq![
            SimplifiedMessageView { created_at: now, role: "error"@, text: spec_apology() },
        ],
        RunOutcome::Completed => match latest {
            Some(m) => seq![m@],
            None => Seq::empty(),
        },
    }
}

/// One whole chat turn, with the remote side's contributions given as
/// values: the thread the remote service would create if the caller has
/// none, the run's outcome, the newest remote message fetched after a
/// completed run, and the current time. The turn appends the inbound and
/// outbound records, adds at most one thread mapping, and answers with the
/// reply — exactly as the step machine does, which it drives.
pub fn chat_turn(
    store: &mut Store,
    user_id: &str,
    message: &str,
    fresh_thread_id: String,
    outcome: RunOutcome,
    latest: Option<SimplifiedMessage>,
    now: i64,
) -> (resp: AssistantChatResponse)
    ensures
        final(store)@.chats == spec_turn_chats(old(store)@.chats, user_id@, fresh_thread_id@),
        final(store)@.messages == spec_turn_messages(
            old(store)@.messages,
            spec_resolved_thread(old(store)@.chats, user_id@, fresh_thread_id@),
            message@,
            outcome,
            latest,
        ),
        msgs_view(resp.messages@) == spec_turn_reply(outcome, latest, now as int),
{
    let ghost latest0 = latest;
    let ghost chats0 = store@.chats;
    let ghost msgs0 = store@.messages;
    let ghost tid = spec_resolved_thread(chats0, user_id@, fresh_thread_id@);
    let mut turn = ChatTurn::new(String::from_str(user_id), String::from_str(message));
    turn.resolve_thread(store);
    if turn.phase == TurnPhase::CreateThread {
        turn.register_thread(store, fresh_thread_id);
    }
    proof {
        assert(spec_thread(turn) == tid);
        assert(store@.chats == spec_turn_chats(chats0, user_id@, fresh_thread_id@));
        assert(store@.messages == msgs0);
    }
    turn.persist_inbound(store);
    turn.relay_sent();
    let ghost inbound = MessageRowView { chat_id: tid, role: "user"@, content: message@ };
    proof {
        assert(store@.messages == msgs0.push(inbound));
    }
    turn.on_run_outcome(store, outcome, now);
    if turn.phase == TurnPhase::FetchReply {
        turn.on_reply(store, latest);
    }
    proof {
        assert(store@.messages =~= spec_turn_messages(msgs0, tid, message@, outcome, latest0));
        match latest0 {
            Some(m) => {
                if outcome == RunOutcome::Completed {
                    assert(msgs_view(turn.reply@) =~= seq![m@]);
                }
            },
            None => {
                if outcome == RunOutcome::Completed {
                    assert(msgs_view(turn.reply@) =~= Seq::<SimplifiedMessageView>::empty());
                }
            },
        }
    }
    turn.response()
}

/// Thread resolution is idempotent and stable: a turn never disturbs another
/// user's mapping, a caller with a mapping keeps exactly it, and however the
/// turn went, resolving again afterwards finds the same thread — so running
/// resolution twice returns the same identifier and creates no second row.
pub proof fn lemma_thread_resolution_stable(
    chats: Seq<ChatRowView>,
    user: Seq<char>,
    fresh: Seq<char>,
    fresh2: Seq<char>,
)
    ensures
        spec_chat_id(chats, user) is Some ==> spec_turn_chats(chats, user, fresh) == chats,
        spec_resolved_thread(spec_turn_chats(chats, user, fresh), user, fresh2)
            == spec_resolved_thread(chats, user, fresh),
{
    match spec_chat_id(chats, user) {
        Some(_) => {},
        None => {
            let pushed = chats.push(ChatRowView { id: fresh, user_id: user });
            assert(pushed.last() == ChatRowView { id: fresh, user_id: user });
            assert(spec_chat_id(pushed, user) == Some(fresh));
        },
    }
}

/// Each chat turn appends exactly two records to the transcript — the
/// inbound message under role `user`, then one outbound record under
/// `assistant` or `error`, `error` exactly on timeout — and rewrites
/// nothing that was already there. (A completed run whose thread had no
/// message to fetch appends no outbound record; that case is excluded here.)
pub proof fn lemma_turn_transcript(
    msgs: Seq<MessageRowView>,
    tid: Seq<char>,
    message: Seq<char>,
    outcome: RunOutcome,
    latest: Option<SimplifiedMessage>,
)
    requires
        outcome == RunOutcome::Completed ==> latest is Some,
    ensures
        ({
            let new = spec_turn_messages(msgs, tid, message, outcome, latest);
            &&& new.len() == msgs.len() + 2
            &&& new.subrange(0, msgs.len() as int) == msgs
            &&& new[msgs.len() as int] == MessageRowView {
                chat_id: tid,
                role: "user"@,
                content: message,
            }
            &&& new[msgs.len() as int + 1].chat_id == tid
            &&& (new[msgs.len() as int + 1].role == "assistant"@ || new[msgs.len() as int
                + 1].role == "error"@)
            &&& (new[msgs.len() as int + 1].role == "error"@ <==> outcome == RunOutcome::TimedOut)
        }),
{
    reveal_strlit("assistant");
    reveal_strlit("error");
    let new = spec_turn_messages(msgs, tid, message, outcome, latest);
    assert(new.subrange(0, msgs.len() as int) =~= msgs);
    assert("assistant"@.len() != "error"@.len());
}

/// What one turn asks of the store, as a value: who spoke, what they said,
/// the thread the remote service would create for them if they have none,
/// how the run ended, and the newest remote message fetched on completion.
pub struct TurnInput {
    pub user: Seq<char>,
    pub message: Seq<char>,
    pub fresh: Seq<char>,
    pub outcome: RunOutcome,
    pub latest: Option<SimplifiedMessage>,
}

/// The store after a sequence of chat turns, each applied as `chat_turn`
/// leaves it.
pub open spec fn spec_run_turns(s: StoreView, turns: Seq<TurnInput>) -> StoreView
    decreases turns.len(),
{
    if turns.len() == 0 {
        s
    } else {
        let t = turns[0];
        let tid = spec_resolved_thread(s.chats, t.user, t.fresh);
        let s1 = StoreView {
            chats: spec_turn_chats(s.chats, t.user, t.fresh),
            messages: spec_turn_messages(s.messages, tid, t.message, t.outcome, t.latest),
        };
        spec_run_turns(s1, turns.skip(1))
    }
}

/// The transcript is append-only and grows by exactly one inbound and one
/// outbound record per turn: after any sequence of turns, everything already
/// stored is untouched, the record count has grown by twice the number of
/// turns, and the appended records alternate — the inbound message under
/// role `user`, then the outbound reply under `assistant` or `error`. (Turns
/// whose completed run had no message to fetch are excluded, as in
/// `lemma_turn_transcript`.)
pub proof fn lemma_transcript_after_turns(s: StoreView, turns: Seq<TurnInput>)
    requires
        forall|j: int|
            0 <= j < turns.len() ==> ((#[trigger] turns[j].outcome) == RunOutcome::Completed
                ==> turns[j].latest is Some),
    ensures
        ({
            let after = spec_run_turns(s, turns);
            &&& after.messages.len() == s.messages.len() + 2 * turns.len()
            &&& after.messages.subrange(0, s.messages.len() as int) == s.messages
            &&& forall|k: int|
                s.messages.len() <= k < after.messages.len() ==> (((k - s.messages.len()) % 2 == 0)
                    ==> (#[trigger] after.messages[k]).role == "user"@)
            &&& forall|k: int|
                s.messages.len() <= k < after.messages.len() ==> (((k - s.messages.len()) % 2 == 1)
                    ==> ((#[trigger] after.messages[k]).role == "assistant"@
                    || after.messages[k].role == "error"@))
        }),
    decreases turns.len(),
{
    if turns.len() == 0 {
        assert(spec_run_turns(s, turns).messages.subrange(0, s.messages.len() as int)
            =~= s.messages);
    } else {
        let t = turns[0];
        let tid = spec_resolved_thread(s.chats, t.user, t.fresh);
        let s1 = StoreView {
            chats: spec_turn_chats(s.chats, t.user, t.fresh),
            messages: spec_turn_messages(s.messages, tid, t.message, t.outcome, t.latest),
        };
        lemma_turn_transcript(s.messages, tid, t.message, t.outcome, t.latest);
        lemma_transcript_after_turns(s1, turns.skip(1));
        let after = spec_run_turns(s, turns);
        assert(after == spec_run_turns(s1, turns.skip(1)));
        assert(after.messages.subrange(0, s.messages.len() as int) =~= after.messages.subrange(
            0,
            s1.messages.len() as int,
        ).subrange(0, s.messages.len() as int));
        assert forall|k: int|
            s.messages.len() <= k < after.messages.len() && ((k - s.messages.len()) % 2 == 0)
            implies (#[trigger] after.messages[k]).role == "user"@ by {
            if k < s1.messages.len() {
                assert(after.messages[k] == s1.messages[k]);
                assert(k == s.messages.len());
            } else {
                assert((k - s1.messages.len()) % 2 == 0);
            }
        }
        assert forall|k: int|
            s.messages.len() <= k < after.messages.len() && ((k - s.messages.len()) % 2 == 1)
            implies ((#[trigger] after.messages[k]).role == "assistant"@ || after.messages[k].role
            == "error"@) by {
            if k < s1.messages.len() {
                assert(after.messages[k] == s1.messages[k]);
                assert(k == s.messages.len() + 1);
            } else {
                assert((k - s1.messages.len()) % 2 == 1);
            }
        }
    }
}

} // verus!
