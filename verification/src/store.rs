//! The conversation store: the repository the service keeps its thread
//! mappings and transcripts in. Rows are only ever appended; insertion order
//! stands for creation time, and a user's active thread is the most recently
//! created mapping.

use vstd::prelude::*;
use vstd::string::*;

use crate::text::str_eq;

verus! {

/// One thread mapping: a remote thread identifier owned by a user.
pub struct ChatRow {
    pub id: String,
    pub user_id: String,
}

/// One transcript record: a message exchanged on a thread, with the role it
/// was produced under (`user`, `assistant` or `error`).
pub struct MessageRow {
    pub chat_id: String,
    pub role: String,
    pub content: String,
}

pub struct ChatRowView {
    pub id: Seq<char>,
    pub user_id: Seq<char>,
}

pub struct MessageRowView {
    pub chat_id: Seq<char>,
    pub role: Seq<char>,
    pub content: Seq<char>,
}

impl View for ChatRow {
    type V = ChatRowView;

    open spec fn view(&self) -> ChatRowView {
        ChatRowView { id: self.id@, user_id: self.user_id@ }
    }
}

impl View for MessageRow {
    type V = MessageRowView;

    open spec fn view(&self) -> MessageRowView {
        MessageRowView { chat_id: self.chat_id@, role: self.role@, content: self.content@ }
    }
}

pub open spec fn chats_view(s: Seq<ChatRow>) -> Seq<ChatRowView> {
    s.map_values(|r: ChatRow| r@)
}

pub open spec fn messages_view(s: Seq<MessageRow>) -> Seq<MessageRowView> {
    s.map_values(|r: MessageRow| r@)
}

/// The whole store as a mathematical value: two append-only row sequences.
pub struct StoreView {
    pub chats: Seq<ChatRowView>,
    pub messages: Seq<MessageRowView>,
}

/// The relational store, reduced to what the service asks of it.
pub struct Store {
    pub chats: Vec<ChatRow>,
    pub messages: Vec<MessageRow>,
}

impl View for Store {
    type V = StoreView;

    open spec fn view(&self) -> StoreView {
        StoreView { chats: chats_view(self.chats@), messages: messages_view(self.messages@) }
    }
}

/// The thread a user's requests are routed to: the identifier of the most
/// recently created mapping for that user, if any.
pub open spec fn spec_chat_id(chats: Seq<ChatRowView>, user: Seq<char>) -> Option<Seq<char>>
    decreases chats.len(),
{
    if chats.len() == 0 {
        None
    } else if chats.last().user_id == user {
        Some(chats.last().id)
    } else {
        spec_chat_id(chats.drop_last(), user)
    }
}

/// The conversation history of one thread: the contents of its records, in
/// insertion order.
pub open spec fn spec_history(msgs: Seq<MessageRowView>, chat: Seq<char>) -> Seq<Seq<char>>
    decreases msgs.len(),
{
    if msgs.len() == 0 {
        Seq::empty()
    } else if msgs[0].chat_id == chat {
        seq![msgs[0].content] + spec_history(msgs.skip(1), chat)
    } else {
        spec_history(msgs.skip(1), chat)
    }
}

pub open spec fn opt_str_view(o: Option<String>) -> Option<Seq<char>> {
    match o {
        Some(s) => Some(s@),
        None => None,
    }
}

impl Store {
    /// An empty store, as a fresh deployment starts with.
    pub fn new() -> (s: Store)
        ensures
            s@.chats == Seq::<ChatRowView>::empty(),
            s@.messages == Seq::<MessageRowView>::empty(),
    {
        let s = Store { chats: Vec::new(), messages: Vec::new() };
        proof {
            assert(s@.chats =~= Seq::<ChatRowView>::empty());
            assert(s@.messages =~= Seq::<MessageRowView>::empty());
        }
        s
    }

    /// Looks up the thread identifier for a user: the most recently created
    /// mapping wins, and a user with no mapping gets `None`.
    pub fn get_chat_id(&self, user_id: &str) -> (r: Option<String>)
        ensures
            opt_str_view(r) == spec_chat_id(self@.chats, user_id@),
    {
        let mut i: usize = self.chats.len();
        proof {
            assert(self@.chats.subrange(0, i as int) =~= self@.chats);
        }
        while i > 0
            invariant
                i <= self.chats@.len(),
                spec_chat_id(self@.chats.subrange(0, i as int), user_id@) == spec_chat_id(
                    self@.chats,
                    user_id@,
                ),
            decreases i,
        {
            i = i - 1;
            let ghost prefix = self@.chats.subrange(0, i as int + 1);
            proof {
                assert(prefix.last() == self@.chats[i as int]);
                assert(prefix.drop_last() =~= self@.chats.subrange(0, i as int));
            }
            if str_eq(self.chats[i].user_id.as_str(), user_id) {
                return Some(self.chats[i].id.clone());
            }
        }
        proof {
            assert(self@.chats.subrange(0, 0) =~= Seq::<ChatRowView>::empty());
        }
        None
    }

    /// Records a freshly created thread for a user. The mapping is appended,
    /// so it becomes the user's most recent — and hence active — thread.
    pub fn save_chat_id(&mut self, user_id: &str, chat_id: &str)
        ensures
            final(self)@.chats == old(self)@.chats.push(
                ChatRowView { id: chat_id@, user_id: user_id@ },
            ),
            final(self)@.messages == old(self)@.messages,
    {
        let row = ChatRow { id: String::from_str(chat_id), user_id: String::from_str(user_id) };
        self.chats.push(row);
        proof {
            assert(final(self)@.chats =~= old(self)@.chats.push(
                ChatRowView { id: chat_id@, user_id: user_id@ },
            ));
            assert(final(self)@.messages =~= old(self)@.messages);
        }
    }

    /// Appends one transcript record. Nothing is ever overwritten: the
    /// transcript only grows.
    pub fn save_message_to_db(&mut self, chat_id: &str, role: &str, content: &str)
        ensures
            final(self)@.messages == old(self)@.messages.push(
                MessageRowView { chat_id: chat_id@, role: role@, content: content@ },
            ),
            final(self)@.chats == old(self)@.chats,
    {
        let row = MessageRow {
            chat_id: String::from_str(chat_id),
            role: String::from_str(role),
            content: String::from_str(content),
        };
        self.messages.push(row);
        proof {
            assert(final(self)@.messages =~= old(self)@.messages.push(
                MessageRowView { chat_id: chat_id@, role: role@, content: content@ },
            ));
            assert(final(self)@.chats =~= old(self)@.chats);
        }
    }

    /// The contents of one thread's records, oldest first.
    pub fn get_conversation_history(&self, chat_id: &str) -> (r: Vec<String>)
        ensures
            r@.map_values(|s: String| s@) == spec_history(self@.messages, chat_id@),
    {
        let mut r: Vec<String> = Vec::new();
        let mut i: usize = 0;
        proof {
            assert(self@.messages.skip(0) =~= self@.messages);
            assert(r@.map_values(|s: String| s@) =~= Seq::<Seq<char>>::empty());
            assert(r@.map_values(|s: String| s@) + spec_history(self@.messages, chat_id@)
                =~= spec_history(self@.messages, chat_id@));
        }
        while i < self.messages.len()
            invariant
                i <= self.messages@.len(),
                spec_history(self@.messages, chat_id@) == r@.map_values(|s: String| s@)
                    + spec_history(self@.messages.skip(i as int), chat_id@),
            decreases self.messages@.len() - i,
        {
            let ghost tail = self@.messages.skip(i as int);
            let ghost r0 = r@;
            proof {
                assert(tail[0] == self@.messages[i as int]);
                assert(tail.skip(1) =~= self@.messages.skip(i as int + 1));
            }
            if str_eq(self.messages[i].chat_id.as_str(), chat_id) {
                r.push(self.messages[i].content.clone());
                proof {
                    assert(r@.map_values(|s: String| s@) =~= r0.map_values(|s: String| s@)
                        + seq![tail[0].content]);
                    assert(r0.map_values(|s: String| s@) + (seq![tail[0].content] + spec_history(
                        tail.skip(1),
                        chat_id@,
                    )) =~= (r0.map_values(|s: String| s@) + seq![tail[0].content]) + spec_history(
                        tail.skip(1),
                        chat_id@,
                    ));
                }
            }
            i = i + 1;
        }
        proof {
            assert(self@.messages.skip(self@.messages.len() as int) =~= Seq::<
                MessageRowView,
            >::empty());
            assert(r@.map_values(|s: String| s@) + spec_history(
                Seq::<MessageRowView>::empty(),
                chat_id@,
            ) =~= r@.map_values(|s: String| s@));
        }
        r
    }
}

} // verus!
