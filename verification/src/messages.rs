//! Remote thread messages and the shaping the service applies to them before
//! answering a client: keep only textual content, optionally select the
//! newest entry, or sort the transcript by creation time.

use vstd::prelude::*;
use vstd::seq_lib::*;
use vstd::string::*;

use crate::text::str_eq;

verus! {

/// The text payload of one message content block.
pub struct TextContent {
    pub value: String,
}

/// One content block of a remote message; only blocks whose type is `text`
/// carry a payload this service surfaces.
pub struct Content {
    pub content_type: String,
    pub text: Option<TextContent>,
}

/// One message of a remote conversation thread.
pub struct ChatMessage {
    pub id: String,
    pub created_at: i64,
    pub role: String,
    pub content: Vec<Content>,
}

/// The list-messages response of the remote service.
pub struct ChatMessageList {
    pub object: String,
    pub data: Vec<ChatMessage>,
}

/// The shape a message takes in this service's own responses and records:
/// creation time, role, and the first textual content.
pub struct SimplifiedMessage {
    pub created_at: i64,
    pub role: String,
    pub text: String,
}

/// The mathematical value of a `SimplifiedMessage`.
pub struct SimplifiedMessageView {
    pub created_at: int,
    pub role: Seq<char>,
    pub text: Seq<char>,
}

impl View for SimplifiedMessage {
    type V = SimplifiedMessageView;

    open spec fn view(&self) -> SimplifiedMessageView {
        SimplifiedMessageView {
            created_at: self.created_at as int,
            role: self.role@,
            text: self.text@,
        }
    }
}

impl Clone for SimplifiedMessage {
    fn clone(&self) -> (res: Self)
        ensures
            res == *self,
    {
        SimplifiedMessage {
            created_at: self.created_at,
            role: self.role.clone(),
            text: self.text.clone(),
        }
    }
}

pub open spec fn msgs_view(s: Seq<SimplifiedMessage>) -> Seq<SimplifiedMessageView> {
    s.map_values(|m: SimplifiedMessage| m@)
}

/// The first content block typed `text`, if any.
pub open spec fn spec_find_text(cs: Seq<Content>) -> Option<Content>
    decreases cs.len(),
{
    if cs.len() == 0 {
        None
    } else if cs[0].content_type@ == "text"@ {
        Some(cs[0])
    } else {
        spec_find_text(cs.skip(1))
    }
}

/// What one remote message contributes to the simplified transcript: its
/// first `text` block's payload, or nothing when it has no usable text.
pub open spec fn spec_simplify_one(m: ChatMessage) -> Option<SimplifiedMessageView> {
    match spec_find_text(m.content@) {
        None => None,
        Some(c) => match c.text {
            None => None,
            Some(t) => Some(
                SimplifiedMessageView {
                    created_at: m.created_at as int,
                    role: m.role@,
                    text: t.value@,
                },
            ),
        },
    }
}

/// The simplified transcript of a remote message list, in the order the
/// remote service returned it.
pub open spec fn spec_simplify(data: Seq<ChatMessage>) -> Seq<SimplifiedMessageView>
    decreases data.len(),
{
    if data.len() == 0 {
        Seq::empty()
    } else {
        match spec_simplify_one(data[0]) {
            Some(v) => seq![v] + spec_simplify(data.skip(1)),
            None => spec_simplify(data.skip(1)),
        }
    }
}

fn find_text(content: &Vec<Content>) -> (r: Option<&Content>)
    ensures
        match r {
            Some(c) => spec_find_text(content@) == Some(*c),
            None => spec_find_text(content@) is None,
        },
{
    let mut i: usize = 0;
    proof {
        assert(content@.skip(0) =~= content@);
    }
    while i < content.len()
        invariant
            i <= content@.len(),
            spec_find_text(content@.skip(i as int)) == spec_find_text(content@),
        decreases content@.len() - i,
    {
        let ghost tail = content@.skip(i as int);
        if str_eq(content[i].content_type.as_str(), "text") {
            proof {
                assert(tail[0] == content@[i as int]);
            }
            return Some(&content[i]);
        }
        proof {
            assert(tail[0] == content@[i as int]);
            assert(tail.skip(1) =~= content@.skip(i as int + 1));
        }
        i = i + 1;
    }
    proof {
        assert(content@.skip(content@.len() as int) =~= Seq::<Content>::empty());
    }
    None
}

/// Reduces a remote message list to the simplified transcript: for each
/// message, the payload of its first `text` content block; messages without
/// one are dropped.
pub fn simplify_messages(data: &Vec<ChatMessage>) -> (r: Vec<SimplifiedMessage>)
    ensures
        msgs_view(r@) == spec_simplify(data@),
{
    let mut r: Vec<SimplifiedMessage> = Vec::new();
    let mut i: usize = 0;
    proof {
        assert(data@.skip(0) =~= data@);
        assert(msgs_view(r@) =~= Seq::<SimplifiedMessageView>::empty());
        assert(msgs_view(r@) + spec_simplify(data@) =~= spec_simplify(data@));
    }
    while i < data.len()
        invariant
            i <= data@.len(),
            spec_simplify(data@) == msgs_view(r@) + spec_simplify(data@.skip(i as int)),
        decreases data@.len() - i,
    {
        let ghost tail = data@.skip(i as int);
        let ghost r0 = r@;
        proof {
            assert(tail[0] == data@[i as int]);
            assert(tail.skip(1) =~= data@.skip(i as int + 1));
        }
        let msg = &data[i];
        match find_text(&msg.content) {
            Some(c) => match &c.text {
                Some(t) => {
                    let simplified = SimplifiedMessage {
                        created_at: msg.created_at,
                        role: msg.role.clone(),
                        text: t.value.clone(),
                    };
                    proof {
                        assert(spec_simplify_one(tail[0]) == Some(simplified@));
                    }
                    r.push(simplified);
                    proof {
                        assert(msgs_view(r@) =~= msgs_view(r0) + seq![r@.last()@]);
                        assert(msgs_view(r0) + (seq![r@.last()@] + spec_simplify(tail.skip(1)))
                            =~= (msgs_view(r0) + seq![r@.last()@]) + spec_simplify(tail.skip(1)));
                    }
                },
                None => {
                    proof {
                        assert(spec_simplify_one(tail[0]) is None);
                    }
                },
            },
            None => {
                proof {
                    assert(spec_simplify_one(tail[0]) is None);
                }
            },
        }
        i = i + 1;
    }
    proof {
        assert(data@.skip(data@.len() as int) =~= Seq::<ChatMessage>::empty());
        assert(msgs_view(r@) + spec_simplify(Seq::<ChatMessage>::empty()) =~= msgs_view(r@));
    }
    r
}

/// The entry a newest-message lookup selects: the one with the greatest
/// creation time, the later entry winning a tie.
pub open spec fn spec_latest(s: Seq<SimplifiedMessageView>) -> Option<SimplifiedMessageView>
    decreases s.len(),
{
    if s.len() == 0 {
        None
    } else {
        match spec_latest(s.drop_last()) {
            None => Some(s.last()),
            Some(m) => if s.last().created_at >= m.created_at {
                Some(s.last())
            } else {
                Some(m)
            },
        }
    }
}

/// Selects the newest message without sorting, as the handler does when only
/// the assistant's final reply is wanted.
pub fn latest_message(msgs: &Vec<SimplifiedMessage>) -> (r: Option<SimplifiedMessage>)
    ensures
        match r {
            Some(m) => spec_latest(msgs_view(msgs@)) == Some(m@),
            None => msgs@.len() == 0,
        },
{
    if msgs.len() == 0 {
        return None;
    }
    let mut best = msgs[0].clone();
    let mut i: usize = 1;
    proof {
        let v1 = msgs_view(msgs@.subrange(0, 1));
        assert(v1.len() == 1);
        assert(v1.drop_last() =~= Seq::<SimplifiedMessageView>::empty());
        assert(spec_latest(Seq::<SimplifiedMessageView>::empty()) is None);
        assert(v1.last() == msgs@.subrange(0, 1)[0]@);
        assert(msgs@.subrange(0, 1)[0] == msgs@[0]);
        assert(spec_latest(v1) == Some(best@));
    }
    while i < msgs.len()
        invariant
            1 <= i <= msgs@.len(),
            spec_latest(msgs_view(msgs@.subrange(0, i as int))) == Some(best@),
        decreases msgs@.len() - i,
    {
        proof {
            assert(msgs_view(msgs@.subrange(0, i as int + 1)).drop_last() =~= msgs_view(
                msgs@.subrange(0, i as int),
            ));
            assert(msgs_view(msgs@.subrange(0, i as int + 1)).last() == msgs@[i as int]@);
        }
        if msgs[i].created_at >= best.created_at {
            best = msgs[i].clone();
        }
        i = i + 1;
    }
    proof {
        assert(msgs@.subrange(0, msgs@.len() as int) =~= msgs@);
    }
    Some(best)
}

/// A transcript ordered by creation time, oldest first.
pub open spec fn sorted_by_time(s: Seq<SimplifiedMessageView>) -> bool {
    forall|i: int, j: int| 0 <= i < j < s.len() ==> s[i].created_at <= s[j].created_at
}

fn find_insert_pos(r: &Vec<SimplifiedMessage>, key: i64) -> (pos: usize)
    requires
        sorted_by_time(msgs_view(r@)),
    ensures
        pos <= r@.len(),
        forall|k: int| 0 <= k < pos ==> msgs_view(r@)[k].created_at <= key,
        forall|k: int| pos <= k < r@.len() ==> msgs_view(r@)[k].created_at > key,
{
    let mut pos: usize = 0;
    while pos < r.len()
        invariant
            pos <= r@.len(),
            sorted_by_time(msgs_view(r@)),
            forall|k: int| 0 <= k < pos ==> msgs_view(r@)[k].created_at <= key,
        decreases r@.len() - pos,
    {
        if r[pos].created_at > key {
            proof {
                let rv = msgs_view(r@);
                assert forall|k: int| pos <= k < rv.len() implies rv[k].created_at > key by {
                    assert(rv[pos as int].created_at <= rv[k].created_at);
                }
            }
            return pos;
        }
        pos = pos + 1;
    }
    pos
}

/// Sorts a transcript by creation time, oldest first, keeping exactly the
/// same messages. Equal timestamps keep their relative order.
pub fn sort_by_time(msgs: &Vec<SimplifiedMessage>) -> (r: Vec<SimplifiedMessage>)
    ensures
        sorted_by_time(msgs_view(r@)),
        r@.to_multiset() == msgs@.to_multiset(),
        msgs_view(r@).to_multiset() == msgs_view(msgs@).to_multiset(),
{
    broadcast use vstd::seq_lib::group_to_multiset_ensures;

    let mut r: Vec<SimplifiedMessage> = Vec::new();
    let mut i: usize = 0;
    proof {
        assert(msgs@.subrange(0, 0) =~= Seq::<SimplifiedMessage>::empty());
        assert(r@.to_multiset() =~= msgs@.subrange(0, 0).to_multiset());
        assert(msgs_view(r@) =~= msgs_view(msgs@.subrange(0, 0)));
    }
    while i < msgs.len()
        invariant
            i <= msgs@.len(),
            sorted_by_time(msgs_view(r@)),
            r@.to_multiset() == msgs@.subrange(0, i as int).to_multiset(),
            msgs_view(r@).to_multiset() == msgs_view(msgs@.subrange(0, i as int)).to_multiset(),
        decreases msgs@.len() - i,
    {
        let m = msgs[i].clone();
        let pos = find_insert_pos(&r, m.created_at);
        let ghost r0 = r@;
        r.insert(pos, m);
        proof {
            let rv = msgs_view(r@);
            assert forall|a: int, b: int| 0 <= a < b < rv.len() implies rv[a].created_at
                <= rv[b].created_at by {
                if b < pos {
                    assert(rv[a] == msgs_view(r0)[a]);
                    assert(rv[b] == msgs_view(r0)[b]);
                } else if a > pos {
                    assert(rv[a] == msgs_view(r0)[a - 1]);
                    assert(rv[b] == msgs_view(r0)[b - 1]);
                } else if a == pos {
                    assert(rv[b] == msgs_view(r0)[b - 1]);
                } else if b == pos {
                    assert(rv[a] == msgs_view(r0)[a]);
                } else {
                    // a < pos < b
                    assert(rv[a] == msgs_view(r0)[a]);
                    assert(rv[b] == msgs_view(r0)[b - 1]);
                }
            }
            to_multiset_insert(r0, pos as int, m);
            to_multiset_build(msgs@.subrange(0, i as int), msgs@[i as int]);
            assert(msgs@.subrange(0, i as int + 1) =~= msgs@.subrange(0, i as int).push(
                msgs@[i as int],
            ));
            assert(r@.to_multiset() =~= msgs@.subrange(0, i as int + 1).to_multiset());
            assert(msgs_view(r@) =~= msgs_view(r0).insert(pos as int, m@));
            to_multiset_insert(msgs_view(r0), pos as int, m@);
            assert(msgs_view(msgs@.subrange(0, i as int + 1)) =~= msgs_view(
                msgs@.subrange(0, i as int),
            ).push(msgs@[i as int]@));
            to_multiset_build(msgs_view(msgs@.subrange(0, i as int)), msgs@[i as int]@);
            assert(msgs_view(r@).to_multiset() =~= msgs_view(
                msgs@.subrange(0, i as int + 1),
            ).to_multiset());
        }
        i = i + 1;
    }
    proof {
        assert(msgs@.subrange(0, msgs@.len() as int) =~= msgs@);
    }
    r
}

/// The shaping the service applies to a fetched message list before
/// answering: the simplified transcript, reduced to the single newest entry
/// when only the assistant's final reply is wanted, and otherwise sorted by
/// creation time, oldest first.
pub fn shape_messages(data: &Vec<ChatMessage>, only_last: bool) -> (r: Vec<SimplifiedMessage>)
    ensures
        only_last ==> match spec_latest(spec_simplify(data@)) {
            Some(m) => msgs_view(r@) == seq![m],
            None => r@.len() == 0,
        },
        !only_last ==> sorted_by_time(msgs_view(r@)) && msgs_view(r@).to_multiset()
            == spec_simplify(data@).to_multiset(),
{
    let simplified = simplify_messages(data);
    if only_last {
        match latest_message(&simplified) {
            Some(m) => {
                let mut r: Vec<SimplifiedMessage> = Vec::new();
                r.push(m);
                proof {
                    assert(msgs_view(r@) =~= seq![r@[0]@]);
                }
                r
            },
            None => Vec::new(),
        }
    } else {
        sort_by_time(&simplified)
    }
}

} // verus!
