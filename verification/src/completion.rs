//! The plain completion endpoint's payload: the message list sent to the
//! remote completion API, built from the fixed system prompt, the stored
//! conversation history, and the new inbound message.

use vstd::prelude::*;
use vstd::string::*;

verus! {

/// One entry of a completion request's message list.
pub struct CompletionMessage {
    pub role: String,
    pub content: String,
}

pub struct CompletionMessageView {
    pub role: Seq<char>,
    pub content: Seq<char>,
}

impl View for CompletionMessage {
    type V = CompletionMessageView;

    open spec fn view(&self) -> CompletionMessageView {
        CompletionMessageView { role: self.role@, content: self.content@ }
    }
}

pub open spec fn completion_view(s: Seq<CompletionMessage>) -> Seq<CompletionMessageView> {
    s.map_values(|m: CompletionMessage| m@)
}

/// The fixed system prompt every completion request opens with.
pub open spec fn spec_system_prompt() -> Seq<char> {
    "You are a helpful buyers guide chat bot that helps to find used bikes."@
}

pub fn system_prompt() -> (r: &'static str)
    ensures
        r@ == spec_system_prompt(),
{
    "You are a helpful buyers guide chat bot that helps to find used bikes."
}

/// The message list of one completion request: the system prompt, then each
/// stored history entry as a user message in order, then the new message.
pub open spec fn spec_completion_messages(
    history: Seq<Seq<char>>,
    message: Seq<char>,
) -> Seq<CompletionMessageView> {
    seq![CompletionMessageView { role: "system"@, content: spec_system_prompt() }]
        + history.map_values(|h: Seq<char>| CompletionMessageView { role: "user"@, content: h })
        + seq![CompletionMessageView { role: "user"@, content: message }]
}

/// Builds the message list for one completion request.
pub fn build_completion_messages(history: &Vec<String>, message: &str) -> (r: Vec<
    CompletionMessage,
>)
    ensures
        completion_view(r@) == spec_completion_messages(
            history@.map_values(|h: String| h@),
            message@,
        ),
{
    let ghost hist = history@.map_values(|h: String| h@);
    let ghost mapped = hist.map_values(
        |h: Seq<char>| CompletionMessageView { role: "user"@, content: h },
    );
    let mut r: Vec<CompletionMessage> = Vec::new();
    r.push(
        CompletionMessage {
            role: String::from_str("system"),
            content: String::from_str(system_prompt()),
        },
    );
    let ghost head = seq![
        CompletionMessageView { role: "system"@, content: spec_system_prompt() },
    ];
    proof {
        assert(completion_view(r@) =~= head);
        assert(mapped.subrange(0, 0) =~= Seq::<CompletionMessageView>::empty());
        assert(completion_view(r@) =~= head + mapped.subrange(0, 0));
    }
    let mut i: usize = 0;
    while i < history.len()
        invariant
            i <= history@.len(),
            hist == history@.map_values(|h: String| h@),
            mapped == hist.map_values(
                |h: Seq<char>| CompletionMessageView { role: "user"@, content: h },
            ),
            head == seq![
                CompletionMessageView { role: "system"@, content: spec_system_prompt() },
            ],
            completion_view(r@) == head + mapped.subrange(0, i as int),
        decreases history@.len() - i,
    {
        let ghost r0 = r@;
        r.push(
            CompletionMessage { role: String::from_str("user"), content: history[i].clone() },
        );
        proof {
            assert(completion_view(r@) =~= completion_view(r0).push(
                CompletionMessageView { role: "user"@, content: history@[i as int]@ },
            ));
            assert(mapped[i as int] == (CompletionMessageView {
                role: "user"@,
                content: history@[i as int]@,
            }));
            assert(mapped.subrange(0, i as int + 1) =~= mapped.subrange(0, i as int).push(
                mapped[i as int],
            ));
            assert((head + mapped.subrange(0, i as int)).push(mapped[i as int]) =~= head
                + mapped.subrange(0, i as int + 1));
        }
        i = i + 1;
    }
    let ghost r1 = r@;
    r.push(CompletionMessage { role: String::from_str("user"), content: String::from_str(message) });
    proof {
        assert(mapped.subrange(0, mapped.len() as int) =~= mapped);
        assert(completion_view(r@) =~= completion_view(r1).push(
            CompletionMessageView { role: "user"@, content: message@ },
        ));
        assert((head + mapped).push(CompletionMessageView { role: "user"@, content: message@ })
            =~= head + mapped + seq![CompletionMessageView { role: "user"@, content: message@ }]);
    }
    r
}

} // verus!
