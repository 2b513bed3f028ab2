//! When a reply answers the action that it is told for.

use vstd::prelude::*;
use crate::machine::{Action, ActionView, Reply, ReplyView, Task};
use crate::record::{Event, EventTag, RecordKinds, state_of, tag_values};
use crate::status::{is_provider_cancel, is_provider_close, is_provider_state};
use crate::text::same_text;

verus! {

/// Whether a reply is a record in which the provider says that they are in a state.
pub open spec fn says(
    reply: ReplyView,
    kinds: RecordKinds,
    provider: Seq<char>,
    state: Seq<char>,
) -> bool {
    reply matches ReplyView::Record { pubkey, kind, content, .. } && kind == kinds.status && pubkey
        == provider && state_of(content) == Some(state)
}

/// Whether a reply is a record of the direct channel in which the provider says that they are in a
/// state.
pub open spec fn says_directly(
    reply: ReplyView,
    kinds: RecordKinds,
    provider: Seq<char>,
    state: Seq<char>,
) -> bool {
    reply matches ReplyView::Direct { pubkey, kind, content, .. } && kind == kinds.status && pubkey
        == provider && state_of(content) == Some(state)
}

/// Whether a reply is the record with which the provider closes the session with an outcome.
pub open spec fn closes(
    reply: ReplyView,
    kinds: RecordKinds,
    provider: Seq<char>,
    outcome: Seq<char>,
) -> bool {
    reply matches ReplyView::Record { pubkey, kind, tags, .. } && kind == kinds.close && pubkey
        == provider && tag_values(tags, "outcome"@) == seq![outcome]
}

/// Whether a reply is the record with which the provider has a cancellation come to an action.
pub open spec fn cancels(
    reply: ReplyView,
    kinds: RecordKinds,
    provider: Seq<char>,
    action: Seq<char>,
) -> bool {
    reply matches ReplyView::Record { pubkey, kind, tags, .. } && kind == kinds.cancel && pubkey
        == provider && tag_values(tags, "action"@) == seq![action]
}

/// Whether a reply is a contract that the provider has signed.
pub open spec fn countersigns(reply: ReplyView, kinds: RecordKinds, provider: Seq<char>) -> bool {
    reply matches ReplyView::Record { pubkey, kind, .. } && kind == kinds.contract && pubkey
        == provider
}

/// Whether a record is a contract that the provider has signed.
pub fn is_provider_contract(event: &Event, kinds: RecordKinds, provider_pubkey: &str) -> (is: bool)
    ensures
        is == (event.kind == kinds.contract && event.pubkey@ == provider_pubkey@),
{
    event.kind == kinds.contract && same_text(event.pubkey.as_str(), provider_pubkey)
}

/// Whether a reply is the message with which the provider takes the step of a joint signature that
/// has a name.
pub open spec fn signs(reply: ReplyView, provider: Seq<char>, step: Seq<char>) -> bool {
    reply matches ReplyView::Signing { pubkey, action, .. } && pubkey == provider && action.label()
        == step
}

/// Whether a reply answers an action: a wait for a word of the provider is answered by a record of
/// theirs, of the right kind, that says what was waited for, and a wait for a step of a joint
/// signature by a message of theirs that takes it. What answers any other action is told
/// by its own reply.
pub open spec fn answers(
    action: ActionView,
    reply: ReplyView,
    kinds: RecordKinds,
    provider: Seq<char>,
) -> bool {
    match action {
        ActionView::AwaitState(state) => says(reply, kinds, provider, state),
        ActionView::AwaitDirectState(state) => says_directly(reply, kinds, provider, state),
        ActionView::AwaitClose(check) => closes(reply, kinds, provider, check.outcome),
        ActionView::Perform(Task::AwaitCancel, arguments) => arguments.len() == 1 && cancels(
            reply,
            kinds,
            provider,
            arguments[0],
        ),
        ActionView::Perform(Task::AwaitCancelledClose, arguments) => arguments.len() == 1 && closes(
            reply,
            kinds,
            provider,
            arguments[0],
        ),
        ActionView::Perform(Task::AwaitProviderContract, _) => countersigns(reply, kinds, provider),
        ActionView::Perform(Task::AwaitCooperative, arguments) => arguments.len() == 1 && signs(
            reply,
            provider,
            arguments[0],
        ),
        _ => true,
    }
}

fn record_closes(reply: &Reply, kinds: RecordKinds, provider_pubkey: &str, outcome: &str) -> (is:
    bool)
    ensures
        is == closes(reply@, kinds, provider_pubkey@, outcome@),
{
    match reply {
        Reply::Record(event) => is_provider_close(event, kinds, provider_pubkey, outcome),
        _ => false,
    }
}

/// Whether a reply answers an action.
pub fn is_answer(action: &Action, reply: &Reply, kinds: RecordKinds, provider_pubkey: &str) -> (is:
    bool)
    ensures
        is == answers(action@, reply@, kinds, provider_pubkey@),
{
    match action {
        Action::AwaitState(state) => match reply {
            Reply::Record(event) => is_provider_state(event, kinds, provider_pubkey, state),
            _ => false,
        },
        Action::AwaitDirectState(state) => match reply {
            Reply::Direct(event, _) => is_provider_state(event, kinds, provider_pubkey, state),
            _ => false,
        },
        Action::AwaitClose(check) => record_closes(reply, kinds, provider_pubkey, check.outcome),
        Action::Perform(task, arguments) => {
            assert(action@->Perform_1.len() == arguments@.len());
            if *task == Task::AwaitCancel {
                if arguments.len() != 1 {
                    return false;
                }
                assert(action@->Perform_1[0] == arguments@[0]@);
                match reply {
                    Reply::Record(event) => is_provider_cancel(
                        event,
                        kinds,
                        provider_pubkey,
                        arguments[0].as_str(),
                    ),
                    _ => false,
                }
            } else if *task == Task::AwaitCancelledClose {
                if arguments.len() != 1 {
                    return false;
                }
                assert(action@->Perform_1[0] == arguments@[0]@);
                record_closes(reply, kinds, provider_pubkey, arguments[0].as_str())
            } else if *task == Task::AwaitProviderContract {
                match reply {
                    Reply::Record(event) => is_provider_contract(event, kinds, provider_pubkey),
                    _ => false,
                }
            } else if *task == Task::AwaitCooperative {
                if arguments.len() != 1 {
                    return false;
                }
                assert(action@->Perform_1[0] == arguments@[0]@);
                match reply {
                    Reply::Signing { pubkey, action: step, .. } => same_text(
                        pubkey.as_str(),
                        provider_pubkey,
                    ) && same_text(step.name(), arguments[0].as_str()),
                    _ => false,
                }
            } else {
                true
            }
        },
        _ => true,
    }
}

/// A word that answers says one thing and is said by one author: whoever it answers for, and whatever it
/// answers with, are settled by the record.
pub proof fn law_answer_says_one_thing(
    reply: ReplyView,
    kinds: RecordKinds,
    provider: Seq<char>,
    other: Seq<char>,
    word: Seq<char>,
    another: Seq<char>,
)
    ensures
        says(reply, kinds, provider, word) ==> (says(reply, kinds, other, another) <==> other
            == provider && another == word),
        says_directly(reply, kinds, provider, word) ==> (says_directly(
            reply,
            kinds,
            other,
            another,
        ) <==> other == provider && another == word),
        closes(reply, kinds, provider, word) ==> (closes(reply, kinds, other, another) <==> other
            == provider && another == word),
        cancels(reply, kinds, provider, word) ==> (cancels(reply, kinds, other, another) <==> other
            == provider && another == word),
        signs(reply, provider, word) ==> (signs(reply, other, another) <==> other == provider
            && another == word),
        countersigns(reply, kinds, provider) ==> (countersigns(reply, kinds, other) <==> other
            == provider),
        kinds.status != kinds.close ==> !(says(reply, kinds, provider, word) && closes(
            reply,
            kinds,
            provider,
            another,
        )),
{
    if closes(reply, kinds, provider, word) && closes(reply, kinds, other, another) {
        assert(seq![word][0] == seq![another][0]);
    }
    if cancels(reply, kinds, provider, word) && cancels(reply, kinds, other, another) {
        assert(seq![word][0] == seq![another][0]);
    }
}

} // verus!
