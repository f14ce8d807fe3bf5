//! What holds of every store and every run of evaluations, proved from the
//! definitions that the contracts of the executable functions are stated in.

use vstd::prelude::*;
use crate::handler::{actions_for, state_after, Action, InboundMessage, MessageKind};
use crate::stat::{Decision, Timestamp, UserId, UserStat};
use crate::store::{Evaluation, StoreState};

verus! {

/// A user without a record is answered `FirstSeen`, and thereby gets a record
/// stamped `now` that is not restricted.
pub proof fn fresh_user_is_first_seen(state: StoreState, user_id: UserId, now: Timestamp)
    requires
        !state.entries.contains_key(user_id),
    ensures
        state.decision(user_id, now) == Decision::FirstSeen,
        state.step(user_id, now).entries.contains_key(user_id),
        state.step(user_id, now).entries[user_id] == (UserStat {
            latest_voice_timestamp: now,
            has_restricted_voice: false,
        }),
{
}

/// `FirstSeen` is the answer to a user without a record, and to no other.
pub proof fn first_seen_only_when_fresh(state: StoreState, user_id: UserId, now: Timestamp)
    ensures
        state.decision(user_id, now) == Decision::FirstSeen <==> !state.entries.contains_key(
            user_id,
        ),
{
}

/// An unrestricted user whose message comes a full window or more after the
/// record's timestamp is `Allowed`; the record is stamped `now` and stays
/// unrestricted.
pub proof fn cooled_down_is_allowed(state: StoreState, user_id: UserId, now: Timestamp)
    requires
        state.entries.contains_key(user_id),
        !state.entries[user_id].has_restricted_voice,
        now - state.entries[user_id].latest_voice_timestamp >= state.cooldown_window,
    ensures
        state.decision(user_id, now) == Decision::Allowed,
        state.step(user_id, now).entries[user_id] == (UserStat {
            latest_voice_timestamp: now,
            has_restricted_voice: false,
        }),
{
}

/// An unrestricted user whose message comes less than a window after the
/// record's timestamp is answered `Restrict`; the record becomes restricted
/// and keeps its timestamp.
pub proof fn early_message_restricts(state: StoreState, user_id: UserId, now: Timestamp)
    requires
        state.entries.contains_key(user_id),
        !state.entries[user_id].has_restricted_voice,
        now - state.entries[user_id].latest_voice_timestamp < state.cooldown_window,
    ensures
        state.decision(user_id, now) == Decision::Restrict,
        state.step(user_id, now).entries[user_id] == (UserStat {
            latest_voice_timestamp: state.entries[user_id].latest_voice_timestamp,
            has_restricted_voice: true,
        }),
{
}

/// A restricted user is answered `AlreadyRestricted`, and the evaluation
/// leaves the whole store as it was.
pub proof fn restricted_user_changes_nothing(state: StoreState, user_id: UserId, now: Timestamp)
    requires
        state.restricted(user_id),
    ensures
        state.decision(user_id, now) == Decision::AlreadyRestricted,
        state.step(user_id, now) == state,
{
    assert(state.step(user_id, now).entries =~= state.entries);
}

/// An evaluation makes sure its user has a record, and touches nothing else:
/// every other user's record, the set of other users, and the window stay.
pub proof fn evaluation_is_local(state: StoreState, user_id: UserId, now: Timestamp, other: UserId)
    requires
        other != user_id,
    ensures
        state.step(user_id, now).entries.contains_key(user_id),
        state.step(user_id, now).entry(other) == state.entry(other),
        state.step(user_id, now).entries.dom() == state.entries.dom().insert(user_id),
        state.step(user_id, now).cooldown_window == state.cooldown_window,
{
    assert(state.step(user_id, now).entries.dom() =~= state.entries.dom().insert(user_id));
}

/// What one evaluation may do to a record that exists: nothing is removed;
/// a restricted record stays as it is; a timestamp changes only in the record
/// of the evaluated user, only on `Allowed`, and only to `now`; and the
/// restricted flag changes only in the record of the evaluated user, only on
/// `Restrict`, and only from unset to set.
pub proof fn records_change_lawfully(
    state: StoreState,
    user_id: UserId,
    now: Timestamp,
    other: UserId,
)
    requires
        state.entries.contains_key(other),
    ensures
        state.step(user_id, now).entries.contains_key(other),
        state.entries[other].has_restricted_voice ==> state.step(user_id, now).entries[other]
            == state.entries[other],
        state.step(user_id, now).entries[other].latest_voice_timestamp
            != state.entries[other].latest_voice_timestamp ==> {
            &&& other == user_id
            &&& state.decision(user_id, now) == Decision::Allowed
            &&& state.step(user_id, now).entries[other].latest_voice_timestamp == now
        },
        state.step(user_id, now).entries[other].has_restricted_voice
            != state.entries[other].has_restricted_voice ==> {
            &&& other == user_id
            &&& state.decision(user_id, now) == Decision::Restrict
            &&& state.step(user_id, now).entries[other].has_restricted_voice
        },
{
}

/// Making the evaluations `first` and then the evaluations `second` is making
/// the evaluations `first + second`.
pub proof fn after_concatenation(
    state: StoreState,
    first: Seq<Evaluation>,
    second: Seq<Evaluation>,
)
    ensures
        state.after(first + second) == state.after(first).after(second),
    decreases second.len(),
{
    if second.len() == 0 {
        assert(first + second =~= first);
    } else {
        after_concatenation(state, first, second.drop_last());
        assert((first + second).drop_last() =~= first + second.drop_last());
        assert((first + second).last() == second.last());
    }
}

/// No run of evaluations, for whichever users, removes a record.
pub proof fn records_are_kept(state: StoreState, evaluations: Seq<Evaluation>, user_id: UserId)
    requires
        state.entries.contains_key(user_id),
    ensures
        state.after(evaluations).entries.contains_key(user_id),
        state.after(evaluations).cooldown_window == state.cooldown_window,
    decreases evaluations.len(),
{
    if evaluations.len() > 0 {
        records_are_kept(state, evaluations.drop_last(), user_id);
    }
}

/// Restriction is final. Once a user's record is restricted, it is the same
/// record after any run of evaluations, and whatever the user sends next is
/// answered `AlreadyRestricted` and changes nothing.
pub proof fn restriction_is_final(
    state: StoreState,
    evaluations: Seq<Evaluation>,
    user_id: UserId,
    now: Timestamp,
)
    requires
        state.restricted(user_id),
    ensures
        state.after(evaluations).restricted(user_id),
        state.after(evaluations).entries[user_id] == state.entries[user_id],
        state.after(evaluations).decision(user_id, now) == Decision::AlreadyRestricted,
        state.after(evaluations).step(user_id, now) == state.after(evaluations),
    decreases evaluations.len(),
{
    if evaluations.len() > 0 {
        let last = evaluations.last();
        restriction_is_final(state, evaluations.drop_last(), user_id, last.now);
    }
    restricted_user_changes_nothing(state.after(evaluations), user_id, now);
}

/// No update is lost between two evaluations of one user, whatever is
/// evaluated in between and in whichever order the two are made: the later
/// one is decided on the record that the earlier one left. So the later one
/// is never `FirstSeen`; and where the earlier one restricted the user or
/// found the user restricted, the later one is `AlreadyRestricted`.
pub proof fn later_evaluation_sees_earlier(
    state: StoreState,
    evaluations: Seq<Evaluation>,
    earlier: int,
    later: int,
)
    requires
        0 <= earlier < later < evaluations.len(),
        evaluations[earlier].user_id == evaluations[later].user_id,
    ensures
        state.decision_at(evaluations, later) != Decision::FirstSeen,
        state.decision_at(evaluations, earlier) == Decision::Restrict || state.decision_at(
            evaluations,
            earlier,
        ) == Decision::AlreadyRestricted ==> state.decision_at(evaluations, later)
            == Decision::AlreadyRestricted,
{
    let user_id = evaluations[earlier].user_id;
    let before = state.after(evaluations.take(earlier));
    let done = evaluations.take(earlier + 1);
    let between = evaluations.subrange(earlier + 1, later);
    assert(done.drop_last() =~= evaluations.take(earlier));
    assert(done.last() == evaluations[earlier]);
    let reached = state.after(done);
    assert(reached == before.step(user_id, evaluations[earlier].now));
    assert(evaluations.take(later) =~= done + between);
    after_concatenation(state, done, between);
    records_are_kept(reached, between, user_id);
    if reached.restricted(user_id) {
        restriction_is_final(reached, between, user_id, evaluations[later].now);
    }
}

/// A message that is no voice message, or names no sender, leaves the store
/// as it was and asks nothing of the transport.
pub proof fn other_messages_are_ignored(state: StoreState, message: InboundMessage)
    requires
        message.kind != MessageKind::Voice || message.sender_id is None,
    ensures
        state_after(state, message) == state,
        actions_for(state, message) == Seq::<Action>::empty(),
{
}

/// A voice message with a sender is evaluated once, under that sender and its
/// own timestamp. The canned reply is requested exactly once, last, and
/// addressed to the message; a deletion of the message comes before it
/// exactly when the sender was restricted before the message arrived.
pub proof fn voice_message_is_answered(state: StoreState, message: InboundMessage, user_id: UserId)
    requires
        message.kind == MessageKind::Voice,
        message.sender_id == Some(user_id),
    ensures
        state_after(state, message) == state.step(user_id, message.timestamp),
        actions_for(state, message).last() == (Action::SendVoiceReply {
            chat_id: message.chat_id,
            reply_to_message_id: message.message_id,
        }),
        state.restricted(user_id) ==> actions_for(state, message) == seq![
            Action::DeleteMessage { chat_id: message.chat_id, message_id: message.message_id },
            Action::SendVoiceReply {
                chat_id: message.chat_id,
                reply_to_message_id: message.message_id,
            },
        ],
        !state.restricted(user_id) ==> actions_for(state, message) == seq![
            Action::SendVoiceReply {
                chat_id: message.chat_id,
                reply_to_message_id: message.message_id,
            },
        ],
{
}

/// Every voice message of a restricted user is deleted, however many
/// evaluations have been made since the restriction, and handling it changes
/// nothing in the store.
pub proof fn restricted_sender_is_always_deleted(
    state: StoreState,
    evaluations: Seq<Evaluation>,
    message: InboundMessage,
    user_id: UserId,
)
    requires
        state.restricted(user_id),
        message.kind == MessageKind::Voice,
        message.sender_id == Some(user_id),
    ensures
        actions_for(state.after(evaluations), message) == seq![
            Action::DeleteMessage { chat_id: message.chat_id, message_id: message.message_id },
            Action::SendVoiceReply {
                chat_id: message.chat_id,
                reply_to_message_id: message.message_id,
            },
        ],
        state_after(state.after(evaluations), message) == state.after(evaluations),
{
    restriction_is_final(state, evaluations, user_id, message.timestamp);
}

} // verus!
