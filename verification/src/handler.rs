//! The message handler: from one inbound message to the requests that the
//! chat transport is to carry out.

use vstd::prelude::*;
use crate::stat::{Decision, Timestamp, UserId};
use crate::store::{RateLimitStore, StoreState};

verus! {

/// The chat platform's identifier of a chat.
pub type ChatId = i64;

/// The chat platform's identifier of a message within its chat.
pub type MessageId = i32;

/// What a message carries, as far as the handler cares.
#[derive(Clone, Copy, Debug, PartialEq, Eq, Structural)]
pub enum MessageKind {
    /// An audio recording sent as a voice message.
    Voice,
    /// Text, any other media, or a service message.
    Other,
}

/// One message as the transport delivers it.
#[derive(Clone, Copy, Debug, PartialEq, Eq, Structural)]
pub struct InboundMessage {
    pub kind: MessageKind,
    /// The user who sent the message, where the transport names one.
    pub sender_id: Option<UserId>,
    pub chat_id: ChatId,
    pub message_id: MessageId,
    /// When the server received the message.
    pub timestamp: Timestamp,
}

/// A request to the chat transport.
#[derive(Clone, Copy, Debug, PartialEq, Eq, Structural)]
pub enum Action {
    /// Delete the message `message_id` from the chat `chat_id`.
    DeleteMessage { chat_id: ChatId, message_id: MessageId },
    /// Send the canned audio to the chat `chat_id`, as a reply to the message
    /// `reply_to_message_id`.
    SendVoiceReply { chat_id: ChatId, reply_to_message_id: MessageId },
}

/// The requests that answer a voice message, given the store's decision on
/// it: the message is deleted if its sender was already restricted, and the
/// canned audio is sent in reply whatever the decision.
pub open spec fn reaction_to(decision: Decision, chat_id: ChatId, message_id: MessageId) -> Seq<Action> {
    let reply = Action::SendVoiceReply { chat_id, reply_to_message_id: message_id };
    if decision == Decision::AlreadyRestricted {
        seq![Action::DeleteMessage { chat_id, message_id }, reply]
    } else {
        seq![reply]
    }
}

impl InboundMessage {
    /// The user whose cooldown the message counts against: the sender of a
    /// voice message. Any other message, and a voice message without a
    /// sender, counts against no one.
    pub open spec fn voice_sender(self) -> Option<UserId> {
        match self.kind {
            MessageKind::Voice => self.sender_id,
            MessageKind::Other => None,
        }
    }
}

/// The store's state after `message` has been handled.
pub open spec fn state_after(state: StoreState, message: InboundMessage) -> StoreState {
    match message.voice_sender() {
        Some(user_id) => state.step(user_id, message.timestamp),
        None => state,
    }
}

/// The requests that handling `message` issues, in order.
pub open spec fn actions_for(state: StoreState, message: InboundMessage) -> Seq<Action> {
    match message.voice_sender() {
        Some(user_id) => reaction_to(
            state.decision(user_id, message.timestamp),
            message.chat_id,
            message.message_id,
        ),
        None => Seq::empty(),
    }
}

/// Turns the store's decision on a voice message into requests to the
/// transport.
pub fn reaction(decision: Decision, chat_id: ChatId, message_id: MessageId) -> (actions: Vec<Action>)
    ensures
        actions@ == reaction_to(decision, chat_id, message_id),
{
    let mut actions: Vec<Action> = Vec::new();
    match decision {
        Decision::AlreadyRestricted => {
            actions.push(Action::DeleteMessage { chat_id, message_id });
        },
        _ => {},
    }
    actions.push(Action::SendVoiceReply { chat_id, reply_to_message_id: message_id });
    actions
}

/// Handles one inbound message.
///
/// A message that is no voice message, or names no sender, is ignored: the
/// store is left as it is and nothing is requested. A voice message is
/// evaluated against the store under its sender and the server's timestamp,
/// and the requests of [`reaction`] are returned for the caller to carry out,
/// in order. Whether they succeed is no concern of the store.
pub fn handle(store: &mut RateLimitStore, message: &InboundMessage) -> (actions: Vec<Action>)
    ensures
        final(store)@ == state_after(old(store)@, *message),
        actions@ == actions_for(old(store)@, *message),
{
    match message.kind {
        MessageKind::Other => Vec::new(),
        MessageKind::Voice => match message.sender_id {
            None => Vec::new(),
            Some(user_id) => {
                let decision = store.evaluate(user_id, message.timestamp);
                reaction(decision, message.chat_id, message.message_id)
            },
        },
    }
}

} // verus!
