//! The rate-limit store: every user's record, and the one operation on it.

use std::collections::HashMap;
use vstd::prelude::*;
use crate::stat::{advance, decide, Decision, Timestamp, UserId, UserStat, ALLOWED_VOICE_MESSAGE_DELAY};

verus! {

/// One evaluation asked of a store: a voice message that `user_id` sent at
/// `now`.
pub struct Evaluation {
    pub user_id: UserId,
    pub now: Timestamp,
}

/// What a store holds, as mathematics: the records by user, and the cooldown
/// window the store was made with.
#[verifier::ext_equal]
pub struct StoreState {
    pub entries: Map<UserId, UserStat>,
    pub cooldown_window: int,
}

impl StoreState {
    /// The state of a store that has seen no one.
    pub open spec fn empty(cooldown_window: int) -> StoreState {
        StoreState { entries: Map::empty(), cooldown_window }
    }

    /// The record of `user_id`, if the user has been seen.
    pub open spec fn entry(self, user_id: UserId) -> Option<UserStat> {
        if self.entries.contains_key(user_id) {
            Some(self.entries[user_id])
        } else {
            None
        }
    }

    /// Whether `user_id` has a record, and it is restricted.
    pub open spec fn restricted(self, user_id: UserId) -> bool {
        self.entries.contains_key(user_id) && self.entries[user_id].has_restricted_voice
    }

    /// The decision for a voice message that `user_id` sent at `now`.
    pub open spec fn decision(self, user_id: UserId, now: Timestamp) -> Decision {
        decide(self.entry(user_id), now as int, self.cooldown_window)
    }

    /// The state after a voice message that `user_id` sent at `now`.
    pub open spec fn step(self, user_id: UserId, now: Timestamp) -> StoreState {
        StoreState {
            entries: self.entries.insert(
                user_id,
                advance(self.entry(user_id), now, self.cooldown_window),
            ),
            cooldown_window: self.cooldown_window,
        }
    }

    /// The state after the given evaluations, made one after the other.
    pub open spec fn after(self, evaluations: Seq<Evaluation>) -> StoreState
        decreases evaluations.len(),
    {
        if evaluations.len() == 0 {
            self
        } else {
            let last = evaluations.last();
            self.after(evaluations.drop_last()).step(last.user_id, last.now)
        }
    }

    /// The decision that the evaluation at position `index` of `evaluations`
    /// gets, when they are made one after the other starting from this state.
    pub open spec fn decision_at(self, evaluations: Seq<Evaluation>, index: int) -> Decision {
        self.after(evaluations.take(index)).decision(
            evaluations[index].user_id,
            evaluations[index].now,
        )
    }
}

/// The records of all users that have sent a voice message, with the
/// cooldown window that is applied to them.
///
/// A store owns its records: they are created by [`RateLimitStore::evaluate`]
/// and never removed. `evaluate` borrows the store exclusively, so the read,
/// the decision and the write of one evaluation cannot interleave with those
/// of another; a caller that shares a store between tasks keeps it behind a
/// lock and evaluates while holding it.
pub struct RateLimitStore {
    entries: HashMap<UserId, UserStat>,
    cooldown_window: i32,
}

impl View for RateLimitStore {
    type V = StoreState;

    closed spec fn view(&self) -> StoreState {
        StoreState { entries: self.entries@, cooldown_window: self.cooldown_window as int }
    }
}

impl RateLimitStore {
    /// An empty store with the standard window, [`ALLOWED_VOICE_MESSAGE_DELAY`].
    pub fn new() -> (store: RateLimitStore)
        ensures
            store@ == StoreState::empty(ALLOWED_VOICE_MESSAGE_DELAY as int),
    {
        RateLimitStore { entries: HashMap::new(), cooldown_window: ALLOWED_VOICE_MESSAGE_DELAY }
    }

    /// An empty store that applies the given window, in the unit of the
    /// timestamps it will be given.
    pub fn with_cooldown_window(cooldown_window: i32) -> (store: RateLimitStore)
        ensures
            store@ == StoreState::empty(cooldown_window as int),
    {
        RateLimitStore { entries: HashMap::new(), cooldown_window }
    }

    /// The window this store applies.
    pub fn cooldown_window(&self) -> (window: i32)
        ensures
            window as int == self@.cooldown_window,
    {
        self.cooldown_window
    }

    /// The record of `user_id`, or `None` for a user who has sent no voice
    /// message yet.
    pub fn stat(&self, user_id: UserId) -> (found: Option<UserStat>)
        ensures
            found == self@.entry(user_id),
    {
        broadcast use vstd::std_specs::hash::group_hash_axioms;
        match self.entries.get(&user_id) {
            Some(stat) => Some(*stat),
            None => None,
        }
    }

    /// Decides on a voice message that `user_id` sent at `now`, and records
    /// the consequence.
    ///
    /// A user never seen gets a record stamped `now` and the answer
    /// `FirstSeen`. A restricted user's record is left as it is and the answer
    /// is `AlreadyRestricted`. Otherwise the message is `Allowed`, and the
    /// record stamped `now`, if it comes at least a cooldown window after the
    /// record's timestamp; if not, the record is marked restricted, its
    /// timestamp stays, and the answer is `Restrict`. No other user's record
    /// is touched.
    pub fn evaluate(&mut self, user_id: UserId, now: Timestamp) -> (decision: Decision)
        ensures
            decision == old(self)@.decision(user_id, now),
            final(self)@ == old(self)@.step(user_id, now),
    {
        broadcast use vstd::std_specs::hash::group_hash_axioms;
        let window = self.cooldown_window;
        match self.stat(user_id) {
            None => {
                self.entries.insert(user_id, UserStat::first(now));
                Decision::FirstSeen
            },
            Some(stat) => {
                let (decision, next) = stat.observe(now, window);
                match decision {
                    Decision::AlreadyRestricted => {
                        // Nothing is written: the record stays as it is.
                        assert(self.entries@ =~= self.entries@.insert(user_id, stat));
                    },
                    _ => {
                        self.entries.insert(user_id, next);
                    },
                }
                decision
            },
        }
    }
}

} // verus!
