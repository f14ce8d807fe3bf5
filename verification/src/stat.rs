//! The per-user record and the rule that advances it.

use vstd::prelude::*;

verus! {

/// Seconds since the Unix epoch, as the chat server stamps them on a message.
pub type Timestamp = i32;

/// The chat platform's identifier of a user.
pub type UserId = i64;

/// The span that must pass after a user's voice message before the next one
/// is accepted without consequence.
///
/// The figure is thirty minutes written in milliseconds (1000 * 60 * 30), yet
/// it is compared with differences of second-resolution timestamps, so the
/// span it stands for is about 500 hours.
pub const ALLOWED_VOICE_MESSAGE_DELAY: i32 = 1_800_000;

/// What the store answers to one voice message.
#[derive(Clone, Copy, Debug, PartialEq, Eq, Structural)]
pub enum Decision {
    /// The user had no record; one was created.
    FirstSeen,
    /// The cooldown had passed; the record's timestamp was refreshed.
    Allowed,
    /// The message came too early; the user is restricted from now on.
    Restrict,
    /// The user was restricted before this message arrived.
    AlreadyRestricted,
}

/// The record kept for one user who has sent at least one voice message.
/// The store files it under the user's id.
#[derive(Clone, Copy, Debug, PartialEq, Eq, Structural)]
pub struct UserStat {
    /// When the last voice message that advanced the cooldown was sent.
    pub latest_voice_timestamp: Timestamp,
    /// Set once the user has sent a voice message inside the cooldown; never
    /// cleared.
    pub has_restricted_voice: bool,
}

/// Whether a message sent at `now` comes at least `window` after `latest`.
pub open spec fn cooled_down(latest: int, now: int, window: int) -> bool {
    now - latest >= window
}

/// The decision for a voice message sent at `now` by a user whose record is
/// `entry` (`None` for a user never seen).
pub open spec fn decide(entry: Option<UserStat>, now: int, window: int) -> Decision {
    match entry {
        None => Decision::FirstSeen,
        Some(stat) => if stat.has_restricted_voice {
            Decision::AlreadyRestricted
        } else if cooled_down(stat.latest_voice_timestamp as int, now, window) {
            Decision::Allowed
        } else {
            Decision::Restrict
        },
    }
}

/// The record of a user after a voice message sent at `now`, given the
/// record `entry` before it.
pub open spec fn advance(entry: Option<UserStat>, now: Timestamp, window: int) -> UserStat {
    match entry {
        None => UserStat { latest_voice_timestamp: now, has_restricted_voice: false },
        Some(stat) => match decide(entry, now as int, window) {
            Decision::Allowed => UserStat { latest_voice_timestamp: now, ..stat },
            Decision::Restrict => UserStat { has_restricted_voice: true, ..stat },
            _ => stat,
        },
    }
}

impl UserStat {
    /// The record created by a user's first voice message.
    pub fn first(now: Timestamp) -> (stat: UserStat)
        ensures
            stat.latest_voice_timestamp == now,
            !stat.has_restricted_voice,
    {
        UserStat { latest_voice_timestamp: now, has_restricted_voice: false }
    }

    /// Applies one further voice message, sent at `now`, to the record.
    ///
    /// Returns the decision and the record as it stands afterwards. The
    /// difference `now - latest_voice_timestamp` is taken over the integers:
    /// timestamps that lie far apart, or run backwards, cannot overflow it.
    pub fn observe(self, now: Timestamp, window: i32) -> (outcome: (Decision, UserStat))
        ensures
            outcome.0 == decide(Some(self), now as int, window as int),
            outcome.1 == advance(Some(self), now, window as int),
    {
        if self.has_restricted_voice {
            (Decision::AlreadyRestricted, self)
        } else {
            let delta: i64 = now as i64 - self.latest_voice_timestamp as i64;
            if delta < window as i64 {
                (
                    Decision::Restrict,
                    UserStat {
                        latest_voice_timestamp: self.latest_voice_timestamp,
                        has_restricted_voice: true,
                    },
                )
            } else {
                (
                    Decision::Allowed,
                    UserStat { latest_voice_timestamp: now, has_restricted_voice: false },
                )
            }
        }
    }
}

} // verus!
