//! The course of one kenneling, from the command that asks for it to the
//! release that ends it.
//!
//! The course is a state machine that does nothing by itself. It tells its
//! host what to do next (grant the role, send the announcements, store the
//! record, sleep, revoke the role) and is told in turn what came of it.

use vstd::prelude::*;
use crate::duration::DurationError;
use crate::ids::GuildId;
use crate::ids::MessageId;
use crate::ids::RoleId;
use crate::ids::UserId;
use crate::types::kenneling::Kenneling;
use crate::types::kenneling::NewKenneling;

verus! {

/// Why a kenneling did not come about.
#[derive(Clone, Copy, Debug, PartialEq, Eq, Structural)]
pub enum KennelError {
    /// The length asked for is not a duration.
    InvalidFormat,
    /// The length asked for is shorter than one second.
    TooShort,
    /// The guild has set no kennel role.
    NoConfiguration,
    /// The role could not be granted, revoked or read.
    ApplierUnavailable,
    /// The record could not be stored.
    StoreUnavailable,
}

/// How far a kenneling that is being applied has come.
#[derive(Clone, Copy, Debug, PartialEq, Eq, Structural)]
pub enum Stage {
    /// The role is being granted.
    Granting,
    /// The role is granted and the announcements are being sent.
    Announcing,
    /// The record is being stored.
    Inserting,
}

/// The state of one kenneling.
#[derive(Clone, Copy, Debug, PartialEq, Eq)]
pub enum Lifecycle {
    /// Asked for and found in order, on its way to being in force.
    Pending { draft: NewKenneling, stage: Stage },
    /// In force: the role is granted, the record stored, the timer running.
    Active { kenneling: Kenneling },
    /// Over: the end of the kenneling has been seen.
    Released { kenneling: Kenneling },
    /// Given up, with nothing stored.
    Aborted { error: KennelError },
}

/// What the host reports.
#[derive(Clone, Copy, Debug, PartialEq, Eq)]
pub enum Event {
    /// The role was granted, or could not be.
    Granted { done: bool },
    /// The announcements were sent; each is named where it went out.
    Announced { msg_announce_id: Option<MessageId>, kennel_msg_id: Option<MessageId> },
    /// The record was stored under `id`, or could not be stored.
    Inserted { id: Option<i32> },
    /// The timer ran out.
    TimerFired,
    /// The role was revoked at `now`, or could not be.
    Revoked { done: bool, now: u64 },
}

/// What the host is to do next.
#[derive(Clone, Copy, Debug, PartialEq, Eq)]
pub enum Action {
    /// Nothing.
    Nothing,
    /// Grant `role_id` to `victim_id`, and report `Granted`.
    Grant { victim_id: UserId, role_id: RoleId },
    /// Send the announcements that the guild has set, and report `Announced`.
    Announce,
    /// Store the record, and report `Inserted`.
    Insert { draft: NewKenneling },
    /// Sleep for `secs` seconds, and report `TimerFired`.
    Sleep { secs: u64 },
    /// Revoke `role_id` from `victim_id`, and report `Revoked`.
    Revoke { victim_id: UserId, role_id: RoleId },
    /// Write `released_at` to record `id`, if no end is written there yet.
    MarkReleased { id: i32, released_at: u64 },
}

/// The error that a refused length becomes.
pub open spec fn duration_error(error: DurationError) -> KennelError {
    match error {
        DurationError::InvalidFormat => KennelError::InvalidFormat,
        DurationError::TooShort => KennelError::TooShort,
    }
}

/// The draft of a kenneling issued at `now`.
pub open spec fn draft_of(
    guild_id: GuildId,
    author_id: UserId,
    victim_id: UserId,
    role_id: RoleId,
    kennel_length: u64,
    now: u64,
) -> NewKenneling {
    NewKenneling {
        guild_id,
        author_id,
        victim_id,
        role_id,
        kenneled_at: now,
        kennel_length,
        msg_announce_id: None,
        kennel_msg_id: None,
    }
}

/// Where a kenneling starts, and the first thing to do for it.
///
/// A length that was refused aborts it, and so does a guild without a kennel
/// role, in that order. Otherwise it is pending and the role is to be
/// granted.
pub open spec fn opening(
    role: Option<RoleId>,
    guild_id: GuildId,
    author_id: UserId,
    victim_id: UserId,
    length: Result<u64, DurationError>,
    now: u64,
) -> (Lifecycle, Action) {
    match length {
        Err(error) => (Lifecycle::Aborted { error: duration_error(error) }, Action::Nothing),
        Ok(secs) => match role {
            None => (Lifecycle::Aborted { error: KennelError::NoConfiguration }, Action::Nothing),
            Some(role_id) => (
                Lifecycle::Pending {
                    draft: draft_of(guild_id, author_id, victim_id, role_id, secs, now),
                    stage: Stage::Granting,
                },
                Action::Grant { victim_id, role_id },
            ),
        },
    }
}

/// The state that follows `state` on `event`, and what is to be done then.
/// An event that the state does not wait for changes nothing.
pub open spec fn next(state: Lifecycle, event: Event) -> (Lifecycle, Action) {
    match (state, event) {
        (Lifecycle::Pending { draft, stage: Stage::Granting }, Event::Granted { done }) => if done {
            (Lifecycle::Pending { draft, stage: Stage::Announcing }, Action::Announce)
        } else {
            (Lifecycle::Aborted { error: KennelError::ApplierUnavailable }, Action::Nothing)
        },
        (
            Lifecycle::Pending { draft, stage: Stage::Announcing },
            Event::Announced { msg_announce_id, kennel_msg_id },
        ) => {
            let named = NewKenneling { msg_announce_id, kennel_msg_id, ..draft };
            (
                Lifecycle::Pending { draft: named, stage: Stage::Inserting },
                Action::Insert { draft: named },
            )
        },
        (Lifecycle::Pending { draft, stage: Stage::Inserting }, Event::Inserted { id }) => match id {
            Some(id) => (
                Lifecycle::Active { kenneling: draft.stored(id) },
                Action::Sleep { secs: draft.kennel_length },
            ),
            None => (Lifecycle::Aborted { error: KennelError::StoreUnavailable }, Action::Nothing),
        },
        (Lifecycle::Active { kenneling }, Event::TimerFired) => (
            state,
            Action::Revoke { victim_id: kenneling.victim_id, role_id: kenneling.role_id },
        ),
        (Lifecycle::Active { kenneling }, Event::Revoked { done, now }) => if done {
            (
                Lifecycle::Released { kenneling: kenneling.released(now) },
                Action::MarkReleased { id: kenneling.id, released_at: now },
            )
        } else {
            (state, Action::Nothing)
        },
        _ => (state, Action::Nothing),
    }
}

impl Lifecycle {
    /// What holds of every state: a kenneling on its way lasts a second at
    /// least, one in force has no end written, one that is over has.
    pub open spec fn wf(self) -> bool {
        match self {
            Lifecycle::Pending { draft, stage } => draft.wf(),
            Lifecycle::Active { kenneling } => kenneling.wf() && kenneling.released_at is None,
            Lifecycle::Released { kenneling } => kenneling.released_at is Some,
            Lifecycle::Aborted { error } => true,
        }
    }

    /// Whether the state is one that no event leads out of.
    pub open spec fn settled(self) -> bool {
        self is Released || self is Aborted
    }

    /// Starts a kenneling of `victim_id` by `author_id` at `now`.
    ///
    /// `role` is the kennel role that the guild has set, if it has set one,
    /// and `length` what was made of the length asked for.
    pub fn open(
        role: Option<RoleId>,
        guild_id: GuildId,
        author_id: UserId,
        victim_id: UserId,
        length: Result<u64, DurationError>,
        now: u64,
    ) -> (out: (Lifecycle, Action))
        ensures
            out == opening(role, guild_id, author_id, victim_id, length, now),
    {
        match length {
            Err(DurationError::InvalidFormat) => (
                Lifecycle::Aborted { error: KennelError::InvalidFormat },
                Action::Nothing,
            ),
            Err(DurationError::TooShort) => (
                Lifecycle::Aborted { error: KennelError::TooShort },
                Action::Nothing,
            ),
            Ok(secs) => match role {
                None => (
                    Lifecycle::Aborted { error: KennelError::NoConfiguration },
                    Action::Nothing,
                ),
                Some(role_id) => (
                    Lifecycle::Pending {
                        draft: NewKenneling {
                            guild_id,
                            author_id,
                            victim_id,
                            role_id,
                            kenneled_at: now,
                            kennel_length: secs,
                            msg_announce_id: None,
                            kennel_msg_id: None,
                        },
                        stage: Stage::Granting,
                    },
                    Action::Grant { victim_id, role_id },
                ),
            },
        }
    }

    /// Takes the state one step further on `event`.
    pub fn step(self, event: Event) -> (out: (Lifecycle, Action))
        ensures
            out == next(self, event),
    {
        match self {
            Lifecycle::Pending { draft, stage } => match (stage, event) {
                (Stage::Granting, Event::Granted { done }) => if done {
                    (Lifecycle::Pending { draft, stage: Stage::Announcing }, Action::Announce)
                } else {
                    (
                        Lifecycle::Aborted { error: KennelError::ApplierUnavailable },
                        Action::Nothing,
                    )
                },
                (Stage::Announcing, Event::Announced { msg_announce_id, kennel_msg_id }) => {
                    let named = NewKenneling { msg_announce_id, kennel_msg_id, ..draft };
                    (
                        Lifecycle::Pending { draft: named, stage: Stage::Inserting },
                        Action::Insert { draft: named },
                    )
                },
                (Stage::Inserting, Event::Inserted { id }) => match id {
                    Some(id) => (
                        Lifecycle::Active { kenneling: draft.with_id(id) },
                        Action::Sleep { secs: draft.kennel_length },
                    ),
                    None => (
                        Lifecycle::Aborted { error: KennelError::StoreUnavailable },
                        Action::Nothing,
                    ),
                },
                _ => (self, Action::Nothing),
            },
            Lifecycle::Active { kenneling } => match event {
                Event::TimerFired => (
                    self,
                    Action::Revoke { victim_id: kenneling.victim_id, role_id: kenneling.role_id },
                ),
                Event::Revoked { done, now } => if done {
                    (
                        Lifecycle::Released { kenneling: kenneling.release(now) },
                        Action::MarkReleased { id: kenneling.id, released_at: now },
                    )
                } else {
                    (self, Action::Nothing)
                },
                _ => (self, Action::Nothing),
            },
            _ => (self, Action::Nothing),
        }
    }
}

} // verus!
