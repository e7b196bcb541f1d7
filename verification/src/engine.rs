//! The engine on collaborators that live in memory.
//!
//! Here the course of a kenneling is run from end to end against a store, a
//! board of roles and the settings of guilds, all three in memory. What the
//! engine is held to is stated over the `World` that these three make up.

use vstd::prelude::*;
use crate::duration::kennel_length_of;
use crate::duration::parse_kennel_length;
use crate::duration::DurationError;
use crate::ids::GuildId;
use crate::ids::RoleId;
use crate::ids::UserId;
use crate::lifecycle::draft_of;
use crate::lifecycle::duration_error;
use crate::lifecycle::Action;
use crate::lifecycle::Event;
use crate::lifecycle::KennelError;
use crate::lifecycle::Lifecycle;
use crate::roles::RoleBoard;
use crate::store::has_row;
use crate::store::rows_inserted;
use crate::store::rows_released;
use crate::store::rows_wf;
use crate::store::Store;
use crate::types::kenneling::Kenneling;
use crate::types::server::role_of;
use crate::types::server::Server;
use crate::types::server::Servers;

verus! {

/// All that the engine reads and changes.
pub struct World {
    /// The records of the store, oldest first.
    pub rows: Seq<Kenneling>,
    /// Who carries which role.
    pub held: Set<(UserId, RoleId)>,
    /// What the guilds have set, oldest first.
    pub settings: Seq<Server>,
    /// Whether the store answers.
    pub store_online: bool,
    /// Whether the platform answers.
    pub board_online: bool,
}

/// A store, a board of roles and the settings of guilds.
pub struct Engine {
    pub store: Store,
    pub board: RoleBoard,
    pub servers: Servers,
}

impl World {
    /// The world is in order where its store is.
    pub open spec fn wf(self) -> bool {
        rows_wf(self.rows)
    }

    /// Whether `victim_id` carries `role_id`.
    pub open spec fn holds(self, victim_id: UserId, role_id: RoleId) -> bool {
        self.held.contains((victim_id, role_id))
    }

    /// Whether the store can take one more record.
    pub open spec fn can_insert(self) -> bool {
        self.store_online && self.rows.len() < i32::MAX
    }
}

/// The world after a kenneling of `length` was asked for at `now`, and what
/// the one who asked is told.
///
/// A length that was refused, or a guild without a kennel role, changes
/// nothing. Else the role is granted; if it cannot be, nothing changes. The
/// record is stored then; if it cannot be, the role stays granted and the
/// error is `StoreUnavailable`.
pub open spec fn applied(
    world: World,
    guild_id: GuildId,
    author_id: UserId,
    victim_id: UserId,
    length: Result<u64, DurationError>,
    now: u64,
) -> (World, Result<Kenneling, KennelError>) {
    match (length, role_of(world.settings, guild_id)) {
        (Err(error), _) => (world, Err(duration_error(error))),
        (Ok(_), None) => (world, Err(KennelError::NoConfiguration)),
        (Ok(secs), Some(role_id)) => if !world.board_online {
            (world, Err(KennelError::ApplierUnavailable))
        } else {
            let draft = draft_of(guild_id, author_id, victim_id, role_id, secs, now);
            let granted = World { held: world.held.insert((victim_id, role_id)), ..world };
            if world.can_insert() {
                (
                    World { rows: rows_inserted(world.rows, draft), ..granted },
                    Ok(draft.stored((world.rows.len() + 1) as i32)),
                )
            } else {
                (granted, Err(KennelError::StoreUnavailable))
            }
        },
    }
}

/// The world after `kenneling` was to be released at `now`, and whether its
/// record changed.
///
/// Where the role cannot be revoked nothing changes. Else the role is off,
/// and the end is written to the record if it has none yet; where the store
/// does not answer, the role is off all the same and the error is
/// `StoreUnavailable`.
pub open spec fn revoked(world: World, kenneling: Kenneling, now: u64) -> (
    World,
    Result<bool, KennelError>,
) {
    if !world.board_online {
        (world, Err(KennelError::ApplierUnavailable))
    } else {
        let off = World {
            held: world.held.remove((kenneling.victim_id, kenneling.role_id)),
            ..world
        };
        if !world.store_online {
            (off, Err(KennelError::StoreUnavailable))
        } else {
            (
                World { rows: rows_released(world.rows, kenneling.id, now), ..off },
                Ok(
                    has_row(world.rows, kenneling.id) && world.rows[kenneling.id
                        - 1].released_at is None,
                ),
            )
        }
    }
}

impl View for Engine {
    type V = World;

    open spec fn view(&self) -> World {
        World {
            rows: self.store@,
            held: self.board@,
            settings: self.servers@,
            store_online: self.store.online(),
            board_online: self.board.online(),
        }
    }
}

impl Engine {
    /// The engine is in order where its store is.
    pub open spec fn wf(&self) -> bool {
        self@.wf()
    }

    /// An engine with nothing stored, nothing granted and nothing set.
    pub fn new() -> (engine: Engine)
        ensures
            engine.wf(),
            engine@.rows == Seq::<Kenneling>::empty(),
            engine@.held == Set::<(UserId, RoleId)>::empty(),
            engine@.settings == Seq::<Server>::empty(),
            engine@.store_online,
            engine@.board_online,
    {
        Engine { store: Store::new(), board: RoleBoard::new(), servers: Servers::new() }
    }

    /// Whether `victim_id` carries `role_id` now; `None` where the platform
    /// does not answer.
    pub fn currently_holds(&self, victim_id: UserId, role_id: RoleId) -> (held: Option<bool>)
        ensures
            held == if self@.board_online {
                Some(self@.holds(victim_id, role_id))
            } else {
                None
            },
    {
        self.board.currently_holds(victim_id, role_id)
    }

    /// Kennels `victim_id` in `guild_id` for the length that `time` names,
    /// starting at `now`, and returns the record that was stored. No
    /// announcement is sent: there is no channel in memory to send it to.
    pub fn apply(
        &mut self,
        guild_id: GuildId,
        author_id: UserId,
        victim_id: UserId,
        time: &str,
        now: u64,
    ) -> (outcome: Result<Kenneling, KennelError>)
        requires
            old(self).wf(),
        ensures
            final(self).wf(),
            (final(self)@, outcome) == applied(
                old(self)@,
                guild_id,
                author_id,
                victim_id,
                kennel_length_of(time@),
                now,
            ),
    {
        let length = parse_kennel_length(time);
        let role = self.servers.kennel_role(guild_id);
        let (mut state, mut action) = Lifecycle::open(
            role,
            guild_id,
            author_id,
            victim_id,
            length,
            now,
        );
        if let Action::Grant { victim_id, role_id } = action {
            let done = self.board.grant(victim_id, role_id);
            let (after, then) = state.step(Event::Granted { done });
            state = after;
            action = then;
        }
        if let Action::Announce = action {
            let (after, then) = state.step(
                Event::Announced { msg_announce_id: None, kennel_msg_id: None },
            );
            state = after;
            action = then;
        }
        if let Action::Insert { draft } = action {
            let id = self.store.insert(draft);
            let (after, then) = state.step(Event::Inserted { id });
            state = after;
            action = then;
        }
        match state {
            Lifecycle::Active { kenneling } => Ok(kenneling),
            Lifecycle::Aborted { error } => Err(error),
            _ => Err(KennelError::NoConfiguration),
        }
    }

    /// Releases `kenneling` at `now`, as its timer does when it runs out:
    /// revokes the role and writes the end to the record, unless an end is
    /// written there. Returns whether the record changed.
    pub fn revoke(&mut self, kenneling: &Kenneling, now: u64) -> (outcome: Result<
        bool,
        KennelError,
    >)
        requires
            old(self).wf(),
        ensures
            final(self).wf(),
            (final(self)@, outcome) == revoked(old(self)@, *kenneling, now),
    {
        let state = Lifecycle::Active { kenneling: *kenneling };
        let (state, action) = state.step(Event::TimerFired);
        let done = match action {
            Action::Revoke { victim_id, role_id } => self.board.revoke(victim_id, role_id),
            _ => false,
        };
        let (state, action) = state.step(Event::Revoked { done, now });
        match action {
            Action::MarkReleased { id, released_at } => match self.store.mark_released(
                id,
                released_at,
            ) {
                Some(written) => Ok(written),
                None => Err(KennelError::StoreUnavailable),
            },
            _ => Err(KennelError::ApplierUnavailable),
        }
    }
}

} // verus!
