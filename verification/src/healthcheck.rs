//! The healthcheck: the pass that holds the records against the roles that
//! members carry.
//!
//! A role can be taken from a member behind the engine's back, and a timer is
//! lost when its process ends. The pass releases the kennelings that are
//! overdue. Then it finds the kennelings in force whose member no longer
//! carries the kennel role, and writes down that they ended when it looked.
//! It grants nothing: who took the role away is taken to have meant it.

use vstd::prelude::*;
use crate::engine::Engine;
use crate::engine::World;
use crate::ids::RoleId;
use crate::ids::UserId;
use crate::lifecycle::KennelError;
use crate::roles::has_role;
use crate::types::kenneling::Kenneling;
use crate::types::server::role_of;

verus! {

/// What the pass finds of one kenneling.
#[derive(Clone, Copy, Debug, PartialEq, Eq)]
pub enum Verdict {
    /// Nothing is to be done: the kenneling is not in force, or the member
    /// carries the role.
    Kept,
    /// The member does not carry the role: the record is to be written as
    /// `after`, if no end is written there.
    Stale { after: Kenneling },
    /// The kenneling could not be checked this time and stays as it is.
    Failed { error: KennelError },
}

/// What is found at `now` of `kenneling`, where `kennel_role` is the role
/// that its guild has set by now, and `carries` says whether its member
/// carries that role, if that could be read.
pub open spec fn verdict(
    kenneling: Kenneling,
    kennel_role: Option<RoleId>,
    carries: Option<bool>,
    now: u64,
) -> Verdict {
    if !kenneling.active(now) {
        Verdict::Kept
    } else {
        match kennel_role {
            None => Verdict::Failed { error: KennelError::NoConfiguration },
            Some(_) => match carries {
                None => Verdict::Failed { error: KennelError::ApplierUnavailable },
                Some(true) => Verdict::Kept,
                Some(false) => Verdict::Stale { after: kenneling.cut_short(now) },
            },
        }
    }
}

/// Whether the roles read for a member name the kennel role, where both are
/// known.
pub open spec fn carried(kennel_role: Option<RoleId>, member_roles: Option<&Vec<RoleId>>) -> Option<
    bool,
> {
    match (kennel_role, member_roles) {
        (Some(role), Some(roles)) => Some(roles@.contains(role)),
        _ => None,
    }
}

/// Holds one kenneling against the roles of its member.
///
/// `kennel_role` is the role that the guild has set by now, which need not
/// be the one that was granted. `member_roles` are the roles that the member
/// carries, or `None` where they could not be read.
pub fn validate_kenneling(
    kenneling: &Kenneling,
    kennel_role: Option<RoleId>,
    member_roles: Option<&Vec<RoleId>>,
    now: u64,
) -> (found: Verdict)
    ensures
        found == verdict(*kenneling, kennel_role, carried(kennel_role, member_roles), now),
{
    if !kenneling.is_active(now) {
        return Verdict::Kept;
    }
    let role = match kennel_role {
        Some(role) => role,
        None => {
            return Verdict::Failed { error: KennelError::NoConfiguration };
        },
    };
    let roles = match member_roles {
        Some(roles) => roles,
        None => {
            return Verdict::Failed { error: KennelError::ApplierUnavailable };
        },
    };
    if has_role(roles, role) {
        Verdict::Kept
    } else {
        Verdict::Stale { after: kenneling.truncate(now) }
    }
}

/// Whether `victim` of `kenneling` carries `kennel_role` in `world`, where
/// the guild has set a role and the platform answers.
pub open spec fn probed(world: World, kenneling: Kenneling) -> Option<bool> {
    match role_of(world.settings, kenneling.guild_id) {
        Some(role) => if world.board_online {
            Some(world.holds(kenneling.victim_id, role))
        } else {
            None
        },
        None => None,
    }
}

/// What the pass at `now` finds of `kenneling` in `world`.
pub open spec fn found_in(world: World, kenneling: Kenneling, now: u64) -> Verdict {
    verdict(kenneling, role_of(world.settings, kenneling.guild_id), probed(world, kenneling), now)
}

/// The record that the pass at `now` leaves of `kenneling`.
pub open spec fn reconciled(world: World, kenneling: Kenneling, now: u64) -> Kenneling {
    match found_in(world, kenneling, now) {
        Verdict::Stale { after } => after,
        _ => kenneling,
    }
}

/// Whether the pass at `now` finds `kenneling` stale.
pub open spec fn stale_in(world: World, kenneling: Kenneling, now: u64) -> bool {
    found_in(world, kenneling, now) is Stale
}

/// The world after the pass at `now`: each stale kenneling is written as
/// ended at `now` with the time served as its length, and nothing else
/// changes. Where the store does not answer, nothing changes at all.
pub open spec fn checked(world: World, now: u64) -> World {
    if world.store_online {
        World { rows: world.rows.map_values(|k: Kenneling| reconciled(world, k, now)), ..world }
    } else {
        world
    }
}

/// How many kennelings the pass at `now` finds stale.
pub open spec fn stale_count(world: World, now: u64) -> nat {
    world.rows.filter(|k: Kenneling| stale_in(world, k, now)).len()
}

/// Runs one pass at `now` over the kennelings of `engine`, and returns how
/// many it found stale; `None`, and nothing done, where the store does not
/// answer.
pub fn check(engine: &mut Engine, now: u64) -> (stale: Option<usize>)
    requires
        old(engine).wf(),
    ensures
        final(engine).wf(),
        final(engine)@ == checked(old(engine)@, now),
        stale == if old(engine)@.store_online {
            Some(stale_count(old(engine)@, now) as usize)
        } else {
            None
        },
{
    let len = engine.store.len();
    if !engine.store.is_online() {
        return None;
    }
    let ghost world = engine@;
    let mut stale: usize = 0;
    let mut i: usize = 0;
    while i < len
        invariant
            i <= len,
            len == world.rows.len(),
            world.wf(),
            world.store_online,
            engine.wf(),
            engine@ == (World { rows: engine@.rows, ..world }),
            engine@.rows.len() == len,
            forall|j: int| 0 <= j < i ==> engine@.rows[j] == reconciled(world, world.rows[j], now),
            forall|j: int| i <= j < len ==> engine@.rows[j] == world.rows[j],
            stale <= i,
            stale == world.rows.take(i as int).filter(|k: Kenneling| stale_in(world, k, now)).len(),
        decreases len - i,
    {
        let id: i32 = (i + 1) as i32;
        proof {
            reveal(Seq::filter);
            assert(world.rows.take(i + 1).drop_last() == world.rows.take(i as int));
        }
        if let Some(kenneling) = engine.store.get(id) {
            let kennel_role = engine.servers.kennel_role(kenneling.guild_id);
            let member_roles = engine.board.roles_of(kenneling.victim_id);
            let found = validate_kenneling(&kenneling, kennel_role, member_roles.as_ref(), now);
            if let Verdict::Stale { after } = found {
                if let Some(released_at) = after.released_at {
                    engine.store.cut_short(after.id, released_at, after.kennel_length);
                }
                stale = stale + 1;
            }
        }
        i = i + 1;
    }
    proof {
        assert(world.rows.take(i as int) == world.rows);
        assert(engine@.rows =~= world.rows.map_values(|k: Kenneling| reconciled(world, k, now)));
    }
    Some(stale)
}

/// The members and roles of the kennelings of `rows` that are overdue at
/// `now`.
pub open spec fn overdue_pairs(rows: Seq<Kenneling>, now: u64) -> Set<(UserId, RoleId)> {
    Set::new(
        |pair: (UserId, RoleId)|
            exists|i: int|
                0 <= i < rows.len() && (#[trigger] rows[i]).overdue(now) && pair == (
                    rows[i].victim_id,
                    rows[i].role_id,
                ),
    )
}

/// One more record adds its member and role to the overdue ones, if it is
/// overdue, and nothing else.
proof fn lemma_overdue_pairs_push(rows: Seq<Kenneling>, kenneling: Kenneling, now: u64)
    ensures
        overdue_pairs(rows.push(kenneling), now) == if kenneling.overdue(now) {
            overdue_pairs(rows, now).insert((kenneling.victim_id, kenneling.role_id))
        } else {
            overdue_pairs(rows, now)
        },
{
    let more = rows.push(kenneling);
    let expected = if kenneling.overdue(now) {
        overdue_pairs(rows, now).insert((kenneling.victim_id, kenneling.role_id))
    } else {
        overdue_pairs(rows, now)
    };
    assert forall|pair: (UserId, RoleId)| overdue_pairs(more, now).contains(pair)
        == expected.contains(pair) by {
        if overdue_pairs(rows, now).contains(pair) {
            let j = choose|j: int|
                0 <= j < rows.len() && (#[trigger] rows[j]).overdue(now) && pair == (
                    rows[j].victim_id,
                    rows[j].role_id,
                );
            assert(more[j] == rows[j]);
        }
        if kenneling.overdue(now) && pair == (kenneling.victim_id, kenneling.role_id) {
            assert(more[rows.len() as int] == kenneling);
        }
        if overdue_pairs(more, now).contains(pair) {
            let j = choose|j: int|
                0 <= j < more.len() && (#[trigger] more[j]).overdue(now) && pair == (
                    more[j].victim_id,
                    more[j].role_id,
                );
            if j < rows.len() {
                assert(rows[j] == more[j]);
            }
        }
    }
    assert(overdue_pairs(more, now) =~= expected);
}

/// The record that the sweep at `now` leaves of `kenneling`.
pub open spec fn swept_row(kenneling: Kenneling, now: u64) -> Kenneling {
    if kenneling.overdue(now) {
        kenneling.released(now)
    } else {
        kenneling
    }
}

/// The world after every kenneling that is overdue at `now` was released:
/// its role is off and its end is written as `now`. Where the store or the
/// platform does not answer, nothing changes.
pub open spec fn swept(world: World, now: u64) -> World {
    if world.store_online && world.board_online {
        World {
            rows: world.rows.map_values(|k: Kenneling| swept_row(k, now)),
            held: world.held.difference(overdue_pairs(world.rows, now)),
            ..world
        }
    } else {
        world
    }
}

/// How many kennelings are overdue at `now`.
pub open spec fn overdue_count(world: World, now: u64) -> nat {
    world.rows.filter(|k: Kenneling| k.overdue(now)).len()
}

/// Releases at `now` every kenneling that is due and whose end has not been
/// seen, whether a timer still runs for it or not, and returns how many
/// there were.
///
/// Nothing is done where the store does not answer (`StoreUnavailable`) or
/// the platform does not (`ApplierUnavailable`).
pub fn release_overdue(engine: &mut Engine, now: u64) -> (released: Result<usize, KennelError>)
    requires
        old(engine).wf(),
    ensures
        final(engine).wf(),
        final(engine)@ == swept(old(engine)@, now),
        released == if !old(engine)@.store_online {
            Err::<usize, KennelError>(KennelError::StoreUnavailable)
        } else if !old(engine)@.board_online {
            Err::<usize, KennelError>(KennelError::ApplierUnavailable)
        } else {
            Ok::<usize, KennelError>(overdue_count(old(engine)@, now) as usize)
        },
{
    if !engine.store.is_online() {
        return Err(KennelError::StoreUnavailable);
    }
    if !engine.board.is_online() {
        return Err(KennelError::ApplierUnavailable);
    }
    let len = engine.store.len();
    let ghost world = engine@;
    let mut released: usize = 0;
    let mut i: usize = 0;
    assert(overdue_pairs(world.rows.take(0), now) =~= Set::<(UserId, RoleId)>::empty());
    while i < len
        invariant
            i <= len,
            len == world.rows.len(),
            world.wf(),
            world.store_online,
            world.board_online,
            engine.wf(),
            engine@ == (World { rows: engine@.rows, held: engine@.held, ..world }),
            engine@.rows.len() == len,
            forall|j: int| 0 <= j < i ==> engine@.rows[j] == swept_row(world.rows[j], now),
            forall|j: int| i <= j < len ==> engine@.rows[j] == world.rows[j],
            engine@.held == world.held.difference(overdue_pairs(world.rows.take(i as int), now)),
            released <= i,
            released == world.rows.take(i as int).filter(|k: Kenneling| k.overdue(now)).len(),
        decreases len - i,
    {
        let id: i32 = (i + 1) as i32;
        proof {
            reveal(Seq::filter);
            assert(world.rows.take(i + 1).drop_last() == world.rows.take(i as int));
            assert(world.rows.take(i + 1) == world.rows.take(i as int).push(world.rows[i as int]));
            lemma_overdue_pairs_push(world.rows.take(i as int), world.rows[i as int], now);
        }
        if let Some(kenneling) = engine.store.get(id) {
            if kenneling.is_overdue(now) {
                let _ = engine.revoke(&kenneling, now);
                released = released + 1;
            }
        }
        assert(engine@.held =~= world.held.difference(
            overdue_pairs(world.rows.take(i + 1), now),
        ));
        i = i + 1;
    }
    proof {
        assert(world.rows.take(i as int) == world.rows);
        assert(engine@.rows =~= world.rows.map_values(|k: Kenneling| swept_row(k, now)));
    }
    Ok(released)
}

/// What the pass has to do with one record.
#[derive(Clone, Copy, Debug, PartialEq, Eq, Structural)]
pub enum Duty {
    /// Nothing: the end of the kenneling has been seen.
    Nothing,
    /// The kenneling is overdue and is to be released, as its timer would
    /// have done.
    Release,
    /// The kenneling is in force and is to be held against the roles of its
    /// member.
    Validate,
}

/// What the pass at `now` has to do with `kenneling`.
pub open spec fn duty_of(kenneling: Kenneling, now: u64) -> Duty {
    if kenneling.released_at is Some {
        Duty::Nothing
    } else if kenneling.due_at() <= now {
        Duty::Release
    } else {
        Duty::Validate
    }
}

/// Says what the pass at `now` has to do with `kenneling`.
pub fn duty(kenneling: &Kenneling, now: u64) -> (todo: Duty)
    ensures
        todo == duty_of(*kenneling, now),
        todo is Release == kenneling.overdue(now),
        todo is Validate == kenneling.active(now),
{
    if kenneling.is_overdue(now) {
        Duty::Release
    } else if kenneling.is_active(now) {
        Duty::Validate
    } else {
        Duty::Nothing
    }
}

/// What one whole pass found.
#[derive(Clone, Copy, Debug, PartialEq, Eq)]
pub struct PassReport {
    /// How many overdue kennelings were released, or why none could be.
    pub released: Result<usize, KennelError>,
    /// How many kennelings in force were found stale; `None` where the store
    /// did not answer.
    pub stale: Option<usize>,
}

/// The world after one whole pass at `now`: first every kenneling that is
/// overdue is released, then those in force are held against the roles of
/// their members.
pub open spec fn passed(world: World, now: u64) -> World {
    checked(swept(world, now), now)
}

/// Runs one whole pass at `now` over the kennelings of `engine`: releases
/// what is overdue, then checks what is in force.
pub fn healthcheck(engine: &mut Engine, now: u64) -> (report: PassReport)
    requires
        old(engine).wf(),
    ensures
        final(engine).wf(),
        final(engine)@ == passed(old(engine)@, now),
        report.released == if !old(engine)@.store_online {
            Err::<usize, KennelError>(KennelError::StoreUnavailable)
        } else if !old(engine)@.board_online {
            Err::<usize, KennelError>(KennelError::ApplierUnavailable)
        } else {
            Ok::<usize, KennelError>(overdue_count(old(engine)@, now) as usize)
        },
        report.stale == if old(engine)@.store_online {
            Some(stale_count(swept(old(engine)@, now), now) as usize)
        } else {
            None
        },
{
    let released = release_overdue(engine, now);
    let stale = check(engine, now);
    PassReport { released, stale }
}

} // verus!
