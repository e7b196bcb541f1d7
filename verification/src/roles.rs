//! Who carries which role, kept in memory.
//!
//! The board answers as the platform does: to grant a role that is carried
//! already, or to revoke one that is not carried, is no error and changes
//! nothing. It can be taken offline, and then fails every call.

use vstd::prelude::*;
use vstd::seq_lib::lemma_seq_contains_after_push;
use crate::ids::RoleId;
use crate::ids::UserId;

verus! {

/// The roles that members carry.
pub struct RoleBoard {
    held: Vec<(UserId, RoleId)>,
    online: bool,
}

/// Whether `roles` names `role`.
pub fn has_role(roles: &Vec<RoleId>, role: RoleId) -> (found: bool)
    ensures
        found == roles@.contains(role),
{
    let mut i: usize = 0;
    while i < roles.len()
        invariant
            i <= roles.len(),
            forall|j: int| 0 <= j < i ==> roles@[j] != role,
        decreases roles.len() - i,
    {
        if roles[i].0 == role.0 {
            return true;
        }
        i = i + 1;
    }
    false
}

impl View for RoleBoard {
    type V = Set<(UserId, RoleId)>;

    closed spec fn view(&self) -> Set<(UserId, RoleId)> {
        Set::new(|pair: (UserId, RoleId)| self.held@.contains(pair))
    }
}

impl RoleBoard {
    /// Whether the board answers.
    pub closed spec fn online(&self) -> bool {
        self.online
    }

    /// A board on which nobody carries a role, and which answers.
    pub fn new() -> (board: RoleBoard)
        ensures
            board@ == Set::<(UserId, RoleId)>::empty(),
            board.online(),
    {
        let board = RoleBoard { held: Vec::new(), online: true };
        board
    }

    /// Takes the board offline, or brings it back.
    pub fn set_online(&mut self, online: bool)
        ensures
            final(self)@ == old(self)@,
            final(self).online() == online,
    {
        self.online = online;
    }

    /// Whether the board answers.
    pub fn is_online(&self) -> (online: bool)
        ensures
            online == self.online(),
    {
        self.online
    }

    fn find(&self, victim_id: UserId, role_id: RoleId) -> (found: bool)
        ensures
            found == self@.contains((victim_id, role_id)),
    {
        let mut i: usize = 0;
        while i < self.held.len()
            invariant
                i <= self.held.len(),
                forall|j: int| 0 <= j < i ==> self.held@[j] != (victim_id, role_id),
            decreases self.held.len() - i,
        {
            let pair = self.held[i];
            if pair.0.0 == victim_id.0 && pair.1.0 == role_id.0 {
                return true;
            }
            i = i + 1;
        }
        false
    }

    /// Whether `victim_id` carries `role_id`; `None` where the board is
    /// offline.
    pub fn currently_holds(&self, victim_id: UserId, role_id: RoleId) -> (held: Option<bool>)
        ensures
            held == if self.online() {
                Some(self@.contains((victim_id, role_id)))
            } else {
                None
            },
    {
        if self.online {
            Some(self.find(victim_id, role_id))
        } else {
            None
        }
    }

    /// The roles that `victim_id` carries, each once; `None` where the board
    /// is offline.
    pub fn roles_of(&self, victim_id: UserId) -> (roles: Option<Vec<RoleId>>)
        ensures
            roles is Some == self.online(),
            roles matches Some(list) ==> list@.no_duplicates() && forall|role: RoleId|
                list@.contains(role) == self@.contains((victim_id, role)),
    {
        if !self.online {
            return None;
        }
        let mut list: Vec<RoleId> = Vec::new();
        let mut i: usize = 0;
        while i < self.held.len()
            invariant
                i <= self.held.len(),
                list@.no_duplicates(),
                forall|role: RoleId|
                    list@.contains(role) == self.held@.take(i as int).contains((victim_id, role)),
            decreases self.held.len() - i,
        {
            let pair = self.held[i];
            let ghost seen = self.held@.take(i as int);
            let ghost before = list@;
            assert(self.held@.take(i + 1) == seen.push(pair));
            if pair.0.0 == victim_id.0 && !has_role(&list, pair.1) {
                list.push(pair.1);
            }
            assert forall|role: RoleId|
                list@.contains(role) == seen.push(pair).contains((victim_id, role)) by {
                lemma_seq_contains_after_push(seen, pair, (victim_id, role));
                lemma_seq_contains_after_push(before, pair.1, role);
            }
            i = i + 1;
        }
        assert(self.held@.take(i as int) == self.held@);
        Some(list)
    }

    /// Grants `role_id` to `victim_id`. Returns whether the board answered;
    /// where it did not, nothing changed.
    pub fn grant(&mut self, victim_id: UserId, role_id: RoleId) -> (done: bool)
        ensures
            done == old(self).online(),
            final(self).online() == old(self).online(),
            final(self)@ == if done {
                old(self)@.insert((victim_id, role_id))
            } else {
                old(self)@
            },
    {
        if !self.online {
            return false;
        }
        if !self.find(victim_id, role_id) {
            self.held.push((victim_id, role_id));
        }
        assert forall|pair: (UserId, RoleId)|
            self@.contains(pair) == old(self)@.insert((victim_id, role_id)).contains(pair) by {
            lemma_seq_contains_after_push(old(self).held@, (victim_id, role_id), pair);
        }
        assert(self@ =~= old(self)@.insert((victim_id, role_id)));
        true
    }

    /// Revokes `role_id` from `victim_id`. Returns whether the board
    /// answered; where it did not, nothing changed.
    pub fn revoke(&mut self, victim_id: UserId, role_id: RoleId) -> (done: bool)
        ensures
            done == old(self).online(),
            final(self).online() == old(self).online(),
            final(self)@ == if done {
                old(self)@.remove((victim_id, role_id))
            } else {
                old(self)@
            },
    {
        if !self.online {
            return false;
        }
        let mut kept: Vec<(UserId, RoleId)> = Vec::new();
        let mut i: usize = 0;
        while i < self.held.len()
            invariant
                i <= self.held.len(),
                forall|pair: (UserId, RoleId)|
                    kept@.contains(pair) == (self.held@.take(i as int).contains(pair) && pair != (
                        victim_id,
                        role_id,
                    )),
            decreases self.held.len() - i,
        {
            let pair = self.held[i];
            let ghost seen = self.held@.take(i as int);
            let ghost before = kept@;
            assert(self.held@.take(i + 1) == seen.push(pair));
            if !(pair.0.0 == victim_id.0 && pair.1.0 == role_id.0) {
                kept.push(pair);
            }
            assert forall|other: (UserId, RoleId)|
                kept@.contains(other) == (seen.push(pair).contains(other) && other != (
                    victim_id,
                    role_id,
                )) by {
                lemma_seq_contains_after_push(seen, pair, other);
                lemma_seq_contains_after_push(before, pair, other);
            }
            i = i + 1;
        }
        assert(self.held@.take(i as int) == self.held@);
        self.held = kept;
        assert(self@ =~= old(self)@.remove((victim_id, role_id)));
        true
    }
}

} // verus!
