//! A store of kennelings that lives in memory.
//!
//! It keeps what a table of kennelings keeps and answers as one does: it
//! names each record as it comes in, and it writes the end of a kenneling
//! only where none is written yet. It can be taken offline, and then fails
//! every call.

use vstd::prelude::*;
use crate::types::kenneling::Kenneling;
use crate::types::kenneling::NewKenneling;

verus! {

/// Kennelings in the order in which they were stored.
pub struct Store {
    rows: Vec<Kenneling>,
    online: bool,
}

/// Whether `rows` holds a record named `id`.
pub open spec fn has_row(rows: Seq<Kenneling>, id: i32) -> bool {
    1 <= id <= rows.len()
}

/// What a store must hold of its rows: each is named by its place, counted
/// from one, and is a kenneling in order.
pub open spec fn rows_wf(rows: Seq<Kenneling>) -> bool {
    &&& rows.len() <= i32::MAX
    &&& forall|i: int| 0 <= i < rows.len() ==> (#[trigger] rows[i]).id == i + 1 && rows[i].wf()
}

/// The rows after `draft` was stored.
pub open spec fn rows_inserted(rows: Seq<Kenneling>, draft: NewKenneling) -> Seq<Kenneling> {
    rows.push(draft.stored((rows.len() + 1) as i32))
}

/// The rows after the end of record `id` was written as `released_at`,
/// which changes the record only if no end was written there.
pub open spec fn rows_released(rows: Seq<Kenneling>, id: i32, released_at: u64) -> Seq<
    Kenneling,
> {
    if has_row(rows, id) {
        rows.update(id - 1, rows[id - 1].released(released_at))
    } else {
        rows
    }
}

/// The rows after record `id` was written as ended at `released_at` with
/// `kennel_length` as its length, which changes the record only if no end
/// was written there.
pub open spec fn rows_cut_short(
    rows: Seq<Kenneling>,
    id: i32,
    released_at: u64,
    kennel_length: u64,
) -> Seq<Kenneling> {
    if has_row(rows, id) {
        rows.update(id - 1, rows[id - 1].shortened(released_at, kennel_length))
    } else {
        rows
    }
}

/// The kennelings of `rows` that are in force at `now`, in their order.
pub open spec fn rows_active(rows: Seq<Kenneling>, now: u64) -> Seq<Kenneling> {
    rows.filter(|k: Kenneling| k.active(now))
}

impl View for Store {
    type V = Seq<Kenneling>;

    closed spec fn view(&self) -> Seq<Kenneling> {
        self.rows@
    }
}

impl Store {
    /// Whether the store answers.
    pub closed spec fn online(&self) -> bool {
        self.online
    }

    /// The store is in order.
    pub open spec fn wf(&self) -> bool {
        rows_wf(self@)
    }

    /// Whether the store has room for one more record.
    pub open spec fn has_room(&self) -> bool {
        self@.len() < i32::MAX
    }

    /// An empty store that answers.
    pub fn new() -> (store: Store)
        ensures
            store@ == Seq::<Kenneling>::empty(),
            store.online(),
            store.wf(),
    {
        Store { rows: Vec::new(), online: true }
    }

    /// Takes the store offline, or brings it back.
    pub fn set_online(&mut self, online: bool)
        ensures
            final(self)@ == old(self)@,
            final(self).online() == online,
    {
        self.online = online;
    }

    /// Whether the store answers.
    pub fn is_online(&self) -> (online: bool)
        ensures
            online == self.online(),
    {
        self.online
    }

    /// How many records the store holds.
    pub fn len(&self) -> (len: usize)
        ensures
            len == self@.len(),
    {
        self.rows.len()
    }

    /// Stores `draft` and returns the name given to it: one more than the
    /// number of records held before. `None`, and nothing stored, where the
    /// store is offline or full.
    pub fn insert(&mut self, draft: NewKenneling) -> (id: Option<i32>)
        requires
            old(self).wf(),
            draft.wf(),
        ensures
            final(self).wf(),
            final(self).online() == old(self).online(),
            old(self).online() && old(self).has_room() ==> id == Some(
                (old(self)@.len() + 1) as i32,
            ) && final(self)@ == rows_inserted(old(self)@, draft),
            !(old(self).online() && old(self).has_room()) ==> id is None && final(self)@ == old(
                self,
            )@,
    {
        if !self.online || self.rows.len() >= i32::MAX as usize {
            return None;
        }
        let id: i32 = (self.rows.len() + 1) as i32;
        self.rows.push(draft.with_id(id));
        Some(id)
    }

    /// The record named `id`; `None` where there is none or the store is
    /// offline.
    pub fn get(&self, id: i32) -> (found: Option<Kenneling>)
        ensures
            found == if self.online() && has_row(self@, id) {
                Some(self@[id - 1])
            } else {
                None
            },
    {
        if self.online && 1 <= id && id as usize <= self.rows.len() {
            Some(self.rows[(id - 1) as usize])
        } else {
            None
        }
    }

    /// The kennelings in force at `now`, oldest first; `None` where the
    /// store is offline.
    pub fn active(&self, now: u64) -> (found: Option<Vec<Kenneling>>)
        ensures
            found is Some == self.online(),
            found matches Some(active) ==> active@ == rows_active(self@, now),
    {
        if !self.online {
            return None;
        }
        let mut active: Vec<Kenneling> = Vec::new();
        let mut i: usize = 0;
        while i < self.rows.len()
            invariant
                i <= self.rows.len(),
                active@ == rows_active(self.rows@.take(i as int), now),
            decreases self.rows.len() - i,
        {
            let kenneling = self.rows[i];
            proof {
                reveal(Seq::filter);
                assert(self.rows@.take(i + 1).drop_last() == self.rows@.take(i as int));
            }
            if kenneling.is_active(now) {
                active.push(kenneling);
            }
            i = i + 1;
        }
        assert(self.rows@.take(i as int) == self.rows@);
        Some(active)
    }

    /// Writes `released_at` as the end of record `id`, if it has none yet.
    ///
    /// Returns whether the record changed, or `None` where the store is
    /// offline.
    pub fn mark_released(&mut self, id: i32, released_at: u64) -> (written: Option<bool>)
        requires
            old(self).wf(),
        ensures
            final(self).wf(),
            final(self).online() == old(self).online(),
            old(self).online() ==> final(self)@ == rows_released(old(self)@, id, released_at)
                && written == Some(has_row(old(self)@, id) && old(self)@[id - 1].released_at is None),
            !old(self).online() ==> final(self)@ == old(self)@ && written is None,
    {
        if !self.online {
            return None;
        }
        if 1 <= id && id as usize <= self.rows.len() {
            let at: usize = (id - 1) as usize;
            let before = self.rows[at];
            if before.released_at.is_none() {
                self.rows.set(at, before.release(released_at));
                return Some(true);
            }
        }
        Some(false)
    }

    /// Writes record `id` as ended at `released_at` after `kennel_length`
    /// seconds, if it has no end yet.
    ///
    /// Returns whether the record changed, or `None` where the store is
    /// offline.
    pub fn cut_short(&mut self, id: i32, released_at: u64, kennel_length: u64) -> (written: Option<
        bool,
    >)
        requires
            old(self).wf(),
        ensures
            final(self).wf(),
            final(self).online() == old(self).online(),
            old(self).online() ==> final(self)@ == rows_cut_short(
                old(self)@,
                id,
                released_at,
                kennel_length,
            ) && written == Some(has_row(old(self)@, id) && old(self)@[id - 1].released_at is None),
            !old(self).online() ==> final(self)@ == old(self)@ && written is None,
    {
        if !self.online {
            return None;
        }
        if 1 <= id && id as usize <= self.rows.len() {
            let at: usize = (id - 1) as usize;
            let before = self.rows[at];
            if before.released_at.is_none() {
                self.rows.set(
                    at,
                    Kenneling { released_at: Some(released_at), kennel_length, ..before },
                );
                return Some(true);
            }
        }
        Some(false)
    }
}

} // verus!
