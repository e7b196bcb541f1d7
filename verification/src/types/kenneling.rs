//! A kenneling: one member kept under one role for a length of time.

use vstd::prelude::*;
use crate::duration::MIN_KENNEL_SECS;
use crate::ids::GuildId;
use crate::ids::MessageId;
use crate::ids::RoleId;
use crate::ids::UserId;
use crate::util::pgint_dur::PgInterval;
use crate::util::pgint_dur::PgIntervalToDuration;
use crate::util::pgint_dur::Span;

verus! {

/// A kenneling as a row of the `kennelings` table holds it. Times are counted
/// in seconds since the Unix epoch.
#[derive(Clone, Copy, Debug, PartialEq, Eq)]
pub struct KennelingRow {
    pub id: i32,
    pub guild_id: i64,
    pub author_id: i64,
    pub victim_id: i64,
    pub role_id: i64,
    pub kenneled_at: i64,
    pub kennel_length: PgInterval,
    pub released_at: Option<i64>,
    pub msg_announce_id: Option<i64>,
    pub kennel_msg_id: Option<i64>,
}

/// A kenneling that has been granted and is not stored yet, so that it has
/// no identity of its own.
#[derive(Clone, Copy, Debug, PartialEq, Eq)]
pub struct NewKenneling {
    /// The guild in which it was issued.
    pub guild_id: GuildId,
    /// Who issued it.
    pub author_id: UserId,
    /// Who is kenneled.
    pub victim_id: UserId,
    /// The role that the guild had set when it was issued.
    pub role_id: RoleId,
    /// When it was issued, in seconds since the Unix epoch.
    pub kenneled_at: u64,
    /// How long it is meant to last, in seconds.
    pub kennel_length: u64,
    /// The announcement in the channel of the command, where one was sent.
    pub msg_announce_id: Option<MessageId>,
    /// The announcement in the kennel channel, where one was sent.
    pub kennel_msg_id: Option<MessageId>,
}

/// A kenneling of the store.
///
/// Whether it is still in force is not kept: it follows from `released_at`
/// and from the time at which it is due.
#[derive(Clone, Copy, Debug, PartialEq, Eq)]
pub struct Kenneling {
    /// The identity that the store gave it.
    pub id: i32,
    /// The guild in which it was issued.
    pub guild_id: GuildId,
    /// Who issued it.
    pub author_id: UserId,
    /// Who is kenneled.
    pub victim_id: UserId,
    /// The role that the guild had set when it was issued.
    pub role_id: RoleId,
    /// When it was issued, in seconds since the Unix epoch.
    pub kenneled_at: u64,
    /// How long it lasts, in seconds: the length asked for, or the time
    /// served where it was found to have ended early.
    pub kennel_length: u64,
    /// When its end was seen; `None` until then.
    pub released_at: Option<u64>,
    /// The announcement in the channel of the command, where one was sent.
    pub msg_announce_id: Option<MessageId>,
    /// The announcement in the kennel channel, where one was sent.
    pub kennel_msg_id: Option<MessageId>,
}

/// What makes a row no kenneling.
#[derive(Clone, Copy, Debug, PartialEq, Eq, Structural)]
pub enum RowError {
    /// An identifier is zero or negative.
    MalformedId,
    /// A time lies before the Unix epoch.
    MalformedTime,
    /// The length has a negative count.
    MalformedLength,
}

/// The identifier that a column holds, where it holds one.
pub open spec fn column_id(column: i64) -> Option<u64> {
    if column > 0 {
        Some(column as u64)
    } else {
        None
    }
}

/// The column that holds an identifier, where one can.
pub open spec fn id_column(id: u64) -> Option<i64> {
    if 0 < id <= i64::MAX {
        Some(id as i64)
    } else {
        None
    }
}

/// Reads an identifier from a column: any number above zero.
pub fn id_from_column(column: i64) -> (id: Option<u64>)
    ensures
        id == column_id(column),
{
    if column > 0 {
        Some(column as u64)
    } else {
        None
    }
}

/// Writes an identifier to a column, which holds the numbers above zero that
/// 64 bits with a sign can count.
pub fn id_to_column(id: u64) -> (column: Option<i64>)
    ensures
        column == id_column(id),
{
    if 0 < id && id <= i64::MAX as u64 {
        Some(id as i64)
    } else {
        None
    }
}

/// The message that a column names, where it names one or none.
pub open spec fn column_message(column: Option<i64>) -> Option<Option<MessageId>> {
    match column {
        None => Some(None),
        Some(number) => match column_id(number) {
            Some(id) => Some(Some(MessageId(id))),
            None => None,
        },
    }
}

/// The column that names a message, or none.
pub open spec fn message_column(message: Option<MessageId>) -> Option<Option<i64>> {
    match message {
        None => Some(None),
        Some(id) => match id_column(id.0) {
            Some(number) => Some(Some(number)),
            None => None,
        },
    }
}

/// The time that a column holds: seconds since the Unix epoch, none before
/// it.
pub open spec fn column_time(column: i64) -> Option<u64> {
    if column >= 0 {
        Some(column as u64)
    } else {
        None
    }
}

/// The column that holds a time.
pub open spec fn time_column(time: u64) -> Option<i64> {
    if time <= i64::MAX {
        Some(time as i64)
    } else {
        None
    }
}

/// The time of release that a column holds, where it holds one or none.
pub open spec fn column_release(column: Option<i64>) -> Option<Option<u64>> {
    match column {
        None => Some(None),
        Some(number) => match column_time(number) {
            Some(time) => Some(Some(time)),
            None => None,
        },
    }
}

/// The column that holds a time of release, or none.
pub open spec fn release_column(released_at: Option<u64>) -> Option<Option<i64>> {
    match released_at {
        None => Some(None),
        Some(time) => match time_column(time) {
            Some(number) => Some(Some(number)),
            None => None,
        },
    }
}

/// The whole seconds of the length that a row holds, where it is a length.
pub open spec fn column_length(row: KennelingRow) -> Option<u64> {
    match row.kennel_length.span() {
        Some(span) => if row.released_at is None && span.secs < MIN_KENNEL_SECS {
            None
        } else {
            Some(span.secs)
        },
        None => None,
    }
}

/// Reads a message from a column.
pub fn message_from_column(column: Option<i64>) -> (message: Option<Option<MessageId>>)
    ensures
        message == column_message(column),
{
    match column {
        None => Some(None),
        Some(number) => match id_from_column(number) {
            Some(id) => Some(Some(MessageId(id))),
            None => None,
        },
    }
}

/// Writes a message to a column.
pub fn message_to_column(message: Option<MessageId>) -> (column: Option<Option<i64>>)
    ensures
        column == message_column(message),
{
    match message {
        None => Some(None),
        Some(id) => match id_to_column(id.0) {
            Some(number) => Some(Some(number)),
            None => None,
        },
    }
}

impl KennelingRow {
    /// What makes the row no kenneling, if anything does: an identifier
    /// first, then a time, then the length.
    pub open spec fn fault(self) -> Option<RowError> {
        if column_id(self.guild_id) is None || column_id(self.author_id) is None || column_id(
            self.victim_id,
        ) is None || column_id(self.role_id) is None || column_message(self.msg_announce_id) is None
            || column_message(self.kennel_msg_id) is None {
            Some(RowError::MalformedId)
        } else if column_time(self.kenneled_at) is None || column_release(self.released_at) is None {
            Some(RowError::MalformedTime)
        } else if column_length(self) is None {
            Some(RowError::MalformedLength)
        } else {
            None
        }
    }

    /// The kenneling that the row holds, where it has no fault.
    pub open spec fn kenneling(self) -> Kenneling {
        Kenneling {
            id: self.id,
            guild_id: GuildId(column_id(self.guild_id)->Some_0),
            author_id: UserId(column_id(self.author_id)->Some_0),
            victim_id: UserId(column_id(self.victim_id)->Some_0),
            role_id: RoleId(column_id(self.role_id)->Some_0),
            kenneled_at: column_time(self.kenneled_at)->Some_0,
            kennel_length: column_length(self)->Some_0,
            released_at: column_release(self.released_at)->Some_0,
            msg_announce_id: column_message(self.msg_announce_id)->Some_0,
            kennel_msg_id: column_message(self.kennel_msg_id)->Some_0,
        }
    }

    /// Writes a kenneling as a row. One with a number that its column
    /// cannot hold is turned down: an identifier that is zero or above
    /// `i64::MAX`, a time above `i64::MAX`, a length of more microseconds
    /// than `i64::MAX`.
    pub fn try_from(row: &Kenneling) -> (out: Result<KennelingRow, RowError>)
        ensures
            match out {
                Ok(written) => row.unwritable() is None && written == row.row(),
                Err(error) => row.unwritable() == Some(error),
            },
    {
        let guild_id = id_to_column(row.guild_id.0);
        let author_id = id_to_column(row.author_id.0);
        let victim_id = id_to_column(row.victim_id.0);
        let role_id = id_to_column(row.role_id.0);
        let msg_announce_id = message_to_column(row.msg_announce_id);
        let kennel_msg_id = message_to_column(row.kennel_msg_id);
        let (guild_id, author_id, victim_id, role_id, msg_announce_id, kennel_msg_id) = match (
            guild_id,
            author_id,
            victim_id,
            role_id,
            msg_announce_id,
            kennel_msg_id,
        ) {
            (Some(g), Some(a), Some(v), Some(r), Some(m), Some(k)) => (g, a, v, r, m, k),
            _ => {
                return Err(RowError::MalformedId);
            },
        };
        if row.kenneled_at > i64::MAX as u64 {
            return Err(RowError::MalformedTime);
        }
        let released_at = match row.released_at {
            None => None,
            Some(time) => if time > i64::MAX as u64 {
                return Err(RowError::MalformedTime);
            } else {
                Some(time as i64)
            },
        };
        let kennel_length = match PgInterval::try_from_span(Span::from_secs(row.kennel_length)) {
            Some(interval) => interval,
            None => {
                return Err(RowError::MalformedLength);
            },
        };
        Ok(
            KennelingRow {
                id: row.id,
                guild_id,
                author_id,
                victim_id,
                role_id,
                kenneled_at: row.kenneled_at as i64,
                kennel_length,
                released_at,
                msg_announce_id,
                kennel_msg_id,
            },
        )
    }
}

impl NewKenneling {
    /// The kenneling that this becomes once the store has named it `id`.
    pub open spec fn stored(self, id: i32) -> Kenneling {
        Kenneling {
            id,
            guild_id: self.guild_id,
            author_id: self.author_id,
            victim_id: self.victim_id,
            role_id: self.role_id,
            kenneled_at: self.kenneled_at,
            kennel_length: self.kennel_length,
            released_at: None,
            msg_announce_id: self.msg_announce_id,
            kennel_msg_id: self.kennel_msg_id,
        }
    }

    /// A new kenneling lasts a second at least.
    pub open spec fn wf(self) -> bool {
        self.kennel_length >= MIN_KENNEL_SECS
    }

    /// Gives the kenneling the identity that the store chose for it.
    pub fn with_id(self, id: i32) -> (kenneling: Kenneling)
        ensures
            kenneling == self.stored(id),
    {
        Kenneling {
            id,
            guild_id: self.guild_id,
            author_id: self.author_id,
            victim_id: self.victim_id,
            role_id: self.role_id,
            kenneled_at: self.kenneled_at,
            kennel_length: self.kennel_length,
            released_at: None,
            msg_announce_id: self.msg_announce_id,
            kennel_msg_id: self.kennel_msg_id,
        }
    }
}

impl Kenneling {
    /// What keeps the kenneling from being written as a row, if anything
    /// does: an identifier first, then a time, then the length.
    pub open spec fn unwritable(self) -> Option<RowError> {
        if id_column(self.guild_id.0) is None || id_column(self.author_id.0) is None || id_column(
            self.victim_id.0,
        ) is None || id_column(self.role_id.0) is None || message_column(self.msg_announce_id)
            is None || message_column(self.kennel_msg_id) is None {
            Some(RowError::MalformedId)
        } else if time_column(self.kenneled_at) is None || release_column(self.released_at)
            is None {
            Some(RowError::MalformedTime)
        } else if PgInterval::of_span(Span { secs: self.kennel_length, nanos: 0 }) is None {
            Some(RowError::MalformedLength)
        } else {
            None
        }
    }

    /// The row that holds the kenneling, where it can be written.
    pub open spec fn row(self) -> KennelingRow {
        KennelingRow {
            id: self.id,
            guild_id: id_column(self.guild_id.0)->Some_0,
            author_id: id_column(self.author_id.0)->Some_0,
            victim_id: id_column(self.victim_id.0)->Some_0,
            role_id: id_column(self.role_id.0)->Some_0,
            kenneled_at: time_column(self.kenneled_at)->Some_0,
            kennel_length: PgInterval::of_span(Span { secs: self.kennel_length, nanos: 0 })->Some_0,
            released_at: release_column(self.released_at)->Some_0,
            msg_announce_id: message_column(self.msg_announce_id)->Some_0,
            kennel_msg_id: message_column(self.kennel_msg_id)->Some_0,
        }
    }

    /// Reads a kenneling from a row. A row is turned down where an
    /// identifier is zero or negative, a time lies before the Unix epoch, or
    /// the length has a negative count or, with no end written, comes to
    /// less than a second. What the length holds beyond whole seconds is
    /// dropped.
    pub fn from(row: &KennelingRow) -> (out: Result<Kenneling, RowError>)
        ensures
            match out {
                Ok(kenneling) => row.fault() is None && kenneling == row.kenneling()
                    && kenneling.wf(),
                Err(error) => row.fault() == Some(error),
            },
    {
        let guild_id = id_from_column(row.guild_id);
        let author_id = id_from_column(row.author_id);
        let victim_id = id_from_column(row.victim_id);
        let role_id = id_from_column(row.role_id);
        let msg_announce_id = message_from_column(row.msg_announce_id);
        let kennel_msg_id = message_from_column(row.kennel_msg_id);
        let (guild_id, author_id, victim_id, role_id, msg_announce_id, kennel_msg_id) = match (
            guild_id,
            author_id,
            victim_id,
            role_id,
            msg_announce_id,
            kennel_msg_id,
        ) {
            (Some(g), Some(a), Some(v), Some(r), Some(m), Some(k)) => (g, a, v, r, m, k),
            _ => {
                return Err(RowError::MalformedId);
            },
        };
        if row.kenneled_at < 0 {
            return Err(RowError::MalformedTime);
        }
        let released_at = match row.released_at {
            None => None,
            Some(time) => if time < 0 {
                return Err(RowError::MalformedTime);
            } else {
                Some(time as u64)
            },
        };
        let kennel_length = match row.kennel_length.as_duration() {
            Some(span) => span.secs,
            None => {
                return Err(RowError::MalformedLength);
            },
        };
        if released_at.is_none() && kennel_length < MIN_KENNEL_SECS {
            return Err(RowError::MalformedLength);
        }
        Ok(
            Kenneling {
                id: row.id,
                guild_id: GuildId(guild_id),
                author_id: UserId(author_id),
                victim_id: UserId(victim_id),
                role_id: RoleId(role_id),
                kenneled_at: row.kenneled_at as u64,
                kennel_length,
                released_at,
                msg_announce_id,
                kennel_msg_id,
            },
        )
    }

    /// A kenneling whose end has not been seen lasts a second at least.
    pub open spec fn wf(self) -> bool {
        self.released_at is None ==> self.kennel_length >= MIN_KENNEL_SECS
    }

    /// The time at which the kenneling is due to end.
    pub open spec fn due_at(self) -> int {
        self.kenneled_at + self.kennel_length
    }

    /// Whether the kenneling is in force at `now`: its end has not been seen
    /// and it is not due yet.
    pub open spec fn active(self, now: u64) -> bool {
        self.released_at is None && self.due_at() > now
    }

    /// Whether the kenneling is due at `now` and its end has not been seen.
    pub open spec fn overdue(self, now: u64) -> bool {
        self.released_at is None && self.due_at() <= now
    }

    /// The seconds between the start of the kenneling and `now`; none where
    /// `now` lies before the start.
    pub open spec fn elapsed(self, now: u64) -> u64 {
        if now >= self.kenneled_at {
            (now - self.kenneled_at) as u64
        } else {
            0
        }
    }

    /// The kenneling with its end seen at `now`. One whose end was seen
    /// before stays as it is.
    pub open spec fn released(self, now: u64) -> Kenneling {
        if self.released_at is None {
            Kenneling { released_at: Some(now), ..self }
        } else {
            self
        }
    }

    /// The kenneling with its end seen at `now` and `length` as its length.
    /// One whose end was seen before stays as it is.
    pub open spec fn shortened(self, now: u64, length: u64) -> Kenneling {
        if self.released_at is None {
            Kenneling { released_at: Some(now), kennel_length: length, ..self }
        } else {
            self
        }
    }

    /// The kenneling found at `now` to have ended early: its end is seen at
    /// `now` and its length is the time served. One whose end was seen
    /// before stays as it is.
    pub open spec fn cut_short(self, now: u64) -> Kenneling {
        self.shortened(now, self.elapsed(now))
    }

    /// Whether the kenneling is in force at `now`.
    pub fn is_active(&self, now: u64) -> (active: bool)
        ensures
            active == self.active(now),
    {
        self.released_at.is_none() && (now < self.kenneled_at || now - self.kenneled_at
            < self.kennel_length)
    }

    /// Whether the kenneling is due at `now` and its end has not been seen.
    pub fn is_overdue(&self, now: u64) -> (overdue: bool)
        ensures
            overdue == self.overdue(now),
    {
        self.released_at.is_none() && now >= self.kenneled_at && now - self.kenneled_at
            >= self.kennel_length
    }

    /// The time at which the kenneling is due to end, in seconds since the
    /// Unix epoch.
    pub fn release_time(&self) -> (due: u128)
        ensures
            due == self.due_at(),
    {
        self.kenneled_at as u128 + self.kennel_length as u128
    }

    /// The seconds served by `now`.
    pub fn time_served(&self, now: u64) -> (served: u64)
        ensures
            served == self.elapsed(now),
    {
        if now >= self.kenneled_at {
            now - self.kenneled_at
        } else {
            0
        }
    }

    /// Sees the end of the kenneling at `now`, unless it was seen before.
    pub fn release(self, now: u64) -> (after: Kenneling)
        ensures
            after == self.released(now),
    {
        if self.released_at.is_none() {
            Kenneling { released_at: Some(now), ..self }
        } else {
            self
        }
    }

    /// Ends the kenneling at `now` with the time served as its length,
    /// unless its end was seen before.
    pub fn truncate(self, now: u64) -> (after: Kenneling)
        ensures
            after == self.cut_short(now),
    {
        if self.released_at.is_none() {
            let served = self.time_served(now);
            Kenneling { released_at: Some(now), kennel_length: served, ..self }
        } else {
            self
        }
    }
}

} // verus!
