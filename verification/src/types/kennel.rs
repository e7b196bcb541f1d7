//! A kennel: a named role of a guild with the messages that go with it.

use vstd::prelude::*;
use crate::duration::DurationError;
use crate::ids::ChannelId;
use crate::ids::GuildId;
use crate::ids::RoleId;
use crate::ids::UserId;
use crate::lifecycle::opening;
use crate::lifecycle::Action;
use crate::lifecycle::Lifecycle;
use crate::message::notices;
use crate::message::notices_for;
use crate::message::Notices;
use crate::text::chars_of;
use crate::text::string_of;
use crate::types::kenneling::column_id;
use crate::types::kenneling::id_from_column;
use crate::types::kenneling::NewKenneling;
use crate::types::kenneling::RowError;

verus! {

/// A kennel as a row of the `kennels` table holds it.
#[derive(Debug)]
pub struct KennelRow {
    pub id: i32,
    pub name: String,
    pub guild_id: i64,
    pub role_id: i64,
    pub msg_announce: Option<String>,
    pub msg_announce_edit: Option<String>,
    pub msg_release: Option<String>,
    pub kennel_channel_id: Option<i64>,
    pub kennel_msg: Option<String>,
    pub kennel_msg_edit: Option<String>,
    pub kennel_release_msg: Option<String>,
}

/// A kennel.
#[derive(Debug)]
pub struct Kennel {
    pub id: i32,
    pub name: String,
    pub guild_id: GuildId,
    pub role_id: RoleId,
    pub msg_announce: Option<String>,
    pub msg_announce_edit: Option<String>,
    pub msg_release: Option<String>,
    pub kennel_channel_id: Option<ChannelId>,
    pub kennel_msg: Option<String>,
    pub kennel_msg_edit: Option<String>,
    pub kennel_release_msg: Option<String>,
}

/// One of the messages of a kennel.
#[derive(Clone, Copy, Debug, PartialEq, Eq, Structural)]
pub enum MessageType {
    Announce,
    AnnounceEdit,
    Release,
    Kennel,
    KennelEdit,
    KennelRelease,
}

impl MessageType {
    /// The column of the `kennels` table that holds the message.
    pub open spec fn column(self) -> Seq<char> {
        match self {
            MessageType::Announce => "msg_announce"@,
            MessageType::AnnounceEdit => "msg_announce_edit"@,
            MessageType::Release => "msg_release"@,
            MessageType::Kennel => "kennel_msg"@,
            MessageType::KennelEdit => "kennel_msg_edit"@,
            MessageType::KennelRelease => "kennel_release_msg"@,
        }
    }

    /// The name of the column that holds the message.
    pub fn to_string(&self) -> (name: String)
        ensures
            name@ == self.column(),
    {
        let name = match self {
            MessageType::Announce => "msg_announce",
            MessageType::AnnounceEdit => "msg_announce_edit",
            MessageType::Release => "msg_release",
            MessageType::Kennel => "kennel_msg",
            MessageType::KennelEdit => "kennel_msg_edit",
            MessageType::KennelRelease => "kennel_release_msg",
        };
        string_of(&chars_of(name))
    }
}

/// The channel that a column names, where it names one or none.
pub open spec fn column_channel(column: Option<i64>) -> Option<Option<ChannelId>> {
    match column {
        None => Some(None),
        Some(number) => match column_id(number) {
            Some(id) => Some(Some(ChannelId(id))),
            None => None,
        },
    }
}

impl Kennel {
    /// Whether `self` holds what `row` holds.
    pub open spec fn holds(self, row: KennelRow) -> bool {
        &&& self.id == row.id
        &&& self.name == row.name
        &&& column_id(row.guild_id) == Some(self.guild_id.0)
        &&& column_id(row.role_id) == Some(self.role_id.0)
        &&& column_channel(row.kennel_channel_id) == Some(self.kennel_channel_id)
        &&& self.msg_announce == row.msg_announce
        &&& self.msg_announce_edit == row.msg_announce_edit
        &&& self.msg_release == row.msg_release
        &&& self.kennel_msg == row.kennel_msg
        &&& self.kennel_msg_edit == row.kennel_msg_edit
        &&& self.kennel_release_msg == row.kennel_release_msg
    }

    /// Whether the identifiers of `row` are identifiers.
    pub open spec fn readable(row: KennelRow) -> bool {
        &&& column_id(row.guild_id) is Some
        &&& column_id(row.role_id) is Some
        &&& column_channel(row.kennel_channel_id) is Some
    }

    /// Reads a kennel from a row. A row with an identifier that is zero or
    /// negative is turned down.
    pub fn from(value: KennelRow) -> (kennel: Result<Kennel, RowError>)
        ensures
            match kennel {
                Ok(kennel) => Self::readable(value) && kennel.holds(value),
                Err(error) => !Self::readable(value) && error == RowError::MalformedId,
            },
    {
        let guild_id = match id_from_column(value.guild_id) {
            Some(id) => GuildId(id),
            None => {
                return Err(RowError::MalformedId);
            },
        };
        let role_id = match id_from_column(value.role_id) {
            Some(id) => RoleId(id),
            None => {
                return Err(RowError::MalformedId);
            },
        };
        let kennel_channel_id = match value.kennel_channel_id {
            None => None,
            Some(number) => match id_from_column(number) {
                Some(id) => Some(ChannelId(id)),
                None => {
                    return Err(RowError::MalformedId);
                },
            },
        };
        Ok(
            Kennel {
                id: value.id,
                name: value.name,
                guild_id,
                role_id,
                msg_announce: value.msg_announce,
                msg_announce_edit: value.msg_announce_edit,
                msg_release: value.msg_release,
                kennel_channel_id,
                kennel_msg: value.kennel_msg,
                kennel_msg_edit: value.kennel_msg_edit,
                kennel_release_msg: value.kennel_release_msg,
            },
        )
    }

    /// Starts a kenneling in this kennel: `victim_id` is to carry the role
    /// of the kennel for `kennel_length`, counted from `now`.
    pub fn kennel_someone(
        &self,
        author_id: UserId,
        victim_id: UserId,
        kennel_length: Result<u64, DurationError>,
        now: u64,
    ) -> (out: (Lifecycle, Action))
        ensures
            out == opening(
                Some(self.role_id),
                self.guild_id,
                author_id,
                victim_id,
                kennel_length,
                now,
            ),
    {
        Lifecycle::open(Some(self.role_id), self.guild_id, author_id, victim_id, kennel_length, now)
    }

    /// The messages that announce `draft` in this kennel.
    pub fn notices(&self, draft: &NewKenneling) -> (out: Notices)
        ensures
            notices_for(
                out,
                match self.msg_announce {
                    Some(template) => Some(template@),
                    None => None,
                },
                self.kennel_channel_id,
                match self.kennel_msg {
                    Some(template) => Some(template@),
                    None => None,
                },
                *draft,
            ),
    {
        notices(self.msg_announce.as_ref(), self.kennel_channel_id, self.kennel_msg.as_ref(), draft)
    }
}

} // verus!
