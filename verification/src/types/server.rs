//! What a guild has set: its kennel role, its command and its messages.

use vstd::prelude::*;
use crate::ids::parse_platform_id;
use crate::ids::parsed_platform_id;
use crate::ids::ChannelId;
use crate::ids::GuildId;
use crate::ids::ParseIdError;
use crate::ids::RoleId;
use crate::message::notices;
use crate::message::notices_for;
use crate::message::Notices;
use crate::types::kenneling::NewKenneling;

verus! {

/// The settings of a guild as a row of the `servers` table holds them.
#[derive(Debug)]
pub struct ServerRow {
    pub guild_id: String,
    pub command_name: String,
    pub announcement_message: String,
    pub release_message: String,
    pub role_id: String,
    pub kennel_channel: Option<String>,
    pub kennel_message: String,
}

/// The settings of a guild.
#[derive(Debug)]
pub struct Server {
    pub guild_id: GuildId,
    /// The name of the command that kennels.
    pub command_name: String,
    /// The message sent where the command was given.
    pub announcement_message: String,
    /// The message that replaces it when the kenneling is over.
    pub release_message: String,
    /// The kennel role.
    pub role_id: RoleId,
    /// The kennel channel, if the guild has one.
    pub kennel_channel: Option<ChannelId>,
    /// The message sent to the kennel channel.
    pub kennel_message: String,
}

/// The channel that a column names, where it names one.
pub open spec fn parsed_channel(column: Option<String>) -> Result<Option<ChannelId>, ParseIdError> {
    match column {
        None => Ok(None),
        Some(text) => match parsed_platform_id(text@) {
            Ok(id) => Ok(Some(ChannelId(id))),
            Err(error) => Err(error),
        },
    }
}

/// What is wrong with the identifiers of `row`: the first of guild, role and
/// kennel channel that does not read as an identifier decides.
pub open spec fn row_error(row: ServerRow) -> Option<ParseIdError> {
    match parsed_platform_id(row.guild_id@) {
        Err(error) => Some(error),
        Ok(_) => match parsed_platform_id(row.role_id@) {
            Err(error) => Some(error),
            Ok(_) => match parsed_channel(row.kennel_channel) {
                Err(error) => Some(error),
                Ok(_) => None,
            },
        },
    }
}

impl Server {
    /// Whether `self` holds what `row` holds, its identifiers read as
    /// numbers.
    pub open spec fn holds(self, row: ServerRow) -> bool {
        &&& parsed_platform_id(row.guild_id@) == Ok::<u64, ParseIdError>(self.guild_id.0)
        &&& parsed_platform_id(row.role_id@) == Ok::<u64, ParseIdError>(self.role_id.0)
        &&& parsed_channel(row.kennel_channel) == Ok::<Option<ChannelId>, ParseIdError>(
            self.kennel_channel,
        )
        &&& self.command_name == row.command_name
        &&& self.announcement_message == row.announcement_message
        &&& self.release_message == row.release_message
        &&& self.kennel_message == row.kennel_message
    }

    /// Reads the settings of a guild from a row. A row with an identifier
    /// that is no identifier of the platform, zero among them, is turned
    /// down.
    pub fn try_from(row: ServerRow) -> (server: Result<Server, ParseIdError>)
        ensures
            match server {
                Ok(server) => row_error(row) is None && server.holds(row),
                Err(error) => row_error(row) == Some(error),
            },
    {
        let guild_id = match parse_platform_id(row.guild_id.as_str()) {
            Ok(id) => GuildId(id),
            Err(error) => {
                return Err(error);
            },
        };
        let role_id = match parse_platform_id(row.role_id.as_str()) {
            Ok(id) => RoleId(id),
            Err(error) => {
                return Err(error);
            },
        };
        let kennel_channel = match &row.kennel_channel {
            None => None,
            Some(text) => match parse_platform_id(text.as_str()) {
                Ok(id) => Some(ChannelId(id)),
                Err(error) => {
                    return Err(error);
                },
            },
        };
        Ok(
            Server {
                guild_id,
                role_id,
                kennel_channel,
                command_name: row.command_name,
                announcement_message: row.announcement_message,
                release_message: row.release_message,
                kennel_message: row.kennel_message,
            },
        )
    }
}

impl Server {
    /// The messages that announce `draft` in this guild: one where the
    /// command was given, and one in the kennel channel if the guild has
    /// one.
    pub fn notices(&self, draft: &NewKenneling) -> (out: Notices)
        ensures
            notices_for(
                out,
                Some(self.announcement_message@),
                self.kennel_channel,
                Some(self.kennel_message@),
                *draft,
            ),
    {
        notices(
            Some(&self.announcement_message),
            self.kennel_channel,
            Some(&self.kennel_message),
            draft,
        )
    }
}

/// The settings of guilds, kept in memory in the order in which they were
/// made. What a guild set last is what holds.
pub struct Servers {
    settings: Vec<Server>,
}

/// What holds for `guild_id` after `settings` were made one after the
/// other: the last of them that is of that guild.
pub open spec fn setting_of(settings: Seq<Server>, guild_id: GuildId) -> Option<Server>
    decreases settings.len(),
{
    if settings.len() == 0 {
        None
    } else if settings.last().guild_id == guild_id {
        Some(settings.last())
    } else {
        setting_of(settings.drop_last(), guild_id)
    }
}

/// The kennel role that holds for `guild_id` after `settings` were made one
/// after the other.
pub open spec fn role_of(settings: Seq<Server>, guild_id: GuildId) -> Option<RoleId> {
    match setting_of(settings, guild_id) {
        Some(server) => Some(server.role_id),
        None => None,
    }
}

impl View for Servers {
    type V = Seq<Server>;

    closed spec fn view(&self) -> Seq<Server> {
        self.settings@
    }
}

impl Servers {
    /// No guild has set anything.
    pub fn new() -> (servers: Servers)
        ensures
            servers@ == Seq::<Server>::empty(),
    {
        Servers { settings: Vec::new() }
    }

    /// Takes down what a guild has set, in place of what it had set before.
    pub fn set(&mut self, server: Server)
        ensures
            final(self)@ == old(self)@.push(server),
    {
        self.settings.push(server);
    }

    /// What `guild_id` has set last, if it has set anything.
    pub fn get(&self, guild_id: GuildId) -> (server: Option<&Server>)
        ensures
            match server {
                Some(found) => setting_of(self@, guild_id) == Some(*found),
                None => setting_of(self@, guild_id) is None,
            },
    {
        let mut i: usize = self.settings.len();
        assert(self.settings@.take(i as int) == self.settings@);
        while i > 0
            invariant
                i <= self.settings.len(),
                setting_of(self.settings@, guild_id) == setting_of(
                    self.settings@.take(i as int),
                    guild_id,
                ),
            decreases i,
        {
            let candidate = &self.settings[i - 1];
            assert(self.settings@.take(i as int).drop_last() == self.settings@.take(i - 1));
            if candidate.guild_id.0 == guild_id.0 {
                return Some(candidate);
            }
            i = i - 1;
        }
        None
    }

    /// The kennel role of `guild_id`, if it has set one.
    pub fn kennel_role(&self, guild_id: GuildId) -> (role: Option<RoleId>)
        ensures
            role == role_of(self@, guild_id),
    {
        match self.get(guild_id) {
            Some(server) => Some(server.role_id),
            None => None,
        }
    }
}

} // verus!
