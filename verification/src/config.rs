//! Per-server settings and the newcomers of the member manager, and how they
//! are written to and read from their database rows.

use vstd::prelude::*;

use crate::time::{local_now, DATETIME_MAX_TIMESTAMP, DATETIME_MIN_TIMESTAMP};

verus! {

/// The member manager settings of one server.
#[derive(Clone, Copy, Debug, PartialEq, Eq)]
pub struct GuildConfig {
    pub guild: u64,
    pub member_manager_lockdowned: bool,
    pub member_manager_allowlockdown: Option<u64>,
    pub member_manager_memberrole: Option<u64>,
    pub member_manager_kickable: Option<u64>,
}

/// The database row of a server's settings.
#[derive(Clone, Copy, Debug, PartialEq, Eq)]
pub struct GuildConfigRow {
    pub guild: u64,
    pub member_manager_lockdowned: bool,
    pub member_manager_allowlockdown: Option<u64>,
    pub member_manager_memberrole: Option<u64>,
    pub member_manager_kickable: Option<u64>,
}

impl GuildConfig {
    /// The settings a server starts with: no lockdown and nothing configured.
    pub fn new(guild: u64) -> (res: GuildConfig)
        ensures
            res == (GuildConfig {
                guild,
                member_manager_lockdowned: false,
                member_manager_allowlockdown: None,
                member_manager_memberrole: None,
                member_manager_kickable: None,
            }),
    {
        GuildConfig {
            guild,
            member_manager_lockdowned: false,
            member_manager_allowlockdown: None,
            member_manager_memberrole: None,
            member_manager_kickable: None,
        }
    }

    pub open spec fn row_spec(self) -> GuildConfigRow {
        GuildConfigRow {
            guild: self.guild,
            member_manager_lockdowned: self.member_manager_lockdowned,
            member_manager_allowlockdown: self.member_manager_allowlockdown,
            member_manager_memberrole: self.member_manager_memberrole,
            member_manager_kickable: self.member_manager_kickable,
        }
    }

    pub open spec fn from_row_spec(row: GuildConfigRow) -> GuildConfig {
        GuildConfig {
            guild: row.guild,
            member_manager_lockdowned: row.member_manager_lockdowned,
            member_manager_allowlockdown: row.member_manager_allowlockdown,
            member_manager_memberrole: row.member_manager_memberrole,
            member_manager_kickable: row.member_manager_kickable,
        }
    }

    /// The row that stores these settings.
    pub fn to_row(&self) -> (res: GuildConfigRow)
        ensures
            res == self.row_spec(),
            res.guild == self.guild,
            res.member_manager_lockdowned == self.member_manager_lockdowned,
            res.member_manager_allowlockdown == self.member_manager_allowlockdown,
            res.member_manager_memberrole == self.member_manager_memberrole,
            res.member_manager_kickable == self.member_manager_kickable,
    {
        GuildConfigRow {
            guild: self.guild,
            member_manager_lockdowned: self.member_manager_lockdowned,
            member_manager_allowlockdown: self.member_manager_allowlockdown,
            member_manager_memberrole: self.member_manager_memberrole,
            member_manager_kickable: self.member_manager_kickable,
        }
    }

    /// The settings a row stores.
    pub fn from_row(row: &GuildConfigRow) -> (res: GuildConfig)
        ensures
            res == GuildConfig::from_row_spec(*row),
            res.guild == row.guild,
            res.member_manager_lockdowned == row.member_manager_lockdowned,
            res.member_manager_allowlockdown == row.member_manager_allowlockdown,
            res.member_manager_memberrole == row.member_manager_memberrole,
            res.member_manager_kickable == row.member_manager_kickable,
    {
        GuildConfig {
            guild: row.guild,
            member_manager_lockdowned: row.member_manager_lockdowned,
            member_manager_allowlockdown: row.member_manager_allowlockdown,
            member_manager_memberrole: row.member_manager_memberrole,
            member_manager_kickable: row.member_manager_kickable,
        }
    }
}

/// Settings read back from the row they were written to are the same
/// settings, and a row that was read and written again is the same row.
pub proof fn law_guild_config_round_trip(config: GuildConfig, row: GuildConfigRow)
    ensures
        GuildConfig::from_row_spec(config.row_spec()) == config,
        GuildConfig::from_row_spec(row).row_spec() == row,
{
}

/// Each setting is stored in the column of the same name, and read back
/// from it: no setting lands in another's column.
pub proof fn law_guild_config_columns(config: GuildConfig, row: GuildConfigRow)
    ensures
        config.row_spec().guild == config.guild,
        config.row_spec().member_manager_lockdowned == config.member_manager_lockdowned,
        config.row_spec().member_manager_allowlockdown == config.member_manager_allowlockdown,
        config.row_spec().member_manager_memberrole == config.member_manager_memberrole,
        config.row_spec().member_manager_kickable == config.member_manager_kickable,
        GuildConfig::from_row_spec(row).guild == row.guild,
        GuildConfig::from_row_spec(row).member_manager_lockdowned == row.member_manager_lockdowned,
        GuildConfig::from_row_spec(row).member_manager_allowlockdown
            == row.member_manager_allowlockdown,
        GuildConfig::from_row_spec(row).member_manager_memberrole == row.member_manager_memberrole,
        GuildConfig::from_row_spec(row).member_manager_kickable == row.member_manager_kickable,
{
}

/// A member who joined a server recently, with the Unix time they joined.
#[derive(Clone, Copy, Debug, PartialEq, Eq)]
pub struct NewMember {
    pub guild: u64,
    pub user: u64,
    pub jointime: i64,
}

/// The database row of a newcomer.
#[derive(Clone, Copy, Debug, PartialEq, Eq)]
pub struct NewMemberRow {
    pub guild: u64,
    pub user: u64,
    pub jointime: u64,
}

/// Why a newcomer and its row could not be converted.
#[derive(Clone, Copy, Debug, PartialEq, Eq)]
pub enum ConversionError {
    /// The join time does not fit the other representation.
    JoinTimeOutOfRange,
}

impl NewMember {
    /// The join time is one chrono can hold, as every join time the bot
    /// records is.
    pub open spec fn wf(self) -> bool {
        DATETIME_MIN_TIMESTAMP <= self.jointime <= DATETIME_MAX_TIMESTAMP
    }

    /// A newcomer who joined at `jointime`.
    pub fn new_at(guild: u64, user: u64, jointime: i64) -> (res: NewMember)
        ensures
            res == (NewMember { guild, user, jointime }),
    {
        NewMember { guild, user, jointime }
    }

    /// A newcomer who joins now; the join time is the current Unix time.
    pub fn new(guild: u64, user: u64) -> (res: NewMember)
        ensures
            res.guild == guild,
            res.user == user,
            res.wf(),
    {
        let now = local_now();
        NewMember { guild, user, jointime: now.secs }
    }

    pub open spec fn row_spec(self) -> Option<NewMemberRow> {
        if self.jointime >= 0 {
            Some(NewMemberRow { guild: self.guild, user: self.user, jointime: self.jointime as u64 })
        } else {
            None
        }
    }

    pub open spec fn from_row_spec(row: NewMemberRow) -> Option<NewMember> {
        if row.jointime <= i64::MAX {
            Some(NewMember { guild: row.guild, user: row.user, jointime: row.jointime as i64 })
        } else {
            None
        }
    }

    /// The row that stores the newcomer; a join time before 1970 does not fit
    /// the row's unsigned column.
    pub fn to_row(&self) -> (res: Result<NewMemberRow, ConversionError>)
        ensures
            match self.row_spec() {
                Some(r) => res == Ok::<NewMemberRow, ConversionError>(r),
                None => res == Err::<NewMemberRow, ConversionError>(
                    ConversionError::JoinTimeOutOfRange,
                ),
            },
    {
        if self.jointime >= 0 {
            Ok(NewMemberRow { guild: self.guild, user: self.user, jointime: self.jointime as u64 })
        } else {
            Err(ConversionError::JoinTimeOutOfRange)
        }
    }

    /// The newcomer a row stores; a join time past `i64::MAX` is refused.
    /// A join time past what chrono can hold makes chrono panic, so it is
    /// left out.
    pub fn from_row(row: &NewMemberRow) -> (res: Result<NewMember, ConversionError>)
        requires
            row.jointime <= i64::MAX ==> row.jointime <= DATETIME_MAX_TIMESTAMP,
        ensures
            match NewMember::from_row_spec(*row) {
                Some(m) => res == Ok::<NewMember, ConversionError>(m),
                None => res == Err::<NewMember, ConversionError>(
                    ConversionError::JoinTimeOutOfRange,
                ),
            },
    {
        if row.jointime <= i64::MAX as u64 {
            Ok(NewMember { guild: row.guild, user: row.user, jointime: row.jointime as i64 })
        } else {
            Err(ConversionError::JoinTimeOutOfRange)
        }
    }
}

/// A newcomer who joined after 1970 is stored and read back unchanged, and a
/// row whose join time fits an `i64` is read and stored again unchanged. A
/// newcomer whose join time chrono can hold gets a row that `from_row`
/// accepts.
pub proof fn law_new_member_round_trip(member: NewMember, row: NewMemberRow)
    ensures
        member.jointime >= 0 ==> (member.row_spec() matches Some(r) && NewMember::from_row_spec(r)
            == Some(member)),
        member.wf() && member.jointime >= 0 ==> (member.row_spec() matches Some(r) && (r.jointime
            <= i64::MAX ==> r.jointime <= DATETIME_MAX_TIMESTAMP)),
        row.jointime <= i64::MAX ==> (NewMember::from_row_spec(row) matches Some(m) && m.row_spec()
            == Some(row)),
{
}

} // verus!
