//! What the bot answers when running a command fails.

use vstd::prelude::*;

use crate::text::{decimal_spec, push_decimal};

verus! {

/// A failure of the command framework, with what its message shows already
/// rendered as text.
pub enum Failure {
    /// The command itself returned an error.
    Command { error: String },
    /// The command's arguments could not be read.
    ArgumentParse { error: String },
    /// The user lacks permissions; `None` when they are not known.
    MissingUserPermissions { permissions: Option<String> },
    /// The command is for the bot's owners only.
    NotAnOwner,
    /// The command is for servers only.
    GuildOnly,
    /// The command is for direct messages only.
    DmOnly,
    /// The command is for NSFW channels only.
    NsfwOnly,
    /// The bot lacks permissions.
    MissingBotPermissions { missing: String },
    /// The registered command does not match what Discord sent.
    CommandStructureMismatch { description: String },
    /// The command is cooling down for this many more seconds.
    CooldownHit { remaining_secs: u64 },
    /// Any other failure.
    Other,
}

/// The answer to a failure, if the bot answers it.
pub open spec fn failure_reply_spec(f: Failure) -> Option<Seq<char>> {
    match f {
        Failure::Command { error } => Some("コマンド実行中にエラーが発生しました:\n"@ + error@),
        Failure::ArgumentParse { error } => Some("コマンドの入力形式に間違いがあるようです:\n"@ + error@),
        Failure::MissingUserPermissions { permissions } => match permissions {
            Some(p) => Some("あなたの権限が足りません\n足りない権限: "@ + p@),
            None => None,
        },
        Failure::NotAnOwner => Some("このコマンドはBOT管理者専用です"@),
        Failure::GuildOnly => Some("このコマンドはサーバー専用です"@),
        Failure::DmOnly => Some("このコマンドはDM専用です"@),
        Failure::NsfwOnly => Some("このコマンドはNSFWチャンネル専用です"@),
        Failure::MissingBotPermissions { missing } => Some("BOTの権限が足りません\n足りない権限: "@ + missing@),
        Failure::CommandStructureMismatch { description } => Some(
            "BOTにバグが発生しているようです:\n"@ + description@,
        ),
        Failure::CooldownHit { remaining_secs } => Some(
            decimal_spec(remaining_secs as nat) + "秒後に再試行してください"@,
        ),
        Failure::Other => None,
    }
}

/// The message a failure carries, where it carries one.
pub open spec fn failure_detail(f: Failure) -> Option<Seq<char>> {
    match f {
        Failure::Command { error } => Some(error@),
        Failure::ArgumentParse { error } => Some(error@),
        Failure::MissingUserPermissions { permissions: Some(p) } => Some(p@),
        Failure::MissingBotPermissions { missing } => Some(missing@),
        Failure::CommandStructureMismatch { description } => Some(description@),
        _ => None,
    }
}

/// The bot stays silent exactly on failures it cannot tell anything of (an
/// unknown failure, or missing permissions that are not known); every other
/// failure is answered, and an answer ends with the message the failure
/// carries, unchanged.
pub proof fn law_failure_replies(f: Failure)
    ensures
        failure_reply_spec(f) is None <==> (f is Other || f matches Failure::MissingUserPermissions {
            permissions: None,
        }),
        failure_detail(f) matches Some(d) ==> (failure_reply_spec(f) matches Some(t) && d.len()
            <= t.len() && t.subrange(t.len() - d.len(), t.len() as int) == d),
{
    match f {
        Failure::Command { error } => {
            let t = failure_reply_spec(f)->0;
            assert(t.subrange(t.len() - error@.len(), t.len() as int) =~= error@);
        },
        Failure::ArgumentParse { error } => {
            let t = failure_reply_spec(f)->0;
            assert(t.subrange(t.len() - error@.len(), t.len() as int) =~= error@);
        },
        Failure::MissingUserPermissions { permissions: Some(p) } => {
            let t = failure_reply_spec(f)->0;
            assert(t.subrange(t.len() - p@.len(), t.len() as int) =~= p@);
        },
        Failure::MissingBotPermissions { missing } => {
            let t = failure_reply_spec(f)->0;
            assert(t.subrange(t.len() - missing@.len(), t.len() as int) =~= missing@);
        },
        Failure::CommandStructureMismatch { description } => {
            let t = failure_reply_spec(f)->0;
            assert(t.subrange(t.len() - description@.len(), t.len() as int) =~= description@);
        },
        _ => {},
    }
}

fn prefixed(prefix: &str, rest: &str) -> (res: String)
    ensures
        res@ == prefix@ + rest@,
{
    let mut s = String::new();
    s.append(prefix);
    s.append(rest);
    s
}

/// The answer to a failure; `None` where the bot stays silent.
pub fn failure_reply(f: &Failure) -> (res: Option<String>)
    ensures
        match failure_reply_spec(*f) {
            Some(t) => res matches Some(s) && s@ == t,
            None => res is None,
        },
{
    match f {
        Failure::Command { error } => Some(
            prefixed("コマンド実行中にエラーが発生しました:\n", error.as_str()),
        ),
        Failure::ArgumentParse { error } => Some(
            prefixed("コマンドの入力形式に間違いがあるようです:\n", error.as_str()),
        ),
        Failure::MissingUserPermissions { permissions } => match permissions {
            Some(p) => Some(prefixed("あなたの権限が足りません\n足りない権限: ", p.as_str())),
            None => None,
        },
        Failure::NotAnOwner => Some(String::from_str("このコマンドはBOT管理者専用です")),
        Failure::GuildOnly => Some(String::from_str("このコマンドはサーバー専用です")),
        Failure::DmOnly => Some(String::from_str("このコマンドはDM専用です")),
        Failure::NsfwOnly => Some(String::from_str("このコマンドはNSFWチャンネル専用です")),
        Failure::MissingBotPermissions { missing } => Some(
            prefixed("BOTの権限が足りません\n足りない権限: ", missing.as_str()),
        ),
        Failure::CommandStructureMismatch { description } => Some(
            prefixed("BOTにバグが発生しているようです:\n", description.as_str()),
        ),
        Failure::CooldownHit { remaining_secs } => {
            let mut s = String::new();
            push_decimal(&mut s, *remaining_secs);
            s.append("秒後に再試行してください");
            Some(s)
        },
        Failure::Other => None,
    }
}

} // verus!
