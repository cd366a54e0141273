//! Backups of deleted and edited messages: what the backup looks like, and
//! which channels it goes to.

use vstd::prelude::*;

use crate::attachment::{picture_urls, picture_urls_spec, Attachment};
use crate::globalchat::first_named;
use crate::mention::{channel_mention_spec, push_channel_mention};
use crate::text::{decimal_spec, ends_with, ends_with_spec, push_decimal};

verus! {

/// Why a message is backed up.
#[derive(Clone, Copy, Debug, PartialEq, Eq)]
pub enum BackupKind {
    Deleted,
    Edited,
}

/// The word for what happened to the message.
pub open spec fn action_spec(kind: BackupKind) -> Seq<char> {
    match kind {
        BackupKind::Deleted => "削除"@,
        BackupKind::Edited => "編集"@,
    }
}

/// The embed colour of a backup: red for a deletion, green for an edit.
pub open spec fn color_spec(kind: BackupKind) -> u32 {
    match kind {
        BackupKind::Deleted => 0xFF0000u32,
        BackupKind::Edited => 0x00FF00u32,
    }
}

pub fn backup_action(kind: BackupKind) -> (res: &'static str)
    ensures
        res@ == action_spec(kind),
{
    match kind {
        BackupKind::Deleted => "削除",
        BackupKind::Edited => "編集",
    }
}

pub fn backup_color(kind: BackupKind) -> (res: u32)
    ensures
        res == color_spec(kind),
{
    match kind {
        BackupKind::Deleted => 0xFF0000,
        BackupKind::Edited => 0x00FF00,
    }
}

/// The name of a server's history channel for an action, such as `削除履歴`.
pub open spec fn history_name_spec(action: Seq<char>) -> Seq<char> {
    action + "履歴"@
}

pub fn history_channel_name(action: &str) -> (res: String)
    ensures
        res@ == history_name_spec(action@),
{
    let mut s = String::new();
    s.append(action);
    s.append("履歴");
    s
}

/// The server's own history channel for the action: the first channel (by
/// position) that bears its name.
pub fn history_channel(names: &Vec<String>, action: &str) -> (res: Option<usize>)
    ensures
        match res {
            Some(i) => i < names@.len() && names@[i as int]@ == history_name_spec(action@) && forall|
                k: int,
            | 0 <= k < i ==> names@[k]@ != history_name_spec(action@),
            None => forall|k: int|
                0 <= k < names@.len() ==> names@[k]@ != history_name_spec(action@),
        },
{
    let name = history_channel_name(action);
    first_named(names, name.as_str())
}

/// The ending of the names of the backup channels of server `guild`.
pub open spec fn backup_suffix_spec(guild: u64) -> Seq<char> {
    "_"@ + decimal_spec(guild as nat)
}

/// The name of a new backup channel for a server.
pub open spec fn backup_channel_name_spec(guild_name: Seq<char>, guild: u64) -> Seq<char> {
    guild_name + backup_suffix_spec(guild)
}

pub fn backup_suffix(guild: u64) -> (res: String)
    ensures
        res@ == backup_suffix_spec(guild),
{
    let mut s = String::new();
    s.append("_");
    push_decimal(&mut s, guild);
    s
}

pub fn backup_channel_name(guild_name: &str, guild: u64) -> (res: String)
    ensures
        res@ == backup_channel_name_spec(guild_name@, guild),
{
    let mut s = String::new();
    s.append(guild_name);
    s.append("_");
    push_decimal(&mut s, guild);
    assert(s@ =~= backup_channel_name_spec(guild_name@, guild));
    s
}

/// A channel of the backup server: its category, if any, and its name.
pub struct BackupChannel {
    pub parent: Option<u64>,
    pub name: String,
}

/// The channel holds the backups of server `guild`: it lies in the backup
/// category and its name ends with the server's id.
pub open spec fn holds_backups_of(c: BackupChannel, category: u64, guild: u64) -> bool {
    c.parent == Some(category) && ends_with_spec(c.name@, backup_suffix_spec(guild))
}

/// The backup channel of server `guild` in the backup `category`: the first
/// (by position) that holds its backups. `None` means one is to be created.
pub fn backup_channel(channels: &Vec<BackupChannel>, category: u64, guild: u64) -> (res: Option<usize>)
    ensures
        match res {
            Some(i) => i < channels@.len() && holds_backups_of(channels@[i as int], category, guild)
                && forall|k: int|
                0 <= k < i ==> !holds_backups_of(channels@[k], category, guild),
            None => forall|k: int|
                0 <= k < channels@.len() ==> !holds_backups_of(channels@[k], category, guild),
        },
{
    let suffix = backup_suffix(guild);
    for i in 0..channels.len()
        invariant
            suffix@ == backup_suffix_spec(guild),
            forall|k: int| 0 <= k < i ==> !holds_backups_of(channels@[k], category, guild),
    {
        let in_category = match channels[i].parent {
            Some(p) => p == category,
            None => false,
        };
        if in_category && ends_with(channels[i].name.as_str(), suffix.as_str()) {
            return Some(i);
        }
    }
    None
}

/// A backup channel made for a server is recognised as holding that server's
/// backups once it lies in the backup category, whatever the server is
/// called; and the name ends with the server's id in decimal, which reads
/// back as that id.
pub proof fn law_new_backup_channel_is_found(guild_name: Seq<char>, guild: u64)
    ensures
        ends_with_spec(backup_channel_name_spec(guild_name, guild), backup_suffix_spec(guild)),
        backup_suffix_spec(guild)[0] == '_',
        backup_suffix_spec(guild).drop_first() == decimal_spec(guild as nat),
{
    reveal_strlit("_");
    let n = backup_channel_name_spec(guild_name, guild);
    let suf = backup_suffix_spec(guild);
    assert(n.skip(n.len() - suf.len()) =~= suf);
    assert(suf.drop_first() =~= decimal_spec(guild as nat));
}

/// The author line of a backup: who wrote the message and what happened to it.
pub open spec fn backup_author_spec(tag: Seq<char>, action: Seq<char>) -> Seq<char> {
    tag + "がメッセージを"@ + action + "しました"@
}

pub fn backup_author(tag: &str, action: &str) -> (res: String)
    ensures
        res@ == backup_author_spec(tag@, action@),
{
    let mut s = String::new();
    s.append(tag);
    s.append("がメッセージを");
    s.append(action);
    s.append("しました");
    s
}

/// The details field of a backup: when the message was sent, where, and its id.
pub open spec fn backup_details_spec(
    sent_at: Seq<char>,
    channel_name: Seq<char>,
    channel: u64,
    message: u64,
) -> Seq<char> {
    "メッセージの送信日: "@ + sent_at + "\n"@ + "#"@ + channel_name + "("@ + channel_mention_spec(
        channel,
    ) + ")"@ + "\n"@ + "メッセージID: "@ + decimal_spec(message as nat)
}

pub fn backup_details(sent_at: &str, channel_name: &str, channel: u64, message: u64) -> (res: String)
    ensures
        res@ == backup_details_spec(sent_at@, channel_name@, channel, message),
{
    let mut s = String::new();
    s.append("メッセージの送信日: ");
    s.append(sent_at);
    s.append("\n");
    s.append("#");
    s.append(channel_name);
    s.append("(");
    push_channel_mention(&mut s, channel);
    s.append(")");
    s.append("\n");
    s.append("メッセージID: ");
    push_decimal(&mut s, message);
    assert(s@ =~= backup_details_spec(sent_at@, channel_name@, channel, message));
    s
}

/// One embed of a backup, beyond what all of them share.
pub struct BackupEmbed {
    /// The picture the embed shows.
    pub image: Option<String>,
    /// The message's text; only the first embed carries it.
    pub description: Option<String>,
}

/// The embeds of a backup: one per picture of the message (through the media
/// proxy), or a single one without picture; the first carries the text.
pub open spec fn backup_embeds_spec(content: Seq<char>, atts: Seq<Attachment>) -> Seq<
    (Option<Seq<char>>, Option<Seq<char>>),
> {
    let pics = picture_urls_spec(atts, true);
    if pics.len() == 0 {
        seq![(None, Some(content))]
    } else {
        Seq::new(
            pics.len(),
            |i: int|
                (
                    Some(pics[i]),
                    if i == 0 {
                        Some(content)
                    } else {
                        None
                    },
                ),
        )
    }
}

/// A backup has one embed per picture of the message, in the pictures'
/// order, or a single embed when there is none; the message's text is in the
/// first embed and in no other.
pub proof fn law_backup_embeds_shape(content: Seq<char>, atts: Seq<Attachment>)
    ensures
        ({
            let e = backup_embeds_spec(content, atts);
            let pics = picture_urls_spec(atts, true);
            &&& e.len() == if pics.len() == 0 {
                1
            } else {
                pics.len()
            }
            &&& e[0].1 == Some(content)
            &&& forall|i: int| 1 <= i < e.len() ==> (#[trigger] e[i]).1 is None
            &&& pics.len() == 0 ==> e[0].0 is None
            &&& forall|i: int| 0 <= i < pics.len() ==> (#[trigger] e[i]).0 == Some(pics[i])
        }),
{
}

pub open spec fn embed_view(e: BackupEmbed) -> (Option<Seq<char>>, Option<Seq<char>>) {
    (
        match e.image {
            Some(s) => Some(s@),
            None => None,
        },
        match e.description {
            Some(s) => Some(s@),
            None => None,
        },
    )
}

pub fn backup_embeds(content: &str, atts: &Vec<Attachment>) -> (res: Vec<BackupEmbed>)
    ensures
        res@.map_values(|e: BackupEmbed| embed_view(e)) == backup_embeds_spec(content@, atts@),
{
    let pics = picture_urls(atts, true);
    let ghost pv = pics@.map_values(|s: String| s@);
    let mut res: Vec<BackupEmbed> = Vec::new();
    if pics.len() == 0 {
        res.push(BackupEmbed { image: None, description: Some(content.to_owned()) });
        assert(res@.map_values(|e: BackupEmbed| embed_view(e)) =~= backup_embeds_spec(
            content@,
            atts@,
        ));
        return res;
    }
    for i in 0..pics.len()
        invariant
            pv == pics@.map_values(|s: String| s@),
            res@.len() == i,
            forall|k: int|
                0 <= k < i ==> #[trigger] embed_view(res@[k]) == (
                    Some(pv[k]),
                    if k == 0 {
                        Some(content@)
                    } else {
                        None
                    },
                ),
    {
        let description = if i == 0 {
            Some(content.to_owned())
        } else {
            None
        };
        res.push(BackupEmbed { image: Some(pics[i].clone()), description });
    }
    assert(res@.map_values(|e: BackupEmbed| embed_view(e)) =~= backup_embeds_spec(content@, atts@));
    res
}

} // verus!
