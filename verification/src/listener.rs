//! How the bot reacts to what happens on Discord: which commands it accepts,
//! what it does with a new message, and what channel and member events change.

use vstd::prelude::*;

use crate::globalchat::{is_linked, GlobalChat};
use crate::mention::{push_user_mention, user_mention_spec};
use crate::text::contains_char;

verus! {

/// A command is served unless its author is muted, or it was given in a
/// global chat channel.
pub open spec fn command_allowed_spec<W>(
    muted: bool,
    globalchat: Option<&GlobalChat<W>>,
    guild: Option<u64>,
    channel: u64,
) -> bool {
    !muted && !(guild matches Some(g) && globalchat matches Some(gc) && is_linked(
        gc.links(),
        g,
        channel,
    ))
}

/// Whether a command is to be run: muted users get nothing, and no command
/// runs in a global chat channel.
pub fn command_allowed<W>(
    muted: bool,
    globalchat: Option<&GlobalChat<W>>,
    guild: Option<u64>,
    channel: u64,
) -> (res: bool)
    ensures
        res == command_allowed_spec(muted, globalchat, guild, channel),
        muted ==> !res,
{
    if muted {
        return false;
    }
    if let Some(g) = guild {
        if let Some(gc) = globalchat {
            if gc.is_globalchat(g, channel) {
                return false;
            }
        }
    }
    true
}

/// No command runs in a global chat channel, whoever gives it.
pub proof fn law_no_commands_in_globalchat<W>(muted: bool, gc: &GlobalChat<W>, guild: u64, channel: u64)
    requires
        is_linked(gc.links(), guild, channel),
    ensures
        !command_allowed_spec(muted, Some(gc), Some(guild), channel),
{
}

/// A muted user gets no command served, wherever it is given: in any server,
/// in a direct message, in or out of a global chat channel.
pub proof fn law_muted_users_get_nothing<W>(
    globalchat: Option<&GlobalChat<W>>,
    guild: Option<u64>,
    channel: u64,
)
    ensures
        !command_allowed_spec(true, globalchat, guild, channel),
{
}

/// A user who is not muted is served everywhere but in a global chat
/// channel: in a direct message, where the bot has no global chat, and in any
/// channel of a server that is not that server's global chat channel.
pub proof fn law_unmuted_users_are_served_outside_globalchat<W>(
    globalchat: Option<&GlobalChat<W>>,
    guild: Option<u64>,
    channel: u64,
)
    ensures
        guild is None ==> command_allowed_spec(false, globalchat, guild, channel),
        globalchat is None ==> command_allowed_spec(false, globalchat, guild, channel),
        (guild matches Some(g) && globalchat matches Some(gc) && !is_linked(gc.links(), g, channel))
            ==> command_allowed_spec(false, globalchat, guild, channel),
{
}

/// Whether a user is muted, given the look-up in the mute list: `Some(found)`
/// when the look-up worked. A failed look-up mutes nobody.
pub fn muted_from_lookup(lookup: Option<bool>) -> (res: bool)
    ensures
        res == (lookup == Some(true)),
{
    match lookup {
        Some(found) => found,
        None => false,
    }
}

/// Where the handling of a new message stands.
#[derive(Clone, Copy, Debug, PartialEq, Eq)]
pub enum MessageStage {
    /// Waiting to learn whether the author is muted.
    AwaitMuted,
    /// Waiting to learn whether the message was posted to an SNS service.
    AwaitSnsPost,
    /// Waiting to learn whether the message mentions the bot.
    AwaitMention,
    /// Nothing more to do.
    Finished,
}

/// What is known of a new message while it is handled.
#[derive(Clone, Copy, Debug, PartialEq, Eq)]
pub struct MessageFlow {
    pub stage: MessageStage,
    /// The message was posted in the global chat channel of its server.
    pub in_globalchat: bool,
    /// The message holds a red apple.
    pub has_apple: bool,
}

/// What the caller answers the flow with.
#[derive(Clone, Copy, Debug, PartialEq, Eq)]
pub enum MessageEvent {
    /// Whether the author is on the mute list.
    MutedChecked(bool),
    /// Whether posting to the SNS services worked for at least one of them.
    SnsPostTried(bool),
    /// Whether the message mentions the bot.
    MentionChecked(bool),
}

/// What the caller is to do next.
#[derive(Clone, Copy, Debug, PartialEq, Eq)]
pub enum MessageAction {
    /// Look the author up in the mute list, then answer `MutedChecked`.
    CheckMuted,
    /// Relay the message to the other global chat channels; handling ends.
    RelayToGlobalChat,
    /// Post the message to the SNS services, then answer `SnsPostTried`.
    PostToSns,
    /// Check whether the message mentions the bot, then answer `MentionChecked`.
    CheckMention,
    /// Answer in the channel with a green apple; handling ends.
    ReplyGreenApple,
    /// Answer in the channel that the bot heard its name; handling ends.
    ReplyCalled,
    /// The message went to an SNS service; handling ends.
    Posted,
    /// Handling ends.
    Stop,
}

/// The reply sent for `ReplyGreenApple`.
pub open spec fn green_apple_spec() -> Seq<char> {
    "🍏"@
}

/// The reply sent for `ReplyCalled`.
pub open spec fn called_reply_spec() -> Seq<char> {
    "呼んだ?"@
}

/// The text the bot sends for a reply action.
pub fn reply_text(action: MessageAction) -> (res: Option<&'static str>)
    ensures
        action == MessageAction::ReplyGreenApple ==> (res matches Some(s) && s@ == green_apple_spec()),
        action == MessageAction::ReplyCalled ==> (res matches Some(s) && s@ == called_reply_spec()),
        action != MessageAction::ReplyGreenApple && action != MessageAction::ReplyCalled ==> res is None,
{
    match action {
        MessageAction::ReplyGreenApple => Some("🍏"),
        MessageAction::ReplyCalled => Some("呼んだ?"),
        _ => None,
    }
}

pub open spec fn message_start_spec(from_bot: bool, in_globalchat: bool, has_apple: bool) -> (
    MessageFlow,
    MessageAction,
) {
    if from_bot {
        (MessageFlow { stage: MessageStage::Finished, in_globalchat, has_apple }, MessageAction::Stop)
    } else {
        (
            MessageFlow { stage: MessageStage::AwaitMuted, in_globalchat, has_apple },
            MessageAction::CheckMuted,
        )
    }
}

pub open spec fn message_step_spec(flow: MessageFlow, event: MessageEvent) -> (
    MessageFlow,
    MessageAction,
) {
    let done = MessageFlow { stage: MessageStage::Finished, ..flow };
    match (flow.stage, event) {
        (MessageStage::AwaitMuted, MessageEvent::MutedChecked(muted)) => if muted {
            (done, MessageAction::Stop)
        } else if flow.in_globalchat {
            (done, MessageAction::RelayToGlobalChat)
        } else {
            (MessageFlow { stage: MessageStage::AwaitSnsPost, ..flow }, MessageAction::PostToSns)
        },
        (MessageStage::AwaitSnsPost, MessageEvent::SnsPostTried(posted)) => if posted {
            (done, MessageAction::Posted)
        } else if flow.has_apple {
            (done, MessageAction::ReplyGreenApple)
        } else {
            (MessageFlow { stage: MessageStage::AwaitMention, ..flow }, MessageAction::CheckMention)
        },
        (MessageStage::AwaitMention, MessageEvent::MentionChecked(mentioned)) => if mentioned {
            (done, MessageAction::ReplyCalled)
        } else {
            (done, MessageAction::Stop)
        },
        _ => (done, MessageAction::Stop),
    }
}

/// Starts handling a new message: messages of bots are ignored; otherwise the
/// author's mute status is asked for. Whether the message lies in a global
/// chat channel and whether it holds a red apple are read here.
pub fn message_start<W>(
    from_bot: bool,
    globalchat: Option<&GlobalChat<W>>,
    guild: Option<u64>,
    channel: u64,
    content: &str,
) -> (res: (MessageFlow, MessageAction))
    ensures
        res == message_start_spec(
            from_bot,
            guild matches Some(g) && globalchat matches Some(gc) && is_linked(gc.links(), g, channel),
            content@.contains('🍎'),
        ),
{
    let in_globalchat = match (globalchat, guild) {
        (Some(gc), Some(g)) => gc.is_globalchat(g, channel),
        _ => false,
    };
    let has_apple = contains_char(content, '🍎');
    if from_bot {
        (MessageFlow { stage: MessageStage::Finished, in_globalchat, has_apple }, MessageAction::Stop)
    } else {
        (
            MessageFlow { stage: MessageStage::AwaitMuted, in_globalchat, has_apple },
            MessageAction::CheckMuted,
        )
    }
}

/// Advances the handling of a message with what the caller learnt. An answer
/// that does not fit the stage ends the handling.
pub fn message_step(flow: MessageFlow, event: MessageEvent) -> (res: (MessageFlow, MessageAction))
    ensures
        res == message_step_spec(flow, event),
{
    let done = MessageFlow { stage: MessageStage::Finished, ..flow };
    match (flow.stage, event) {
        (MessageStage::AwaitMuted, MessageEvent::MutedChecked(muted)) => if muted {
            (done, MessageAction::Stop)
        } else if flow.in_globalchat {
            (done, MessageAction::RelayToGlobalChat)
        } else {
            (MessageFlow { stage: MessageStage::AwaitSnsPost, ..flow }, MessageAction::PostToSns)
        },
        (MessageStage::AwaitSnsPost, MessageEvent::SnsPostTried(posted)) => if posted {
            (done, MessageAction::Posted)
        } else if flow.has_apple {
            (done, MessageAction::ReplyGreenApple)
        } else {
            (MessageFlow { stage: MessageStage::AwaitMention, ..flow }, MessageAction::CheckMention)
        },
        (MessageStage::AwaitMention, MessageEvent::MentionChecked(mentioned)) => if mentioned {
            (done, MessageAction::ReplyCalled)
        } else {
            (done, MessageAction::Stop)
        },
        _ => (done, MessageAction::Stop),
    }
}

/// What becomes of a message, given everything that is learnt while it is
/// handled.
#[derive(Clone, Copy, Debug, PartialEq, Eq)]
pub enum MessageOutcome {
    Ignored,
    Relayed,
    PostedToSns,
    GreenApple,
    AnsweredMention,
}

/// The end of a message's handling: bots and muted users are ignored, global
/// chat messages are relayed, then the message goes to the SNS services; if
/// that posts nothing, a red apple gets a green one, and a mention of the bot
/// gets an answer.
pub open spec fn message_outcome(
    from_bot: bool,
    muted: bool,
    in_globalchat: bool,
    posted: bool,
    has_apple: bool,
    mentioned: bool,
) -> MessageOutcome {
    if from_bot || muted {
        MessageOutcome::Ignored
    } else if in_globalchat {
        MessageOutcome::Relayed
    } else if posted {
        MessageOutcome::PostedToSns
    } else if has_apple {
        MessageOutcome::GreenApple
    } else if mentioned {
        MessageOutcome::AnsweredMention
    } else {
        MessageOutcome::Ignored
    }
}

/// The outcome an action ends the handling with, if it ends it.
pub open spec fn final_outcome(action: MessageAction) -> Option<MessageOutcome> {
    match action {
        MessageAction::Stop => Some(MessageOutcome::Ignored),
        MessageAction::RelayToGlobalChat => Some(MessageOutcome::Relayed),
        MessageAction::Posted => Some(MessageOutcome::PostedToSns),
        MessageAction::ReplyGreenApple => Some(MessageOutcome::GreenApple),
        MessageAction::ReplyCalled => Some(MessageOutcome::AnsweredMention),
        _ => None,
    }
}

/// The answer a caller gives to an action, from what it learns.
pub open spec fn answer(action: MessageAction, muted: bool, posted: bool, mentioned: bool) -> MessageEvent {
    match action {
        MessageAction::CheckMuted => MessageEvent::MutedChecked(muted),
        MessageAction::PostToSns => MessageEvent::SnsPostTried(posted),
        _ => MessageEvent::MentionChecked(mentioned),
    }
}

/// Runs the handling from `flow` and `action`, answering every question with
/// the given facts, for at most `fuel` steps; the outcome it ends with.
pub open spec fn run_message_flow(
    flow: MessageFlow,
    action: MessageAction,
    muted: bool,
    posted: bool,
    mentioned: bool,
    fuel: nat,
) -> Option<MessageOutcome>
    decreases fuel,
{
    match final_outcome(action) {
        Some(o) => Some(o),
        None => if fuel == 0 {
            None
        } else {
            let (f2, a2) = message_step_spec(flow, answer(action, muted, posted, mentioned));
            run_message_flow(f2, a2, muted, posted, mentioned, (fuel - 1) as nat)
        },
    }
}

/// Handling a message, answering each question with the facts the caller
/// learns, ends within three answers with the outcome that `message_outcome`
/// gives for those facts.
pub proof fn law_message_flow_outcome(
    from_bot: bool,
    muted: bool,
    in_globalchat: bool,
    posted: bool,
    has_apple: bool,
    mentioned: bool,
)
    ensures
        ({
            let (f, a) = message_start_spec(from_bot, in_globalchat, has_apple);
            run_message_flow(f, a, muted, posted, mentioned, 3) == Some(
                message_outcome(from_bot, muted, in_globalchat, posted, has_apple, mentioned),
            )
        }),
{
    reveal_with_fuel(run_message_flow, 4);
}

/// The rules of a message's handling: messages of bots and of muted users
/// are ignored whatever they hold; a global chat message of anyone else is
/// relayed and goes nowhere else; a message is answered with a green apple or
/// a reply to a mention only when it went to no SNS service; and a mention is
/// answered only when there is no red apple to answer.
pub proof fn law_message_outcome_rules(
    from_bot: bool,
    muted: bool,
    in_globalchat: bool,
    posted: bool,
    has_apple: bool,
    mentioned: bool,
)
    ensures
        ({
            let o = message_outcome(from_bot, muted, in_globalchat, posted, has_apple, mentioned);
            &&& (from_bot || muted) ==> o == MessageOutcome::Ignored
            &&& (!from_bot && !muted && in_globalchat) ==> o == MessageOutcome::Relayed
            &&& o == MessageOutcome::PostedToSns ==> posted && !in_globalchat
            &&& (!from_bot && !muted && !in_globalchat && posted) ==> o == MessageOutcome::PostedToSns
            &&& o == MessageOutcome::GreenApple <==> (!from_bot && !muted && !in_globalchat && !posted
                && has_apple)
            &&& o == MessageOutcome::AnsweredMention <==> (!from_bot && !muted && !in_globalchat
                && !posted && !has_apple && mentioned)
        }),
{
}

/// What a channel event does to the global chat.
#[derive(Clone, Copy, Debug, PartialEq, Eq)]
pub enum ChannelChange {
    /// Link the channel's server through this channel.
    Link,
    /// Unlink the channel's server.
    Unlink,
    Nothing,
}

/// A new channel that bears the global chat's name is linked.
pub fn on_channel_create<W>(globalchat: &GlobalChat<W>, name: &str) -> (res: ChannelChange)
    ensures
        res == (if name@ == globalchat.channel_name() {
            ChannelChange::Link
        } else {
            ChannelChange::Nothing
        }),
{
    if globalchat.is_globalchat_name(name) {
        ChannelChange::Link
    } else {
        ChannelChange::Nothing
    }
}

/// Deleting a server's global chat channel unlinks the server.
pub fn on_channel_delete<W>(globalchat: &GlobalChat<W>, guild: u64, channel: u64) -> (res:
    ChannelChange)
    ensures
        res == (if is_linked(globalchat.links(), guild, channel) {
            ChannelChange::Unlink
        } else {
            ChannelChange::Nothing
        }),
{
    if globalchat.is_globalchat(guild, channel) {
        ChannelChange::Unlink
    } else {
        ChannelChange::Nothing
    }
}

/// A global chat channel renamed to something else unlinks its server; any
/// channel renamed to the global chat's name links it.
pub fn on_channel_update<W>(globalchat: &GlobalChat<W>, guild: u64, channel: u64, name: &str) -> (res:
    ChannelChange)
    ensures
        res == (if is_linked(globalchat.links(), guild, channel) && name@ != globalchat.channel_name() {
            ChannelChange::Unlink
        } else if name@ == globalchat.channel_name() {
            ChannelChange::Link
        } else {
            ChannelChange::Nothing
        }),
{
    let is_name = globalchat.is_globalchat_name(name);
    if globalchat.is_globalchat(guild, channel) && !is_name {
        ChannelChange::Unlink
    } else if is_name {
        ChannelChange::Link
    } else {
        ChannelChange::Nothing
    }
}

/// What a member leaving a server leads to.
#[derive(Clone, Copy, Debug, PartialEq, Eq)]
pub enum MemberRemoval {
    /// The bot itself left: forget the server's settings and newcomers.
    ForgetGuild,
    /// Someone else left: say so and forget them as a newcomer.
    Farewell,
}

pub fn on_member_removal(user: u64, bot: u64) -> (res: MemberRemoval)
    ensures
        res == (if user == bot {
            MemberRemoval::ForgetGuild
        } else {
            MemberRemoval::Farewell
        }),
{
    if user == bot {
        MemberRemoval::ForgetGuild
    } else {
        MemberRemoval::Farewell
    }
}

/// The notice of a member leaving: their mention and their tag.
pub open spec fn farewell_spec(user: u64, tag: Seq<char>) -> Seq<char> {
    user_mention_spec(user) + "("@ + tag + ")が退出しました"@
}

pub fn farewell_text(user: u64, tag: &str) -> (res: String)
    ensures
        res@ == farewell_spec(user, tag@),
{
    let mut s = String::new();
    push_user_mention(&mut s, user);
    s.append("(");
    s.append(tag);
    s.append(")が退出しました");
    assert(s@ =~= farewell_spec(user, tag@));
    s
}

/// Whether an edited message is backed up, given the edit times of the cached
/// old version and of the new one (`None` where that version is not known;
/// the inner `None` where it was never edited). Only a change of the edit time
/// counts: Discord also updates a message when it adds a link preview.
pub fn edit_needs_backup(old_edited: Option<Option<i128>>, new_edited: Option<Option<i128>>) -> (res:
    bool)
    ensures
        res == (old_edited is Some && new_edited is Some && old_edited != new_edited),
{
    match (old_edited, new_edited) {
        (Some(o), Some(n)) => match (o, n) {
            (Some(a), Some(b)) => a != b,
            (None, None) => false,
            _ => true,
        },
        _ => false,
    }
}

} // verus!
