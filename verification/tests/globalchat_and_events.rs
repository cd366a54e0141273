use reimu_bot::attachment::{picture_urls, Attachment};
use reimu_bot::backup::{
    backup_action, backup_author, backup_channel, backup_channel_name, backup_color,
    backup_details, backup_embeds, backup_suffix, history_channel, history_channel_name,
    BackupChannel, BackupKind,
};
use reimu_bot::globalchat::{
    collect_start, collect_step, first_named, next_named, own_webhook_index, relay_username,
    stale_webhook, CollectAction, CollectEvent, GlobalChat, Link,
};
use reimu_bot::listener::{
    command_allowed, edit_needs_backup, farewell_text, message_start, message_step,
    muted_from_lookup, on_channel_create, on_channel_delete, on_channel_update,
    on_member_removal, reply_text, ChannelChange, MemberRemoval, MessageAction, MessageEvent,
    MessageOutcome,
};

fn s(x: &str) -> String {
    x.to_string()
}

fn chat() -> GlobalChat<&'static str> {
    let mut gc = GlobalChat::new(s("global"));
    assert!(gc.set_channel(1, 10, 100, "hook-1").is_none());
    assert!(gc.set_channel(2, 20, 200, "hook-2").is_none());
    assert!(gc.set_channel(3, 30, 300, "hook-3").is_none());
    gc
}

#[test]
fn registry_links_and_unlinks() {
    let mut gc = chat();
    assert_eq!(gc.name(), "global");
    assert!(gc.is_globalchat(1, 10));
    assert!(!gc.is_globalchat(1, 20));
    assert!(!gc.is_globalchat(4, 10));
    assert_eq!(gc.webhook(2), Some(&"hook-2"));
    assert_eq!(gc.webhook(4), None);

    let old = gc.set_channel(1, 11, 101, "hook-1b").unwrap();
    assert_eq!((old.channel, old.webhook_id, old.webhook), (10, 100, "hook-1"));
    assert!(gc.is_globalchat(1, 11));
    assert!(!gc.is_globalchat(1, 10));
    assert!(gc.is_globalchat(2, 20));

    let removed = gc.unset_channel(1).unwrap();
    assert_eq!(removed.webhook, "hook-1b");
    assert!(!gc.is_globalchat(1, 11));
    assert!(gc.unset_channel(1).is_none());
    assert!(gc.is_globalchat(3, 30));

    gc.clear();
    assert!(!gc.is_globalchat(2, 20));
    assert_eq!(gc.name(), "global");
}

#[test]
fn relaying_skips_the_origin() {
    let gc = chat();
    let mut targets = gc.relay_targets(20);
    targets.sort();
    assert_eq!(targets, vec![1, 3]);
    let mut all = gc.relay_targets(999);
    all.sort();
    assert_eq!(all, vec![1, 2, 3]);
    let empty: GlobalChat<()> = GlobalChat::new(s("g"));
    assert!(empty.relay_targets(1).is_empty());
}

#[test]
fn stale_webhooks_are_the_replaced_ones() {
    let old = Link { channel: 1, webhook_id: 5, webhook: "old" };
    assert_eq!(stale_webhook(Some(old), 6), Some("old"));
    let same = Link { channel: 1, webhook_id: 5, webhook: "old" };
    assert_eq!(stale_webhook(Some(same), 5), None);
    assert_eq!(stale_webhook::<&str>(None, 5), None);
}

#[test]
fn own_webhook_and_named_channels() {
    assert_eq!(own_webhook_index(&vec![None, Some(3), Some(7), Some(7)], 7), Some(2));
    assert_eq!(own_webhook_index(&vec![None, Some(3)], 7), None);
    assert_eq!(first_named(&vec![s("a"), s("global"), s("global")], "global"), Some(1));
    assert_eq!(first_named(&vec![s("a")], "global"), None);
    assert_eq!(relay_username("user#0001", "サーバー"), "user#0001@サーバー");
}

#[test]
fn collecting_a_servers_global_chat_channel() {
    let names = vec![s("general"), s("global"), s("memes"), s("global"), s("global")];
    assert_eq!(next_named(&names, "global", 2), Some(3));
    assert_eq!(next_named(&names, "global", 5), None);
    assert!(matches!(collect_start(&names, "global"), CollectAction::ListWebhooks { channel: 1 }));
    assert!(matches!(collect_start(&names, "other"), CollectAction::Finished));
    assert!(matches!(
        collect_step(&names, "global", 7, 1, CollectEvent::WebhooksListed(None)),
        CollectAction::ListWebhooks { channel: 3 }
    ));
    assert!(matches!(
        collect_step(&names, "global", 7, 4, CollectEvent::WebhooksListed(None)),
        CollectAction::Finished
    ));
    assert!(matches!(
        collect_step(
            &names,
            "global",
            7,
            3,
            CollectEvent::WebhooksListed(Some(vec![None, Some(2), Some(7), Some(7)]))
        ),
        CollectAction::LinkExisting { channel: 3, webhook: 2 }
    ));
    assert!(matches!(
        collect_step(&names, "global", 7, 3, CollectEvent::WebhooksListed(Some(vec![Some(2)]))),
        CollectAction::SetChannel { channel: 3 }
    ));
    assert!(matches!(
        collect_step(&names, "global", 7, 3, CollectEvent::SetChannelDone(false)),
        CollectAction::ListWebhooks { channel: 4 }
    ));
    assert!(matches!(
        collect_step(&names, "global", 7, 1, CollectEvent::SetChannelDone(true)),
        CollectAction::Finished
    ));
}

#[test]
fn commands_are_refused_in_globalchat_and_to_muted_users() {
    let gc = chat();
    assert!(command_allowed(false, Some(&gc), Some(1), 11));
    assert!(!command_allowed(false, Some(&gc), Some(1), 10));
    assert!(!command_allowed(true, Some(&gc), Some(1), 11));
    assert!(command_allowed(false, Some(&gc), None, 10));
    assert!(command_allowed::<()>(false, None, Some(1), 10));
    assert!(muted_from_lookup(Some(true)));
    assert!(!muted_from_lookup(Some(false)));
    assert!(!muted_from_lookup(None));
}

fn run(
    from_bot: bool,
    in_gc: bool,
    content: &str,
    muted: bool,
    posted: bool,
    mentioned: bool,
) -> (MessageOutcome, Vec<MessageAction>) {
    let gc = chat();
    let channel = if in_gc { 10 } else { 11 };
    let (mut flow, mut action) = message_start(from_bot, Some(&gc), Some(1), channel, content);
    let mut seen = vec![action];
    loop {
        let event = match action {
            MessageAction::CheckMuted => MessageEvent::MutedChecked(muted),
            MessageAction::PostToSns => MessageEvent::SnsPostTried(posted),
            MessageAction::CheckMention => MessageEvent::MentionChecked(mentioned),
            MessageAction::Stop => return (MessageOutcome::Ignored, seen),
            MessageAction::RelayToGlobalChat => return (MessageOutcome::Relayed, seen),
            MessageAction::Posted => return (MessageOutcome::PostedToSns, seen),
            MessageAction::ReplyGreenApple => return (MessageOutcome::GreenApple, seen),
            MessageAction::ReplyCalled => return (MessageOutcome::AnsweredMention, seen),
        };
        let next = message_step(flow, event);
        flow = next.0;
        action = next.1;
        seen.push(action);
    }
}

#[test]
fn law_message_flow_outcome_on_examples() {
    assert_eq!(run(true, false, "🍎", false, false, true).0, MessageOutcome::Ignored);
    assert_eq!(run(false, false, "hi", true, false, true).0, MessageOutcome::Ignored);
    assert_eq!(run(false, true, "hi", false, true, true).0, MessageOutcome::Relayed);
    assert_eq!(run(false, false, "🍎", false, true, true).0, MessageOutcome::PostedToSns);
    assert_eq!(run(false, false, "りんご🍎", false, false, true).0, MessageOutcome::GreenApple);
    assert_eq!(run(false, false, "hey", false, false, true).0, MessageOutcome::AnsweredMention);
    assert_eq!(run(false, false, "hey", false, false, false).0, MessageOutcome::Ignored);
    let (_, steps) = run(false, false, "hey", false, false, true);
    assert_eq!(
        steps,
        vec![
            MessageAction::CheckMuted,
            MessageAction::PostToSns,
            MessageAction::CheckMention,
            MessageAction::ReplyCalled
        ]
    );
    assert_eq!(reply_text(MessageAction::ReplyGreenApple), Some("🍏"));
    assert_eq!(reply_text(MessageAction::ReplyCalled), Some("呼んだ?"));
    assert_eq!(reply_text(MessageAction::Stop), None);
}

#[test]
fn unexpected_answers_end_the_handling() {
    let gc = chat();
    let (flow, action) = message_start(false, Some(&gc), Some(1), 11, "x");
    assert_eq!(action, MessageAction::CheckMuted);
    let (_, next) = message_step(flow, MessageEvent::MentionChecked(true));
    assert_eq!(next, MessageAction::Stop);
}

#[test]
fn channel_events() {
    let gc = chat();
    assert_eq!(on_channel_create(&gc, "global"), ChannelChange::Link);
    assert_eq!(on_channel_create(&gc, "general"), ChannelChange::Nothing);
    assert_eq!(on_channel_delete(&gc, 1, 10), ChannelChange::Unlink);
    assert_eq!(on_channel_delete(&gc, 1, 11), ChannelChange::Nothing);
    assert_eq!(on_channel_update(&gc, 1, 10, "renamed"), ChannelChange::Unlink);
    assert_eq!(on_channel_update(&gc, 1, 10, "global"), ChannelChange::Link);
    assert_eq!(on_channel_update(&gc, 1, 11, "global"), ChannelChange::Link);
    assert_eq!(on_channel_update(&gc, 1, 11, "other"), ChannelChange::Nothing);
}

#[test]
fn member_removal() {
    assert_eq!(on_member_removal(5, 5), MemberRemoval::ForgetGuild);
    assert_eq!(on_member_removal(6, 5), MemberRemoval::Farewell);
    assert_eq!(farewell_text(42, "taro#0001"), "<@42>(taro#0001)が退出しました");
}

#[test]
fn edits_are_backed_up_when_the_edit_time_changes() {
    assert!(edit_needs_backup(Some(None), Some(Some(5))));
    assert!(edit_needs_backup(Some(Some(4)), Some(Some(5))));
    assert!(!edit_needs_backup(Some(Some(5)), Some(Some(5))));
    assert!(!edit_needs_backup(Some(None), Some(None)));
    assert!(!edit_needs_backup(None, Some(Some(5))));
    assert!(!edit_needs_backup(Some(Some(5)), None));
}

fn att(url: &str, picture: bool, content_type: Option<&str>) -> Attachment {
    Attachment {
        url: s(url),
        proxy_url: format!("proxy/{}", url),
        content_type: content_type.map(s),
        width: if picture { Some(10) } else { None },
        height: if picture { Some(20) } else { None },
    }
}

#[test]
fn backup_texts_and_channels() {
    assert_eq!(backup_action(BackupKind::Deleted), "削除");
    assert_eq!(backup_action(BackupKind::Edited), "編集");
    assert_eq!(backup_color(BackupKind::Deleted), 0xFF0000);
    assert_eq!(backup_color(BackupKind::Edited), 0x00FF00);
    assert_eq!(history_channel_name("削除"), "削除履歴");
    assert_eq!(history_channel(&vec![s("general"), s("削除履歴")], "削除"), Some(1));
    assert_eq!(history_channel(&vec![s("編集履歴")], "削除"), None);
    assert_eq!(backup_suffix(123), "_123");
    assert_eq!(backup_channel_name("サーバー", 123), "サーバー_123");
    let channels = vec![
        BackupChannel { parent: None, name: s("a_123") },
        BackupChannel { parent: Some(9), name: s("a_123") },
        BackupChannel { parent: Some(8), name: s("b_1234") },
        BackupChannel { parent: Some(8), name: s("c_123") },
    ];
    assert_eq!(backup_channel(&channels, 8, 123), Some(3));
    assert_eq!(backup_channel(&channels, 8, 1234), Some(2));
    assert_eq!(backup_channel(&channels, 8, 5), None);
    assert_eq!(backup_author("taro#0001", "削除"), "taro#0001がメッセージを削除しました");
    assert_eq!(
        backup_details("2024年01月02日", "general", 77, 88),
        "メッセージの送信日: 2024年01月02日\n#general(<#77>)\nメッセージID: 88"
    );
}

#[test]
fn backup_embeds_one_per_picture() {
    let none = backup_embeds("text", &vec![att("f.txt", false, Some("text/plain"))]);
    assert_eq!(none.len(), 1);
    assert_eq!(none[0].image, None);
    assert_eq!(none[0].description.as_deref(), Some("text"));
    let two = backup_embeds(
        "text",
        &vec![att("a.png", true, None), att("b.txt", false, None), att("c.png", true, None)],
    );
    assert_eq!(two.len(), 2);
    assert_eq!(two[0].image.as_deref(), Some("proxy/a.png"));
    assert_eq!(two[0].description.as_deref(), Some("text"));
    assert_eq!(two[1].image.as_deref(), Some("proxy/c.png"));
    assert_eq!(two[1].description, None);
    let urls = picture_urls(&vec![att("a.png", true, None), att("b", false, None)], false);
    assert_eq!(urls, vec![s("a.png")]);
}
