use reimu_bot::commands::{
    choice_reaction, login_prompt, mute_list_text, muted_ids, nade, parse_u64, role_arguments,
    role_choices, role_panel_color, role_panel_text,
};
use reimu_bot::failure::{failure_reply, Failure};
use reimu_bot::mention::user_mention;
use reimu_bot::text::{
    chars_of, contains_char, decimal, ends_with, starts_with, str_eq, string_of, trim_chars,
};

fn s(x: &str) -> String {
    x.to_string()
}

#[test]
fn decimal_renders_integers() {
    assert_eq!(decimal(0), "0");
    assert_eq!(decimal(7), "7");
    assert_eq!(decimal(10), "10");
    assert_eq!(decimal(1234567890123), "1234567890123");
    assert_eq!(decimal(u64::MAX), "18446744073709551615");
}

#[test]
fn trimming_follows_unicode_white_space() {
    let t = trim_chars(&chars_of("\u{3000}\t a b \n\u{85}"));
    assert_eq!(string_of(&t), "a b");
    assert_eq!(string_of(&trim_chars(&chars_of("   "))), "");
    assert_eq!(string_of(&trim_chars(&chars_of(""))), "");
    assert_eq!(string_of(&trim_chars(&chars_of("x"))), "x");
    // U+200B ZERO WIDTH SPACE is not White_Space.
    assert_eq!(string_of(&trim_chars(&chars_of("\u{200B}x"))), "\u{200B}x");
}

#[test]
fn prefixes_suffixes_and_equality() {
    assert!(starts_with("image/png", "image/"));
    assert!(!starts_with("imag", "image/"));
    assert!(starts_with("abc", ""));
    assert!(ends_with("general_123", "_123"));
    assert!(!ends_with("general_1234", "_123"));
    assert!(str_eq("グローバル", "グローバル"));
    assert!(!str_eq("a", "ab"));
    assert!(contains_char("りんご🍎です", '🍎'));
    assert!(!contains_char("りんご", '🍎'));
}

#[test]
fn user_mentions() {
    assert_eq!(user_mention(42), "<@42>");
}

#[test]
fn parse_u64_accepts_what_std_accepts() {
    assert_eq!(parse_u64("123"), Some(123));
    assert_eq!(parse_u64("+7"), Some(7));
    assert_eq!(parse_u64("007"), Some(7));
    assert_eq!(parse_u64("18446744073709551615"), Some(u64::MAX));
    assert_eq!(parse_u64("18446744073709551616"), None);
    assert_eq!(parse_u64("99999999999999999999"), None);
    assert_eq!(parse_u64(""), None);
    assert_eq!(parse_u64("+"), None);
    assert_eq!(parse_u64("-0"), None);
    assert_eq!(parse_u64(" 1"), None);
    assert_eq!(parse_u64("12a"), None);
    for text in ["0", "1", "42", "+5", "x", "", "18446744073709551616", "１２"] {
        assert_eq!(parse_u64(text), text.parse::<u64>().ok(), "{}", text);
    }
}

#[test]
fn parse_reads_back_decimal() {
    for id in [0u64, 9, 10, 123456789012345678, u64::MAX] {
        assert_eq!(parse_u64(&decimal(id)), Some(id));
    }
}

#[test]
fn mute_list_lists_readable_rows() {
    let rows = vec![s("1"), s("not an id"), s("+2"), s("300")];
    let ids = muted_ids(&rows);
    assert_eq!(ids, vec![1, 2, 300]);
    assert_eq!(mute_list_text(&ids), "<@1>\n<@2>\n<@300>\n");
    assert_eq!(mute_list_text(&vec![]), "");
}

#[test]
fn nade_colours() {
    let red = "https://media.discordapp.net/attachments/840924639223349250/879655572281106432/index.gif";
    assert_eq!(nade(None), red);
    assert_eq!(nade(Some("red")), red);
    assert_eq!(
        nade(Some("blue")),
        "https://media.discordapp.net/attachments/840924639223349250/879655365522911262/index.gif"
    );
    assert_eq!(nade(Some("gold")), nade(Some("yellow")));
    assert_eq!(
        nade(Some("ukraine")),
        "https://cdn.discordapp.com/attachments/945894119513931846/946312974715469824/index.gif"
    );
    assert_eq!(nade(Some("Red")), "この色はありません");
    assert_eq!(nade(Some("purple")), "この色はありません");
}

#[test]
fn role_arguments_split_after_each_closing_bracket() {
    assert_eq!(role_arguments("<@&1> <@&2>"), vec![s("<@&1>"), s("<@&2>")]);
    assert_eq!(role_arguments("a>b"), vec![s("a>"), s("b")]);
    assert_eq!(role_arguments(" x > "), vec![s("x >"), s("")]);
    assert_eq!(role_arguments(">"), vec![s(">")]);
    assert!(role_arguments("").is_empty());
    for text in ["<@&1> <@&2>", "a>b", " x > ", ">>", "", "abc"] {
        let expected: Vec<String> = text.split_inclusive('>').map(|p| p.trim().to_string()).collect();
        assert_eq!(role_arguments(text), expected, "{}", text);
    }
}

#[test]
fn role_panel() {
    let roles: Vec<u64> = (1..=30).collect();
    let choices = role_choices(&roles);
    assert_eq!(choices.len(), 26);
    assert_eq!(choices[0], ('\u{1F1E6}', 1));
    assert_eq!(choices[25], ('\u{1F1FF}', 26));
    let two = role_choices(&vec![10, 20]);
    assert_eq!(role_panel_text(&two), "🇦: <@&10>\n🇧: <@&20>");
    assert_eq!(role_panel_text(&vec![]), "");
    assert_eq!(role_panel_color(true), 0xFFFF00);
    assert_eq!(role_panel_color(false), 0x00FFFF);
    assert_eq!(choice_reaction('🇦'), "🇦");
}

#[test]
fn login_prompt_text() {
    assert_eq!(login_prompt("https://x/y"), "ここで認証してください:\nhttps://x/y");
}

#[test]
fn failure_replies() {
    assert_eq!(
        failure_reply(&Failure::Command { error: s("boom") }).unwrap(),
        "コマンド実行中にエラーが発生しました:\nboom"
    );
    assert_eq!(
        failure_reply(&Failure::ArgumentParse { error: s("bad") }).unwrap(),
        "コマンドの入力形式に間違いがあるようです:\nbad"
    );
    assert_eq!(
        failure_reply(&Failure::MissingUserPermissions { permissions: Some(s("Kick Members")) })
            .unwrap(),
        "あなたの権限が足りません\n足りない権限: Kick Members"
    );
    assert_eq!(failure_reply(&Failure::MissingUserPermissions { permissions: None }), None);
    assert_eq!(failure_reply(&Failure::NotAnOwner).unwrap(), "このコマンドはBOT管理者専用です");
    assert_eq!(failure_reply(&Failure::GuildOnly).unwrap(), "このコマンドはサーバー専用です");
    assert_eq!(failure_reply(&Failure::DmOnly).unwrap(), "このコマンドはDM専用です");
    assert_eq!(failure_reply(&Failure::NsfwOnly).unwrap(), "このコマンドはNSFWチャンネル専用です");
    assert_eq!(
        failure_reply(&Failure::MissingBotPermissions { missing: s("Send Messages") }).unwrap(),
        "BOTの権限が足りません\n足りない権限: Send Messages"
    );
    assert_eq!(
        failure_reply(&Failure::CommandStructureMismatch { description: s("oops") }).unwrap(),
        "BOTにバグが発生しているようです:\noops"
    );
    assert_eq!(
        failure_reply(&Failure::CooldownHit { remaining_secs: 42 }).unwrap(),
        "42秒後に再試行してください"
    );
    assert_eq!(failure_reply(&Failure::Other), None);
}
