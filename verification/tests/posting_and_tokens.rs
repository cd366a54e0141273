use reimu_bot::attachment::Attachment;
use reimu_bot::config::{ConversionError, GuildConfig, GuildConfigRow, NewMember, NewMemberRow};
use reimu_bot::mastodon::{
    login_service_plan, mastodon_api_base, mastodon_oauth_urls, media_choice, media_poll_step,
    toot_text, twitter_oauth_urls, MediaPoll, MEDIA_POLL_TRIES,
};
use reimu_bot::sns_post::{choose_client, ClientSource, Token, TokenError};
use reimu_bot::text::chars_of;
use reimu_bot::time::{
    expiry_at, lifetime_fits, oauth_state_expiry, oauth_state_expiry_at,
    ExpiryError, Lifetime, UnixTime, DATETIME_MAX_TIMESTAMP, TIMEDELTA_MAX_NANOS,
    TIMEDELTA_MAX_SECS,
};
use reimu_bot::twitter::{
    append_attachment_links, cut, cut_valid_part, decode_utf16_range, encode_utf16, tweet_text,
    TWEET_INPUT_MAX,
};

fn s(x: &str) -> String {
    x.to_string()
}

fn lt(secs: u64, nanos: u32) -> Lifetime {
    Lifetime { secs, nanos }
}

#[test]
fn expiry_arithmetic() {
    let now = UnixTime { secs: 1_700_000_000, nanos: 600_000_000 };
    assert_eq!(expiry_at(now, lt(3600, 0)), Ok(1_700_003_600));
    assert_eq!(expiry_at(now, lt(3600, 400_000_000)), Ok(1_700_003_601));
    assert_eq!(expiry_at(now, lt(3600, 399_999_999)), Ok(1_700_003_600));
    assert_eq!(
        expiry_at(now, lt(TIMEDELTA_MAX_SECS + 1, 0)),
        Err(ExpiryError::LifetimeOutOfRange)
    );
    assert!(lifetime_fits(lt(TIMEDELTA_MAX_SECS, TIMEDELTA_MAX_NANOS)));
    assert!(!lifetime_fits(lt(TIMEDELTA_MAX_SECS, TIMEDELTA_MAX_NANOS + 1)));
    assert_eq!(oauth_state_expiry_at(1000), 1180);
}

#[test]
fn expiry_matches_chrono() {
    let now = chrono::DateTime::from_timestamp(1_700_000_000, 700_000_000).unwrap();
    for (secs, nanos) in [(0u64, 0u32), (59, 300_000_000), (7200, 299_999_999), (86400, 999_999_999)] {
        let d = std::time::Duration::new(secs, nanos);
        let expected = (now + chrono::Duration::from_std(d).unwrap()).timestamp();
        let t = UnixTime { secs: now.timestamp(), nanos: now.timestamp_subsec_nanos() };
        assert_eq!(expiry_at(t, lt(secs, nanos)), Ok(expected));
    }
}

#[test]
fn clock_based_expiries() {
    let before = chrono::Local::now().timestamp();
    let t = reimu_bot::time::current_timestamp();
    assert!(t >= before && t <= DATETIME_MAX_TIMESTAMP);
    let mut token = Token { refresh: None, bearer: s("b"), expires: Some(5) };
    token.set_expires(lt(60, 0)).unwrap();
    assert!(token.expires.unwrap() >= before + 60);
    assert_eq!(token.set_expires(lt(u64::MAX, 0)), Err(TokenError::LifetimeOutOfRange));
    assert_eq!(token.set_expires(lt(TIMEDELTA_MAX_SECS, 0)), Err(TokenError::ExpiryOutOfRange));
    assert!(token.expires.unwrap() >= before + 60);
    let o = oauth_state_expiry();
    assert!(o >= before + 180);
}

#[test]
fn tokens() {
    let now = UnixTime { secs: 1000, nanos: 0 };
    let t = Token::new_at(Some(s("r")), s("b"), Some(lt(60, 0)), now).unwrap();
    assert_eq!(t.refresh.as_deref(), Some("r"));
    assert_eq!(t.bearer, "b");
    assert_eq!(t.expires, Some(1060));
    let t2 = Token::new_at(None, s("b"), None, now).unwrap();
    assert_eq!(t2.expires, None);
    assert_eq!(
        Token::new_at(None, s("b"), Some(lt(u64::MAX, 0)), now).err(),
        Some(TokenError::LifetimeOutOfRange)
    );
    let fresh = Token::new(Some(s("r")), s("b"), Some(lt(3600, 0))).unwrap();
    assert!(fresh.expires.unwrap() >= chrono::Local::now().timestamp() + 3599);
    assert_eq!(Token::new(None, s("b"), None).unwrap().expires, None);
    assert_eq!(
        Token::new(None, s("b"), Some(lt(TIMEDELTA_MAX_SECS, 0))).err(),
        Some(TokenError::ExpiryOutOfRange)
    );
    let two_hours = Token::new_at(Some(s("r")), s("b"), Some(lt(7200, 0)), now).unwrap();
    assert_eq!(two_hours.expires, Some(8200));
    let last = UnixTime { secs: DATETIME_MAX_TIMESTAMP - 10, nanos: 500_000_000 };
    assert_eq!(
        Token::new_at(None, s("b"), Some(lt(10, 499_999_999)), last).unwrap().expires,
        Some(DATETIME_MAX_TIMESTAMP)
    );
    assert_eq!(
        Token::new_at(None, s("b"), Some(lt(10, 500_000_000)), last).err(),
        Some(TokenError::ExpiryOutOfRange)
    );
    assert_eq!(expiry_at(last, lt(11, 0)), Err(ExpiryError::ExpiryOutOfRange));
    let mut kept = Token { refresh: Some(s("r")), bearer: s("b"), expires: Some(3) };
    assert_eq!(kept.set_expires_at(lt(11, 0), last), Err(TokenError::ExpiryOutOfRange));
    assert_eq!(kept.expires, Some(3));
    assert_eq!(
        kept.apply_refresh_at(s("b2"), None, Some(lt(11, 0)), last),
        Err(TokenError::ExpiryOutOfRange)
    );
    assert_eq!((kept.bearer.as_str(), kept.expires), ("b2", Some(3)));
    let mut t3 = Token::new_at(None, s("b"), None, now).unwrap();
    t3.set_expires_at(lt(10, 0), now).unwrap();
    assert_eq!(t3.expires, Some(1010));
}

#[test]
fn refresh_plans() {
    let t = Token { refresh: Some(s("r")), bearer: s("b"), expires: Some(100) };
    assert_eq!(t.refresh_plan_at(100), Ok(None));
    assert_eq!(t.refresh_plan_at(101), Ok(Some(s("r"))));
    let no_expiry = Token { refresh: None, bearer: s("b"), expires: None };
    assert_eq!(no_expiry.refresh_plan_at(i64::MAX), Ok(None));
    assert_eq!(no_expiry.refresh_plan(), Ok(None));
    let broken = Token { refresh: None, bearer: s("b"), expires: Some(i64::MAX) };
    assert_eq!(broken.refresh_plan_at(0), Err(TokenError::MissingRefreshToken));
    assert_eq!(broken.refresh_plan(), Err(TokenError::MissingRefreshToken));
    let expired = Token { refresh: Some(s("r")), bearer: s("b"), expires: Some(0) };
    assert_eq!(expired.refresh_plan(), Ok(Some(s("r"))));
}

#[test]
fn refreshing_keeps_the_old_refresh_token_when_none_comes() {
    let now = UnixTime { secs: 5000, nanos: 0 };
    let mut t = Token { refresh: Some(s("r1")), bearer: s("b1"), expires: Some(100) };
    t.apply_refresh_at(s("b2"), None, Some(lt(60, 0)), now).unwrap();
    assert_eq!((t.refresh.as_deref(), t.bearer.as_str(), t.expires), (Some("r1"), "b2", Some(5060)));
    assert_eq!(t.refresh_plan_at(5060), Ok(None));
    t.apply_refresh_at(s("b3"), Some(s("r2")), None, now).unwrap();
    assert_eq!((t.refresh.as_deref(), t.bearer.as_str(), t.expires), (Some("r2"), "b3", None));
    assert_eq!(
        t.apply_refresh_at(s("b4"), None, Some(lt(u64::MAX, 0)), now),
        Err(TokenError::LifetimeOutOfRange)
    );
    let mut u = Token { refresh: Some(s("r")), bearer: s("b"), expires: Some(1) };
    u.apply_refresh(s("c"), None, Some(lt(100, 0))).unwrap();
    assert_eq!(u.bearer, "c");
    assert!(u.expires.unwrap() > 1);
}

#[test]
fn clock_based_refreshes() {
    let before = chrono::Local::now().timestamp();
    let later = Token { refresh: Some(s("r")), bearer: s("b"), expires: Some(i64::MAX) };
    assert_eq!(later.refresh_plan(), Ok(None));
    let just_past = Token { refresh: Some(s("r")), bearer: s("b"), expires: Some(before - 1) };
    assert_eq!(just_past.refresh_plan(), Ok(Some(s("r"))));
    let mut t = Token { refresh: Some(s("r")), bearer: s("b"), expires: Some(7) };
    assert_eq!(
        t.apply_refresh(s("b2"), Some(s("r2")), Some(lt(TIMEDELTA_MAX_SECS, 0))),
        Err(TokenError::ExpiryOutOfRange)
    );
    assert_eq!((t.refresh.as_deref(), t.bearer.as_str(), t.expires), (Some("r2"), "b2", Some(7)));
    assert_eq!(
        t.apply_refresh(s("b3"), None, Some(lt(u64::MAX, 0))),
        Err(TokenError::LifetimeOutOfRange)
    );
    assert_eq!((t.refresh.as_deref(), t.bearer.as_str(), t.expires), (Some("r2"), "b3", Some(7)));
    t.apply_refresh(s("b4"), None, None).unwrap();
    assert_eq!(t.expires, None);
    t.apply_refresh(s("b5"), None, Some(lt(30, 0))).unwrap();
    assert!(t.expires.unwrap() >= before + 30);
}

#[test]
fn processed_uploads_are_asked_about_ten_times_at_most() {
    assert_eq!(media_poll_step(1, true), MediaPoll::Record);
    assert_eq!(media_poll_step(10, true), MediaPoll::Record);
    assert_eq!(media_poll_step(1, false), MediaPoll::WaitAndAsk);
    assert_eq!(media_poll_step(9, false), MediaPoll::WaitAndAsk);
    assert_eq!(media_poll_step(MEDIA_POLL_TRIES, false), MediaPoll::WaitAndGiveUp);
    let mut asked = 0;
    loop {
        asked += 1;
        if media_poll_step(asked, false) != MediaPoll::WaitAndAsk {
            break;
        }
    }
    assert_eq!(asked, 10);
}

#[test]
fn login_clients() {
    assert!(matches!(choose_client("Twitter", true, None, None), Some(ClientSource::Twitter)));
    assert!(choose_client("Twitter", false, None, None).is_none());
    match choose_client("Mastodon", false, Some(s("id")), Some(s("secret"))) {
        Some(ClientSource::Mastodon { client_id, client_secret }) => {
            assert_eq!((client_id.as_str(), client_secret.as_str()), ("id", "secret"))
        }
        _ => panic!("expected a Mastodon client"),
    }
    assert!(choose_client("Mastodon", true, Some(s("id")), None).is_none());
    assert!(choose_client("Misskey", true, Some(s("id")), Some(s("s"))).is_none());
}

#[test]
fn toots() {
    assert_eq!(toot_text("  hello \n"), "hello");
    let long: String = std::iter::repeat('あ').take(600).collect();
    let t = toot_text(&format!(" {} ", long));
    assert_eq!(t.chars().count(), 500);
    assert!(t.chars().all(|c| c == 'あ'));
    assert_eq!(toot_text(""), "");
}

fn typed(ct: Option<&str>) -> Attachment {
    Attachment {
        url: s("u"),
        proxy_url: s("p"),
        content_type: ct.map(s),
        width: None,
        height: None,
    }
}

#[test]
fn media_for_toots() {
    let img = || typed(Some("image/png"));
    assert_eq!(media_choice(&vec![img(), typed(Some("video/mp4")), img()]), vec![0, 2]);
    assert_eq!(
        media_choice(&vec![img(), img(), typed(None), img(), img(), img()]),
        vec![0, 1, 3, 4]
    );
    assert_eq!(
        media_choice(&vec![typed(Some("text/plain")), typed(Some("audio/ogg")), img()]),
        vec![1]
    );
    assert_eq!(media_choice(&vec![typed(None), typed(Some("text/plain"))]), Vec::<usize>::new());
    assert_eq!(media_choice(&vec![]), Vec::<usize>::new());
}

#[test]
fn oauth_endpoints() {
    let m = mastodon_oauth_urls("bot.example", "mstdn.jp");
    assert_eq!(m.authorize, "https://mstdn.jp/oauth/authorize");
    assert_eq!(m.token, "https://mstdn.jp/oauth/token");
    assert_eq!(m.revoke, "https://mstdn.jp/oauth/revoke");
    assert_eq!(m.redirect, "https://bot.example/oauth");
    let t = twitter_oauth_urls("bot.example");
    assert_eq!(t.authorize, "https://twitter.com/i/oauth2/authorize");
    assert_eq!(t.token, "https://api.twitter.com/2/oauth2/token");
    assert_eq!(t.revoke, "https://api.twitter.com/2/oauth2/revoke");
    assert_eq!(t.redirect, "https://bot.example/oauth");
    assert_eq!(mastodon_api_base("mstdn.jp"), "https://mstdn.jp");
    assert_eq!(login_service_plan(true, true, true), (true, true));
    assert_eq!(login_service_plan(true, true, false), (true, false));
    assert_eq!(login_service_plan(true, false, true), (false, false));
}

#[test]
fn utf16_round_trip() {
    let text = "a😀bé";
    let units = encode_utf16(&chars_of(text));
    let expected: Vec<u16> = text.encode_utf16().collect();
    assert_eq!(units, expected);
    let back: String = decode_utf16_range(&units, 0, units.len()).into_iter().collect();
    assert_eq!(back, text);
    // Cutting inside the surrogate pair drops the lone half.
    let cut_pair: String = decode_utf16_range(&units, 0, 2).into_iter().collect();
    assert_eq!(cut_pair, "a");
    assert_eq!(cut_valid_part("a😀bé", 0, 3), "a😀b");
}

#[test]
fn tweets_are_cut_where_twitter_text_says() {
    assert_eq!(cut("hello world", None), Some((11, s("hello world"))));
    assert_eq!(cut("", None), None);
    let long: String = std::iter::repeat('a').take(300).collect();
    let (len, text) = cut(&long, None).unwrap();
    assert_eq!(len, 300);
    assert_eq!(text.len(), 280);
    let (_, with_link) = cut(&long, Some("https://mstdn.jp/@bot/1")).unwrap();
    assert!(with_link.starts_with("全文: https://mstdn.jp/@bot/1\naaa"));
    assert!(with_link.chars().count() < 300);
    let (_, short) = cut("short", Some("https://mstdn.jp/@bot/1")).unwrap();
    assert_eq!(short, "short");
}

#[test]
fn texts_longer_than_measured_are_not_cut_with_a_link() {
    let long: String = std::iter::repeat('a').take(300).collect();
    let far_url = format!("https://mstdn.jp/{}", "x".repeat(TWEET_INPUT_MAX));
    assert_eq!(cut(&long, Some(far_url.as_str())), None);
    assert_eq!(tweet_text(&long, Some(far_url.as_str()), &vec![]), None);
    let (len, text) = cut(&long, None).unwrap();
    assert_eq!((len, text.chars().count()), (300, 280));
}

#[test]
fn attachment_links_fit_in_the_tweet() {
    let urls = vec![s("https://a/1"), s("https://a/2"), s("https://a/3")];
    let (len, text) = append_attachment_links(200, s("t"), &urls, 23);
    assert_eq!(len, 272);
    assert_eq!(text, "t\nhttps://a/1\nhttps://a/2\nhttps://a/3");
    let (len, text) = append_attachment_links(240, s("t"), &urls, 23);
    assert_eq!(len, 312);
    assert_eq!(text, "t\nhttps://a/1");
    let (_, none) = append_attachment_links(281, s("t"), &urls, 23);
    assert_eq!(none, "t");
    assert_eq!(
        tweet_text("  hi  ", None, &vec![s("https://cdn/x.png")]),
        Some(s("hi\nhttps://cdn/x.png"))
    );
    // A link weighs 23 and its line break 1: after 256 characters one still fits.
    let fits: String = std::iter::repeat('a').take(256).collect();
    assert_eq!(
        tweet_text(&fits, None, &vec![s("https://cdn/x.png")]),
        Some(format!("{}\nhttps://cdn/x.png", fits))
    );
    let too_long: String = std::iter::repeat('a').take(257).collect();
    assert_eq!(tweet_text(&too_long, None, &vec![s("https://cdn/x.png")]), Some(too_long.clone()));
}

#[test]
fn guild_config_rows() {
    let c = GuildConfig::new(7);
    assert_eq!(c.member_manager_lockdowned, false);
    assert_eq!(c.member_manager_memberrole, None);
    let c2 = GuildConfig { member_manager_memberrole: Some(9), member_manager_kickable: Some(3), ..c };
    let row = c2.to_row();
    assert_eq!(row.member_manager_memberrole, Some(9));
    assert_eq!(GuildConfig::from_row(&row), c2);
    let r = GuildConfigRow {
        guild: 1,
        member_manager_lockdowned: true,
        member_manager_allowlockdown: Some(2),
        member_manager_memberrole: None,
        member_manager_kickable: None,
    };
    assert_eq!(GuildConfig::from_row(&r).to_row(), r);
}

#[test]
fn new_member_rows() {
    let m = NewMember::new_at(1, 2, 1_700_000_000);
    let row = m.to_row().unwrap();
    assert_eq!(row, NewMemberRow { guild: 1, user: 2, jointime: 1_700_000_000 });
    assert_eq!(NewMember::from_row(&row), Ok(m));
    assert_eq!(NewMember::new_at(1, 2, -1).to_row(), Err(ConversionError::JoinTimeOutOfRange));
    assert_eq!(
        NewMember::from_row(&NewMemberRow { guild: 1, user: 2, jointime: u64::MAX }),
        Err(ConversionError::JoinTimeOutOfRange)
    );
    let joined = NewMember::new(3, 4);
    assert_eq!((joined.guild, joined.user), (3, 4));
    assert!(joined.jointime >= 1_700_000_000);
}
