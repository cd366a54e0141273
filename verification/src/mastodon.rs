//! Posting to Mastodon: the text of a toot, which attachments go with it, and
//! the OAuth2 endpoints of a Mastodon server.

use vstd::prelude::*;

use crate::attachment::Attachment;
use crate::text::{chars_of, starts_with, starts_with_spec, string_of, trim_chars, trim_spec};

verus! {

/// The most characters a toot carries.
pub const TOOT_MAX_CHARS: usize = 500usize;

/// The text of a toot: the message trimmed of white space, cut after 500
/// characters.
pub open spec fn toot_text_spec(content: Seq<char>) -> Seq<char> {
    let t = trim_spec(content);
    if t.len() <= 500 {
        t
    } else {
        t.take(500)
    }
}

/// A toot is the beginning of the trimmed message: its first 500 characters,
/// or all of it when it is shorter; nothing is dropped from its start.
pub proof fn law_toot_is_start_of_message(content: Seq<char>)
    ensures
        toot_text_spec(content).len() == if trim_spec(content).len() <= 500 {
            trim_spec(content).len()
        } else {
            500
        },
        forall|i: int|
            0 <= i < toot_text_spec(content).len() ==> #[trigger] toot_text_spec(content)[i]
                == trim_spec(content)[i],
{
}

pub fn toot_text(content: &str) -> (res: String)
    ensures
        res@ == toot_text_spec(content@),
        res@.len() == if trim_spec(content@).len() <= 500 {
            trim_spec(content@).len()
        } else {
            500
        },
        forall|i: int| 0 <= i < res@.len() ==> #[trigger] res@[i] == trim_spec(content@)[i],
{
    let cs = chars_of(content);
    let t = trim_chars(&cs);
    let n: usize = if t.len() <= TOOT_MAX_CHARS {
        t.len()
    } else {
        TOOT_MAX_CHARS
    };
    let mut out: Vec<char> = Vec::new();
    for i in 0..n
        invariant
            n <= t@.len(),
            out@ == t@.take(i as int),
    {
        out.push(t[i]);
        assert(t@.take(i + 1) == t@.take(i as int).push(t@[i as int]));
    }
    assert(t@.take(t@.len() as int) == t@);
    string_of(&out)
}

/// The attachment is a picture by its MIME type.
pub open spec fn is_image_type(a: Attachment) -> bool {
    a.content_type matches Some(t) && starts_with_spec(t@, "image/"@)
}

/// The attachment is a sound or a video by its MIME type.
pub open spec fn is_sound_or_video_type(a: Attachment) -> bool {
    a.content_type matches Some(t) && (starts_with_spec(t@, "audio/"@) || starts_with_spec(
        t@,
        "video/"@,
    ))
}

pub open spec fn is_media(a: Attachment) -> bool {
    is_image_type(a) || is_sound_or_video_type(a)
}

/// The positions of the pictures, in order.
pub open spec fn image_positions(atts: Seq<Attachment>) -> Seq<int>
    decreases atts.len(),
{
    if atts.len() == 0 {
        Seq::empty()
    } else {
        let rest = image_positions(atts.drop_last());
        if is_image_type(atts.last()) {
            rest.push(atts.len() - 1)
        } else {
            rest
        }
    }
}

/// The position of the first picture, sound or video; -1 when there is none.
pub open spec fn first_media(atts: Seq<Attachment>) -> int
    decreases atts.len(),
{
    if atts.len() == 0 {
        -1
    } else {
        let r: int = first_media(atts.drop_last());
        if r >= 0 {
            r
        } else if is_media(atts.last()) {
            atts.len() - 1
        } else {
            -1
        }
    }
}

/// Which attachments go with a toot: what the first picture, sound or video
/// decides. A sound or video goes alone; pictures go up to four, in order.
pub open spec fn media_choice_spec(atts: Seq<Attachment>) -> Seq<int> {
    let f: int = first_media(atts);
    if f < 0 {
        Seq::empty()
    } else if is_image_type(atts[f]) {
        let imgs = image_positions(atts);
        if imgs.len() <= 4 {
            imgs
        } else {
            imgs.take(4)
        }
    } else {
        seq![f]
    }
}

proof fn lemma_first_media_facts(atts: Seq<Attachment>)
    ensures
        -1 <= first_media(atts) < atts.len(),
        first_media(atts) >= 0 ==> is_media(atts[first_media(atts)]),
        forall|k: int|
            0 <= k < atts.len() && (first_media(atts) < 0 || k < first_media(atts)) ==> !is_media(
                #[trigger] atts[k],
            ),
    decreases atts.len(),
{
    if atts.len() > 0 {
        lemma_first_media_facts(atts.drop_last());
        assert forall|k: int|
            0 <= k < atts.len() && (first_media(atts) < 0 || k < first_media(atts)) implies !is_media(
            #[trigger] atts[k],
        ) by {
            if k < atts.len() - 1 {
                assert(atts.drop_last()[k] == atts[k]);
            }
        }
    }
}

proof fn lemma_image_positions_facts(atts: Seq<Attachment>)
    ensures
        forall|k: int|
            0 <= k < image_positions(atts).len() ==> 0 <= #[trigger] image_positions(atts)[k]
                < atts.len() && is_image_type(atts[image_positions(atts)[k]]),
    decreases atts.len(),
{
    if atts.len() > 0 {
        lemma_image_positions_facts(atts.drop_last());
        let rest = image_positions(atts.drop_last());
        assert forall|k: int|
            0 <= k < image_positions(atts).len() implies 0 <= #[trigger] image_positions(atts)[k]
            < atts.len() && is_image_type(atts[image_positions(atts)[k]]) by {
            if k < rest.len() {
                assert(image_positions(atts)[k] == rest[k]);
                assert(atts.drop_last()[rest[k]] == atts[rest[k]]);
            }
        }
    }
}

/// The pictures of a prefix come first among the pictures of the whole.
proof fn lemma_image_positions_prefix(atts: Seq<Attachment>, j: int)
    requires
        0 <= j <= atts.len(),
    ensures
        image_positions(atts.take(j)).len() <= image_positions(atts).len(),
        image_positions(atts).take(image_positions(atts.take(j)).len() as int) == image_positions(
            atts.take(j),
        ),
    decreases atts.len(),
{
    if j == atts.len() {
        assert(atts.take(j) == atts);
    } else {
        lemma_image_positions_prefix(atts.drop_last(), j);
        assert(atts.drop_last().take(j) == atts.take(j));
    }
}

/// The first media of a prefix is the first media of the whole.
proof fn lemma_first_media_prefix(atts: Seq<Attachment>, j: int)
    requires
        0 <= j <= atts.len(),
        first_media(atts.take(j)) >= 0,
    ensures
        first_media(atts) == first_media(atts.take(j)),
    decreases atts.len(),
{
    if j == atts.len() {
        assert(atts.take(j) == atts);
    } else {
        assert(atts.drop_last().take(j) == atts.take(j));
        lemma_first_media_prefix(atts.drop_last(), j);
    }
}

/// A picture anywhere makes the positions of pictures non-empty.
proof fn lemma_image_nonempty(atts: Seq<Attachment>, k: int)
    requires
        0 <= k < atts.len(),
        is_image_type(atts[k]),
    ensures
        image_positions(atts).len() > 0,
    decreases atts.len(),
{
    if k < atts.len() - 1 {
        assert(atts.drop_last()[k] == atts[k]);
        lemma_image_nonempty(atts.drop_last(), k);
    }
}

/// At most four attachments go with a toot, each a picture, sound or video;
/// a sound or a video goes alone.
pub proof fn law_media_choice_shape(atts: Seq<Attachment>)
    ensures
        media_choice_spec(atts).len() <= 4,
        forall|k: int|
            0 <= k < media_choice_spec(atts).len() ==> 0 <= #[trigger] media_choice_spec(atts)[k]
                < atts.len() && is_media(atts[media_choice_spec(atts)[k]]),
        forall|k: int|
            0 <= k < media_choice_spec(atts).len() && !is_image_type(
                atts[#[trigger] media_choice_spec(atts)[k]],
            ) ==> media_choice_spec(atts).len() == 1,
{
    lemma_first_media_facts(atts);
    lemma_image_positions_facts(atts);
    let f: int = first_media(atts);
    let m = media_choice_spec(atts);
    if f >= 0 && is_image_type(atts[f]) {
        let imgs = image_positions(atts);
        assert forall|k: int| 0 <= k < m.len() implies 0 <= #[trigger] m[k] < atts.len() && is_image_type(
            atts[m[k]],
        ) by {
            assert(m[k] == imgs[k]);
        }
    }
}

fn is_image_attachment(a: &Attachment) -> (res: bool)
    ensures
        res == is_image_type(*a),
{
    match &a.content_type {
        Some(t) => starts_with(t.as_str(), "image/"),
        None => false,
    }
}

fn is_sound_or_video_attachment(a: &Attachment) -> (res: bool)
    ensures
        res == is_sound_or_video_type(*a),
{
    match &a.content_type {
        Some(t) => starts_with(t.as_str(), "audio/") || starts_with(t.as_str(), "video/"),
        None => false,
    }
}

proof fn lemma_image_positions_ordered(atts: Seq<Attachment>)
    ensures
        forall|i: int, j: int|
            0 <= i < j < image_positions(atts).len() ==> #[trigger] image_positions(atts)[i]
                < #[trigger] image_positions(atts)[j],
        forall|k: int|
            0 <= k < atts.len() && is_image_type(#[trigger] atts[k]) ==> image_positions(
                atts,
            ).contains(k),
    decreases atts.len(),
{
    if atts.len() > 0 {
        let prev = atts.drop_last();
        lemma_image_positions_ordered(prev);
        lemma_image_positions_facts(prev);
        let rest = image_positions(prev);
        let ip = image_positions(atts);
        assert forall|i: int, j: int| 0 <= i < j < ip.len() implies #[trigger] ip[i] < #[trigger] ip[j] by {
            if j < rest.len() {
                assert(ip[i] == rest[i] && ip[j] == rest[j]);
            } else {
                assert(ip[i] == rest[i]);
                assert(0 <= rest[i] < prev.len());
            }
        }
        assert forall|k: int| 0 <= k < atts.len() && is_image_type(#[trigger] atts[k]) implies ip.contains(k) by {
            if k < atts.len() - 1 {
                assert(prev[k] == atts[k]);
                let t = choose|t: int| 0 <= t < rest.len() && rest[t] == k;
                assert(ip[t] == k);
            } else {
                assert(ip[ip.len() - 1] == k);
            }
        }
    }
}

/// The attachments that go with a toot are taken from the start of the
/// message: the first picture, sound or video comes first, they keep their
/// order, and when pictures go, no picture before the last one taken is left
/// out; fewer than four are taken only when there are no more.
pub proof fn law_media_choice_from_the_start(atts: Seq<Attachment>)
    ensures
        ({
            let m = media_choice_spec(atts);
            &&& m.len() > 0 <==> exists|k: int| 0 <= k < atts.len() && is_media(#[trigger] atts[k])
            &&& m.len() > 0 ==> m[0] == first_media(atts)
            &&& forall|i: int, j: int| 0 <= i < j < m.len() ==> #[trigger] m[i] < #[trigger] m[j]
            &&& forall|k: int|
                0 <= k < atts.len() && is_image_type(#[trigger] atts[k]) && m.len() > 0
                    && is_image_type(atts[m[0]]) && (m.len() < 4 || k <= m[m.len() - 1])
                    ==> m.contains(k)
        }),
{
    lemma_first_media_facts(atts);
    lemma_image_positions_facts(atts);
    lemma_image_positions_ordered(atts);
    let f: int = first_media(atts);
    let m = media_choice_spec(atts);
    if f >= 0 {
        assert(is_media(atts[f]));
    } else {
        assert forall|k: int| 0 <= k < atts.len() implies !is_media(#[trigger] atts[k]) by {}
    }
    if f >= 0 && is_image_type(atts[f]) {
        let imgs = image_positions(atts);
        assert(imgs.contains(f));
        let t0 = choose|t: int| 0 <= t < imgs.len() && imgs[t] == f;
        assert(imgs[0] == f) by {
            if imgs[0] < f {
                assert(is_image_type(atts[imgs[0]]));
            }
            if t0 > 0 {
                assert(imgs[0] < imgs[t0]);
            }
        }
        assert(m[0] == imgs[0]);
        assert forall|i: int, j: int| 0 <= i < j < m.len() implies #[trigger] m[i] < #[trigger] m[j] by {
            assert(m[i] == imgs[i] && m[j] == imgs[j]);
        }
        assert forall|k: int|
            0 <= k < atts.len() && is_image_type(#[trigger] atts[k]) && m.len() > 0 && is_image_type(
                atts[m[0]],
            ) && (m.len() < 4 || k <= m[m.len() - 1]) implies m.contains(k) by {
            let t = choose|t: int| 0 <= t < imgs.len() && imgs[t] == k;
            if imgs.len() > 4 {
                if t > 3 {
                    assert(imgs[3] < imgs[t]);
                    assert(m[3] == imgs[3]);
                }
                assert(m[t] == k);
            } else {
                assert(m[t] == k);
            }
        }
    }
}

/// The attachments to upload with a toot, by position.
pub fn media_choice(atts: &Vec<Attachment>) -> (res: Vec<usize>)
    ensures
        res@.map_values(|i: usize| i as int) == media_choice_spec(atts@),
{
    let mut picked: Vec<usize> = Vec::new();
    let mut i: usize = 0;
    while i < atts.len()
        invariant
            i <= atts@.len(),
            first_media(atts@.take(i as int)) < 0 ==> picked@.len() == 0,
            first_media(atts@.take(i as int)) >= 0 ==> is_image_type(
                atts@[first_media(atts@.take(i as int))],
            ) && picked@.map_values(|x: usize| x as int) == image_positions(atts@.take(i as int))
                && picked@.len() < 4,
        decreases atts.len() - i,
    {
        let ghost p = atts@.take(i as int);
        let ghost q = atts@.take(i + 1);
        assert(q.drop_last() == p);
        assert(q.last() == atts@[i as int]);
        proof {
            lemma_first_media_facts(p);
            lemma_image_positions_facts(p);
            if first_media(p) >= 0 {
                lemma_image_nonempty(p, first_media(p));
                assert(p[first_media(p)] == atts@[first_media(p)]);
            }
            if image_positions(p).len() > 0 {
                assert(is_media(p[image_positions(p)[0]]));
            }
        }
        let image = is_image_attachment(&atts[i]);
        let av = is_sound_or_video_attachment(&atts[i]);
        if image {
            picked.push(i);
            assert(picked@.map_values(|x: usize| x as int) =~= image_positions(q));
            if picked.len() == 4 {
                proof {
                    lemma_first_media_prefix(atts@, i + 1);
                    lemma_image_positions_prefix(atts@, i + 1);
                    assert(first_media(q) >= 0);
                    assert(q[first_media(q)] == atts@[first_media(q)]);
                }
                assert(picked@.map_values(|x: usize| x as int) =~= media_choice_spec(atts@));
                return picked;
            }
        } else if picked.len() == 0 && av {
            picked.push(i);
            proof {
                assert(first_media(q) == i);
                lemma_first_media_prefix(atts@, i + 1);
            }
            assert(picked@.map_values(|x: usize| x as int) =~= media_choice_spec(atts@));
            return picked;
        } else {
            proof {
                if first_media(p) >= 0 {
                    assert(q[first_media(p)] == atts@[first_media(p)]);
                }
            }
            assert(picked@.map_values(|x: usize| x as int) =~= image_positions(q) || first_media(q) < 0);
        }
        i += 1;
    }
    assert(atts@.take(i as int) == atts@);
    assert(picked@.map_values(|x: usize| x as int) =~= media_choice_spec(atts@));
    picked
}

/// The OAuth2 endpoints of a service, and where it sends the user back.
pub struct OAuthUrls {
    pub authorize: String,
    pub token: String,
    pub revoke: String,
    pub redirect: String,
}

/// `https://` followed by `host` and `path`.
pub open spec fn https_spec(host: Seq<char>, path: Seq<char>) -> Seq<char> {
    "https://"@ + host + path
}

pub fn https(host: &str, path: &str) -> (res: String)
    ensures
        res@ == https_spec(host@, path@),
{
    let mut s = String::new();
    s.append("https://");
    s.append(host);
    s.append(path);
    s
}

/// Where a login comes back to: the bot's own `/oauth` page.
pub open spec fn redirect_spec(bot_host: Seq<char>) -> Seq<char> {
    https_spec(bot_host, "/oauth"@)
}

/// The OAuth2 endpoints of Mastodon server `domain`, for a bot served at
/// `bot_host`.
pub fn mastodon_oauth_urls(bot_host: &str, domain: &str) -> (res: OAuthUrls)
    ensures
        res.authorize@ == https_spec(domain@, "/oauth/authorize"@),
        res.token@ == https_spec(domain@, "/oauth/token"@),
        res.revoke@ == https_spec(domain@, "/oauth/revoke"@),
        res.redirect@ == redirect_spec(bot_host@),
{
    OAuthUrls {
        authorize: https(domain, "/oauth/authorize"),
        token: https(domain, "/oauth/token"),
        revoke: https(domain, "/oauth/revoke"),
        redirect: https(bot_host, "/oauth"),
    }
}

/// The OAuth2 endpoints of Twitter, for a bot served at `bot_host`.
pub fn twitter_oauth_urls(bot_host: &str) -> (res: OAuthUrls)
    ensures
        res.authorize@ == "https://twitter.com/i/oauth2/authorize"@,
        res.token@ == "https://api.twitter.com/2/oauth2/token"@,
        res.revoke@ == "https://api.twitter.com/2/oauth2/revoke"@,
        res.redirect@ == redirect_spec(bot_host@),
{
    OAuthUrls {
        authorize: String::from_str("https://twitter.com/i/oauth2/authorize"),
        token: String::from_str("https://api.twitter.com/2/oauth2/token"),
        revoke: String::from_str("https://api.twitter.com/2/oauth2/revoke"),
        redirect: https(bot_host, "/oauth"),
    }
}

/// The base URL of the API of Mastodon server `domain`.
pub fn mastodon_api_base(domain: &str) -> (res: String)
    ensures
        res@ == https_spec(domain@, ""@),
{
    https(domain, "")
}

/// What the bot serves: the login page when it has a host name and an address
/// to listen on; Twitter logins when it also has a Twitter client id.
pub fn login_service_plan(has_hostname: bool, has_listen: bool, has_twitter_client_id: bool) -> (res:
    (bool, bool))
    ensures
        res.0 == (has_hostname && has_listen),
        res.1 == (has_hostname && has_listen && has_twitter_client_id),
{
    let serve = has_hostname && has_listen;
    (serve, serve && has_twitter_client_id)
}

/// How many times a Mastodon server is asked whether an uploaded file it is
/// still processing is ready.
pub const MEDIA_POLL_TRIES: u32 = 10u32;

/// How long to wait after an unanswered ask, in seconds.
pub const MEDIA_POLL_DELAY_SECS: u64 = 10u64;

/// What to do after asking about an uploaded file that was still being
/// processed.
#[derive(Clone, Copy, Debug, PartialEq, Eq)]
pub enum MediaPoll {
    /// The file is ready: its id goes with the toot.
    Record,
    /// Wait `MEDIA_POLL_DELAY_SECS`, then ask again.
    WaitAndAsk,
    /// Wait `MEDIA_POLL_DELAY_SECS`, then leave the file out.
    WaitAndGiveUp,
}

/// The next step after the `asked`-th ask (counting from 1), which was
/// answered when `answered`: a file that is ready is recorded; otherwise the
/// server is asked again after a wait, up to `MEDIA_POLL_TRIES` times in all.
pub fn media_poll_step(asked: u32, answered: bool) -> (res: MediaPoll)
    ensures
        answered ==> res == MediaPoll::Record,
        !answered && asked < MEDIA_POLL_TRIES ==> res == MediaPoll::WaitAndAsk,
        !answered && asked >= MEDIA_POLL_TRIES ==> res == MediaPoll::WaitAndGiveUp,
{
    if answered {
        MediaPoll::Record
    } else if asked < MEDIA_POLL_TRIES {
        MediaPoll::WaitAndAsk
    } else {
        MediaPoll::WaitAndGiveUp
    }
}

} // verus!
