//! Posting to Twitter: the text of a tweet, cut where twitter-text says the
//! valid part of the text ends, with the message's attachments linked after
//! it while they fit.

use twitter_text::extractor::{Extract, ValidatingExtractor};
use vstd::prelude::*;

use crate::text::{char_from_u32, chars_of, lemma_trim_not_longer, string_of, trim_chars, trim_spec};

verus! {

/// The longest tweet, in weighted characters.
pub const TWEET_MAX_WEIGHT: i32 = 280i32;

/// The longest text, in characters, that is measured with twitter-text.
/// twitter-text computes in `i32` the weighted length times 1000; a character
/// weighs at most 2300 (a URL weighs 2300 in all), and NFC makes a text at
/// most three times as long, so 20000 characters stay far from an overflow
/// (which panics). A Discord message holds at most 4000 characters.
pub const TWEET_INPUT_MAX: usize = 20000usize;

/// The text twitter-text measures: the input normalized to NFC
/// (`ValidatingExtractor::prep_input`).
pub uninterp spec fn tweet_nfc(s: Seq<char>) -> Seq<char>;

/// What twitter-text's `ValidatingExtractor::extract_urls_with_indices`, with
/// the default configuration and after `prep_input` of the same input,
/// reports of a text: its weighted length, whether it is a valid tweet, and
/// the first and last UTF-16 position of its valid part.
pub uninterp spec fn tweet_metrics(s: Seq<char>) -> (i32, bool, i32, i32);

/// What twitter-text reports of a text.
pub struct TweetParse {
    /// The text, normalized to NFC.
    pub text: String,
    pub weighted_length: i32,
    pub is_valid: bool,
    pub valid_start: i32,
    pub valid_end: i32,
}

/// Runs twitter-text on `s` as the bot does: a `ValidatingExtractor` with the
/// default configuration, `prep_input` (which normalizes the text and records
/// its lengths in the extractor), then `extract_urls_with_indices` on the
/// normalized text. The two calls share the extractor's state, so they stand
/// in one wrapper. The results are named, not stated: they come from
/// twitter-text's grammar and weights. What is stated is that the valid range
/// starts at 0 (`create_result` builds it as `Range::new(0, ..)`, and an
/// empty text gets `Range::empty()`). The text is kept short enough that
/// twitter-text's `i32` arithmetic cannot overflow (see `TWEET_INPUT_MAX`).
#[verifier::external_body]
fn parse_tweet(s: &str) -> (res: TweetParse)
    requires
        s@.len() <= TWEET_INPUT_MAX,
    ensures
        res.text@ == tweet_nfc(s@),
        (res.weighted_length, res.is_valid, res.valid_start, res.valid_end) == tweet_metrics(s@),
        res.valid_start == 0,
{
    let mut extractor = ValidatingExtractor::new(twitter_text_config::default());
    let text = extractor.prep_input(s);
    let results = extractor.extract_urls_with_indices(text.as_str()).parse_results;
    TweetParse {
        weighted_length: results.weighted_length,
        is_valid: results.is_valid,
        valid_start: results.valid_text_range.start(),
        valid_end: results.valid_text_range.end(),
        text,
    }
}

/// The weighted length that twitter-text's default configuration counts for
/// a URL: `transformed_url_length` of `twitter_text_config::default()`, the
/// version 3 configuration, which sets it to 23.
#[verifier::external_body]
fn url_weight() -> (res: i32)
    ensures
        res == 23,
{
    twitter_text_config::default().transformed_url_length
}

/// The UTF-16 code units of one character.
pub open spec fn utf16_char(c: char) -> Seq<u16> {
    let x: u32 = c as u32;
    if x < 0x10000 {
        seq![x as u16]
    } else {
        let y: u32 = (x - 0x10000) as u32;
        seq![(0xD800 + y / 0x400) as u16, (0xDC00 + y % 0x400) as u16]
    }
}

/// The UTF-16 encoding of a text (std's `str::encode_utf16`).
pub open spec fn utf16_of(s: Seq<char>) -> Seq<u16>
    decreases s.len(),
{
    if s.len() == 0 {
        Seq::empty()
    } else {
        utf16_of(s.drop_last()) + utf16_char(s.last())
    }
}

pub open spec fn is_high_surrogate(u: u16) -> bool {
    0xD800 <= u <= 0xDBFF
}

pub open spec fn is_low_surrogate(u: u16) -> bool {
    0xDC00 <= u <= 0xDFFF
}

pub open spec fn is_surrogate(u: u16) -> bool {
    0xD800 <= u <= 0xDFFF
}

/// The character of a surrogate pair.
pub open spec fn pair_value(hi: u16, lo: u16) -> int {
    0x10000 + (hi - 0xD800) * 0x400 + (lo - 0xDC00)
}

/// The characters that UTF-16 code units decode to, leaving out every
/// surrogate that is not part of a pair (std's `char::decode_utf16`, keeping
/// the `Ok` results).
pub open spec fn decode_utf16_lossy(u: Seq<u16>) -> Seq<char>
    decreases u.len(),
{
    if u.len() == 0 {
        Seq::empty()
    } else if !is_surrogate(u[0]) {
        seq![(u[0] as u32) as char] + decode_utf16_lossy(u.drop_first())
    } else if is_high_surrogate(u[0]) && u.len() >= 2 && is_low_surrogate(u[1]) {
        seq![(pair_value(u[0], u[1]) as u32) as char] + decode_utf16_lossy(u.skip(2))
    } else {
        decode_utf16_lossy(u.drop_first())
    }
}

proof fn lemma_utf16_prepend(c: char, rest: Seq<char>)
    ensures
        utf16_of(seq![c] + rest) == utf16_char(c) + utf16_of(rest),
    decreases rest.len(),
{
    if rest.len() == 0 {
        assert(seq![c] + rest =~= seq![c]);
        assert(seq![c].drop_last() =~= Seq::<char>::empty());
        assert(utf16_of(Seq::<char>::empty()) =~= Seq::<u16>::empty());
        assert(utf16_of(rest) =~= Seq::<u16>::empty());
        assert(utf16_of(seq![c]) == utf16_of(seq![c].drop_last()) + utf16_char(c));
        assert(utf16_of(seq![c]) =~= utf16_char(c));
        assert(utf16_char(c) + utf16_of(rest) =~= utf16_char(c));
    } else {
        let whole = seq![c] + rest;
        assert(whole.drop_last() == seq![c] + rest.drop_last());
        assert(whole.last() == rest.last());
        assert(utf16_of(whole) == utf16_of(whole.drop_last()) + utf16_char(whole.last()));
        assert(utf16_of(rest) == utf16_of(rest.drop_last()) + utf16_char(rest.last()));
        lemma_utf16_prepend(c, rest.drop_last());
        assert(utf16_char(c) + utf16_of(rest.drop_last()) + utf16_char(rest.last()) == utf16_char(c)
            + (utf16_of(rest.drop_last()) + utf16_char(rest.last())));
    }
}

proof fn lemma_decode_char(c: char, tail: Seq<u16>)
    ensures
        decode_utf16_lossy(utf16_char(c) + tail) == seq![c] + decode_utf16_lossy(tail),
{
    let x: u32 = c as u32;
    vstd::utf8::char_is_scalar(c);
    let u = utf16_char(c) + tail;
    if x < 0x10000 {
        assert(!is_surrogate(x as u16));
        assert(u[0] == x as u16);
        assert(u.drop_first() == tail);
        vstd::utf8::char_u32_cast(c, x);
        assert(((x as u16) as u32) == x);
    } else {
        let y: u32 = (x - 0x10000) as u32;
        assert(y <= 0xFFFFF);
        let hi: u16 = (0xD800 + y / 0x400) as u16;
        let lo: u16 = (0xDC00 + y % 0x400) as u16;
        assert(y / 0x400 <= 0x3FF);
        assert(is_high_surrogate(hi));
        assert(is_low_surrogate(lo));
        assert(u[0] == hi && u[1] == lo);
        assert(u.skip(2) == tail);
        assert(y == (y / 0x400) * 0x400 + y % 0x400);
        assert(pair_value(hi, lo) == x);
        vstd::utf8::char_u32_cast(c, x);
    }
}

/// Every text comes back unchanged from its UTF-16 code units: cutting the
/// whole UTF-16 range of a text gives the text.
pub proof fn law_utf16_round_trip(s: Seq<char>)
    ensures
        decode_utf16_lossy(utf16_of(s)) == s,
    decreases s.len(),
{
    if s.len() > 0 {
        let rest = s.drop_first();
        assert(s == seq![s[0]] + rest);
        lemma_utf16_prepend(s[0], rest);
        lemma_decode_char(s[0], utf16_of(rest));
        law_utf16_round_trip(rest);
    } else {
        assert(utf16_of(s) =~= Seq::<u16>::empty());
    }
}

/// The UTF-16 code units of a text.
pub fn encode_utf16(cs: &Vec<char>) -> (res: Vec<u16>)
    ensures
        res@ == utf16_of(cs@),
{
    let mut res: Vec<u16> = Vec::new();
    for i in 0..cs.len()
        invariant
            res@ == utf16_of(cs@.take(i as int)),
    {
        assert(cs@.take(i + 1).drop_last() == cs@.take(i as int));
        let x: u32 = cs[i] as u32;
        if x < 0x10000 {
            res.push(x as u16);
        } else {
            proof {
                vstd::utf8::char_is_scalar(cs[i as int]);
            }
            let y: u32 = x - 0x10000;
            res.push((0xD800 + y / 0x400) as u16);
            res.push((0xDC00 + y % 0x400) as u16);
        }
        assert(res@ =~= utf16_of(cs@.take(i + 1)));
    }
    assert(cs@.take(cs.len() as int) == cs@);
    res
}

/// Decodes `units[from..to]`, leaving out unpaired surrogates.
pub fn decode_utf16_range(units: &Vec<u16>, from: usize, to: usize) -> (res: Vec<char>)
    requires
        from <= to <= units@.len(),
    ensures
        res@ == decode_utf16_lossy(units@.subrange(from as int, to as int)),
{
    let ghost whole = units@.subrange(from as int, to as int);
    let mut res: Vec<char> = Vec::new();
    let mut i: usize = from;
    assert(whole.skip(0) == whole);
    while i < to
        invariant
            from <= i <= to <= units@.len(),
            whole == units@.subrange(from as int, to as int),
            decode_utf16_lossy(whole) == res@ + decode_utf16_lossy(units@.subrange(i as int, to as int)),
        decreases to - i,
    {
        let ghost rest = units@.subrange(i as int, to as int);
        let a: u16 = units[i];
        assert(rest[0] == a);
        if a < 0xD800 || a > 0xDFFF {
            let c = match char_from_u32(a as u32) {
                Some(c) => c,
                None => {
                    assert(false);
                    ' '
                },
            };
            proof {
                vstd::utf8::char_u32_cast(c, a as u32);
                assert(rest.drop_first() == units@.subrange(i + 1, to as int));
                assert(decode_utf16_lossy(rest) == seq![c] + decode_utf16_lossy(rest.drop_first()));
            }
            res.push(c);
            i += 1;
        } else if a <= 0xDBFF && i + 1 < to && 0xDC00 <= units[i + 1] && units[i + 1] <= 0xDFFF {
            let b: u16 = units[i + 1];
            assert(rest[1] == b);
            let v: u32 = 0x10000 + (a as u32 - 0xD800) * 0x400 + (b as u32 - 0xDC00);
            assert(v == pair_value(a, b));
            let c = match char_from_u32(v) {
                Some(c) => c,
                None => {
                    assert(false);
                    ' '
                },
            };
            proof {
                vstd::utf8::char_u32_cast(c, v);
                assert(rest.skip(2) == units@.subrange(i + 2, to as int));
                assert(decode_utf16_lossy(rest) == seq![c] + decode_utf16_lossy(rest.skip(2)));
            }
            res.push(c);
            i += 2;
        } else {
            proof {
                assert(rest.drop_first() == units@.subrange(i + 1, to as int));
                assert(decode_utf16_lossy(rest) == decode_utf16_lossy(rest.drop_first()));
            }
            i += 1;
        }
    }
    assert(units@.subrange(i as int, to as int) =~= Seq::<u16>::empty());
    res
}

/// The valid range lies within the text: twitter-text's positions can be
/// read as `usize` and slice the text's UTF-16 code units from `start` to
/// `end` included.
pub open spec fn range_fits(text: Seq<char>, start: int, end: int) -> bool {
    0 <= start && 0 <= end && start <= end + 1 && end < utf16_of(text).len()
}

/// The valid part of a text: its UTF-16 code units from `start` to `end`
/// included, decoded again.
pub open spec fn valid_part(text: Seq<char>, start: int, end: int) -> Seq<char> {
    decode_utf16_lossy(utf16_of(text).subrange(start, end + 1))
}

/// The valid part of `text` between the given UTF-16 positions.
pub fn cut_valid_part(text: &str, start: i32, end: i32) -> (res: String)
    requires
        range_fits(text@, start as int, end as int),
    ensures
        res@ == valid_part(text@, start as int, end as int),
{
    let cs = chars_of(text);
    let units = encode_utf16(&cs);
    let part = decode_utf16_range(&units, start as usize, end as usize + 1);
    string_of(&part)
}

/// Whether the valid range lies within the text.
pub fn range_fits_exec(text: &str, start: i32, end: i32) -> (res: bool)
    ensures
        res == range_fits(text@, start as int, end as int),
{
    let cs = chars_of(text);
    let units = encode_utf16(&cs);
    0 <= start && 0 <= end && (start as i64) <= (end as i64) + 1 && (end as usize) < units.len()
}

/// The text that points to the whole message on Mastodon when it does not
/// fit in a tweet.
pub open spec fn full_text_prefix(url: Seq<char>, text: Seq<char>) -> Seq<char> {
    "全文: "@ + url + "\n"@ + text
}

/// The weighted length and the text of a tweet, or `None` where the valid
/// range twitter-text reports does not lie within the text, so that slicing
/// the text there would panic.
pub open spec fn cut_once(s: Seq<char>) -> Option<(i32, Seq<char>)> {
    let (len, _, start, end) = tweet_metrics(s);
    let text = tweet_nfc(s);
    if range_fits(text, start as int, end as int) {
        Some((len, valid_part(text, start as int, end as int)))
    } else {
        None
    }
}

/// A tweet made of a message's text: when the text is not a valid tweet and
/// the message was tooted, the tweet starts with a link to the toot and
/// what follows is cut where it stops being valid. `None` also where that
/// longer text is more than twitter-text is given to measure.
pub open spec fn cut_spec(s: Seq<char>, mastodon_url: Option<Seq<char>>) -> Option<(i32, Seq<char>)> {
    let valid = tweet_metrics(s).1;
    match mastodon_url {
        Some(u) => if !valid {
            let prefixed = full_text_prefix(u, tweet_nfc(s));
            if prefixed.len() <= TWEET_INPUT_MAX {
                cut_once(prefixed)
            } else {
                None
            }
        } else {
            cut_once(s)
        },
        None => cut_once(s),
    }
}

fn cut_measured(p: TweetParse, Ghost(s): Ghost<Seq<char>>) -> (res: Option<(i32, String)>)
    requires
        p.text@ == tweet_nfc(s),
        (p.weighted_length, p.is_valid, p.valid_start, p.valid_end) == tweet_metrics(s),
    ensures
        match cut_once(s) {
            Some((len, t)) => res matches Some((l, r)) && l == len && r@ == t,
            None => res is None,
        },
{
    if range_fits_exec(p.text.as_str(), p.valid_start, p.valid_end) {
        Some((p.weighted_length, cut_valid_part(p.text.as_str(), p.valid_start, p.valid_end)))
    } else {
        None
    }
}

/// Cuts a text to what a tweet holds, as twitter-text measures it.
pub fn cut(s: &str, mastodon_url: Option<&str>) -> (res: Option<(i32, String)>)
    requires
        s@.len() <= TWEET_INPUT_MAX,
    ensures
        match cut_spec(
            s@,
            match mastodon_url {
                Some(u) => Some(u@),
                None => None,
            },
        ) {
            Some((len, t)) => res matches Some((l, r)) && l == len && r@ == t,
            None => res is None,
        },
{
    let p = parse_tweet(s);
    if !p.is_valid {
        if let Some(url) = mastodon_url {
            let mut prefixed = String::new();
            prefixed.append("全文: ");
            prefixed.append(url);
            prefixed.append("\n");
            prefixed.append(p.text.as_str());
            assert(prefixed@ == full_text_prefix(url@, tweet_nfc(s@)));
            if chars_of(prefixed.as_str()).len() > TWEET_INPUT_MAX {
                return None;
            }
            let q = parse_tweet(prefixed.as_str());
            return cut_measured(q, Ghost(prefixed@));
        }
    }
    cut_measured(p, Ghost(s@))
}

/// The links to the attachments that follow a tweet's text: the link to
/// attachment `j` comes on a line of its own when the weighted length so far,
/// `len`, plus `step` for each of the first `j + 1` links stays within 280.
pub open spec fn attachment_links(len: int, urls: Seq<Seq<char>>, step: int) -> Seq<char>
    decreases urls.len(),
{
    if urls.len() == 0 {
        Seq::empty()
    } else {
        attachment_links(len, urls.drop_last(), step) + if len + urls.len() * step <= 280 {
            "\n"@ + urls.last()
        } else {
            Seq::empty()
        }
    }
}

/// The links follow the tweet one attachment at a time, in order: a link
/// goes on a line of its own when the weight counted so far plus its own still
/// fits in 280, and the links of two lists of attachments one after the other
/// are those of the first, then those of the second counted after the first.
pub proof fn law_attachment_links_in_order(
    len: int,
    a: Seq<Seq<char>>,
    b: Seq<Seq<char>>,
    url: Seq<char>,
    step: int,
)
    ensures
        attachment_links(len, seq![url], step) == (if len + step <= 280 {
            "\n"@ + url
        } else {
            Seq::<char>::empty()
        }),
        attachment_links(len, a + b, step) == attachment_links(len, a, step) + attachment_links(
            len + a.len() * step,
            b,
            step,
        ),
    decreases b.len(),
{
    assert(seq![url].drop_last() =~= Seq::<Seq<char>>::empty());
    assert(seq![url].last() == url);
    assert(attachment_links(len, Seq::<Seq<char>>::empty(), step) == Seq::<char>::empty());
    assert(Seq::<char>::empty() + ("\n"@ + url) =~= "\n"@ + url);
    assert(Seq::<char>::empty() + Seq::<char>::empty() =~= Seq::<char>::empty());
    if b.len() == 0 {
        assert(a + b =~= a);
        assert(attachment_links(len + a.len() * step, b, step) == Seq::<char>::empty());
        assert(attachment_links(len, a, step) + Seq::<char>::empty() =~= attachment_links(len, a, step));
    } else {
        law_attachment_links_in_order(len, a, b.drop_last(), url, step);
        assert((a + b).drop_last() =~= a + b.drop_last());
        assert((a + b).last() == b.last());
        assert((a + b).len() == a.len() + b.len());
        assert(len + (a.len() + b.len()) * step == (len + a.len() * step) + b.len() * step)
            by (nonlinear_arith);
        let tail: Seq<char> = if len + (a + b).len() * step <= 280 {
            "\n"@ + b.last()
        } else {
            Seq::empty()
        };
        assert(attachment_links(len, a, step) + attachment_links(len + a.len() * step, b.drop_last(), step)
            + tail =~= attachment_links(len, a, step) + (attachment_links(
            len + a.len() * step,
            b.drop_last(),
            step,
        ) + tail));
    }
}

/// Adds the links to the attachments after a tweet's text, each counting
/// `url_len + 1` towards the weighted length.
pub fn append_attachment_links(len: i32, text: String, urls: &Vec<String>, url_len: i32) -> (res: (
    i32,
    String,
))
    requires
        0 <= url_len,
        len + urls@.len() * (url_len + 1) <= i32::MAX,
    ensures
        res.0 == len + urls@.len() * (url_len + 1),
        res.1@ == text@ + attachment_links(len as int, urls@.map_values(|u: String| u@), url_len + 1),
{
    let ghost views = urls@.map_values(|u: String| u@);
    let ghost step = url_len + 1;
    let mut cur = len;
    let mut out = text;
    let ghost start = out@;
    assert(0 * step == 0);
    for i in 0..urls.len()
        invariant
            0 <= url_len,
            step == url_len + 1,
            views == urls@.map_values(|u: String| u@),
            len + urls@.len() * step <= i32::MAX,
            cur == len + i * step,
            out@ == start + attachment_links(len as int, views.take(i as int), step),
    {
        assert(views.take(i + 1).drop_last() == views.take(i as int));
        assert(views.take(i + 1).last() == urls@[i as int]@);
        assert((i + 1) * step == i * step + step) by (nonlinear_arith);
        assert((i + 1) * step <= urls@.len() * step) by (nonlinear_arith)
            requires
                i + 1 <= urls@.len(),
                0 <= step,
        ;
        let after: i32 = cur + url_len + 1;
        if after <= TWEET_MAX_WEIGHT {
            out.append("\n");
            out.append(urls[i].as_str());
        }
        cur = after;
        assert(out@ =~= start + attachment_links(len as int, views.take(i + 1), step));
    }
    assert(views.take(urls.len() as int) == views);
    (cur, out)
}

/// The tweet for a message: its text trimmed and cut (see `cut_spec`), then
/// links to its attachments while they fit, each counting a URL's weight and
/// a line break; `None` where the cutting does not apply or where the weighted
/// length would overflow an `i32`.
pub open spec fn tweet_text_spec(content: Seq<char>, mastodon_url: Option<Seq<char>>, urls: Seq<
    Seq<char>,
>) -> Option<Seq<char>> {
    match cut_spec(trim_spec(content), mastodon_url) {
        None => None,
        Some((len, c)) => if len + urls.len() * 24 <= i32::MAX {
            Some(c + attachment_links(len as int, urls, 24))
        } else {
            None
        },
    }
}

pub fn tweet_text(content: &str, mastodon_url: Option<&str>, attachment_urls: &Vec<String>) -> (res:
    Option<String>)
    requires
        content@.len() <= TWEET_INPUT_MAX,
    ensures
        match tweet_text_spec(
            content@,
            match mastodon_url {
                Some(u) => Some(u@),
                None => None,
            },
            attachment_urls@.map_values(|u: String| u@),
        ) {
            Some(t) => res matches Some(r) && r@ == t,
            None => res is None,
        },
{
    let cs = chars_of(content);
    let trimmed = string_of(&trim_chars(&cs));
    proof {
        lemma_trim_not_longer(content@);
    }
    match cut(trimmed.as_str(), mastodon_url) {
        None => None,
        Some((len, text)) => {
            let w: i32 = url_weight();
            if (len as i128) + (attachment_urls.len() as i128) * 24 > i32::MAX as i128 {
                return None;
            }
            let (_, t) = append_attachment_links(len, text, attachment_urls, w);
            Some(t)
        },
    }
}

} // verus!
