//! The attachments of a message, as the library reads them.

use vstd::prelude::*;

verus! {

/// A file attached to a message.
pub struct Attachment {
    /// Where the file is served.
    pub url: String,
    /// Where Discord's media proxy serves the file.
    pub proxy_url: String,
    /// The file's MIME type, when Discord knows it.
    pub content_type: Option<String>,
    /// The width of an image or video, when it is one.
    pub width: Option<u64>,
    /// The height of an image or video, when it is one.
    pub height: Option<u64>,
}

impl Attachment {
    /// Discord gave the file a size: it is shown as a picture.
    pub open spec fn is_picture(self) -> bool {
        self.width is Some && self.height is Some
    }

    pub fn picture(&self) -> (res: bool)
        ensures
            res == self.is_picture(),
    {
        self.width.is_some() && self.height.is_some()
    }
}

/// The URL of an attachment (the proxy's URL when `proxy` is set).
pub open spec fn url_of(a: Attachment, proxy: bool) -> Seq<char> {
    if proxy {
        a.proxy_url@
    } else {
        a.url@
    }
}

/// The URLs of the pictures, in order (`proxy` picks the proxy's URLs).
pub open spec fn picture_urls_spec(atts: Seq<Attachment>, proxy: bool) -> Seq<Seq<char>>
    decreases atts.len(),
{
    if atts.len() == 0 {
        Seq::empty()
    } else {
        let rest = picture_urls_spec(atts.drop_last(), proxy);
        if atts.last().is_picture() {
            rest.push(url_of(atts.last(), proxy))
        } else {
            rest
        }
    }
}

/// The pictures' URLs are taken attachment by attachment, in order: a
/// picture gives its URL, anything else nothing, and the URLs of two lists
/// of attachments one after the other are those of the first, then those of
/// the second.
pub proof fn law_picture_urls_in_order(a: Seq<Attachment>, b: Seq<Attachment>, x: Attachment, proxy: bool)
    ensures
        picture_urls_spec(seq![x], proxy) == (if x.is_picture() {
            seq![url_of(x, proxy)]
        } else {
            Seq::<Seq<char>>::empty()
        }),
        picture_urls_spec(a + b, proxy) == picture_urls_spec(a, proxy) + picture_urls_spec(b, proxy),
    decreases b.len(),
{
    assert(seq![x].drop_last() =~= Seq::<Attachment>::empty());
    assert(seq![x].last() == x);
    assert(picture_urls_spec(Seq::<Attachment>::empty(), proxy) == Seq::<Seq<char>>::empty());
    assert(Seq::<Seq<char>>::empty().push(url_of(x, proxy)) =~= seq![url_of(x, proxy)]);
    if b.len() == 0 {
        assert(a + b =~= a);
        assert(picture_urls_spec(a, proxy) + Seq::<Seq<char>>::empty() =~= picture_urls_spec(a, proxy));
    } else {
        law_picture_urls_in_order(a, b.drop_last(), x, proxy);
        assert((a + b).drop_last() =~= a + b.drop_last());
        assert((a + b).last() == b.last());
        if b.last().is_picture() {
            assert(picture_urls_spec(a, proxy) + picture_urls_spec(b.drop_last(), proxy).push(
                url_of(b.last(), proxy),
            ) =~= (picture_urls_spec(a, proxy) + picture_urls_spec(b.drop_last(), proxy)).push(
                url_of(b.last(), proxy),
            ));
        }
    }
}

/// The URLs of the pictures among `atts`, in order; the proxy's URLs when
/// `proxy` is set.
pub fn picture_urls(atts: &Vec<Attachment>, proxy: bool) -> (res: Vec<String>)
    ensures
        res@.map_values(|s: String| s@) == picture_urls_spec(atts@, proxy),
{
    let mut res: Vec<String> = Vec::new();
    for i in 0..atts.len()
        invariant
            res@.map_values(|s: String| s@) == picture_urls_spec(atts@.take(i as int), proxy),
    {
        let ghost prev = atts@.take(i as int);
        let ghost next = atts@.take(i + 1);
        assert(next.drop_last() == prev);
        if atts[i].picture() {
            let u = if proxy {
                atts[i].proxy_url.clone()
            } else {
                atts[i].url.clone()
            };
            res.push(u);
        }
        assert(res@.map_values(|s: String| s@) =~= picture_urls_spec(next, proxy));
    }
    assert(atts@.take(atts.len() as int) == atts@);
    res
}

} // verus!
