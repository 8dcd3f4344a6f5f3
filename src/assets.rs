//! Static files and proxied author thumbnails.

use vstd::prelude::*;
use crate::outside::{char_range, guess_mime, guessed_mime};

verus! {

/// Where a static file is read from: `./static/{path}`.
pub fn static_file_path(path: &str) -> (r: String)
    ensures
        r@ == "./static/"@ + path@,
{
    let mut r = String::from_str("./static/");
    r.append(path);
    r
}

/// The content type a static file is served with: the media type its
/// extension suggests, else `text/html`.
pub fn static_content_type(path: &str) -> (r: String)
    ensures
        r@ == match guessed_mime(path@) {
            Some(m) => m,
            None => "text/html"@,
        },
{
    match guess_mime(path) {
        Some(m) => m,
        None => String::from_str("text/html"),
    }
}

/// `s` without its leading slashes.
pub open spec fn strip_leading_slashes(s: Seq<char>) -> Seq<char>
    decreases s.len(),
{
    if s.len() > 0 && s[0] == '/' {
        strip_leading_slashes(s.drop_first())
    } else {
        s
    }
}

/// The upstream URL of an author thumbnail: `https://yt3.ggpht.com/`
/// followed by the path without leading slashes, which the upstream host
/// refuses.
pub fn author_thumbnail_upstream(path: &str) -> (r: String)
    ensures
        r@ == "https://yt3.ggpht.com/"@ + strip_leading_slashes(path@),
{
    let mut rest = path;
    while rest.unicode_len() > 0 && rest.get_char(0) == '/'
        invariant
            strip_leading_slashes(rest@) == strip_leading_slashes(path@),
        decreases rest@.len(),
    {
        let ghost prev = rest@;
        let n = rest.unicode_len();
        rest = char_range(rest, 1, n);
        assert(rest@ =~= prev.drop_first());
    }
    let mut r = String::from_str("https://yt3.ggpht.com/");
    r.append(rest);
    r
}

} // verus!
