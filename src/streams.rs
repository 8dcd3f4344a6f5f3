//! Rewriting the stream URLs of a `player` payload so that clients reach
//! them through this gateway, and the errors of resolving a video.

use vstd::prelude::*;
use crate::outside::{percent_encode, percent_encoded, reqwest_error_text};
use crate::settings::AppSettings;
use crate::text::{find_first, find_str, chars_of, matches_at, occurs_at, lemma_find_from};

verus! {

/// Why a `player` payload could not be produced.
pub enum FetchPlayerError {
    Reqwest(reqwest::Error),
    PlayerJsIdNotFound,
    SignatureTimestampNotFound(core::num::ParseIntError),
    FailedToSerializePlayer,
    ResponseUnplayable,
    LoginRequired,
    FailedToDecipher(String),
}

impl FetchPlayerError {
    /// The HTTP status with which the video routes answer this error.
    pub fn status_code(&self) -> (r: u16)
        ensures
            r == match self {
                FetchPlayerError::LoginRequired => 403u16,
                FetchPlayerError::ResponseUnplayable => 404u16,
                _ => 500u16,
            },
    {
        match self {
            FetchPlayerError::LoginRequired => 403,
            FetchPlayerError::ResponseUnplayable => 404,
            _ => 500,
        }
    }

    /// A human-readable description of the error.
    pub fn message(&self) -> (r: String)
        ensures
            match self {
                FetchPlayerError::Reqwest(_) => r@.len() >= "Error making request to innertube "@.len()
                    && r@.subrange(0, "Error making request to innertube "@.len() as int)
                    == "Error making request to innertube "@,
                FetchPlayerError::PlayerJsIdNotFound => r@
                    == "No player.js id found in `/iframe_api` response"@,
                FetchPlayerError::SignatureTimestampNotFound(_) => r@
                    == "Unable to parse sig timestamp from player.js response"@,
                FetchPlayerError::FailedToSerializePlayer => r@
                    == "Failed to serialize the JSON response from innertube (this probably means the response was the wrong mime type)"@,
                FetchPlayerError::ResponseUnplayable => r@ == "Response is unplayable"@,
                FetchPlayerError::LoginRequired => r@ == "Login required"@,
                FetchPlayerError::FailedToDecipher(t) => r@ == "Failed to decipher: "@ + t@,
            },
    {
        match self {
            FetchPlayerError::Reqwest(e) => {
                let head = "Error making request to innertube ";
                let mut r = String::from_str(head);
                r.append(reqwest_error_text(e).as_str());
                proof {
                    assert(r@.subrange(0, head@.len() as int) =~= head@);
                }
                r
            },
            FetchPlayerError::PlayerJsIdNotFound => String::from_str(
                "No player.js id found in `/iframe_api` response",
            ),
            FetchPlayerError::SignatureTimestampNotFound(_) => String::from_str(
                "Unable to parse sig timestamp from player.js response",
            ),
            FetchPlayerError::FailedToSerializePlayer => String::from_str(
                "Failed to serialize the JSON response from innertube (this probably means the response was the wrong mime type)",
            ),
            FetchPlayerError::ResponseUnplayable => String::from_str("Response is unplayable"),
            FetchPlayerError::LoginRequired => String::from_str("Login required"),
            FetchPlayerError::FailedToDecipher(t) => {
                let mut r = String::from_str("Failed to decipher: ");
                r.append(t.as_str());
                r
            },
        }
    }
}

/// The JSON error body of the video route for an error with message `inner`.
pub open spec fn video_error_body_spec(inner: Seq<char>) -> Seq<char> {
    "{\"type\":\"error\",\"message\":\"Failed to fetch `player` endpoint\",\"inner_message\":\""@
        + inner + "\"}"@
}

/// The JSON error body with which the video route answers an error whose
/// message is `inner_message`.
pub fn video_error_body(inner_message: &str) -> (r: String)
    ensures
        r@ == video_error_body_spec(inner_message@),
{
    let mut r = String::from_str(
        "{\"type\":\"error\",\"message\":\"Failed to fetch `player` endpoint\",\"inner_message\":\"",
    );
    r.append(inner_message);
    r.append("\"}");
    r
}

/// Classifies `playabilityStatus.status` of a `player` payload.
pub fn check_playability(status: Option<&str>) -> (r: Result<(), FetchPlayerError>)
    ensures
        match status {
            Some(st) => if st@ == "LOGIN_REQUIRED"@ {
                r matches Err(FetchPlayerError::LoginRequired)
            } else if st@ == "ERROR"@ {
                r matches Err(FetchPlayerError::ResponseUnplayable)
            } else {
                r is Ok
            },
            None => r is Ok,
        },
{
    match status {
        Some(st) => {
            if str_eq(st, "LOGIN_REQUIRED") {
                Err(FetchPlayerError::LoginRequired)
            } else if str_eq(st, "ERROR") {
                Err(FetchPlayerError::ResponseUnplayable)
            } else {
                Ok(())
            }
        },
        None => Ok(()),
    }
}

/// Are two texts equal?
pub fn str_eq(a: &str, b: &str) -> (r: bool)
    ensures
        r == (a@ == b@),
{
    let ac = chars_of(a);
    let bc = chars_of(b);
    if ac.len() != bc.len() {
        return false;
    }
    let r = matches_at(&ac, &bc, 0);
    proof {
        assert(ac@.subrange(0, bc@.len() as int) =~= ac@);
    }
    r
}

/// The message of a stream that can get no URL.
pub const NO_USABLE_URL: &'static str = "a stream has neither a usable url nor a signatureCipher";

/// The message of a stream that cannot be deciphered for want of a cipher.
pub const NO_CIPHER: &'static str = "a stream has no signatureCipher";

/// One entry of `streamingData.formats` or `streamingData.adaptiveFormats`:
/// its ready `url`, or the `signatureCipher` that stands for one.
pub struct StreamEntry {
    pub url: Option<String>,
    pub signature_cipher: Option<String>,
}

/// Deciphering is needed iff the first entry of whichever list is non-empty
/// (`formats` first) has no `url`.
pub open spec fn need_decipher_spec(formats: Seq<StreamEntry>, adaptive: Seq<StreamEntry>) -> bool {
    if formats.len() > 0 {
        formats[0].url is None
    } else if adaptive.len() > 0 {
        adaptive[0].url is None
    } else {
        false
    }
}

/// Whether the stream entries of a `player` payload must be deciphered.
pub fn need_to_decipher(formats: &Vec<StreamEntry>, adaptive: &Vec<StreamEntry>) -> (r: bool)
    ensures
        r == need_decipher_spec(formats@, adaptive@),
{
    if formats.len() > 0 {
        formats[0].url.is_none()
    } else if adaptive.len() > 0 {
        adaptive[0].url.is_none()
    } else {
        false
    }
}

pub open spec fn bool_text(b: bool) -> Seq<char> {
    if b {
        "true"@
    } else {
        "false"@
    }
}

/// `true` or `false`.
pub fn bool_str(b: bool) -> (r: &'static str)
    ensures
        r@ == bool_text(b),
{
    if b {
        "true"
    } else {
        "false"
    }
}

/// The lazy-decipher link for one stream.
pub open spec fn decipher_link_spec(
    base: Seq<char>,
    encoded_cipher: Seq<char>,
    player_js_id: Seq<char>,
    video_id: Seq<char>,
    local: bool,
) -> Seq<char> {
    base + "/decipher_stream?signature_cipher="@ + encoded_cipher + "&player_js_id="@
        + player_js_id + "&video_id="@ + video_id + "&local="@ + bool_text(local)
}

/// The lazy-decipher link for a stream whose cipher is already encoded.
pub fn decipher_link_from_encoded(
    base: &str,
    encoded_cipher: &str,
    player_js_id: &str,
    video_id: &str,
    local: bool,
) -> (r: String)
    ensures
        r@ == decipher_link_spec(base@, encoded_cipher@, player_js_id@, video_id@, local),
{
    let mut r = String::from_str(base);
    r.append("/decipher_stream?signature_cipher=");
    r.append(encoded_cipher);
    r.append("&player_js_id=");
    r.append(player_js_id);
    r.append("&video_id=");
    r.append(video_id);
    r.append("&local=");
    r.append(bool_str(local));
    r
}

/// The link to `/decipher_stream` that deciphers `signature_cipher` when a
/// client follows it.
pub fn decipher_link(
    base: &str,
    signature_cipher: &str,
    player_js_id: &str,
    video_id: &str,
    local: bool,
) -> (r: String)
    ensures
        r@ == decipher_link_spec(
            base@,
            percent_encoded(signature_cipher@),
            player_js_id@,
            video_id@,
            local,
        ),
{
    let enc = percent_encode(signature_cipher);
    decipher_link_from_encoded(base, enc.as_str(), player_js_id, video_id, local)
}

/// `h` without a leading `https://`.
pub open spec fn strip_https(h: Seq<char>) -> Seq<char> {
    if occurs_at(h, "https://"@, 0) {
        h.subrange("https://"@.len() as int, h.len() as int)
    } else {
        h
    }
}

/// The origin host and the path-and-query of a media URL, split at the
/// first `googlevideo.com`.
pub open spec fn origin_parts(url: Seq<char>) -> Option<(Seq<char>, Seq<char>)> {
    match find_first(url, "googlevideo.com"@) {
        Some(i) => {
            let end = i + "googlevideo.com"@.len();
            Some((strip_https(url.subrange(0, end)), url.subrange(end, url.len() as int)))
        },
        None => None,
    }
}

/// A link through this gateway to a media URL, from its parts.
pub open spec fn proxy_link_spec(
    base: Seq<char>,
    path: Seq<char>,
    encoded_host: Seq<char>,
    local: bool,
) -> Seq<char> {
    base + path + "&host="@ + encoded_host + "&local="@ + bool_text(local)
}

/// The link through this gateway to a media URL, if it names an origin host.
pub open spec fn proxied_link_spec(base: Seq<char>, url: Seq<char>, local: bool) -> Option<
    Seq<char>,
> {
    match origin_parts(url) {
        Some((host, path)) => Some(proxy_link_spec(base, path, percent_encoded(host), local)),
        None => None,
    }
}

/// The link through this gateway from its parts, the host already encoded.
pub fn proxy_link_from_encoded(base: &str, path: &str, encoded_host: &str, local: bool) -> (r:
    String)
    ensures
        r@ == proxy_link_spec(base@, path@, encoded_host@, local),
{
    let mut r = String::from_str(base);
    r.append(path);
    r.append("&host=");
    r.append(encoded_host);
    r.append("&local=");
    r.append(bool_str(local));
    r
}

/// Splits a media URL into its origin host (without scheme) and its
/// path-and-query, at the first `googlevideo.com`.
pub fn split_origin(url: &str) -> (r: Option<(String, String)>)
    ensures
        match r {
            Some((h, p)) => origin_parts(url@) == Some((h@, p@)),
            None => origin_parts(url@) is None,
        },
{
    let marker = "googlevideo.com";
    match find_str(url, marker) {
        Some(i) => {
            proof {
                lemma_find_from(url@, marker@, 0);
            }
            let n = url.unicode_len();
            let end = i + marker.unicode_len();
            let head = url.substring_char(0, end);
            let path = url.substring_char(end, n);
            let host = strip_https_exec(head);
            Some((host, String::from_str(path)))
        },
        None => None,
    }
}

fn strip_https_exec(h: &str) -> (r: String)
    ensures
        r@ == strip_https(h@),
{
    let hc = chars_of(h);
    let scheme = "https://";
    let sc = chars_of(scheme);
    if matches_at(&hc, &sc, 0) {
        String::from_str(h.substring_char(scheme.unicode_len(), h.unicode_len()))
    } else {
        String::from_str(h)
    }
}

/// The link through this gateway to the media URL `url`: its path-and-query
/// under `base`, then the encoded origin host and the `local` flag. `None`
/// where `url` names no `googlevideo.com` host.
pub fn proxied_link(base: &str, url: &str, local: bool) -> (r: Option<String>)
    ensures
        match r {
            Some(l) => proxied_link_spec(base@, url@, local) == Some(l@),
            None => proxied_link_spec(base@, url@, local) is None,
        },
{
    match split_origin(url) {
        Some((host, path)) => {
            let enc = percent_encode(host.as_str());
            Some(proxy_link_from_encoded(base, path.as_str(), enc.as_str(), local))
        },
        None => None,
    }
}

/// `s` begins with `p`.
pub open spec fn starts_with(s: Seq<char>, p: Seq<char>) -> bool {
    p.len() <= s.len() && s.subrange(0, p.len() as int) == p
}

/// `s` ends with `p`.
pub open spec fn ends_with(s: Seq<char>, p: Seq<char>) -> bool {
    p.len() <= s.len() && s.subrange(s.len() - p.len(), s.len() as int) == p
}

/// What the stream URLs of one `player` payload are rewritten with.
pub struct StreamRewrite {
    /// The gateway's public base URL.
    pub public_base: String,
    /// The player.js generation the payload was fetched with.
    pub player_js_id: String,
    pub video_id: String,
    /// The client asked for local streaming, and it is enabled.
    pub local: bool,
    /// Decipher on the video route rather than lazily through `/decipher_stream`.
    pub decipher_now: bool,
}

/// What a `StreamRewrite` holds.
pub struct RewriteView {
    pub public_base: Seq<char>,
    pub player_js_id: Seq<char>,
    pub video_id: Seq<char>,
    pub local: bool,
    pub decipher_now: bool,
}

impl StreamRewrite {
    pub open spec fn view(&self) -> RewriteView {
        RewriteView {
            public_base: self.public_base@,
            player_js_id: self.player_js_id@,
            video_id: self.video_id@,
            local: self.local,
            decipher_now: self.decipher_now,
        }
    }
}

/// The `i`-th deciphered URL, where one was handed over.
pub open spec fn deciphered_at(d: Seq<Option<String>>, i: int) -> Option<Seq<char>> {
    if 0 <= i < d.len() {
        match d[i] {
            Some(u) => Some(u@),
            None => None,
        }
    } else {
        None
    }
}

/// The URL that a stream entry gets, or `None` where it can get none.
pub open spec fn planned_url(
    rw: RewriteView,
    need: bool,
    e: StreamEntry,
    deciphered: Option<Seq<char>>,
) -> Option<Seq<char>> {
    if need {
        if rw.decipher_now {
            deciphered
        } else {
            match e.signature_cipher {
                Some(c) => Some(
                    decipher_link_spec(
                        rw.public_base,
                        percent_encoded(c@),
                        rw.player_js_id,
                        rw.video_id,
                        rw.local,
                    ),
                ),
                None => None,
            }
        }
    } else {
        match e.url {
            Some(u) => proxied_link_spec(rw.public_base, u@, rw.local),
            None => None,
        }
    }
}

pub open spec fn view_opt(d: Option<&String>) -> Option<Seq<char>> {
    match d {
        Some(x) => Some(x@),
        None => None,
    }
}

/// The URL of one stream entry; see `planned_url`.
pub fn stream_url(
    rw: &StreamRewrite,
    need: bool,
    e: &StreamEntry,
    deciphered: Option<&String>,
) -> (r: Option<String>)
    ensures
        match r {
            Some(u) => planned_url(rw.view(), need, *e, view_opt(deciphered)) == Some(u@),
            None => planned_url(rw.view(), need, *e, view_opt(deciphered)) is None,
        },
{
    if need {
        if rw.decipher_now {
            match deciphered {
                Some(d) => Some(d.clone()),
                None => None,
            }
        } else {
            match &e.signature_cipher {
                Some(c) => Some(
                    decipher_link(
                        rw.public_base.as_str(),
                        c.as_str(),
                        rw.player_js_id.as_str(),
                        rw.video_id.as_str(),
                        rw.local,
                    ),
                ),
                None => None,
            }
        }
    } else {
        match &e.url {
            Some(u) => proxied_link(rw.public_base.as_str(), u.as_str(), rw.local),
            None => None,
        }
    }
}

/// The new URL of every stream entry of a `player` payload, in order
/// (`formats`, then `adaptiveFormats`). `deciphered` holds, entry by entry,
/// what deciphering gave when `rw.decipher_now`. Fails with
/// `FailedToDecipher` iff some entry can get no URL.
pub fn rewrite_stream_urls(
    entries: &Vec<StreamEntry>,
    rw: &StreamRewrite,
    need: bool,
    deciphered: &Vec<Option<String>>,
) -> (r: Result<Vec<String>, FetchPlayerError>)
    ensures
        match r {
            Ok(urls) => urls.len() == entries.len() && forall|i: int|
                0 <= i < entries.len() ==> planned_url(
                    rw.view(),
                    need,
                    #[trigger] entries@[i],
                    deciphered_at(deciphered@, i),
                ) == Some(urls@[i]@),
            Err(e) => (e matches FetchPlayerError::FailedToDecipher(m) && m@ == NO_USABLE_URL@)
                && exists|i: int|
                0 <= i < entries.len() && planned_url(
                    rw.view(),
                    need,
                    #[trigger] entries@[i],
                    deciphered_at(deciphered@, i),
                ) is None,
        },
{
    let mut urls: Vec<String> = Vec::new();
    let mut i: usize = 0;
    while i < entries.len()
        invariant
            i <= entries.len(),
            urls.len() == i,
            forall|k: int|
                0 <= k < i ==> planned_url(
                    rw.view(),
                    need,
                    #[trigger] entries@[k],
                    deciphered_at(deciphered@, k),
                ) == Some(urls@[k]@),
        decreases entries.len() - i,
    {
        let d: Option<&String> = if i < deciphered.len() {
            match &deciphered[i] {
                Some(u) => Some(u),
                None => None,
            }
        } else {
            None
        };
        assert(view_opt(d) == deciphered_at(deciphered@, i as int));
        match stream_url(rw, need, &entries[i], d) {
            Some(u) => {
                urls.push(u);
            },
            None => {
                return Err(FetchPlayerError::FailedToDecipher(String::from_str(NO_USABLE_URL)));
            },
        }
        i = i + 1;
    }
    Ok(urls)
}

/// With local streaming in effect, and unless streams are deciphered on the
/// video route, every rewritten stream URL starts with the gateway's public
/// base URL and carries `local=true`; without it, every one carries
/// `local=false`.
pub proof fn lemma_local_links_through_gateway(
    rw: RewriteView,
    need: bool,
    e: StreamEntry,
    deciphered: Option<Seq<char>>,
)
    requires
        !(need && rw.decipher_now),
        planned_url(rw, need, e, deciphered) is Some,
    ensures
        starts_with(planned_url(rw, need, e, deciphered)->0, rw.public_base),
        ends_with(planned_url(rw, need, e, deciphered)->0, "&local="@ + bool_text(rw.local)),
{
    let u = planned_url(rw, need, e, deciphered)->0;
    let tail = "&local="@ + bool_text(rw.local);
    let base = rw.public_base;
    if need {
        let c = e.signature_cipher->0;
        let mid = "/decipher_stream?signature_cipher="@ + percent_encoded(c@) + "&player_js_id="@
            + rw.player_js_id + "&video_id="@ + rw.video_id;
        assert(u =~= base + mid + tail);
        assert(u.subrange(0, base.len() as int) =~= base);
        assert(u.subrange(u.len() - tail.len(), u.len() as int) =~= tail);
    } else {
        let (host, path) = origin_parts(e.url->0@)->0;
        let mid = path + "&host="@ + percent_encoded(host);
        assert(u =~= base + mid + tail);
        assert(u.subrange(0, base.len() as int) =~= base);
        assert(u.subrange(u.len() - tail.len(), u.len() as int) =~= tail);
    }
}


impl StreamRewrite {
    /// The rewrite for a `player` payload of `video_id` fetched with script
    /// generation `player_js_id`: links carry `local` only where local
    /// streaming is enabled.
    pub fn new(
        settings: &AppSettings,
        public_base: &str,
        player_js_id: &str,
        video_id: &str,
        local: bool,
    ) -> (r: StreamRewrite)
        ensures
            r.public_base@ == public_base@,
            r.player_js_id@ == player_js_id@,
            r.video_id@ == video_id@,
            r.local == (local && settings.enable_local_streaming),
            r.decipher_now == settings.decipher_on_video_endpoint,
    {
        StreamRewrite {
            public_base: String::from_str(public_base),
            player_js_id: String::from_str(player_js_id),
            video_id: String::from_str(video_id),
            local: local && settings.enable_local_streaming,
            decipher_now: settings.decipher_on_video_endpoint,
        }
    }
}

/// The signature ciphers of every entry, in order, to decipher them all at
/// once; `FailedToDecipher` where an entry has none.
pub fn signature_ciphers(entries: &Vec<StreamEntry>) -> (r: Result<Vec<String>, FetchPlayerError>)
    ensures
        match r {
            Ok(cs) => cs.len() == entries.len() && forall|i: int|
                0 <= i < entries.len() ==> ((#[trigger] entries@[i]).signature_cipher matches Some(
                    c,
                ) && cs@[i]@ == c@),
            Err(e) => (e matches FetchPlayerError::FailedToDecipher(m) && m@ == NO_CIPHER@)
                && exists|i: int|
                0 <= i < entries.len() && (#[trigger] entries@[i]).signature_cipher is None,
        },
{
    let mut cs: Vec<String> = Vec::new();
    let mut i: usize = 0;
    while i < entries.len()
        invariant
            i <= entries.len(),
            cs.len() == i,
            forall|k: int|
                0 <= k < i ==> ((#[trigger] entries@[k]).signature_cipher matches Some(c) && cs@[k]@
                    == c@),
        decreases entries.len() - i,
    {
        match &entries[i].signature_cipher {
            Some(c) => cs.push(c.clone()),
            None => {
                return Err(FetchPlayerError::FailedToDecipher(String::from_str(NO_CIPHER)));
            },
        }
        i = i + 1;
    }
    Ok(cs)
}

} // verus!
