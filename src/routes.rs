//! What the HTTP routes decide: query parameters and their defaults, the
//! stream a `/latest_version` request names, the plan of `/videoplayback`
//! and `/decipher_stream`, and the JSON error bodies.

use vstd::prelude::*;
use crate::outside::{percent_decode, percent_decoded, parse_i32, i32_text_value};
use crate::streams::{proxied_link, proxied_link_spec, str_eq};
use crate::text::{contains_seq, find_str, int_text, int_to_text, escape_quotes, escape_double_quotes};

verus! {

/// The language asked for, `en` by default.
pub open spec fn lang_or_default(hl: Option<String>) -> Seq<char> {
    match hl {
        Some(l) => l@,
        None => "en"@,
    }
}

pub fn lang_of(hl: &Option<String>) -> (r: String)
    ensures
        r@ == lang_or_default(*hl),
{
    match hl {
        Some(l) => l.clone(),
        None => String::from_str("en"),
    }
}

/// Query parameters of `/api/v1/videos/{id}`.
pub struct VideoEndpointQueryParams {
    pub hl: Option<String>,
    pub local: Option<bool>,
    pub fields: Option<String>,
    pub pretty: Option<i32>,
}

impl VideoEndpointQueryParams {
    pub fn lang(&self) -> (r: String)
        ensures
            r@ == lang_or_default(self.hl),
    {
        lang_of(&self.hl)
    }

    /// Local streaming is off unless asked for.
    pub fn is_local(&self) -> (r: bool)
        ensures
            r == (self.local == Some(true)),
    {
        match self.local {
            Some(l) => l,
            None => false,
        }
    }

    /// Indented JSON is asked for with `pretty=1`.
    pub fn is_pretty(&self) -> (r: bool)
        ensures
            r == (self.pretty == Some(1i32)),
    {
        match self.pretty {
            Some(p) => p == 1,
            None => false,
        }
    }
}

/// Query parameters of `/latest_version`.
pub struct LatestVersionQueryParams {
    pub id: String,
    pub itag: String,
    pub local: Option<bool>,
    pub hl: Option<String>,
}

impl LatestVersionQueryParams {
    /// The itag asked for; 0 where it is not a number.
    pub fn itag_number(&self) -> (r: i32)
        ensures
            r == match i32_text_value(self.itag@) {
                Some(v) => v,
                None => 0,
            },
    {
        match parse_i32(self.itag.as_str()) {
            Some(v) => v,
            None => 0,
        }
    }

    pub fn lang(&self) -> (r: String)
        ensures
            r@ == lang_or_default(self.hl),
    {
        lang_of(&self.hl)
    }

    pub fn is_local(&self) -> (r: bool)
        ensures
            r == (self.local == Some(true)),
    {
        match self.local {
            Some(l) => l,
            None => false,
        }
    }
}

/// One stream of a `player` payload, by itag.
pub struct StreamFormat {
    pub itag: i32,
    pub url: Option<String>,
}

/// The first position at or after `i` of a stream with itag `itag`.
pub open spec fn itag_from(list: Seq<StreamFormat>, itag: i32, i: int) -> Option<int>
    decreases list.len() - i,
{
    if i < 0 || i >= list.len() {
        None
    } else if list[i].itag == itag {
        Some(i)
    } else {
        itag_from(list, itag, i + 1)
    }
}

/// The itags a scan passes over: up to and including the first match, or
/// all of them.
pub open spec fn scanned_itags(list: Seq<StreamFormat>, itag: i32) -> Seq<i32> {
    let end = match itag_from(list, itag, 0) {
        Some(i) => i + 1,
        None => list.len() as int,
    };
    list.subrange(0, end).map_values(|f: StreamFormat| f.itag)
}

/// The url of the stream a `/latest_version` request picks: the first
/// adaptive stream with the itag, else the first legacy one.
pub open spec fn picked_stream(legacy: Seq<StreamFormat>, adaptive: Seq<StreamFormat>, itag: i32) -> Option<Option<String>> {
    match itag_from(adaptive, itag, 0) {
        Some(j) => Some(adaptive[j].url),
        None => match itag_from(legacy, itag, 0) {
            Some(i) => Some(legacy[i].url),
            None => None,
        },
    }
}

fn scan_itag(list: &Vec<StreamFormat>, itag: i32, seen: &mut Vec<i32>) -> (r: Option<usize>)
    ensures
        match r {
            Some(i) => i < list.len() && itag_from(list@, itag, 0) == Some(i as int),
            None => itag_from(list@, itag, 0) is None,
        },
        final(seen)@ == old(seen)@ + scanned_itags(list@, itag),
{
    let ghost start = seen@;
    let mut i: usize = 0;
    while i < list.len()
        invariant
            i <= list.len(),
            start == old(seen)@,
            itag_from(list@, itag, 0) == itag_from(list@, itag, i as int),
            seen@ == start + list@.subrange(0, i as int).map_values(|f: StreamFormat| f.itag),
        decreases list.len() - i,
    {
        seen.push(list[i].itag);
        assert(list@.subrange(0, i + 1).map_values(|f: StreamFormat| f.itag) =~= list@.subrange(
            0,
            i as int,
        ).map_values(|f: StreamFormat| f.itag).push(list@[i as int].itag));
        assert(seen@ =~= start + list@.subrange(0, i + 1).map_values(|f: StreamFormat| f.itag));
        if list[i].itag == itag {
            assert(itag_from(list@, itag, i as int) == Some(i as int));
            assert(scanned_itags(list@, itag) == list@.subrange(0, i + 1).map_values(
                |f: StreamFormat| f.itag,
            ));
            return Some(i);
        }
        i = i + 1;
    }
    assert(list@.subrange(0, list.len() as int) =~= list@);
    None
}

/// Looks for the stream with itag `itag`: the url of the one picked (see
/// `picked_stream`), and every itag passed over on the way, legacy streams
/// first.
pub fn find_stream_by_itag(
    legacy: &Vec<StreamFormat>,
    adaptive: &Vec<StreamFormat>,
    itag: i32,
) -> (r: (Option<Option<String>>, Vec<i32>))
    ensures
        r.0 == picked_stream(legacy@, adaptive@, itag),
        r.1@ == scanned_itags(legacy@, itag) + scanned_itags(adaptive@, itag),
{
    let mut seen: Vec<i32> = Vec::new();
    let l = scan_itag(legacy, itag, &mut seen);
    let a = scan_itag(adaptive, itag, &mut seen);
    assert(seen@ =~= scanned_itags(legacy@, itag) + scanned_itags(adaptive@, itag));
    let picked = match a {
        Some(j) => Some(adaptive[j].url.clone()),
        None => match l {
            Some(i) => Some(legacy[i].url.clone()),
            None => None,
        },
    };
    (picked, seen)
}

/// The itags joined with commas.
pub open spec fn itags_text(itags: Seq<i32>) -> Seq<char>
    decreases itags.len(),
{
    if itags.len() == 0 {
        Seq::empty()
    } else if itags.len() == 1 {
        int_text(itags[0] as int)
    } else {
        itags_text(itags.drop_last()) + ","@ + int_text(itags.last() as int)
    }
}

pub fn join_itags(itags: &Vec<i32>) -> (r: String)
    ensures
        r@ == itags_text(itags@),
{
    let mut r = String::new();
    let mut i: usize = 0;
    while i < itags.len()
        invariant
            i <= itags.len(),
            r@ == itags_text(itags@.subrange(0, i as int)),
        decreases itags.len() - i,
    {
        assert(itags@.subrange(0, i + 1).drop_last() =~= itags@.subrange(0, i as int));
        if i > 0 {
            r.append(",");
        }
        r.append(int_to_text(itags[i] as i64).as_str());
        i = i + 1;
    }
    assert(itags@.subrange(0, itags.len() as int) =~= itags@);
    r
}

/// The 404 body when no stream has the itag asked for.
pub fn itag_not_found_body(itag: i32, available: &Vec<i32>) -> (r: String)
    ensures
        r@ == "{\"type\":\"error\",\"message\":\"No streams found matching the given itag: "@
            + int_text(itag as int) + "\",\"available_streams\":["@ + itags_text(available@)
            + "]}"@,
{
    let mut r = String::from_str(
        "{\"type\":\"error\",\"message\":\"No streams found matching the given itag: ",
    );
    r.append(int_to_text(itag as i64).as_str());
    r.append("\",\"available_streams\":[");
    r.append(join_itags(available).as_str());
    r.append("]}");
    r
}

/// The 500 body when the stream with the itag has no url.
pub fn itag_without_url_body(itag: i32) -> (r: String)
    ensures
        r@ == "{\"type\":\"error\",\"message\":\"A stream was found matching the given itag: "@
            + int_text(itag as int) + ", but there was an error returning the url.\"}"@,
{
    let mut r = String::from_str(
        "{\"type\":\"error\",\"message\":\"A stream was found matching the given itag: ",
    );
    r.append(int_to_text(itag as i64).as_str());
    r.append(", but there was an error returning the url.\"}");
    r
}

/// Query parameters of `/videoplayback`.
pub struct VideoPlaybackQueryParams {
    pub host: String,
    pub local: Option<bool>,
}

/// What `/videoplayback` does with a request.
pub enum PlaybackPlan {
    /// 403: local streaming is asked for but disabled.
    LocalDisabled,
    /// 400: the `host` parameter does not decode.
    BadHost,
    /// Pipe the request through to this origin URL.
    Proxy(String),
    /// 302 to this origin URL.
    Redirect(String),
}

/// Plans a `/videoplayback` request whose path and query are `request_uri`:
/// local streaming (the default) pipes it to
/// `https://{decoded host}{request_uri}`, otherwise the client is sent
/// there.
pub fn playback_plan(
    enable_local_streaming: bool,
    params: &VideoPlaybackQueryParams,
    request_uri: &str,
) -> (r: PlaybackPlan)
    ensures
        ({
            let local = params.local != Some(false);
            if local && !enable_local_streaming {
                r is LocalDisabled
            } else {
                match percent_decoded(params.host@) {
                    None => r is BadHost,
                    Some(h) => {
                        let url = "https://"@ + h + request_uri@;
                        if local {
                            r matches PlaybackPlan::Proxy(u) && u@ == url
                        } else {
                            r matches PlaybackPlan::Redirect(u) && u@ == url
                        }
                    },
                }
            }
        }),
{
    let local = match params.local {
        Some(l) => l,
        None => true,
    };
    if local && !enable_local_streaming {
        return PlaybackPlan::LocalDisabled;
    }
    match percent_decode(params.host.as_str()) {
        None => PlaybackPlan::BadHost,
        Some(h) => {
            let mut url = String::from_str("https://");
            url.append(h.as_str());
            url.append(request_uri);
            if local {
                PlaybackPlan::Proxy(url)
            } else {
                PlaybackPlan::Redirect(url)
            }
        },
    }
}

/// A client request header that is passed on to the origin.
pub fn forwards_request_header(name: &str) -> (r: bool)
    ensures
        r == !(name@ == "referrer"@ || name@ == "access-control-allow-origin"@ || name@
            == "connection"@),
{
    !(str_eq(name, "referrer") || str_eq(name, "access-control-allow-origin") || str_eq(
        name,
        "connection",
    ))
}

/// An origin response header that is passed back to the client.
pub fn forwards_response_header(name: &str) -> (r: bool)
    ensures
        r == (name@ != "content-length"@),
{
    !str_eq(name, "content-length")
}

/// Query parameters of `/decipher_stream`.
pub struct DecipherStreamQueryParams {
    pub signature_cipher: String,
    pub player_js_id: String,
    pub video_id: String,
    pub local: Option<bool>,
}

impl DecipherStreamQueryParams {
    pub fn is_local(&self) -> (r: bool)
        ensures
            r == (self.local == Some(true)),
    {
        match self.local {
            Some(l) => l,
            None => false,
        }
    }
}

/// The text holds something that no signature cipher holds: a quote, a
/// semicolon, a bracket or parenthesis, or a `function`, `for` or `while`.
pub open spec fn is_refused_payload(s: Seq<char>) -> bool {
    contains_seq(s, "\""@) || contains_seq(s, "'"@) || contains_seq(s, ";"@) || contains_seq(
        s,
        "function"@,
    ) || contains_seq(s, "for"@) || contains_seq(s, "while"@) || contains_seq(s, "("@)
        || contains_seq(s, "{"@) || contains_seq(s, "["@) || contains_seq(s, "]"@)
        || contains_seq(s, "}"@) || contains_seq(s, ")"@)
}

fn has(s: &str, p: &str) -> (r: bool)
    ensures
        r == contains_seq(s@, p@),
{
    find_str(s, p).is_some()
}

/// Refuses a decoded signature cipher that could inject code.
pub fn refuses_payload(s: &str) -> (r: bool)
    ensures
        r == is_refused_payload(s@),
{
    has(s, "\"") || has(s, "'") || has(s, ";") || has(s, "function") || has(s, "for") || has(
        s,
        "while",
    ) || has(s, "(") || has(s, "{") || has(s, "[") || has(s, "]") || has(s, "}") || has(s, ")")
}

/// What `/decipher_stream` does before deciphering.
pub enum DecipherCheck {
    /// 403: the route is disabled.
    Disabled,
    /// 500: the cipher does not decode.
    Undecodable,
    /// 400: the decoded cipher could inject code.
    Refused,
    /// Decipher this decoded cipher.
    Accepted(String),
}

/// Checks a `/decipher_stream` request.
pub fn check_decipher_request(decipher_streams: bool, signature_cipher: &str) -> (r: DecipherCheck)
    ensures
        !decipher_streams ==> r is Disabled,
        decipher_streams ==> match percent_decoded(signature_cipher@) {
            None => r is Undecodable,
            Some(d) => if is_refused_payload(d) {
                r is Refused
            } else {
                r matches DecipherCheck::Accepted(c) && c@ == d
            },
        },
{
    if !decipher_streams {
        return DecipherCheck::Disabled;
    }
    match percent_decode(signature_cipher) {
        None => DecipherCheck::Undecodable,
        Some(d) => {
            if refuses_payload(d.as_str()) {
                DecipherCheck::Refused
            } else {
                DecipherCheck::Accepted(d)
            }
        },
    }
}

/// What `/decipher_stream` answers once the cipher has run.
pub enum DecipherOutcome {
    /// 302 to this gateway link.
    Redirect(String),
    /// 500: the deciphered URL does not work; the cached `player` entry is
    /// dropped.
    BrokenLink(String),
    /// 500: deciphering failed with this message; the cached `player` entry
    /// is dropped.
    Failed(String),
}

/// Decides the answer from what deciphering gave and whether the origin
/// accepted the deciphered URL (`probe_ok`). A working URL becomes a
/// gateway link with an empty base: its path, the encoded host and `local`.
pub fn decipher_outcome(deciphered: Result<String, String>, probe_ok: bool, local: bool) -> (r:
    DecipherOutcome)
    ensures
        match deciphered {
            Err(e) => r matches DecipherOutcome::Failed(m) && m@ == e@,
            Ok(u) => if !probe_ok {
                r matches DecipherOutcome::BrokenLink(b) && b@ == u@
            } else {
                match proxied_link_spec(Seq::empty(), u@, local) {
                    Some(l) => r matches DecipherOutcome::Redirect(x) && x@ == l,
                    None => r matches DecipherOutcome::BrokenLink(b) && b@ == u@,
                }
            },
        },
{
    match deciphered {
        Err(e) => DecipherOutcome::Failed(e),
        Ok(u) => {
            if !probe_ok {
                return DecipherOutcome::BrokenLink(u);
            }
            proof {
                reveal_strlit("");
            }
            match proxied_link("", u.as_str(), local) {
                Some(l) => DecipherOutcome::Redirect(l),
                None => DecipherOutcome::BrokenLink(u),
            }
        },
    }
}

/// The 500 body of a deciphering error, its quotes escaped.
pub fn decipher_failed_body(message: &str) -> (r: String)
    ensures
        r@ == "{\"type\":\"error\",\"message\":\""@ + escape_quotes(message@) + "\"}"@,
{
    let mut r = String::from_str("{\"type\":\"error\",\"message\":\"");
    r.append(escape_double_quotes(message).as_str());
    r.append("\"}");
    r
}

/// The 500 body of a deciphered URL that does not work.
pub fn broken_link_body(url: &str) -> (r: String)
    ensures
        r@
            == "{\"type\":\"error\",\"message\":\"Deciphering JS ran without fail, but the result was a broken link.\",\"url\":\""@
            + url@ + "\"}"@,
{
    let mut r = String::from_str(
        "{\"type\":\"error\",\"message\":\"Deciphering JS ran without fail, but the result was a broken link.\",\"url\":\"",
    );
    r.append(url);
    r.append("\"}");
    r
}

/// The body of an error that carries only a message.
pub fn error_body(message: &str) -> (r: String)
    ensures
        r@ == "{\"type\":\"error\",\"message\":\""@ + message@ + "\"}"@,
{
    let mut r = String::from_str("{\"type\":\"error\",\"message\":\"");
    r.append(message);
    r.append("\"}");
    r
}

/// The body of an error with a message and an inner message.
pub fn error_body_with_inner(message: &str, inner: &str) -> (r: String)
    ensures
        r@ == "{\"type\":\"error\",\"message\":\""@ + message@ + "\",\"inner_message\":\""@
            + inner@ + "\"}"@,
{
    let mut r = String::from_str("{\"type\":\"error\",\"message\":\"");
    r.append(message);
    r.append("\",\"inner_message\":\"");
    r.append(inner);
    r.append("\"}");
    r
}

/// The 404 body for a path no route serves.
pub fn not_found_body(path: &str) -> (r: String)
    ensures
        r@ == "{\"type\":\"error\",\"message\":\"The requested path '/"@ + path@
            + "' was not found on this server.\"}"@,
{
    let mut r = String::from_str("{\"type\":\"error\",\"message\":\"The requested path '/");
    r.append(path);
    r.append("' was not found on this server.\"}");
    r
}

} // verus!
