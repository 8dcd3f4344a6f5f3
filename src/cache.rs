//! The request cache: how entries are keyed and when a stored entry is
//! still served.

use vstd::prelude::*;
use crate::streams::{bool_str, bool_text};

verus! {

/// What to do with an entry found in the cache.
#[derive(PartialEq, Eq, Structural)]
pub enum CacheVerdict {
    /// Hand it out as it is.
    Serve,
    /// Delete it and treat the lookup as a miss.
    Evict,
}

/// An entry stamped at `stamped_at` is stale at `now` once more than
/// `timeout` seconds have passed.
pub open spec fn is_stale(stamped_at: i64, now: i64, timeout: u64) -> bool {
    now - stamped_at > timeout
}

pub open spec fn verdict_spec(timestamp: Option<i64>, now: i64, timeout: u64) -> CacheVerdict {
    match timestamp {
        Some(t) => if is_stale(t, now, timeout) {
            CacheVerdict::Evict
        } else {
            CacheVerdict::Serve
        },
        None => CacheVerdict::Serve,
    }
}

/// Judges an entry by its top-level `timestamp`, if it has one; an entry
/// without one never goes stale.
pub fn judge_entry(timestamp: Option<i64>, now: i64, timeout: u64) -> (r: CacheVerdict)
    ensures
        r == verdict_spec(timestamp, now, timeout),
{
    match timestamp {
        Some(t) => {
            if (now as i128) - (t as i128) > timeout as i128 {
                CacheVerdict::Evict
            } else {
                CacheVerdict::Serve
            }
        },
        None => CacheVerdict::Serve,
    }
}

/// What a cache read comes to.
#[derive(PartialEq, Eq, Structural)]
pub enum CacheLookup {
    /// Caching is off: nothing was read.
    Disabled,
    /// Nothing is stored under the key.
    Miss,
    /// The stored entry is stale: delete it and fetch anew.
    Stale,
    /// Serve the stored entry as it is.
    Hit,
}

pub open spec fn lookup_spec(
    cache_requests: bool,
    timeout: u64,
    found: Option<Option<i64>>,
    now: i64,
) -> CacheLookup {
    if !cache_requests {
        CacheLookup::Disabled
    } else {
        match found {
            None => CacheLookup::Miss,
            Some(ts) => if verdict_spec(ts, now, timeout) == CacheVerdict::Evict {
                CacheLookup::Stale
            } else {
                CacheLookup::Hit
            },
        }
    }
}

/// Decides a cache read: `found` is what the store holds under the key
/// (`Some(ts)` for an entry, with its top-level `timestamp` if it has one).
/// Only a `Hit` spares the upstream call; a `Stale` entry is deleted first.
pub fn cache_lookup(cache_requests: bool, timeout: u64, found: Option<Option<i64>>, now: i64) -> (r:
    CacheLookup)
    ensures
        r == lookup_spec(cache_requests, timeout, found, now),
{
    if !cache_requests {
        return CacheLookup::Disabled;
    }
    match found {
        None => CacheLookup::Miss,
        Some(ts) => match judge_entry(ts, now, timeout) {
            CacheVerdict::Evict => CacheLookup::Stale,
            CacheVerdict::Serve => CacheLookup::Hit,
        },
    }
}

/// A video resolved and stored at `stamped_at` is served from the cache by
/// every read up to `timeout` seconds later, so those calls reach no
/// upstream endpoint; the first read after that finds it stale, deletes it
/// and fetches once more.
pub proof fn lemma_stored_entry_lifetime(stamped_at: i64, now: i64, timeout: u64)
    requires
        stamped_at <= now,
    ensures
        now <= stamped_at + timeout ==> lookup_spec(true, timeout, Some(Some(stamped_at)), now)
            == CacheLookup::Hit,
        now > stamped_at + timeout ==> lookup_spec(true, timeout, Some(Some(stamped_at)), now)
            == CacheLookup::Stale,
{
}

/// `a-b`
pub open spec fn pair_key_spec(a: Seq<char>, b: Seq<char>) -> Seq<char> {
    a + "-"@ + b
}

/// The key `a-b`: for `next` (`{videoId}-{lang}`), for `playlist`
/// (`{playlistId}-{lang}` or `{token}-{lang}`), and the embedded store's
/// `{collection}-{key}`.
pub fn pair_key(a: &str, b: &str) -> (r: String)
    ensures
        r@ == pair_key_spec(a@, b@),
{
    let mut r = String::from_str(a);
    r.append("-");
    r.append(b);
    r
}

/// `{videoId}-{lang}-{local}`
pub open spec fn player_key_spec(video_id: Seq<char>, lang: Seq<char>, local: bool) -> Seq<char> {
    video_id + "-"@ + lang + "-"@ + bool_text(local)
}

/// The key of a resolved `player` payload.
pub fn player_key(video_id: &str, lang: &str, local: bool) -> (r: String)
    ensures
        r@ == player_key_spec(video_id@, lang@, local),
{
    let mut r = String::from_str(video_id);
    r.append("-");
    r.append(lang);
    r.append("-");
    r.append(bool_str(local));
    r
}

/// The same video and language never share a `player` entry between local
/// and non-local links.
pub proof fn lemma_player_keys_differ_by_local(video_id: Seq<char>, lang: Seq<char>)
    ensures
        player_key_spec(video_id, lang, true) != player_key_spec(video_id, lang, false),
{
    reveal_strlit("true");
    reveal_strlit("false");
    assert(player_key_spec(video_id, lang, true).len() + 1 == player_key_spec(
        video_id,
        lang,
        false,
    ).len());
}

/// The name of the document collection that holds `collection`.
pub fn document_collection(collection: &str) -> (r: String)
    ensures
        r@ == "yayti."@ + collection@,
{
    let mut r = String::from_str("yayti.");
    r.append(collection);
    r
}

} // verus!
