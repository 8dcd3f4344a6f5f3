//! Keeping the current player script and its signature timestamp.
//!
//! Three `player` entries describe one script generation and are written
//! together: `player.js-id`, `player.js-{id}` and `signature_timestamp`.

use vstd::prelude::*;
use crate::streams::{str_eq, FetchPlayerError};

verus! {

/// A value the script manager stores.
pub enum StoredValue {
    Text(String),
    Number(i32),
}

/// What a stored value holds.
pub enum StoredView {
    Text(Seq<char>),
    Number(int),
}

impl StoredValue {
    pub open spec fn view_of(self) -> StoredView {
        match self {
            StoredValue::Text(t) => StoredView::Text(t@),
            StoredValue::Number(n) => StoredView::Number(n as int),
        }
    }
}

/// One step of a cache update within the `player` collection.
pub enum CacheOp {
    Delete { key: String },
    Put { key: String, value: StoredValue },
}

/// The key of a script's source: `player.js-{id}`.
pub open spec fn script_key_spec(id: Seq<char>) -> Seq<char> {
    "player.js-"@ + id
}

pub fn script_key(id: &str) -> (r: String)
    ensures
        r@ == script_key_spec(id@),
{
    let mut r = String::from_str("player.js-");
    r.append(id);
    r
}

/// A new script must be fetched when the caller pins a generation, when no
/// id is cached, or when the cached id is not the current one.
pub open spec fn needs_refresh_spec(pinned: bool, cached_id: Option<Seq<char>>, current_id: Seq<
    char,
>) -> bool {
    pinned || match cached_id {
        Some(c) => c != current_id,
        None => true,
    }
}

/// Decides whether the script of generation `current_id` must be fetched.
pub fn script_needs_refresh(pinned: bool, cached_id: Option<&str>, current_id: &str) -> (r: bool)
    ensures
        r == needs_refresh_spec(
            pinned,
            match cached_id {
                Some(c) => Some(c@),
                None => None,
            },
            current_id@,
        ),
{
    if pinned {
        return true;
    }
    match cached_id {
        Some(c) => !str_eq(c, current_id),
        None => true,
    }
}

pub open spec fn refresh_ops_spec(id: Seq<char>, source: Seq<char>, timestamp: int) -> Seq<
    (bool, Seq<char>, Option<StoredView>),
> {
    seq![
        (false, "player.js-id"@, None),
        (true, "player.js-id"@, Some(StoredView::Text(id))),
        (false, script_key_spec(id), None),
        (true, script_key_spec(id), Some(StoredView::Text(source))),
        (false, "signature_timestamp"@, None),
        (true, "signature_timestamp"@, Some(StoredView::Number(timestamp))),
    ]
}

/// An op as (is a write, key, value written).
pub open spec fn op_view(op: CacheOp) -> (bool, Seq<char>, Option<StoredView>) {
    match op {
        CacheOp::Delete { key } => (false, key@, None),
        CacheOp::Put { key, value } => (true, key@, Some(value.view_of())),
    }
}

/// The cache updates after fetching the script `source` of generation `id`
/// with signature timestamp `timestamp`: each of the three entries is
/// deleted and written anew. A pinned generation writes nothing, so the
/// current generation's entries stay as they are.
pub fn refresh_ops(pinned: bool, id: &str, source: &str, timestamp: i32) -> (r: Vec<CacheOp>)
    ensures
        pinned ==> r.len() == 0,
        !pinned ==> r@.map_values(|op: CacheOp| op_view(op)) == refresh_ops_spec(
            id@,
            source@,
            timestamp as int,
        ),
{
    let mut r: Vec<CacheOp> = Vec::new();
    if pinned {
        return r;
    }
    r.push(CacheOp::Delete { key: String::from_str("player.js-id") });
    r.push(CacheOp::Put { key: String::from_str("player.js-id"), value: StoredValue::Text(String::from_str(id)) });
    r.push(CacheOp::Delete { key: script_key(id) });
    r.push(CacheOp::Put { key: script_key(id), value: StoredValue::Text(String::from_str(source)) });
    r.push(CacheOp::Delete { key: String::from_str("signature_timestamp") });
    r.push(CacheOp::Put { key: String::from_str("signature_timestamp"), value: StoredValue::Number(timestamp) });
    assert(r@.map_values(|op: CacheOp| op_view(op)) =~= refresh_ops_spec(id@, source@, timestamp as int));
    r
}

/// The `player` collection, as a map from key to value, after `ops`
/// (each: is a write, key, value written).
pub open spec fn apply_views(store: Map<Seq<char>, StoredView>, ops: Seq<(bool, Seq<char>, Option<StoredView>)>) -> Map<Seq<char>, StoredView>
    decreases ops.len(),
{
    if ops.len() == 0 {
        store
    } else {
        let (write, key, value) = ops[0];
        let next = if write {
            store.insert(key, value->0)
        } else {
            store.remove(key)
        };
        apply_views(next, ops.drop_first())
    }
}

/// After a refresh for generation `id`, the three entries hold that one
/// generation: its id, its source and its timestamp. The next unpinned
/// lookup whose upstream id is still `id` then reuses them and fetches no
/// script. (An id of `id` would make `player.js-{id}` the key
/// `player.js-id` itself, and is left out.)
pub proof fn lemma_refresh_then_reuse(
    store: Map<Seq<char>, StoredView>,
    id: Seq<char>,
    source: Seq<char>,
    timestamp: int,
)
    requires
        id != "id"@,
    ensures
        ({
            let after = apply_views(store, refresh_ops_spec(id, source, timestamp));
            &&& after.contains_key("player.js-id"@)
            &&& after["player.js-id"@] == StoredView::Text(id)
            &&& after.contains_key(script_key_spec(id))
            &&& after[script_key_spec(id)] == StoredView::Text(source)
            &&& after.contains_key("signature_timestamp"@)
            &&& after["signature_timestamp"@] == StoredView::Number(timestamp)
            &&& !needs_refresh_spec(false, Some(id), id)
        }),
{
    reveal_strlit("player.js-id");
    reveal_strlit("player.js-");
    reveal_strlit("signature_timestamp");
    let ops = refresh_ops_spec(id, source, timestamp);
    reveal_with_fuel(apply_views, 7);
    assert(ops.drop_first()[0] == ops[1]);
    let s1 = store.remove("player.js-id"@);
    let s2 = s1.insert("player.js-id"@, StoredView::Text(id));
    let s3 = s2.remove(script_key_spec(id));
    let s4 = s3.insert(script_key_spec(id), StoredView::Text(source));
    let s5 = s4.remove("signature_timestamp"@);
    let s6 = s5.insert("signature_timestamp"@, StoredView::Number(timestamp));
    assert(ops.drop_first() =~= seq![ops[1], ops[2], ops[3], ops[4], ops[5]]);
    assert(ops.drop_first().drop_first() =~= seq![ops[2], ops[3], ops[4], ops[5]]);
    assert(ops.drop_first().drop_first().drop_first() =~= seq![ops[3], ops[4], ops[5]]);
    assert(ops.drop_first().drop_first().drop_first().drop_first() =~= seq![ops[4], ops[5]]);
    assert(ops.drop_first().drop_first().drop_first().drop_first().drop_first() =~= seq![ops[5]]);
    assert(ops.drop_first().drop_first().drop_first().drop_first().drop_first().drop_first() =~= Seq::<(bool, Seq<char>, Option<StoredView>)>::empty());
    assert(apply_views(store, ops) == s6);
    assert(script_key_spec(id) != "signature_timestamp"@) by {
        if script_key_spec(id) == "signature_timestamp"@ {
            assert(script_key_spec(id)[7] == "signature_timestamp"@[7]);
        }
    }
    assert(script_key_spec(id) != "player.js-id"@) by {
        reveal_strlit("id");
        if script_key_spec(id) == "player.js-id"@ {
            assert(script_key_spec(id).subrange(10, script_key_spec(id).len() as int) =~= id);
            assert("player.js-id"@.subrange(10, 12) =~= "id"@);
        }
    }
    assert("player.js-id"@ != "signature_timestamp"@) by {
        assert("player.js-id"@.len() != "signature_timestamp"@.len());
    }
    assert(s6.contains_key("player.js-id"@));
    assert(s6["player.js-id"@] == StoredView::Text(id));
    assert(s6[script_key_spec(id)] == StoredView::Text(source));
}


/// How far a lookup of the player script has come.
pub enum ScriptState {
    Start,
    /// Waiting for the id of the current script upstream.
    AwaitingId,
    /// Waiting for the cached id, to compare with `id`.
    AwaitingCachedId { id: String },
    /// Waiting for the cached source and timestamp of `id`.
    AwaitingCachedScript { id: String },
    /// Waiting for the source of `id` from upstream.
    AwaitingSource { id: String, pinned: bool },
    Finished,
}

/// What an outside call gave back.
pub enum ScriptEvent {
    /// The lookup begins, for a pinned generation or for the current one.
    Started { pinned: Option<String> },
    CurrentId { id: String },
    CachedId { id: Option<String> },
    CachedScript { source: Option<String>, timestamp: Option<i64> },
    /// The fetched source, and the signature timestamp read from it.
    SourceFetched { source: String, timestamp: Result<i32, core::num::ParseIntError> },
    Failed(FetchPlayerError),
}

/// What to do next.
pub enum ScriptAction {
    FetchCurrentId,
    /// Read the cached `player.js-id`.
    ReadCachedId,
    /// Read the cached source under `key`, and `signature_timestamp`.
    ReadCachedScript { key: String },
    FetchSource { id: String },
    /// Apply `writes` to the `player` collection; the script is `source`,
    /// of generation `id`, with `signature_timestamp`.
    Done { source: String, signature_timestamp: i32, id: String, writes: Vec<CacheOp> },
    Fail(FetchPlayerError),
    /// The event does not belong to this state: nothing to do.
    Ignore,
}

pub open spec fn opt_text(o: Option<String>) -> Option<Seq<char>> {
    match o {
        Some(s) => Some(s@),
        None => None,
    }
}

/// Takes one step of a script lookup. A pinned generation is always
/// fetched and never written; the current one is read from the cache when
/// its id is cached and its source and timestamp are there, and otherwise
/// fetched and written as one generation.
pub fn script_step(state: ScriptState, event: ScriptEvent) -> (r: (ScriptState, ScriptAction))
    ensures
        match (state, event) {
            (ScriptState::Finished, ScriptEvent::Failed(_)) => r.0 is Finished && r.1 is Ignore,
            (_, ScriptEvent::Failed(e)) => r.0 is Finished && r.1 == ScriptAction::Fail(e),
            (ScriptState::Start, ScriptEvent::Started { pinned: Some(p) }) => (r.0 matches ScriptState::AwaitingSource { id, pinned } && id@ == p@ && pinned)
                && (r.1 matches ScriptAction::FetchSource { id } && id@ == p@),
            (ScriptState::Start, ScriptEvent::Started { pinned: None }) => r.0 is AwaitingId && r.1 is FetchCurrentId,
            (ScriptState::AwaitingId, ScriptEvent::CurrentId { id: c }) => (r.0 matches ScriptState::AwaitingCachedId { id } && id@ == c@) && r.1 is ReadCachedId,
            (ScriptState::AwaitingCachedId { id: c }, ScriptEvent::CachedId { id: cached }) => if needs_refresh_spec(false, opt_text(cached), c@) {
                (r.0 matches ScriptState::AwaitingSource { id, pinned } && id@ == c@ && !pinned)
                    && (r.1 matches ScriptAction::FetchSource { id } && id@ == c@)
            } else {
                (r.0 matches ScriptState::AwaitingCachedScript { id } && id@ == c@)
                    && (r.1 matches ScriptAction::ReadCachedScript { key } && key@ == script_key_spec(c@))
            },
            (ScriptState::AwaitingCachedScript { id: c }, ScriptEvent::CachedScript { source, timestamp }) => match (source, timestamp) {
                (Some(s), Some(t)) if i32::MIN <= t <= i32::MAX => r.0 is Finished && (r.1 matches ScriptAction::Done { source, signature_timestamp, id, writes }
                    && source@ == s@ && signature_timestamp == t && id@ == c@ && writes.len() == 0),
                _ => (r.0 matches ScriptState::AwaitingSource { id, pinned } && id@ == c@ && !pinned)
                    && (r.1 matches ScriptAction::FetchSource { id } && id@ == c@),
            },
            (ScriptState::AwaitingSource { id: c, pinned: p }, ScriptEvent::SourceFetched { source: s, timestamp }) => match timestamp {
                Ok(t) => r.0 is Finished && (r.1 matches ScriptAction::Done { source, signature_timestamp, id, writes }
                    && source@ == s@ && signature_timestamp == t && id@ == c@
                    && (p ==> writes.len() == 0)
                    && (!p ==> writes@.map_values(|op: CacheOp| op_view(op)) == refresh_ops_spec(c@, s@, t as int))),
                Err(e) => r.0 is Finished && r.1 == ScriptAction::Fail(FetchPlayerError::SignatureTimestampNotFound(e)),
            },
            (s, _) => r.0 == s && r.1 is Ignore,
        },
{
    match event {
        ScriptEvent::Failed(e) => match state {
            ScriptState::Finished => (ScriptState::Finished, ScriptAction::Ignore),
            _ => (ScriptState::Finished, ScriptAction::Fail(e)),
        },
        ScriptEvent::Started { pinned } => match state {
            ScriptState::Start => match pinned {
                Some(p) => {
                    let id = p.clone();
                    (ScriptState::AwaitingSource { id: p, pinned: true }, ScriptAction::FetchSource { id })
                },
                None => (ScriptState::AwaitingId, ScriptAction::FetchCurrentId),
            },
            other => (other, ScriptAction::Ignore),
        },
        ScriptEvent::CurrentId { id } => match state {
            ScriptState::AwaitingId => (ScriptState::AwaitingCachedId { id }, ScriptAction::ReadCachedId),
            other => (other, ScriptAction::Ignore),
        },
        ScriptEvent::CachedId { id: cached } => match state {
            ScriptState::AwaitingCachedId { id } => {
                let cached_text: Option<&str> = match &cached {
                    Some(c) => Some(c.as_str()),
                    None => None,
                };
                if script_needs_refresh(false, cached_text, id.as_str()) {
                    let fetch = id.clone();
                    (ScriptState::AwaitingSource { id, pinned: false }, ScriptAction::FetchSource { id: fetch })
                } else {
                    let key = script_key(id.as_str());
                    (ScriptState::AwaitingCachedScript { id }, ScriptAction::ReadCachedScript { key })
                }
            },
            other => (other, ScriptAction::Ignore),
        },
        ScriptEvent::CachedScript { source, timestamp } => match state {
            ScriptState::AwaitingCachedScript { id } => match (source, timestamp) {
                (Some(s), Some(t)) if i32::MIN as i64 <= t && t <= i32::MAX as i64 => (
                    ScriptState::Finished,
                    ScriptAction::Done { source: s, signature_timestamp: t as i32, id, writes: Vec::new() },
                ),
                _ => {
                    let fetch = id.clone();
                    (ScriptState::AwaitingSource { id, pinned: false }, ScriptAction::FetchSource { id: fetch })
                },
            },
            other => (other, ScriptAction::Ignore),
        },
        ScriptEvent::SourceFetched { source, timestamp } => match state {
            ScriptState::AwaitingSource { id, pinned } => match timestamp {
                Ok(t) => {
                    let writes = refresh_ops(pinned, id.as_str(), source.as_str(), t);
                    (ScriptState::Finished, ScriptAction::Done { source, signature_timestamp: t, id, writes })
                },
                Err(e) => (ScriptState::Finished, ScriptAction::Fail(FetchPlayerError::SignatureTimestampNotFound(e))),
            },
            other => (other, ScriptAction::Ignore),
        },
    }
}

} // verus!
