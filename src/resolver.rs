//! Resolving the `player` payload of a video, one step at a time: each
//! step takes what the last outside call gave back and says what to do
//! next. The caller performs the calls (cache, player script, Innertube,
//! deciphering) and feeds their outcomes back in.

use vstd::prelude::*;
use crate::cache::{player_key, player_key_spec};
use crate::settings::AppSettings;
use crate::streams::{
    check_playability, need_decipher_spec, need_to_decipher, planned_url, deciphered_at,
    rewrite_stream_urls, signature_ciphers, FetchPlayerError, RewriteView, StreamEntry,
    StreamRewrite, NO_CIPHER, NO_USABLE_URL,
};

verus! {

/// The video being resolved.
pub struct ResolveRequest {
    pub video_id: String,
    pub lang: String,
    pub local: bool,
    /// The base URL that generated links start with.
    pub public_base: String,
}

/// How far a resolution has come.
pub enum ResolveState {
    Start,
    /// Waiting for the cached payload.
    LookingUp,
    /// Waiting for the current player script.
    LoadingScript,
    /// Waiting for the `player` payload fetched with script `script_id`.
    Fetching { script_id: String },
    /// Waiting for the ciphers of `entries` to be deciphered.
    Deciphering { script_id: String, entries: Vec<StreamEntry> },
    Finished,
}

/// What an outside call gave back.
pub enum ResolveEvent {
    Started,
    CacheChecked { hit: bool },
    ScriptLoaded { id: String, signature_timestamp: i32 },
    /// The payload's `playabilityStatus.status` and its stream entries.
    PlayerLoaded { status: Option<String>, formats: Vec<StreamEntry>, adaptive: Vec<StreamEntry> },
    Deciphered { urls: Vec<Option<String>> },
    Failed(FetchPlayerError),
}

/// What to do next.
pub enum ResolveAction {
    /// Read the cached payload under `key`.
    ReadCache { key: String },
    /// Obtain the current player script and its signature timestamp.
    LoadScript,
    /// Fetch the `player` payload, with the android client context or not.
    FetchPlayer { signature_timestamp: i32, android: bool },
    /// Decipher these signature ciphers with the loaded script.
    Decipher { ciphers: Vec<String> },
    /// Answer with the cached payload as it is.
    ServeCached,
    /// Write `urls` into the payload's entries (`formats`, then
    /// `adaptiveFormats`), stamp it, store it under `store_under` if given,
    /// and answer with it.
    Complete { urls: Vec<String>, store_under: Option<String> },
    Fail(FetchPlayerError),
    /// The event does not belong to this state: nothing to do.
    Ignore,
}

pub enum ErrorView {
    Reqwest(reqwest::Error),
    PlayerJsIdNotFound,
    SignatureTimestampNotFound(core::num::ParseIntError),
    FailedToSerializePlayer,
    ResponseUnplayable,
    LoginRequired,
    FailedToDecipher(Seq<char>),
}

pub open spec fn error_view(e: FetchPlayerError) -> ErrorView {
    match e {
        FetchPlayerError::Reqwest(x) => ErrorView::Reqwest(x),
        FetchPlayerError::PlayerJsIdNotFound => ErrorView::PlayerJsIdNotFound,
        FetchPlayerError::SignatureTimestampNotFound(x) => ErrorView::SignatureTimestampNotFound(x),
        FetchPlayerError::FailedToSerializePlayer => ErrorView::FailedToSerializePlayer,
        FetchPlayerError::ResponseUnplayable => ErrorView::ResponseUnplayable,
        FetchPlayerError::LoginRequired => ErrorView::LoginRequired,
        FetchPlayerError::FailedToDecipher(t) => ErrorView::FailedToDecipher(t@),
    }
}

pub enum StateView {
    Start,
    LookingUp,
    LoadingScript,
    Fetching(Seq<char>),
    Deciphering(Seq<char>, Seq<StreamEntry>),
    Finished,
}

pub enum EventView {
    Started,
    CacheChecked(bool),
    ScriptLoaded(Seq<char>, int),
    PlayerLoaded(Option<Seq<char>>, Seq<StreamEntry>, Seq<StreamEntry>),
    Deciphered(Seq<Option<String>>),
    Failed(ErrorView),
}

pub enum ActionView {
    ReadCache(Seq<char>),
    LoadScript,
    FetchPlayer(int, bool),
    Decipher(Seq<Seq<char>>),
    ServeCached,
    Complete(Seq<Seq<char>>, Option<Seq<char>>),
    Fail(ErrorView),
    Ignore,
}

impl ResolveState {
    pub open spec fn view(&self) -> StateView {
        match self {
            ResolveState::Start => StateView::Start,
            ResolveState::LookingUp => StateView::LookingUp,
            ResolveState::LoadingScript => StateView::LoadingScript,
            ResolveState::Fetching { script_id } => StateView::Fetching(script_id@),
            ResolveState::Deciphering { script_id, entries } => StateView::Deciphering(
                script_id@,
                entries@,
            ),
            ResolveState::Finished => StateView::Finished,
        }
    }
}

impl ResolveEvent {
    pub open spec fn view(&self) -> EventView {
        match self {
            ResolveEvent::Started => EventView::Started,
            ResolveEvent::CacheChecked { hit } => EventView::CacheChecked(*hit),
            ResolveEvent::ScriptLoaded { id, signature_timestamp } => EventView::ScriptLoaded(
                id@,
                *signature_timestamp as int,
            ),
            ResolveEvent::PlayerLoaded { status, formats, adaptive } => EventView::PlayerLoaded(
                match status {
                    Some(s) => Some(s@),
                    None => None,
                },
                formats@,
                adaptive@,
            ),
            ResolveEvent::Deciphered { urls } => EventView::Deciphered(urls@),
            ResolveEvent::Failed(e) => EventView::Failed(error_view(*e)),
        }
    }
}

pub open spec fn text_views(v: Seq<String>) -> Seq<Seq<char>> {
    v.map_values(|s: String| s@)
}

impl ResolveAction {
    pub open spec fn view(&self) -> ActionView {
        match self {
            ResolveAction::ReadCache { key } => ActionView::ReadCache(key@),
            ResolveAction::LoadScript => ActionView::LoadScript,
            ResolveAction::FetchPlayer { signature_timestamp, android } => ActionView::FetchPlayer(
                *signature_timestamp as int,
                *android,
            ),
            ResolveAction::Decipher { ciphers } => ActionView::Decipher(text_views(ciphers@)),
            ResolveAction::ServeCached => ActionView::ServeCached,
            ResolveAction::Complete { urls, store_under } => ActionView::Complete(
                text_views(urls@),
                match store_under {
                    Some(k) => Some(k@),
                    None => None,
                },
            ),
            ResolveAction::Fail(e) => ActionView::Fail(error_view(*e)),
            ResolveAction::Ignore => ActionView::Ignore,
        }
    }
}

/// How a payload fetched with script `script_id` is rewritten.
pub open spec fn rewrite_for(settings: AppSettings, req: ResolveRequest, script_id: Seq<char>) -> RewriteView {
    RewriteView {
        public_base: req.public_base@,
        player_js_id: script_id,
        video_id: req.video_id@,
        local: req.local && settings.enable_local_streaming,
        decipher_now: settings.decipher_on_video_endpoint,
    }
}

/// The url of every entry, where each gets one.
pub open spec fn planned_urls(
    rw: RewriteView,
    need: bool,
    entries: Seq<StreamEntry>,
    d: Seq<Option<String>>,
) -> Option<Seq<Seq<char>>> {
    if forall|i: int|
        0 <= i < entries.len() ==> (#[trigger] planned_url(rw, need, entries[i], deciphered_at(d, i)))
            is Some {
        Some(Seq::new(entries.len(), |i: int| planned_url(rw, need, entries[i], deciphered_at(d, i))->0))
    } else {
        None
    }
}

/// The cipher of every entry, where each has one.
pub open spec fn all_ciphers(entries: Seq<StreamEntry>) -> Option<Seq<Seq<char>>> {
    if forall|i: int| 0 <= i < entries.len() ==> (#[trigger] entries[i]).signature_cipher is Some {
        Some(Seq::new(entries.len(), |i: int| entries[i].signature_cipher->0@))
    } else {
        None
    }
}

pub open spec fn finish_spec(
    settings: AppSettings,
    req: ResolveRequest,
    rw: RewriteView,
    need: bool,
    entries: Seq<StreamEntry>,
    d: Seq<Option<String>>,
) -> (StateView, ActionView) {
    match planned_urls(rw, need, entries, d) {
        Some(urls) => (
            StateView::Finished,
            ActionView::Complete(
                urls,
                if settings.cache_requests {
                    Some(player_key_spec(req.video_id@, req.lang@, req.local))
                } else {
                    None
                },
            ),
        ),
        None => (StateView::Finished, ActionView::Fail(ErrorView::FailedToDecipher(NO_USABLE_URL@))),
    }
}

/// One step: from the state and what came back, the next state and what
/// to do.
pub open spec fn step_spec(settings: AppSettings, req: ResolveRequest, s: StateView, e: EventView) -> (
    StateView,
    ActionView,
) {
    match e {
        EventView::Failed(err) => if s is Finished {
            (s, ActionView::Ignore)
        } else {
            (StateView::Finished, ActionView::Fail(err))
        },
        EventView::Started => if s is Start {
            if settings.cache_requests {
                (
                    StateView::LookingUp,
                    ActionView::ReadCache(player_key_spec(req.video_id@, req.lang@, req.local)),
                )
            } else {
                (StateView::LoadingScript, ActionView::LoadScript)
            }
        } else {
            (s, ActionView::Ignore)
        },
        EventView::CacheChecked(hit) => if s is LookingUp {
            if hit {
                (StateView::Finished, ActionView::ServeCached)
            } else {
                (StateView::LoadingScript, ActionView::LoadScript)
            }
        } else {
            (s, ActionView::Ignore)
        },
        EventView::ScriptLoaded(id, ts) => if s is LoadingScript {
            (StateView::Fetching(id), ActionView::FetchPlayer(ts, settings.use_android_endpoint_for_streams))
        } else {
            (s, ActionView::Ignore)
        },
        EventView::PlayerLoaded(status, formats, adaptive) => match s {
            StateView::Fetching(id) => if status == Some("LOGIN_REQUIRED"@) {
                (StateView::Finished, ActionView::Fail(ErrorView::LoginRequired))
            } else if status == Some("ERROR"@) {
                (StateView::Finished, ActionView::Fail(ErrorView::ResponseUnplayable))
            } else {
                let need = need_decipher_spec(formats, adaptive);
                let entries = formats + adaptive;
                let rw = rewrite_for(settings, req, id);
                if need && rw.decipher_now {
                    match all_ciphers(entries) {
                        Some(cs) => (StateView::Deciphering(id, entries), ActionView::Decipher(cs)),
                        None => (
                            StateView::Finished,
                            ActionView::Fail(ErrorView::FailedToDecipher(NO_CIPHER@)),
                        ),
                    }
                } else {
                    finish_spec(settings, req, rw, need, entries, Seq::empty())
                }
            },
            _ => (s, ActionView::Ignore),
        },
        EventView::Deciphered(d) => match s {
            StateView::Deciphering(id, entries) => finish_spec(
                settings,
                req,
                rewrite_for(settings, req, id),
                true,
                entries,
                d,
            ),
            _ => (s, ActionView::Ignore),
        },
    }
}

fn finish(
    settings: &AppSettings,
    req: &ResolveRequest,
    rw: &StreamRewrite,
    need: bool,
    entries: &Vec<StreamEntry>,
    d: &Vec<Option<String>>,
) -> (r: (ResolveState, ResolveAction))
    ensures
        (r.0.view(), r.1.view()) == finish_spec(*settings, *req, rw.view(), need, entries@, d@),
{
    match rewrite_stream_urls(entries, rw, need, d) {
        Ok(urls) => {
            let ghost want = planned_urls(rw.view(), need, entries@, d@);
            assert(want is Some);
            assert(text_views(urls@) =~= want->0);
            let store_under = if settings.cache_requests {
                Some(player_key(req.video_id.as_str(), req.lang.as_str(), req.local))
            } else {
                None
            };
            (ResolveState::Finished, ResolveAction::Complete { urls, store_under })
        },
        Err(e) => {
            assert(planned_urls(rw.view(), need, entries@, d@) is None);
            (ResolveState::Finished, ResolveAction::Fail(e))
        },
    }
}

/// Takes one step of a resolution; see `step_spec`.
pub fn resolve_step(
    settings: &AppSettings,
    req: &ResolveRequest,
    state: ResolveState,
    event: ResolveEvent,
) -> (r: (ResolveState, ResolveAction))
    ensures
        (r.0.view(), r.1.view()) == step_spec(*settings, *req, state.view(), event.view()),
{
    match event {
        ResolveEvent::Failed(e) => match state {
            ResolveState::Finished => (ResolveState::Finished, ResolveAction::Ignore),
            _ => (ResolveState::Finished, ResolveAction::Fail(e)),
        },
        ResolveEvent::Started => match state {
            ResolveState::Start => {
                if settings.cache_requests {
                    let key = player_key(req.video_id.as_str(), req.lang.as_str(), req.local);
                    (ResolveState::LookingUp, ResolveAction::ReadCache { key })
                } else {
                    (ResolveState::LoadingScript, ResolveAction::LoadScript)
                }
            },
            other => (other, ResolveAction::Ignore),
        },
        ResolveEvent::CacheChecked { hit } => match state {
            ResolveState::LookingUp => {
                if hit {
                    (ResolveState::Finished, ResolveAction::ServeCached)
                } else {
                    (ResolveState::LoadingScript, ResolveAction::LoadScript)
                }
            },
            other => (other, ResolveAction::Ignore),
        },
        ResolveEvent::ScriptLoaded { id, signature_timestamp } => match state {
            ResolveState::LoadingScript => (
                ResolveState::Fetching { script_id: id },
                ResolveAction::FetchPlayer {
                    signature_timestamp,
                    android: settings.use_android_endpoint_for_streams,
                },
            ),
            other => (other, ResolveAction::Ignore),
        },
        ResolveEvent::PlayerLoaded { status, formats, adaptive } => match state {
            ResolveState::Fetching { script_id } => {
                let status_text: Option<&str> = match &status {
                    Some(t) => Some(t.as_str()),
                    None => None,
                };
                match check_playability(status_text) {
                    Err(e) => {
                        return (ResolveState::Finished, ResolveAction::Fail(e));
                    },
                    Ok(()) => {},
                }
                let need = need_to_decipher(&formats, &adaptive);
                let mut entries = formats;
                let mut rest = adaptive;
                let ghost f = entries@;
                let ghost a = rest@;
                entries.append(&mut rest);
                assert(entries@ == f + a);
                let rw = StreamRewrite::new(
                    settings,
                    req.public_base.as_str(),
                    script_id.as_str(),
                    req.video_id.as_str(),
                    req.local,
                );
                assert(rw.view() == rewrite_for(*settings, *req, script_id@));
                if need && rw.decipher_now {
                    match signature_ciphers(&entries) {
                        Ok(cs) => {
                            assert(all_ciphers(entries@) is Some);
                            assert(text_views(cs@) =~= all_ciphers(entries@)->0);
                            (
                                ResolveState::Deciphering { script_id, entries },
                                ResolveAction::Decipher { ciphers: cs },
                            )
                        },
                        Err(e) => {
                            assert(all_ciphers(entries@) is None);
                            (ResolveState::Finished, ResolveAction::Fail(e))
                        },
                    }
                } else {
                    let none: Vec<Option<String>> = Vec::new();
                    assert(none@ =~= Seq::<Option<String>>::empty());
                    finish(settings, req, &rw, need, &entries, &none)
                }
            },
            other => (other, ResolveAction::Ignore),
        },
        ResolveEvent::Deciphered { urls } => match state {
            ResolveState::Deciphering { script_id, entries } => {
                let rw = StreamRewrite::new(
                    settings,
                    req.public_base.as_str(),
                    script_id.as_str(),
                    req.video_id.as_str(),
                    req.local,
                );
                assert(rw.view() == rewrite_for(*settings, *req, script_id@));
                finish(settings, req, &rw, true, &entries, &urls)
            },
            other => (other, ResolveAction::Ignore),
        },
    }
}

/// How far along a state is; steps never go back.
pub open spec fn rank(s: StateView) -> int {
    match s {
        StateView::Start => 0,
        StateView::LookingUp => 1,
        StateView::LoadingScript => 2,
        StateView::Fetching(_) => 3,
        StateView::Deciphering(_, _) => 4,
        StateView::Finished => 5,
    }
}

/// The actions of a resolution that starts in `s` and meets `events`.
pub open spec fn run(settings: AppSettings, req: ResolveRequest, s: StateView, events: Seq<EventView>) -> Seq<
    ActionView,
>
    decreases events.len(),
{
    if events.len() == 0 {
        Seq::empty()
    } else {
        let (next, a) = step_spec(settings, req, s, events[0]);
        seq![a] + run(settings, req, next, events.drop_first())
    }
}

/// How many upstream `player` requests the actions make.
pub open spec fn player_fetches(actions: Seq<ActionView>) -> nat
    decreases actions.len(),
{
    if actions.len() == 0 {
        0
    } else {
        (if actions[0] is FetchPlayer {
            1nat
        } else {
            0nat
        }) + player_fetches(actions.drop_first())
    }
}

/// How many actions reach outside the cache: the player script, Innertube
/// or the decipherer.
pub open spec fn upstream_calls(actions: Seq<ActionView>) -> nat
    decreases actions.len(),
{
    if actions.len() == 0 {
        0
    } else {
        (if actions[0] is FetchPlayer || actions[0] is LoadScript || actions[0] is Decipher {
            1nat
        } else {
            0nat
        }) + upstream_calls(actions.drop_first())
    }
}

pub proof fn lemma_step_rank(settings: AppSettings, req: ResolveRequest, s: StateView, e: EventView)
    ensures
        rank(step_spec(settings, req, s, e).0) >= rank(s),
        step_spec(settings, req, s, e).1 is FetchPlayer ==> s is LoadingScript && step_spec(
            settings,
            req,
            s,
            e,
        ).0 is Fetching,
        s is Finished ==> step_spec(settings, req, s, e) == (s, ActionView::Ignore),
{
}

/// However the outside calls turn out, a resolution asks for the `player`
/// payload at most once.
pub proof fn lemma_at_most_one_player_fetch(
    settings: AppSettings,
    req: ResolveRequest,
    s: StateView,
    events: Seq<EventView>,
)
    ensures
        player_fetches(run(settings, req, s, events)) <= if rank(s) <= 2 {
            1nat
        } else {
            0nat
        },
    decreases events.len(),
{
    if events.len() > 0 {
        let (next, a) = step_spec(settings, req, s, events[0]);
        lemma_step_rank(settings, req, s, events[0]);
        lemma_at_most_one_player_fetch(settings, req, next, events.drop_first());
        let acts = run(settings, req, s, events);
        assert(acts == seq![a] + run(settings, req, next, events.drop_first()));
        assert(acts.drop_first() =~= run(settings, req, next, events.drop_first()));
    }
}

/// A finished resolution does nothing more.
pub proof fn lemma_finished_is_quiet(settings: AppSettings, req: ResolveRequest, events: Seq<EventView>)
    ensures
        upstream_calls(run(settings, req, StateView::Finished, events)) == 0,
    decreases events.len(),
{
    if events.len() > 0 {
        lemma_finished_is_quiet(settings, req, events.drop_first());
        let acts = run(settings, req, StateView::Finished, events);
        assert(acts.drop_first() =~= run(settings, req, StateView::Finished, events.drop_first()));
    }
}

/// With caching on, a resolution whose cache read hits reads the cache and
/// serves what it found: it reaches no upstream endpoint, whatever comes
/// after.
pub proof fn lemma_cache_hit_touches_no_upstream(
    settings: AppSettings,
    req: ResolveRequest,
    rest: Seq<EventView>,
)
    requires
        settings.cache_requests,
    ensures
        ({
            let acts = run(
                settings,
                req,
                StateView::Start,
                seq![EventView::Started, EventView::CacheChecked(true)] + rest,
            );
            &&& acts.len() >= 2
            &&& acts[0] == ActionView::ReadCache(player_key_spec(req.video_id@, req.lang@, req.local))
            &&& acts[1] == ActionView::ServeCached
            &&& upstream_calls(acts) == 0
        }),
{
    let events = seq![EventView::Started, EventView::CacheChecked(true)] + rest;
    assert(events.drop_first() =~= seq![EventView::CacheChecked(true)] + rest);
    assert(events.drop_first().drop_first() =~= rest);
    lemma_finished_is_quiet(settings, req, rest);
    assert(events[0] == EventView::Started);
    assert(events.drop_first()[0] == EventView::CacheChecked(true));
    let acts = run(settings, req, StateView::Start, events);
    let tail = run(settings, req, StateView::LookingUp, events.drop_first());
    let quiet = run(settings, req, StateView::Finished, rest);
    assert(acts == seq![ActionView::ReadCache(player_key_spec(req.video_id@, req.lang@, req.local))]
        + tail);
    assert(tail == seq![ActionView::ServeCached] + quiet);
    assert(acts.drop_first() =~= tail);
    assert(tail.drop_first() =~= quiet);
    assert(upstream_calls(tail) == upstream_calls(quiet));
    assert(upstream_calls(acts) == upstream_calls(tail));
}

/// With caching on, a resolution whose cache read misses (or finds a stale
/// entry) loads the script and then asks for the `player` payload exactly
/// once, whatever comes after.
pub proof fn lemma_cache_miss_fetches_once(
    settings: AppSettings,
    req: ResolveRequest,
    id: Seq<char>,
    ts: int,
    rest: Seq<EventView>,
)
    requires
        settings.cache_requests,
    ensures
        player_fetches(
            run(
                settings,
                req,
                StateView::Start,
                seq![EventView::Started, EventView::CacheChecked(false), EventView::ScriptLoaded(id, ts)]
                    + rest,
            ),
        ) == 1,
{
    let events = seq![EventView::Started, EventView::CacheChecked(false), EventView::ScriptLoaded(id, ts)]
        + rest;
    let e1 = events.drop_first();
    let e2 = e1.drop_first();
    let e3 = e2.drop_first();
    assert(e3 =~= rest);
    assert(e1[0] == EventView::CacheChecked(false));
    assert(e2[0] == EventView::ScriptLoaded(id, ts));
    let fetching = StateView::Fetching(id);
    lemma_at_most_one_player_fetch(settings, req, fetching, rest);
    let a0 = run(settings, req, StateView::Start, events);
    let a1 = run(settings, req, StateView::LookingUp, e1);
    let a2 = run(settings, req, StateView::LoadingScript, e2);
    let a3 = run(settings, req, fetching, e3);
    assert(a0.drop_first() =~= a1);
    assert(a1.drop_first() =~= a2);
    assert(a2.drop_first() =~= a3);
    assert(player_fetches(a3) == 0);
    assert(player_fetches(a2) == 1);
    assert(player_fetches(a1) == 1);
}

} // verus!
