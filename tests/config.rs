use yaytapi::cache::{
    cache_lookup, document_collection, judge_entry, pair_key, player_key, CacheLookup, CacheVerdict,
};
use yaytapi::local::{local_base_uri, local_player_host, local_playlist_header};
use yaytapi::script::{
    refresh_ops, script_key, script_needs_refresh, script_step, CacheOp, ScriptAction, ScriptEvent,
    ScriptState, StoredValue,
};
use yaytapi::streams::FetchPlayerError;
use yaytapi::settings::{contains_arg, join_args, public_base, AppSettings, DbType};
use yaytapi::stats::{GitInfo, InnertubeEndpoint, Stats, StatsQueryParams};

fn args(list: &[&str]) -> Vec<String> {
    list.iter().map(|s| s.to_string()).collect()
}

#[test]
fn default_settings() {
    let s = AppSettings::from_cli_args(&args(&["yaytapi"]));
    assert_eq!(s.ip_address, "127.0.0.1");
    assert_eq!(s.port, "8080");
    assert_eq!(s.num_of_workers, 1);
    assert!(s.db_type == DbType::UnQLite);
    assert_eq!(s.db_name, "yaytapi.db");
    assert!(s.sort_to_inv_schema && s.retain_null_keys && s.cache_requests && s.enable_actix_web_logger);
    assert!(!s.decipher_streams && !s.enable_cors && !s.enable_local_streaming);
    assert_eq!(s.cache_timeout, 60);
    assert!(s.pub_url.is_none() && s.playlists_path.is_none() && s.db_connection_string.is_none());
}

#[test]
fn settings_from_options() {
    let s = AppSettings::from_cli_args(&args(&[
        "yaytapi",
        "--ip=0.0.0.0",
        "--port=3000",
        "--workers=4",
        "--public-url=https://gw.example",
        "--mongo-db=mongodb://db:27017",
        "--playlists-path=/srv/pl",
        "--no-sort",
        "--hide-null-fields",
        "--no-cache",
        "--decipher-streams",
        "--pre-decipher-streams",
        "--use-android-endpoint",
    ]));
    assert_eq!(s.ip_address, "0.0.0.0");
    assert_eq!(s.port, "3000");
    assert_eq!(s.num_of_workers, 4);
    assert_eq!(s.pub_url.as_deref(), Some("https://gw.example"));
    assert!(s.db_type == DbType::MongoDb);
    assert_eq!(s.db_connection_string.as_deref(), Some("mongodb://db:27017"));
    assert_eq!(s.db_name, "local");
    assert_eq!(s.playlists_path.as_deref(), Some("/srv/pl"));
    assert!(!s.sort_to_inv_schema && !s.retain_null_keys && !s.cache_requests);
    assert!(s.decipher_streams && s.decipher_on_video_endpoint && s.use_android_endpoint_for_streams);
}

#[test]
fn db_name_option_wins() {
    let s = AppSettings::from_cli_args(&args(&["yaytapi", "--db-name=cache.db"]));
    assert_eq!(s.db_name, "cache.db");
}

#[test]
fn joined_and_flags() {
    assert_eq!(join_args(&args(&["a", "b", "c"])), "a b c");
    assert_eq!(join_args(&args(&[])), "");
    assert!(contains_arg(&args(&["x", "--no-logs"]), "--no-logs"));
    assert!(!contains_arg(&args(&["x", "--no-logs=1"]), "--no-logs"));
}

#[test]
fn public_base_prefers_configured_url() {
    let mut s = AppSettings::from_cli_args(&args(&["yaytapi"]));
    assert_eq!(public_base(&s, Some("http://host:1")), "http://host:1");
    assert_eq!(public_base(&s, None), "");
    s.pub_url = Some(String::from("https://pub"));
    assert_eq!(public_base(&s, Some("http://host:1")), "https://pub");
}

#[test]
fn stats_with_published_settings() {
    let s = AppSettings::from_cli_args(&args(&["yaytapi", "--publish-settings", "--enable-cors", "--decipher-streams"]));
    let git = GitInfo { commit: String::from("abc123"), branch: String::from("main") };
    let stats = Stats::for_settings(&s, &git);
    assert_eq!(stats.version, "0.2.0");
    assert_eq!(stats.software.name, "yaytapi");
    assert_eq!(stats.software.version, "abc123");
    assert_eq!(stats.software.branch, "main");
    let snap = stats.yaytapi_settings.unwrap();
    assert!(snap.cors_enabled && snap.decipher_streams_enabled && !snap.local_streaming_enabled);
    assert!(snap.allow_null_keys_in_output);
    assert!(snap.innertube_endpoints_used.len() == 1 && snap.innertube_endpoints_used[0] == InnertubeEndpoint::Web);
}

#[test]
fn stats_without_published_settings() {
    let s = AppSettings::from_cli_args(&args(&["yaytapi", "--use-android-endpoint"]));
    let git = GitInfo { commit: String::from("c"), branch: String::from("b") };
    assert!(Stats::for_settings(&s, &git).yaytapi_settings.is_none());
    let p = AppSettings::from_cli_args(&args(&["yaytapi", "--use-android-endpoint", "--publish-settings"]));
    let used = Stats::for_settings(&p, &git).yaytapi_settings.unwrap().innertube_endpoints_used;
    assert!(used.len() == 2 && used[1] == InnertubeEndpoint::Android);
    assert!(StatsQueryParams { pretty: Some(1) }.is_pretty());
    assert!(!StatsQueryParams { pretty: Some(2) }.is_pretty());
    assert!(!StatsQueryParams { pretty: None }.is_pretty());
}

#[test]
fn cache_entries_within_timeout_are_served() {
    assert!(judge_entry(Some(1000), 1000, 60) == CacheVerdict::Serve);
    assert!(judge_entry(Some(1000), 1060, 60) == CacheVerdict::Serve);
    assert!(judge_entry(None, 99999, 60) == CacheVerdict::Serve);
}

#[test]
fn cache_entries_past_timeout_are_evicted() {
    assert!(judge_entry(Some(1000), 1061, 60) == CacheVerdict::Evict);
    assert!(judge_entry(Some(i64::MIN), i64::MAX, 100) == CacheVerdict::Evict);
    assert!(judge_entry(Some(i64::MIN), i64::MAX, u64::MAX) == CacheVerdict::Serve);
    assert!(judge_entry(Some(5), 4, 0) == CacheVerdict::Serve);
}

#[test]
fn cache_keys() {
    assert_eq!(player_key("vid", "en", true), "vid-en-true");
    assert_eq!(player_key("vid", "en", false), "vid-en-false");
    assert_ne!(player_key("vid", "en", true), player_key("vid", "en", false));
    assert_eq!(pair_key("vid", "de"), "vid-de");
    assert_eq!(pair_key("player", "player.js-id"), "player-player.js-id");
    assert_eq!(document_collection("next"), "yayti.next");
    assert_eq!(script_key("abc"), "player.js-abc");
}

#[test]
fn script_refresh_decision() {
    assert!(!script_needs_refresh(false, Some("js1"), "js1"));
    assert!(script_needs_refresh(false, Some("js0"), "js1"));
    assert!(script_needs_refresh(false, None, "js1"));
    assert!(script_needs_refresh(true, Some("js1"), "js1"));
}

#[test]
fn refresh_writes_one_generation() {
    let ops = refresh_ops(false, "js1", "var a;", 19834);
    assert_eq!(ops.len(), 6);
    let mut store: std::collections::HashMap<String, String> = std::collections::HashMap::new();
    for op in &ops {
        match op {
            CacheOp::Delete { key } => {
                store.remove(key);
            }
            CacheOp::Put { key, value } => {
                let v = match value {
                    StoredValue::Text(t) => t.clone(),
                    StoredValue::Number(n) => n.to_string(),
                };
                store.insert(key.clone(), v);
            }
        }
    }
    assert_eq!(store.get("player.js-id").map(String::as_str), Some("js1"));
    assert_eq!(store.get("player.js-js1").map(String::as_str), Some("var a;"));
    assert_eq!(store.get("signature_timestamp").map(String::as_str), Some("19834"));
    let cached = store.get("player.js-id").cloned();
    assert!(!script_needs_refresh(false, cached.as_deref(), "js1"));
    assert!(refresh_ops(true, "js1", "var a;", 1).is_empty());
}

#[test]
fn local_playlist_fields() {
    let mut s = AppSettings::from_cli_args(&args(&["yaytapi", "--ip=10.0.0.2", "--port=81"]));
    assert_eq!(local_base_uri(&s), "http://10.0.0.2:81");
    assert_eq!(local_player_host(&s), "10.0.0.2:81");
    let h = local_playlist_header("mix.json", None, None, 3, 2, &s, 1700000000).unwrap();
    assert_eq!(h.title, "mix.json");
    assert_eq!(h.playlist_id, "mix.json");
    assert_eq!(h.author, "yaytapi");
    assert_eq!(h.author_id, "::yaytapi_local::");
    assert_eq!(h.author_thumbnail_url, "http://10.0.0.2:81/static/icon.png");
    assert_eq!(h.description, "");
    assert_eq!(h.video_count, 2);
    assert_eq!(h.updated, 1700000000);
    assert!(!h.is_listed);
    s.pub_url = Some(String::from("https://pub"));
    let t = local_playlist_header("mix.json", Some("Mix"), Some("d"), 1, 1, &s, 0).unwrap();
    assert_eq!(t.title, "Mix");
    assert_eq!(t.description, "d");
    assert_eq!(t.author_thumbnail_url, "https://pub/static/icon.png");
    assert!(local_playlist_header("empty.json", None, None, 0, 0, &s, 0).is_none());
}

#[test]
fn cache_lookups() {
    assert!(cache_lookup(false, 60, Some(Some(0)), 0) == CacheLookup::Disabled);
    assert!(cache_lookup(true, 60, None, 0) == CacheLookup::Miss);
    assert!(cache_lookup(true, 60, Some(Some(100)), 160) == CacheLookup::Hit);
    assert!(cache_lookup(true, 60, Some(Some(100)), 161) == CacheLookup::Stale);
    assert!(cache_lookup(true, 60, Some(None), 1_000_000) == CacheLookup::Hit);
}

#[test]
fn script_lookup_reuses_cached_generation() {
    let (s, a) = script_step(ScriptState::Start, ScriptEvent::Started { pinned: None });
    assert!(matches!(a, ScriptAction::FetchCurrentId));
    let (s, a) = script_step(s, ScriptEvent::CurrentId { id: String::from("js1") });
    assert!(matches!(a, ScriptAction::ReadCachedId));
    let (s, a) = script_step(s, ScriptEvent::CachedId { id: Some(String::from("js1")) });
    match a {
        ScriptAction::ReadCachedScript { key } => assert_eq!(key, "player.js-js1"),
        _ => panic!("expected a cached read"),
    }
    let (s, a) = script_step(s, ScriptEvent::CachedScript { source: Some(String::from("src")), timestamp: Some(19834) });
    assert!(matches!(s, ScriptState::Finished));
    match a {
        ScriptAction::Done { source, signature_timestamp, id, writes } => {
            assert_eq!(source, "src");
            assert_eq!(signature_timestamp, 19834);
            assert_eq!(id, "js1");
            assert!(writes.is_empty());
        }
        _ => panic!("expected the cached script"),
    }
}

#[test]
fn script_lookup_fetches_new_generation() {
    let s = ScriptState::AwaitingCachedId { id: String::from("js2") };
    let (s, a) = script_step(s, ScriptEvent::CachedId { id: Some(String::from("js1")) });
    assert!(matches!(a, ScriptAction::FetchSource { .. }));
    let (_, a) = script_step(s, ScriptEvent::SourceFetched { source: String::from("src"), timestamp: Ok(7) });
    match a {
        ScriptAction::Done { writes, .. } => assert_eq!(writes.len(), 6),
        _ => panic!("expected a fetched script"),
    }
    let s = ScriptState::AwaitingCachedScript { id: String::from("js1") };
    let (_, a) = script_step(s, ScriptEvent::CachedScript { source: Some(String::from("src")), timestamp: Some(1 << 40) });
    assert!(matches!(a, ScriptAction::FetchSource { .. }));
}

#[test]
fn pinned_script_is_fetched_and_not_written() {
    let (s, a) = script_step(ScriptState::Start, ScriptEvent::Started { pinned: Some(String::from("old")) });
    match a {
        ScriptAction::FetchSource { id } => assert_eq!(id, "old"),
        _ => panic!("expected a fetch"),
    }
    let (_, a) = script_step(s, ScriptEvent::SourceFetched { source: String::from("src"), timestamp: Ok(7) });
    match a {
        ScriptAction::Done { writes, id, .. } => {
            assert!(writes.is_empty());
            assert_eq!(id, "old");
        }
        _ => panic!("expected a fetched script"),
    }
    let bad = "x".parse::<i32>().unwrap_err();
    let s = ScriptState::AwaitingSource { id: String::from("js"), pinned: false };
    let (_, a) = script_step(s, ScriptEvent::SourceFetched { source: String::from("src"), timestamp: Err(bad) });
    assert!(matches!(a, ScriptAction::Fail(FetchPlayerError::SignatureTimestampNotFound(_))));
}
