use yaytapi::resolver::{resolve_step, ResolveAction, ResolveEvent, ResolveRequest, ResolveState};
use yaytapi::settings::AppSettings;
use yaytapi::streams::{FetchPlayerError, StreamEntry};

fn args(list: &[&str]) -> Vec<String> {
    list.iter().map(|s| s.to_string()).collect()
}

fn request() -> ResolveRequest {
    ResolveRequest {
        video_id: String::from("dQw4w9WgXcQ"),
        lang: String::from("en"),
        local: false,
        public_base: String::from("http://gw"),
    }
}

fn ciphered(c: &str) -> StreamEntry {
    StreamEntry { url: None, signature_cipher: Some(String::from(c)) }
}

fn loaded(status: Option<&str>, formats: Vec<StreamEntry>, adaptive: Vec<StreamEntry>) -> ResolveEvent {
    ResolveEvent::PlayerLoaded { status: status.map(String::from), formats, adaptive }
}

#[test]
fn cache_hit_is_served_without_upstream() {
    let settings = AppSettings::from_cli_args(&args(&["yaytapi"]));
    let req = request();
    let (state, action) = resolve_step(&settings, &req, ResolveState::Start, ResolveEvent::Started);
    match action {
        ResolveAction::ReadCache { key } => assert_eq!(key, "dQw4w9WgXcQ-en-false"),
        _ => panic!("expected a cache read"),
    }
    let (state, action) = resolve_step(&settings, &req, state, ResolveEvent::CacheChecked { hit: true });
    assert!(matches!(action, ResolveAction::ServeCached));
    assert!(matches!(state, ResolveState::Finished));
    let (_, action) = resolve_step(&settings, &req, state, ResolveEvent::ScriptLoaded { id: String::from("js"), signature_timestamp: 1 });
    assert!(matches!(action, ResolveAction::Ignore));
}

#[test]
fn cache_miss_fetches_once_and_rewrites_lazily() {
    let settings = AppSettings::from_cli_args(&args(&["yaytapi"]));
    let req = request();
    let (state, _) = resolve_step(&settings, &req, ResolveState::Start, ResolveEvent::Started);
    let (state, action) = resolve_step(&settings, &req, state, ResolveEvent::CacheChecked { hit: false });
    assert!(matches!(action, ResolveAction::LoadScript));
    let (state, action) = resolve_step(
        &settings,
        &req,
        state,
        ResolveEvent::ScriptLoaded { id: String::from("js1"), signature_timestamp: 19834 },
    );
    match action {
        ResolveAction::FetchPlayer { signature_timestamp, android } => {
            assert_eq!(signature_timestamp, 19834);
            assert!(!android);
        }
        _ => panic!("expected a player fetch"),
    }
    let (state, action) = resolve_step(&settings, &req, state, loaded(Some("OK"), vec![ciphered("s=1")], vec![ciphered("s=2")]));
    assert!(matches!(state, ResolveState::Finished));
    match action {
        ResolveAction::Complete { urls, store_under } => {
            assert_eq!(
                urls,
                vec![
                    String::from("http://gw/decipher_stream?signature_cipher=s%3D1&player_js_id=js1&video_id=dQw4w9WgXcQ&local=false"),
                    String::from("http://gw/decipher_stream?signature_cipher=s%3D2&player_js_id=js1&video_id=dQw4w9WgXcQ&local=false"),
                ]
            );
            assert_eq!(store_under.as_deref(), Some("dQw4w9WgXcQ-en-false"));
        }
        _ => panic!("expected completion"),
    }
}

#[test]
fn unplayable_and_login_required() {
    let settings = AppSettings::from_cli_args(&args(&["yaytapi", "--no-cache"]));
    let req = request();
    let (state, action) = resolve_step(&settings, &req, ResolveState::Start, ResolveEvent::Started);
    assert!(matches!(action, ResolveAction::LoadScript));
    let (state, _) = resolve_step(&settings, &req, state, ResolveEvent::ScriptLoaded { id: String::from("js"), signature_timestamp: 1 });
    let fetching = ResolveState::Fetching { script_id: String::from("js") };
    let (_, action) = resolve_step(&settings, &req, state, loaded(Some("ERROR"), vec![], vec![]));
    assert!(matches!(action, ResolveAction::Fail(FetchPlayerError::ResponseUnplayable)));
    let (_, action) = resolve_step(&settings, &req, fetching, loaded(Some("LOGIN_REQUIRED"), vec![], vec![]));
    assert!(matches!(action, ResolveAction::Fail(FetchPlayerError::LoginRequired)));
}

#[test]
fn no_streams_is_no_error() {
    let settings = AppSettings::from_cli_args(&args(&["yaytapi", "--no-cache"]));
    let req = request();
    let fetching = ResolveState::Fetching { script_id: String::from("js") };
    match resolve_step(&settings, &req, fetching, loaded(None, vec![], vec![])).1 {
        ResolveAction::Complete { urls, store_under } => {
            assert!(urls.is_empty());
            assert!(store_under.is_none());
        }
        _ => panic!("expected completion"),
    }
}

#[test]
fn pre_deciphering_asks_for_the_ciphers() {
    let settings = AppSettings::from_cli_args(&args(&["yaytapi", "--pre-decipher-streams"]));
    let req = request();
    let fetching = ResolveState::Fetching { script_id: String::from("js") };
    let (state, action) = resolve_step(&settings, &req, fetching, loaded(Some("OK"), vec![ciphered("a")], vec![ciphered("b")]));
    match action {
        ResolveAction::Decipher { ciphers } => assert_eq!(ciphers, vec![String::from("a"), String::from("b")]),
        _ => panic!("expected deciphering"),
    }
    let urls = vec![
        Some(String::from("https://r1---a.googlevideo.com/videoplayback?sig=1")),
        Some(String::from("https://r1---a.googlevideo.com/videoplayback?sig=2")),
    ];
    match resolve_step(&settings, &req, state, ResolveEvent::Deciphered { urls }).1 {
        ResolveAction::Complete { urls, .. } => {
            assert_eq!(urls[1], "https://r1---a.googlevideo.com/videoplayback?sig=2");
        }
        _ => panic!("expected completion"),
    }
}

#[test]
fn failures_end_the_resolution() {
    let settings = AppSettings::from_cli_args(&args(&["yaytapi"]));
    let req = request();
    let (state, action) = resolve_step(&settings, &req, ResolveState::LoadingScript, ResolveEvent::Failed(FetchPlayerError::PlayerJsIdNotFound));
    assert!(matches!(action, ResolveAction::Fail(FetchPlayerError::PlayerJsIdNotFound)));
    assert!(matches!(state, ResolveState::Finished));
    let (_, action) = resolve_step(&settings, &req, state, ResolveEvent::Failed(FetchPlayerError::LoginRequired));
    assert!(matches!(action, ResolveAction::Ignore));
    let (state, action) = resolve_step(&settings, &req, ResolveState::LookingUp, ResolveEvent::Started);
    assert!(matches!(action, ResolveAction::Ignore));
    assert!(matches!(state, ResolveState::LookingUp));
}
