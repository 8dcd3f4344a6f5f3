use yaytapi::links::video_link_or_id_to_id;
use yaytapi::settings::AppSettings;
use yaytapi::streams::{
    check_playability, decipher_link, decipher_link_from_encoded, need_to_decipher, proxied_link,
    rewrite_stream_urls, signature_ciphers, split_origin, str_eq, video_error_body,
    FetchPlayerError, StreamEntry, StreamRewrite,
};

fn args(list: &[&str]) -> Vec<String> {
    list.iter().map(|s| s.to_string()).collect()
}

fn entry(url: Option<&str>, cipher: Option<&str>) -> StreamEntry {
    StreamEntry { url: url.map(String::from), signature_cipher: cipher.map(String::from) }
}

#[test]
fn video_ids_from_links_and_ids() {
    assert_eq!(video_link_or_id_to_id("https://youtube.com/watch?v=PxeFyxrUWt0"), "PxeFyxrUWt0");
    assert_eq!(video_link_or_id_to_id("https://youtu.be/PxeFyxrUWt0"), "PxeFyxrUWt0");
    assert_eq!(video_link_or_id_to_id("PxeFyxrUWt0"), "PxeFyxrUWt0");
}

#[test]
fn video_id_stops_at_a_second_marker() {
    assert_eq!(video_link_or_id_to_id("a/watch?v=b/watch?v=c"), "b");
    assert_eq!(video_link_or_id_to_id("/watch?v="), "");
}

#[test]
fn playability_statuses() {
    assert!(matches!(check_playability(Some("LOGIN_REQUIRED")), Err(FetchPlayerError::LoginRequired)));
    assert!(matches!(check_playability(Some("ERROR")), Err(FetchPlayerError::ResponseUnplayable)));
    assert!(check_playability(Some("OK")).is_ok());
    assert!(check_playability(None).is_ok());
}

#[test]
fn status_codes_of_errors() {
    assert_eq!(FetchPlayerError::LoginRequired.status_code(), 403);
    assert_eq!(FetchPlayerError::ResponseUnplayable.status_code(), 404);
    assert_eq!(FetchPlayerError::PlayerJsIdNotFound.status_code(), 500);
    assert_eq!(FetchPlayerError::FailedToSerializePlayer.status_code(), 500);
    assert_eq!(FetchPlayerError::FailedToDecipher(String::from("x")).status_code(), 500);
}

#[test]
fn unplayable_error_body() {
    let body = video_error_body(&FetchPlayerError::ResponseUnplayable.message());
    assert_eq!(
        body,
        "{\"type\":\"error\",\"message\":\"Failed to fetch `player` endpoint\",\"inner_message\":\"Response is unplayable\"}"
    );
}

#[test]
fn error_messages() {
    assert_eq!(FetchPlayerError::LoginRequired.message(), "Login required");
    assert_eq!(
        FetchPlayerError::FailedToDecipher(String::from("bad js")).message(),
        "Failed to decipher: bad js"
    );
    assert_eq!(
        FetchPlayerError::PlayerJsIdNotFound.message(),
        "No player.js id found in `/iframe_api` response"
    );
    let parse_err = "x".parse::<i32>().unwrap_err();
    assert_eq!(
        FetchPlayerError::SignatureTimestampNotFound(parse_err).message(),
        "Unable to parse sig timestamp from player.js response"
    );
}

#[test]
fn decipher_needed_by_first_entry() {
    let with_url = vec![entry(Some("https://r1---sn.googlevideo.com/videoplayback?a=1"), None)];
    let ciphered = vec![entry(None, Some("s=abc"))];
    assert!(!need_to_decipher(&with_url, &ciphered));
    assert!(need_to_decipher(&ciphered, &with_url));
    assert!(need_to_decipher(&vec![], &ciphered));
    assert!(!need_to_decipher(&vec![], &vec![]));
}

#[test]
fn decipher_link_layout() {
    let link = decipher_link_from_encoded("http://gw", "s%3Dabc", "js1", "dQw4w9WgXcQ", false);
    assert_eq!(
        link,
        "http://gw/decipher_stream?signature_cipher=s%3Dabc&player_js_id=js1&video_id=dQw4w9WgXcQ&local=false"
    );
}

#[test]
fn decipher_link_encodes_the_cipher() {
    let link = decipher_link("http://gw", "s=a&sp=sig", "js1", "dQw4w9WgXcQ", false);
    assert_eq!(
        link,
        "http://gw/decipher_stream?signature_cipher=s%3Da%26sp%3Dsig&player_js_id=js1&video_id=dQw4w9WgXcQ&local=false"
    );
}

#[test]
fn origin_split_and_proxied_link() {
    let (host, path) = split_origin("https://r4---sn-abc.googlevideo.com/videoplayback?id=1").unwrap();
    assert_eq!(host, "r4---sn-abc.googlevideo.com");
    assert_eq!(path, "/videoplayback?id=1");
    let link = proxied_link("http://gw", "https://r4---sn-abc.googlevideo.com/videoplayback?id=1", true).unwrap();
    assert_eq!(link, "http://gw/videoplayback?id=1&host=r4---sn-abc.googlevideo.com&local=true");
    assert!(proxied_link("http://gw", "https://example.com/x", true).is_none());
}

#[test]
fn lazy_rewrite_gives_every_entry_a_url() {
    let settings = AppSettings::from_cli_args(&args(&["yaytapi"]));
    let rw = StreamRewrite::new(&settings, "http://gw", "js1", "dQw4w9WgXcQ", false);
    let entries = vec![entry(None, Some("s=1")), entry(None, Some("s=2"))];
    let urls = rewrite_stream_urls(&entries, &rw, true, &vec![]).ok().unwrap();
    assert_eq!(urls.len(), 2);
    for u in &urls {
        assert!(u.starts_with("http://gw/decipher_stream?signature_cipher="));
        assert!(u.ends_with("&player_js_id=js1&video_id=dQw4w9WgXcQ&local=false"));
    }
    assert_eq!(urls[0], "http://gw/decipher_stream?signature_cipher=s%3D1&player_js_id=js1&video_id=dQw4w9WgXcQ&local=false");
}

#[test]
fn local_links_point_at_the_gateway() {
    let settings = AppSettings::from_cli_args(&args(&["yaytapi", "--enable-local-streaming"]));
    let rw = StreamRewrite::new(&settings, "http://gw", "js1", "vid", true);
    let entries = vec![
        entry(Some("https://r1---a.googlevideo.com/videoplayback?x=1"), None),
        entry(Some("https://r2---b.googlevideo.com/videoplayback?x=2"), None),
    ];
    let urls = rewrite_stream_urls(&entries, &rw, false, &vec![]).ok().unwrap();
    for u in &urls {
        assert!(u.starts_with("http://gw"));
        assert!(u.ends_with("&local=true"));
    }
}

#[test]
fn local_flag_needs_local_streaming_enabled() {
    let settings = AppSettings::from_cli_args(&args(&["yaytapi"]));
    let rw = StreamRewrite::new(&settings, "http://gw", "js1", "vid", true);
    assert!(!rw.local);
    let entries = vec![entry(Some("https://r1---a.googlevideo.com/videoplayback?x=1"), None)];
    let urls = rewrite_stream_urls(&entries, &rw, false, &vec![]).ok().unwrap();
    assert!(urls[0].ends_with("&local=false"));
}

#[test]
fn pre_deciphered_urls_are_used_as_given() {
    let settings = AppSettings::from_cli_args(&args(&["yaytapi", "--pre-decipher-streams"]));
    let rw = StreamRewrite::new(&settings, "http://gw", "js1", "vid", false);
    let entries = vec![entry(None, Some("s=1"))];
    let given = vec![Some(String::from("https://r1---a.googlevideo.com/videoplayback?sig=ok"))];
    let urls = rewrite_stream_urls(&entries, &rw, true, &given).ok().unwrap();
    assert_eq!(urls[0], "https://r1---a.googlevideo.com/videoplayback?sig=ok");
    assert!(!urls[0].contains("/decipher_stream"));
    let missing = rewrite_stream_urls(&entries, &rw, true, &vec![None]);
    assert!(matches!(missing, Err(FetchPlayerError::FailedToDecipher(_))));
}

#[test]
fn entry_without_url_or_cipher_fails() {
    let settings = AppSettings::from_cli_args(&args(&["yaytapi"]));
    let rw = StreamRewrite::new(&settings, "http://gw", "js1", "vid", false);
    let entries = vec![entry(None, Some("s=1")), entry(None, None)];
    assert!(matches!(rewrite_stream_urls(&entries, &rw, true, &vec![]), Err(FetchPlayerError::FailedToDecipher(_))));
    assert!(matches!(signature_ciphers(&entries), Err(FetchPlayerError::FailedToDecipher(_))));
    let ok = signature_ciphers(&vec![entry(None, Some("a")), entry(None, Some("b"))]).ok().unwrap();
    assert_eq!(ok, vec![String::from("a"), String::from("b")]);
}

#[test]
fn text_equality() {
    assert!(str_eq("abc", "abc"));
    assert!(!str_eq("abc", "abd"));
    assert!(!str_eq("abc", "ab"));
    assert!(str_eq("", ""));
}
