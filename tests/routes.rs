use yaytapi::assets::{author_thumbnail_upstream, static_content_type, static_file_path};
use yaytapi::playlist::{alert_body, parse_page, FetchPlaylistError, PageError, PageRequest};
use yaytapi::routes::{
    broken_link_body, check_decipher_request, decipher_failed_body, decipher_outcome, error_body,
    error_body_with_inner, find_stream_by_itag, forwards_request_header, forwards_response_header,
    itag_not_found_body, itag_without_url_body, join_itags, not_found_body, playback_plan,
    refuses_payload, DecipherCheck, DecipherOutcome, LatestVersionQueryParams, PlaybackPlan,
    StreamFormat, VideoEndpointQueryParams, VideoPlaybackQueryParams,
};
use yaytapi::text::{escape_double_quotes, int_to_text};

fn fmt(itag: i32, url: Option<&str>) -> StreamFormat {
    StreamFormat { itag, url: url.map(String::from) }
}

#[test]
fn itag_found_redirects_to_its_url() {
    let legacy = vec![fmt(18, Some("https://gw/a")), fmt(22, Some("https://gw/b"))];
    let adaptive = vec![fmt(137, Some("https://gw/c"))];
    let (picked, seen) = find_stream_by_itag(&legacy, &adaptive, 18);
    assert_eq!(picked, Some(Some(String::from("https://gw/a"))));
    assert_eq!(seen, vec![18, 137]);
}

#[test]
fn itag_missing_lists_available_streams() {
    let legacy = vec![fmt(18, Some("u")), fmt(22, Some("v"))];
    let adaptive = vec![fmt(137, Some("w")), fmt(140, None)];
    let (picked, seen) = find_stream_by_itag(&legacy, &adaptive, 9999);
    assert_eq!(picked, None);
    assert_eq!(seen, vec![18, 22, 137, 140]);
    assert_eq!(
        itag_not_found_body(9999, &seen),
        "{\"type\":\"error\",\"message\":\"No streams found matching the given itag: 9999\",\"available_streams\":[18,22,137,140]}"
    );
}

#[test]
fn adaptive_match_wins_and_url_may_be_missing() {
    let legacy = vec![fmt(18, Some("legacy"))];
    let adaptive = vec![fmt(18, None)];
    let (picked, _) = find_stream_by_itag(&legacy, &adaptive, 18);
    assert_eq!(picked, Some(None));
    assert_eq!(
        itag_without_url_body(18),
        "{\"type\":\"error\",\"message\":\"A stream was found matching the given itag: 18, but there was an error returning the url.\"}"
    );
}

#[test]
fn itag_parameter_defaults_to_zero() {
    let p = LatestVersionQueryParams { id: String::from("v"), itag: String::from("abc"), local: None, hl: None };
    assert_eq!(p.itag_number(), 0);
    assert_eq!(p.lang(), "en");
    assert!(!p.is_local());
    let q = LatestVersionQueryParams { id: String::from("v"), itag: String::from("-18"), local: Some(true), hl: Some(String::from("de")) };
    assert_eq!(q.itag_number(), -18);
    assert_eq!(q.lang(), "de");
    assert!(q.is_local());
}

#[test]
fn integers_as_text() {
    assert_eq!(int_to_text(0), "0");
    assert_eq!(int_to_text(9999), "9999");
    assert_eq!(int_to_text(-42), "-42");
    assert_eq!(int_to_text(i64::MIN), "-9223372036854775808");
    assert_eq!(join_itags(&vec![]), "");
    assert_eq!(join_itags(&vec![5]), "5");
}

#[test]
fn page_zero_is_refused() {
    let e = parse_page(Some("0")).err().unwrap();
    assert!(matches!(e, PageError::NotPositive));
    assert_eq!(e.message(), "Page must be greater than zero");
}

#[test]
fn page_not_a_number_is_refused() {
    let e = parse_page(Some("abc")).err().unwrap();
    assert_eq!(e.message(), "Given page is not a number: abc");
    assert!(parse_page(Some("99999999999")).is_err());
}

#[test]
fn pages_accepted() {
    assert!(parse_page(None).ok().unwrap() == PageRequest::First);
    assert!(parse_page(Some("2")).ok().unwrap() == PageRequest::Page(2));
    assert!(parse_page(Some("+3")).ok().unwrap() == PageRequest::Page(3));
}

#[test]
fn playlist_error_bodies() {
    assert_eq!(FetchPlaylistError::FailedToFetchPlaylist.body(), "{\"type\":\"error\"}");
    assert_eq!(FetchPlaylistError::FailedToParsePlaylist.body(), "{\"type\":\"error\"}");
    assert_eq!(
        FetchPlaylistError::FailedToGenerateContinuation.body(),
        "{\"type\":\"error\",\"message\":\"Error generating playlist continuation\"}"
    );
    let json_err = serde_json::from_str::<serde_json::Value>("{").unwrap_err();
    let body = FetchPlaylistError::FailedToParseContinuationResponse(json_err).body();
    assert!(body.starts_with("{\"type\":\"error\",\"message\":\"Error parsing continuation response to JSON\",\"inner_error\":\""));
    assert_eq!(
        alert_body(Some("This playlist does not exist."), Some("ERROR")),
        "{\"type\":\"error\",\"message\":\"This playlist does not exist.\",\"message_type\":\"ERROR\"}"
    );
    assert_eq!(alert_body(None, None), "{\"type\":\"error\",\"message\":\"\",\"message_type\":\"\"}");
}

#[test]
fn malicious_cipher_is_refused() {
    assert!(matches!(check_decipher_request(true, "a%3Bfor(b)"), DecipherCheck::Refused));
    assert_eq!(
        error_body("Refusing to execute potentially malicious payload"),
        "{\"type\":\"error\",\"message\":\"Refusing to execute potentially malicious payload\"}"
    );
}

#[test]
fn cipher_guard_tokens() {
    for bad in ["\"", "'", ";", "function", "for", "while", "(", "{", "[", "]", "}", ")"] {
        assert!(refuses_payload(&format!("s=1{}2", bad)), "{}", bad);
    }
    assert!(!refuses_payload("s=AOq0QJ8wRQIhAJ&sp=sig&url=https%3A%2F%2Fr1"));
}

#[test]
fn decipher_request_checks() {
    assert!(matches!(check_decipher_request(false, "s=1"), DecipherCheck::Disabled));
    match check_decipher_request(true, "s%3D1%26sp%3Dsig") {
        DecipherCheck::Accepted(c) => assert_eq!(c, "s=1&sp=sig"),
        _ => panic!("expected the cipher to be accepted"),
    }
    assert!(matches!(check_decipher_request(true, "%FF%FE"), DecipherCheck::Undecodable));
}

#[test]
fn decipher_outcomes() {
    match decipher_outcome(Ok(String::from("https://r1---a.googlevideo.com/videoplayback?x=1")), true, false) {
        DecipherOutcome::Redirect(l) => assert_eq!(l, "/videoplayback?x=1&host=r1---a.googlevideo.com&local=false"),
        _ => panic!("expected a redirect"),
    }
    assert!(matches!(decipher_outcome(Ok(String::from("https://x.googlevideo.com/v")), false, false), DecipherOutcome::BrokenLink(_)));
    match decipher_outcome(Err(String::from("bad \"js\"")), true, false) {
        DecipherOutcome::Failed(m) => assert_eq!(decipher_failed_body(&m), "{\"type\":\"error\",\"message\":\"bad \\\"js\\\"\"}"),
        _ => panic!("expected a failure"),
    }
    assert_eq!(
        broken_link_body("u"),
        "{\"type\":\"error\",\"message\":\"Deciphering JS ran without fail, but the result was a broken link.\",\"url\":\"u\"}"
    );
}

#[test]
fn quotes_escaped() {
    assert_eq!(escape_double_quotes("a\"b\""), "a\\\"b\\\"");
    assert_eq!(escape_double_quotes("plain"), "plain");
}

#[test]
fn playback_plans() {
    let local = VideoPlaybackQueryParams { host: String::from("r1---a.googlevideo.com"), local: None };
    assert!(matches!(playback_plan(false, &local, "/videoplayback?x=1"), PlaybackPlan::LocalDisabled));
    match playback_plan(true, &local, "/videoplayback?x=1") {
        PlaybackPlan::Proxy(u) => assert_eq!(u, "https://r1---a.googlevideo.com/videoplayback?x=1"),
        _ => panic!("expected a proxy plan"),
    }
    let remote = VideoPlaybackQueryParams { host: String::from("r1---a.googlevideo.com%2F"), local: Some(false) };
    match playback_plan(false, &remote, "/v") {
        PlaybackPlan::Redirect(u) => assert_eq!(u, "https://r1---a.googlevideo.com//v"),
        _ => panic!("expected a redirect plan"),
    }
    let bad = VideoPlaybackQueryParams { host: String::from("%FF"), local: Some(false) };
    assert!(matches!(playback_plan(true, &bad, "/v"), PlaybackPlan::BadHost));
}

#[test]
fn forwarded_headers() {
    assert!(!forwards_request_header("referrer"));
    assert!(!forwards_request_header("connection"));
    assert!(!forwards_request_header("access-control-allow-origin"));
    assert!(forwards_request_header("range"));
    assert!(!forwards_response_header("content-length"));
    assert!(forwards_response_header("content-type"));
}

#[test]
fn video_query_defaults() {
    let p = VideoEndpointQueryParams { hl: None, local: None, fields: None, pretty: Some(1) };
    assert_eq!(p.lang(), "en");
    assert!(!p.is_local());
    assert!(p.is_pretty());
}

#[test]
fn misc_bodies() {
    assert_eq!(
        not_found_body("nope"),
        "{\"type\":\"error\",\"message\":\"The requested path '/nope' was not found on this server.\"}"
    );
    assert_eq!(
        error_body_with_inner("Failed to fetch `/player` endpoint", "Login required"),
        "{\"type\":\"error\",\"message\":\"Failed to fetch `/player` endpoint\",\"inner_message\":\"Login required\"}"
    );
}

#[test]
fn static_files_and_thumbnails() {
    assert_eq!(static_file_path("icon.png"), "./static/icon.png");
    assert_eq!(static_content_type("icon.png"), "image/png");
    assert_eq!(static_content_type("home"), "text/html");
    assert_eq!(author_thumbnail_upstream("//ytc/abc=s88"), "https://yt3.ggpht.com/ytc/abc=s88");
    assert_eq!(author_thumbnail_upstream("ytc/abc"), "https://yt3.ggpht.com/ytc/abc");
}
