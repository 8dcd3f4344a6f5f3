use serde_json::Value;
type JsonObject = serde_json::Map<String, Value>;
use yaytapi::projection::{
    default_fields, fields_from_query, has_all_fields, keep_only_fields, max_thumbnail_width,
    project_video, sort_to_inv_schema, split_fields, width_source_keys, CommentUrl,
};
use yaytapi::settings::AppSettings;

fn args(list: &[&str]) -> Vec<String> {
    list.iter().map(|s| s.to_string()).collect()
}

fn object(pairs: &[(&str, Value)]) -> JsonObject {
    let mut m = JsonObject::new();
    for (k, v) in pairs {
        m.insert(k.to_string(), v.clone());
    }
    m
}

fn keys(m: &JsonObject) -> Vec<String> {
    m.keys().cloned().collect()
}

fn strings(list: &[&str]) -> Vec<String> {
    list.iter().map(|s| s.to_string()).collect()
}

#[test]
fn default_mask_has_all_schema_fields() {
    let d = default_fields();
    assert_eq!(d.len(), 37);
    assert_eq!(d[0], "type");
    assert_eq!(d[36], "musicTracks");
    assert!(d.contains(&String::from("hlsUrl")));
}

#[test]
fn fields_parameter_split() {
    assert_eq!(split_fields("a,b,c"), strings(&["a", "b", "c"]));
    assert_eq!(split_fields("title"), strings(&["title"]));
    assert_eq!(split_fields("a,"), strings(&["a", ""]));
    assert_eq!(split_fields(""), strings(&[""]));
    assert_eq!(fields_from_query(None).len(), 37);
}

#[test]
fn all_fields_check() {
    let m = object(&[("title", Value::from("t")), ("author", Value::from("a"))]);
    assert!(has_all_fields(&m, &strings(&["title", "author"])));
    assert!(!has_all_fields(&m, &strings(&["title", "viewCount"])));
}

#[test]
fn keep_only_masked_keys_in_order() {
    let m = object(&[("b", Value::from(1)), ("x", Value::from(2)), ("a", Value::from(3))]);
    let r = keep_only_fields(m, &strings(&["a", "b"]));
    assert_eq!(keys(&r), strings(&["b", "a"]));
    assert_eq!(r["a"], Value::from(3));
}

#[test]
fn sort_puts_mask_names_first_in_mask_order() {
    let m = object(&[("zeta", Value::from(0)), ("b", Value::from(1)), ("a", Value::from(2))]);
    let r = sort_to_inv_schema(m, &strings(&["a", "b", "a"]));
    assert_eq!(keys(&r), strings(&["a", "b", "zeta"]));
    assert_eq!(r["b"], Value::from(1));
}

#[test]
fn full_mask_with_nulls_and_sorting() {
    let settings = AppSettings::from_cli_args(&args(&["yaytapi"]));
    let fields = default_fields();
    let m = object(&[
        ("title", Value::from("Never")),
        ("videoId", Value::from("dQw4w9WgXcQ")),
        ("hlsUrl", Value::from("h")),
        ("extra", Value::from(true)),
    ]);
    let r = project_video(m, &fields, &settings, vec![], None, JsonObject::new());
    assert_eq!(keys(&r), fields);
    assert_eq!(r["hlsUrl"], Value::Null);
    assert_eq!(r["description"], Value::Null);
    assert_eq!(r["rating"], Value::from(0));
    assert_eq!(r["captions"], Value::Array(vec![]));
    assert_eq!(r["title"], Value::from("Never"));
}

#[test]
fn hidden_nulls_add_no_null_values() {
    let settings = AppSettings::from_cli_args(&args(&["yaytapi", "--hide-null-fields"]));
    let fields = default_fields();
    let m = object(&[("title", Value::from("t")), ("author", Value::from("a"))]);
    let r = project_video(m, &fields, &settings, vec![Value::from("thumb")], None, JsonObject::new());
    assert!(r.values().all(|v| !v.is_null()));
    assert!(!r.contains_key("description"));
    assert!(!r.contains_key("hlsUrl"));
    assert_eq!(r["videoThumbnails"], Value::Array(vec![Value::from("thumb")]));
}

#[test]
fn chosen_fields_and_defaults_only() {
    let settings = AppSettings::from_cli_args(&args(&["yaytapi", "--no-sort"]));
    let fields = strings(&["title", "author", "viewCount"]);
    let m = object(&[("title", Value::from("t")), ("description", Value::from("d")), ("author", Value::from("a"))]);
    let comments = vec![Value::from("c")];
    let r = project_video(m, &fields, &settings, vec![], Some(comments), JsonObject::new());
    let mut got = keys(&r);
    got.sort();
    let mut want = strings(&["title", "author", "viewCount", "captions", "videoThumbnails", "keywords", "rating", "dislikeCount", "comments"]);
    want.sort();
    assert_eq!(got, want);
}

#[test]
fn sorted_chosen_fields_keep_defaults_after_mask() {
    let settings = AppSettings::from_cli_args(&args(&["yaytapi", "--return-innertube"]));
    let fields = strings(&["viewCount", "title"]);
    let m = object(&[("title", Value::from("t")), ("viewCount", Value::from(5))]);
    let r = project_video(m, &fields, &settings, vec![], None, JsonObject::new());
    assert_eq!(
        keys(&r),
        strings(&["viewCount", "title", "captions", "videoThumbnails", "keywords", "rating", "dislikeCount", "innertube"])
    );
}

#[test]
fn thumbnail_widths() {
    let sizes = vec![Some(String::from("640x360")), Some(String::from("1280x720")), None, Some(String::from("bad"))];
    assert_eq!(max_thumbnail_width(&sizes), 1280);
    assert_eq!(max_thumbnail_width(&vec![Some(String::from("640x360"))]), 640);
    assert_eq!(max_thumbnail_width(&vec![]), 680);
    assert_eq!(max_thumbnail_width(&vec![None, Some(String::from("x"))]), 680);
}

#[test]
fn width_sources() {
    let m = object(&[("formatStreams", Value::Array(vec![])), ("adaptiveFormats", Value::Array(vec![]))]);
    assert_eq!(width_source_keys(&m, &strings(&["adaptiveFormats"])), strings(&["adaptiveFormats"]));
    assert_eq!(width_source_keys(&m, &default_fields()), strings(&["formatStreams", "adaptiveFormats"]));
    assert!(width_source_keys(&JsonObject::new(), &default_fields()).is_empty());
}

#[test]
fn comment_links() {
    let c = CommentUrl::new("dQw4w9WgXcQ", "Top comments", "TOKEN1");
    assert_eq!(c.url, "/api/v1/comments/dQw4w9WgXcQ?continuation=TOKEN1");
    assert_eq!(c.title, "Top comments");
    assert_eq!(c.token, "TOKEN1");
}
