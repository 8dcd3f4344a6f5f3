//! The gateway's configuration, read once from the command line.

use vstd::prelude::*;
use crate::outside::{regex_first_group, first_group, parse_i32, i32_text_value};
use crate::streams::str_eq;

verus! {

/// Which key-value store backs the request cache.
#[derive(Clone, Copy, PartialEq, Eq, Structural)]
pub enum DbType {
    UnQLite,
    MongoDb,
}

/// Runtime configuration; never changed after startup.
#[derive(Clone)]
pub struct AppSettings {
    /// `--publish-settings`: include a settings snapshot in the stats route.
    pub publish_settings_inside_stats: bool,
    /// `--print-config`
    pub print_config: bool,
    /// On unless `--no-logs`.
    pub enable_actix_web_logger: bool,
    /// Emit video keys in the order of the field mask; off with `--no-sort`.
    pub sort_to_inv_schema: bool,
    /// Emit every masked key, null where missing; off with `--hide-null-fields`.
    pub retain_null_keys: bool,
    /// `--return-innertube`: attach the raw upstream payloads.
    pub return_innertube_response: bool,
    /// `--use-android-endpoint`: ask for pre-signed stream URLs.
    pub use_android_endpoint_for_streams: bool,
    /// `--decipher-streams`: enable the `/decipher_stream` route.
    pub decipher_streams: bool,
    /// `--pre-decipher-streams`: decipher on the video route itself.
    pub decipher_on_video_endpoint: bool,
    /// `--enable-local-streaming`: proxy media through `/videoplayback`.
    pub enable_local_streaming: bool,
    /// `--enable-cors`
    pub enable_cors: bool,
    /// Seconds after which a cache entry is stale.
    pub cache_timeout: u64,
    /// Read and write the cache; off with `--no-cache`.
    pub cache_requests: bool,
    pub ip_address: String,
    pub port: String,
    /// The public URL baked into generated stream links.
    pub pub_url: Option<String>,
    pub db_connection_string: Option<String>,
    pub db_name: String,
    pub db_type: DbType,
    pub num_of_workers: usize,
    /// A directory of playlist definitions to import at startup.
    pub playlists_path: Option<String>,
}

/// The arguments separated by single spaces.
pub open spec fn joined(args: Seq<String>) -> Seq<char>
    decreases args.len(),
{
    if args.len() == 0 {
        Seq::empty()
    } else if args.len() == 1 {
        args[0]@
    } else {
        joined(args.drop_last()) + " "@ + args.last()@
    }
}

/// Joins the arguments with single spaces.
pub fn join_args(args: &Vec<String>) -> (r: String)
    ensures
        r@ == joined(args@),
{
    let mut r = String::new();
    let mut i: usize = 0;
    while i < args.len()
        invariant
            i <= args.len(),
            r@ == joined(args@.subrange(0, i as int)),
        decreases args.len() - i,
    {
        proof {
            assert(args@.subrange(0, i + 1).drop_last() =~= args@.subrange(0, i as int));
        }
        if i > 0 {
            r.append(" ");
        }
        r.append(args[i].as_str());
        i = i + 1;
    }
    assert(args@.subrange(0, args.len() as int) =~= args@);
    r
}

/// Some argument is exactly `flag`.
pub open spec fn has_arg(args: Seq<String>, flag: Seq<char>) -> bool {
    exists|i: int| 0 <= i < args.len() && (#[trigger] args[i])@ == flag
}

/// Is some argument exactly `flag`?
pub fn contains_arg(args: &Vec<String>, flag: &str) -> (r: bool)
    ensures
        r == has_arg(args@, flag@),
{
    let mut i: usize = 0;
    while i < args.len()
        invariant
            i <= args.len(),
            forall|k: int| 0 <= k < i ==> (#[trigger] args@[k])@ != flag@,
        decreases args.len() - i,
    {
        if str_eq(args[i].as_str(), flag) {
            return true;
        }
        i = i + 1;
    }
    false
}

/// The value of a `--flag=value` option, or `default`.
pub open spec fn option_or(pattern: Seq<char>, line: Seq<char>, default: Seq<char>) -> Seq<char> {
    match regex_first_group(pattern, line) {
        Some(v) => v,
        None => default,
    }
}

/// The settings that the command line `args` selects.
pub open spec fn settings_match_args(s: AppSettings, args: Seq<String>) -> bool {
    let line = joined(args);
    let mongo = regex_first_group("--mongo-db=([^ ]+)"@, line);
    let db_type = if mongo is Some { DbType::MongoDb } else { DbType::UnQLite };
    let workers = regex_first_group("--workers=([0-9]+)"@, line);
    &&& s.publish_settings_inside_stats == has_arg(args, "--publish-settings"@)
    &&& s.print_config == has_arg(args, "--print-config"@)
    &&& s.enable_actix_web_logger == !has_arg(args, "--no-logs"@)
    &&& s.sort_to_inv_schema == !has_arg(args, "--no-sort"@)
    &&& s.retain_null_keys == !has_arg(args, "--hide-null-fields"@)
    &&& s.return_innertube_response == has_arg(args, "--return-innertube"@)
    &&& s.use_android_endpoint_for_streams == has_arg(args, "--use-android-endpoint"@)
    &&& s.decipher_streams == has_arg(args, "--decipher-streams"@)
    &&& s.decipher_on_video_endpoint == has_arg(args, "--pre-decipher-streams"@)
    &&& s.enable_local_streaming == has_arg(args, "--enable-local-streaming"@)
    &&& s.enable_cors == has_arg(args, "--enable-cors"@)
    &&& s.cache_timeout == 60
    &&& s.cache_requests == !has_arg(args, "--no-cache"@)
    &&& s.ip_address@ == option_or(
        "--ip=([0-9]+\\.[0-9]+\\.[0-9]+\\.[0-9]+)"@,
        line,
        "127.0.0.1"@,
    )
    &&& s.port@ == option_or("--port=([0-9]+)"@, line, "8080"@)
    &&& s.db_type == db_type
    &&& match mongo {
        Some(c) => s.db_connection_string matches Some(v) && v@ == c,
        None => s.db_connection_string is None,
    }
    &&& s.db_name@ == option_or(
        "--db-name=([^ ]+)"@,
        line,
        if db_type == DbType::UnQLite {
            "yaytapi.db"@
        } else {
            "local"@
        },
    )
    &&& s.num_of_workers == match workers {
        Some(w) => match i32_text_value(w) {
            Some(n) => if n >= 0 {
                n
            } else {
                1
            },
            None => 1,
        },
        None => 1,
    }
    &&& match regex_first_group("--public-url=([^ ]+)"@, line) {
        Some(u) => s.pub_url matches Some(v) && v@ == u,
        None => s.pub_url is None,
    }
    &&& match regex_first_group("--playlists-path=([^ ]+)"@, line) {
        Some(p) => s.playlists_path matches Some(v) && v@ == p,
        None => s.playlists_path is None,
    }
}

fn option_value(pattern: &str, line: &str, default: &str) -> (r: String)
    ensures
        r@ == option_or(pattern@, line@, default@),
{
    match first_group(pattern, line) {
        Some(v) => v,
        None => String::from_str(default),
    }
}

impl AppSettings {
    /// Reads the settings from the command line.
    pub fn from_cli_args(args: &Vec<String>) -> (r: AppSettings)
        ensures
            settings_match_args(r, args@),
    {
        let line = join_args(args);
        let l = line.as_str();
        let ip_address = option_value(
            "--ip=([0-9]+\\.[0-9]+\\.[0-9]+\\.[0-9]+)",
            l,
            "127.0.0.1",
        );
        let port = option_value("--port=([0-9]+)", l, "8080");
        let mongo = first_group("--mongo-db=([^ ]+)", l);
        let db_type = if mongo.is_some() {
            DbType::MongoDb
        } else {
            DbType::UnQLite
        };
        let db_name = option_value(
            "--db-name=([^ ]+)",
            l,
            if mongo.is_some() {
                "local"
            } else {
                "yaytapi.db"
            },
        );
        let num_of_workers: usize = match first_group("--workers=([0-9]+)", l) {
            Some(w) => match parse_i32(w.as_str()) {
                Some(n) => if n >= 0 {
                    n as usize
                } else {
                    1
                },
                None => 1,
            },
            None => 1,
        };
        AppSettings {
            publish_settings_inside_stats: contains_arg(args, "--publish-settings"),
            print_config: contains_arg(args, "--print-config"),
            enable_actix_web_logger: !contains_arg(args, "--no-logs"),
            sort_to_inv_schema: !contains_arg(args, "--no-sort"),
            retain_null_keys: !contains_arg(args, "--hide-null-fields"),
            return_innertube_response: contains_arg(args, "--return-innertube"),
            use_android_endpoint_for_streams: contains_arg(args, "--use-android-endpoint"),
            decipher_streams: contains_arg(args, "--decipher-streams"),
            decipher_on_video_endpoint: contains_arg(args, "--pre-decipher-streams"),
            enable_local_streaming: contains_arg(args, "--enable-local-streaming"),
            enable_cors: contains_arg(args, "--enable-cors"),
            cache_timeout: 60,
            cache_requests: !contains_arg(args, "--no-cache"),
            ip_address,
            port,
            pub_url: first_group("--public-url=([^ ]+)", l),
            db_connection_string: mongo,
            db_name,
            db_type,
            num_of_workers,
            playlists_path: first_group("--playlists-path=([^ ]+)", l),
        }
    }
}

/// The base URL that generated links start with: the configured public URL,
/// else the origin the request came in on, else nothing.
pub fn public_base(settings: &AppSettings, request_origin: Option<&str>) -> (r: String)
    ensures
        r@ == match settings.pub_url {
            Some(u) => u@,
            None => match request_origin {
                Some(o) => o@,
                None => Seq::empty(),
            },
        },
{
    match &settings.pub_url {
        Some(u) => u.clone(),
        None => match request_origin {
            Some(o) => String::from_str(o),
            None => String::new(),
        },
    }
}

} // verus!
