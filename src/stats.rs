//! The `/api/v1/stats` document.

use vstd::prelude::*;
use crate::settings::AppSettings;

verus! {

/// An Innertube client context the gateway asks upstream with.
#[derive(Clone, Copy, PartialEq, Eq, Structural)]
pub enum InnertubeEndpoint {
    Web,
    Android,
    TV,
}

/// A snapshot of the settings, published on request.
pub struct YaytAPIStats {
    pub cors_enabled: bool,
    pub local_streaming_enabled: bool,
    pub decipher_streams_enabled: bool,
    pub innertube_endpoints_used: Vec<InnertubeEndpoint>,
    pub allow_null_keys_in_output: bool,
}

pub struct Software {
    pub name: String,
    pub version: String,
    pub branch: String,
}

pub struct Stats {
    pub version: String,
    pub software: Software,
    pub yaytapi_settings: Option<YaytAPIStats>,
}

/// Query parameters of `/api/v1/stats`.
pub struct StatsQueryParams {
    pub pretty: Option<i32>,
}

impl StatsQueryParams {
    pub fn is_pretty(&self) -> (r: bool)
        ensures
            r == (self.pretty == Some(1i32)),
    {
        match self.pretty {
            Some(p) => p == 1,
            None => false,
        }
    }
}

/// The commit and branch the gateway was built from.
pub struct GitInfo {
    pub commit: String,
    pub branch: String,
}

impl Stats {
    /// The stats document: version `0.2.0`, software `yaytapi` at the
    /// build's commit and branch, and a settings snapshot iff the settings
    /// ask for it to be published.
    pub fn for_settings(settings: &AppSettings, git: &GitInfo) -> (r: Stats)
        ensures
            r.version@ == "0.2.0"@,
            r.software.name@ == "yaytapi"@,
            r.software.version@ == git.commit@,
            r.software.branch@ == git.branch@,
            settings.publish_settings_inside_stats <==> r.yaytapi_settings is Some,
            r.yaytapi_settings matches Some(s) ==> {
                &&& s.cors_enabled == settings.enable_cors
                &&& s.local_streaming_enabled == settings.enable_local_streaming
                &&& s.decipher_streams_enabled == settings.decipher_streams
                &&& s.allow_null_keys_in_output == settings.retain_null_keys
                &&& s.innertube_endpoints_used@ == if settings.use_android_endpoint_for_streams {
                    seq![InnertubeEndpoint::Web, InnertubeEndpoint::Android]
                } else {
                    seq![InnertubeEndpoint::Web]
                }
            },
    {
        let yaytapi_settings = if settings.publish_settings_inside_stats {
            let mut endpoints: Vec<InnertubeEndpoint> = Vec::new();
            endpoints.push(InnertubeEndpoint::Web);
            if settings.use_android_endpoint_for_streams {
                endpoints.push(InnertubeEndpoint::Android);
            }
            Some(
                YaytAPIStats {
                    cors_enabled: settings.enable_cors,
                    local_streaming_enabled: settings.enable_local_streaming,
                    decipher_streams_enabled: settings.decipher_streams,
                    innertube_endpoints_used: endpoints,
                    allow_null_keys_in_output: settings.retain_null_keys,
                },
            )
        } else {
            None
        };
        Stats {
            version: String::from_str("0.2.0"),
            software: Software {
                name: String::from_str("yaytapi"),
                version: git.commit.clone(),
                branch: git.branch.clone(),
            },
            yaytapi_settings,
        }
    }
}

} // verus!
