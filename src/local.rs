//! Playlists defined in local JSON files, imported at startup.

use vstd::prelude::*;
use crate::settings::AppSettings;

verus! {

/// The base URL of the gateway as local playlists name it: the public URL,
/// else `http://{ip}:{port}`.
pub fn local_base_uri(settings: &AppSettings) -> (r: String)
    ensures
        r@ == match settings.pub_url {
            Some(u) => u@,
            None => "http://"@ + settings.ip_address@ + ":"@ + settings.port@,
        },
{
    match &settings.pub_url {
        Some(u) => u.clone(),
        None => {
            let mut r = String::from_str("http://");
            r.append(settings.ip_address.as_str());
            r.append(":");
            r.append(settings.port.as_str());
            r
        },
    }
}

/// The host that stream links of imported videos are generated for: the
/// public URL, else `{ip}:{port}`.
pub fn local_player_host(settings: &AppSettings) -> (r: String)
    ensures
        r@ == match settings.pub_url {
            Some(u) => u@,
            None => settings.ip_address@ + ":"@ + settings.port@,
        },
{
    match &settings.pub_url {
        Some(u) => u.clone(),
        None => {
            let mut r = settings.ip_address.clone();
            r.append(":");
            r.append(settings.port.as_str());
            r
        },
    }
}

/// The playlist-level fields of an imported playlist.
pub struct LocalPlaylistHeader {
    pub title: String,
    pub playlist_id: String,
    pub author: String,
    pub author_id: String,
    /// The icon shown for the author, three times over.
    pub author_thumbnail_url: String,
    pub author_thumbnail_size: i32,
    pub description: String,
    pub description_html: String,
    pub video_count: usize,
    pub view_count: i32,
    pub updated: i64,
    pub is_listed: bool,
}

/// The fields of the playlist defined in the file `file_name`, whose
/// document gives `title` and `description` (where it does), that lists
/// `item_count` references of which `video_count` resolved. A file with no
/// references gives no playlist.
pub fn local_playlist_header(
    file_name: &str,
    title: Option<&str>,
    description: Option<&str>,
    item_count: usize,
    video_count: usize,
    settings: &AppSettings,
    now: i64,
) -> (r: Option<LocalPlaylistHeader>)
    ensures
        item_count == 0 <==> r is None,
        r matches Some(h) ==> {
            &&& h.title@ == match title {
                Some(t) => t@,
                None => file_name@,
            }
            &&& h.playlist_id@ == file_name@
            &&& h.author@ == "yaytapi"@
            &&& h.author_id@ == "::yaytapi_local::"@
            &&& h.author_thumbnail_url@ == match settings.pub_url {
                Some(u) => u@,
                None => "http://"@ + settings.ip_address@ + ":"@ + settings.port@,
            } + "/static/icon.png"@
            &&& h.author_thumbnail_size == 400
            &&& h.description@ == match description {
                Some(d) => d@,
                None => Seq::<char>::empty(),
            }
            &&& h.description_html@ == Seq::<char>::empty()
            &&& h.video_count == video_count
            &&& h.view_count == 0
            &&& h.updated == now
            &&& !h.is_listed
        },
{
    if item_count == 0 {
        return None;
    }
    let mut icon = local_base_uri(settings);
    icon.append("/static/icon.png");
    Some(
        LocalPlaylistHeader {
            title: match title {
                Some(t) => String::from_str(t),
                None => String::from_str(file_name),
            },
            playlist_id: String::from_str(file_name),
            author: String::from_str("yaytapi"),
            author_id: String::from_str("::yaytapi_local::"),
            author_thumbnail_url: icon,
            author_thumbnail_size: 400,
            description: match description {
                Some(d) => String::from_str(d),
                None => String::new(),
            },
            description_html: String::new(),
            video_count,
            view_count: 0,
            updated: now,
            is_listed: false,
        },
    )
}

} // verus!
