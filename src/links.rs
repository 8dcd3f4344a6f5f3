//! Video references as users write them in playlist files.

use vstd::prelude::*;
use crate::text::{find_first, find_str};

verus! {

/// The part of `s` after the first occurrence of `p`, up to the next
/// occurrence of `p` or the end; `s` itself where `p` does not occur.
pub open spec fn segment_after(s: Seq<char>, p: Seq<char>) -> Seq<char> {
    match find_first(s, p) {
        Some(i) => {
            let rest = s.subrange(i + p.len(), s.len() as int);
            match find_first(rest, p) {
                Some(j) => rest.subrange(0, j),
                None => rest,
            }
        },
        None => s,
    }
}

/// The video id that a link or a bare id names.
pub open spec fn video_id_of(s: Seq<char>) -> Seq<char> {
    if find_first(s, "/watch?v="@) is Some {
        segment_after(s, "/watch?v="@)
    } else if find_first(s, "youtu.be/"@) is Some {
        segment_after(s, "youtu.be/"@)
    } else {
        s
    }
}

fn segment_after_exec(s: &str, p: &str) -> (r: String)
    ensures
        r@ == segment_after(s@, p@),
{
    match find_str(s, p) {
        Some(i) => {
            proof {
                crate::text::lemma_find_from(s@, p@, 0);
            }
            let n = s.unicode_len();
            let start = i + p.unicode_len();
            let rest = s.substring_char(start, n);
            match find_str(rest, p) {
                Some(j) => {
                    proof {
                        crate::text::lemma_find_from(rest@, p@, 0);
                    }
                    String::from_str(rest.substring_char(0, j))
                },
                None => String::from_str(rest),
            }
        },
        None => String::from_str(s),
    }
}

/// Extracts the video id from a `…/watch?v=ID` or `youtu.be/ID` link; any
/// other text is taken to be an id already.
pub fn video_link_or_id_to_id(link_like_video_id: &str) -> (r: String)
    ensures
        r@ == video_id_of(link_like_video_id@),
{
    let watch = "/watch?v=";
    let short = "youtu.be/";
    if find_str(link_like_video_id, watch).is_some() {
        segment_after_exec(link_like_video_id, watch)
    } else if find_str(link_like_video_id, short).is_some() {
        segment_after_exec(link_like_video_id, short)
    } else {
        String::from_str(link_like_video_id)
    }
}

} // verus!
