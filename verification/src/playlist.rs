//! Playlist URLs: detection and removal of the playlist parameter.
//!
//! All URLs are treated as single videos by default ("video only").

use vstd::prelude::*;
use crate::text::{
    chars_of, contains, owned, extend, find_from, first_match, matches_at, push_str, slice, string_of,
};

verus! {

/// Information about a video in a playlist.
#[derive(Debug, Clone)]
pub struct PlaylistVideo {
    /// Video ID.
    pub id: String,
    /// Video title.
    pub title: String,
    /// Full video URL.
    pub url: String,
    /// Duration in milliseconds.
    pub duration_ms: u64,
}

/// Information about a playlist.
#[derive(Debug, Clone)]
pub struct PlaylistInfo {
    /// Playlist ID.
    pub id: String,
    /// Playlist title.
    pub title: String,
    /// List of videos.
    pub videos: Vec<PlaylistVideo>,
}

/// Whether a URL names a playlist to expand: never, every URL is treated as
/// a single video.
pub fn is_playlist_url(_url: &str) -> (r: Option<String>)
    ensures
        r is None,
{
    None
}

/// Position of the first `c` at or after `k`, or the length of `s`.
pub open spec fn char_or_end(s: Seq<char>, c: char, k: int) -> int
    decreases s.len() - k,
{
    if k < 0 || k >= s.len() {
        s.len() as int
    } else if s[k] == c {
        k
    } else {
        char_or_end(s, c, k + 1)
    }
}

/// The URL without its playlist parameter: everything from `&list=` on is
/// dropped; a URL whose first parameter is `list=` keeps its base and the
/// value of the first `v=` in the URL (up to the next `&`).
pub open spec fn remove_playlist_param_spec(url: Seq<char>) -> Seq<char> {
    let amp = first_match(url, "&list="@, 0);
    let q = first_match(url, "?list="@, 0);
    let v = first_match(url, "v="@, 0);
    if amp >= 0 {
        url.take(amp)
    } else if q >= 0 {
        if v >= 0 {
            url.take(q) + "?v="@ + url.subrange(v + 2, char_or_end(url, '&', v + 2))
        } else {
            url.take(q)
        }
    } else {
        url
    }
}

/// Position of the first `c` at or after `k` in `s`, or its length.
pub fn char_or_end_pub(s: &Vec<char>, c: char, k: usize) -> (r: usize)
    requires
        k <= s.len(),
    ensures
        r == char_or_end(s@, c, k as int),
        k <= r <= s.len(),
{
    char_or_end_exec(s, c, k)
}

fn char_or_end_exec(s: &Vec<char>, c: char, k: usize) -> (r: usize)
    requires
        k <= s.len(),
    ensures
        r == char_or_end(s@, c, k as int),
        k <= r <= s.len(),
{
    let mut i = k;
    while i < s.len()
        invariant
            k <= i <= s.len(),
            char_or_end(s@, c, k as int) == char_or_end(s@, c, i as int),
        decreases s.len() - i,
    {
        if s[i] == c {
            return i;
        }
        i = i + 1;
    }
    i
}

/// Removes the playlist parameter from a URL: see
/// [`remove_playlist_param_spec`].
pub fn remove_playlist_param(url: &str) -> (r: String)
    ensures
        r@ == remove_playlist_param_spec(url@),
{
    let u = chars_of(url);
    let amp = chars_of("&list=");
    let ql = chars_of("?list=");
    let vq = chars_of("v=");
    proof {
        reveal_strlit("v=");
    }
    match find_from(&u, &amp, 0) {
        Some(pos) => {
            proof {
                assert(matches_at(u@, amp@, pos as int));
            }
            return string_of(&slice(&u, 0, pos));
        },
        None => {},
    }
    match find_from(&u, &ql, 0) {
        Some(lp) => {
            proof {
                assert(matches_at(u@, ql@, lp as int));
            }
            let mut out = slice(&u, 0, lp);
            match find_from(&u, &vq, 0) {
                Some(vp) => {
                    proof {
                        assert(matches_at(u@, vq@, vp as int));
                    }
                    let vs = vp + 2;
                    let ve = char_or_end_exec(&u, '&', vs);
                    push_str(&mut out, "?v=");
                    let id = slice(&u, vs, ve);
                    extend(&mut out, &id);
                    string_of(&out)
                },
                None => string_of(&out),
            }
        },
        None => string_of(&u),
    }
}

/// One line of yt-dlp's flat playlist listing: the fields read from it.
pub struct PlaylistEntry {
    pub id: Option<String>,
    pub title: Option<String>,
    pub playlist_title: Option<String>,
    pub playlist_id: Option<String>,
    /// Duration in milliseconds (0 when absent).
    pub duration_ms: u64,
}

/// The views of an optional string.
pub open spec fn opt_str(o: Option<String>) -> Option<Seq<char>> {
    match o {
        Some(s) => Some(s@),
        None => None,
    }
}

/// The watch URL of a video ID.
pub open spec fn watch_url(id: Seq<char>) -> Seq<char> {
    "https://www.youtube.com/watch?v="@ + id
}

/// The playlist's title, ID and videos (ID, title, URL, duration) after the
/// first `n` lines: while the title is empty, a line gives it (its
/// `playlist_title`, else its `title`) and the ID (its `playlist_id`); every
/// line with an ID is a video, titled `Unknown` when it has no title.
pub open spec fn listing(es: Seq<PlaylistEntry>, n: int) -> (Seq<char>, Seq<char>, Seq<(Seq<char>, Seq<char>, Seq<char>, u64)>)
    decreases n,
{
    if n <= 0 {
        (Seq::empty(), Seq::empty(), Seq::empty())
    } else {
        let (t, id, vs) = listing(es, n - 1);
        let e = es[n - 1];
        let t2 = if t.len() == 0 {
            match opt_str(e.playlist_title) {
                Some(x) => x,
                None => match opt_str(e.title) {
                    Some(x) => x,
                    None => t,
                },
            }
        } else {
            t
        };
        let id2 = if t.len() == 0 {
            match opt_str(e.playlist_id) {
                Some(x) => x,
                None => id,
            }
        } else {
            id
        };
        let vs2 = match opt_str(e.id) {
            Some(vid) => vs.push(
                (
                    vid,
                    match opt_str(e.title) {
                        Some(x) => x,
                        None => "Unknown"@,
                    },
                    watch_url(vid),
                    e.duration_ms,
                ),
            ),
            None => vs,
        };
        (t2, id2, vs2)
    }
}

/// The video IDs a flat listing names, in its order: those of the lines
/// that have one.
pub open spec fn listed_ids(es: Seq<PlaylistEntry>) -> Seq<Seq<char>>
    decreases es.len(),
{
    if es.len() == 0 {
        Seq::empty()
    } else {
        let r = listed_ids(es.drop_last());
        match opt_str(es.last().id) {
            Some(v) => r.push(v),
            None => r,
        }
    }
}

/// The videos of a listing's first `n` lines are its listed IDs, each with
/// its watch URL.
pub proof fn lemma_listing_ids(es: Seq<PlaylistEntry>, n: int)
    requires
        0 <= n <= es.len(),
    ensures
        listing(es, n).2.len() == listed_ids(es.take(n)).len(),
        forall|i: int|
            0 <= i < listing(es, n).2.len() ==> (#[trigger] listing(es, n).2[i]).0 == listed_ids(es.take(n))[i]
                && listing(es, n).2[i].2 == watch_url(listed_ids(es.take(n))[i]),
    decreases n,
{
    if n > 0 {
        lemma_listing_ids(es, n - 1);
        assert(es.take(n).drop_last() =~= es.take(n - 1));
        assert(es.take(n).last() == es[n - 1]);
    } else {
        assert(es.take(0) =~= Seq::<PlaylistEntry>::empty());
    }
}

/// A video of the playlist is the given quadruple.
pub open spec fn video_is(v: PlaylistVideo, q: (Seq<char>, Seq<char>, Seq<char>, u64)) -> bool {
    v.id@ == q.0 && v.title@ == q.1 && v.url@ == q.2 && v.duration_ms == q.3
}

/// The playlist described by the lines of yt-dlp's flat listing (see
/// [`listing`]); a listing without videos is the error `No videos found in
/// playlist`.
pub fn playlist_from_entries(entries: Vec<PlaylistEntry>) -> (r: Result<PlaylistInfo, crate::error::YtcsError>)
    ensures
        ({
            let (t, id, vs) = listing(entries@, entries@.len() as int);
            if vs.len() == 0 {
                r matches Err(crate::error::YtcsError::Other(m)) && m@ == "No videos found in playlist"@
            } else {
                r matches Ok(p) && p.title@ == t && p.id@ == id && p.videos@.len() == vs.len() && forall|i: int|
                    0 <= i < vs.len() ==> video_is(#[trigger] p.videos@[i], vs[i])
            }
        }),
{
    let mut videos: Vec<PlaylistVideo> = Vec::new();
    let mut title: Vec<char> = Vec::new();
    let mut id: Vec<char> = Vec::new();
    let mut i: usize = 0;
    while i < entries.len()
        invariant
            i <= entries@.len(),
            ({
                let (t, pid, vs) = listing(entries@, i as int);
                &&& title@ == t
                &&& id@ == pid
                &&& videos@.len() == vs.len()
                &&& forall|k: int| 0 <= k < vs.len() ==> video_is(#[trigger] videos@[k], vs[k])
            }),
        decreases entries@.len() - i,
    {
        let e = &entries[i];
        if title.len() == 0 {
            match &e.playlist_title {
                Some(x) => {
                    title = chars_of(x.as_str());
                },
                None => match &e.title {
                    Some(x) => {
                        title = chars_of(x.as_str());
                    },
                    None => {},
                },
            }
            match &e.playlist_id {
                Some(x) => {
                    id = chars_of(x.as_str());
                },
                None => {},
            }
        }
        let ghost before = videos@;
        match &e.id {
            Some(vid) => {
                let t = match &e.title {
                    Some(x) => owned(x.as_str()),
                    None => owned("Unknown"),
                };
                let mut url: Vec<char> = Vec::new();
                push_str(&mut url, "https://www.youtube.com/watch?v=");
                push_str(&mut url, vid.as_str());
                videos.push(PlaylistVideo { id: owned(vid.as_str()), title: t, url: string_of(&url), duration_ms: e.duration_ms });
                proof {
                    let vs = listing(entries@, i as int).2;
                    let vs2 = listing(entries@, i + 1).2;
                    assert forall|k: int| 0 <= k < vs2.len() implies video_is(#[trigger] videos@[k], vs2[k]) by {
                        if k < vs.len() {
                            assert(videos@[k] == before[k]);
                        }
                    }
                }
            },
            None => {},
        }
        i = i + 1;
    }
    if videos.len() == 0 {
        return Err(crate::error::YtcsError::Other(owned("No videos found in playlist")));
    }
    Ok(PlaylistInfo { id: string_of(&id), title: string_of(&title), videos })
}

} // verus!
