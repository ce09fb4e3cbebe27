//! Video information and the decisions around downloads: the video ID of a
//! URL, the thumbnail URLs to try and how their fetches are retried, the
//! install command of a tool, and the messages of failures.
//!
//! Running yt-dlp, fetching over HTTP and writing files are left to the
//! front end, which hands the results in.

use vstd::prelude::*;
use crate::chapters::{chapter_is, entries_chapters, parse_chapters_from_json, Chapter, ChapterEntry};
use crate::error::{HostOs, YtcsError};
use crate::playlist::{char_or_end, char_or_end_pub};
use crate::text::{
    chars_of, extend, matches_at, matches_at_exec, owned, push_dec, push_str, slice, string_of, trim, trim_chars,
};

verus! {

/// Information about a YouTube video.
pub struct VideoInfo {
    pub title: String,
    /// Duration in milliseconds.
    pub duration_ms: u64,
    pub chapters: Vec<Chapter>,
    pub video_id: String,
    /// The video's description (for chapter timestamps when there are no
    /// chapters).
    pub description: Option<String>,
    /// The upload date (often `YYYYMMDD`).
    pub upload_date: Option<String>,
    /// The categories, joined with commas.
    pub genre: Option<String>,
    /// The canonical watch URL.
    pub webpage_url: Option<String>,
    /// The best thumbnail URL, trimmed, when not empty.
    pub thumbnail: Option<String>,
}

/// A character allowed in a video ID: an ASCII letter or digit, `_` or `-`.
pub open spec fn is_id_char(c: char) -> bool {
    ('a' <= c && c <= 'z') || ('A' <= c && c <= 'Z') || ('0' <= c && c <= '9') || c == '_' || c == '-'
}

/// Eleven ID characters start at `k`.
pub open spec fn id_run(s: Seq<char>, k: int) -> bool {
    0 <= k && k + 11 <= s.len() && forall|j: int| k <= j < k + 11 ==> is_id_char(#[trigger] s[j])
}

/// Where the ID would start after a match of `youtube.com/watch?v=` or
/// `youtu.be/` at `i`.
pub open spec fn id_start(s: Seq<char>, i: int) -> int {
    if matches_at(s, "youtube.com/watch?v="@, i) {
        i + 20
    } else {
        i + 9
    }
}

/// A video URL prefix (`youtube.com/watch?v=` or `youtu.be/`) at `i`,
/// followed by eleven ID characters.
pub open spec fn video_id_at(s: Seq<char>, i: int) -> bool {
    (matches_at(s, "youtube.com/watch?v="@, i) || matches_at(s, "youtu.be/"@, i)) && id_run(s, id_start(s, i))
}

/// The ID of the first video URL prefix in `s` followed by an ID, if any.
pub open spec fn video_id_of(s: Seq<char>) -> Option<Seq<char>> {
    if exists|i: int| video_id_at(s, i) {
        let i = choose|i: int| video_id_at(s, i) && forall|j: int| 0 <= j < i ==> !video_id_at(s, j);
        Some(s.subrange(id_start(s, i), id_start(s, i) + 11))
    } else {
        None
    }
}

/// The first video URL prefix followed by an ID gives the ID.
pub proof fn lemma_first_video_id(s: Seq<char>, i: int)
    requires
        video_id_at(s, i),
        forall|j: int| 0 <= j < i ==> !video_id_at(s, j),
    ensures
        video_id_of(s) == Some(s.subrange(id_start(s, i), id_start(s, i) + 11)),
{
    let c = choose|c: int| video_id_at(s, c) && forall|j: int| 0 <= j < c ==> !video_id_at(s, j);
    assert(video_id_at(s, c) && forall|j: int| 0 <= j < c ==> !video_id_at(s, j));
    if c < i {
        assert(c >= 0);
    } else if c > i {
        assert(i >= 0);
    }
}

/// The message of a URL without a video ID.
pub open spec fn no_video_id_message(url: Seq<char>) -> Seq<char> {
    "Unable to extract video ID from: "@ + url
}

/// Whether eleven ID characters start at `k` in `v`.
fn id_run_exec(v: &Vec<char>, k: usize) -> (r: bool)
    ensures
        r == id_run(v@, k as int),
{
    if k > v.len() || v.len() - k < 11 {
        return false;
    }
    let end = k + 11;
    let mut j = k;
    while j < end
        invariant
            end == k + 11,
            k <= j <= k + 11,
            k + 11 <= v@.len(),
            forall|i: int| k <= i < j ==> is_id_char(#[trigger] v@[i]),
        decreases k + 11 - j,
    {
        let c = v[j];
        if !(('a' <= c && c <= 'z') || ('A' <= c && c <= 'Z') || ('0' <= c && c <= '9') || c == '_' || c == '-') {
            return false;
        }
        j = j + 1;
    }
    true
}

/// The video ID of a YouTube URL: the eleven ID characters after the
/// first `youtube.com/watch?v=` or `youtu.be/` that is followed by them.
pub fn extract_video_id(url: &str) -> (r: Result<String, YtcsError>)
    ensures
        match r {
            Ok(id) => video_id_of(url@) == Some(id@),
            Err(e) => video_id_of(url@) is None && (e matches YtcsError::InvalidUrl(m) && m@ == no_video_id_message(url@)),
        },
{
    let v = chars_of(url);
    let p1 = chars_of("youtube.com/watch?v=");
    let p2 = chars_of("youtu.be/");
    proof {
        reveal_strlit("youtube.com/watch?v=");
        reveal_strlit("youtu.be/");
    }
    let mut i: usize = 0;
    while i < v.len()
        invariant
            i <= v@.len(),
            p1@ == "youtube.com/watch?v="@,
            p2@ == "youtu.be/"@,
            p1@.len() == 20,
            p2@.len() == 9,
            v@ == url@,
            forall|j: int| 0 <= j < i ==> !video_id_at(v@, j),
        decreases v@.len() - i,
    {
        let m1 = matches_at_exec(&v, &p1, i);
        let m2 = matches_at_exec(&v, &p2, i);
        if m1 || m2 {
            let k = if m1 {
                i + 20
            } else {
                i + 9
            };
            if id_run_exec(&v, k) {
                proof {
                    assert(k == id_start(v@, i as int));
                    assert(video_id_at(v@, i as int));
                    lemma_first_video_id(v@, i as int);
                }
                let id = slice(&v, k, k + 11);
                assert(id@ == v@.subrange(id_start(v@, i as int), id_start(v@, i as int) + 11));
                return Ok(string_of(&id));
            }
        }
        i = i + 1;
    }
    proof {
        assert forall|j: int| !video_id_at(v@, j) by {
            if j >= v@.len() {
                assert(!id_run(v@, id_start(v@, j)));
            }
        }
    }
    let mut m: Vec<char> = Vec::new();
    push_str(&mut m, "Unable to extract video ID from: ");
    push_str(&mut m, url);
    Err(YtcsError::InvalidUrl(string_of(&m)))
}

/// The URL without its query: everything before the first `?`.
pub open spec fn redact_url_query_spec(url: Seq<char>) -> Seq<char> {
    url.take(char_or_end(url, '?', 0))
}

/// The URL without its query string, for logging (signed CDN URLs may
/// carry tokens).
pub fn redact_url_query(url: &str) -> (r: String)
    ensures
        r@ == redact_url_query_spec(url@),
{
    let v = chars_of(url);
    let e = char_or_end_pub(&v, '?', 0);
    proof {
        crate::tui::components::input::lemma_char_or_end_bounds(v@, '?', 0);
    }
    string_of(&slice(&v, 0, e))
}

/// `list` with `u` added at its end unless it is there already.
pub open spec fn push_unique(list: Seq<Seq<char>>, u: Seq<char>) -> Seq<Seq<char>> {
    if list.contains(u) {
        list
    } else {
        list.push(u)
    }
}

/// The CDN URL of a thumbnail of the video `id`.
pub open spec fn cdn_url(base: Seq<char>, id: Seq<char>, name: Seq<char>) -> Seq<char> {
    base + "/"@ + id + "/"@ + name + ".jpg"@
}

/// The thumbnail URLs to try, in order, for the video `id`: the one yt-dlp
/// reported (trimmed), when it is an http(s) URL, then the large, high and
/// medium quality images of the two YouTube image hosts, each once.
pub open spec fn thumbnail_urls_spec(thumbnail: Option<Seq<char>>, id: Seq<char>) -> Seq<Seq<char>> {
    let first: Seq<Seq<char>> = match thumbnail {
        Some(t) => if matches_at(trim(t), "http://"@, 0) || matches_at(trim(t), "https://"@, 0) {
            seq![trim(t)]
        } else {
            seq![]
        },
        None => seq![],
    };
    let a = "https://i.ytimg.com/vi"@;
    let b = "https://img.youtube.com/vi"@;
    let l1 = push_unique(first, cdn_url(a, id, "maxresdefault"@));
    let l2 = push_unique(l1, cdn_url(a, id, "hqdefault"@));
    let l3 = push_unique(l2, cdn_url(a, id, "mqdefault"@));
    let l4 = push_unique(l3, cdn_url(b, id, "maxresdefault"@));
    let l5 = push_unique(l4, cdn_url(b, id, "hqdefault"@));
    push_unique(l5, cdn_url(b, id, "mqdefault"@))
}

/// Adds `u` to `urls` unless it is there already.
fn push_unique_exec(urls: &mut Vec<String>, u: String)
    ensures
        final(urls)@.map_values(|s: String| s@) == push_unique(old(urls)@.map_values(|s: String| s@), u@),
{
    let ghost before = urls@.map_values(|s: String| s@);
    let mut i: usize = 0;
    while i < urls.len()
        invariant
            i <= urls@.len(),
            before == urls@.map_values(|s: String| s@),
            forall|j: int| 0 <= j < i ==> before[j] != u@,
        decreases urls@.len() - i,
    {
        if crate::text::str_eq(urls[i].as_str(), u.as_str()) {
            proof {
                assert(before[i as int] == u@);
                assert(before.contains(u@));
            }
            return;
        }
        i = i + 1;
    }
    proof {
        assert(!before.contains(u@)) by {
            if before.contains(u@) {
                let j = choose|j: int| 0 <= j < before.len() && before[j] == u@;
            }
        }
    }
    urls.push(u);
    proof {
        assert(urls@.map_values(|s: String| s@) =~= before.push(u@));
    }
}

/// The CDN URL of a thumbnail.
fn cdn_url_exec(base: &str, id: &str, name: &str) -> (r: String)
    ensures
        r@ == cdn_url(base@, id@, name@),
{
    let mut v: Vec<char> = Vec::new();
    push_str(&mut v, base);
    push_str(&mut v, "/");
    push_str(&mut v, id);
    push_str(&mut v, "/");
    push_str(&mut v, name);
    push_str(&mut v, ".jpg");
    string_of(&v)
}

/// The thumbnail URLs to try for a video (see [`thumbnail_urls_spec`]):
/// its ID is the one in `info`, or, when that is empty, the one of the page
/// URL, whose absence is the error.
pub fn thumbnail_candidate_urls(info: &VideoInfo, page_url: &str) -> (r: Result<Vec<String>, YtcsError>)
    ensures
        ({
            let id = if info.video_id@.len() > 0 {
                Some(info.video_id@)
            } else {
                video_id_of(page_url@)
            };
            match r {
                Ok(urls) => id is Some && urls@.map_values(|s: String| s@) == thumbnail_urls_spec(
                    crate::tui::app::opt_chars(info.thumbnail),
                    id->0,
                ),
                Err(e) => id is None && (e matches YtcsError::InvalidUrl(m) && m@ == no_video_id_message(page_url@)),
            }
        }),
{
    let id_chars = chars_of(info.video_id.as_str());
    let video_id = if id_chars.len() > 0 {
        owned(info.video_id.as_str())
    } else {
        match extract_video_id(page_url) {
            Ok(id) => id,
            Err(e) => return Err(e),
        }
    };
    let mut urls: Vec<String> = Vec::new();
    proof {
        assert(urls@.map_values(|s: String| s@) =~= Seq::<Seq<char>>::empty());
    }
    match &info.thumbnail {
        Some(t) => {
            let tv = chars_of(t.as_str());
            let tt = trim_chars(&tv);
            let h1 = chars_of("http://");
            let h2 = chars_of("https://");
            if matches_at_exec(&tt, &h1, 0) || matches_at_exec(&tt, &h2, 0) {
                urls.push(string_of(&tt));
                proof {
                    assert(urls@.map_values(|s: String| s@) =~= seq![trim(t@)]);
                }
            }
        },
        None => {},
    }
    let id = video_id.as_str();
    push_unique_exec(&mut urls, cdn_url_exec("https://i.ytimg.com/vi", id, "maxresdefault"));
    push_unique_exec(&mut urls, cdn_url_exec("https://i.ytimg.com/vi", id, "hqdefault"));
    push_unique_exec(&mut urls, cdn_url_exec("https://i.ytimg.com/vi", id, "mqdefault"));
    push_unique_exec(&mut urls, cdn_url_exec("https://img.youtube.com/vi", id, "maxresdefault"));
    push_unique_exec(&mut urls, cdn_url_exec("https://img.youtube.com/vi", id, "hqdefault"));
    push_unique_exec(&mut urls, cdn_url_exec("https://img.youtube.com/vi", id, "mqdefault"));
    Ok(urls)
}

/// What one fetch of a thumbnail URL gave.
pub enum FetchOutcome {
    /// A non-empty body (status 200).
    Body(Vec<u8>),
    /// A failure not worth retrying on this URL: another status than 200
    /// outside 5xx, or an empty body.
    Permanent(String),
    /// A failure worth retrying: a 5xx status, a transport error, or a body
    /// that could not be read.
    Retryable(String),
}

/// "HTTP " and the status.
pub open spec fn http_status_text(status: u16) -> Seq<char> {
    "HTTP "@ + crate::text::dec(status as nat)
}

/// How a fetch reply is classified: `reply` is the transport error, or
/// the status with the body read (or the error reading it).
pub open spec fn fetch_outcome_spec(reply: Result<(u16, Result<Seq<u8>, Seq<char>>), Seq<char>>) -> (
    int,
    Seq<char>,
) {
    match reply {
        Err(e) => (2, "transport error: "@ + e),
        Ok((status, body)) => if 500 <= status < 600 {
            (2, http_status_text(status))
        } else if status != 200 {
            (1, http_status_text(status))
        } else {
            match body {
                Err(e) => (2, "read body failed: "@ + e),
                Ok(b) => if b.len() == 0 {
                    (1, "empty body"@)
                } else {
                    (0, Seq::empty())
                },
            }
        },
    }
}

/// The views of a fetch reply.
pub open spec fn reply_view(reply: Result<(u16, Result<Vec<u8>, String>), String>) -> Result<
    (u16, Result<Seq<u8>, Seq<char>>),
    Seq<char>,
> {
    match reply {
        Err(e) => Err(e@),
        Ok((status, body)) => Ok(
            (
                status,
                match body {
                    Ok(b) => Ok(b@),
                    Err(e) => Err(e@),
                },
            ),
        ),
    }
}

/// Classifies the reply to a thumbnail fetch (see [`fetch_outcome_spec`]:
/// 0 a body, 1 permanent, 2 retryable, with the reason).
pub fn fetch_outcome(reply: Result<(u16, Result<Vec<u8>, String>), String>) -> (r: FetchOutcome)
    ensures
        ({
            let (kind, reason) = fetch_outcome_spec(reply_view(reply));
            match r {
                FetchOutcome::Body(b) => kind == 0 && (reply matches Ok((_, Ok(body))) && b@ == body@),
                FetchOutcome::Permanent(m) => kind == 1 && m@ == reason,
                FetchOutcome::Retryable(m) => kind == 2 && m@ == reason,
            }
        }),
{
    match reply {
        Err(e) => {
            let mut m: Vec<char> = Vec::new();
            push_str(&mut m, "transport error: ");
            push_str(&mut m, e.as_str());
            FetchOutcome::Retryable(string_of(&m))
        },
        Ok((status, body)) => {
            if 500 <= status && status < 600 {
                let mut m: Vec<char> = Vec::new();
                push_str(&mut m, "HTTP ");
                push_dec(&mut m, status as u64);
                FetchOutcome::Retryable(string_of(&m))
            } else if status != 200 {
                let mut m: Vec<char> = Vec::new();
                push_str(&mut m, "HTTP ");
                push_dec(&mut m, status as u64);
                FetchOutcome::Permanent(string_of(&m))
            } else {
                match body {
                    Err(e) => {
                        let mut m: Vec<char> = Vec::new();
                        push_str(&mut m, "read body failed: ");
                        push_str(&mut m, e.as_str());
                        FetchOutcome::Retryable(string_of(&m))
                    },
                    Ok(b) => if b.len() == 0 {
                        FetchOutcome::Permanent(owned("empty body"))
                    } else {
                        FetchOutcome::Body(b)
                    },
                }
            }
        },
    }
}

/// The progress through the thumbnail URLs: which URL is tried, which
/// attempt on it (up to three), and the last failure.
pub struct ThumbnailFetch {
    pub urls: Vec<String>,
    pub url_index: usize,
    pub attempt: u8,
    pub last_error: Option<String>,
}

/// What to do after a fetch.
pub enum ThumbnailStep {
    /// Write these bytes as the cover: done.
    Save(Vec<u8>),
    /// Wait a second, then fetch the same URL again.
    RetryAfterPause,
    /// Go on with the next URL (or the fallback when none is left).
    NextUrl,
}

/// The failure recorded for a fetch of `url`: the reason and the URL
/// without its query.
pub open spec fn failure_note(reason: Seq<char>, url: Seq<char>) -> Seq<char> {
    reason + " ("@ + redact_url_query_spec(url) + ")"@
}

impl ThumbnailFetch {
    /// The URL index is in range and the attempt is the first, second or
    /// third.
    pub open spec fn wf(&self) -> bool {
        self.url_index <= self.urls@.len() && 1 <= self.attempt <= 3
    }

    /// A fetch that starts with the first attempt on the first URL.
    pub fn new(urls: Vec<String>) -> (r: Self)
        ensures
            r.wf(),
            r.urls == urls,
            r.url_index == 0,
            r.attempt == 1,
            r.last_error is None,
    {
        ThumbnailFetch { urls, url_index: 0, attempt: 1, last_error: None }
    }

    /// The URL to fetch now, or `None` when every URL failed and the
    /// fallback is due.
    pub fn next_url(&self) -> (r: Option<String>)
        requires
            self.wf(),
        ensures
            match r {
                Some(u) => self.url_index < self.urls@.len() && u@ == self.urls@[self.url_index as int]@,
                None => self.url_index == self.urls@.len(),
            },
    {
        if self.url_index < self.urls.len() {
            Some(owned(self.urls[self.url_index].as_str()))
        } else {
            None
        }
    }

    /// Records the outcome of the fetch of the current URL: a body is to be
    /// saved; a permanent failure moves on to the next URL; a retryable one
    /// is tried again after a pause, up to three attempts in all, then the
    /// next URL is tried. Each failure is kept as the last one.
    pub fn record(&mut self, outcome: FetchOutcome) -> (r: ThumbnailStep)
        requires
            old(self).wf(),
            old(self).url_index < old(self).urls@.len(),
        ensures
            final(self).wf(),
            final(self).urls == old(self).urls,
            ({
                let url = old(self).urls@[old(self).url_index as int]@;
                match outcome {
                    FetchOutcome::Body(b) => r matches ThumbnailStep::Save(saved) && saved == b && *final(self)
                        == *old(self),
                    FetchOutcome::Permanent(reason) => r is NextUrl && final(self).url_index == old(self).url_index
                        + 1 && final(self).attempt == 1 && final(self).last_error is Some
                        && final(self).last_error->0@ == failure_note(reason@, url),
                    FetchOutcome::Retryable(reason) => final(self).last_error is Some
                        && final(self).last_error->0@ == failure_note(reason@, url) && if old(self).attempt < 3 {
                        r is RetryAfterPause && final(self).url_index == old(self).url_index && final(self).attempt
                            == old(self).attempt + 1
                    } else {
                        r is NextUrl && final(self).url_index == old(self).url_index + 1 && final(self).attempt == 1
                    },
                }
            }),
    {
        let n = self.urls.len();
        match outcome {
            FetchOutcome::Body(b) => ThumbnailStep::Save(b),
            FetchOutcome::Permanent(reason) => {
                self.last_error = Some(self.note(reason.as_str()));
                self.url_index = self.url_index + 1;
                self.attempt = 1;
                ThumbnailStep::NextUrl
            },
            FetchOutcome::Retryable(reason) => {
                self.last_error = Some(self.note(reason.as_str()));
                if self.attempt < 3 {
                    self.attempt = self.attempt + 1;
                    ThumbnailStep::RetryAfterPause
                } else {
                    self.url_index = self.url_index + 1;
                    self.attempt = 1;
                    ThumbnailStep::NextUrl
                }
            },
        }
    }

    /// The failure note for the current URL.
    fn note(&self, reason: &str) -> (r: String)
        requires
            self.url_index < self.urls@.len(),
        ensures
            r@ == failure_note(reason@, self.urls@[self.url_index as int]@),
    {
        let mut m: Vec<char> = Vec::new();
        push_str(&mut m, reason);
        push_str(&mut m, " (");
        let safe = redact_url_query(self.urls[self.url_index].as_str());
        push_str(&mut m, safe.as_str());
        push_str(&mut m, ")");
        string_of(&m)
    }

    /// The error when the fallback failed too: the last fetch failure (or
    /// "no candidate URLs") and the fallback's message.
    pub fn failure(&self, ytdlp_message: String) -> (r: YtcsError)
        ensures
            r matches YtcsError::ThumbnailFailed { http, ytdlp } && ytdlp == ytdlp_message && http@ == match self.last_error {
                Some(e) => e@,
                None => "no candidate URLs"@,
            },
    {
        let http = match &self.last_error {
            Some(e) => owned(e.as_str()),
            None => owned("no candidate URLs"),
        };
        YtcsError::ThumbnailFailed { http, ytdlp: ytdlp_message }
    }
}

/// The error text of a failed yt-dlp run: the message, and the suggestion
/// after a blank line when there is one.
pub open spec fn full_error_text(message: Seq<char>, suggestion: Option<Seq<char>>) -> Seq<char> {
    match suggestion {
        Some(s) => message + "\n\n"@ + s,
        None => message,
    }
}

/// The error text of a failed yt-dlp run: see [`full_error_text`].
pub fn full_error_message(message: String, suggestion: Option<String>) -> (r: String)
    ensures
        r@ == full_error_text(message@, crate::tui::app::opt_chars(suggestion)),
{
    match suggestion {
        Some(s) => {
            let mut m: Vec<char> = Vec::new();
            push_str(&mut m, message.as_str());
            push_str(&mut m, "\n\n");
            push_str(&mut m, s.as_str());
            string_of(&m)
        },
        None => message,
    }
}

/// The shell command that installs a tool on a host, or why there is none.
pub open spec fn install_command_spec(tool: Seq<char>, os: HostOs) -> Result<Seq<char>, Seq<char>> {
    if tool == "yt-dlp"@ {
        Ok("pip install yt-dlp"@)
    } else if tool == "ffmpeg"@ {
        match os {
            HostOs::Linux => Ok("sudo apt install -y ffmpeg"@),
            HostOs::MacOs => Ok("brew install ffmpeg"@),
            HostOs::Other => Err("Please install ffmpeg manually"@),
        }
    } else if tool == "deno"@ {
        match os {
            HostOs::Other => Err("Install deno manually: see https://deno.land/#installation"@),
            _ => Ok("curl -fsSL https://deno.land/install.sh | sh -s -- -y"@),
        }
    } else {
        Err("Unknown tool: "@ + tool)
    }
}

/// The shell command that installs `tool` (`yt-dlp`, `ffmpeg` or `deno`)
/// on the host: see [`install_command_spec`]; the refusals are errors.
pub fn install_command(tool: &str, os: HostOs) -> (r: Result<&'static str, YtcsError>)
    ensures
        match r {
            Ok(c) => install_command_spec(tool@, os) == Ok::<Seq<char>, Seq<char>>(c@),
            Err(e) => install_command_spec(tool@, os) is Err && (e matches YtcsError::Other(m) && Err::<Seq<char>, Seq<char>>(m@) == install_command_spec(tool@, os)),
        },
{
    if crate::text::str_eq(tool, "yt-dlp") {
        Ok("pip install yt-dlp")
    } else if crate::text::str_eq(tool, "ffmpeg") {
        match os {
            HostOs::Linux => Ok("sudo apt install -y ffmpeg"),
            HostOs::MacOs => Ok("brew install ffmpeg"),
            HostOs::Other => Err(YtcsError::Other(owned("Please install ffmpeg manually"))),
        }
    } else if crate::text::str_eq(tool, "deno") {
        match os {
            HostOs::Other => Err(YtcsError::Other(owned("Install deno manually: see https://deno.land/#installation"))),
            _ => Ok("curl -fsSL https://deno.land/install.sh | sh -s -- -y"),
        }
    } else {
        let mut m: Vec<char> = Vec::new();
        push_str(&mut m, "Unknown tool: ");
        push_str(&mut m, tool);
        Err(YtcsError::Other(string_of(&m)))
    }
}

/// The non-empty parts among the first `n`.
pub open spec fn nonempty_parts(parts: Seq<Seq<char>>, n: int) -> Seq<Seq<char>>
    decreases n,
{
    if n <= 0 {
        Seq::empty()
    } else if parts[n - 1].len() > 0 {
        nonempty_parts(parts, n - 1).push(parts[n - 1])
    } else {
        nonempty_parts(parts, n - 1)
    }
}

/// Parts joined with `, `.
pub open spec fn join_comma(parts: Seq<Seq<char>>) -> Seq<char>
    decreases parts.len(),
{
    if parts.len() == 0 {
        Seq::empty()
    } else if parts.len() == 1 {
        parts[0]
    } else {
        join_comma(parts.drop_last()) + ", "@ + parts.last()
    }
}

/// The genre of a video: its non-empty categories joined with `, `, or
/// `None` when there are none (or no category list).
pub open spec fn genre_spec(categories: Option<Seq<Seq<char>>>) -> Option<Seq<char>> {
    match categories {
        None => None,
        Some(ps) => {
            let q = nonempty_parts(ps, ps.len() as int);
            if q.len() == 0 {
                None
            } else {
                Some(join_comma(q))
            }
        },
    }
}

/// The thumbnail URL trimmed, or `None` when it is blank.
pub open spec fn thumbnail_spec(t: Option<Seq<char>>) -> Option<Seq<char>> {
    match t {
        Some(x) => if trim(x).len() > 0 {
            Some(trim(x))
        } else {
            None
        },
        None => None,
    }
}

/// The views of a list of strings.
pub open spec fn strings_view(v: Seq<String>) -> Seq<Seq<char>> {
    v.map_values(|s: String| s@)
}

/// The chapters of the video: those of its JSON when the list has entries
/// and reads without error, else none.
pub open spec fn video_chapters_spec(chapters: Option<Seq<ChapterEntry>>) -> Seq<(Seq<char>, u64, u64)> {
    match chapters {
        Some(es) => if es.len() > 0 {
            match entries_chapters(es, es.len() as int) {
                Ok(cs) => cs,
                Err(_) => Seq::empty(),
            }
        } else {
            Seq::empty()
        },
        None => Seq::empty(),
    }
}

/// The genre: see [`genre_spec`].
fn genre_of(categories: &Option<Vec<String>>) -> (r: Option<String>)
    ensures
        crate::tui::app::opt_chars(r) == genre_spec(match categories {
            Some(v) => Some(strings_view(v@)),
            None => None,
        }),
{
    match categories {
        None => None,
        Some(v) => {
            let ghost ps = strings_view(v@);
            let mut out: Vec<char> = Vec::new();
            let mut count: usize = 0;
            let mut i: usize = 0;
            while i < v.len()
                invariant
                    i <= v@.len(),
                    ps == strings_view(v@),
                    count <= i,
                    count == nonempty_parts(ps, i as int).len(),
                    out@ == join_comma(nonempty_parts(ps, i as int)),
                decreases v@.len() - i,
            {
                let c = chars_of(v[i].as_str());
                proof {
                    assert(ps[i as int] == v@[i as int]@);
                }
                if c.len() > 0 {
                    if count > 0 {
                        push_str(&mut out, ", ");
                    }
                    extend(&mut out, &c);
                    proof {
                        let q = nonempty_parts(ps, i + 1);
                        assert(q.drop_last() =~= nonempty_parts(ps, i as int));
                        if count == 0 {
                            assert(out@ =~= q[0]);
                        }
                    }
                    count = count + 1;
                }
                i = i + 1;
            }
            if count == 0 {
                None
            } else {
                Some(string_of(&out))
            }
        },
    }
}

impl VideoInfo {
    /// The information of a video from the fields of yt-dlp's JSON: the
    /// title (`Untitled Video` when absent), the duration, the ID (empty
    /// when absent), the description, upload date and page URL as given,
    /// the genre (see [`genre_spec`]) from the string categories, the
    /// thumbnail trimmed (see [`thumbnail_spec`]) and the chapters (see
    /// [`video_chapters_spec`]).
    pub fn from_metadata(
        title: Option<String>,
        duration_ms: u64,
        video_id: Option<String>,
        description: Option<String>,
        upload_date: Option<String>,
        categories: Option<Vec<String>>,
        webpage_url: Option<String>,
        thumbnail: Option<String>,
        chapters: Option<Vec<ChapterEntry>>,
    ) -> (r: Self)
        ensures
            r.title@ == (match title {
                Some(t) => t@,
                None => "Untitled Video"@,
            }),
            r.duration_ms == duration_ms,
            r.video_id@ == (match video_id {
                Some(t) => t@,
                None => Seq::<char>::empty(),
            }),
            r.description == description,
            r.upload_date == upload_date,
            r.webpage_url == webpage_url,
            crate::tui::app::opt_chars(r.genre) == genre_spec(match categories {
                Some(v) => Some(strings_view(v@)),
                None => None,
            }),
            crate::tui::app::opt_chars(r.thumbnail) == thumbnail_spec(crate::tui::app::opt_chars(thumbnail)),
            ({
                let cs = video_chapters_spec(match chapters {
                    Some(es) => Some(es@),
                    None => None,
                });
                r.chapters@.len() == cs.len() && forall|i: int| 0 <= i < cs.len() ==> chapter_is(#[trigger] r.chapters@[i], cs[i])
            }),
    {
        let genre = genre_of(&categories);
        let thumb = match &thumbnail {
            Some(t) => {
                let tv = chars_of(t.as_str());
                let tt = trim_chars(&tv);
                if tt.len() > 0 {
                    Some(string_of(&tt))
                } else {
                    None
                }
            },
            None => None,
        };
        let list = match chapters {
            Some(es) => if es.len() > 0 {
                let ghost esv = es@;
                match parse_chapters_from_json(Some(es)) {
                    Ok(v) => v,
                    Err(_) => Vec::new(),
                }
            } else {
                Vec::new()
            },
            None => Vec::new(),
        };
        VideoInfo {
            title: match title {
                Some(t) => t,
                None => owned("Untitled Video"),
            },
            duration_ms,
            chapters: list,
            video_id: match video_id {
                Some(t) => t,
                None => String::new(),
            },
            description,
            upload_date,
            genre,
            webpage_url,
            thumbnail: thumb,
        }
    }
}

/// The start of a thumbnail download for a video URL: the fetch of the
/// CDN images of its video ID (see [`thumbnail_urls_spec`], with no URL
/// from yt-dlp); a URL without a video ID is the error.
pub fn download_thumbnail(url: &str) -> (r: Result<ThumbnailFetch, YtcsError>)
    ensures
        match video_id_of(url@) {
            Some(id) => r matches Ok(f) && f.wf() && f.url_index == 0 && f.attempt == 1 && f.last_error is None
                && f.urls@.map_values(|s: String| s@) == thumbnail_urls_spec(None, id),
            None => r matches Err(YtcsError::InvalidUrl(m)) && m@ == no_video_id_message(url@),
        },
{
    let video_id = match extract_video_id(url) {
        Ok(id) => id,
        Err(e) => return Err(e),
    };
    let info = VideoInfo {
        title: String::new(),
        duration_ms: 0,
        chapters: Vec::new(),
        video_id,
        description: None,
        upload_date: None,
        genre: None,
        webpage_url: None,
        thumbnail: None,
    };
    proof {
        lemma_video_id_len(url@);
    }
    match thumbnail_candidate_urls(&info, url) {
        Ok(urls) => Ok(ThumbnailFetch::new(urls)),
        Err(e) => Err(e),
    }
}

/// A video ID has eleven characters.
proof fn lemma_video_id_len(s: Seq<char>)
    ensures
        video_id_of(s) matches Some(id) ==> id.len() == 11,
{
    if exists|i: int| video_id_at(s, i) {
        let i = choose|i: int| video_id_at(s, i) && forall|j: int| 0 <= j < i ==> !video_id_at(s, j);
        assert(video_id_at(s, i)) by {
            let w = choose|w: int| video_id_at(s, w);
            lemma_least_video_id(s, w);
        }
    }
}

/// Some position is the first with a video ID when one has it.
proof fn lemma_least_video_id(s: Seq<char>, w: int)
    requires
        video_id_at(s, w),
    ensures
        exists|i: int| video_id_at(s, i) && forall|j: int| 0 <= j < i ==> !video_id_at(s, j),
    decreases w,
{
    if exists|j: int| 0 <= j < w && video_id_at(s, j) {
        let j = choose|j: int| 0 <= j < w && video_id_at(s, j);
        lemma_least_video_id(s, j);
    } else {
        assert(video_id_at(s, w) && forall|j: int| 0 <= j < w ==> !video_id_at(s, j));
    }
}

} // verus!
