//! Turns yt-dlp's error output into a message for the user and, when one
//! helps, a suggestion of what to do.

use vstd::prelude::*;
use crate::cookie_helper::cookies_available;
use crate::text::{
    chars_of, contains, contains_exec, extend, owned, replace_all, replace_all_exec, slice,
    str_to_lower, string_of, to_lower_chars, trim, trim_chars, utf8_len,
};
use crate::tui::components::input::{byte_pos, char_index, is_boundary, join_lines, lines_from};

verus! {

/// Whether the lower-cased error holds `p`.
pub open spec fn says(lower: Seq<char>, p: Seq<char>) -> bool {
    contains(lower, p)
}

/// The error's first three lines joined with spaces, without the prefixes
/// "ERROR:", "[youtube]" and "[download]", trimmed.
pub open spec fn cleaned_untruncated(raw: Seq<char>) -> Seq<char> {
    let lines = lines_from(raw, 0);
    let first = if lines.len() > 3 { lines.take(3) } else { lines };
    let joined = join_with_spaces(first);
    trim(replace_all(replace_all(replace_all(joined, "ERROR:"@, Seq::empty()), "[youtube]"@, Seq::empty()), "[download]"@, Seq::empty()))
}

/// Lines joined with single spaces.
pub open spec fn join_with_spaces(lines: Seq<Seq<char>>) -> Seq<char>
    decreases lines.len(),
{
    if lines.len() == 0 {
        Seq::empty()
    } else if lines.len() == 1 {
        lines[0]
    } else {
        join_with_spaces(lines.drop_last()) + seq![' '] + lines.last()
    }
}

/// The cleaned message: see [`cleaned_untruncated`]; past 200 bytes it is
/// cut to 197 bytes and "..." is added; when empty, a generic message.
pub open spec fn clean_error_message_spec(raw: Seq<char>) -> Seq<char> {
    let c = cleaned_untruncated(raw);
    if utf8_len(c) > 200 {
        c.take(char_index(c, 197)) + "..."@
    } else if c.len() == 0 {
        "yt-dlp failed with an unknown error"@
    } else {
        c
    }
}

/// Cutting a long message at 197 bytes falls between two characters.
pub open spec fn cut_is_clean(raw: Seq<char>) -> bool {
    utf8_len(cleaned_untruncated(raw)) > 200 ==> is_boundary(cleaned_untruncated(raw), 197)
}

/// See [`cleaned_untruncated`].
fn cleaned_untruncated_exec(raw_error: &str) -> (t: Vec<char>)
    ensures
        t@ == cleaned_untruncated(raw_error@),
{
    let v = chars_of(raw_error);
    let mut lines: Vec<Vec<char>> = Vec::new();
    let mut start: usize = 0;
    while start < v.len() && lines.len() < 3
        invariant
            start <= v@.len(),
            lines@.len() <= 3,
            lines@.map_values(|l: Vec<char>| l@) + lines_from(v@, start as int) == lines_from(v@, 0),
        decreases v@.len() - start,
    {
        let e = crate::playlist::char_or_end_pub(&v, '\n', start);
        let mut piece = slice(&v, start, e);
        if piece.len() > 0 && piece[piece.len() - 1] == '\r' {
            piece.pop();
        }
        let ghost before = lines@.map_values(|l: Vec<char>| l@);
        proof {
            crate::tui::components::input::lemma_char_or_end_bounds(v@, '\n', start as int);
            assert(piece@ == crate::tui::components::input::strip_cr(v@.subrange(start as int, e as int)));
        }
        lines.push(piece);
        proof {
            assert(lines@.map_values(|l: Vec<char>| l@) =~= before.push(lines@.last()@));
        }
        if e >= v.len() {
            proof {
                assert(lines_from(v@, e as int) =~= Seq::<Seq<char>>::empty());
                assert(lines@.map_values(|l: Vec<char>| l@) + lines_from(v@, e as int) =~= before
                    + lines_from(v@, start as int));
            }
            start = e;
        } else {
            proof {
                assert(lines@.map_values(|l: Vec<char>| l@) + lines_from(v@, e + 1) =~= before
                    + lines_from(v@, start as int));
            }
            start = e + 1;
        }
    }
    let ghost all = lines_from(v@, 0);
    let ghost got = lines@.map_values(|l: Vec<char>| l@);
    proof {
        if lines@.len() < 3 {
            assert(lines_from(v@, start as int) =~= Seq::<Seq<char>>::empty());
            assert(got =~= all);
        } else {
            assert(all.take(3) =~= got);
        }
    }
    let mut joined: Vec<char> = Vec::new();
    let mut i: usize = 0;
    while i < lines.len()
        invariant
            i <= lines@.len(),
            got == lines@.map_values(|l: Vec<char>| l@),
            joined@ == join_with_spaces(got.take(i as int)),
        decreases lines@.len() - i,
    {
        if i > 0 {
            joined.push(' ');
        }
        extend(&mut joined, &lines[i]);
        proof {
            assert(got.take(i + 1).drop_last() =~= got.take(i as int));
            if i == 0 {
                assert(joined@ =~= got.take(1)[0]);
            } else {
                assert(joined@ =~= join_with_spaces(got.take(i as int)) + seq![' '] + got.take(i + 1).last());
            }
        }
        i = i + 1;
    }
    assert(got.take(got.len() as int) =~= got);
    let empty: Vec<char> = Vec::new();
    let p1 = chars_of("ERROR:");
    let p2 = chars_of("[youtube]");
    let p3 = chars_of("[download]");
    proof {
        reveal_strlit("ERROR:");
        reveal_strlit("[youtube]");
        reveal_strlit("[download]");
    }
    let a = replace_all_exec(&joined, &p1, &empty);
    let b = replace_all_exec(&a, &p2, &empty);
    let c = replace_all_exec(&b, &p3, &empty);
    trim_chars(&c)
}

/// Cleans up a raw yt-dlp error: see [`clean_error_message_spec`]. The cut
/// of a long message must fall between two characters.
pub fn clean_error_message(raw_error: &str) -> (r: String)
    requires
        cut_is_clean(raw_error@),
    ensures
        r@ == clean_error_message_spec(raw_error@),
{
    let t = cleaned_untruncated_exec(raw_error);
    let ts = string_of(&t);
    let len = crate::text::byte_len(ts.as_str());
    if len > 200 {
        let k = crate::tui::components::input::locate_boundary(&t, 197);
        let mut out = slice(&t, 0, k);
        crate::text::push_str(&mut out, "...");
        string_of(&out)
    } else if t.len() == 0 {
        owned("yt-dlp failed with an unknown error")
    } else {
        ts
    }
}

/// yt-dlp found no JavaScript runtime to solve YouTube's `n` challenge.
pub open spec fn is_js_runtime_error(l: Seq<char>) -> bool {
    says(l, "n challenge"@) || says(l, "javascript runtime"@) || (says(l, "requested format is not available"@)
        && says(l, "only images are available"@))
}

/// YouTube detected a bot or is rate-limiting.
pub open spec fn is_rate_limited(l: Seq<char>) -> bool {
    says(l, "not a bot"@) || says(l, "confirm you're not"@) || says(l, "http error 429"@) || says(
        l,
        "too many requests"@,
    )
}

/// The video is for members or private.
pub open spec fn needs_authentication(l: Seq<char>) -> bool {
    says(l, "members-only"@) || says(l, "this video is only available"@) || says(l, "join this channel"@)
        || says(l, "private video"@) || says(l, "sign in to confirm"@)
}

/// The video is age-restricted.
pub open spec fn is_age_restricted(l: Seq<char>) -> bool {
    says(l, "age-restricted"@) || says(l, "age restricted"@)
}

/// The video is blocked in the user's country.
pub open spec fn is_geo_restricted(l: Seq<char>) -> bool {
    says(l, "not available in your country"@) || says(l, "geo-restricted"@) || says(l, "blocked in your country"@)
}

/// The video was deleted or made private.
pub open spec fn is_unavailable(l: Seq<char>) -> bool {
    says(l, "video unavailable"@) || says(l, "has been removed"@) || says(l, "this video is no longer available"@)
}

/// The download failed on the network.
pub open spec fn is_network_error(l: Seq<char>) -> bool {
    says(l, "unable to download"@) || says(l, "http error"@) || says(l, "connection"@) || says(l, "timeout"@)
}

/// The URL was refused.
pub open spec fn is_invalid_url(l: Seq<char>) -> bool {
    says(l, "invalid url"@) || says(l, "unsupported url"@)
}

/// No known kind of error matches: the message is the cleaned raw error.
pub open spec fn falls_through(l: Seq<char>) -> bool {
    !is_js_runtime_error(l) && !is_rate_limited(l) && !needs_authentication(l) && !is_age_restricted(l)
        && !is_geo_restricted(l) && !is_unavailable(l) && !is_network_error(l) && !is_invalid_url(l)
}

/// The message and suggestion for a raw error whose lower-cased text is
/// `l`; the kinds are tried in order and the first that matches answers.
/// `cookies` says whether cookies are available.
pub open spec fn error_reply_spec(raw: Seq<char>, l: Seq<char>, cookies: bool) -> (Seq<char>, Option<Seq<char>>) {
    if is_js_runtime_error(l) {
        ("yt-dlp cannot resolve audio formats: no JavaScript runtime found."@, Some(
            "YouTube now requires a JS runtime to solve its `n` challenge.\n  \
             Install deno (recommended):\n    \
             curl -fsSL https://deno.land/install.sh | sh\n  \
             Then add to PATH:\n    \
             echo 'export PATH=\"$HOME/.deno/bin:$PATH\"' >> ~/.bashrc && source ~/.bashrc"@,
        ))
    } else if is_rate_limited(l) {
        ("YouTube is rate-limiting this IP and asks for a signed-in session to continue."@, Some(
            if cookies {
                "Your configured cookies were rejected or are stale. Try:\n  1. Log in to YouTube in your browser, then retry\n  2. Re-export cookies to ~/.config/ytcs/cookies.txt\n  3. Wait a few minutes — the rate limit clears on its own"@
            } else {
                "Configure cookies so yt-dlp can authenticate:\n  • ytcs config → 'Cookies from browser' (chrome, firefox, brave, …)\n  • For LibreWolf / custom profile: use 'firefox:/path/to/profile'\n  • Or export a cookies.txt to ~/.config/ytcs/cookies.txt"@
            },
        ))
    } else if needs_authentication(l) {
        ("This video requires authentication (member-only or private content)"@, Some(
            if cookies {
                "Your cookies may have expired. Try:\n  1. Export fresh cookies from your browser\n  2. Update ~/.config/ytcs/cookies.txt\n  3. Or run: ytcs config (set Cookies from browser)"@
            } else {
                "You need to authenticate. Choose one option:\n  1. Export cookies: see COOKIES_SETUP.md\n  2. Or run: ytcs config (set Cookies from browser)"@
            },
        ))
    } else if is_age_restricted(l) {
        ("This video is age-restricted"@, Some(
            if cookies {
                "Your cookies may not have the required age verification. Try logging in to YouTube in your browser and exporting fresh cookies."@
            } else {
                "You need to authenticate with an age-verified account:\n  1. Log in to YouTube in your browser\n  2. Export cookies (see COOKIES_SETUP.md)\n  3. Or run: ytcs config (set Cookies from browser)"@
            },
        ))
    } else if is_geo_restricted(l) {
        ("This video is not available in your country (geo-restricted)"@, Some(
            "You may need to use a VPN or proxy to access this content."@,
        ))
    } else if is_unavailable(l) {
        ("This video is no longer available (deleted or made private)"@, None)
    } else if is_network_error(l) {
        ("Network error while downloading"@, Some("Check your internet connection and try again."@))
    } else if is_invalid_url(l) {
        ("Invalid or unsupported YouTube URL"@, Some("Make sure you're using a valid YouTube video URL."@))
    } else {
        (clean_error_message_spec(raw), None)
    }
}

/// Whether the lower-cased error `lower` holds `p`.
fn says_exec(lower: &Vec<char>, p: &str) -> (r: bool)
    ensures
        r == says(lower@, p@),
{
    let pv = chars_of(p);
    contains_exec(lower, &pv)
}

/// The message and suggestion for a raw error, given its lower-cased text
/// and whether cookies are available: see [`error_reply_spec`].
pub fn error_reply(raw_error: &str, error_lower: &str, cookies: bool) -> (r: (String, Option<String>))
    requires
        falls_through(error_lower@) ==> cut_is_clean(raw_error@),
    ensures
        r.0@ == error_reply_spec(raw_error@, error_lower@, cookies).0,
        r.1 is Some == error_reply_spec(raw_error@, error_lower@, cookies).1 is Some,
        r.1 is Some ==> r.1->0@ == error_reply_spec(raw_error@, error_lower@, cookies).1->0,
{
    let l = chars_of(error_lower);
    let js = says_exec(&l, "n challenge") || says_exec(&l, "javascript runtime") || (says_exec(
        &l,
        "requested format is not available",
    ) && says_exec(&l, "only images are available"));
    if js {
        return (
            owned("yt-dlp cannot resolve audio formats: no JavaScript runtime found."),
            Some(
                owned(
                    "YouTube now requires a JS runtime to solve its `n` challenge.\n  \
                 Install deno (recommended):\n    \
                 curl -fsSL https://deno.land/install.sh | sh\n  \
                 Then add to PATH:\n    \
                 echo 'export PATH=\"$HOME/.deno/bin:$PATH\"' >> ~/.bashrc && source ~/.bashrc",
                ),
            ),
        );
    }
    if says_exec(&l, "not a bot") || says_exec(&l, "confirm you're not") || says_exec(&l, "http error 429")
        || says_exec(&l, "too many requests") {
        let message = owned("YouTube is rate-limiting this IP and asks for a signed-in session to continue.");
        let suggestion = if cookies {
            owned("Your configured cookies were rejected or are stale. Try:\n  1. Log in to YouTube in your browser, then retry\n  2. Re-export cookies to ~/.config/ytcs/cookies.txt\n  3. Wait a few minutes — the rate limit clears on its own")
        } else {
            owned("Configure cookies so yt-dlp can authenticate:\n  • ytcs config → 'Cookies from browser' (chrome, firefox, brave, …)\n  • For LibreWolf / custom profile: use 'firefox:/path/to/profile'\n  • Or export a cookies.txt to ~/.config/ytcs/cookies.txt")
        };
        return (message, Some(suggestion));
    }
    if says_exec(&l, "members-only") || says_exec(&l, "this video is only available") || says_exec(
        &l,
        "join this channel",
    ) || says_exec(&l, "private video") || says_exec(&l, "sign in to confirm") {
        let message = owned("This video requires authentication (member-only or private content)");
        let suggestion = if cookies {
            owned("Your cookies may have expired. Try:\n  1. Export fresh cookies from your browser\n  2. Update ~/.config/ytcs/cookies.txt\n  3. Or run: ytcs config (set Cookies from browser)")
        } else {
            owned("You need to authenticate. Choose one option:\n  1. Export cookies: see COOKIES_SETUP.md\n  2. Or run: ytcs config (set Cookies from browser)")
        };
        return (message, Some(suggestion));
    }
    if says_exec(&l, "age-restricted") || says_exec(&l, "age restricted") {
        let message = owned("This video is age-restricted");
        let suggestion = if cookies {
            owned("Your cookies may not have the required age verification. Try logging in to YouTube in your browser and exporting fresh cookies.")
        } else {
            owned("You need to authenticate with an age-verified account:\n  1. Log in to YouTube in your browser\n  2. Export cookies (see COOKIES_SETUP.md)\n  3. Or run: ytcs config (set Cookies from browser)")
        };
        return (message, Some(suggestion));
    }
    if says_exec(&l, "not available in your country") || says_exec(&l, "geo-restricted") || says_exec(
        &l,
        "blocked in your country",
    ) {
        return (
            owned("This video is not available in your country (geo-restricted)"),
            Some(owned("You may need to use a VPN or proxy to access this content.")),
        );
    }
    if says_exec(&l, "video unavailable") || says_exec(&l, "has been removed") || says_exec(
        &l,
        "this video is no longer available",
    ) {
        return (owned("This video is no longer available (deleted or made private)"), None);
    }
    if says_exec(&l, "unable to download") || says_exec(&l, "http error") || says_exec(&l, "connection")
        || says_exec(&l, "timeout") {
        return (
            owned("Network error while downloading"),
            Some(owned("Check your internet connection and try again.")),
        );
    }
    if says_exec(&l, "invalid url") || says_exec(&l, "unsupported url") {
        return (
            owned("Invalid or unsupported YouTube URL"),
            Some(owned("Make sure you're using a valid YouTube video URL.")),
        );
    }
    (clean_error_message(raw_error), None)
}

/// Turns a raw yt-dlp error into a message for the user and an optional
/// suggestion: see [`error_reply_spec`], applied to the lower-cased error.
/// Cookies are available when a browser is configured or the cookie file
/// exists. A long unrecognised error must be cut between two characters.
pub fn parse_ytdlp_error(raw_error: &str, cookies_from_browser: Option<&str>, cookie_file_exists: bool) -> (r: (
    String,
    Option<String>,
))
    requires
        falls_through(str_to_lower(raw_error@)) ==> cut_is_clean(raw_error@),
    ensures
        ({
            let e = error_reply_spec(
                raw_error@,
                str_to_lower(raw_error@),
                cookies_from_browser is Some || cookie_file_exists,
            );
            &&& r.0@ == e.0
            &&& r.1 is Some == e.1 is Some
            &&& r.1 is Some ==> r.1->0@ == e.1->0
        }),
{
    let lower = crate::text::lower_string(raw_error);
    let cookies = cookies_available(cookies_from_browser, cookie_file_exists);
    error_reply(raw_error, lower.as_str(), cookies)
}

/// Whether no known kind of error matches the lower-cased error `l`.
fn falls_through_exec(l: &Vec<char>) -> (r: bool)
    ensures
        r == falls_through(l@),
{
    let js = says_exec(l, "n challenge") || says_exec(l, "javascript runtime") || (says_exec(
        l,
        "requested format is not available",
    ) && says_exec(l, "only images are available"));
    let bot = says_exec(l, "not a bot") || says_exec(l, "confirm you're not") || says_exec(l, "http error 429")
        || says_exec(l, "too many requests");
    let auth = says_exec(l, "members-only") || says_exec(l, "this video is only available") || says_exec(
        l,
        "join this channel",
    ) || says_exec(l, "private video") || says_exec(l, "sign in to confirm");
    let age = says_exec(l, "age-restricted") || says_exec(l, "age restricted");
    let geo = says_exec(l, "not available in your country") || says_exec(l, "geo-restricted") || says_exec(
        l,
        "blocked in your country",
    );
    let gone = says_exec(l, "video unavailable") || says_exec(l, "has been removed") || says_exec(
        l,
        "this video is no longer available",
    );
    let net = says_exec(l, "unable to download") || says_exec(l, "http error") || says_exec(l, "connection")
        || says_exec(l, "timeout");
    let url = says_exec(l, "invalid url") || says_exec(l, "unsupported url");
    !js && !bot && !auth && !age && !geo && !gone && !net && !url
}

/// Whether the message of an unrecognised error would be cut between two
/// characters (or not cut at all).
pub fn cut_is_clean_exec(raw_error: &str) -> (r: bool)
    ensures
        r == cut_is_clean(raw_error@),
{
    let c = cleaned_untruncated_exec(raw_error);
    let s = string_of(&c);
    if crate::text::byte_len(s.as_str()) > 200 {
        crate::tui::components::input::boundary_position(&c, 197).is_some()
    } else {
        true
    }
}

/// [`parse_ytdlp_error`] where it is defined; `None` for an unrecognised
/// error whose long message would have to be cut inside a character.
pub fn parse_ytdlp_error_checked(raw_error: &str, cookies_from_browser: Option<&str>, cookie_file_exists: bool) -> (r: Option<(
    String,
    Option<String>,
)>)
    ensures
        match r {
            None => falls_through(str_to_lower(raw_error@)) && !cut_is_clean(raw_error@),
            Some(v) => {
                let e = error_reply_spec(
                    raw_error@,
                    str_to_lower(raw_error@),
                    cookies_from_browser is Some || cookie_file_exists,
                );
                &&& !(falls_through(str_to_lower(raw_error@)) && !cut_is_clean(raw_error@))
                &&& v.0@ == e.0
                &&& v.1 is Some == e.1 is Some
                &&& v.1 is Some ==> v.1->0@ == e.1->0
            },
        },
{
    let lower = crate::text::lower_string(raw_error);
    let l = chars_of(lower.as_str());
    let known = !falls_through_exec(&l);
    if known || cut_is_clean_exec(raw_error) {
        Some(parse_ytdlp_error(raw_error, cookies_from_browser, cookie_file_exists))
    } else {
        None
    }
}

} // verus!
