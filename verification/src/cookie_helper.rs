//! Which cookies yt-dlp is given: those of a browser when one is
//! configured, else the cookie file when it exists.
//!
//! Whether the cookie file exists is found out by the caller.

use vstd::prelude::*;
use crate::text::{concat2, owned, push_str, string_of};

verus! {

/// Whether cookies are available: a browser is configured, or the cookie
/// file exists.
pub fn cookies_available(cookies_from_browser: Option<&str>, cookie_file_exists: bool) -> (r: bool)
    ensures
        r == (cookies_from_browser is Some || cookie_file_exists),
{
    match cookies_from_browser {
        Some(_) => true,
        None => cookie_file_exists,
    }
}

/// The cookie arguments for yt-dlp and a note on what is used:
/// `--cookies-from-browser <browser>` when a browser is configured, else
/// `--cookies <file>` when the cookie file exists (`cookie_file` is its
/// path then), else nothing.
pub fn cookie_args(cookies_from_browser: Option<&str>, cookie_file: Option<&str>) -> (r: (Vec<String>, Option<String>))
    ensures
        match cookies_from_browser {
            Some(b) => r.0@.len() == 2 && r.0@[0]@ == "--cookies-from-browser"@ && r.0@[1]@ == b@
                && r.1 is Some && r.1->0@ == "Using cookies from "@ + b@ + " browser"@,
            None => match cookie_file {
                Some(f) => r.0@.len() == 2 && r.0@[0]@ == "--cookies"@ && r.0@[1]@ == f@ && r.1 is Some
                    && r.1->0@ == "Using cookies from file"@,
                None => r.0@.len() == 0 && r.1 is None,
            },
        },
{
    match cookies_from_browser {
        Some(b) => {
            let mut m: Vec<char> = Vec::new();
            push_str(&mut m, "Using cookies from ");
            push_str(&mut m, b);
            push_str(&mut m, " browser");
            (vec![owned("--cookies-from-browser"), owned(b)], Some(string_of(&m)))
        },
        None => match cookie_file {
            Some(f) => (vec![owned("--cookies"), owned(f)], Some(owned("Using cookies from file"))),
            None => (Vec::new(), None),
        },
    }
}

} // verus!
