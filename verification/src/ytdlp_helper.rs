//! yt-dlp's version: the release date in its version string, its age, and
//! what to tell the user about an outdated yt-dlp.
//!
//! Running yt-dlp and reading today's date are left to the front end.

use vstd::prelude::*;
use crate::text::{
    chars_of, contains, contains_exec, dec, digits_value, is_digit, regex_digit, regex_digit_exec, owned, push_dec, push_str, str_to_lower,
    string_of, to_lower_chars, trim, trim_chars,
};

verus! {

/// Whether `year` is a leap year of the Gregorian calendar.
pub open spec fn is_leap_year(year: int) -> bool {
    year % 4 == 0 && (year % 100 != 0 || year % 400 == 0)
}

/// The number of days of a month (1 to 12).
pub open spec fn days_in_month(year: int, month: int) -> int {
    if month == 2 {
        if is_leap_year(year) { 29 } else { 28 }
    } else if month == 4 || month == 6 || month == 9 || month == 11 {
        30
    } else {
        31
    }
}

/// A date of the calendar: a month from 1 to 12 and a day of it.
pub open spec fn valid_date(year: i32, month: u8, day: u8) -> bool {
    1 <= month <= 12 && 1 <= day <= days_in_month(year as int, month as int)
}

/// The number of days of the months before `month` in `year`.
pub open spec fn days_before_month(year: int, month: int) -> int
    decreases month,
{
    if month <= 1 {
        0
    } else {
        days_before_month(year, month - 1) + days_in_month(year, month - 1)
    }
}

/// The Julian day of a date, as `time::Date::to_julian_day` computes it:
/// the year shifted by 999 999 to make it non-negative, its days before
/// (`1461 * year / 4`, less the centuries, plus the centuries divisible by
/// four), plus the day of the year, less 363 521 075.
pub open spec fn julian_day(year: i32, month: u8, day: u8) -> i32 {
    let adj_year = year + 999_999;
    let century = adj_year / 100;
    let ordinal = days_before_month(year as int, month as int) + day;
    ((1461 * adj_year) / 4 - century + century / 4 + ordinal - 363_521_075) as i32
}

/// Calls `time::Date::from_calendar_date` (the month converted with
/// `time::Month::try_from`) and gives the date's Julian day. The contract
/// says when a date exists, as the crate's source shows for years of four
/// digits, and gives the Julian day by the formula of
/// `Date::to_julian_day` (see [`julian_day`]).
#[verifier::external_body]
fn julian_day_of(year: i32, month: u8, day: u8) -> (r: Option<i32>)
    requires
        0 <= year <= 9999,
    ensures
        r is Some <==> valid_date(year, month, day),
        r matches Some(j) ==> j == julian_day(year, month, day),
{
    let m = time::Month::try_from(month).ok()?;
    time::Date::from_calendar_date(year, m, day).ok().map(|d| d.to_julian_day())
}

/// A `YYYY.MM.DD` date at `i`, as `(\d{4})\.(\d{2})\.(\d{2})` matches
/// it: four digits (see [`regex_digit`]), a point, two digits, a point,
/// two digits.
pub open spec fn date_at(s: Seq<char>, i: int) -> bool {
    &&& 0 <= i && i + 10 <= s.len()
    &&& forall|k: int| i <= k < i + 4 ==> regex_digit(#[trigger] s[k])
    &&& s[i + 4] == '.'
    &&& regex_digit(s[i + 5]) && regex_digit(s[i + 6])
    &&& s[i + 7] == '.'
    &&& regex_digit(s[i + 8]) && regex_digit(s[i + 9])
}

/// The digits of the date at `i` are all ASCII, as parsing them into
/// integers asks.
pub open spec fn ascii_date_at(s: Seq<char>, i: int) -> bool {
    &&& forall|k: int| i <= k < i + 4 ==> is_digit(#[trigger] s[k])
    &&& is_digit(s[i + 5]) && is_digit(s[i + 6])
    &&& is_digit(s[i + 8]) && is_digit(s[i + 9])
}

/// The first `YYYY.MM.DD` date in `s` (year, month, day), if there is one
/// and its digits are ASCII; `None` when there is none, or when the first
/// one has other digits (which do not parse as integers).
#[verifier::opaque]
pub open spec fn release_date_spec(s: Seq<char>) -> Option<(int, int, int)> {
    if exists|i: int| date_at(s, i) {
        let i = choose|i: int| date_at(s, i) && forall|j: int| 0 <= j < i ==> !date_at(s, j);
        if ascii_date_at(s, i) {
            Some(
                (
                    digits_value(s.subrange(i, i + 4)) as int,
                    digits_value(s.subrange(i + 5, i + 7)) as int,
                    digits_value(s.subrange(i + 8, i + 10)) as int,
                ),
            )
        } else {
            None
        }
    } else {
        None
    }
}

/// The first date found gives the release date.
proof fn lemma_first_date(s: Seq<char>, i: int)
    requires
        date_at(s, i),
        forall|j: int| 0 <= j < i ==> !date_at(s, j),
    ensures
        release_date_spec(s) == if ascii_date_at(s, i) {
            Some(
                (
                    digits_value(s.subrange(i, i + 4)) as int,
                    digits_value(s.subrange(i + 5, i + 7)) as int,
                    digits_value(s.subrange(i + 8, i + 10)) as int,
                ),
            )
        } else {
            None
        },
{
    reveal(release_date_spec);
    let c = choose|c: int| date_at(s, c) && forall|j: int| 0 <= j < c ==> !date_at(s, j);
    assert(date_at(s, c) && forall|j: int| 0 <= j < c ==> !date_at(s, j));
    if c < i {
        assert(c >= 0);
    } else if c > i {
        assert(i >= 0);
    }
}

/// The value of the digits of `v` from `a` to `b`.
fn digits_at(v: &Vec<char>, a: usize, b: usize) -> (r: u32)
    requires
        a <= b <= v@.len(),
        b - a <= 4,
        forall|k: int| a <= k < b ==> is_digit(#[trigger] v@[k]),
    ensures
        r == digits_value(v@.subrange(a as int, b as int)),
        r < 10000,
        b - a <= 2 ==> r < 100,
{
    let mut acc: u32 = 0;
    let mut k = a;
    while k < b
        invariant
            a <= k <= b,
            b <= v@.len(),
            b - a <= 4,
            forall|j: int| a <= j < b ==> is_digit(#[trigger] v@[j]),
            acc == digits_value(v@.subrange(a as int, k as int)),
            k - a == 0 ==> acc == 0,
            k - a <= 1 ==> acc < 10,
            k - a <= 2 ==> acc < 100,
            k - a <= 3 ==> acc < 1000,
            acc < 10000,
        decreases b - k,
    {
        proof {
            assert(v@.subrange(a as int, k + 1).drop_last() =~= v@.subrange(a as int, k as int));
        }
        acc = acc * 10 + (v[k] as u32 - '0' as u32);
        k = k + 1;
    }
    acc
}

/// Whether a date starts at `i`.
fn date_at_exec(v: &Vec<char>, i: usize) -> (r: bool)
    ensures
        r == date_at(v@, i as int),
{
    if i > v.len() || v.len() - i < 10 {
        return false;
    }
    let end = i + 4;
    let mut k = i;
    while k < end
        invariant
            end == i + 4,
            i <= k <= i + 4,
            i + 10 <= v@.len(),
            forall|j: int| i <= j < k ==> regex_digit(#[trigger] v@[j]),
        decreases i + 4 - k,
    {
        if !regex_digit_exec(v[k]) {
            return false;
        }
        k = k + 1;
    }
    v[i + 4] == '.' && regex_digit_exec(v[i + 5]) && regex_digit_exec(v[i + 6]) && v[i + 7] == '.'
        && regex_digit_exec(v[i + 8]) && regex_digit_exec(v[i + 9])
}

/// Whether `c` is an ASCII digit.
fn ascii_digit(c: char) -> (r: bool)
    ensures
        r == is_digit(c),
{
    '0' <= c && c <= '9'
}

/// Whether the digits of the date at `i` are all ASCII.
fn ascii_date_at_exec(v: &Vec<char>, i: usize) -> (r: bool)
    requires
        i + 10 <= v@.len(),
    ensures
        r == ascii_date_at(v@, i as int),
{
    let n = v.len();
    assert(i + 10 <= n);
    let end = i + 4;
    let mut k = i;
    while k < end
        invariant
            end == i + 4,
            i <= k <= i + 4,
            i + 10 <= v@.len(),
            forall|j: int| i <= j < k ==> is_digit(#[trigger] v@[j]),
        decreases i + 4 - k,
    {
        if !ascii_digit(v[k]) {
            return false;
        }
        k = k + 1;
    }
    ascii_digit(v[i + 5]) && ascii_digit(v[i + 6]) && ascii_digit(v[i + 8]) && ascii_digit(v[i + 9])
}

/// The release date in a version string: see [`release_date_spec`].
pub fn release_date(version: &str) -> (r: Option<(u32, u32, u32)>)
    ensures
        match r {
            Some((y, m, d)) => release_date_spec(version@) == Some((y as int, m as int, d as int)) && y < 10000
                && m < 100 && d < 100,
            None => release_date_spec(version@) is None,
        },
{
    let v = chars_of(version);
    let mut i: usize = 0;
    while i < v.len()
        invariant
            i <= v@.len(),
            v@ == version@,
            forall|j: int| 0 <= j < i ==> !date_at(v@, j),
        decreases v@.len() - i,
    {
        if date_at_exec(&v, i) {
            proof {
                lemma_first_date(v@, i as int);
            }
            if !ascii_date_at_exec(&v, i) {
                return None;
            }
            let y = digits_at(&v, i, i + 4);
            let m = digits_at(&v, i + 5, i + 7);
            let d = digits_at(&v, i + 8, i + 10);
            assert(y < 10000);
            return Some((y, m, d));
        }
        i = i + 1;
    }
    proof {
        assert forall|j: int| !date_at(v@, j) by {
            if j >= v@.len() {
            }
        }
        reveal(release_date_spec);
    }
    None
}

/// What is known of the installed yt-dlp.
pub struct YtdlpVersionInfo {
    /// The version string (such as `2025.10.22`).
    pub version: String,
    /// Whether it is more than 90 days old.
    pub is_outdated: bool,
    /// Its age in days.
    pub days_since_release: Option<i64>,
}

/// The version information of a version string given today's Julian day:
/// its release date read from it, its age from that date, outdated beyond
/// 90 days; `None` when it holds no valid date.
pub fn version_info(version: String, today_julian_day: i32) -> (r: Option<YtdlpVersionInfo>)
    ensures
        match release_date_spec(version@) {
            Some((y, m, d)) => if m <= 255 && d <= 255 && valid_date(y as i32, m as u8, d as u8) {
                r matches Some(info) && info.version@ == version@ && info.days_since_release == Some(
                    (today_julian_day - julian_day(y as i32, m as u8, d as u8)) as i64,
                ) && info.is_outdated == (today_julian_day - julian_day(y as i32, m as u8, d as u8) > 90)
            } else {
                r is None
            },
            None => r is None,
        },
{
    let (y, m, d) = match release_date(version.as_str()) {
        Some(t) => t,
        None => return None,
    };
    if m > 255 || d > 255 {
        return None;
    }
    let j = match julian_day_of(y as i32, m as u8, d as u8) {
        Some(j) => j,
        None => return None,
    };
    let days: i64 = today_julian_day as i64 - j as i64;
    Some(YtdlpVersionInfo { version, is_outdated: days > 90, days_since_release: Some(days) })
}

/// What a failed download's error output says about yt-dlp's age.
#[derive(Debug, Clone, Copy, PartialEq, Eq, Structural)]
pub enum OutdatedSignal {
    /// yt-dlp reported itself as older than 90 days.
    Outdated,
    /// A refused request (HTTP 403): outdated if the installed version is.
    AskVersion,
    /// Nothing points at an old yt-dlp.
    NotOutdated,
}

/// What the lower-cased error output `lower` says about yt-dlp's age.
pub open spec fn outdated_signal_spec(lower: Seq<char>) -> OutdatedSignal {
    if contains(lower, "older than 90 days"@) {
        OutdatedSignal::Outdated
    } else if contains(lower, "http error 403"@) || contains(lower, "forbidden"@) {
        OutdatedSignal::AskVersion
    } else {
        OutdatedSignal::NotOutdated
    }
}

/// What a failed download's error output says about yt-dlp's age: see
/// [`outdated_signal_spec`], on the lower-cased output.
pub fn outdated_signal(stderr: &str) -> (r: OutdatedSignal)
    ensures
        r == outdated_signal_spec(str_to_lower(stderr@)),
{
    let v = chars_of(stderr);
    let l = to_lower_chars(&v);
    let a = chars_of("older than 90 days");
    let b = chars_of("http error 403");
    let c = chars_of("forbidden");
    if contains_exec(&l, &a) {
        OutdatedSignal::Outdated
    } else if contains_exec(&l, &b) || contains_exec(&l, &c) {
        OutdatedSignal::AskVersion
    } else {
        OutdatedSignal::NotOutdated
    }
}

/// Whether a download error is likely due to an outdated yt-dlp: the
/// output says so, or it reports a refused request and the installed
/// version (when known) is outdated.
pub fn is_outdated_error(stderr: &str, installed: Option<&YtdlpVersionInfo>) -> (r: bool)
    ensures
        r == match outdated_signal_spec(str_to_lower(stderr@)) {
            OutdatedSignal::Outdated => true,
            OutdatedSignal::AskVersion => installed matches Some(i) && i.is_outdated,
            OutdatedSignal::NotOutdated => false,
        },
{
    match outdated_signal(stderr) {
        OutdatedSignal::Outdated => true,
        OutdatedSignal::AskVersion => match installed {
            Some(i) => i.is_outdated,
            None => false,
        },
        OutdatedSignal::NotOutdated => false,
    }
}

/// The age shown for a version: its days, or 0 when unknown.
pub open spec fn age_text(days: Option<i64>) -> Seq<char> {
    match days {
        Some(d) => if d < 0 { "-"@ + dec((-d) as nat) } else { dec(d as nat) },
        None => "0"@,
    }
}

/// Appends [`age_text`].
fn push_age(out: &mut Vec<char>, days: Option<i64>)
    ensures
        final(out)@ == old(out)@ + age_text(days),
{
    proof {
        reveal_strlit("-");
        reveal_strlit("0");
    }
    match days {
        Some(d) => {
            if d < 0 {
                out.push('-');
                push_dec(out, (0i128 - d as i128) as u64);
            } else {
                push_dec(out, d as u64);
            }
        },
        None => out.push('0'),
    }
    assert(final(out)@ =~= old(out)@ + age_text(days)) by {
    }
}

/// The warning for an outdated yt-dlp, if it is.
pub open spec fn update_warning_spec(version: Seq<char>, outdated: bool, days: Option<i64>) -> Option<Seq<char>> {
    if outdated {
        Some(
            "Your yt-dlp version ("@ + version + " / "@ + age_text(days)
                + " days old) is outdated. Consider updating: pip install --upgrade yt-dlp"@,
        )
    } else {
        None
    }
}

/// The warning for an outdated yt-dlp (see [`update_warning_spec`]); none
/// when its version is unknown.
pub fn check_ytdlp_update_needed(installed: Option<&YtdlpVersionInfo>) -> (r: Option<String>)
    ensures
        match installed {
            Some(i) => match update_warning_spec(i.version@, i.is_outdated, i.days_since_release) {
                Some(w) => r matches Some(x) && x@ == w,
                None => r is None,
            },
            None => r is None,
        },
{
    match installed {
        Some(i) => if i.is_outdated {
            let mut out: Vec<char> = Vec::new();
            push_str(&mut out, "Your yt-dlp version (");
            push_str(&mut out, i.version.as_str());
            push_str(&mut out, " / ");
            push_age(&mut out, i.days_since_release);
            push_str(&mut out, " days old) is outdated. Consider updating: pip install --upgrade yt-dlp");
            Some(string_of(&out))
        } else {
            None
        },
        None => None,
    }
}

/// The question asked before updating yt-dlp.
pub open spec fn update_question_spec(installed: Option<(Seq<char>, bool, Option<i64>)>) -> Seq<char> {
    match installed {
        Some((version, outdated, days)) => if outdated {
            "Your yt-dlp version ("@ + version + " / "@ + age_text(days)
                + " days old) may be outdated. Update to the latest version?"@
        } else {
            "Update yt-dlp to the latest version?"@
        },
        None => "yt-dlp may need to be updated. Install the latest version?"@,
    }
}

/// The question asked before updating yt-dlp: see
/// [`update_question_spec`].
pub fn update_question(installed: Option<&YtdlpVersionInfo>) -> (r: String)
    ensures
        r@ == update_question_spec(match installed {
            Some(i) => Some((i.version@, i.is_outdated, i.days_since_release)),
            None => None,
        }),
{
    match installed {
        Some(i) => if i.is_outdated {
            let mut out: Vec<char> = Vec::new();
            push_str(&mut out, "Your yt-dlp version (");
            push_str(&mut out, i.version.as_str());
            push_str(&mut out, " / ");
            push_age(&mut out, i.days_since_release);
            push_str(&mut out, " days old) may be outdated. Update to the latest version?");
            string_of(&out)
        } else {
            owned("Update yt-dlp to the latest version?")
        },
        None => owned("yt-dlp may need to be updated. Install the latest version?"),
    }
}

/// Whether the answer to the update question declines it: `n` or `no`
/// once trimmed and lower-cased.
pub fn declines_update(answer: &str) -> (r: bool)
    ensures
        r == (str_to_lower(trim(answer@)) == "n"@ || str_to_lower(trim(answer@)) == "no"@),
{
    let v = chars_of(answer);
    let t = trim_chars(&v);
    let l = to_lower_chars(&t);
    let n = chars_of("n");
    let no = chars_of("no");
    crate::text::chars_eq(&l, &n) || crate::text::chars_eq(&l, &no)
}

/// The commands tried in turn to update yt-dlp: pip and pip3, first with
/// `--break-system-packages`, then without, then pipx.
pub open spec fn update_methods() -> Seq<Seq<char>> {
    seq![
        "pip install --upgrade --break-system-packages yt-dlp"@,
        "pip3 install --upgrade --break-system-packages yt-dlp"@,
        "pip install --upgrade yt-dlp"@,
        "pip3 install --upgrade yt-dlp"@,
        "pipx upgrade yt-dlp"@,
    ]
}

/// The update command tried at attempt `i` (from 0), or `None` once all
/// were tried: see [`update_methods`].
pub fn update_method(i: usize) -> (r: Option<&'static str>)
    ensures
        match r {
            Some(c) => i < update_methods().len() && c@ == update_methods()[i as int],
            None => i >= update_methods().len(),
        },
{
    match i {
        0 => Some("pip install --upgrade --break-system-packages yt-dlp"),
        1 => Some("pip3 install --upgrade --break-system-packages yt-dlp"),
        2 => Some("pip install --upgrade yt-dlp"),
        3 => Some("pip3 install --upgrade yt-dlp"),
        4 => Some("pipx upgrade yt-dlp"),
        _ => None,
    }
}

} // verus!
