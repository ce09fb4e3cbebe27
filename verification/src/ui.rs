//! What the command-line output says: the labels, lines and names shown,
//! without colors (the front end colors and prints them).

use vstd::prelude::*;
use crate::text::{chars_of, dec, owned, push_dec, push_str, replace_all, replace_all_exec, string_of, trim, trim_chars};
use crate::utils::{clean_folder_name, clean_folder_name_spec};

verus! {

/// Where an artist or album name came from.
#[derive(Debug, Clone, Copy, PartialEq, Eq, Structural)]
pub enum MetadataSource {
    /// Detected from the video title.
    Detected,
    /// Given by the user.
    Forced,
    /// The default (`Unknown Artist`).
    Default,
}

/// The label shown for a source.
pub open spec fn source_label(s: MetadataSource) -> Seq<char> {
    match s {
        MetadataSource::Detected => "detected"@,
        MetadataSource::Forced => "user-forced"@,
        MetadataSource::Default => "default"@,
    }
}

impl MetadataSource {
    /// The label shown for the source: see [`source_label`].
    pub fn label(self) -> (r: &'static str)
        ensures
            r@ == source_label(self),
    {
        match self {
            MetadataSource::Detected => "detected",
            MetadataSource::Forced => "user-forced",
            MetadataSource::Default => "default",
        }
    }
}

/// A title cleaned as a folder name (see `clean_folder_name`).
pub fn clean_title(title: &str) -> (r: String)
    ensures
        r@ == clean_folder_name_spec(title@),
{
    clean_folder_name(title)
}

/// How messages are printed.
#[derive(Debug, Clone, Copy, PartialEq, Eq, Structural)]
pub enum OutputMode {
    Colored,
    Plain,
}

/// The state of an operation.
#[derive(Debug, Clone, Copy, PartialEq, Eq, Structural)]
pub enum Status {
    Pending,
    InProgress,
    Success,
    Failed,
}

/// The symbol shown for a status (the front end colors it).
pub open spec fn status_symbol(status: Status) -> Seq<char> {
    match status {
        Status::Pending => " "@,
        Status::InProgress => "⏳"@,
        Status::Success => "✓"@,
        Status::Failed => "✗"@,
    }
}

/// The symbol shown for a status: see [`status_symbol`].
pub fn status_icon(status: Status) -> (r: &'static str)
    ensures
        r@ == status_symbol(status),
{
    match status {
        Status::Pending => " ",
        Status::InProgress => "⏳",
        Status::Success => "✓",
        Status::Failed => "✗",
    }
}

/// A track being written.
pub struct TrackProgress {
    pub number: usize,
    pub title: String,
    pub status: Status,
    pub duration: String,
}

/// Prints messages in one output mode.
pub struct PlainTextPresenter {
    pub output_mode: OutputMode,
}

impl PlainTextPresenter {
    /// A presenter printing plain text.
    pub fn new() -> (r: Self)
        ensures
            r.output_mode == OutputMode::Plain,
    {
        PlainTextPresenter { output_mode: OutputMode::Plain }
    }

    /// The presenter in another mode.
    pub fn with_output_mode(self, mode: OutputMode) -> (r: Self)
        ensures
            r.output_mode == mode,
    {
        PlainTextPresenter { output_mode: mode }
    }
}

/// The kinds of messages.
#[derive(Debug, Clone, Copy, PartialEq, Eq, Structural)]
pub enum MessageKind {
    Error,
    Warning,
    Info,
    Success,
}

/// The plain line of a message: its kind's prefix and the message.
pub open spec fn plain_line_spec(kind: MessageKind, message: Seq<char>) -> Seq<char> {
    match kind {
        MessageKind::Error => "ERROR: "@ + message,
        MessageKind::Warning => "WARNING: "@ + message,
        MessageKind::Info => "INFO: "@ + message,
        MessageKind::Success => "OK: "@ + message,
    }
}

/// The plain line of a message: see [`plain_line_spec`].
pub fn plain_line(kind: MessageKind, message: &str) -> (r: String)
    ensures
        r@ == plain_line_spec(kind, message@),
{
    let mut out: Vec<char> = Vec::new();
    match kind {
        MessageKind::Error => push_str(&mut out, "ERROR: "),
        MessageKind::Warning => push_str(&mut out, "WARNING: "),
        MessageKind::Info => push_str(&mut out, "INFO: "),
        MessageKind::Success => push_str(&mut out, "OK: "),
    }
    push_str(&mut out, message);
    string_of(&out)
}

/// The plain progress line: `[current/total] message`.
pub open spec fn progress_line_spec(current: nat, total: nat, message: Seq<char>) -> Seq<char> {
    "["@ + dec(current) + "/"@ + dec(total) + "] "@ + message
}

/// The plain progress line: see [`progress_line_spec`].
pub fn progress_line(current: usize, total: usize, message: &str) -> (r: String)
    ensures
        r@ == progress_line_spec(current as nat, total as nat, message@),
{
    let mut out: Vec<char> = Vec::new();
    push_str(&mut out, "[");
    push_dec(&mut out, current as u64);
    push_str(&mut out, "/");
    push_dec(&mut out, total as u64);
    push_str(&mut out, "] ");
    push_str(&mut out, message);
    string_of(&out)
}

/// The track count shown for a video: unknown under silence detection,
/// the count when known, a note while the description is read, else
/// unknown.
pub open spec fn tracks_display_spec(tracks: nat, from_description: bool, silence_detection: bool) -> Seq<char> {
    if silence_detection {
        "? tracks (silence detection)"@
    } else if tracks > 0 {
        dec(tracks) + " tracks"@
    } else if from_description {
        "checking description..."@
    } else {
        "? tracks"@
    }
}

/// The track count shown for a video: see [`tracks_display_spec`].
pub fn tracks_display(tracks: usize, from_description: bool, silence_detection: bool) -> (r: String)
    ensures
        r@ == tracks_display_spec(tracks as nat, from_description, silence_detection),
{
    if silence_detection {
        owned("? tracks (silence detection)")
    } else if tracks > 0 {
        let mut out: Vec<char> = Vec::new();
        push_dec(&mut out, tracks as u64);
        push_str(&mut out, " tracks");
        string_of(&out)
    } else if from_description {
        owned("checking description...")
    } else {
        owned("? tracks")
    }
}

/// `s` padded with spaces on the left to `width` characters.
pub open spec fn pad_left(s: Seq<char>, width: nat) -> Seq<char> {
    if s.len() >= width {
        s
    } else {
        Seq::new((width - s.len()) as nat, |_i: int| ' ') + s
    }
}

/// The branch and the right-aligned number of track `index` of `total`:
/// the last track closes the tree.
pub open spec fn track_prefix_spec(index: nat, total: nat) -> (Seq<char>, Seq<char>) {
    (if index == total { "  └─"@ } else { "  ├─"@ }, pad_left(dec(index), dec(total).len()))
}

/// The branch and the right-aligned number of a track line: see
/// [`track_prefix_spec`].
pub fn track_prefix(index: usize, total: usize) -> (r: (&'static str, String))
    ensures
        (r.0@, r.1@) == track_prefix_spec(index as nat, total as nat),
{
    let prefix = if index == total { "  └─" } else { "  ├─" };
    let mut n: Vec<char> = Vec::new();
    push_dec(&mut n, index as u64);
    let mut w: Vec<char> = Vec::new();
    push_dec(&mut w, total as u64);
    let mut out: Vec<char> = Vec::new();
    let mut k: usize = n.len();
    while k < w.len()
        invariant
            n.len() <= k <= w.len() || (w.len() < n.len() && k == n.len()),
            out@ == Seq::new((k - n.len()) as nat, |_i: int| ' '),
        decreases w.len() - k,
    {
        out.push(' ');
        k = k + 1;
        assert(out@ =~= Seq::new((k - n.len()) as nat, |_i: int| ' '));
    }
    crate::text::extend(&mut out, &n);
    assert(out@ =~= pad_left(n@, w@.len()));
    (prefix, string_of(&out))
}

/// The answer to a metadata question: the trimmed answer, or the default
/// when it is blank.
pub fn metadata_answer(input: &str, default: &str) -> (r: String)
    ensures
        r@ == (if trim(input@).len() == 0 { default@ } else { trim(input@) }),
{
    let v = chars_of(input);
    let t = trim_chars(&v);
    if t.len() == 0 {
        owned(default)
    } else {
        string_of(&t)
    }
}

} // verus!
