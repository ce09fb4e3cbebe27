//! Error values of the library.

use vstd::prelude::*;
use crate::text::{push_str, string_of};

verus! {

/// The operating system the program was built for, where a message depends
/// on it.
#[derive(Debug, Clone, Copy, PartialEq, Eq, Structural)]
pub enum HostOs {
    Linux,
    MacOs,
    Other,
}

/// The tools a dependency check found missing: `yt-dlp`, `ffmpeg`, and
/// `deno` (the JavaScript runtime yt-dlp needs for YouTube's challenge).
#[derive(Debug, Clone, Copy, PartialEq, Eq, Structural)]
pub struct MissingToolsError {
    pub missing_ytdlp: bool,
    pub missing_ffmpeg: bool,
    pub missing_deno: bool,
}

/// The tools to install, in order: `yt-dlp`, `ffmpeg`, then `deno`.
pub open spec fn tools_to_install_spec(e: MissingToolsError) -> Seq<Seq<char>> {
    let a: Seq<Seq<char>> = if e.missing_ytdlp {
        seq!["yt-dlp"@]
    } else {
        seq![]
    };
    let b = if e.missing_ffmpeg {
        a.push("ffmpeg"@)
    } else {
        a
    };
    if e.missing_deno {
        b.push("deno"@)
    } else {
        b
    }
}

/// The deno install hint for a host.
pub open spec fn deno_install_hint_spec(os: HostOs) -> Seq<char> {
    match os {
        HostOs::Other => "see https://deno.land/#installation"@,
        _ => "curl -fsSL https://deno.land/install.sh | sh"@,
    }
}

/// The ffmpeg install hint for a host.
pub open spec fn ffmpeg_install_hint_spec(os: HostOs) -> Seq<char> {
    match os {
        HostOs::Linux => "sudo apt install ffmpeg"@,
        HostOs::MacOs => "brew install ffmpeg"@,
        HostOs::Other => "Download from https://ffmpeg.org/download.html"@,
    }
}

/// The message shown for missing tools.
pub open spec fn missing_tools_message_spec(e: MissingToolsError, os: HostOs) -> Seq<char> {
    let head = "Missing dependencies:\n"@;
    let a = if e.missing_ytdlp {
        head + "  - yt-dlp: pip install yt-dlp\n"@
    } else {
        head
    };
    let b = if e.missing_ffmpeg {
        a + "  - ffmpeg: "@ + ffmpeg_install_hint_spec(os) + "\n"@
    } else {
        a
    };
    if e.missing_deno {
        b + "  - deno: "@ + deno_install_hint_spec(os) + "\n"@
    } else {
        b
    }
}

impl MissingToolsError {
    /// Tools to pass to the installer.
    pub fn tools_to_install(&self) -> (r: Vec<&'static str>)
        ensures
            r@.map_values(|s: &str| s@) == tools_to_install_spec(*self),
    {
        let mut v: Vec<&'static str> = Vec::new();
        if self.missing_ytdlp {
            v.push("yt-dlp");
        }
        if self.missing_ffmpeg {
            v.push("ffmpeg");
        }
        if self.missing_deno {
            v.push("deno");
        }
        assert(v@.map_values(|s: &str| s@) =~= tools_to_install_spec(*self));
        v
    }

    fn ffmpeg_install_hint(os: HostOs) -> (r: &'static str)
        ensures
            r@ == ffmpeg_install_hint_spec(os),
    {
        match os {
            HostOs::Linux => "sudo apt install ffmpeg",
            HostOs::MacOs => "brew install ffmpeg",
            HostOs::Other => "Download from https://ffmpeg.org/download.html",
        }
    }

    /// The message listing the missing tools with install hints.
    pub fn message(&self, os: HostOs) -> (r: String)
        ensures
            r@ == missing_tools_message_spec(*self, os),
    {
        let mut out: Vec<char> = Vec::new();
        push_str(&mut out, "Missing dependencies:\n");
        if self.missing_ytdlp {
            push_str(&mut out, "  - yt-dlp: pip install yt-dlp\n");
        }
        if self.missing_ffmpeg {
            push_str(&mut out, "  - ffmpeg: ");
            push_str(&mut out, Self::ffmpeg_install_hint(os));
            push_str(&mut out, "\n");
        }
        if self.missing_deno {
            push_str(&mut out, "  - deno: ");
            push_str(&mut out, match os {
                HostOs::Other => "see https://deno.land/#installation",
                _ => "curl -fsSL https://deno.land/install.sh | sh",
            });
            push_str(&mut out, "\n");
        }
        string_of(&out)
    }
}

/// Errors of the library, each carrying its message.
#[derive(Debug, Clone, PartialEq, Eq)]
pub enum YtcsError {
    /// Error occurred while downloading a video or thumbnail.
    DownloadError(String),
    /// Error occurred during audio processing (splitting, conversion, etc.).
    AudioError(String),
    /// Error occurred during parsing or manipulation of chapters.
    ChapterError(String),
    /// Invalid or malformed YouTube URL.
    InvalidUrl(String),
    /// Missing required system tools (`yt-dlp`, `ffmpeg`).
    MissingTools(MissingToolsError),
    /// I/O error (files, network, etc.).
    IoError(String),
    /// JSON parsing error (video metadata, chapters, etc.).
    JsonError(String),
    /// Configuration error.
    ConfigError(String),
    /// Installation error for dependencies.
    InstallError(String),
    /// Both thumbnail paths failed: the direct download and the yt-dlp fallback.
    ThumbnailFailed { http: String, ytdlp: String },
    /// Generic error for cases not covered by other variants.
    Other(String),
}

/// The display text of an error.
pub open spec fn error_message_spec(e: YtcsError, os: HostOs) -> Seq<char> {
    match e {
        YtcsError::DownloadError(m) => "Download error: "@ + m@,
        YtcsError::AudioError(m) => "Audio processing error: "@ + m@,
        YtcsError::ChapterError(m) => "Chapter parsing error: "@ + m@,
        YtcsError::InvalidUrl(m) => "Invalid YouTube URL: "@ + m@,
        YtcsError::MissingTools(t) => missing_tools_message_spec(t, os),
        YtcsError::IoError(m) => "I/O error: "@ + m@,
        YtcsError::JsonError(m) => "JSON parsing error: "@ + m@,
        YtcsError::ConfigError(m) => "Configuration error: "@ + m@,
        YtcsError::InstallError(m) => "Installation error: "@ + m@,
        YtcsError::ThumbnailFailed { http, ytdlp } => "Thumbnail download failed (direct: "@
            + http@ + "; yt-dlp: "@ + ytdlp@ + ")"@,
        YtcsError::Other(m) => "Generic error: "@ + m@,
    }
}

impl YtcsError {
    /// The display text of the error.
    pub fn message(&self, os: HostOs) -> (r: String)
        ensures
            r@ == error_message_spec(*self, os),
    {
        let mut out: Vec<char> = Vec::new();
        match self {
            YtcsError::DownloadError(m) => {
                push_str(&mut out, "Download error: ");
                push_str(&mut out, m.as_str());
            },
            YtcsError::AudioError(m) => {
                push_str(&mut out, "Audio processing error: ");
                push_str(&mut out, m.as_str());
            },
            YtcsError::ChapterError(m) => {
                push_str(&mut out, "Chapter parsing error: ");
                push_str(&mut out, m.as_str());
            },
            YtcsError::InvalidUrl(m) => {
                push_str(&mut out, "Invalid YouTube URL: ");
                push_str(&mut out, m.as_str());
            },
            YtcsError::MissingTools(t) => {
                return t.message(os);
            },
            YtcsError::IoError(m) => {
                push_str(&mut out, "I/O error: ");
                push_str(&mut out, m.as_str());
            },
            YtcsError::JsonError(m) => {
                push_str(&mut out, "JSON parsing error: ");
                push_str(&mut out, m.as_str());
            },
            YtcsError::ConfigError(m) => {
                push_str(&mut out, "Configuration error: ");
                push_str(&mut out, m.as_str());
            },
            YtcsError::InstallError(m) => {
                push_str(&mut out, "Installation error: ");
                push_str(&mut out, m.as_str());
            },
            YtcsError::ThumbnailFailed { http, ytdlp } => {
                push_str(&mut out, "Thumbnail download failed (direct: ");
                push_str(&mut out, http.as_str());
                push_str(&mut out, "; yt-dlp: ");
                push_str(&mut out, ytdlp.as_str());
                push_str(&mut out, ")");
            },
            YtcsError::Other(m) => {
                push_str(&mut out, "Generic error: ");
                push_str(&mut out, m.as_str());
            },
        }
        string_of(&out)
    }
}

} // verus!
