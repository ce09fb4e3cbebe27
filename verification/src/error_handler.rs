//! Application-level errors shown to users, with explanation and suggested
//! action.

use vstd::prelude::*;
use crate::text::{dec, owned, push_dec, push_str, str_eq, string_of};

verus! {

/// Application-level errors that can be displayed to users.
#[derive(Debug)]
pub enum AppError {
    /// Dependency missing - can be resolved.
    DependencyMissing { name: String, install_suggestion: String },
    /// Download failed - may be retryable.
    DownloadFailed { url: String, reason: String, can_retry: bool },
    /// Authentication required - can prompt for cookies.
    AuthenticationRequired { url: String },
    /// Terminal too small for TUI.
    TerminalTooSmall { current: (u16, u16), required: (u16, u16) },
    /// Configuration error.
    ConfigError { key: String, value: String, reason: String },
    /// Generic error with message.
    Generic { message: String, suggestion: Option<String> },
}

pub open spec fn display_spec(e: AppError) -> Seq<char> {
    match e {
        AppError::DependencyMissing { name, .. } => "⚠ Missing dependency: "@ + name@,
        AppError::DownloadFailed { reason, .. } => "❌ Download failed: "@ + reason@,
        AppError::AuthenticationRequired { .. } =>
            "🔒 This video requires authentication (member-only content)"@,
        AppError::TerminalTooSmall { current, required } => "⚠ Terminal too small ("@ + dec(
            current.0 as nat,
        ) + "×"@ + dec(current.1 as nat) + "). Minimum: "@ + dec(required.0 as nat) + "×"@
            + dec(required.1 as nat),
        AppError::ConfigError { key, reason, .. } => "Configuration error for '"@ + key@
            + "': "@ + reason@,
        AppError::Generic { message, .. } => message@,
    }
}

pub open spec fn explanation_spec(e: AppError) -> Seq<char> {
    match e {
        AppError::DependencyMissing { name, .. } => "The tool requires "@ + name@
            + " to download YouTube videos."@,
        AppError::DownloadFailed { reason, .. } => "The download could not complete: "@
            + reason@,
        AppError::AuthenticationRequired { .. } =>
            "YouTube members-only content cannot be accessed without login."@,
        AppError::TerminalTooSmall { .. } =>
            "The TUI requires a minimum terminal size to display properly."@,
        AppError::ConfigError { reason, .. } => reason@,
        AppError::Generic { message, .. } => message@,
    }
}

pub open spec fn suggestion_spec(e: AppError) -> Option<Seq<char>> {
    match e {
        AppError::DependencyMissing { install_suggestion, .. } => Some(install_suggestion@),
        AppError::DownloadFailed { can_retry, .. } => if can_retry {
            Some("Press 'r' to retry or 'q' to quit"@)
        } else {
            Some("Press 'q' to quit"@)
        },
        AppError::AuthenticationRequired { .. } => Some(
            "Configure cookies from browser: Press 'c' for cookie setup"@,
        ),
        AppError::TerminalTooSmall { .. } => Some(
            "Resize your terminal to at least 40×12 characters"@,
        ),
        AppError::ConfigError { .. } => Some(
            "Check your configuration file or run 'ytcs reset'"@,
        ),
        AppError::Generic { suggestion, .. } => match suggestion {
            Some(s) => Some(s@),
            None => None,
        },
    }
}

impl AppError {
    /// Returns the user-friendly error message.
    pub fn display(&self) -> (r: String)
        ensures
            r@ == display_spec(*self),
    {
        let mut out: Vec<char> = Vec::new();
        match self {
            AppError::DependencyMissing { name, .. } => {
                push_str(&mut out, "⚠ Missing dependency: ");
                push_str(&mut out, name.as_str());
            },
            AppError::DownloadFailed { reason, .. } => {
                push_str(&mut out, "❌ Download failed: ");
                push_str(&mut out, reason.as_str());
            },
            AppError::AuthenticationRequired { .. } => {
                push_str(&mut out, "🔒 This video requires authentication (member-only content)");
            },
            AppError::TerminalTooSmall { current, required } => {
                push_str(&mut out, "⚠ Terminal too small (");
                push_dec(&mut out, current.0 as u64);
                push_str(&mut out, "×");
                push_dec(&mut out, current.1 as u64);
                push_str(&mut out, "). Minimum: ");
                push_dec(&mut out, required.0 as u64);
                push_str(&mut out, "×");
                push_dec(&mut out, required.1 as u64);
            },
            AppError::ConfigError { key, reason, .. } => {
                push_str(&mut out, "Configuration error for '");
                push_str(&mut out, key.as_str());
                push_str(&mut out, "': ");
                push_str(&mut out, reason.as_str());
            },
            AppError::Generic { message, .. } => {
                push_str(&mut out, message.as_str());
            },
        }
        string_of(&out)
    }

    /// Returns a detailed explanation of what happened.
    pub fn explanation(&self) -> (r: String)
        ensures
            r@ == explanation_spec(*self),
    {
        let mut out: Vec<char> = Vec::new();
        match self {
            AppError::DependencyMissing { name, .. } => {
                push_str(&mut out, "The tool requires ");
                push_str(&mut out, name.as_str());
                push_str(&mut out, " to download YouTube videos.");
            },
            AppError::DownloadFailed { reason, .. } => {
                push_str(&mut out, "The download could not complete: ");
                push_str(&mut out, reason.as_str());
            },
            AppError::AuthenticationRequired { .. } => {
                push_str(&mut out, "YouTube members-only content cannot be accessed without login.");
            },
            AppError::TerminalTooSmall { .. } => {
                push_str(&mut out, "The TUI requires a minimum terminal size to display properly.");
            },
            AppError::ConfigError { reason, .. } => {
                push_str(&mut out, reason.as_str());
            },
            AppError::Generic { message, .. } => {
                push_str(&mut out, message.as_str());
            },
        }
        string_of(&out)
    }

    /// Returns the suggested action, if any.
    pub fn suggestion(&self) -> (r: Option<String>)
        ensures
            r matches Some(s) ==> suggestion_spec(*self) == Some(s@),
            r is None ==> suggestion_spec(*self) is None,
    {
        match self {
            AppError::DependencyMissing { install_suggestion, .. } => Some(
                owned(install_suggestion.as_str()),
            ),
            AppError::DownloadFailed { can_retry, .. } => {
                if *can_retry {
                    Some(owned("Press 'r' to retry or 'q' to quit"))
                } else {
                    Some(owned("Press 'q' to quit"))
                }
            },
            AppError::AuthenticationRequired { .. } => Some(
                owned("Configure cookies from browser: Press 'c' for cookie setup"),
            ),
            AppError::TerminalTooSmall { .. } => Some(
                owned("Resize your terminal to at least 40×12 characters"),
            ),
            AppError::ConfigError { .. } => Some(
                owned("Check your configuration file or run 'ytcs reset'"),
            ),
            AppError::Generic { suggestion, .. } => match suggestion {
                Some(s) => Some(owned(s.as_str())),
                None => None,
            },
        }
    }

    /// Whether the error should show as a blocking modal.
    pub fn is_modal(&self) -> (r: bool)
        ensures
            r == (self is AuthenticationRequired || self is TerminalTooSmall
                || self is ConfigError),
    {
        match self {
            AppError::AuthenticationRequired { .. } => true,
            AppError::TerminalTooSmall { .. } => true,
            AppError::ConfigError { .. } => true,
            _ => false,
        }
    }

    /// Whether the error is critical (requires explicit dismissal).
    pub fn is_critical(&self) -> (r: bool)
        ensures
            r == (self is TerminalTooSmall || self is ConfigError),
    {
        match self {
            AppError::TerminalTooSmall { .. } => true,
            AppError::ConfigError { .. } => true,
            _ => false,
        }
    }
}

/// The install instructions for a platform name.
pub open spec fn install_instructions_spec(platform: Seq<char>) -> Seq<char> {
    if platform == "linux"@ {
        "  Ubuntu/Debian: sudo apt install yt-dlp ffmpeg\n              Fedora: sudo dnf install yt-dlp ffmpeg\n             Arch: sudo pacman -S yt-dlp ffmpeg"@
    } else if platform == "macos"@ {
        "  brew install yt-dlp ffmpeg"@
    } else if platform == "windows"@ {
        "  winget install yt-dlp ffmpeg\n             Or use pip: python -m pip install yt-dlp"@
    } else {
        "  Install using your system package manager"@
    }
}

/// Error for a missing dependency, with install instructions for the
/// platform (`linux`, `macos`, `windows`, anything else).
pub fn dependency_missing_error(name: &str, platform: &str) -> (r: AppError)
    ensures
        r matches AppError::DependencyMissing { name: n, install_suggestion: s } && n@ == name@
            && s@ == "Install manually:\n"@ + install_instructions_spec(platform@),
{
    let suggestion: &str = if str_eq(platform, "linux") {
        "  Ubuntu/Debian: sudo apt install yt-dlp ffmpeg\n              Fedora: sudo dnf install yt-dlp ffmpeg\n             Arch: sudo pacman -S yt-dlp ffmpeg"
    } else if str_eq(platform, "macos") {
        "  brew install yt-dlp ffmpeg"
    } else if str_eq(platform, "windows") {
        "  winget install yt-dlp ffmpeg\n             Or use pip: python -m pip install yt-dlp"
    } else {
        "  Install using your system package manager"
    };
    let mut out: Vec<char> = Vec::new();
    push_str(&mut out, "Install manually:\n");
    push_str(&mut out, suggestion);
    AppError::DependencyMissing { name: owned(name), install_suggestion: string_of(&out) }
}

/// Error for content that requires authentication.
pub fn auth_required_error() -> (r: AppError)
    ensures
        r matches AppError::AuthenticationRequired { url } && url@.len() == 0,
{
    AppError::AuthenticationRequired { url: String::new() }
}

/// Error for a terminal below the 40×12 minimum.
pub fn terminal_too_small_error(current: (u16, u16)) -> (r: AppError)
    ensures
        r == (AppError::TerminalTooSmall { current, required: (40, 12) }),
{
    AppError::TerminalTooSmall { current, required: (40, 12) }
}

/// Error for a failed download.
pub fn download_failed_error(reason: &str, can_retry: bool) -> (r: AppError)
    ensures
        r matches AppError::DownloadFailed { url, reason: rs, can_retry: cr } && url@.len() == 0
            && rs@ == reason@ && cr == can_retry,
{
    AppError::DownloadFailed { url: String::new(), reason: owned(reason), can_retry }
}

} // verus!
