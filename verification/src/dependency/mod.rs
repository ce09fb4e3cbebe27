//! Detection and installation plans for the external tools (`yt-dlp`,
//! `ffmpeg`).

pub mod detect;
pub mod install;

pub use detect::{DependencyStatus, InstallMethod, LinuxDistro, PackageManagers, Platform};
pub use install::DependencyInstaller;

use vstd::prelude::*;

verus! {

/// Overall dependency state for the application.
#[derive(Debug, Clone)]
pub struct DependencyState {
    pub ytdlp: DependencyStatus,
    pub ffmpeg: DependencyStatus,
}

/// The names of the missing tools, `yt-dlp` first.
pub open spec fn missing_spec(s: DependencyState) -> Seq<Seq<char>> {
    let a: Seq<Seq<char>> = if !s.ytdlp.installed {
        seq!["yt-dlp"@]
    } else {
        seq![]
    };
    if !s.ffmpeg.installed {
        a.push("ffmpeg"@)
    } else {
        a
    }
}

impl DependencyState {
    /// The state made of the two probe results.
    pub fn check_all(ytdlp: DependencyStatus, ffmpeg: DependencyStatus) -> (r: Self)
        ensures
            r.ytdlp == ytdlp,
            r.ffmpeg == ffmpeg,
    {
        DependencyState { ytdlp, ffmpeg }
    }

    /// Whether all required dependencies are installed.
    pub fn all_present(&self) -> (r: bool)
        ensures
            r == (self.ytdlp.installed && self.ffmpeg.installed),
    {
        self.ytdlp.installed && self.ffmpeg.installed
    }

    /// The names of the missing dependencies.
    pub fn missing(&self) -> (r: Vec<&'static str>)
        ensures
            r@.map_values(|s: &str| s@) == missing_spec(*self),
    {
        let mut v: Vec<&'static str> = Vec::new();
        if !self.ytdlp.installed {
            v.push("yt-dlp");
        }
        if !self.ffmpeg.installed {
            v.push("ffmpeg");
        }
        assert(v@.map_values(|s: &str| s@) =~= missing_spec(*self));
        v
    }
}

} // verus!
