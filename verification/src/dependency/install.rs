//! Installation commands for missing dependencies.

use vstd::prelude::*;
use super::detect::{InstallMethod, LinuxDistro, Platform};
use crate::error::YtcsError;
use crate::text::{owned, push_str, string_of};

verus! {

/// Dependency installer for one platform.
pub struct DependencyInstaller {
    pub platform: Platform,
}

pub open spec fn install_command_spec(name: Seq<char>, method: InstallMethod) -> Option<Seq<Seq<char>>> {
    match method {
        InstallMethod::Apt => Some(seq!["sudo"@, "apt"@, "install"@, "-y"@, name]),
        InstallMethod::Dnf => Some(seq!["sudo"@, "dnf"@, "install"@, "-y"@, name]),
        InstallMethod::Pacman => Some(seq!["sudo"@, "pacman"@, "-S"@, "--noconfirm"@, name]),
        InstallMethod::Brew => Some(seq!["brew"@, "install"@, name]),
        InstallMethod::Winget => Some(
            seq![
                "winget"@,
                "install"@,
                "--accept-package-agreements"@,
                "--accept-source-agreements"@,
                name,
            ],
        ),
        InstallMethod::Chocolatey => Some(seq!["choco"@, "install"@, "-y"@, name]),
        InstallMethod::Scoop => Some(seq!["scoop"@, "install"@, name]),
        InstallMethod::Pip => Some(
            seq!["python"@, "-m"@, "pip"@, "install"@, "--upgrade"@, name],
        ),
        InstallMethod::Manual => None,
    }
}

pub open spec fn manual_instructions_spec(p: Platform) -> Seq<char> {
    match p {
        Platform::Linux { distro } => match distro {
            LinuxDistro::Debian => "sudo apt install yt-dlp ffmpeg"@,
            LinuxDistro::Fedora => "sudo dnf install yt-dlp ffmpeg"@,
            LinuxDistro::Arch => "sudo pacman -S yt-dlp ffmpeg"@,
            LinuxDistro::Other =>
                "# Install using your package manager\nsudo apt install yt-dlp ffmpeg  # Debian/Ubuntu\nsudo dnf install yt-dlp ffmpeg  # Fedora\nsudo pacman -S yt-dlp ffmpeg  # Arch"@,
        },
        Platform::MacOS => "brew install yt-dlp ffmpeg"@,
        Platform::Windows =>
            "# Install via winget\nwinget install yt-dlp ffmpeg\n\n# Or via pip\npython -m pip install --upgrade yt-dlp\n# ffmpeg: download from https://ffmpeg.org/download.html"@,
    }
}

fn strings_of(parts: &[&str], name: &str) -> (r: Vec<String>)
    ensures
        r@.map_values(|s: String| s@) == parts@.map_values(|s: &str| s@).push(name@),
{
    let mut v: Vec<String> = Vec::new();
    let mut i: usize = 0;
    while i < parts.len()
        invariant
            i <= parts@.len(),
            v@.len() == i,
            forall|k: int| 0 <= k < i ==> (#[trigger] v@[k])@ == parts@[k]@,
        decreases parts.len() - i,
    {
        v.push(owned(parts[i]));
        i = i + 1;
    }
    v.push(owned(name));
    assert(v@.map_values(|s: String| s@) =~= parts@.map_values(|s: &str| s@).push(name@));
    v
}

impl DependencyInstaller {
    /// An installer for a platform.
    pub fn new(platform: Platform) -> (r: Self)
        ensures
            r.platform == platform,
    {
        DependencyInstaller { platform }
    }

    /// The command that installs `name` with a method; an error for manual
    /// installation.
    pub fn get_install_command(&self, name: &str, method: InstallMethod) -> (r: Result<Vec<String>, YtcsError>)
        ensures
            match install_command_spec(name@, method) {
                Some(cmd) => r matches Ok(v) && v@.map_values(|s: String| s@) == cmd,
                None => r matches Err(YtcsError::InstallError(m)) && m@ == "Manual installation required for "@
                    + name@ + ". Please install "@ + name@ + " using your system package manager."@,
            },
    {
        let r = match method {
            InstallMethod::Apt => strings_of(&["sudo", "apt", "install", "-y"], name),
            InstallMethod::Dnf => strings_of(&["sudo", "dnf", "install", "-y"], name),
            InstallMethod::Pacman => strings_of(&["sudo", "pacman", "-S", "--noconfirm"], name),
            InstallMethod::Brew => strings_of(&["brew", "install"], name),
            InstallMethod::Winget => strings_of(
                &["winget", "install", "--accept-package-agreements", "--accept-source-agreements"],
                name,
            ),
            InstallMethod::Chocolatey => strings_of(&["choco", "install", "-y"], name),
            InstallMethod::Scoop => strings_of(&["scoop", "install"], name),
            InstallMethod::Pip => strings_of(&["python", "-m", "pip", "install", "--upgrade"], name),
            InstallMethod::Manual => {
                let mut out: Vec<char> = Vec::new();
                push_str(&mut out, "Manual installation required for ");
                push_str(&mut out, name);
                push_str(&mut out, ". Please install ");
                push_str(&mut out, name);
                push_str(&mut out, " using your system package manager.");
                return Err(YtcsError::InstallError(string_of(&out)));
            },
        };
        proof {
            assert(r@.map_values(|s: String| s@) =~= install_command_spec(name@, method).unwrap());
        }
        Ok(r)
    }

    /// Manual installation instructions for the platform.
    pub fn get_manual_instructions(&self) -> (r: &'static str)
        ensures
            r@ == manual_instructions_spec(self.platform),
    {
        match self.platform {
            Platform::Linux { distro } => match distro {
                LinuxDistro::Debian => "sudo apt install yt-dlp ffmpeg",
                LinuxDistro::Fedora => "sudo dnf install yt-dlp ffmpeg",
                LinuxDistro::Arch => "sudo pacman -S yt-dlp ffmpeg",
                LinuxDistro::Other => "# Install using your package manager\nsudo apt install yt-dlp ffmpeg  # Debian/Ubuntu\nsudo dnf install yt-dlp ffmpeg  # Fedora\nsudo pacman -S yt-dlp ffmpeg  # Arch",
            },
            Platform::MacOS => "brew install yt-dlp ffmpeg",
            Platform::Windows => "# Install via winget\nwinget install yt-dlp ffmpeg\n\n# Or via pip\npython -m pip install --upgrade yt-dlp\n# ffmpeg: download from https://ffmpeg.org/download.html",
        }
    }
}

} // verus!
