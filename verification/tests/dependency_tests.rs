use youtube_chapter_splitter::dependency::detect::{
    DependencyStatus, InstallMethod, LinuxDistro, OsFamily, PackageManagers, Platform,
};
use youtube_chapter_splitter::dependency::install::DependencyInstaller;
use youtube_chapter_splitter::dependency::DependencyState;

fn managers() -> PackageManagers {
    PackageManagers { apt: true, dnf: false, pacman: false, brew: false, winget: false, choco: false, scoop: false }
}

#[test]
fn test_platform_detection() {
    let platform = Platform::detect(OsFamily::Linux, managers());
    match platform {
        Platform::Linux { .. } | Platform::MacOS | Platform::Windows => {}
    }
    assert_eq!(platform, Platform::Linux { distro: LinuxDistro::Debian });
}

#[test]
fn test_install_method() {
    let platform = Platform::detect(OsFamily::Linux, managers());
    let method = platform.install_method(managers());
    match method {
        InstallMethod::Apt
        | InstallMethod::Dnf
        | InstallMethod::Pacman
        | InstallMethod::Brew
        | InstallMethod::Winget
        | InstallMethod::Chocolatey
        | InstallMethod::Scoop
        | InstallMethod::Pip
        | InstallMethod::Manual => {}
    }
    assert_eq!(method, InstallMethod::Apt);
}

#[test]
fn test_installer_creation() {
    let installer = DependencyInstaller::new(Platform::MacOS);
    assert_eq!(installer.get_manual_instructions(), "brew install yt-dlp ffmpeg");
}

#[test]
fn install_command_for_apt_and_manual() {
    let installer = DependencyInstaller::new(Platform::Linux { distro: LinuxDistro::Debian });
    let cmd = installer.get_install_command("ffmpeg", InstallMethod::Apt).unwrap();
    assert_eq!(cmd, vec!["sudo", "apt", "install", "-y", "ffmpeg"]);
    assert!(installer.get_install_command("ffmpeg", InstallMethod::Manual).is_err());
}

#[test]
fn windows_prefers_winget_then_pip() {
    let none = PackageManagers { apt: false, dnf: false, pacman: false, brew: false, winget: false, choco: false, scoop: false };
    let p = Platform::detect(OsFamily::Windows, none);
    assert_eq!(p.install_method(none), InstallMethod::Pip);
    let with_winget = PackageManagers { winget: true, ..none };
    assert_eq!(p.install_method(with_winget), InstallMethod::Winget);
}

#[test]
fn dependency_state_lists_missing_tools() {
    let yt = DependencyStatus::check(false, None, InstallMethod::Pip);
    let ff = DependencyStatus::check(true, Some("6.0".to_string()), InstallMethod::Apt);
    let state = DependencyState::check_all(yt, ff);
    assert!(!state.all_present());
    assert_eq!(state.missing(), vec!["yt-dlp"]);
}

#[test]
fn test_cookies_available_with_browser() {
    assert!(youtube_chapter_splitter::cookie_helper::cookies_available(Some("firefox"), false));
}

#[test]
fn test_add_cookie_args_with_browser() {
    let (args, result) = youtube_chapter_splitter::cookie_helper::cookie_args(Some("chrome"), None);
    assert!(result.is_some());
    assert!(result.unwrap().contains("chrome"));
    assert_eq!(args, vec!["--cookies-from-browser".to_string(), "chrome".to_string()]);
}

#[test]
fn test_add_cookie_args_no_cookies() {
    let (args, result) = youtube_chapter_splitter::cookie_helper::cookie_args(None, None);
    assert!(args.is_empty());
    assert!(result.is_none());
}
