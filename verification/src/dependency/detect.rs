//! Platform and dependency status.
//!
//! Probing the system (which package managers and tools exist) happens
//! outside the library; the decisions made from the probes are here.

use vstd::prelude::*;

verus! {

/// Linux distribution, by package manager.
#[derive(Debug, Clone, Copy, PartialEq, Eq, Structural)]
pub enum LinuxDistro {
    Debian,
    Fedora,
    Arch,
    Other,
}

/// Platform detection result.
#[derive(Debug, Clone, Copy, PartialEq, Eq, Structural)]
pub enum Platform {
    Linux { distro: LinuxDistro },
    MacOS,
    Windows,
}

/// Installation method for the current platform.
#[derive(Debug, Clone, Copy, PartialEq, Eq, Structural)]
pub enum InstallMethod {
    Apt,
    Dnf,
    Pacman,
    Brew,
    Winget,
    Chocolatey,
    Scoop,
    Pip,
    Manual,
}

/// Which package-manager commands exist on the system.
#[derive(Debug, Clone, Copy, PartialEq, Eq, Structural)]
pub struct PackageManagers {
    pub apt: bool,
    pub dnf: bool,
    pub pacman: bool,
    pub brew: bool,
    pub winget: bool,
    pub choco: bool,
    pub scoop: bool,
}

/// The operating system family the program runs on.
#[derive(Debug, Clone, Copy, PartialEq, Eq, Structural)]
pub enum OsFamily {
    Linux,
    MacOS,
    Windows,
    Unsupported,
}

/// The distribution named by the first package manager present, in the
/// order apt, dnf, pacman.
pub open spec fn distro_spec(pm: PackageManagers) -> LinuxDistro {
    if pm.apt {
        LinuxDistro::Debian
    } else if pm.dnf {
        LinuxDistro::Fedora
    } else if pm.pacman {
        LinuxDistro::Arch
    } else {
        LinuxDistro::Other
    }
}

pub open spec fn install_method_spec(p: Platform, pm: PackageManagers) -> InstallMethod {
    match p {
        Platform::Linux { distro } => match distro {
            LinuxDistro::Debian => InstallMethod::Apt,
            LinuxDistro::Fedora => InstallMethod::Dnf,
            LinuxDistro::Arch => InstallMethod::Pacman,
            LinuxDistro::Other => InstallMethod::Pip,
        },
        Platform::MacOS => if pm.brew {
            InstallMethod::Brew
        } else {
            InstallMethod::Manual
        },
        Platform::Windows => if pm.winget {
            InstallMethod::Winget
        } else if pm.choco {
            InstallMethod::Chocolatey
        } else if pm.scoop {
            InstallMethod::Scoop
        } else {
            InstallMethod::Pip
        },
    }
}

impl Platform {
    /// The platform for an operating system family; on Linux the
    /// distribution follows from the package managers present, and an
    /// unsupported system counts as Linux of another distribution.
    pub fn detect(os: OsFamily, pm: PackageManagers) -> (r: Platform)
        ensures
            r == (match os {
                OsFamily::Linux => Platform::Linux { distro: distro_spec(pm) },
                OsFamily::MacOS => Platform::MacOS,
                OsFamily::Windows => Platform::Windows,
                OsFamily::Unsupported => Platform::Linux { distro: LinuxDistro::Other },
            }),
    {
        match os {
            OsFamily::Linux => Platform::Linux { distro: Self::detect_linux_distro(pm) },
            OsFamily::MacOS => Platform::MacOS,
            OsFamily::Windows => Platform::Windows,
            OsFamily::Unsupported => Platform::Linux { distro: LinuxDistro::Other },
        }
    }

    /// The Linux distribution from the package managers present.
    pub fn detect_linux_distro(pm: PackageManagers) -> (r: LinuxDistro)
        ensures
            r == distro_spec(pm),
    {
        if pm.apt {
            LinuxDistro::Debian
        } else if pm.dnf {
            LinuxDistro::Fedora
        } else if pm.pacman {
            LinuxDistro::Arch
        } else {
            LinuxDistro::Other
        }
    }

    /// The install method for this platform given the package managers
    /// present.
    pub fn install_method(&self, pm: PackageManagers) -> (r: InstallMethod)
        ensures
            r == install_method_spec(*self, pm),
    {
        match self {
            Platform::Linux { distro } => match distro {
                LinuxDistro::Debian => InstallMethod::Apt,
                LinuxDistro::Fedora => InstallMethod::Dnf,
                LinuxDistro::Arch => InstallMethod::Pacman,
                LinuxDistro::Other => InstallMethod::Pip,
            },
            Platform::MacOS => {
                if pm.brew {
                    InstallMethod::Brew
                } else {
                    InstallMethod::Manual
                }
            },
            Platform::Windows => {
                if pm.winget {
                    InstallMethod::Winget
                } else if pm.choco {
                    InstallMethod::Chocolatey
                } else if pm.scoop {
                    InstallMethod::Scoop
                } else {
                    InstallMethod::Pip
                }
            },
        }
    }
}

/// Status of a dependency.
#[derive(Debug, Clone)]
pub struct DependencyStatus {
    pub installed: bool,
    pub version: Option<String>,
    pub install_method: Option<InstallMethod>,
}

impl DependencyStatus {
    /// The status made of a probe: whether the tool ran, the first line it
    /// printed for its version, and the install method of the platform. The
    /// version is kept only for an installed tool, the install method only
    /// for a missing one.
    pub fn check(installed: bool, version: Option<String>, method: InstallMethod) -> (r: Self)
        ensures
            r.installed == installed,
            installed ==> r.version == version && r.install_method is None,
            !installed ==> r.version is None && r.install_method == Some(method),
    {
        DependencyStatus {
            installed,
            version: if installed {
                version
            } else {
                None
            },
            install_method: if installed {
                None
            } else {
                Some(method)
            },
        }
    }
}

} // verus!
