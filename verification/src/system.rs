//! The platform that a driver package is looked up and downloaded for:
//! operating system family, architecture, package type and the command
//! that installs a package. Each comes from what the host reports unless
//! the user overrides it.

use vstd::prelude::*;
use crate::error::Error;
use crate::text::same_text;

verus! {

/// The operating system families that the driver package is published
/// for.
#[derive(Debug, Clone, Copy, PartialEq, Eq, Structural)]
pub enum OsFamily {
    Linux,
    MacOSX,
    Windows,
}

impl OsFamily {
    /// The family's name as the vendor writes it in package file names.
    pub open spec fn name_text(self) -> Seq<char> {
        match self {
            OsFamily::Linux => "Linux"@,
            OsFamily::MacOSX => "MacOSX"@,
            OsFamily::Windows => "Windows"@,
        }
    }

    /// The type of package that is installed on this family unless the
    /// user asks for another.
    pub open spec fn default_package_type_text(self) -> Seq<char> {
        match self {
            OsFamily::Linux => "deb"@,
            OsFamily::MacOSX => "pkg"@,
            OsFamily::Windows => "exe"@,
        }
    }

    /// The command that installs a package on this family unless the user
    /// gives another. It is empty on Windows, where the package installs
    /// itself.
    pub open spec fn default_install_command_text(self) -> Seq<char> {
        match self {
            OsFamily::Linux => "sudo dpkg -i"@,
            OsFamily::MacOSX => "sudo installer -target / -pkg"@,
            OsFamily::Windows => ""@,
        }
    }

    pub fn name(self) -> (name: &'static str)
        ensures
            name@ == self.name_text(),
    {
        match self {
            OsFamily::Linux => "Linux",
            OsFamily::MacOSX => "MacOSX",
            OsFamily::Windows => "Windows",
        }
    }

    pub fn default_package_type(self) -> (package_type: &'static str)
        ensures
            package_type@ == self.default_package_type_text(),
    {
        match self {
            OsFamily::Linux => "deb",
            OsFamily::MacOSX => "pkg",
            OsFamily::Windows => "exe",
        }
    }

    pub fn default_install_command(self) -> (command: &'static str)
        ensures
            command@ == self.default_install_command_text(),
    {
        match self {
            OsFamily::Linux => "sudo dpkg -i",
            OsFamily::MacOSX => "sudo installer -target / -pkg",
            OsFamily::Windows => "",
        }
    }
}

/// The family that goes by `name`. The table holds the names under which
/// hosts report themselves, `linux`, `macos` and `windows`, and those
/// that users and the vendor write: `Linux`, `MacOSX` or `macOS`, and
/// `Windows`. No other text names a family, in whatever case.
pub open spec fn named_os_family(name: Seq<char>) -> Option<OsFamily> {
    if name == "linux"@ || name == "Linux"@ {
        Some(OsFamily::Linux)
    } else if name == "macos"@ || name == "macOS"@ || name == "MacOSX"@ {
        Some(OsFamily::MacOSX)
    } else if name == "windows"@ || name == "Windows"@ {
        Some(OsFamily::Windows)
    } else {
        None
    }
}

/// Looks `name` up among the operating systems that the driver package
/// is published for.
pub fn os_family_named(name: &str) -> (family: Option<OsFamily>)
    ensures
        family == named_os_family(name@),
{
    if same_text(name, "linux") || same_text(name, "Linux") {
        Some(OsFamily::Linux)
    } else if same_text(name, "macos") || same_text(name, "macOS") || same_text(name, "MacOSX") {
        Some(OsFamily::MacOSX)
    } else if same_text(name, "windows") || same_text(name, "Windows") {
        Some(OsFamily::Windows)
    } else {
        None
    }
}

/// The vendor's name for the architecture `arch`: `aarch64` is `arm64`
/// and `amd64` is `x86_64`. Every other text stands as it is, and so do
/// these two in any other case of their letters.
pub open spec fn normalized_architecture(arch: Seq<char>) -> Seq<char> {
    if arch == "aarch64"@ {
        "arm64"@
    } else if arch == "amd64"@ {
        "x86_64"@
    } else {
        arch
    }
}

/// Replaces the synonyms that hosts report for an architecture by the
/// vendor's name for it.
pub fn normalize_architecture(arch: &str) -> (normal: String)
    ensures
        normal@ == normalized_architecture(arch@),
{
    if same_text(arch, "aarch64") {
        "arm64".to_owned()
    } else if same_text(arch, "amd64") {
        "x86_64".to_owned()
    } else {
        arch.to_owned()
    }
}

/// The architecture to assume on `os` when the user names none, on a host
/// that reports `host_arch`: on Linux what the host reports; on macOS
/// `universal`, since one package serves every Mac; on Windows `x86_64`
/// where the host reports that, and else no name at all.
pub open spec fn detected_architecture(os: OsFamily, host_arch: Seq<char>) -> Seq<char> {
    match os {
        OsFamily::Linux => host_arch,
        OsFamily::MacOSX => "universal"@,
        OsFamily::Windows => if host_arch == "x86_64"@ {
            "x86_64"@
        } else {
            ""@
        },
    }
}

/// The word by which the user leaves a setting to detection.
pub open spec fn is_auto(setting: Seq<char>) -> bool {
    setting == "auto"@
}

/// What the user asks for. Each field is `auto`, which leaves the setting
/// to detection, or the value to use.
pub struct Overrides {
    pub arch: String,
    pub system: String,
    pub package_type: String,
    pub package_install_cmd: String,
}

pub struct OverridesView {
    pub arch: Seq<char>,
    pub system: Seq<char>,
    pub package_type: Seq<char>,
    pub package_install_cmd: Seq<char>,
}

impl View for Overrides {
    type V = OverridesView;

    open spec fn view(&self) -> OverridesView {
        OverridesView {
            arch: self.arch@,
            system: self.system@,
            package_type: self.package_type@,
            package_install_cmd: self.package_install_cmd@,
        }
    }
}

/// What the host reports of itself.
pub struct HostFacts {
    pub os: String,
    pub arch: String,
}

pub struct HostFactsView {
    pub os: Seq<char>,
    pub arch: Seq<char>,
}

impl View for HostFacts {
    type V = HostFactsView;

    open spec fn view(&self) -> HostFactsView {
        HostFactsView { os: self.os@, arch: self.arch@ }
    }
}

/// The platform of one run. It is made once, by `get_system_info`, and
/// never changed.
#[derive(Debug, Clone, PartialEq, Eq)]
pub struct SystemInfo {
    architecture: String,
    os_family: OsFamily,
    package_type: String,
    package_install_command: String,
}

pub struct SystemInfoView {
    pub architecture: Seq<char>,
    pub os_family: OsFamily,
    pub package_type: Seq<char>,
    pub package_install_command: Seq<char>,
}

impl View for SystemInfo {
    type V = SystemInfoView;

    closed spec fn view(&self) -> SystemInfoView {
        SystemInfoView {
            architecture: self.architecture@,
            os_family: self.os_family,
            package_type: self.package_type@,
            package_install_command: self.package_install_command@,
        }
    }
}

impl SystemInfo {
    pub fn architecture(&self) -> (architecture: &str)
        ensures
            architecture@ == self@.architecture,
    {
        self.architecture.as_str()
    }

    pub fn os_family(&self) -> (os_family: OsFamily)
        ensures
            os_family == self@.os_family,
    {
        self.os_family
    }

    pub fn package_type(&self) -> (package_type: &str)
        ensures
            package_type@ == self@.package_type,
    {
        self.package_type.as_str()
    }

    pub fn package_install_command(&self) -> (command: &str)
        ensures
            command@ == self@.package_install_command,
    {
        self.package_install_command.as_str()
    }
}

/// The platform that follows from what the user asks for and what the
/// host reports, or `None` where the operating system is not one that the
/// driver package is published for.
///
/// The operating system is the user's, or the host's where the user
/// writes `auto`. It decides the family, and the family decides what is
/// assumed for every other setting that the user leaves to detection. A
/// setting that the user gives is taken as it is, on every family; the
/// architecture's synonyms are replaced either way.
pub open spec fn resolved(overrides: OverridesView, host: HostFactsView) -> Option<SystemInfoView> {
    let system = if is_auto(overrides.system) {
        host.os
    } else {
        overrides.system
    };
    match named_os_family(system) {
        None => None,
        Some(os) => Some(
            SystemInfoView {
                architecture: normalized_architecture(
                    if is_auto(overrides.arch) {
                        detected_architecture(os, host.arch)
                    } else {
                        overrides.arch
                    },
                ),
                os_family: os,
                package_type: if is_auto(overrides.package_type) {
                    os.default_package_type_text()
                } else {
                    overrides.package_type
                },
                package_install_command: if is_auto(overrides.package_install_cmd) {
                    os.default_install_command_text()
                } else {
                    overrides.package_install_cmd
                },
            },
        ),
    }
}

/// Works out the platform of this run from what the user asks for and
/// what the host reports. Fails with `UnsupportedSystem` exactly where the
/// operating system is none of Linux, macOS and Windows.
pub fn get_system_info(overrides: &Overrides, host: &HostFacts) -> (r: Result<SystemInfo, Error>)
    ensures
        match resolved(overrides@, host@) {
            Some(info) => r matches Ok(found) && found@ == info,
            None => r matches Err(e) && e == Error::UnsupportedSystem,
        },
{
    let system = if same_text(overrides.system.as_str(), "auto") {
        host.os.as_str()
    } else {
        overrides.system.as_str()
    };
    let os_family = match os_family_named(system) {
        Some(os_family) => os_family,
        None => {
            return Err(Error::UnsupportedSystem);
        },
    };
    let architecture = if same_text(overrides.arch.as_str(), "auto") {
        match os_family {
            OsFamily::Linux => normalize_architecture(host.arch.as_str()),
            OsFamily::MacOSX => normalize_architecture("universal"),
            OsFamily::Windows => if same_text(host.arch.as_str(), "x86_64") {
                normalize_architecture("x86_64")
            } else {
                normalize_architecture("")
            },
        }
    } else {
        normalize_architecture(overrides.arch.as_str())
    };
    let package_type = if same_text(overrides.package_type.as_str(), "auto") {
        os_family.default_package_type().to_owned()
    } else {
        overrides.package_type.clone()
    };
    let package_install_command = if same_text(overrides.package_install_cmd.as_str(), "auto") {
        os_family.default_install_command().to_owned()
    } else {
        overrides.package_install_cmd.clone()
    };
    Ok(SystemInfo { architecture, os_family, package_type, package_install_command })
}

} // verus!
