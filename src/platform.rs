use vstd::prelude::*;
use vstd::string::StringExecFns;
use crate::text::same_text;

verus! {

/// The operating-system families whose directory layouts differ.
#[derive(Debug, Clone, Copy, PartialEq, Eq, Structural)]
pub enum HostOs {
    Windows,
    MacOs,
    /// Linux and every other host, which follow the XDG layout.
    Linux,
}

/// The family of the host whose `std::env::consts::OS` is `os`.
pub open spec fn host_os_of(os: Seq<char>) -> HostOs {
    if os == "windows"@ {
        HostOs::Windows
    } else if os == "macos"@ {
        HostOs::MacOs
    } else {
        HostOs::Linux
    }
}

impl HostOs {
    /// The family of a host, from the name that `std::env::consts::OS` gives it.
    pub fn from_name(os: &str) -> (r: HostOs)
        ensures
            r == host_os_of(os@),
    {
        if same_text(os, "windows") {
            HostOs::Windows
        } else if same_text(os, "macos") {
            HostOs::MacOs
        } else {
            HostOs::Linux
        }
    }
}

/// The target platforms that the marketplace builds packages for.
#[derive(Debug, Clone, Copy, PartialEq, Eq, Structural)]
pub enum Architecture {
    Win32X64,
    Win32Arm64,
    DarwinX64,
    DarwinArm64,
    LinuxX64,
    LinuxArm64,
    LinuxArmhf,
    AlpineX64,
    AlpineArm64,
    Universal,
}

/// The marketplace's name of a platform; none for a universal package.
pub open spec fn platform_name_of(a: Architecture) -> Option<Seq<char>> {
    match a {
        Architecture::Win32X64 => Some("win32-x64"@),
        Architecture::Win32Arm64 => Some("win32-arm64"@),
        Architecture::DarwinX64 => Some("darwin-x64"@),
        Architecture::DarwinArm64 => Some("darwin-arm64"@),
        Architecture::LinuxX64 => Some("linux-x64"@),
        Architecture::LinuxArm64 => Some("linux-arm64"@),
        Architecture::LinuxArmhf => Some("linux-armhf"@),
        Architecture::AlpineX64 => Some("alpine-x64"@),
        Architecture::AlpineArm64 => Some("alpine-arm64"@),
        Architecture::Universal => None,
    }
}

/// The platform of a host with the given `std::env::consts::OS` and `ARCH`.
pub open spec fn architecture_of(os: Seq<char>, arch: Seq<char>) -> Architecture {
    if os == "windows"@ && arch == "x86_64"@ {
        Architecture::Win32X64
    } else if os == "windows"@ && arch == "aarch64"@ {
        Architecture::Win32Arm64
    } else if os == "macos"@ && arch == "x86_64"@ {
        Architecture::DarwinX64
    } else if os == "macos"@ && arch == "aarch64"@ {
        Architecture::DarwinArm64
    } else if os == "linux"@ && arch == "x86_64"@ {
        Architecture::LinuxX64
    } else if os == "linux"@ && arch == "aarch64"@ {
        Architecture::LinuxArm64
    } else if os == "linux"@ && arch == "arm"@ {
        Architecture::LinuxArmhf
    } else {
        Architecture::Universal
    }
}

impl Architecture {
    /// The platform of a host, from the names that `std::env::consts::OS`
    /// and `std::env::consts::ARCH` give it.
    pub fn from_host(os: &str, arch: &str) -> (r: Architecture)
        ensures
            r == architecture_of(os@, arch@),
    {
        let windows = same_text(os, "windows");
        let macos = same_text(os, "macos");
        let linux = same_text(os, "linux");
        let x64 = same_text(arch, "x86_64");
        let arm64 = same_text(arch, "aarch64");
        let arm = same_text(arch, "arm");
        if windows && x64 {
            Architecture::Win32X64
        } else if windows && arm64 {
            Architecture::Win32Arm64
        } else if macos && x64 {
            Architecture::DarwinX64
        } else if macos && arm64 {
            Architecture::DarwinArm64
        } else if linux && x64 {
            Architecture::LinuxX64
        } else if linux && arm64 {
            Architecture::LinuxArm64
        } else if linux && arm {
            Architecture::LinuxArmhf
        } else {
            Architecture::Universal
        }
    }

    /// The marketplace's name of this platform, or none for a universal package.
    pub fn to_platform_string(&self) -> (r: Option<&'static str>)
        ensures
            match r {
                Some(s) => platform_name_of(*self) == Some(s@),
                None => platform_name_of(*self) is None,
            },
    {
        match self {
            Architecture::Win32X64 => Some("win32-x64"),
            Architecture::Win32Arm64 => Some("win32-arm64"),
            Architecture::DarwinX64 => Some("darwin-x64"),
            Architecture::DarwinArm64 => Some("darwin-arm64"),
            Architecture::LinuxX64 => Some("linux-x64"),
            Architecture::LinuxArm64 => Some("linux-arm64"),
            Architecture::LinuxArmhf => Some("linux-armhf"),
            Architecture::AlpineX64 => Some("alpine-x64"),
            Architecture::AlpineArm64 => Some("alpine-arm64"),
            Architecture::Universal => None,
        }
    }

    /// The platform's name as shown to a user: its marketplace name, or
    /// `universal`.
    pub fn to_string(&self) -> (r: String)
        ensures
            r@ == match platform_name_of(*self) {
                Some(s) => s,
                None => "universal"@,
            },
    {
        match self.to_platform_string() {
            Some(s) => String::from_str(s),
            None => String::from_str("universal"),
        }
    }
}

} // verus!
