use vstd::prelude::*;
use crate::errors::DomainError;

verus! {

/// The editors that extensions can be installed into.
#[derive(Debug, Clone, Copy, PartialEq, Eq, Structural)]
pub enum IdeType {
    VsCode,
    Cursor,
}

/// The name of an editor's command-line tool.
pub open spec fn command_name_of(ide: IdeType) -> Seq<char> {
    match ide {
        IdeType::VsCode => "code"@,
        IdeType::Cursor => "cursor"@,
    }
}

/// The name under which an editor is shown to a user.
pub open spec fn display_name_of(ide: IdeType) -> Seq<char> {
    match ide {
        IdeType::VsCode => "VSCode"@,
        IdeType::Cursor => "Cursor"@,
    }
}

/// The editor that an install aims at, from the flag that asks for the fork.
pub open spec fn ide_for_flag(use_cursor: bool) -> IdeType {
    if use_cursor {
        IdeType::Cursor
    } else {
        IdeType::VsCode
    }
}

impl IdeType {
    /// Returns the CLI command name for the IDE.
    pub fn command_name(&self) -> (r: &'static str)
        ensures
            r@ == command_name_of(*self),
    {
        match self {
            IdeType::VsCode => "code",
            IdeType::Cursor => "cursor",
        }
    }

    /// Returns the display name for the IDE.
    pub fn display_name(&self) -> (r: &'static str)
        ensures
            r@ == display_name_of(*self),
    {
        match self {
            IdeType::VsCode => "VSCode",
            IdeType::Cursor => "Cursor",
        }
    }

    /// The editor that an install aims at: the fork when `use_cursor` is set.
    pub fn for_flag(use_cursor: bool) -> (r: IdeType)
        ensures
            r == ide_for_flag(use_cursor),
    {
        if use_cursor {
            IdeType::Cursor
        } else {
            IdeType::VsCode
        }
    }
}

/// How an extension gets into an editor.
#[derive(Debug, Clone, PartialEq, Eq)]
pub enum InstallationMethod {
    /// Hand the package to the editor's command-line tool found at `command_path`.
    CliCommand { command_path: String },
    /// Unpack the package into a subdirectory of `extensions_dir`.
    FileSystem { extensions_dir: String },
}

/// An editor together with the way an extension gets into it.
#[derive(Debug, Clone)]
pub struct InstallationStrategy {
    pub ide_type: IdeType,
    pub method: InstallationMethod,
}

impl InstallationStrategy {
    pub fn new(ide_type: IdeType, method: InstallationMethod) -> (r: Self)
        ensures
            r.ide_type == ide_type,
            r.method == method,
    {
        Self { ide_type, method }
    }
}

/// Finds out how an extension can be installed into an editor on this host.
pub trait InstallationDetector {
    /// Detects the available installation method for the specified IDE.
    fn detect_method(&self, ide_type: &IdeType) -> Result<InstallationMethod, DomainError>;
}

/// Carries out an installation by a given strategy.
pub trait InstallationExecutor {
    /// Installs the package `vsix_data` as `extension_id` by `strategy`.
    fn execute(
        &self,
        strategy: &InstallationStrategy,
        extension_id: &str,
        vsix_data: &[u8],
    ) -> Result<(), DomainError>;
}

} // verus!
