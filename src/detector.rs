use vstd::prelude::*;
use vstd::string::StringExecFns;
use crate::errors::{DomainError, ErrorKind, ErrorView};
use crate::host::{find_executable, home_directory};
use crate::paths::{contains_text, editor_dir_fragment, extensions_dir, extensions_dir_names_editor, extensions_dir_of};
use crate::platform::HostOs;
use crate::strategy::{InstallationDetector, InstallationMethod, IdeType};

verus! {

/// An installation method as a value of the model.
pub enum MethodView {
    Cli(Seq<char>),
    Dir(Seq<char>),
}

impl View for InstallationMethod {
    type V = MethodView;

    open spec fn view(&self) -> MethodView {
        match self {
            InstallationMethod::CliCommand { command_path } => MethodView::Cli(command_path@),
            InstallationMethod::FileSystem { extensions_dir } => MethodView::Dir(extensions_dir@),
        }
    }
}

/// The error for a host whose user's home directory cannot be found.
pub open spec fn home_not_found() -> ErrorView {
    ErrorView { kind: ErrorKind::Directory, detail: "Home directory not found"@ }
}

/// The extensions directory of `ide` on an `os` host, given what the lookup
/// of the user's home directory found.
pub open spec fn resolved_dir(ide: IdeType, os: HostOs, home: Option<Seq<char>>) -> Result<
    Seq<char>,
    ErrorView,
> {
    match home {
        Some(h) => Ok(extensions_dir_of(ide, os, h)),
        None => Err(home_not_found()),
    }
}

/// The method for installing into `ide` on an `os` host, given what the
/// search for the editor's command found and what the lookup of the home
/// directory found.
pub open spec fn method_of(
    ide: IdeType,
    os: HostOs,
    found: Option<Seq<char>>,
    home: Option<Seq<char>>,
) -> Result<MethodView, ErrorView> {
    match found {
        Some(p) => Ok(MethodView::Cli(p)),
        None => match resolved_dir(ide, os, home) {
            Ok(d) => Ok(MethodView::Dir(d)),
            Err(e) => Err(e),
        },
    }
}

/// The view of an optional string.
pub open spec fn opt_view(s: Option<String>) -> Option<Seq<char>> {
    match s {
        Some(t) => Some(t@),
        None => None,
    }
}

/// The view of a detection result.
pub open spec fn method_result_view(r: Result<InstallationMethod, DomainError>) -> Result<
    MethodView,
    ErrorView,
> {
    match r {
        Ok(m) => Ok(m@),
        Err(e) => Err(e@),
    }
}

/// The extensions directory of `ide` on an `os` host, given what the lookup
/// of the user's home directory found.
pub fn resolve_extensions_dir(ide: &IdeType, os: HostOs, home: Option<String>) -> (r: Result<
    String,
    DomainError,
>)
    ensures
        match r {
            Ok(d) => resolved_dir(*ide, os, opt_view(home)) == Ok::<Seq<char>, ErrorView>(d@),
            Err(e) => resolved_dir(*ide, os, opt_view(home)) == Err::<Seq<char>, ErrorView>(e@),
        },
{
    match home {
        Some(h) => Ok(extensions_dir(ide, os, h.as_str())),
        None => Err(DomainError::DirectoryNotFound(String::from_str("Home directory not found"))),
    }
}

/// The method for installing into `ide` on an `os` host: the editor's
/// command where the search found one, else its extensions directory.
pub fn choose_method(ide: &IdeType, os: HostOs, found: Option<String>, home: Option<String>) -> (r:
    Result<InstallationMethod, DomainError>)
    ensures
        method_result_view(r) == method_of(*ide, os, opt_view(found), opt_view(home)),
{
    match found {
        Some(command_path) => Ok(InstallationMethod::CliCommand { command_path }),
        None => match resolve_extensions_dir(ide, os, home) {
            Ok(extensions_dir) => Ok(InstallationMethod::FileSystem { extensions_dir }),
            Err(e) => Err(e),
        },
    }
}

/// Detection prefers the editor's command: where the command is found, the
/// method is to run it from where it was found; where it is not, the method
/// is to unpack into a directory that names the editor.
pub proof fn detection_prefers_command(
    ide: IdeType,
    os: HostOs,
    found: Option<Seq<char>>,
    home: Option<Seq<char>>,
)
    ensures
        found matches Some(p) ==> method_of(ide, os, found, home) == Ok::<MethodView, ErrorView>(
            MethodView::Cli(p),
        ),
        found is None && home is Some ==> (method_of(ide, os, found, home) matches Ok(
            MethodView::Dir(d),
        ) && contains_text(d, editor_dir_fragment(ide))),
        found is None && home is None ==> method_of(ide, os, found, home) == Err::<
            MethodView,
            ErrorView,
        >(home_not_found()),
{
    if let Some(h) = home {
        extensions_dir_names_editor(ide, os, h);
    }
}

/// Finds how to install into an editor on this host: through the editor's
/// command when it is on the search path, else by unpacking into the
/// editor's extensions directory below the user's home directory.
#[derive(Debug, Clone, Copy)]
pub struct SystemInstallationDetector {
    pub os: HostOs,
}

impl SystemInstallationDetector {
    pub fn new(os: HostOs) -> (r: Self)
        ensures
            r.os == os,
    {
        Self { os }
    }

    /// The extensions directory of `ide` below the user's home directory.
    pub fn get_extensions_directory(&self, ide_type: &IdeType) -> (r: Result<String, DomainError>)
        ensures
            match r {
                Ok(d) => exists|h: Seq<char>| d@ == #[trigger] extensions_dir_of(*ide_type, self.os, h),
                Err(e) => e@ == home_not_found(),
            },
    {
        resolve_extensions_dir(ide_type, self.os, home_directory())
    }
}

impl InstallationDetector for SystemInstallationDetector {
    fn detect_method(&self, ide_type: &IdeType) -> (r: Result<InstallationMethod, DomainError>)
        ensures
            exists|found: Option<Seq<char>>, home: Option<Seq<char>>|
                method_result_view(r) == #[trigger] method_of(*ide_type, self.os, found, home),
    {
        let found = find_executable(ide_type.command_name());
        match found {
            Some(_) => choose_method(ide_type, self.os, found, None),
            None => choose_method(ide_type, self.os, None, home_directory()),
        }
    }
}

} // verus!
