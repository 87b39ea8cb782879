use vstd::prelude::*;
use vstd::slice::slice_to_vec;
use vstd::string::StringExecFns;
use crate::archive::{unpack_actions, unpacked};
use crate::detector::{home_not_found, resolve_extensions_dir};
use crate::errors::{DomainError, ErrorKind, ErrorView};
use crate::host::home_directory;
use crate::paths::{child_of, child_path, extensions_dir_of};
use crate::platform::HostOs;
use crate::session::{
    cli_failure_detail, ActionView, HostAction, InstallSession, OutcomeView,
    SessionView, StepView,
};
use crate::strategy::{IdeType, InstallationMethod, InstallationStrategy};
use crate::text::{joined, replace_char, replaced};

verus! {

/// The name of the file that a package is saved under for an editor's
/// command: the identifier with its separators made dashes, then `.vsix`.
pub open spec fn package_file_name(extension_id: Seq<char>) -> Seq<char> {
    replaced(extension_id, '.', '-') + ".vsix"@
}

/// Where a package is saved for an editor's command, in `temp_dir`.
pub open spec fn package_path_of(temp_dir: Seq<char>, extension_id: Seq<char>) -> Seq<char> {
    child_of(temp_dir, package_file_name(extension_id))
}

/// Where the package of `extension_id` is saved for an editor's command,
/// in the directory `temp_dir`.
pub fn temp_package_path(temp_dir: &str, extension_id: &str) -> (r: String)
    ensures
        r@ == package_path_of(temp_dir@, extension_id@),
{
    let safe = replace_char(extension_id, '.', '-');
    let name = joined(safe.as_str(), ".vsix");
    child_path(temp_dir, name.as_str())
}

/// What installing through an editor's command takes: save the package
/// and run the command on it.
pub open spec fn cli_plan(command: Seq<char>, package: Seq<char>, data: Seq<u8>) -> Seq<ActionView> {
    seq![
        ActionView::WriteFile(package, data),
        ActionView::RunCommand(command, seq!["--install-extension"@, package]),
    ]
}

/// What follows an install through an editor's command, however it went:
/// the saved package is removed.
pub open spec fn cli_cleanup(package: Seq<char>) -> Seq<ActionView> {
    seq![ActionView::RemoveFile(package)]
}

/// What installing by unpacking takes before the package itself: the
/// extensions directory exists, and the extension's subdirectory is
/// replaced by an empty one.
pub open spec fn filesystem_prelude(extensions_dir: Seq<char>, extension_id: Seq<char>) -> Seq<
    ActionView,
> {
    seq![
        ActionView::CreateDirAll(extensions_dir),
        ActionView::RemoveTree(child_of(extensions_dir, extension_id)),
        ActionView::CreateDirAll(child_of(extensions_dir, extension_id)),
    ]
}

/// The kind of a result, without the error's text.
pub open spec fn end_kind(r: Result<(), ErrorView>) -> Result<(), ErrorKind> {
    match r {
        Ok(()) => Ok(()),
        Err(e) => Err(e.kind),
    }
}

/// Whether `s` is the session that installs the archive `data` as
/// `extension_id` by unpacking it into `extensions_dir`.
pub open spec fn is_filesystem_session(
    s: SessionView,
    extensions_dir: Seq<char>,
    extension_id: Seq<char>,
    data: Seq<u8>,
) -> bool {
    &&& !s.tolerant
    &&& s.failure is None
    &&& s.cleanup.len() == 0
    &&& s.pending.len() >= 3
    &&& s.pending.subrange(0, 3) == filesystem_prelude(extensions_dir, extension_id)
    &&& unpacked(
        data,
        child_of(extensions_dir, extension_id),
        s.pending.subrange(3, s.pending.len() as int),
        end_kind(s.outcome),
    )
}

/// The session that installs the archive `data` as `extension_id` by
/// unpacking it into its own subdirectory of `extensions_dir`, replacing
/// whatever an earlier installation left there.
pub fn filesystem_session(extensions_dir: &str, extension_id: &str, data: &[u8]) -> (r:
    InstallSession)
    ensures
        is_filesystem_session(r@, extensions_dir@, extension_id@, data@),
{
    let target = child_path(extensions_dir, extension_id);
    let mut actions: Vec<HostAction> = Vec::new();
    actions.push(HostAction::CreateDirAll { path: String::from_str(extensions_dir) });
    actions.push(HostAction::RemoveTree { path: target.clone() });
    actions.push(HostAction::CreateDirAll { path: target.clone() });
    let ghost prelude = actions@.map_values(|a: HostAction| a@);
    assert(prelude =~= filesystem_prelude(extensions_dir@, extension_id@));
    let (mut unpacking, end) = unpack_actions(data, target.as_str());
    let ghost rest = unpacking@.map_values(|a: HostAction| a@);
    actions.append(&mut unpacking);
    let r = InstallSession::planned(actions, Vec::new(), end);
    assert(r@.cleanup =~= Seq::<ActionView>::empty());
    assert(r@.pending =~= prelude + rest);
    assert(r@.pending.subrange(0, 3) =~= prelude);
    assert(r@.pending.subrange(3, r@.pending.len() as int) =~= rest);
    r
}

/// The session that installs `data` as `extension_id` through the editor
/// command at `command`, with the package saved in `temp_dir` meanwhile.
pub fn cli_session(command: &str, extension_id: &str, data: &[u8], temp_dir: &str) -> (r:
    InstallSession)
    ensures
        r@ == SessionView::planned(
            cli_plan(command@, package_path_of(temp_dir@, extension_id@), data@),
            cli_cleanup(package_path_of(temp_dir@, extension_id@)),
            Ok(()),
        ),
{
    let package = temp_package_path(temp_dir, extension_id);
    let mut args: Vec<String> = Vec::new();
    args.push(String::from_str("--install-extension"));
    args.push(package.clone());
    let ghost arg_view = args@.map_values(|a: String| a@);
    assert(arg_view =~= seq!["--install-extension"@, package@]);
    let mut actions: Vec<HostAction> = Vec::new();
    actions.push(HostAction::WriteFile { path: package.clone(), contents: slice_to_vec(data) });
    actions.push(HostAction::RunCommand { program: String::from_str(command), args });
    let mut cleanup: Vec<HostAction> = Vec::new();
    cleanup.push(HostAction::RemoveFile { path: package });
    let r = InstallSession::planned(actions, cleanup, Ok(()));
    assert(r@.pending =~= cli_plan(command@, package_path_of(temp_dir@, extension_id@), data@));
    assert(r@.cleanup =~= cli_cleanup(package_path_of(temp_dir@, extension_id@)));
    r
}

/// Carries out installations: through the editor's command, or by unpacking
/// the package into the editor's extensions directory.
#[derive(Debug, Clone, Copy)]
pub struct SystemInstallationExecutor;

impl SystemInstallationExecutor {
    pub fn new() -> Self {
        Self
    }

    /// The session that installs `vsix_data` as `extension_id` by `strategy`;
    /// an editor's command gets the package from a file in `temp_dir`.
    pub fn plan(
        &self,
        strategy: &InstallationStrategy,
        extension_id: &str,
        vsix_data: &[u8],
        temp_dir: &str,
    ) -> (r: InstallSession)
        ensures
            match strategy.method {
                InstallationMethod::CliCommand { command_path } => r@ == SessionView::planned(
                    cli_plan(
                        command_path@,
                        package_path_of(temp_dir@, extension_id@),
                        vsix_data@,
                    ),
                    cli_cleanup(package_path_of(temp_dir@, extension_id@)),
                    Ok(()),
                ),
                InstallationMethod::FileSystem { extensions_dir } => is_filesystem_session(
                    r@,
                    extensions_dir@,
                    extension_id@,
                    vsix_data@,
                ),
            },
    {
        match &strategy.method {
            InstallationMethod::CliCommand { command_path } => cli_session(
                command_path.as_str(),
                extension_id,
                vsix_data,
                temp_dir,
            ),
            InstallationMethod::FileSystem { extensions_dir } => filesystem_session(
                extensions_dir.as_str(),
                extension_id,
                vsix_data,
            ),
        }
    }
}

/// When the editor's command exits unsuccessfully, the installation fails
/// with the text the command wrote to its error stream, and the saved
/// package is still removed, whether or not the removal works.
pub proof fn failed_command_reports_and_cleans_up(
    command: Seq<char>,
    package: Seq<char>,
    data: Seq<u8>,
    stderr: Seq<char>,
    removal: OutcomeView,
)
    ensures
        ({
            let s0 = SessionView::planned(
                cli_plan(command, package, data),
                cli_cleanup(package),
                Ok(()),
            );
            let (s1, a1) = s0.emit();
            let (s2, a2) = s1.absorb(OutcomeView::Done).emit();
            let (s3, a3) = s2.absorb(OutcomeView::Exited(false, stderr)).emit();
            let (s4, a4) = s3.absorb(removal).emit();
            &&& a1 == StepView::Perform(ActionView::WriteFile(package, data))
            &&& a2 == StepView::Perform(
                ActionView::RunCommand(command, seq!["--install-extension"@, package]),
            )
            &&& a3 == StepView::Perform(ActionView::RemoveFile(package))
            &&& a4 == StepView::Finish(
                Err(ErrorView { kind: ErrorKind::Installation, detail: cli_failure_detail(stderr) }),
            )
        }),
{
    let s0 = SessionView::planned(cli_plan(command, package, data), cli_cleanup(package), Ok(()));
    let (s1, a1) = s0.emit();
    assert(s1.pending =~= cli_plan(command, package, data).drop_first());
    let (s2, a2) = s1.absorb(OutcomeView::Done).emit();
    assert(s2.pending.len() == 0);
    let (s3, a3) = s2.absorb(OutcomeView::Exited(false, stderr)).emit();
    assert(s3.cleanup.len() == 0);
}

/// When the editor's command cannot be started, the installation fails with
/// the host's reason, and the saved package is still removed, whether or
/// not the removal works.
pub proof fn unstartable_command_still_cleans_up(
    command: Seq<char>,
    package: Seq<char>,
    data: Seq<u8>,
    reason: Seq<char>,
    removal: OutcomeView,
)
    ensures
        ({
            let s0 = SessionView::planned(
                cli_plan(command, package, data),
                cli_cleanup(package),
                Ok(()),
            );
            let (s1, a1) = s0.emit();
            let (s2, a2) = s1.absorb(OutcomeView::Done).emit();
            let (s3, a3) = s2.absorb(OutcomeView::Failed(reason)).emit();
            let (s4, a4) = s3.absorb(removal).emit();
            &&& a2 == StepView::Perform(
                ActionView::RunCommand(command, seq!["--install-extension"@, package]),
            )
            &&& a3 == StepView::Perform(ActionView::RemoveFile(package))
            &&& a4 == StepView::Finish(Err(ErrorView { kind: ErrorKind::Io, detail: reason }))
        }),
{
    let s0 = SessionView::planned(cli_plan(command, package, data), cli_cleanup(package), Ok(()));
    let (s1, a1) = s0.emit();
    assert(s1.pending =~= cli_plan(command, package, data).drop_first());
    let (s2, a2) = s1.absorb(OutcomeView::Done).emit();
    let (s3, a3) = s2.absorb(OutcomeView::Failed(reason)).emit();
    assert(s3.cleanup.len() == 0);
}

/// When the package cannot be saved, the installation fails with the host's
/// reason; the command is not run, and whatever was saved is removed.
pub proof fn unsaved_package_is_cleaned_up(
    command: Seq<char>,
    package: Seq<char>,
    data: Seq<u8>,
    reason: Seq<char>,
    removal: OutcomeView,
)
    ensures
        ({
            let s0 = SessionView::planned(
                cli_plan(command, package, data),
                cli_cleanup(package),
                Ok(()),
            );
            let (s1, a1) = s0.emit();
            let (s2, a2) = s1.absorb(OutcomeView::Failed(reason)).emit();
            let (s3, a3) = s2.absorb(removal).emit();
            &&& a1 == StepView::Perform(ActionView::WriteFile(package, data))
            &&& a2 == StepView::Perform(ActionView::RemoveFile(package))
            &&& a3 == StepView::Finish(Err(ErrorView { kind: ErrorKind::Io, detail: reason }))
        }),
{
    let s0 = SessionView::planned(cli_plan(command, package, data), cli_cleanup(package), Ok(()));
    let (s1, a1) = s0.emit();
    let (s2, a2) = s1.absorb(OutcomeView::Failed(reason)).emit();
    assert(s2.cleanup.len() == 0);
}

/// Installs by unpacking packages into the editors' extensions directories,
/// below the user's home directory.
#[derive(Debug, Clone, Copy)]
pub struct FileSystemRepository {
    pub os: HostOs,
}

impl FileSystemRepository {
    pub fn new(os: HostOs) -> (r: Self)
        ensures
            r.os == os,
    {
        Self { os }
    }

    /// The extensions directory of `ide` below the user's home directory.
    pub fn extensions_dir(&self, ide: &IdeType) -> (r: Result<String, DomainError>)
        ensures
            match r {
                Ok(d) => exists|h: Seq<char>| d@ == #[trigger] extensions_dir_of(*ide, self.os, h),
                Err(e) => e@ == home_not_found(),
            },
    {
        resolve_extensions_dir(ide, self.os, home_directory())
    }

    /// Gets the `VSCode` extensions directory path.
    pub fn get_vscode_extensions_dir(&self) -> (r: Result<String, DomainError>)
        ensures
            match r {
                Ok(d) => exists|h: Seq<char>| d@ == #[trigger] extensions_dir_of(
                    IdeType::VsCode,
                    self.os,
                    h,
                ),
                Err(e) => e@ == home_not_found(),
            },
    {
        self.extensions_dir(&IdeType::VsCode)
    }

    /// Gets the Cursor extensions directory path.
    pub fn get_cursor_extensions_dir(&self) -> (r: Result<String, DomainError>)
        ensures
            match r {
                Ok(d) => exists|h: Seq<char>| d@ == #[trigger] extensions_dir_of(
                    IdeType::Cursor,
                    self.os,
                    h,
                ),
                Err(e) => e@ == home_not_found(),
            },
    {
        self.extensions_dir(&IdeType::Cursor)
    }

    /// The session that installs `vsix_data` as `extension_id` into `ide` by
    /// unpacking it below the editor's extensions directory.
    pub fn install_session(&self, ide: &IdeType, vsix_data: &[u8], extension_id: &str) -> (r:
        Result<InstallSession, DomainError>)
        ensures
            match r {
                Ok(s) => exists|h: Seq<char>|
                    is_filesystem_session(
                        s@,
                        #[trigger] extensions_dir_of(*ide, self.os, h),
                        extension_id@,
                        vsix_data@,
                    ),
                Err(e) => e@ == home_not_found(),
            },
    {
        match self.extensions_dir(ide) {
            Ok(dir) => Ok(filesystem_session(dir.as_str(), extension_id, vsix_data)),
            Err(e) => Err(e),
        }
    }
}

} // verus!
