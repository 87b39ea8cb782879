use vstd::prelude::*;
use vstd::string::StringExecFns;
use crate::entities::SearchResult;
use crate::errors::DomainError;
use crate::flow::{
    borrowed_text, direct_rank, empty_query_error, install_rank, invalid_id_error,
    next_direct_install_step, next_install_step, next_search_step, owned_text, search_rank,
    DirectInstallStage, InstallAnswer, InstallQuery, InstallStage, InstallStep, SearchStage,
    SearchStep,
};
use crate::identifier::{is_valid_extension_id, validate_extension_id};
use crate::platform::Architecture;
use crate::repositories::{ExtensionRepository, InstallationRepository};
use crate::strategy::{InstallationDetector, InstallationExecutor};
use crate::text::is_blank_text;

verus! {

/// Installs an extension by whichever method the detector finds: it checks
/// the identifier, detects the method, fetches the extension and its
/// package from the marketplace and hands them to the executor, stopping
/// at the first failure and passing it on unchanged.
pub struct ImprovedInstallExtensionUseCase<
    E: ExtensionRepository,
    D: InstallationDetector,
    X: InstallationExecutor,
> {
    extension_repo: E,
    detector: D,
    executor: X,
}

impl<E: ExtensionRepository, D: InstallationDetector, X: InstallationExecutor> ImprovedInstallExtensionUseCase<
    E,
    D,
    X,
> {
    /// The marketplace that this use case asks.
    pub closed spec fn extension_repo(&self) -> E {
        self.extension_repo
    }

    /// The detector that this use case asks.
    pub closed spec fn detector(&self) -> D {
        self.detector
    }

    /// The executor that this use case hands installations to.
    pub closed spec fn executor(&self) -> X {
        self.executor
    }

    pub fn new(extension_repo: E, detector: D, executor: X) -> (r: Self)
        ensures
            r.extension_repo() == extension_repo,
            r.detector() == detector,
            r.executor() == executor,
    {
        Self { extension_repo, detector, executor }
    }

    /// Installs the extension `extension_id` into the fork editor when
    /// `use_cursor` is set, else into the primary one. A malformed
    /// identifier is refused before any collaborator is asked anything.
    /// Each step is decided by `next_install_step`.
    pub fn execute(&self, extension_id: &str, use_cursor: bool, marketplace_url: Option<&str>) -> (r:
        Result<(), DomainError>)
        ensures
            !is_valid_extension_id(extension_id@) ==> r is Err && r->Err_0@ == invalid_id_error(),
            r is Ok ==> is_valid_extension_id(extension_id@),
    {
        let start = InstallStage::Start {
            extension_id: String::from_str(extension_id),
            use_cursor,
            marketplace_url: owned_text(marketplace_url),
        };
        let (mut stage, mut step) = next_install_step(start, InstallAnswer::Begin);
        loop
            invariant
                !is_valid_extension_id(extension_id@) ==> (step matches InstallStep::Finish(Err(e))
                    && e@ == invalid_id_error()),
                step is Ask ==> install_rank(stage) > 0,
            decreases install_rank(stage),
        {
            let query = match step {
                InstallStep::Finish(result) => return result,
                InstallStep::Ask(query) => query,
            };
            let answer = match query {
                InstallQuery::DetectMethod { ide_type } => InstallAnswer::Detected(
                    self.detector.detect_method(&ide_type),
                ),
                InstallQuery::GetExtension { extension_id, marketplace_url } => InstallAnswer::Fetched(
                    self.extension_repo.get_extension(
                        extension_id.as_str(),
                        borrowed_text(&marketplace_url),
                    ),
                ),
                InstallQuery::Download { extension, target_platform } => InstallAnswer::Downloaded(
                    self.extension_repo.download(&extension, borrowed_text(&target_platform)),
                ),
                InstallQuery::Execute { strategy, extension_id, vsix_data } => InstallAnswer::Installed(
                    self.executor.execute(&strategy, extension_id.as_str(), vsix_data.as_slice()),
                ),
                InstallQuery::InstallCursor { .. } | InstallQuery::InstallVscode { .. } => {
                    InstallAnswer::Begin
                },
            };
            let (next_stage, next_step) = next_install_step(stage, answer);
            stage = next_stage;
            step = next_step;
        }
    }

    /// Checks that `extension_id` is `publisher.name`.
    pub fn validate_extension_id(&self, extension_id: &str) -> (r: Result<(), DomainError>)
        ensures
            r is Ok <==> is_valid_extension_id(extension_id@),
            r is Err ==> r->Err_0@ == invalid_id_error(),
    {
        validate_extension_id(extension_id)
    }
}

/// Searches the marketplace.
pub struct SearchExtensionUseCase<R: ExtensionRepository> {
    repository: R,
}

impl<R: ExtensionRepository> SearchExtensionUseCase<R> {
    /// The marketplace that this use case asks.
    pub closed spec fn repository(&self) -> R {
        self.repository
    }

    pub fn new(repository: R) -> (r: Self)
        ensures
            r.repository() == repository,
    {
        Self { repository }
    }

    /// The extensions that match `query`; a query of nothing but white
    /// space is refused before the marketplace is asked. Each step is
    /// decided by `next_search_step`.
    pub fn execute(&self, query: &str, marketplace_url: Option<&str>) -> (r: Result<
        SearchResult,
        DomainError,
    >)
        ensures
            is_blank_text(query@) ==> r is Err && r->Err_0@ == empty_query_error(),
            r is Ok ==> !is_blank_text(query@),
    {
        let start = SearchStage::Start {
            query: String::from_str(query),
            marketplace_url: owned_text(marketplace_url),
        };
        let (mut stage, mut step) = next_search_step(start, None);
        loop
            invariant
                is_blank_text(query@) ==> (step matches SearchStep::Finish(Err(e)) && e@
                    == empty_query_error()),
                step is Ask ==> search_rank(stage) > 0,
            decreases search_rank(stage),
        {
            let (query, marketplace_url) = match step {
                SearchStep::Finish(result) => return result,
                SearchStep::Ask { query, marketplace_url } => (query, marketplace_url),
            };
            let answer = self.repository.search(query.as_str(), borrowed_text(&marketplace_url));
            let (next_stage, next_step) = next_search_step(stage, Some(answer));
            stage = next_stage;
            step = next_step;
        }
    }
}

/// Installs an extension by unpacking it straight into the editor's
/// extensions directory, with the package built for this host's platform.
pub struct InstallExtensionUseCase<E: ExtensionRepository, I: InstallationRepository> {
    extension_repo: E,
    installation_repo: I,
    architecture: Architecture,
}

impl<E: ExtensionRepository, I: InstallationRepository> InstallExtensionUseCase<E, I> {
    /// The marketplace that this use case asks.
    pub closed spec fn extension_repo(&self) -> E {
        self.extension_repo
    }

    /// The repository that this use case installs through.
    pub closed spec fn installation_repo(&self) -> I {
        self.installation_repo
    }

    /// The platform that this use case asks packages for.
    pub closed spec fn architecture(&self) -> Architecture {
        self.architecture
    }

    /// A use case for a host of the platform `architecture`.
    pub fn new(extension_repo: E, installation_repo: I, architecture: Architecture) -> (r: Self)
        ensures
            r.extension_repo() == extension_repo,
            r.installation_repo() == installation_repo,
            r.architecture() == architecture,
    {
        Self { extension_repo, installation_repo, architecture }
    }

    /// Installs the extension `extension_id` into the fork editor when
    /// `use_cursor` is set, else into the primary one. A malformed
    /// identifier is refused before any collaborator is asked anything.
    /// Each step is decided by `next_direct_install_step`.
    pub fn execute(&self, extension_id: &str, use_cursor: bool, marketplace_url: Option<&str>) -> (r:
        Result<(), DomainError>)
        ensures
            !is_valid_extension_id(extension_id@) ==> r is Err && r->Err_0@ == invalid_id_error(),
            r is Ok ==> is_valid_extension_id(extension_id@),
    {
        let start = DirectInstallStage::Start {
            extension_id: String::from_str(extension_id),
            use_cursor,
            marketplace_url: owned_text(marketplace_url),
            architecture: self.architecture,
        };
        let (mut stage, mut step) = next_direct_install_step(start, InstallAnswer::Begin);
        loop
            invariant
                !is_valid_extension_id(extension_id@) ==> (step matches InstallStep::Finish(Err(e))
                    && e@ == invalid_id_error()),
                step is Ask ==> direct_rank(stage) > 0,
            decreases direct_rank(stage),
        {
            let query = match step {
                InstallStep::Finish(result) => return result,
                InstallStep::Ask(query) => query,
            };
            let answer = match query {
                InstallQuery::GetExtension { extension_id, marketplace_url } => InstallAnswer::Fetched(
                    self.extension_repo.get_extension(
                        extension_id.as_str(),
                        borrowed_text(&marketplace_url),
                    ),
                ),
                InstallQuery::Download { extension, target_platform } => InstallAnswer::Downloaded(
                    self.extension_repo.download(&extension, borrowed_text(&target_platform)),
                ),
                InstallQuery::InstallCursor { vsix_data, extension_id } => InstallAnswer::Installed(
                    self.installation_repo.install_cursor(vsix_data.as_slice(), extension_id.as_str()),
                ),
                InstallQuery::InstallVscode { vsix_data, extension_id } => InstallAnswer::Installed(
                    self.installation_repo.install_vscode(vsix_data.as_slice(), extension_id.as_str()),
                ),
                InstallQuery::DetectMethod { .. } | InstallQuery::Execute { .. } => {
                    InstallAnswer::Begin
                },
            };
            let (next_stage, next_step) = next_direct_install_step(stage, answer);
            stage = next_stage;
            step = next_step;
        }
    }
}

} // verus!
