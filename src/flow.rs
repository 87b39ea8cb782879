use vstd::prelude::*;
use vstd::string::StringExecFns;
use crate::entities::{unique_identifier_of, Extension, SearchResult};
use crate::errors::{DomainError, ErrorKind, ErrorView};
use crate::identifier::{id_format_message, is_valid_extension_id, validate_extension_id};
use crate::platform::{platform_name_of, Architecture};
use crate::strategy::{ide_for_flag, IdeType, InstallationMethod, InstallationStrategy};
use crate::text::is_blank;

verus! {

/// The error for a malformed extension identifier.
pub open spec fn invalid_id_error() -> ErrorView {
    ErrorView { kind: ErrorKind::InvalidFormat, detail: id_format_message() }
}

/// The error for a search without a query.
pub open spec fn empty_query_error() -> ErrorView {
    ErrorView { kind: ErrorKind::Parse, detail: "Search query cannot be empty"@ }
}

/// The error for an answer that does not fit the question asked.
pub open spec fn out_of_turn_error() -> ErrorView {
    ErrorView { kind: ErrorKind::Unknown, detail: "Answer does not fit the question asked"@ }
}

fn out_of_turn() -> (r: DomainError)
    ensures
        r@ == out_of_turn_error(),
{
    DomainError::Unknown(String::from_str("Answer does not fit the question asked"))
}

/// The view of an optional string.
pub open spec fn opt_text(s: Option<String>) -> Option<Seq<char>> {
    match s {
        Some(t) => Some(t@),
        None => None,
    }
}

/// An owned copy of an optional string.
pub fn owned_text(s: Option<&str>) -> (r: Option<String>)
    ensures
        opt_text(r) == match s {
            Some(t) => Some(t@),
            None => None::<Seq<char>>,
        },
{
    match s {
        Some(t) => Some(String::from_str(t)),
        None => None,
    }
}

/// A borrowed view of an optional string.
pub fn borrowed_text(s: &Option<String>) -> (r: Option<&str>)
    ensures
        match r {
            Some(t) => opt_text(*s) == Some(t@),
            None => s is None,
        },
{
    match s {
        Some(t) => Some(t.as_str()),
        None => None,
    }
}

/// A question that an installation puts to one of its collaborators.
#[derive(Debug)]
pub enum InstallQuery {
    /// Ask the detector how to install into `ide_type`.
    DetectMethod { ide_type: IdeType },
    /// Ask the marketplace for the extension known as `extension_id`.
    GetExtension { extension_id: String, marketplace_url: Option<String> },
    /// Ask the marketplace for the package of `extension`.
    Download { extension: Extension, target_platform: Option<String> },
    /// Ask the executor to install `vsix_data` as `extension_id` by `strategy`.
    Execute { strategy: InstallationStrategy, extension_id: String, vsix_data: Vec<u8> },
    /// Ask the installation repository to unpack `vsix_data` as
    /// `extension_id` into the fork editor.
    InstallCursor { vsix_data: Vec<u8>, extension_id: String },
    /// Ask the installation repository to unpack `vsix_data` as
    /// `extension_id` into the primary editor.
    InstallVscode { vsix_data: Vec<u8>, extension_id: String },
}

/// What a collaborator answered to the last question.
#[derive(Debug)]
pub enum InstallAnswer {
    /// Nothing was asked yet.
    Begin,
    Detected(Result<InstallationMethod, DomainError>),
    Fetched(Result<Extension, DomainError>),
    Downloaded(Result<Vec<u8>, DomainError>),
    /// The executor's or the installation repository's answer.
    Installed(Result<(), DomainError>),
}

/// What an installation does next.
#[derive(Debug)]
pub enum InstallStep {
    Ask(InstallQuery),
    Finish(Result<(), DomainError>),
}

/// Where an installation by detected method stands.
#[derive(Debug)]
pub enum InstallStage {
    /// Nothing asked yet.
    Start { extension_id: String, use_cursor: bool, marketplace_url: Option<String> },
    /// The detector was asked for the method of `ide_type`.
    Detecting { ide_type: IdeType, extension_id: String, marketplace_url: Option<String> },
    /// The marketplace was asked for the extension; the strategy is settled.
    Fetching { strategy: InstallationStrategy },
    /// The marketplace was asked for the package of the extension known as
    /// `identifier`.
    Downloading { strategy: InstallationStrategy, identifier: String },
    /// The executor was asked to install.
    Executing,
    /// The installation is over.
    Finished,
}

/// How many questions an installation at `stage` may still ask.
pub open spec fn install_rank(stage: InstallStage) -> nat {
    match stage {
        InstallStage::Start { .. } => 5,
        InstallStage::Detecting { .. } => 4,
        InstallStage::Fetching { .. } => 3,
        InstallStage::Downloading { .. } => 2,
        InstallStage::Executing => 1,
        InstallStage::Finished => 0,
    }
}

/// Whether `r` ends an installation with `e`, unchanged.
pub open spec fn ends_with(r: (InstallStage, InstallStep), e: DomainError) -> bool {
    r.0 is Finished && r.1 == InstallStep::Finish(Err(e))
}

/// Whether `r` ends an installation because the answer did not fit.
pub open spec fn ends_out_of_turn(r: (InstallStage, InstallStep)) -> bool {
    &&& r.0 is Finished
    &&& r.1 matches InstallStep::Finish(Err(e))
    &&& e@ == out_of_turn_error()
}

/// The next step of an installation by detected method, from where it
/// stands and the answer to its last question. The identifier is checked
/// first; then the detector is asked for the editor's method, the
/// marketplace for the extension and then for its package, and the executor
/// installs it. The first error of a collaborator ends the installation
/// unchanged, and the executor's answer is its result.
pub fn next_install_step(stage: InstallStage, answer: InstallAnswer) -> (r: (
    InstallStage,
    InstallStep,
))
    ensures
        r.1 is Ask ==> 0 < install_rank(r.0) < install_rank(stage),
        r.1 is Finish ==> r.0 is Finished,
        match (stage, answer) {
            (
                InstallStage::Start { extension_id, use_cursor, marketplace_url },
                InstallAnswer::Begin,
            ) => if is_valid_extension_id(extension_id@) {
                &&& r.1 == InstallStep::Ask(
                    InstallQuery::DetectMethod { ide_type: ide_for_flag(use_cursor) },
                )
                &&& r.0 == (InstallStage::Detecting {
                    ide_type: ide_for_flag(use_cursor),
                    extension_id,
                    marketplace_url,
                })
            } else {
                &&& r.0 is Finished
                &&& r.1 matches InstallStep::Finish(Err(e))
                &&& e@ == invalid_id_error()
            },
            (
                InstallStage::Detecting { ide_type, extension_id, marketplace_url },
                InstallAnswer::Detected(detected),
            ) => match detected {
                Ok(method) => {
                    &&& r.1 == InstallStep::Ask(
                        InstallQuery::GetExtension { extension_id, marketplace_url },
                    )
                    &&& r.0 == (InstallStage::Fetching {
                        strategy: InstallationStrategy { ide_type, method },
                    })
                },
                Err(e) => ends_with(r, e),
            },
            (InstallStage::Fetching { strategy }, InstallAnswer::Fetched(fetched)) => match fetched {
                Ok(extension) => {
                    &&& r.1 == InstallStep::Ask(
                        InstallQuery::Download { extension, target_platform: None },
                    )
                    &&& r.0 matches InstallStage::Downloading { strategy: s, identifier }
                    &&& s == strategy
                    &&& identifier@ == unique_identifier_of(extension.publisher@, extension.name@)
                },
                Err(e) => ends_with(r, e),
            },
            (
                InstallStage::Downloading { strategy, identifier },
                InstallAnswer::Downloaded(downloaded),
            ) => match downloaded {
                Ok(vsix_data) => {
                    &&& r.1 == InstallStep::Ask(
                        InstallQuery::Execute { strategy, extension_id: identifier, vsix_data },
                    )
                    &&& r.0 is Executing
                },
                Err(e) => ends_with(r, e),
            },
            (InstallStage::Executing, InstallAnswer::Installed(result)) => r.0 is Finished && r.1
                == InstallStep::Finish(result),
            _ => ends_out_of_turn(r),
        },
{
    match (stage, answer) {
        (
            InstallStage::Start { extension_id, use_cursor, marketplace_url },
            InstallAnswer::Begin,
        ) => match validate_extension_id(extension_id.as_str()) {
            Ok(()) => {
                let ide_type = IdeType::for_flag(use_cursor);
                (
                    InstallStage::Detecting { ide_type, extension_id, marketplace_url },
                    InstallStep::Ask(InstallQuery::DetectMethod { ide_type }),
                )
            },
            Err(e) => (InstallStage::Finished, InstallStep::Finish(Err(e))),
        },
        (
            InstallStage::Detecting { ide_type, extension_id, marketplace_url },
            InstallAnswer::Detected(detected),
        ) => match detected {
            Ok(method) => (
                InstallStage::Fetching { strategy: InstallationStrategy::new(ide_type, method) },
                InstallStep::Ask(InstallQuery::GetExtension { extension_id, marketplace_url }),
            ),
            Err(e) => (InstallStage::Finished, InstallStep::Finish(Err(e))),
        },
        (InstallStage::Fetching { strategy }, InstallAnswer::Fetched(fetched)) => match fetched {
            Ok(extension) => {
                let identifier = extension.unique_identifier();
                (
                    InstallStage::Downloading { strategy, identifier },
                    InstallStep::Ask(InstallQuery::Download { extension, target_platform: None }),
                )
            },
            Err(e) => (InstallStage::Finished, InstallStep::Finish(Err(e))),
        },
        (
            InstallStage::Downloading { strategy, identifier },
            InstallAnswer::Downloaded(downloaded),
        ) => match downloaded {
            Ok(vsix_data) => (
                InstallStage::Executing,
                InstallStep::Ask(
                    InstallQuery::Execute { strategy, extension_id: identifier, vsix_data },
                ),
            ),
            Err(e) => (InstallStage::Finished, InstallStep::Finish(Err(e))),
        },
        (InstallStage::Executing, InstallAnswer::Installed(result)) => (
            InstallStage::Finished,
            InstallStep::Finish(result),
        ),
        _ => (InstallStage::Finished, InstallStep::Finish(Err(out_of_turn()))),
    }
}

/// Where an installation straight into an extensions directory stands.
#[derive(Debug)]
pub enum DirectInstallStage {
    /// Nothing asked yet; packages are wanted for `architecture`.
    Start {
        extension_id: String,
        use_cursor: bool,
        marketplace_url: Option<String>,
        architecture: Architecture,
    },
    /// The marketplace was asked for the extension.
    Fetching { use_cursor: bool, architecture: Architecture },
    /// The marketplace was asked for the package of the extension known as
    /// `identifier`.
    Downloading { use_cursor: bool, identifier: String },
    /// The installation repository was asked to install.
    Installing,
    /// The installation is over.
    Finished,
}

/// How many questions a direct installation at `stage` may still ask.
pub open spec fn direct_rank(stage: DirectInstallStage) -> nat {
    match stage {
        DirectInstallStage::Start { .. } => 4,
        DirectInstallStage::Fetching { .. } => 3,
        DirectInstallStage::Downloading { .. } => 2,
        DirectInstallStage::Installing => 1,
        DirectInstallStage::Finished => 0,
    }
}

/// Whether `r` ends a direct installation with `e`, unchanged.
pub open spec fn direct_ends_with(r: (DirectInstallStage, InstallStep), e: DomainError) -> bool {
    r.0 is Finished && r.1 == InstallStep::Finish(Err(e))
}

/// The next step of an installation straight into an extensions directory,
/// from where it stands and the answer to its last question. The identifier
/// is checked first; then the marketplace is asked for the extension and
/// for its package built for the host's platform, and the installation
/// repository unpacks it into the fork editor when `use_cursor` is set,
/// else into the primary one. The first error ends the installation
/// unchanged, and the repository's answer is its result.
pub fn next_direct_install_step(stage: DirectInstallStage, answer: InstallAnswer) -> (r: (
    DirectInstallStage,
    InstallStep,
))
    ensures
        r.1 is Ask ==> 0 < direct_rank(r.0) < direct_rank(stage),
        r.1 is Finish ==> r.0 is Finished,
        match (stage, answer) {
            (
                DirectInstallStage::Start {
                    extension_id,
                    use_cursor,
                    marketplace_url,
                    architecture,
                },
                InstallAnswer::Begin,
            ) => if is_valid_extension_id(extension_id@) {
                &&& r.1 == InstallStep::Ask(
                    InstallQuery::GetExtension { extension_id, marketplace_url },
                )
                &&& r.0 == (DirectInstallStage::Fetching { use_cursor, architecture })
            } else {
                &&& r.0 is Finished
                &&& r.1 matches InstallStep::Finish(Err(e))
                &&& e@ == invalid_id_error()
            },
            (
                DirectInstallStage::Fetching { use_cursor, architecture },
                InstallAnswer::Fetched(fetched),
            ) => match fetched {
                Ok(extension) => {
                    &&& r.1 matches InstallStep::Ask(
                        InstallQuery::Download { extension: x, target_platform },
                    )
                    &&& x == extension
                    &&& opt_text(target_platform) == platform_name_of(architecture)
                    &&& r.0 matches DirectInstallStage::Downloading { use_cursor: c, identifier }
                    &&& c == use_cursor
                    &&& identifier@ == unique_identifier_of(extension.publisher@, extension.name@)
                },
                Err(e) => direct_ends_with(r, e),
            },
            (
                DirectInstallStage::Downloading { use_cursor, identifier },
                InstallAnswer::Downloaded(downloaded),
            ) => match downloaded {
                Ok(vsix_data) => {
                    &&& r.0 is Installing
                    &&& if use_cursor {
                        r.1 == InstallStep::Ask(
                            InstallQuery::InstallCursor { vsix_data, extension_id: identifier },
                        )
                    } else {
                        r.1 == InstallStep::Ask(
                            InstallQuery::InstallVscode { vsix_data, extension_id: identifier },
                        )
                    }
                },
                Err(e) => direct_ends_with(r, e),
            },
            (DirectInstallStage::Installing, InstallAnswer::Installed(result)) => r.0 is Finished
                && r.1 == InstallStep::Finish(result),
            _ => {
                &&& r.0 is Finished
                &&& r.1 matches InstallStep::Finish(Err(e))
                &&& e@ == out_of_turn_error()
            },
        },
{
    match (stage, answer) {
        (
            DirectInstallStage::Start { extension_id, use_cursor, marketplace_url, architecture },
            InstallAnswer::Begin,
        ) => match validate_extension_id(extension_id.as_str()) {
            Ok(()) => (
                DirectInstallStage::Fetching { use_cursor, architecture },
                InstallStep::Ask(InstallQuery::GetExtension { extension_id, marketplace_url }),
            ),
            Err(e) => (DirectInstallStage::Finished, InstallStep::Finish(Err(e))),
        },
        (
            DirectInstallStage::Fetching { use_cursor, architecture },
            InstallAnswer::Fetched(fetched),
        ) => match fetched {
            Ok(extension) => {
                let identifier = extension.unique_identifier();
                let target_platform = owned_text(architecture.to_platform_string());
                (
                    DirectInstallStage::Downloading { use_cursor, identifier },
                    InstallStep::Ask(InstallQuery::Download { extension, target_platform }),
                )
            },
            Err(e) => (DirectInstallStage::Finished, InstallStep::Finish(Err(e))),
        },
        (
            DirectInstallStage::Downloading { use_cursor, identifier },
            InstallAnswer::Downloaded(downloaded),
        ) => match downloaded {
            Ok(vsix_data) => {
                let query = if use_cursor {
                    InstallQuery::InstallCursor { vsix_data, extension_id: identifier }
                } else {
                    InstallQuery::InstallVscode { vsix_data, extension_id: identifier }
                };
                (DirectInstallStage::Installing, InstallStep::Ask(query))
            },
            Err(e) => (DirectInstallStage::Finished, InstallStep::Finish(Err(e))),
        },
        (DirectInstallStage::Installing, InstallAnswer::Installed(result)) => (
            DirectInstallStage::Finished,
            InstallStep::Finish(result),
        ),
        _ => (DirectInstallStage::Finished, InstallStep::Finish(Err(out_of_turn()))),
    }
}

/// Where a search stands.
#[derive(Debug)]
pub enum SearchStage {
    /// Nothing asked yet.
    Start { query: String, marketplace_url: Option<String> },
    /// The marketplace was asked.
    Searching,
    /// The search is over.
    Finished,
}

/// What a search does next.
#[derive(Debug)]
pub enum SearchStep {
    /// Ask the marketplace for the extensions that match `query`.
    Ask { query: String, marketplace_url: Option<String> },
    Finish(Result<SearchResult, DomainError>),
}

/// How many questions a search at `stage` may still ask.
pub open spec fn search_rank(stage: SearchStage) -> nat {
    match stage {
        SearchStage::Start { .. } => 2,
        SearchStage::Searching => 1,
        SearchStage::Finished => 0,
    }
}

/// The next step of a search, from where it stands and the marketplace's
/// answer, if it was asked. A query of nothing but white space ends the
/// search before the marketplace is asked; otherwise the marketplace is
/// asked once and its answer is the result.
pub fn next_search_step(
    stage: SearchStage,
    answer: Option<Result<SearchResult, DomainError>>,
) -> (r: (SearchStage, SearchStep))
    ensures
        r.1 is Ask ==> 0 < search_rank(r.0) < search_rank(stage),
        r.1 is Finish ==> r.0 is Finished,
        match (stage, answer) {
            (SearchStage::Start { query, marketplace_url }, None) => if crate::text::is_blank_text(
                query@,
            ) {
                &&& r.0 is Finished
                &&& r.1 matches SearchStep::Finish(Err(e))
                &&& e@ == empty_query_error()
            } else {
                r.0 is Searching && r.1 == (SearchStep::Ask { query, marketplace_url })
            },
            (SearchStage::Searching, Some(result)) => r.0 is Finished && r.1 == SearchStep::Finish(
                result,
            ),
            _ => {
                &&& r.0 is Finished
                &&& r.1 matches SearchStep::Finish(Err(e))
                &&& e@ == out_of_turn_error()
            },
        },
{
    match (stage, answer) {
        (SearchStage::Start { query, marketplace_url }, None) => {
            if is_blank(query.as_str()) {
                (
                    SearchStage::Finished,
                    SearchStep::Finish(
                        Err(DomainError::ParseError(String::from_str("Search query cannot be empty"))),
                    ),
                )
            } else {
                (SearchStage::Searching, SearchStep::Ask { query, marketplace_url })
            }
        },
        (SearchStage::Searching, Some(result)) => (SearchStage::Finished, SearchStep::Finish(result)),
        _ => (SearchStage::Finished, SearchStep::Finish(Err(out_of_turn()))),
    }
}

} // verus!
