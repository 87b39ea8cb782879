use vstd::prelude::*;
use crate::entities::{Extension, SearchResult};
use crate::errors::DomainError;

verus! {

/// The marketplace: finds extensions and serves their packages.
pub trait ExtensionRepository {
    /// The extensions that match `query`.
    fn search(&self, query: &str, marketplace_url: Option<&str>) -> Result<
        SearchResult,
        DomainError,
    >;

    /// The extension known as `id`.
    fn get_extension(&self, id: &str, marketplace_url: Option<&str>) -> Result<
        Extension,
        DomainError,
    >;

    /// The package of `extension`, for `target_platform` or for all.
    fn download(&self, extension: &Extension, target_platform: Option<&str>) -> Result<
        Vec<u8>,
        DomainError,
    >;
}

/// Installs packages straight into the editors' extensions directories.
pub trait InstallationRepository {
    fn install_vscode(&self, vsix_data: &[u8], extension_id: &str) -> Result<(), DomainError>;

    fn install_cursor(&self, vsix_data: &[u8], extension_id: &str) -> Result<(), DomainError>;

    /// Gets the `VSCode` extensions directory path.
    fn get_vscode_extensions_dir(&self) -> Result<String, DomainError>;

    /// Gets the Cursor extensions directory path.
    fn get_cursor_extensions_dir(&self) -> Result<String, DomainError>;
}

} // verus!
