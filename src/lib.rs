//! Searches an extension marketplace, downloads extension packages and installs
//! them into one of two editors, either through the editor's own command-line
//! tool or by unpacking the package into the editor's extensions directory.
//!
//! Everything that decides lives here and is verified; what touches the disk,
//! spawns processes or talks to the network is handed out as plain values for
//! the caller to perform.

pub mod archive;
pub mod detector;
pub mod entities;
pub mod errors;
pub mod executor;
pub mod flow;
pub mod identifier;
mod host;
pub mod marketplace;
pub mod package;
pub mod paths;
pub mod platform;
pub mod presentation;
pub mod repositories;
pub mod session;
pub mod sorting;
pub mod strategy;
pub mod text;
pub mod tree;
pub mod use_cases;

pub use detector::SystemInstallationDetector;
pub use entities::{Extension, SearchResult};
pub use errors::{DomainError, ErrorKind};
pub use executor::{FileSystemRepository, SystemInstallationExecutor};
pub use flow::{InstallAnswer, InstallQuery, InstallStep};
pub use platform::{Architecture, HostOs};
pub use presentation::{Cli, Commands, DisplayManager};
pub use repositories::{ExtensionRepository, InstallationRepository};
pub use session::{HostAction, HostOutcome, InstallSession, SessionStep};
pub use sorting::SortField;
pub use strategy::{
    IdeType, InstallationDetector, InstallationExecutor, InstallationMethod,
    InstallationStrategy,
};
pub use use_cases::{ImprovedInstallExtensionUseCase, InstallExtensionUseCase, SearchExtensionUseCase};
