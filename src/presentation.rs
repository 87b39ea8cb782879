use vstd::prelude::*;

verus! {

/// Shows results and progress to the user.
#[derive(Debug, Clone, Copy)]
pub struct DisplayManager;

impl DisplayManager {
    pub fn new() -> Self {
        Self
    }
}

/// The command line: what to do, and an optional marketplace to ask.
#[derive(Debug, Clone)]
pub struct Cli {
    pub command: Commands,
    /// Custom marketplace URL.
    pub marketplace: Option<String>,
}

/// What the command line asks for.
#[derive(Debug, Clone)]
pub enum Commands {
    /// Search for extensions in the marketplace.
    Search {
        query: String,
        /// Sort results by field (name, downloads, publisher).
        sort: String,
        /// Reverse sort order.
        reverse: bool,
        /// Limit number of results.
        limit: usize,
    },
    /// Install an extension.
    Install {
        /// Extension ID (format: publisher.name).
        id: String,
        /// Install to VSCode.
        vscode: bool,
        /// Install to Cursor.
        cursor: bool,
    },
}

} // verus!
