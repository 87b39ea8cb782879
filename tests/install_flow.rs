use std::cell::RefCell;
use std::collections::BTreeMap;
use std::io::Write;

use vsix::archive::unpack_actions;
use vsix::executor::temp_package_path;
use vsix::identifier::{is_valid_id, validate_extension_id};
use vsix::package::decode_package;
use vsix::{
    DomainError, Extension, ExtensionRepository, HostAction, HostOutcome, IdeType,
    ImprovedInstallExtensionUseCase, InstallSession, InstallationDetector, InstallationExecutor,
    InstallationMethod, InstallationStrategy, SearchExtensionUseCase, SearchResult, SessionStep,
    SystemInstallationExecutor,
};
use zip::write::FileOptions;
use zip::ZipWriter;

#[derive(Debug, Clone, PartialEq)]
enum Node {
    Dir,
    File(Vec<u8>),
}

/// A file tree in memory that carries out host actions.
struct MemoryHost {
    tree: BTreeMap<String, Node>,
    exit: (bool, String),
    performed: Vec<HostAction>,
    fail_writes: bool,
    fail_start: bool,
}

impl MemoryHost {
    fn new() -> Self {
        MemoryHost { tree: BTreeMap::new(), exit: (true, String::new()), performed: Vec::new(), fail_writes: false, fail_start: false }
    }

    fn perform(&mut self, action: &HostAction) -> HostOutcome {
        self.performed.push(action.clone());
        match action {
            HostAction::CreateDirAll { path } => {
                if let Some(Node::File(_)) = self.tree.get(path) {
                    return HostOutcome::Failed { message: format!("{path} is a file") };
                }
                self.tree.insert(path.clone(), Node::Dir);
                HostOutcome::Done
            }
            HostAction::RemoveTree { path } => {
                let below = format!("{path}/");
                self.tree.retain(|k, _| k != path && !k.starts_with(&below));
                HostOutcome::Done
            }
            HostAction::WriteFile { path, contents } => {
                if self.fail_writes {
                    return HostOutcome::Failed { message: "disk full".to_string() };
                }
                self.tree.insert(path.clone(), Node::File(contents.clone()));
                HostOutcome::Done
            }
            HostAction::RunCommand { .. } if self.fail_start => HostOutcome::Failed {
                message: "No such file or directory".to_string(),
            },
            HostAction::RunCommand { .. } => HostOutcome::Exited {
                success: self.exit.0,
                stderr: self.exit.1.clone(),
            },
            HostAction::RemoveFile { path } => match self.tree.remove(path) {
                Some(_) => HostOutcome::Done,
                None => HostOutcome::Failed { message: "no such file".to_string() },
            },
        }
    }

    fn run(&mut self, mut session: InstallSession) -> Result<(), DomainError> {
        let mut step = session.begin();
        loop {
            match step {
                SessionStep::Finish(result) => return result,
                SessionStep::Perform(action) => {
                    let outcome = self.perform(&action);
                    step = session.advance(outcome);
                }
            }
        }
    }

    fn below(&self, dir: &str) -> BTreeMap<String, Node> {
        let prefix = format!("{dir}/");
        self.tree
            .iter()
            .filter(|(k, _)| k.starts_with(&prefix))
            .map(|(k, v)| (k[prefix.len()..].to_string(), v.clone()))
            .collect()
    }
}

fn archive(entries: &[(&str, &[u8])]) -> Vec<u8> {
    let mut zip_data = Vec::new();
    {
        let mut zip = ZipWriter::new(std::io::Cursor::new(&mut zip_data));
        for (name, contents) in entries {
            if name.ends_with('/') {
                zip.add_directory::<_, ()>(*name, FileOptions::default()).unwrap();
            } else {
                zip.start_file::<_, ()>(*name, FileOptions::default()).unwrap();
                zip.write_all(contents).unwrap();
            }
        }
        zip.finish().unwrap();
    }
    zip_data
}

fn fs_strategy(dir: &str) -> InstallationStrategy {
    InstallationStrategy::new(
        IdeType::VsCode,
        InstallationMethod::FileSystem { extensions_dir: dir.to_string() },
    )
}

fn cli_strategy() -> InstallationStrategy {
    InstallationStrategy::new(
        IdeType::VsCode,
        InstallationMethod::CliCommand { command_path: "/usr/local/bin/code".to_string() },
    )
}

struct MockExtensionRepo {
    should_fail: bool,
}

impl ExtensionRepository for MockExtensionRepo {
    fn search(&self, _query: &str, _marketplace_url: Option<&str>) -> Result<SearchResult, DomainError> {
        panic!("not asked in this test")
    }

    fn get_extension(&self, _id: &str, _marketplace_url: Option<&str>) -> Result<Extension, DomainError> {
        if self.should_fail {
            Err(DomainError::ExtensionNotFound("test".to_string()))
        } else {
            Ok(Extension {
                id: "1".to_string(),
                name: "test".to_string(),
                publisher: "publisher".to_string(),
                version: "1.0.0".to_string(),
                display_name: "Test Extension".to_string(),
                description: Some("Test description".to_string()),
                downloads: 100,
            })
        }
    }

    fn download(&self, _extension: &Extension, _target_platform: Option<&str>) -> Result<Vec<u8>, DomainError> {
        if self.should_fail {
            Err(DomainError::NetworkError("download failed".to_string()))
        } else {
            Ok(vec![1, 2, 3, 4])
        }
    }
}

struct MockDetector {
    use_cli: bool,
}

impl InstallationDetector for MockDetector {
    fn detect_method(&self, _ide_type: &IdeType) -> Result<InstallationMethod, DomainError> {
        if self.use_cli {
            Ok(InstallationMethod::CliCommand { command_path: "/usr/local/bin/code".to_string() })
        } else {
            Ok(InstallationMethod::FileSystem {
                extensions_dir: "/home/user/.vscode/extensions".to_string(),
            })
        }
    }
}

struct MockExecutor {
    should_fail: bool,
}

impl InstallationExecutor for MockExecutor {
    fn execute(&self, _strategy: &InstallationStrategy, _extension_id: &str, _vsix_data: &[u8]) -> Result<(), DomainError> {
        if self.should_fail {
            Err(DomainError::InstallationFailed("mock installation failed".to_string()))
        } else {
            Ok(())
        }
    }
}

#[test]
fn test_invalid_extension_id_format() {
    let repo = MockExtensionRepo { should_fail: false };
    let detector = MockDetector { use_cli: true };
    let executor = MockExecutor { should_fail: false };

    let use_case = ImprovedInstallExtensionUseCase::new(repo, detector, executor);

    // Test with invalid ID (no dot separator)
    let result = use_case.execute("invalidid", false, None);
    assert!(result.is_err());

    match result {
        Err(DomainError::InvalidExtensionFormat(msg)) => {
            assert!(msg.contains("publisher.name"));
        }
        _ => panic!("Expected InvalidExtensionFormat error"),
    }
}

#[test]
fn test_successful_cli_installation() {
    let use_case = ImprovedInstallExtensionUseCase::new(
        MockExtensionRepo { should_fail: false },
        MockDetector { use_cli: true },
        MockExecutor { should_fail: false },
    );
    let result = use_case.execute("publisher.extension", false, None);
    assert!(result.is_ok());
}

#[test]
fn test_successful_filesystem_installation() {
    let use_case = ImprovedInstallExtensionUseCase::new(
        MockExtensionRepo { should_fail: false },
        MockDetector { use_cli: false },
        MockExecutor { should_fail: false },
    );
    let result = use_case.execute("publisher.extension", true, None);
    assert!(result.is_ok());
}

#[test]
fn test_extension_not_found() {
    let use_case = ImprovedInstallExtensionUseCase::new(
        MockExtensionRepo { should_fail: true },
        MockDetector { use_cli: true },
        MockExecutor { should_fail: false },
    );
    let result = use_case.execute("publisher.extension", false, None);
    assert!(result.is_err());
    match result {
        Err(DomainError::ExtensionNotFound(_)) => {}
        _ => panic!("Expected ExtensionNotFound error"),
    }
}

#[test]
fn test_installation_failure() {
    let use_case = ImprovedInstallExtensionUseCase::new(
        MockExtensionRepo { should_fail: false },
        MockDetector { use_cli: true },
        MockExecutor { should_fail: true },
    );
    let result = use_case.execute("publisher.extension", false, None);
    assert!(result.is_err());
    match result {
        Err(DomainError::InstallationFailed(_)) => {}
        _ => panic!("Expected InstallationFailed error"),
    }
}

#[test]
fn test_cursor_installation() {
    let use_case = ImprovedInstallExtensionUseCase::new(
        MockExtensionRepo { should_fail: false },
        MockDetector { use_cli: false },
        MockExecutor { should_fail: false },
    );
    // Test with use_cursor = true
    let result = use_case.execute("publisher.extension", true, None);
    assert!(result.is_ok());
}

struct SearchRepo {
    search_result: Option<SearchResult>,
    should_fail: bool,
}

impl ExtensionRepository for SearchRepo {
    fn search(&self, _query: &str, _marketplace_url: Option<&str>) -> Result<SearchResult, DomainError> {
        if self.should_fail {
            Err(DomainError::NetworkError("Mock error".to_string()))
        } else {
            Ok(self.search_result.clone().unwrap_or(SearchResult { extensions: vec![], total_count: 0 }))
        }
    }

    fn get_extension(&self, _id: &str, _marketplace_url: Option<&str>) -> Result<Extension, DomainError> {
        panic!("not asked in this test")
    }

    fn download(&self, _extension: &Extension, _target_platform: Option<&str>) -> Result<Vec<u8>, DomainError> {
        panic!("not asked in this test")
    }
}

#[test]
fn test_search_use_case_with_empty_query() {
    let use_case = SearchExtensionUseCase::new(SearchRepo { search_result: None, should_fail: false });
    let result = use_case.execute("", None);
    assert!(result.is_err());
    match result {
        Err(DomainError::ParseError(msg)) => {
            assert_eq!(msg, "Search query cannot be empty");
        }
        _ => panic!("Expected ParseError"),
    }
}

#[test]
fn test_search_use_case_success() {
    let expected_result = SearchResult {
        extensions: vec![Extension {
            id: "1".to_string(),
            name: "python".to_string(),
            publisher: "ms-python".to_string(),
            version: "1.0.0".to_string(),
            display_name: "Python".to_string(),
            description: Some("Python support".to_string()),
            downloads: 1000,
        }],
        total_count: 1,
    };
    let use_case = SearchExtensionUseCase::new(SearchRepo {
        search_result: Some(expected_result.clone()),
        should_fail: false,
    });
    let result = use_case.execute("python", None).unwrap();
    assert_eq!(result.extensions.len(), 1);
    assert_eq!(result.extensions[0].name, "python");
}

#[test]
fn blank_search_query_is_refused() {
    let use_case = SearchExtensionUseCase::new(SearchRepo { search_result: None, should_fail: true });
    assert!(matches!(use_case.execute(" \t\u{3000}", None), Err(DomainError::ParseError(_))));
    assert!(matches!(use_case.execute(" x ", None), Err(DomainError::NetworkError(_))));
}

#[test]
fn test_save_vsix_to_temp() {
    let test_data = b"test vsix data";
    let extension_id = "test.extension";
    let mut session = SystemInstallationExecutor::new().plan(&cli_strategy(), extension_id, test_data, "/tmp");
    let mut host = MemoryHost::new();
    let path = match session.begin() {
        SessionStep::Perform(action @ HostAction::WriteFile { .. }) => {
            assert_eq!(host.perform(&action), HostOutcome::Done);
            match action {
                HostAction::WriteFile { path, contents } => {
                    assert_eq!(contents, test_data.to_vec());
                    path
                }
                _ => unreachable!(),
            }
        }
        other => panic!("unexpected step {:?}", other),
    };
    assert!(host.tree.contains_key(&path));
    assert!(path.contains("test-extension.vsix"));
    assert_eq!(temp_package_path("/tmp", extension_id), "/tmp/test-extension.vsix");
}

#[test]
fn test_extract_vsix_with_valid_zip() {
    let zip_data = archive(&[("package.json", b"{\"name\": \"test\"}")]);
    let target_dir = "/tmp/work/test_extension";
    let (actions, end) = unpack_actions(&zip_data, target_dir);
    assert!(end.is_ok());
    let mut host = MemoryHost::new();
    for action in &actions {
        assert_eq!(host.perform(action), HostOutcome::Done);
    }
    let package_json = format!("{target_dir}/package.json");
    assert!(host.tree.contains_key(&package_json));
    assert_eq!(host.tree[&package_json], Node::File(b"{\"name\": \"test\"}".to_vec()));
}

#[test]
fn identifiers_need_exactly_one_separator_between_two_parts() {
    assert!(is_valid_id("publisher.name"));
    assert!(is_valid_id("ms-python.python"));
    for bad in ["", ".", "invalidid", "a.", ".b", "a.b.c", "a..b"] {
        assert!(!is_valid_id(bad), "{bad} should be refused");
        match validate_extension_id(bad) {
            Err(DomainError::InvalidExtensionFormat(msg)) => {
                assert_eq!(msg, "Extension ID must be in format 'publisher.name'")
            }
            other => panic!("unexpected result {:?}", other),
        }
    }
    assert!(validate_extension_id("publisher.name").is_ok());
}

struct UntouchableRepo;

impl ExtensionRepository for UntouchableRepo {
    fn search(&self, _q: &str, _u: Option<&str>) -> Result<SearchResult, DomainError> {
        panic!("marketplace asked")
    }
    fn get_extension(&self, _id: &str, _u: Option<&str>) -> Result<Extension, DomainError> {
        panic!("marketplace asked")
    }
    fn download(&self, _e: &Extension, _p: Option<&str>) -> Result<Vec<u8>, DomainError> {
        panic!("marketplace asked")
    }
}

struct UntouchableDetector;

impl InstallationDetector for UntouchableDetector {
    fn detect_method(&self, _ide_type: &IdeType) -> Result<InstallationMethod, DomainError> {
        panic!("detector asked")
    }
}

struct UntouchableExecutor;

impl InstallationExecutor for UntouchableExecutor {
    fn execute(&self, _s: &InstallationStrategy, _id: &str, _d: &[u8]) -> Result<(), DomainError> {
        panic!("executor asked")
    }
}

#[test]
fn invalid_identifier_is_refused_before_any_collaborator() {
    let use_case = ImprovedInstallExtensionUseCase::new(UntouchableRepo, UntouchableDetector, UntouchableExecutor);
    match use_case.execute("invalidid", false, None) {
        Err(DomainError::InvalidExtensionFormat(_)) => {}
        other => panic!("unexpected result {:?}", other),
    }
}

#[test]
fn reinstall_replaces_previous_contents() {
    let dir = "/home/ada/.vscode/extensions";
    let first = archive(&[("old.txt", b"old"), ("lib/", b""), ("lib/a.js", b"1")]);
    let second = archive(&[("lib/b.js", b"2")]);
    let executor = SystemInstallationExecutor::new();
    let mut host = MemoryHost::new();
    host.tree.insert("/home/ada/.vscode/extensions/other.ext/keep".to_string(), Node::File(vec![9]));
    assert!(host.run(executor.plan(&fs_strategy(dir), "pub.ext", &first, "/tmp")).is_ok());
    assert!(host.run(executor.plan(&fs_strategy(dir), "pub.ext", &second, "/tmp")).is_ok());
    let installed = host.below("/home/ada/.vscode/extensions/pub.ext");
    let mut expected = BTreeMap::new();
    expected.insert("lib".to_string(), Node::Dir);
    expected.insert("lib/b.js".to_string(), Node::File(b"2".to_vec()));
    assert_eq!(installed, expected);
    assert!(host.tree.contains_key("/home/ada/.vscode/extensions/pub.ext"));
    assert!(host.tree.contains_key("/home/ada/.vscode/extensions/other.ext/keep"));
}

#[test]
fn single_nested_entry_round_trips() {
    let contents: &[u8] = &[0, 1, 2, 250, 255, 10, 13];
    let zip_data = archive(&[("extension/dist/deep/main.bin", contents)]);
    let (actions, end) = unpack_actions(&zip_data, "/t");
    assert!(end.is_ok());
    assert_eq!(
        actions,
        vec![
            HostAction::CreateDirAll { path: "/t/extension/dist/deep".to_string() },
            HostAction::WriteFile {
                path: "/t/extension/dist/deep/main.bin".to_string(),
                contents: contents.to_vec(),
            },
        ]
    );
}

#[test]
fn garbage_is_not_an_archive() {
    let (actions, end) = unpack_actions(&[1, 2, 3, 4], "/t");
    assert!(actions.is_empty());
    assert!(matches!(end, Err(DomainError::InstallationFailed(_))));
    let mut host = MemoryHost::new();
    let r = host.run(SystemInstallationExecutor::new().plan(&fs_strategy("/x"), "p.e", &[1, 2, 3, 4], "/tmp"));
    assert!(matches!(r, Err(DomainError::InstallationFailed(_))));
    assert_eq!(host.below("/x/p.e"), BTreeMap::new());
    assert_eq!(host.tree.get("/x/p.e"), Some(&Node::Dir));
}

#[test]
fn failed_command_reports_stderr_and_removes_package() {
    let mut host = MemoryHost::new();
    host.exit = (false, "boom: bad package".to_string());
    let session = SystemInstallationExecutor::new().plan(&cli_strategy(), "pub.ext", &[7, 7], "/tmp");
    match host.run(session) {
        Err(DomainError::InstallationFailed(msg)) => {
            assert_eq!(msg, "Failed to install extension via CLI: boom: bad package");
        }
        other => panic!("unexpected result {:?}", other),
    }
    assert!(!host.tree.contains_key("/tmp/pub-ext.vsix"));
    assert_eq!(
        host.performed[1],
        HostAction::RunCommand {
            program: "/usr/local/bin/code".to_string(),
            args: vec!["--install-extension".to_string(), "/tmp/pub-ext.vsix".to_string()],
        }
    );
    assert_eq!(host.performed[2], HostAction::RemoveFile { path: "/tmp/pub-ext.vsix".to_string() });
}

#[test]
fn failed_removal_after_failed_command_still_reports_the_command() {
    let mut session = SystemInstallationExecutor::new().plan(&cli_strategy(), "pub.ext", &[1], "/tmp");
    assert!(matches!(session.begin(), SessionStep::Perform(HostAction::WriteFile { .. })));
    assert!(matches!(session.advance(HostOutcome::Done), SessionStep::Perform(HostAction::RunCommand { .. })));
    let step = session.advance(HostOutcome::Exited { success: false, stderr: "e".to_string() });
    assert!(matches!(step, SessionStep::Perform(HostAction::RemoveFile { .. })));
    match session.advance(HostOutcome::Failed { message: "busy".to_string() }) {
        SessionStep::Finish(Err(DomainError::InstallationFailed(msg))) => {
            assert_eq!(msg, "Failed to install extension via CLI: e")
        }
        other => panic!("unexpected step {:?}", other),
    }
}

#[test]
fn exit_reported_during_clean_up_changes_nothing() {
    let mut session = SystemInstallationExecutor::new().plan(&cli_strategy(), "pub.ext", &[1], "/tmp");
    session.begin();
    session.advance(HostOutcome::Done);
    session.advance(HostOutcome::Exited { success: false, stderr: "first".to_string() });
    match session.advance(HostOutcome::Exited { success: false, stderr: "second".to_string() }) {
        SessionStep::Finish(Err(DomainError::InstallationFailed(msg))) => {
            assert_eq!(msg, "Failed to install extension via CLI: first")
        }
        other => panic!("unexpected step {:?}", other),
    }
}

#[test]
fn successful_command_installs_and_cleans_up() {
    let mut host = MemoryHost::new();
    let r = host.run(SystemInstallationExecutor::new().plan(&cli_strategy(), "a.b", &[1], "/tmp"));
    assert!(r.is_ok());
    assert!(host.tree.is_empty());
    assert_eq!(host.performed.len(), 3);
}

#[test]
fn write_failure_aborts_with_io_error() {
    let mut host = MemoryHost::new();
    host.fail_writes = true;
    let r = host.run(SystemInstallationExecutor::new().plan(&cli_strategy(), "a.b", &[1], "/tmp"));
    match r {
        Err(DomainError::IoError(msg)) => assert_eq!(msg, "disk full"),
        other => panic!("unexpected result {:?}", other),
    }
    assert_eq!(host.performed.len(), 2);
    assert_eq!(host.performed[1], HostAction::RemoveFile { path: "/tmp/a-b.vsix".to_string() });
}

#[test]
fn unstartable_command_still_removes_package() {
    let mut host = MemoryHost::new();
    host.fail_start = true;
    let r = host.run(SystemInstallationExecutor::new().plan(&cli_strategy(), "pub.ext", &[3], "/tmp"));
    match r {
        Err(DomainError::IoError(msg)) => assert_eq!(msg, "No such file or directory"),
        other => panic!("unexpected result {:?}", other),
    }
    assert_eq!(host.performed.len(), 3);
    assert_eq!(host.performed[2], HostAction::RemoveFile { path: "/tmp/pub-ext.vsix".to_string() });
    assert!(!host.tree.contains_key("/tmp/pub-ext.vsix"));
}

struct PackageRepo {
    package: Vec<u8>,
}

impl ExtensionRepository for PackageRepo {
    fn search(&self, _q: &str, _u: Option<&str>) -> Result<SearchResult, DomainError> {
        panic!("not asked in this test")
    }
    fn get_extension(&self, _id: &str, _u: Option<&str>) -> Result<Extension, DomainError> {
        Ok(Extension {
            id: "publisher.extension".to_string(),
            name: "extension".to_string(),
            publisher: "publisher".to_string(),
            version: "1.0.0".to_string(),
            display_name: "Extension".to_string(),
            description: None,
            downloads: 0,
        })
    }
    fn download(&self, _e: &Extension, _p: Option<&str>) -> Result<Vec<u8>, DomainError> {
        Ok(self.package.clone())
    }
}

struct MemoryExecutor {
    host: RefCell<MemoryHost>,
}

impl InstallationExecutor for MemoryExecutor {
    fn execute(&self, strategy: &InstallationStrategy, extension_id: &str, vsix_data: &[u8]) -> Result<(), DomainError> {
        let session = SystemInstallationExecutor::new().plan(strategy, extension_id, vsix_data, "/tmp");
        self.host.borrow_mut().run(session)
    }
}

#[test]
fn end_to_end_filesystem_install() {
    let package = archive(&[("extension/package.json", b"{}"), ("extension/README.md", b"hi")]);
    let executor = MemoryExecutor { host: RefCell::new(MemoryHost::new()) };
    let use_case = ImprovedInstallExtensionUseCase::new(
        PackageRepo { package },
        MockDetector { use_cli: false },
        executor,
    );
    assert!(use_case.execute("publisher.extension", false, None).is_ok());
}

#[test]
fn end_to_end_filesystem_install_leaves_the_extension_directory() {
    let package = archive(&[("extension/package.json", b"{}")]);
    let executor = MemoryExecutor { host: RefCell::new(MemoryHost::new()) };
    let strategy = fs_strategy("/home/user/.vscode/extensions");
    assert!(executor.execute(&strategy, "publisher.extension", &package).is_ok());
    let host = executor.host.borrow();
    assert_eq!(host.tree.get("/home/user/.vscode/extensions/publisher.extension"), Some(&Node::Dir));
    assert_eq!(
        host.tree.get("/home/user/.vscode/extensions/publisher.extension/extension/package.json"),
        Some(&Node::File(b"{}".to_vec()))
    );
}

#[test]
fn gzip_downloads_are_decompressed() {
    let mut encoder = flate2::write::GzEncoder::new(Vec::new(), flate2::Compression::default());
    encoder.write_all(b"PK\x03\x04 package").unwrap();
    let compressed = encoder.finish().unwrap();
    assert_eq!(decode_package(compressed).unwrap(), b"PK\x03\x04 package".to_vec());
    assert_eq!(decode_package(vec![1, 2, 3]).unwrap(), vec![1, 2, 3]);
    assert_eq!(decode_package(vec![0x1f]).unwrap(), vec![0x1f]);
    assert!(matches!(decode_package(vec![0x1f, 0x8b, 0, 0]), Err(DomainError::NetworkError(_))));
}

#[test]
fn error_messages_name_their_kind() {
    assert_eq!(DomainError::IoError("x".to_string()).message(), "IO error: x");
    assert_eq!(
        DomainError::InvalidExtensionFormat("bad".to_string()).message(),
        "Invalid extension format: bad"
    );
    assert_eq!(DomainError::NetworkError("down".to_string()).message(), "Network error: down");
}
