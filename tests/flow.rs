use vsix::flow::{
    next_direct_install_step, next_install_step, next_search_step, DirectInstallStage,
    InstallStage, SearchStage, SearchStep,
};
use vsix::{
    Architecture, DomainError, Extension, IdeType, InstallAnswer, InstallQuery, InstallStep,
    InstallationMethod, SearchResult,
};

fn extension() -> Extension {
    Extension {
        id: "publisher.extension".to_string(),
        name: "extension".to_string(),
        publisher: "publisher".to_string(),
        version: "1.0.0".to_string(),
        display_name: "Extension".to_string(),
        description: None,
        downloads: 0,
    }
}

fn start(id: &str, use_cursor: bool) -> InstallStage {
    InstallStage::Start {
        extension_id: id.to_string(),
        use_cursor,
        marketplace_url: Some("https://example.test".to_string()),
    }
}

#[test]
fn install_flow_asks_each_collaborator_in_turn() {
    let (stage, step) = next_install_step(start("publisher.extension", true), InstallAnswer::Begin);
    assert!(matches!(step, InstallStep::Ask(InstallQuery::DetectMethod { ide_type: IdeType::Cursor })));

    let method = InstallationMethod::FileSystem { extensions_dir: "/x".to_string() };
    let (stage, step) = next_install_step(stage, InstallAnswer::Detected(Ok(method.clone())));
    match step {
        InstallStep::Ask(InstallQuery::GetExtension { extension_id, marketplace_url }) => {
            assert_eq!(extension_id, "publisher.extension");
            assert_eq!(marketplace_url, Some("https://example.test".to_string()));
        }
        other => panic!("unexpected step {:?}", other),
    }

    let (stage, step) = next_install_step(stage, InstallAnswer::Fetched(Ok(extension())));
    match step {
        InstallStep::Ask(InstallQuery::Download { extension: e, target_platform }) => {
            assert_eq!(e, extension());
            assert_eq!(target_platform, None);
        }
        other => panic!("unexpected step {:?}", other),
    }

    let (stage, step) = next_install_step(stage, InstallAnswer::Downloaded(Ok(vec![1, 2, 3, 4])));
    match step {
        InstallStep::Ask(InstallQuery::Execute { strategy, extension_id, vsix_data }) => {
            assert_eq!(strategy.ide_type, IdeType::Cursor);
            assert_eq!(strategy.method, method);
            assert_eq!(extension_id, "publisher.extension");
            assert_eq!(vsix_data, vec![1, 2, 3, 4]);
        }
        other => panic!("unexpected step {:?}", other),
    }

    let (stage, step) = next_install_step(stage, InstallAnswer::Installed(Ok(())));
    assert!(matches!(step, InstallStep::Finish(Ok(()))));
    assert!(matches!(stage, InstallStage::Finished));
}

#[test]
fn install_flow_refuses_malformed_identifier_first() {
    let (stage, step) = next_install_step(start("invalidid", false), InstallAnswer::Begin);
    assert!(matches!(stage, InstallStage::Finished));
    match step {
        InstallStep::Finish(Err(DomainError::InvalidExtensionFormat(msg))) => {
            assert!(msg.contains("publisher.name"))
        }
        other => panic!("unexpected step {:?}", other),
    }
}

#[test]
fn install_flow_passes_the_first_error_on_unchanged() {
    let (stage, _) = next_install_step(start("a.b", false), InstallAnswer::Begin);
    let (_, step) = next_install_step(stage, InstallAnswer::Detected(Err(DomainError::DirectoryNotFound("h".to_string()))));
    assert!(matches!(step, InstallStep::Finish(Err(DomainError::DirectoryNotFound(m))) if m == "h"));

    let (stage, _) = next_install_step(start("a.b", false), InstallAnswer::Begin);
    let method = InstallationMethod::CliCommand { command_path: "/bin/code".to_string() };
    let (stage, _) = next_install_step(stage, InstallAnswer::Detected(Ok(method)));
    let (_, step) = next_install_step(stage, InstallAnswer::Fetched(Err(DomainError::ExtensionNotFound("a.b".to_string()))));
    assert!(matches!(step, InstallStep::Finish(Err(DomainError::ExtensionNotFound(m))) if m == "a.b"));

    let (_, step) = next_install_step(InstallStage::Executing, InstallAnswer::Installed(Err(DomainError::InstallationFailed("x".to_string()))));
    assert!(matches!(step, InstallStep::Finish(Err(DomainError::InstallationFailed(m))) if m == "x"));
}

#[test]
fn install_flow_ends_on_an_answer_out_of_turn() {
    let (stage, step) = next_install_step(InstallStage::Executing, InstallAnswer::Begin);
    assert!(matches!(stage, InstallStage::Finished));
    assert!(matches!(step, InstallStep::Finish(Err(DomainError::Unknown(_)))));
}

#[test]
fn direct_install_flow_asks_for_the_host_platform_and_the_chosen_editor() {
    let start = DirectInstallStage::Start {
        extension_id: "publisher.extension".to_string(),
        use_cursor: false,
        marketplace_url: None,
        architecture: Architecture::LinuxX64,
    };
    let (stage, step) = next_direct_install_step(start, InstallAnswer::Begin);
    assert!(matches!(step, InstallStep::Ask(InstallQuery::GetExtension { .. })));
    let (stage, step) = next_direct_install_step(stage, InstallAnswer::Fetched(Ok(extension())));
    match step {
        InstallStep::Ask(InstallQuery::Download { target_platform, .. }) => {
            assert_eq!(target_platform, Some("linux-x64".to_string()))
        }
        other => panic!("unexpected step {:?}", other),
    }
    let (stage, step) = next_direct_install_step(stage, InstallAnswer::Downloaded(Ok(vec![9])));
    match step {
        InstallStep::Ask(InstallQuery::InstallVscode { vsix_data, extension_id }) => {
            assert_eq!(vsix_data, vec![9]);
            assert_eq!(extension_id, "publisher.extension");
        }
        other => panic!("unexpected step {:?}", other),
    }
    let (_, step) = next_direct_install_step(stage, InstallAnswer::Installed(Err(DomainError::IoError("full".to_string()))));
    assert!(matches!(step, InstallStep::Finish(Err(DomainError::IoError(m))) if m == "full"));
}

#[test]
fn direct_install_flow_for_the_fork_on_a_universal_host() {
    let start = DirectInstallStage::Start {
        extension_id: "p.e".to_string(),
        use_cursor: true,
        marketplace_url: None,
        architecture: Architecture::Universal,
    };
    let (stage, _) = next_direct_install_step(start, InstallAnswer::Begin);
    let (stage, step) = next_direct_install_step(stage, InstallAnswer::Fetched(Ok(extension())));
    assert!(matches!(step, InstallStep::Ask(InstallQuery::Download { target_platform: None, .. })));
    let (_, step) = next_direct_install_step(stage, InstallAnswer::Downloaded(Ok(vec![])));
    assert!(matches!(step, InstallStep::Ask(InstallQuery::InstallCursor { .. })));
}

#[test]
fn search_flow_asks_once_and_returns_the_answer() {
    let start = SearchStage::Start { query: "rust".to_string(), marketplace_url: None };
    let (stage, step) = next_search_step(start, None);
    assert!(matches!(step, SearchStep::Ask { ref query, marketplace_url: None } if query == "rust"));
    let answer = SearchResult { extensions: vec![extension()], total_count: 1 };
    let (_, step) = next_search_step(stage, Some(Ok(answer)));
    match step {
        SearchStep::Finish(Ok(result)) => assert_eq!(result.total_count, 1),
        other => panic!("unexpected step {:?}", other),
    }
}

#[test]
fn search_flow_refuses_a_blank_query() {
    let start = SearchStage::Start { query: "  ".to_string(), marketplace_url: None };
    let (_, step) = next_search_step(start, None);
    assert!(matches!(step, SearchStep::Finish(Err(DomainError::ParseError(_)))));
}
