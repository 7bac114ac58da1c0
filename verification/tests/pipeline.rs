use passzip::pipeline::{Action, Event, Pipeline};
use passzip::response::{Reply, ReplyBody};

fn start(password: &str, zip_filename: Option<&str>) -> Pipeline {
    Pipeline::new(&password.to_string(), &zip_filename.map(|s| s.to_string()))
}

fn expect_reply(action: Action) -> (Reply, bool) {
    match action {
        Action::Respond { reply, release_workspace } => (reply, release_workspace),
        _ => panic!("expected the pipeline to respond"),
    }
}

fn body_text(reply: &Reply) -> &str {
    match &reply.body {
        ReplyBody::Text(m) => m.as_str(),
        ReplyBody::Archive(_) => panic!("expected a text body"),
    }
}

#[test]
fn test_create_zip_missing_password() {
    let mut p = start("", None);
    let (reply, release) = expect_reply(p.step(Event::Begin));
    assert_eq!(reply.status, 400);
    assert!(!release);
}

#[test]
fn whitespace_password_rejected_without_workspace() {
    let mut p = start(" \t\n ", None);
    let (reply, release) = expect_reply(p.step(Event::Begin));
    assert_eq!(reply.status, 400);
    assert_eq!(body_text(&reply), "Password is required");
    assert!(!release);
    assert!(!p.workspace_open);
}

#[test]
fn test_create_zip_no_files() {
    let mut p = start("secret", None);
    assert!(matches!(p.step(Event::Begin), Action::OpenWorkspace));
    assert!(matches!(p.step(Event::WorkspaceOpened), Action::AwaitPart));
    assert!(matches!(p.step(Event::PartsDone), Action::ListFiles));
    let (reply, release) = expect_reply(p.step(Event::Listed { files: Vec::new() }));
    assert_eq!(reply.status, 400);
    assert_eq!(body_text(&reply), "No files were uploaded");
    assert!(release);
    assert!(!p.workspace_open);
}

#[test]
fn non_file_parts_are_skipped() {
    let mut p = start("secret", None);
    p.step(Event::Begin);
    p.step(Event::WorkspaceOpened);
    let action = p.step(Event::PartHeader {
        field: "notes".to_string(),
        filename: Some("ignored.txt".to_string()),
    });
    assert!(matches!(action, Action::AwaitPart));
}

#[test]
fn missing_filename_defaults_to_placeholder() {
    let mut p = start("secret", None);
    p.step(Event::Begin);
    p.step(Event::WorkspaceOpened);
    let action = p.step(Event::PartHeader { field: "files".to_string(), filename: None });
    match action {
        Action::StoreFile { name } => assert_eq!(name, "file"),
        _ => panic!("expected the part to be stored"),
    }
}

#[test]
fn two_file_upload_round() {
    let mut p = start("secret", None);
    assert!(matches!(p.step(Event::Begin), Action::OpenWorkspace));
    assert!(matches!(p.step(Event::WorkspaceOpened), Action::AwaitPart));

    let a = p.step(Event::PartHeader {
        field: "files".to_string(),
        filename: Some("a.txt".to_string()),
    });
    match a {
        Action::StoreFile { name } => assert_eq!(name, "a.txt"),
        _ => panic!("expected the first part to be stored"),
    }
    assert!(matches!(p.step(Event::PartStored), Action::AwaitPart));

    let b = p.step(Event::PartHeader {
        field: "files".to_string(),
        filename: Some("b.txt".to_string()),
    });
    match b {
        Action::StoreFile { name } => assert_eq!(name, "b.txt"),
        _ => panic!("expected the second part to be stored"),
    }
    assert!(matches!(p.step(Event::PartStored), Action::AwaitPart));
    assert!(matches!(p.step(Event::PartsDone), Action::ListFiles));

    let run = p.step(Event::Listed {
        files: vec!["a.txt".to_string(), "b.txt".to_string()],
    });
    match run {
        Action::RunArchiver { args } => {
            assert_eq!(args, vec!["-j", "-P", "secret", "protected.zip", "a.txt", "b.txt"]);
        },
        _ => panic!("expected the archiver to run"),
    }

    let read = p.step(Event::ArchiverExited { success: true });
    match read {
        Action::ReadArtifact { name } => assert_eq!(name, "protected.zip"),
        _ => panic!("expected the artifact to be read"),
    }

    let bytes = vec![0x50, 0x4B, 0x05, 0x06];
    let (reply, release) = expect_reply(p.step(Event::ArtifactRead { bytes: bytes.clone() }));
    assert_eq!(reply.status, 200);
    assert_eq!(reply.content_type.as_deref(), Some("application/zip"));
    assert_eq!(reply.disposition.as_deref(), Some("attachment; filename=protected.zip"));
    match reply.body {
        ReplyBody::Archive(b) => assert_eq!(b, bytes),
        ReplyBody::Text(_) => panic!("expected the archive bytes"),
    }
    assert!(release);
    assert!(!p.workspace_open);
}

#[test]
fn password_is_trimmed_and_archive_name_kept() {
    let mut p = start("  secret  ", Some("bundle.zip"));
    p.step(Event::Begin);
    p.step(Event::WorkspaceOpened);
    p.step(Event::PartsDone);
    let run = p.step(Event::Listed { files: vec!["a.txt".to_string()] });
    match run {
        Action::RunArchiver { args } => {
            assert_eq!(args, vec!["-j", "-P", "secret", "bundle.zip", "a.txt"]);
        },
        _ => panic!("expected the archiver to run"),
    }
}

#[test]
fn empty_archive_name_falls_back_to_default() {
    let mut p = start("secret", Some(""));
    p.step(Event::Begin);
    p.step(Event::WorkspaceOpened);
    p.step(Event::PartsDone);
    let run = p.step(Event::Listed { files: vec!["a.txt".to_string()] });
    match run {
        Action::RunArchiver { args } => assert_eq!(args[3], "protected.zip"),
        _ => panic!("expected the archiver to run"),
    }
}

#[test]
fn workspace_denied_answers_500_without_release() {
    let mut p = start("secret", None);
    p.step(Event::Begin);
    let (reply, release) = expect_reply(p.step(Event::WorkspaceDenied));
    assert_eq!(reply.status, 500);
    assert_eq!(body_text(&reply), "Could not create a workspace");
    assert!(!release);
}

#[test]
fn malformed_body_answers_400_and_releases() {
    let mut p = start("secret", None);
    p.step(Event::Begin);
    p.step(Event::WorkspaceOpened);
    let (reply, release) = expect_reply(p.step(Event::PartMalformed));
    assert_eq!(reply.status, 400);
    assert_eq!(body_text(&reply), "Malformed upload body");
    assert!(release);
    assert!(!p.workspace_open);
}

#[test]
fn write_failure_answers_500_and_releases() {
    let mut p = start("secret", None);
    p.step(Event::Begin);
    p.step(Event::WorkspaceOpened);
    p.step(Event::PartHeader { field: "files".to_string(), filename: None });
    let (reply, release) = expect_reply(p.step(Event::WriteDenied));
    assert_eq!(reply.status, 500);
    assert_eq!(body_text(&reply), "Could not store an uploaded file");
    assert!(release);
}

#[test]
fn listing_failure_answers_500_and_releases() {
    let mut p = start("secret", None);
    p.step(Event::Begin);
    p.step(Event::WorkspaceOpened);
    p.step(Event::PartsDone);
    let (reply, release) = expect_reply(p.step(Event::ListingDenied));
    assert_eq!(reply.status, 500);
    assert_eq!(body_text(&reply), "Could not list the uploaded files");
    assert!(release);
}

#[test]
fn archiver_failure_answers_500_and_releases() {
    let mut p = start("secret", None);
    p.step(Event::Begin);
    p.step(Event::WorkspaceOpened);
    p.step(Event::PartsDone);
    p.step(Event::Listed { files: vec!["a.txt".to_string()] });
    let (reply, release) = expect_reply(p.step(Event::ArchiverExited { success: false }));
    assert_eq!(reply.status, 500);
    assert_eq!(body_text(&reply), "Could not create the archive");
    assert!(release);
}

#[test]
fn archiver_unavailable_answers_500_and_releases() {
    let mut p = start("secret", None);
    p.step(Event::Begin);
    p.step(Event::WorkspaceOpened);
    p.step(Event::PartsDone);
    p.step(Event::Listed { files: vec!["a.txt".to_string()] });
    let (reply, release) = expect_reply(p.step(Event::ArchiverDenied));
    assert_eq!(reply.status, 500);
    assert_eq!(body_text(&reply), "Could not run the archiver");
    assert!(release);
}

#[test]
fn artifact_read_failure_answers_500_and_releases() {
    let mut p = start("secret", None);
    p.step(Event::Begin);
    p.step(Event::WorkspaceOpened);
    p.step(Event::PartsDone);
    p.step(Event::Listed { files: vec!["a.txt".to_string()] });
    p.step(Event::ArchiverExited { success: true });
    let (reply, release) = expect_reply(p.step(Event::ArtifactDenied));
    assert_eq!(reply.status, 500);
    assert_eq!(body_text(&reply), "Could not read the archive");
    assert!(release);
}
