use model_folder::error::ModelError;
use model_folder::importer::{Import, ImportEvent, ImportRequest, ImportStep};

/// A disk to carry requests out on: what exists, and what fails.
struct Disk {
    source_exists: bool,
    folder_exists: bool,
    folder_creation_failure: Option<String>,
    entries: Vec<String>,
    copy_failure: Option<String>,
    folders_created: usize,
    copies: Vec<String>,
}

impl Disk {
    fn with_source() -> Disk {
        Disk {
            source_exists: true,
            folder_exists: true,
            folder_creation_failure: None,
            entries: Vec::new(),
            copy_failure: None,
            folders_created: 0,
            copies: Vec::new(),
        }
    }

    fn carry_out(&mut self, request: &ImportRequest) -> ImportEvent {
        match request {
            ImportRequest::ProbeSource => ImportEvent::Probed(self.source_exists),
            ImportRequest::ProbeFolder => ImportEvent::Probed(self.folder_exists),
            ImportRequest::CreateFolder => match &self.folder_creation_failure {
                Some(cause) => ImportEvent::Failed(cause.clone()),
                None => {
                    self.folder_exists = true;
                    self.folders_created += 1;
                    ImportEvent::Done
                }
            },
            ImportRequest::ProbeDestination(name) => ImportEvent::Probed(self.entries.contains(name)),
            ImportRequest::CopyFile(name) => match &self.copy_failure {
                Some(cause) => ImportEvent::Failed(cause.clone()),
                None => {
                    self.entries.push(name.clone());
                    self.copies.push(name.clone());
                    ImportEvent::Done
                }
            },
        }
    }
}

fn import(source_path: &str, disk: &mut Disk) -> (Vec<ImportRequest>, Result<String, ModelError>) {
    let mut import = Import::new(source_path);
    let mut requests = Vec::new();
    loop {
        assert!(requests.len() < 5);
        let request = import.request();
        let event = disk.carry_out(&request);
        requests.push(request);
        match import.step(event) {
            ImportStep::Continue(next) => import = next,
            ImportStep::Finished(outcome) => return (requests, outcome),
        }
    }
}

#[test]
fn import_into_absent_folder_creates_it() {
    let mut disk = Disk::with_source();
    disk.folder_exists = false;
    let (requests, outcome) = import("/tmp/x/net.gguf", &mut disk);
    assert_eq!(outcome, Ok("models/net.gguf".to_string()));
    assert_eq!(
        requests,
        vec![
            ImportRequest::ProbeSource,
            ImportRequest::ProbeFolder,
            ImportRequest::CreateFolder,
            ImportRequest::ProbeDestination("net.gguf".to_string()),
            ImportRequest::CopyFile("net.gguf".to_string()),
        ]
    );
    assert_eq!(disk.folders_created, 1);
    assert_eq!(disk.copies, vec!["net.gguf".to_string()]);
}

#[test]
fn import_into_existing_folder_creates_nothing() {
    let mut disk = Disk::with_source();
    disk.entries.push("other.gguf".to_string());
    let (requests, outcome) = import("downloads/net.gguf", &mut disk);
    assert_eq!(outcome, Ok("models/net.gguf".to_string()));
    assert_eq!(
        requests,
        vec![
            ImportRequest::ProbeSource,
            ImportRequest::ProbeFolder,
            ImportRequest::ProbeDestination("net.gguf".to_string()),
            ImportRequest::CopyFile("net.gguf".to_string()),
        ]
    );
    assert_eq!(disk.folders_created, 0);
}

#[test]
fn import_of_taken_name_fails_and_copies_nothing() {
    let mut disk = Disk::with_source();
    disk.entries.push("net.gguf".to_string());
    let (requests, outcome) = import("/tmp/x/net.gguf", &mut disk);
    assert_eq!(outcome, Err(ModelError::DuplicateModelName));
    assert_eq!(
        requests,
        vec![
            ImportRequest::ProbeSource,
            ImportRequest::ProbeFolder,
            ImportRequest::ProbeDestination("net.gguf".to_string()),
        ]
    );
    assert!(disk.copies.is_empty());
    assert_eq!(disk.entries, vec!["net.gguf".to_string()]);
}

#[test]
fn import_of_other_file_type_fails_before_the_folder_is_touched() {
    let mut disk = Disk::with_source();
    disk.folder_exists = false;
    let (requests, outcome) = import("/tmp/x/weights.bin", &mut disk);
    assert_eq!(outcome, Err(ModelError::UnsupportedFileType));
    assert_eq!(requests, vec![ImportRequest::ProbeSource]);
    assert_eq!(disk.folders_created, 0);
    assert!(!disk.folder_exists);
    assert!(disk.copies.is_empty());
}

#[test]
fn import_of_upper_case_extension_fails() {
    let mut disk = Disk::with_source();
    let (requests, outcome) = import("/tmp/x/net.GGUF", &mut disk);
    assert_eq!(outcome, Err(ModelError::UnsupportedFileType));
    assert_eq!(requests, vec![ImportRequest::ProbeSource]);
}

#[test]
fn import_of_missing_source_fails_without_side_effect() {
    let mut disk = Disk::with_source();
    disk.source_exists = false;
    disk.folder_exists = false;
    let (requests, outcome) = import("/tmp/x/net.gguf", &mut disk);
    assert_eq!(outcome, Err(ModelError::SourceNotFound));
    assert_eq!(requests, vec![ImportRequest::ProbeSource]);
    assert_eq!(disk.folders_created, 0);
    assert!(disk.copies.is_empty());
}

#[test]
fn import_of_missing_source_of_other_type_reports_the_missing_source() {
    let mut disk = Disk::with_source();
    disk.source_exists = false;
    let (_, outcome) = import("/tmp/x/weights.bin", &mut disk);
    assert_eq!(outcome, Err(ModelError::SourceNotFound));
}

#[test]
fn import_fails_when_the_folder_cannot_be_created() {
    let mut disk = Disk::with_source();
    disk.folder_exists = false;
    disk.folder_creation_failure = Some("Read-only file system (os error 30)".to_string());
    let (requests, outcome) = import("/tmp/x/net.gguf", &mut disk);
    assert_eq!(
        outcome,
        Err(ModelError::DirectoryCreate("Read-only file system (os error 30)".to_string()))
    );
    assert_eq!(
        requests,
        vec![ImportRequest::ProbeSource, ImportRequest::ProbeFolder, ImportRequest::CreateFolder]
    );
    assert!(disk.copies.is_empty());
}

#[test]
fn import_fails_when_the_copy_fails() {
    let mut disk = Disk::with_source();
    disk.copy_failure = Some("No space left on device (os error 28)".to_string());
    let (requests, outcome) = import("/tmp/x/net.gguf", &mut disk);
    assert_eq!(
        outcome,
        Err(ModelError::Copy("No space left on device (os error 28)".to_string()))
    );
    assert_eq!(requests.len(), 4);
    assert_eq!(requests[3], ImportRequest::CopyFile("net.gguf".to_string()));
}

#[test]
fn import_takes_the_last_segment_of_the_path() {
    for (path, reference) in [
        ("net.gguf", "models/net.gguf"),
        ("./net.gguf", "models/net.gguf"),
        ("a/b/../c/net.v2.gguf", "models/net.v2.gguf"),
        ("/tmp/dir.gguf/", "models/dir.gguf"),
        ("/tmp/my model.gguf", "models/my model.gguf"),
        ("/tmp/模型.gguf", "models/模型.gguf"),
    ] {
        let mut disk = Disk::with_source();
        let (requests, outcome) = import(path, &mut disk);
        assert_eq!(outcome, Ok(reference.to_string()), "{:?}", path);
        assert_eq!(requests.len(), 4);
    }
}

#[test]
fn import_of_path_without_a_name_is_unsupported() {
    for path in ["/", "..", "/tmp/..", "", ".", "/tmp/x.gguf/.."] {
        let mut disk = Disk::with_source();
        let (requests, outcome) = import(path, &mut disk);
        assert_eq!(outcome, Err(ModelError::UnsupportedFileType), "{:?}", path);
        assert_eq!(requests, vec![ImportRequest::ProbeSource]);
    }
}

#[test]
fn import_of_hidden_file_named_like_the_extension_is_unsupported() {
    let mut disk = Disk::with_source();
    let (_, outcome) = import("/tmp/.gguf", &mut disk);
    assert_eq!(outcome, Err(ModelError::UnsupportedFileType));
}

#[test]
fn import_starts_by_asking_for_the_source() {
    assert_eq!(Import::new("/tmp/x/net.gguf").request(), ImportRequest::ProbeSource);
    assert_eq!(Import::for_file_name(None).request(), ImportRequest::ProbeSource);
}

#[test]
fn import_for_file_name_goes_by_the_name_given() {
    let import = Import::for_file_name(Some("net.gguf".to_string()));
    let import = match import.step(ImportEvent::Probed(true)) {
        ImportStep::Continue(import) => import,
        ImportStep::Finished(outcome) => panic!("{:?}", outcome),
    };
    assert_eq!(import.request(), ImportRequest::ProbeFolder);
    match Import::for_file_name(None).step(ImportEvent::Probed(true)) {
        ImportStep::Finished(outcome) => assert_eq!(outcome, Err(ModelError::UnsupportedFileType)),
        ImportStep::Continue(import) => panic!("{:?}", import),
    }
    match Import::for_file_name(None).step(ImportEvent::Probed(false)) {
        ImportStep::Finished(outcome) => assert_eq!(outcome, Err(ModelError::SourceNotFound)),
        ImportStep::Continue(import) => panic!("{:?}", import),
    }
}

fn advance(import: Import, event: ImportEvent) -> Import {
    match import.step(event) {
        ImportStep::Continue(import) => import,
        ImportStep::Finished(outcome) => panic!("{:?}", outcome),
    }
}

#[test]
fn event_that_does_not_answer_the_request_changes_nothing() {
    let import = Import::new("/tmp/x/net.gguf");
    let import = advance(import, ImportEvent::Done);
    assert_eq!(import.request(), ImportRequest::ProbeSource);
    let import = advance(import, ImportEvent::Failed("x".to_string()));
    assert_eq!(import.request(), ImportRequest::ProbeSource);
    let import = advance(import, ImportEvent::Probed(true));
    assert_eq!(import.request(), ImportRequest::ProbeFolder);
    let import = advance(import, ImportEvent::Done);
    assert_eq!(import.request(), ImportRequest::ProbeFolder);
    let import = advance(import, ImportEvent::Probed(false));
    assert_eq!(import.request(), ImportRequest::CreateFolder);
    let import = advance(import, ImportEvent::Probed(true));
    assert_eq!(import.request(), ImportRequest::CreateFolder);
    let import = advance(import, ImportEvent::Done);
    assert_eq!(import.request(), ImportRequest::ProbeDestination("net.gguf".to_string()));
    let import = advance(import, ImportEvent::Failed("x".to_string()));
    assert_eq!(import.request(), ImportRequest::ProbeDestination("net.gguf".to_string()));
    let import = advance(import, ImportEvent::Probed(false));
    assert_eq!(import.request(), ImportRequest::CopyFile("net.gguf".to_string()));
    let import = advance(import, ImportEvent::Probed(false));
    assert_eq!(import.request(), ImportRequest::CopyFile("net.gguf".to_string()));
    match import.step(ImportEvent::Done) {
        ImportStep::Finished(outcome) => assert_eq!(outcome, Ok("models/net.gguf".to_string())),
        ImportStep::Continue(import) => panic!("{:?}", import),
    }
}

#[test]
fn messages_are_the_documented_ones() {
    assert_eq!(ModelError::SourceNotFound.message(), "Source file does not exist");
    assert_eq!(ModelError::UnsupportedFileType.message(), "Only .gguf files are supported");
    assert_eq!(
        ModelError::DirectoryCreate("denied".to_string()).message(),
        "Failed to create models directory: denied"
    );
    assert_eq!(
        ModelError::DuplicateModelName.message(),
        "A model with this name already exists in the models folder"
    );
    assert_eq!(ModelError::Copy("disk full".to_string()).message(), "Failed to copy file: disk full");
    assert_eq!(
        ModelError::DirectoryRead("denied".to_string()).message(),
        "Failed to read models directory: denied"
    );
    assert_eq!(ModelError::Copy(String::new()).message(), "Failed to copy file: ");
}
