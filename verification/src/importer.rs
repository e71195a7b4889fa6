//! Importing a file into the model folder, as a sequence of requests to the
//! caller and decisions on its answers.
//!
//! The library decides; the caller looks at the disk and changes it. An
//! import starts from the path of the file to bring in. At every point it has
//! one request standing: something to find out or something to do. The caller
//! carries it out and reports what happened, and the import either moves on to
//! its next request or ends with a reference to the new model file or with a
//! failure. The first check that fails decides the failure, and nothing is
//! created or copied before the checks in front of it have passed.

use vstd::prelude::*;
use crate::error::{Failure, ModelError};
use crate::name::{has_model_extension, is_model_file_name, model_reference, reference_to};

verus! {

/// What the caller is asked to find out or to do.
#[derive(Debug, Clone, PartialEq, Eq)]
pub enum ImportRequest {
    /// Find out whether the file to import exists.
    ProbeSource,
    /// Find out whether the model folder exists.
    ProbeFolder,
    /// Create the model folder, with any parent folders that are missing.
    CreateFolder,
    /// Find out whether the model folder holds an entry of this name.
    ProbeDestination(String),
    /// Copy the file to import into the model folder under this name.
    CopyFile(String),
}

/// An `ImportRequest` with its name as a character sequence.
pub ghost enum Request {
    ProbeSource,
    ProbeFolder,
    CreateFolder,
    ProbeDestination(Seq<char>),
    CopyFile(Seq<char>),
}

impl View for ImportRequest {
    type V = Request;

    open spec fn view(&self) -> Request {
        match self {
            ImportRequest::ProbeSource => Request::ProbeSource,
            ImportRequest::ProbeFolder => Request::ProbeFolder,
            ImportRequest::CreateFolder => Request::CreateFolder,
            ImportRequest::ProbeDestination(name) => Request::ProbeDestination(name@),
            ImportRequest::CopyFile(name) => Request::CopyFile(name@),
        }
    }
}

/// What the caller reports after carrying out a request.
#[derive(Debug, Clone, PartialEq, Eq)]
pub enum ImportEvent {
    /// The answer to a probe: whether the thing asked about exists.
    Probed(bool),
    /// The folder was created, or the file was copied.
    Done,
    /// The folder could not be created, or the file could not be copied;
    /// holds the cause.
    Failed(String),
}

/// An `ImportEvent` with its cause as a character sequence.
pub ghost enum Event {
    Probed(bool),
    Done,
    Failed(Seq<char>),
}

impl View for ImportEvent {
    type V = Event;

    open spec fn view(&self) -> Event {
        match self {
            ImportEvent::Probed(exists) => Event::Probed(*exists),
            ImportEvent::Done => Event::Done,
            ImportEvent::Failed(cause) => Event::Failed(cause@),
        }
    }
}

/// Where an import stands: which answer it waits for, and the file name it
/// works with.
pub ghost enum ImportState {
    /// Waits to learn whether the source exists. Holds the final component of
    /// the source path, if it has one.
    AwaitSource(Option<Seq<char>>),
    /// Waits to learn whether the model folder exists.
    AwaitFolder(Seq<char>),
    /// Waits for the model folder to be created.
    AwaitFolderCreation(Seq<char>),
    /// Waits to learn whether the name is taken in the model folder.
    AwaitDestination(Seq<char>),
    /// Waits for the copy to be made.
    AwaitCopy(Seq<char>),
}

/// What a step leads to.
pub ghost enum Step {
    /// The import goes on from this state.
    Continue(ImportState),
    /// The import has ended: with the reference to the new model file, or
    /// with a failure.
    Finished(Result<Seq<char>, Failure>),
}

/// The request that stands in a state.
pub open spec fn request_in(state: ImportState) -> Request {
    match state {
        ImportState::AwaitSource(_) => Request::ProbeSource,
        ImportState::AwaitFolder(_) => Request::ProbeFolder,
        ImportState::AwaitFolderCreation(_) => Request::CreateFolder,
        ImportState::AwaitDestination(name) => Request::ProbeDestination(name),
        ImportState::AwaitCopy(name) => Request::CopyFile(name),
    }
}

/// The step taken from a state on an event. An event that does not answer
/// the standing request changes nothing.
pub open spec fn next(state: ImportState, event: Event) -> Step {
    match (state, event) {
        (ImportState::AwaitSource(_), Event::Probed(false)) => Step::Finished(
            Err(Failure::SourceNotFound),
        ),
        (ImportState::AwaitSource(file_name), Event::Probed(true)) => match file_name {
            Some(name) if has_model_extension(name) => Step::Continue(
                ImportState::AwaitFolder(name),
            ),
            _ => Step::Finished(Err(Failure::UnsupportedFileType)),
        },
        (ImportState::AwaitFolder(name), Event::Probed(true)) => Step::Continue(
            ImportState::AwaitDestination(name),
        ),
        (ImportState::AwaitFolder(name), Event::Probed(false)) => Step::Continue(
            ImportState::AwaitFolderCreation(name),
        ),
        (ImportState::AwaitFolderCreation(name), Event::Done) => Step::Continue(
            ImportState::AwaitDestination(name),
        ),
        (ImportState::AwaitFolderCreation(_), Event::Failed(cause)) => Step::Finished(
            Err(Failure::DirectoryCreate(cause)),
        ),
        (ImportState::AwaitDestination(_), Event::Probed(true)) => Step::Finished(
            Err(Failure::DuplicateModelName),
        ),
        (ImportState::AwaitDestination(name), Event::Probed(false)) => Step::Continue(
            ImportState::AwaitCopy(name),
        ),
        (ImportState::AwaitCopy(name), Event::Done) => Step::Finished(Ok(reference_to(name))),
        (ImportState::AwaitCopy(_), Event::Failed(cause)) => Step::Finished(
            Err(Failure::Copy(cause)),
        ),
        _ => Step::Continue(state),
    }
}

#[derive(Debug)]
enum Stage {
    Source(Option<String>),
    Folder(String),
    FolderCreation(String),
    Destination(String),
    Copy(String),
}

/// An import under way.
#[derive(Debug)]
pub struct Import {
    stage: Stage,
}

impl View for Import {
    type V = ImportState;

    closed spec fn view(&self) -> ImportState {
        match self.stage {
            Stage::Source(None) => ImportState::AwaitSource(None),
            Stage::Source(Some(name)) => ImportState::AwaitSource(Some(name@)),
            Stage::Folder(name) => ImportState::AwaitFolder(name@),
            Stage::FolderCreation(name) => ImportState::AwaitFolderCreation(name@),
            Stage::Destination(name) => ImportState::AwaitDestination(name@),
            Stage::Copy(name) => ImportState::AwaitCopy(name@),
        }
    }
}

/// What a step of an import leads to.
#[derive(Debug)]
pub enum ImportStep {
    /// The import goes on; its next request stands.
    Continue(Import),
    /// The import has ended: with the reference to the new model file, or
    /// with a failure.
    Finished(Result<String, ModelError>),
}

/// The end of an import with its texts as character sequences.
pub open spec fn outcome_of(r: Result<String, ModelError>) -> Result<Seq<char>, Failure> {
    match r {
        Ok(reference) => Ok(reference@),
        Err(e) => Err(e@),
    }
}

impl View for ImportStep {
    type V = Step;

    open spec fn view(&self) -> Step {
        match self {
            ImportStep::Continue(import) => Step::Continue(import@),
            ImportStep::Finished(r) => Step::Finished(outcome_of(*r)),
        }
    }
}

/// The text of an optional string.
pub open spec fn text_of(s: Option<String>) -> Option<Seq<char>> {
    match s {
        Some(s) => Some(s@),
        None => None,
    }
}

/// The final component of a path, as the platform's path syntax reads it:
/// the name of the file or folder that the path leads to. A path that ends
/// in `..`, or that has no component to name, has none. The result is fixed
/// by the text of the path.
pub uninterp spec fn final_component(path: Seq<char>) -> Option<Seq<char>>;

/// Asks `std::path::Path::file_name` for the final component of a path given
/// as text. Nothing is proved of it: the contract gives the answer the name
/// `final_component` and claims only that it depends on the path's text alone.
#[verifier::external_body]
fn path_file_name(path: &str) -> (r: Option<String>)
    ensures
        text_of(r) == final_component(path@),
{
    match std::path::Path::new(path).file_name() {
        Some(name) => Some(name.to_string_lossy().into_owned()),
        None => None,
    }
}

impl Import {
    /// Starts the import of the file at `source_path`.
    pub fn new(source_path: &str) -> (import: Import)
        ensures
            import@ == ImportState::AwaitSource(final_component(source_path@)),
    {
        Import::for_file_name(path_file_name(source_path))
    }

    /// Starts the import of a file whose path has the given final component.
    pub fn for_file_name(file_name: Option<String>) -> (import: Import)
        ensures
            import@ == ImportState::AwaitSource(text_of(file_name)),
    {
        Import { stage: Stage::Source(file_name) }
    }

    /// The request that stands: what the caller has to carry out next.
    pub fn request(&self) -> (request: ImportRequest)
        ensures
            request@ == request_in(self@),
    {
        match &self.stage {
            Stage::Source(_) => ImportRequest::ProbeSource,
            Stage::Folder(_) => ImportRequest::ProbeFolder,
            Stage::FolderCreation(_) => ImportRequest::CreateFolder,
            Stage::Destination(name) => ImportRequest::ProbeDestination(name.clone()),
            Stage::Copy(name) => ImportRequest::CopyFile(name.clone()),
        }
    }

    /// Takes the caller's report on the standing request and decides how the
    /// import goes on.
    pub fn step(self, event: ImportEvent) -> (step: ImportStep)
        ensures
            step@ == next(self@, event@),
    {
        match (self.stage, event) {
            (Stage::Source(_), ImportEvent::Probed(false)) => ImportStep::Finished(
                Err(ModelError::SourceNotFound),
            ),
            (Stage::Source(Some(name)), ImportEvent::Probed(true)) => {
                if is_model_file_name(name.as_str()) {
                    ImportStep::Continue(Import { stage: Stage::Folder(name) })
                } else {
                    ImportStep::Finished(Err(ModelError::UnsupportedFileType))
                }
            },
            (Stage::Source(None), ImportEvent::Probed(true)) => ImportStep::Finished(
                Err(ModelError::UnsupportedFileType),
            ),
            (Stage::Folder(name), ImportEvent::Probed(true)) => ImportStep::Continue(
                Import { stage: Stage::Destination(name) },
            ),
            (Stage::Folder(name), ImportEvent::Probed(false)) => ImportStep::Continue(
                Import { stage: Stage::FolderCreation(name) },
            ),
            (Stage::FolderCreation(name), ImportEvent::Done) => ImportStep::Continue(
                Import { stage: Stage::Destination(name) },
            ),
            (Stage::FolderCreation(_), ImportEvent::Failed(cause)) => ImportStep::Finished(
                Err(ModelError::DirectoryCreate(cause)),
            ),
            (Stage::Destination(_), ImportEvent::Probed(true)) => ImportStep::Finished(
                Err(ModelError::DuplicateModelName),
            ),
            (Stage::Destination(name), ImportEvent::Probed(false)) => ImportStep::Continue(
                Import { stage: Stage::Copy(name) },
            ),
            (Stage::Copy(name), ImportEvent::Done) => ImportStep::Finished(
                Ok(model_reference(name.as_str())),
            ),
            (Stage::Copy(_), ImportEvent::Failed(cause)) => ImportStep::Finished(
                Err(ModelError::Copy(cause)),
            ),
            (stage, _) => ImportStep::Continue(Import { stage }),
        }
    }
}

/// What the caller would meet on disk in the course of one import.
pub ghost struct Disk {
    /// The file to import exists.
    pub source_exists: bool,
    /// The model folder exists.
    pub folder_exists: bool,
    /// The cause, should creating the model folder fail.
    pub folder_creation_failure: Option<Seq<char>>,
    /// The model folder holds an entry of the name asked about.
    pub destination_exists: bool,
    /// The cause, should copying the file fail.
    pub copy_failure: Option<Seq<char>>,
}

/// The event that a caller reports when it carries out `request` on `disk`.
pub open spec fn answer(disk: Disk, request: Request) -> Event {
    match request {
        Request::ProbeSource => Event::Probed(disk.source_exists),
        Request::ProbeFolder => Event::Probed(disk.folder_exists),
        Request::CreateFolder => match disk.folder_creation_failure {
            Some(cause) => Event::Failed(cause),
            None => Event::Done,
        },
        Request::ProbeDestination(_) => Event::Probed(disk.destination_exists),
        Request::CopyFile(_) => match disk.copy_failure {
            Some(cause) => Event::Failed(cause),
            None => Event::Done,
        },
    }
}

/// The course of an import: the requests made, in order, and how it ended,
/// if it has ended.
pub ghost struct Run {
    pub requests: Seq<Request>,
    pub outcome: Option<Result<Seq<char>, Failure>>,
}

/// The course that an import takes from `state` when each request is carried
/// out on `disk` and reported, for at most `limit` requests.
pub open spec fn run(state: ImportState, disk: Disk, limit: nat) -> Run
    decreases limit,
{
    if limit == 0 {
        Run { requests: Seq::empty(), outcome: None }
    } else {
        let request = request_in(state);
        match next(state, answer(disk, request)) {
            Step::Finished(outcome) => Run { requests: seq![request], outcome: Some(outcome) },
            Step::Continue(then) => {
                let rest = run(then, disk, (limit - 1) as nat);
                Run { requests: seq![request] + rest.requests, outcome: rest.outcome }
            },
        }
    }
}

/// The course of the import of a file whose path has the given final
/// component. Five requests are all an import can make.
pub open spec fn import_run(file_name: Option<Seq<char>>, disk: Disk) -> Run {
    run(ImportState::AwaitSource(file_name), disk, 5)
}

/// The final component names a model file.
pub open spec fn names_model(file_name: Option<Seq<char>>) -> bool {
    file_name matches Some(name) && has_model_extension(name)
}

/// The model folder is there once it has been asked for: it exists, or it can
/// be created.
pub open spec fn folder_available(disk: Disk) -> bool {
    disk.folder_exists || disk.folder_creation_failure is None
}

/// How an import ends, check by check: the source must exist; its name must
/// be that of a model file; the model folder must exist or be created; the
/// name must be free in it; the copy must succeed. The first of these that
/// does not hold decides the failure.
pub open spec fn import_outcome(file_name: Option<Seq<char>>, disk: Disk) -> Result<
    Seq<char>,
    Failure,
> {
    if !disk.source_exists {
        Err(Failure::SourceNotFound)
    } else if !names_model(file_name) {
        Err(Failure::UnsupportedFileType)
    } else if !folder_available(disk) {
        Err(Failure::DirectoryCreate(disk.folder_creation_failure->0))
    } else if disk.destination_exists {
        Err(Failure::DuplicateModelName)
    } else if disk.copy_failure is Some {
        Err(Failure::Copy(disk.copy_failure->0))
    } else {
        Ok(reference_to(file_name->0))
    }
}

/// The requests that an import makes, in order.
pub open spec fn import_requests(file_name: Option<Seq<char>>, disk: Disk) -> Seq<Request> {
    if !disk.source_exists || !names_model(file_name) {
        seq![Request::ProbeSource]
    } else {
        let name = file_name->0;
        let folder = if disk.folder_exists {
            seq![Request::ProbeSource, Request::ProbeFolder]
        } else {
            seq![Request::ProbeSource, Request::ProbeFolder, Request::CreateFolder]
        };
        if !folder_available(disk) {
            folder
        } else if disk.destination_exists {
            folder.push(Request::ProbeDestination(name))
        } else {
            folder.push(Request::ProbeDestination(name)).push(Request::CopyFile(name))
        }
    }
}

/// Whatever is on disk, an import ends within five requests, makes the
/// requests of `import_requests`, and ends as `import_outcome` says.
pub proof fn lemma_import_run(file_name: Option<Seq<char>>, disk: Disk)
    ensures
        import_run(file_name, disk).outcome == Some(import_outcome(file_name, disk)),
        import_run(file_name, disk).requests == import_requests(file_name, disk),
{
    reveal_with_fuel(run, 6);
}

/// An import of a file that does not exist fails with `SourceNotFound`, and
/// all it has asked for is whether the file exists: no folder is created and
/// nothing is copied.
pub proof fn lemma_missing_source(file_name: Option<Seq<char>>, disk: Disk)
    requires
        !disk.source_exists,
    ensures
        import_run(file_name, disk).outcome == Some(
            Err::<Seq<char>, Failure>(Failure::SourceNotFound),
        ),
        import_run(file_name, disk).requests == seq![Request::ProbeSource],
{
    lemma_import_run(file_name, disk);
}

/// An import of an existing file whose name is not that of a model file
/// fails with `UnsupportedFileType` before the model folder is looked at,
/// created or written to.
pub proof fn lemma_unsupported_file_type(file_name: Option<Seq<char>>, disk: Disk)
    requires
        disk.source_exists,
        !names_model(file_name),
    ensures
        import_run(file_name, disk).outcome == Some(
            Err::<Seq<char>, Failure>(Failure::UnsupportedFileType),
        ),
        import_run(file_name, disk).requests == seq![Request::ProbeSource],
{
    lemma_import_run(file_name, disk);
}

/// An import of a model file whose name is taken in the model folder fails
/// with `DuplicateModelName`, and no copy is asked for: the entry that holds
/// the name is left as it is.
pub proof fn lemma_duplicate_name(file_name: Option<Seq<char>>, disk: Disk)
    requires
        disk.source_exists,
        names_model(file_name),
        folder_available(disk),
        disk.destination_exists,
    ensures
        import_run(file_name, disk).outcome == Some(
            Err::<Seq<char>, Failure>(Failure::DuplicateModelName),
        ),
        forall|i: int|
            0 <= i < import_run(file_name, disk).requests.len() ==> !(import_run(
                file_name,
                disk,
            ).requests[i] is CopyFile),
{
    lemma_import_run(file_name, disk);
}

/// An import of a model file into a model folder that does not exist yet
/// asks for the folder to be created, then for the copy under the file's own
/// name, and ends with the reference to that name.
pub proof fn lemma_import_creates_folder(name: Seq<char>, disk: Disk)
    requires
        disk.source_exists,
        has_model_extension(name),
        !disk.folder_exists,
        disk.folder_creation_failure is None,
        !disk.destination_exists,
        disk.copy_failure is None,
    ensures
        import_run(Some(name), disk).outcome == Some(
            Ok::<Seq<char>, Failure>(reference_to(name)),
        ),
        import_run(Some(name), disk).requests == seq![
            Request::ProbeSource,
            Request::ProbeFolder,
            Request::CreateFolder,
            Request::ProbeDestination(name),
            Request::CopyFile(name),
        ],
{
    lemma_import_run(Some(name), disk);
}

/// Nothing on disk is changed before the checks in front of the change have
/// passed. The model folder is created only for an existing source that
/// names a model file, and only where the folder is missing. A copy is made
/// only after that, into a folder that is there, under the source's own name,
/// and only where that name is free.
pub proof fn lemma_changes_follow_checks(file_name: Option<Seq<char>>, disk: Disk, i: int)
    requires
        0 <= i < import_run(file_name, disk).requests.len(),
    ensures
        import_run(file_name, disk).requests[i] is CreateFolder ==> disk.source_exists
            && names_model(file_name) && !disk.folder_exists,
        import_run(file_name, disk).requests[i] matches Request::CopyFile(name)
            ==> disk.source_exists && names_model(file_name) && file_name == Some(name)
            && folder_available(disk) && !disk.destination_exists,
{
    lemma_import_run(file_name, disk);
}

/// An import succeeds exactly when every check passes, and then its result
/// is the reference to the source's own file name.
pub proof fn lemma_import_succeeds(file_name: Option<Seq<char>>, disk: Disk)
    ensures
        import_run(file_name, disk).outcome matches Some(Ok(reference)) <==> disk.source_exists
            && names_model(file_name) && folder_available(disk) && !disk.destination_exists
            && disk.copy_failure is None,
        import_run(file_name, disk).outcome matches Some(Ok(reference)) ==> reference
            == reference_to(file_name->0),
{
    lemma_import_run(file_name, disk);
}

} // verus!
