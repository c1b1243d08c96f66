use vstd::prelude::*;
use crate::error::{Fault, StoreError};
use crate::location::{dir_path, file_path, StorageLocation};
use crate::platform::Platform;

verus! {

/// What a save or a load asks the host to do next, or how it ended.
pub enum Step {
    /// Create this directory and every missing ancestor.
    CreateDir(String),
    /// Replace the whole content of the file at `path` with `contents`.
    Write { path: String, contents: String },
    /// Tell whether anything exists at this path.
    CheckExists(String),
    /// Read the whole file at this path as text.
    Read(String),
    /// The operation is over, with this result.
    Finished(Result<String, StoreError>),
}

/// The value of a `Step`, over character sequences.
pub enum StepView {
    CreateDir(Seq<char>),
    Write(Seq<char>, Seq<char>),
    CheckExists(Seq<char>),
    Read(Seq<char>),
    Finished(Result<Seq<char>, Fault>),
}

/// A final result, over character sequences.
pub open spec fn result_view(r: Result<String, StoreError>) -> Result<Seq<char>, Fault> {
    match r {
        Ok(s) => Ok(s@),
        Err(e) => Err(e@),
    }
}

/// How a request that returns nothing went, with the failure's message.
pub open spec fn done_view(r: Result<(), String>) -> Result<(), Seq<char>> {
    match r {
        Ok(()) => Ok(()),
        Err(e) => Err(e@),
    }
}

/// How a read went: the text read, or the failure's message.
pub open spec fn read_view(r: Result<String, String>) -> Result<Seq<char>, Seq<char>> {
    match r {
        Ok(s) => Ok(s@),
        Err(e) => Err(e@),
    }
}

impl View for Step {
    type V = StepView;

    open spec fn view(&self) -> StepView {
        match self {
            Step::CreateDir(p) => StepView::CreateDir(p@),
            Step::Write { path, contents } => StepView::Write(path@, contents@),
            Step::CheckExists(p) => StepView::CheckExists(p@),
            Step::Read(p) => StepView::Read(p@),
            Step::Finished(r) => StepView::Finished(result_view(*r)),
        }
    }
}

/// The document that a load yields when none has been saved.
pub open spec fn default_document_spec() -> Seq<char> {
    "{}"@
}

/// First step of a save: without a data root it fails, else it asks for the
/// storage directory.
pub open spec fn save_begin_spec(root: Option<Seq<char>>, sep: char) -> StepView {
    match root {
        None => StepView::Finished(Err(Fault::LocationUnavailable)),
        Some(r) => StepView::CreateDir(dir_path(r, sep)),
    }
}

/// Step of a save once the directory request is answered.
pub open spec fn save_dir_done_spec(
    root: Seq<char>,
    sep: char,
    data: Seq<char>,
    outcome: Result<(), Seq<char>>,
) -> StepView {
    match outcome {
        Ok(()) => StepView::Write(file_path(root, sep), data),
        Err(e) => StepView::Finished(Err(Fault::DirectoryCreateFailed(e))),
    }
}

/// Last step of a save: the path written, or the write's failure.
pub open spec fn save_write_done_spec(
    root: Seq<char>,
    sep: char,
    outcome: Result<(), Seq<char>>,
) -> StepView {
    match outcome {
        Ok(()) => StepView::Finished(Ok(file_path(root, sep))),
        Err(e) => StepView::Finished(Err(Fault::WriteFailed(e))),
    }
}

/// First step of a load: without a data root it fails, else it asks whether
/// the document exists.
pub open spec fn load_begin_spec(root: Option<Seq<char>>, sep: char) -> StepView {
    match root {
        None => StepView::Finished(Err(Fault::LocationUnavailable)),
        Some(r) => StepView::CheckExists(file_path(r, sep)),
    }
}

/// Step of a load once existence is known: a missing document is the
/// default one, an existing one is read.
pub open spec fn load_exists_done_spec(root: Seq<char>, sep: char, exists: bool) -> StepView {
    if exists {
        StepView::Read(file_path(root, sep))
    } else {
        StepView::Finished(Ok(default_document_spec()))
    }
}

/// Last step of a load: the content read verbatim, or the read's failure.
pub open spec fn load_read_done_spec(outcome: Result<Seq<char>, Seq<char>>) -> StepView {
    match outcome {
        Ok(c) => StepView::Finished(Ok(c)),
        Err(e) => StepView::Finished(Err(Fault::ReadFailed(e))),
    }
}

/// Starts saving a document on platform `p`.
pub fn save_begin(p: &Platform) -> (r: Step)
    ensures
        r@ == save_begin_spec(p.root_view(), p.separator),
{
    match &p.data_root {
        None => Step::Finished(Err(StoreError::LocationUnavailable)),
        Some(root) => {
            let loc = StorageLocation::new(root.as_str(), p.separator);
            Step::CreateDir(loc.dir)
        },
    }
}

/// Continues a save of `data` once the host reports how creating the
/// directory went.
pub fn save_dir_done(p: &Platform, data: String, outcome: Result<(), String>) -> (r: Step)
    requires
        p.data_root is Some,
    ensures
        r@ == save_dir_done_spec(p.root_view()->Some_0, p.separator, data@, done_view(outcome)),
{
    match outcome {
        Ok(()) => {
            let root = p.data_root.as_ref().unwrap();
            let loc = StorageLocation::new(root.as_str(), p.separator);
            Step::Write { path: loc.file, contents: data }
        },
        Err(e) => Step::Finished(Err(StoreError::DirectoryCreateFailed(e))),
    }
}

/// Ends a save once the host reports how writing the file went.
pub fn save_write_done(p: &Platform, outcome: Result<(), String>) -> (r: Step)
    requires
        p.data_root is Some,
    ensures
        r@ == save_write_done_spec(p.root_view()->Some_0, p.separator, done_view(outcome)),
{
    match outcome {
        Ok(()) => {
            let root = p.data_root.as_ref().unwrap();
            let loc = StorageLocation::new(root.as_str(), p.separator);
            Step::Finished(Ok(loc.file))
        },
        Err(e) => Step::Finished(Err(StoreError::WriteFailed(e))),
    }
}

/// Starts loading the document on platform `p`.
pub fn load_begin(p: &Platform) -> (r: Step)
    ensures
        r@ == load_begin_spec(p.root_view(), p.separator),
{
    match &p.data_root {
        None => Step::Finished(Err(StoreError::LocationUnavailable)),
        Some(root) => {
            let loc = StorageLocation::new(root.as_str(), p.separator);
            Step::CheckExists(loc.file)
        },
    }
}

/// Continues a load once the host reports whether the document exists.
pub fn load_exists_done(p: &Platform, exists: bool) -> (r: Step)
    requires
        p.data_root is Some,
    ensures
        r@ == load_exists_done_spec(p.root_view()->Some_0, p.separator, exists),
{
    if exists {
        let root = p.data_root.as_ref().unwrap();
        let loc = StorageLocation::new(root.as_str(), p.separator);
        Step::Read(loc.file)
    } else {
        Step::Finished(Ok(crate::default_document()))
    }
}

/// Ends a load once the host reports what reading the file gave.
pub fn load_read_done(outcome: Result<String, String>) -> (r: Step)
    ensures
        r@ == load_read_done_spec(read_view(outcome)),
{
    match outcome {
        Ok(c) => Step::Finished(Ok(c)),
        Err(e) => Step::Finished(Err(StoreError::ReadFailed(e))),
    }
}

} // verus!
