use vstd::prelude::*;
use crate::error::Fault;
use crate::location::{data_file_name, dir_path, file_path, join_spec};
use crate::session::{
    default_document_spec, load_begin_spec, load_exists_done_spec, load_read_done_spec,
    save_begin_spec, save_dir_done_spec, save_write_done_spec, StepView,
};

verus! {

/// A disk on which every path holds a directory, a file, or nothing.
pub struct Disk {
    pub dirs: Set<Seq<char>>,
    pub files: Map<Seq<char>, Seq<char>>,
}

/// Creating a directory and its ancestors: it fails only where a file
/// already stands at that path, and does nothing where the directory exists.
pub open spec fn create_dir_all(d: Disk, path: Seq<char>) -> (Disk, Result<(), Seq<char>>) {
    if d.files.contains_key(path) {
        (d, Err(Seq::empty()))
    } else {
        (Disk { dirs: d.dirs.insert(path), files: d.files }, Ok(()))
    }
}

/// Writing a whole file: it replaces any earlier content, and fails only
/// where a directory stands at that path.
pub open spec fn write_file(d: Disk, path: Seq<char>, contents: Seq<char>) -> (Disk, Result<(), Seq<char>>) {
    if d.dirs.contains(path) {
        (d, Err(Seq::empty()))
    } else {
        (Disk { dirs: d.dirs, files: d.files.insert(path, contents) }, Ok(()))
    }
}

pub open spec fn path_exists(d: Disk, path: Seq<char>) -> bool {
    d.dirs.contains(path) || d.files.contains_key(path)
}

/// Reading a whole file: its content, or a failure where no file stands there.
pub open spec fn read_file(d: Disk, path: Seq<char>) -> Result<Seq<char>, Seq<char>> {
    if d.files.contains_key(path) {
        Ok(d.files[path])
    } else {
        Err(Seq::empty())
    }
}

/// The result carried by a final step.
pub open spec fn finished(s: StepView) -> Result<Seq<char>, Fault> {
    match s {
        StepView::Finished(r) => r,
        _ => Err(Fault::LocationUnavailable),
    }
}

/// A whole save of `data` run against disk `d`: the disk afterwards and the result.
pub open spec fn run_save(d: Disk, root: Option<Seq<char>>, sep: char, data: Seq<char>) -> (Disk, Result<Seq<char>, Fault>) {
    match save_begin_spec(root, sep) {
        StepView::CreateDir(dir) => {
            let (d1, o1) = create_dir_all(d, dir);
            match save_dir_done_spec(root->Some_0, sep, data, o1) {
                StepView::Write(path, contents) => {
                    let (d2, o2) = write_file(d1, path, contents);
                    (d2, finished(save_write_done_spec(root->Some_0, sep, o2)))
                },
                other => (d1, finished(other)),
            }
        },
        other => (d, finished(other)),
    }
}

/// A whole load run against disk `d`.
pub open spec fn run_load(d: Disk, root: Option<Seq<char>>, sep: char) -> Result<Seq<char>, Fault> {
    match load_begin_spec(root, sep) {
        StepView::CheckExists(path) => {
            match load_exists_done_spec(root->Some_0, sep, path_exists(d, path)) {
                StepView::Read(p) => finished(load_read_done_spec(read_file(d, p))),
                other => finished(other),
            }
        },
        other => finished(other),
    }
}

proof fn lemma_file_is_not_dir(root: Seq<char>, sep: char)
    ensures
        file_path(root, sep) != dir_path(root, sep),
        file_path(root, sep).len() > dir_path(root, sep).len(),
{
    reveal_strlit("graph_data.json");
    assert(data_file_name().len() == 15);
}

/// A save succeeds wherever no file stands at the directory's path and no
/// directory at the document's path; nothing is asked of the ancestors,
/// which are created as needed.
pub proof fn lemma_save_succeeds(d: Disk, root: Seq<char>, sep: char, data: Seq<char>)
    requires
        !d.files.contains_key(dir_path(root, sep)),
        !d.dirs.contains(file_path(root, sep)),
    ensures
        run_save(d, Some(root), sep, data).1 is Ok,
{
    lemma_file_is_not_dir(root, sep);
}

/// A load after a successful save yields exactly the document saved.
pub proof fn lemma_round_trip(d: Disk, root: Seq<char>, sep: char, data: Seq<char>)
    requires
        run_save(d, Some(root), sep, data).1 is Ok,
    ensures
        run_load(run_save(d, Some(root), sep, data).0, Some(root), sep) == Ok::<Seq<char>, Fault>(data),
{
}

/// Where nothing stands at the document's path, a load yields the empty
/// object `{}`; without a data root it fails as location unavailable.
pub proof fn lemma_default_when_absent(d: Disk, root: Seq<char>, sep: char)
    requires
        !path_exists(d, file_path(root, sep)),
    ensures
        run_load(d, Some(root), sep) == Ok::<Seq<char>, Fault>(default_document_spec()),
        run_load(d, None, sep) == Err::<Seq<char>, Fault>(Fault::LocationUnavailable),
{
}

/// Once a save has succeeded, another save succeeds too: the directory
/// being there already is no failure.
pub proof fn lemma_save_again_succeeds(d: Disk, root: Seq<char>, sep: char, d1: Seq<char>, d2: Seq<char>)
    requires
        run_save(d, Some(root), sep, d1).1 is Ok,
    ensures
        run_save(run_save(d, Some(root), sep, d1).0, Some(root), sep, d2).1 is Ok,
{
    lemma_file_is_not_dir(root, sep);
    let dir = dir_path(root, sep);
    let after = run_save(d, Some(root), sep, d1).0;
    assert(after.dirs.insert(dir) == after.dirs);
}

/// Two successful saves in a row, then a load: the load yields the second
/// document, with nothing of the first.
pub proof fn lemma_overwrite(d: Disk, root: Seq<char>, sep: char, d1: Seq<char>, d2: Seq<char>)
    requires
        run_save(d, Some(root), sep, d1).1 is Ok,
    ensures
        ({
            let after = run_save(run_save(d, Some(root), sep, d1).0, Some(root), sep, d2);
            &&& after.1 is Ok
            &&& run_load(after.0, Some(root), sep) == Ok::<Seq<char>, Fault>(d2)
        }),
{
    lemma_save_again_succeeds(d, root, sep, d1, d2);
    lemma_round_trip(run_save(d, Some(root), sep, d1).0, root, sep, d2);
}

/// A successful save always reports the same path: the data file inside the
/// application's directory under the data root, whatever the disk or the document.
pub proof fn lemma_save_path_fixed(d: Disk, e: Disk, root: Seq<char>, sep: char, x: Seq<char>, y: Seq<char>)
    requires
        run_save(d, Some(root), sep, x).1 is Ok,
        run_save(e, Some(root), sep, y).1 is Ok,
    ensures
        run_save(d, Some(root), sep, x).1 == Ok::<Seq<char>, Fault>(file_path(root, sep)),
        run_save(d, Some(root), sep, x).1 == run_save(e, Some(root), sep, y).1,
        file_path(root, sep) == join_spec(join_spec(root, sep, "GraphAndTable"@), sep, "graph_data.json"@),
{
}

} // verus!
