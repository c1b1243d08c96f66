use vstd::prelude::*;

verus! {

/// Name of the subdirectory of the data root that holds the document.
pub open spec fn app_dir_name() -> Seq<char> {
    "GraphAndTable"@
}

/// Name of the file that holds the document.
pub open spec fn data_file_name() -> Seq<char> {
    "graph_data.json"@
}

/// `name` appended to `base` as one more path component: a separator is put
/// between them unless `base` is empty or already ends in one.
pub open spec fn join_spec(base: Seq<char>, sep: char, name: Seq<char>) -> Seq<char> {
    if base.len() == 0 || base.last() == sep {
        base + name
    } else {
        base.push(sep) + name
    }
}

/// The directory that holds the document, under data root `root`.
pub open spec fn dir_path(root: Seq<char>, sep: char) -> Seq<char> {
    join_spec(root, sep, app_dir_name())
}

/// The path of the document, under data root `root`.
pub open spec fn file_path(root: Seq<char>, sep: char) -> Seq<char> {
    join_spec(dir_path(root, sep), sep, data_file_name())
}

/// Where the document lives: its directory and its file.
pub struct StorageLocation {
    pub dir: String,
    pub file: String,
}

impl StorageLocation {
    /// This location is the one that data root `root` gives with separator `sep`.
    pub open spec fn is_under(&self, root: Seq<char>, sep: char) -> bool {
        &&& self.dir@ == dir_path(root, sep)
        &&& self.file@ == file_path(root, sep)
    }

    /// The location of the document under data root `root`.
    pub fn new(root: &str, sep: char) -> (r: StorageLocation)
        ensures
            r.is_under(root@, sep),
    {
        proof {
            reveal_strlit("GraphAndTable");
            reveal_strlit("graph_data.json");
        }
        let dir = join_path(root, sep, "GraphAndTable");
        let file = join_path(dir.as_str(), sep, "graph_data.json");
        StorageLocation { dir, file }
    }
}

/// Appends `name` to `base` as one more path component.
pub fn join_path(base: &str, sep: char, name: &str) -> (r: String)
    ensures
        r@ == join_spec(base@, sep, name@),
{
    let n = base.unicode_len();
    let mut r = String::from_str(base);
    if n > 0 && base.get_char(n - 1) != sep {
        push_char(&mut r, sep);
    }
    r.append(name);
    r
}

/// Relies on `String::push`: the character is appended to the end.
#[verifier::external_body]
fn push_char(s: &mut String, c: char)
    ensures
        final(s)@ == old(s)@.push(c),
{
    s.push(c)
}

} // verus!
