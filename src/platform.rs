use vstd::prelude::*;

verus! {

/// What the running platform supplies to locate the document: its per-user
/// data directory, if it has one, and its path separator.
pub struct Platform {
    pub data_root: Option<String>,
    pub separator: char,
}

impl Platform {
    /// The data root as a character sequence, if there is one.
    pub open spec fn root_view(&self) -> Option<Seq<char>> {
        match self.data_root {
            Some(r) => Some(r@),
            None => None,
        }
    }

    /// The platform this process runs on. Its data root comes from the
    /// environment and may be absent.
    pub fn current() -> (r: Platform) {
        Platform { data_root: user_data_dir(), separator: main_separator() }
    }
}

/// Relies on `dirs_next::data_dir`: the per-user data directory, or `None`
/// where the platform has none. The path is turned into text lossily.
/// Depends on the environment, so nothing is promised of it.
#[verifier::external_body]
fn user_data_dir() -> (r: Option<String>) {
    dirs_next::data_dir().map(|p| p.to_string_lossy().into_owned())
}

/// Relies on `std::path::MAIN_SEPARATOR`: the separator of path components
/// on the platform the library was built for.
#[verifier::external_body]
fn main_separator() -> (r: char) {
    std::path::MAIN_SEPARATOR
}

} // verus!
