use vstd::prelude::*;

verus! {

/// Mathematical model of a directory entry: the path and name as
/// character sequences, and the directory flag.
#[verifier::ext_equal]
pub ghost struct EntryModel {
    pub path: Seq<char>,
    pub name: Seq<char>,
    pub is_directory: bool,
}

/// One filesystem child, as the directory-enumeration collaborator hands
/// it over: an absolute path, a display name, and a directory flag.
/// Immutable value; it has no lifecycle of its own beyond the pane that
/// holds it.
pub struct Entry {
    pub path: String,
    pub name: String,
    pub is_directory: bool,
}

impl View for Entry {
    type V = EntryModel;

    open spec fn view(&self) -> EntryModel {
        EntryModel { path: self.path@, name: self.name@, is_directory: self.is_directory }
    }
}

impl DeepView for Entry {
    type V = EntryModel;

    open spec fn deep_view(&self) -> EntryModel {
        self@
    }
}

impl Entry {
    /// Builds an entry from its three plain parts.
    pub fn new(path: String, name: String, is_directory: bool) -> (r: Entry)
        ensures
            r@ == (EntryModel { path: path@, name: name@, is_directory }),
    {
        Entry { path, name, is_directory }
    }
}

} // verus!
