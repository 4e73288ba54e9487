//! Where a configuration is persisted.
//!
//! Reading, writing and serialising the file happen at the application edge;
//! the store keeps the selected location so every save targets the same file.

use vstd::prelude::*;

verus! {

#[derive(Clone, Debug)]
pub struct ConfigStore {
    path: String,
}

impl ConfigStore {
    /// The file the store reads and writes, as text.
    pub closed spec fn location(&self) -> Seq<char> {
        self.path@
    }

    pub fn new(path: String) -> (store: ConfigStore)
        ensures
            store.location() == path@,
    {
        ConfigStore { path }
    }

    pub fn path(&self) -> (path: &str)
        ensures
            path@ == self.location(),
    {
        self.path.as_str()
    }
}

} // verus!
