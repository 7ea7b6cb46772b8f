use vstd::prelude::*;

verus! {

/// A path within the CDN bucket. The client that checks and uploads objects
/// is plain I/O and lives outside the library; this is the value it is handed.
pub struct CndPath {
    pub path: String,
}

impl CndPath {
    pub fn new(path: String) -> (r: CndPath)
        ensures
            r == (CndPath { path }),
    {
        CndPath { path }
    }

    pub fn path(&self) -> (r: &str)
        ensures
            r@ == self.path@,
    {
        self.path.as_str()
    }
}

} // verus!
