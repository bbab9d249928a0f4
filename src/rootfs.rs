//! Guest root filesystems prepared for a VM.

use vstd::prelude::*;

verus! {

/// A prepared root filesystem.
pub trait Rootfs {
    /// Path of the root filesystem on the host.
    fn path(&self) -> &String;

    /// Release what preparing the root filesystem set up.
    fn cleanup(&mut self) -> Result<(), String>;
}

/// A root filesystem that is a plain directory: nothing to clean up.
#[derive(Debug, Clone)]
pub struct PathRootfs {
    path: String,
}

impl PathRootfs {
    pub closed spec fn spec_path(&self) -> Seq<char> {
        self.path@
    }

    /// A root filesystem at `path`.
    pub fn new(path: String) -> (r: Self)
        ensures
            r.spec_path() == path@,
    {
        PathRootfs { path }
    }
}

impl Rootfs for PathRootfs {
    fn path(&self) -> &String {
        &self.path
    }

    fn cleanup(&mut self) -> Result<(), String> {
        Ok(())
    }
}

} // verus!
