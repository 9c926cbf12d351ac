//! Owners of what the engine allocates and leaves to its caller to release.

use vstd::prelude::*;

verus! {

/// The engine's functions that release what it has allocated, one for each
/// kind of allocation that it hands out.
#[derive(Clone, Copy, Debug, PartialEq, Eq, Structural)]
pub enum Release {
    /// Releases a list of directory entries.
    DirentList,
    /// Releases a stat record.
    Stat,
    /// Releases a logical volume record.
    LvmLv,
    /// Releases a volume group record.
    LvmVg,
    /// Releases a physical volume record.
    LvmPv,
    /// Releases one directory entry.
    Dirent,
    /// Releases plain memory, such as a string or an array of strings: the
    /// C library's `free`.
    Memory,
}

/// One call of a release function: the function and the allocation that it
/// is to be called on.
#[derive(Clone, Copy, Debug, PartialEq, Eq, Structural)]
pub struct Free {
    /// The function to call.
    pub release: Release,
    /// The address of the allocation, never null.
    pub address: usize,
}

/// The owner of one allocation of the engine.
///
/// It hands out the call that releases the allocation once, and never for a
/// null address.
#[derive(Debug, PartialEq, Eq)]
pub struct NativeResource {
    release: Release,
    address: usize,
    released: bool,
}

/// A list of directory entries.
pub type DirEntList = NativeResource;

/// A stat record.
pub type Stat = NativeResource;

/// A logical volume record.
pub type LvmLv = NativeResource;

/// A volume group record.
pub type LvmVg = NativeResource;

/// A physical volume record.
pub type LvmPv = NativeResource;

/// One directory entry.
pub type GuestDirEntry = NativeResource;

impl NativeResource {
    #[verifier::type_invariant]
    spec fn inv(self) -> bool {
        self.address != 0
    }

    /// The function that releases the allocation.
    pub closed spec fn spec_release(&self) -> Release {
        self.release
    }

    /// The address of the allocation.
    pub closed spec fn spec_address(&self) -> usize {
        self.address
    }

    /// Whether the call that releases the allocation has been handed out.
    pub closed spec fn spec_is_released(&self) -> bool {
        self.released
    }

    /// Takes charge of the allocation at `address`, to be released by
    /// `release`. A null address is no allocation and gets no owner.
    pub fn new(release: Release, address: usize) -> (r: Option<NativeResource>)
        ensures
            match r {
                Some(resource) => address != 0 && resource.release() == release
                    && resource.address() == address && !resource.is_released(),
                None => address == 0,
            },
    {
        if address == 0 {
            None
        } else {
            Some(NativeResource { release, address, released: false })
        }
    }

    /// The function that releases the allocation.
    #[verifier::when_used_as_spec(spec_release)]
    pub fn release(&self) -> (r: Release)
        ensures
            r == self.release(),
    {
        self.release
    }

    /// The address of the allocation.
    #[verifier::when_used_as_spec(spec_address)]
    pub fn address(&self) -> (a: usize)
        ensures
            a == self.address(),
            a != 0,
    {
        proof {
            use_type_invariant(self);
        }
        self.address
    }

    /// Whether the call that releases the allocation has been handed out.
    #[verifier::when_used_as_spec(spec_is_released)]
    pub fn is_released(&self) -> (r: bool)
        ensures
            r == self.is_released(),
    {
        self.released
    }

    /// Gives up the allocation.
    ///
    /// The first call hands out the release to perform. Every later call
    /// hands out nothing, so that no allocation is released twice.
    pub fn free(&mut self) -> (r: Option<Free>)
        ensures
            final(self).release() == old(self).release(),
            final(self).address() == old(self).address(),
            final(self).is_released(),
            r == if old(self).is_released() {
                None
            } else {
                Some(Free { release: old(self).release(), address: old(self).address() })
            },
            r is Some ==> r->Some_0.address != 0,
    {
        proof {
            use_type_invariant(&*self);
        }
        if self.released {
            None
        } else {
            self.released = true;
            Some(Free { release: self.release, address: self.address })
        }
    }
}

} // verus!
