//! The capability rights model: a fixed bitmask of rights carried by each
//! handle, with a subset check (`can`) and narrowing (`intersect`).

use vstd::prelude::*;

use crate::wasi::Errno;

verus! {

pub const RIGHT_FD_DATASYNC: u64 = 1;
pub const RIGHT_FD_READ: u64 = 2;
pub const RIGHT_FD_SEEK: u64 = 4;
pub const RIGHT_FD_FDSTAT_SET_FLAGS: u64 = 8;
pub const RIGHT_FD_SYNC: u64 = 16;
pub const RIGHT_FD_TELL: u64 = 32;
pub const RIGHT_FD_WRITE: u64 = 64;
pub const RIGHT_FD_ADVISE: u64 = 128;
pub const RIGHT_FD_ALLOCATE: u64 = 256;
pub const RIGHT_PATH_CREATE_DIRECTORY: u64 = 512;
pub const RIGHT_PATH_CREATE_FILE: u64 = 1024;
pub const RIGHT_PATH_LINK_SOURCE: u64 = 2048;
pub const RIGHT_PATH_LINK_TARGET: u64 = 4096;
pub const RIGHT_PATH_OPEN: u64 = 8192;
pub const RIGHT_FD_READDIR: u64 = 16384;
pub const RIGHT_PATH_READLINK: u64 = 32768;
pub const RIGHT_PATH_RENAME_SOURCE: u64 = 65536;
pub const RIGHT_PATH_RENAME_TARGET: u64 = 131072;
pub const RIGHT_PATH_FILESTAT_GET: u64 = 262144;
pub const RIGHT_PATH_FILESTAT_SET_SIZE: u64 = 524288;
pub const RIGHT_PATH_FILESTAT_SET_TIMES: u64 = 1048576;
pub const RIGHT_FD_FILESTAT_GET: u64 = 2097152;
pub const RIGHT_FD_FILESTAT_SET_SIZE: u64 = 4194304;
pub const RIGHT_FD_FILESTAT_SET_TIMES: u64 = 8388608;
pub const RIGHT_PATH_SYMLINK: u64 = 16777216;
pub const RIGHT_PATH_REMOVE_DIRECTORY: u64 = 33554432;
pub const RIGHT_PATH_UNLINK_FILE: u64 = 67108864;

/// Every right a file handle can carry.
pub const RIGHTS_FD_ALL: u64 = RIGHT_FD_ADVISE | RIGHT_FD_ALLOCATE | RIGHT_FD_DATASYNC
    | RIGHT_FD_SYNC | RIGHT_FD_TELL | RIGHT_FD_SEEK | RIGHT_FD_READ | RIGHT_FD_WRITE
    | RIGHT_FD_FDSTAT_SET_FLAGS | RIGHT_FD_FILESTAT_GET | RIGHT_FD_FILESTAT_SET_SIZE
    | RIGHT_FD_FILESTAT_SET_TIMES;

/// Every right a directory handle can carry.
pub const RIGHTS_DIR_ALL: u64 = RIGHT_PATH_CREATE_DIRECTORY | RIGHT_PATH_CREATE_FILE
    | RIGHT_PATH_LINK_SOURCE | RIGHT_PATH_LINK_TARGET | RIGHT_PATH_OPEN | RIGHT_FD_READDIR
    | RIGHT_PATH_READLINK | RIGHT_PATH_RENAME_SOURCE | RIGHT_PATH_RENAME_TARGET
    | RIGHT_PATH_SYMLINK | RIGHT_PATH_REMOVE_DIRECTORY | RIGHT_PATH_UNLINK_FILE
    | RIGHT_PATH_FILESTAT_GET | RIGHT_PATH_FILESTAT_SET_TIMES | RIGHT_FD_FILESTAT_GET
    | RIGHT_FD_FILESTAT_SET_TIMES;

/// A set of capability rights, as a bitmask over the `RIGHT_*` constants.
#[derive(Clone, Copy, Debug, PartialEq, Eq, Structural)]
pub struct Rights {
    pub bits: u64,
}

impl Rights {
    /// Does `self` hold every right in `required`?
    pub open spec fn spec_contains(self, required: Rights) -> bool {
        self.bits & required.bits == required.bits
    }

    /// `self` is a subset of `other`.
    pub open spec fn spec_subset_of(self, other: Rights) -> bool {
        other.spec_contains(self)
    }

    /// The rights present in both sets.
    pub open spec fn spec_intersect(self, other: Rights) -> Rights {
        Rights { bits: self.bits & other.bits }
    }

    pub fn empty() -> (r: Rights)
        ensures
            r.bits == 0,
    {
        Rights { bits: 0 }
    }

    pub fn from_bits(bits: u64) -> (r: Rights)
        ensures
            r.bits == bits,
    {
        Rights { bits }
    }

    /// All rights a file handle can carry.
    pub fn fd_all() -> (r: Rights)
        ensures
            r.bits == RIGHTS_FD_ALL,
    {
        Rights { bits: RIGHTS_FD_ALL }
    }

    /// All rights a directory handle can carry.
    pub fn dir_all() -> (r: Rights)
        ensures
            r.bits == RIGHTS_DIR_ALL,
    {
        Rights { bits: RIGHTS_DIR_ALL }
    }

    pub fn contains(&self, required: Rights) -> (r: bool)
        ensures
            r == self.spec_contains(required),
    {
        self.bits & required.bits == required.bits
    }

    /// Succeeds exactly when this handle holds every right in `required`;
    /// a missing right is a rights violation, reported as access-denied.
    pub fn can(&self, required: Rights) -> (r: Result<(), Errno>)
        ensures
            r == (if self.spec_contains(required) {
                Ok::<(), Errno>(())
            } else {
                Err::<(), Errno>(Errno::Acces)
            }),
    {
        if self.contains(required) {
            Ok(())
        } else {
            Err(Errno::Acces)
        }
    }

    /// Narrow this rights set to the rights also present in `other`.
    pub fn intersect(&self, other: Rights) -> (r: Rights)
        ensures
            r == self.spec_intersect(other),
            r.bits == self.bits & other.bits,
            r.spec_subset_of(*self),
            r.spec_subset_of(other),
    {
        proof {
            lemma_and_subset(self.bits, other.bits);
        }
        Rights { bits: self.bits & other.bits }
    }
}

/// A bitwise intersection is a subset of both operands.
pub proof fn lemma_and_subset(a: u64, b: u64)
    ensures
        a & (a & b) == (a & b),
        b & (a & b) == (a & b),
{
    assert(a & (a & b) == (a & b) && b & (a & b) == (a & b)) by (bit_vector);
}

} // verus!
