//! WASI-facing value types: error numbers, open and descriptor flags,
//! file types, and file statistics, modelled as plain data.

use vstd::prelude::*;

verus! {

/// The WASI error numbers that the sandbox surfaces to the guest.
#[derive(Clone, Copy, Debug, PartialEq, Eq, Structural)]
pub enum Errno {
    /// Rights violation: the handle lacks a required capability.
    Acces,
    /// The inode index does not name a live inode.
    Badf,
    /// A directory entry name was not valid UTF-8.
    Ilseq,
    /// Contradictory flags or an illegal argument combination.
    Inval,
    /// A file operation was applied to a directory inode.
    Isdir,
    /// The path escapes the sandbox root or names no entry.
    Noent,
    /// The write would push the file past the write quota.
    Nospc,
    /// The operation is not supported by this host.
    Nosys,
    /// A directory operation was applied to a non-directory inode.
    Notdir,
    /// Any other host I/O failure, carrying the WASI errno number
    /// the host error was mapped to.
    Host(u16),
}

impl Errno {
    /// The WASI errno code of this error, as defined by the WASI ABI.
    pub open spec fn spec_code(self) -> u16 {
        match self {
            Errno::Acces => 2,
            Errno::Badf => 8,
            Errno::Ilseq => 25,
            Errno::Inval => 28,
            Errno::Isdir => 31,
            Errno::Noent => 44,
            Errno::Nospc => 51,
            Errno::Nosys => 52,
            Errno::Notdir => 54,
            Errno::Host(code) => code,
        }
    }

    pub fn code(&self) -> (r: u16)
        ensures
            r == self.spec_code(),
    {
        match self {
            Errno::Acces => 2,
            Errno::Badf => 8,
            Errno::Ilseq => 25,
            Errno::Inval => 28,
            Errno::Isdir => 31,
            Errno::Noent => 44,
            Errno::Nospc => 51,
            Errno::Nosys => 52,
            Errno::Notdir => 54,
            Errno::Host(code) => *code,
        }
    }
}

/// Descriptor flags, a bitmask over `FDFLAG_*`.
#[derive(Clone, Copy, Debug, PartialEq, Eq, Structural)]
pub struct FdFlags {
    pub bits: u16,
}

pub const FDFLAG_APPEND: u16 = 1;
pub const FDFLAG_DSYNC: u16 = 2;
pub const FDFLAG_NONBLOCK: u16 = 4;
pub const FDFLAG_RSYNC: u16 = 8;
pub const FDFLAG_SYNC: u16 = 16;

/// All synchronous write-through flags: DSYNC, RSYNC and SYNC.
pub const FDFLAG_ANY_SYNC: u16 = FDFLAG_DSYNC | FDFLAG_RSYNC | FDFLAG_SYNC;

impl FdFlags {
    /// Does this mask contain every bit of `mask`?
    pub open spec fn spec_contains(self, mask: u16) -> bool {
        self.bits & mask == mask
    }

    /// Does this mask share any bit with `mask`?
    pub open spec fn spec_intersects(self, mask: u16) -> bool {
        self.bits & mask != 0
    }

    pub fn empty() -> (r: FdFlags)
        ensures
            r.bits == 0,
    {
        FdFlags { bits: 0 }
    }

    pub fn from_bits(bits: u16) -> (r: FdFlags)
        ensures
            r.bits == bits,
    {
        FdFlags { bits }
    }

    pub fn contains(&self, mask: u16) -> (r: bool)
        ensures
            r == self.spec_contains(mask),
    {
        self.bits & mask == mask
    }

    pub fn intersects(&self, mask: u16) -> (r: bool)
        ensures
            r == self.spec_intersects(mask),
    {
        self.bits & mask != 0
    }
}

/// Open flags, a bitmask over `OFLAG_*`.
#[derive(Clone, Copy, Debug, PartialEq, Eq, Structural)]
pub struct OFlags {
    pub bits: u16,
}

pub const OFLAG_CREATE: u16 = 1;
pub const OFLAG_DIRECTORY: u16 = 2;
pub const OFLAG_EXCLUSIVE: u16 = 4;
pub const OFLAG_TRUNCATE: u16 = 8;

impl OFlags {
    pub open spec fn spec_contains(self, mask: u16) -> bool {
        self.bits & mask == mask
    }

    pub open spec fn spec_intersects(self, mask: u16) -> bool {
        self.bits & mask != 0
    }

    pub fn empty() -> (r: OFlags)
        ensures
            r.bits == 0,
    {
        OFlags { bits: 0 }
    }

    pub fn from_bits(bits: u16) -> (r: OFlags)
        ensures
            r.bits == bits,
    {
        OFlags { bits }
    }

    pub fn contains(&self, mask: u16) -> (r: bool)
        ensures
            r == self.spec_contains(mask),
    {
        self.bits & mask == mask
    }

    pub fn intersects(&self, mask: u16) -> (r: bool)
        ensures
            r == self.spec_intersects(mask),
    {
        self.bits & mask != 0
    }
}

/// The file types the sandbox reports to the guest.
#[derive(Clone, Copy, Debug, PartialEq, Eq, Structural)]
pub enum FileType {
    Directory,
    RegularFile,
    SymbolicLink,
}

/// Timestamp-setting flags (`fd_filestat_set_times`), a bitmask over these.
pub const FSTFLAG_ATIM: u16 = 1;
pub const FSTFLAG_ATIM_NOW: u16 = 2;
pub const FSTFLAG_MTIM: u16 = 4;
pub const FSTFLAG_MTIM_NOW: u16 = 8;

/// What the host should do to one timestamp of a file.
#[derive(Clone, Copy, Debug, PartialEq, Eq, Structural)]
pub enum SystemTimeSpec {
    /// Set the timestamp to this many nanoseconds since the epoch.
    Absolute(u64),
    /// Set the timestamp to the current time.
    SymbolicNow,
}

/// Decode one (absolute, now) flag pair into a timestamp instruction.
/// Asking for both an absolute time and "now" for the same field is invalid.
pub fn systimespec(set: bool, ts: u64, now: bool) -> (r: Result<Option<SystemTimeSpec>, Errno>)
    ensures
        r == (if set && now {
            Err::<Option<SystemTimeSpec>, Errno>(Errno::Inval)
        } else if set {
            Ok::<Option<SystemTimeSpec>, Errno>(Some(SystemTimeSpec::Absolute(ts)))
        } else if now {
            Ok::<Option<SystemTimeSpec>, Errno>(Some(SystemTimeSpec::SymbolicNow))
        } else {
            Ok::<Option<SystemTimeSpec>, Errno>(None)
        }),
{
    if set && now {
        Err(Errno::Inval)
    } else if set {
        Ok(Some(SystemTimeSpec::Absolute(ts)))
    } else if now {
        Ok(Some(SystemTimeSpec::SymbolicNow))
    } else {
        Ok(None)
    }
}

/// Access-pattern advice for a file; accepted and ignored by this host.
#[derive(Clone, Copy, Debug, PartialEq, Eq, Structural)]
pub enum Advice {
    Normal,
    Sequential,
    Random,
    WillNeed,
    DontNeed,
    NoReuse,
}

/// Host metadata for one file or directory, as plain values.
/// The surrounding program fills this from the host file system;
/// timestamps are nanoseconds since the epoch, absent where the
/// host does not provide them.
#[derive(Clone, Copy, Debug, PartialEq, Eq, Structural)]
pub struct HostMeta {
    pub is_dir: bool,
    pub is_symlink: bool,
    pub inode: u64,
    pub nlink: u64,
    pub size: u64,
    pub atim: Option<u64>,
    pub mtim: Option<u64>,
    pub ctim: Option<u64>,
}

/// Descriptor statistics as returned to the guest.
#[derive(Clone, Copy, Debug, PartialEq, Eq, Structural)]
pub struct FdStat {
    pub filetype: FileType,
    pub fs_rights_base: crate::rights::Rights,
    pub fs_rights_inheriting: crate::rights::Rights,
    pub flags: FdFlags,
}

/// File statistics as returned to the guest.
#[derive(Clone, Copy, Debug, PartialEq, Eq, Structural)]
pub struct Filestat {
    pub filetype: FileType,
    pub inode: u64,
    pub nlink: u64,
    pub size: u64,
    pub atim: Option<u64>,
    pub mtim: Option<u64>,
    pub ctim: Option<u64>,
}

} // verus!
