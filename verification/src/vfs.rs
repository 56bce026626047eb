//! The sandbox virtual filesystem: directory and file inodes and the
//! per-invocation inode table.
//!
//! Host I/O itself (stat, open, read, write, rename) happens outside this
//! library; every function here takes what the host reported as plain
//! values and makes the decisions: rights checks, flag validation, path
//! resolution, quota enforcement, and the bookkeeping of the tracked file
//! size and stream position. A `DiskFile` records the host file's length
//! and stream position as the model on which the write quota and the
//! seek/tell rules are enforced.

use vstd::prelude::*;

use crate::rights::{
    Rights, RIGHTS_DIR_ALL, RIGHTS_FD_ALL, RIGHT_FD_ALLOCATE, RIGHT_FD_DATASYNC,
    RIGHT_FD_FDSTAT_SET_FLAGS, RIGHT_FD_FILESTAT_GET, RIGHT_FD_FILESTAT_SET_SIZE,
    RIGHT_FD_FILESTAT_SET_TIMES, RIGHT_FD_READ, RIGHT_FD_READDIR, RIGHT_FD_SEEK, RIGHT_FD_SYNC,
    RIGHT_FD_TELL, RIGHT_FD_WRITE, RIGHT_PATH_CREATE_DIRECTORY, RIGHT_PATH_FILESTAT_GET,
    RIGHT_PATH_REMOVE_DIRECTORY,
};
use crate::vpath::{
    absolutize_under, clone_path, lemma_path_prefix_reflexive, lemma_path_prefix_transitive,
    path_eq, path_prefix_of, resolve, wf_path,
};
use crate::wasi::{
    systimespec, Advice, Errno, FdFlags, FdStat, FileType, Filestat, HostMeta, OFlags,
    SystemTimeSpec, FDFLAG_ANY_SYNC, FDFLAG_APPEND, FDFLAG_NONBLOCK, FSTFLAG_ATIM,
    FSTFLAG_ATIM_NOW, FSTFLAG_MTIM, FSTFLAG_MTIM_NOW, OFLAG_CREATE, OFLAG_DIRECTORY,
    OFLAG_EXCLUSIVE, OFLAG_TRUNCATE,
};
use crate::FILE_WRITE_LIMIT;

verus! {

/// An open directory handle: its resolved host path and the rights it
/// carries for itself (`dir_rights`) and as a ceiling for files opened
/// through it (`file_rights`).
pub struct DiskDir {
    pub real_path: Vec<String>,
    pub dir_rights: Rights,
    pub file_rights: Rights,
}

impl DiskDir {
    /// A well-formed directory handle names a well-formed absolute path.
    pub open spec fn wf(&self) -> bool {
        wf_path(self.real_path.deep_view())
    }

    /// Resolve a guest path relative to this directory; the result never
    /// escapes this directory's own path.
    pub fn get_absolutize_path(&self, sub_path: &str) -> (r: Result<Vec<String>, Errno>)
        ensures
            r matches Ok(p) ==> p.deep_view() == resolve(self.real_path.deep_view(), sub_path@)
                && path_prefix_of(self.real_path.deep_view(), p.deep_view()),
            (r is Ok) == path_prefix_of(
                self.real_path.deep_view(),
                resolve(self.real_path.deep_view(), sub_path@),
            ),
            r is Err ==> r == Err::<Vec<String>, Errno>(Errno::Noent),
            self.wf() ==> (r matches Ok(p) ==> wf_path(p.deep_view())),
    {
        absolutize_under(&self.real_path, sub_path)
    }

    pub fn fd_fdstat_get(&self) -> (r: Result<FdStat, Errno>)
        ensures
            r == Ok::<FdStat, Errno>(
                FdStat {
                    filetype: FileType::Directory,
                    fs_rights_base: self.dir_rights,
                    fs_rights_inheriting: self.file_rights,
                    flags: FdFlags { bits: 0 },
                },
            ),
    {
        Ok(
            FdStat {
                filetype: FileType::Directory,
                fs_rights_base: self.dir_rights,
                fs_rights_inheriting: self.file_rights,
                flags: FdFlags::empty(),
            },
        )
    }

    /// Descriptor flags cannot be changed on a directory handle.
    pub fn fd_fdstat_set_flags(&mut self, flags: FdFlags) -> (r: Result<(), Errno>)
        ensures
            r == Err::<(), Errno>(Errno::Badf),
            *final(self) == *old(self),
    {
        let _ = flags;
        Err(Errno::Badf)
    }

    /// Narrow this handle's rights; widening is a rights violation.
    pub fn fd_fdstat_set_rights(
        &mut self,
        fs_rights_base: Rights,
        fs_rights_inheriting: Rights,
    ) -> (r: Result<(), Errno>)
        ensures
            r == (if old(self).dir_rights.spec_contains(fs_rights_base) && old(
                self,
            ).file_rights.spec_contains(fs_rights_inheriting) {
                Ok::<(), Errno>(())
            } else {
                Err::<(), Errno>(Errno::Acces)
            }),
            r is Ok ==> *final(self) == (DiskDir {
                real_path: old(self).real_path,
                dir_rights: fs_rights_base,
                file_rights: fs_rights_inheriting,
            }),
            r is Err ==> *final(self) == *old(self),
    {
        if !self.dir_rights.contains(fs_rights_base) {
            return Err(Errno::Acces);
        }
        if !self.file_rights.contains(fs_rights_inheriting) {
            return Err(Errno::Acces);
        }
        self.dir_rights = fs_rights_base;
        self.file_rights = fs_rights_inheriting;
        Ok(())
    }

    /// Build the directory's file statistics from what the host reported
    /// for its path; requires the filestat-get right.
    pub fn fd_filestat_get(&self, meta: &Result<HostMeta, Errno>) -> (r: Result<Filestat, Errno>)
        ensures
            r == (if !self.dir_rights.spec_contains(Rights { bits: RIGHT_FD_FILESTAT_GET }) {
                Err::<Filestat, Errno>(Errno::Acces)
            } else {
                match *meta {
                    Err(e) => Err::<Filestat, Errno>(e),
                    Ok(m) => Ok::<Filestat, Errno>(
                        Filestat {
                            filetype: if m.is_symlink {
                                FileType::SymbolicLink
                            } else {
                                FileType::Directory
                            },
                            inode: m.inode,
                            nlink: m.nlink,
                            size: m.size,
                            atim: m.atim,
                            mtim: m.mtim,
                            ctim: m.ctim,
                        },
                    ),
                }
            }),
    {
        if let Err(e) = self.dir_rights.can(Rights::from_bits(RIGHT_FD_FILESTAT_GET)) {
            return Err(e);
        }
        match meta {
            Err(e) => Err(*e),
            Ok(m) => Ok(
                Filestat {
                    filetype: if m.is_symlink {
                        FileType::SymbolicLink
                    } else {
                        FileType::Directory
                    },
                    inode: m.inode,
                    nlink: m.nlink,
                    size: m.size,
                    atim: m.atim,
                    mtim: m.mtim,
                    ctim: m.ctim,
                },
            ),
        }
    }

    /// A directory's size cannot be set.
    pub fn fd_filestat_set_size(&mut self, size: u64) -> (r: Result<u64, Errno>)
        ensures
            r == Err::<u64, Errno>(Errno::Badf),
            *final(self) == *old(self),
    {
        let _ = size;
        Err(Errno::Badf)
    }

    /// Setting a directory's timestamps is rights-checked but unsupported.
    pub fn fd_filestat_set_times(&mut self, atim: u64, mtim: u64, fst_flags: u16) -> (r: Result<
        (Option<SystemTimeSpec>, Option<SystemTimeSpec>),
        Errno,
    >)
        ensures
            r == (if !old(self).dir_rights.spec_contains(
                Rights { bits: RIGHT_FD_FILESTAT_SET_TIMES },
            ) {
                Err::<(Option<SystemTimeSpec>, Option<SystemTimeSpec>), Errno>(Errno::Acces)
            } else {
                Err::<(Option<SystemTimeSpec>, Option<SystemTimeSpec>), Errno>(Errno::Nosys)
            }),
            *final(self) == *old(self),
    {
        let _ = atim;
        let _ = mtim;
        let _ = fst_flags;
        if let Err(e) = self.dir_rights.can(Rights::from_bits(RIGHT_FD_FILESTAT_SET_TIMES)) {
            return Err(e);
        }
        Err(Errno::Nosys)
    }
}

/// One host directory entry as the host reported it: its name where it
/// was valid UTF-8 (`None` where it was not), its inode number and type.
pub struct RawDirEntry {
    pub name: Option<String>,
    pub inode: u64,
    pub filetype: FileType,
}

/// One entry of a directory listing handed to the guest.
pub struct DirEntry {
    pub name: String,
    pub inode: u64,
    pub filetype: FileType,
}

/// A host entry that readdir can hand to the guest: the host yielded it
/// and its name decoded.
pub open spec fn entry_good(x: Result<RawDirEntry, Errno>) -> bool {
    x matches Ok(raw) && raw.name is Some
}

/// The error one bad host entry produces: the host's own error, or
/// illegal-byte-sequence for an undecodable name.
pub open spec fn entry_error(x: Result<RawDirEntry, Errno>) -> Errno {
    match x {
        Err(e) => e,
        Ok(_) => Errno::Ilseq,
    }
}

/// The listed entry `d` renders the host entry `x`.
pub open spec fn entry_out(d: DirEntry, x: Result<RawDirEntry, Errno>) -> bool {
    &&& x matches Ok(raw)
    &&& raw.name matches Some(nm)
    &&& d.name@ == nm@
    &&& d.inode == raw.inode
    &&& d.filetype == raw.filetype
}

impl DiskDir {
    /// List this directory for the guest, starting at cookie `index`:
    /// entry 0 is always `.` and entry 1 always `..`, then the host
    /// entries follow, which the caller supplies already positioned at
    /// the cookie (see `readdir_host_skip`). `self_ino` and `parent_ino`
    /// are what the host reported for this directory and its parent; they
    /// are consulted only when the dot entries are emitted.
    pub fn get_readdir(
        &self,
        index: u64,
        self_ino: &Result<u64, Errno>,
        parent_ino: &Result<u64, Errno>,
        entries: &Vec<Result<RawDirEntry, Errno>>,
    ) -> (r: Result<Vec<DirEntry>, Errno>)
        ensures
            (r is Ok) == ({
                &&& self.dir_rights.spec_contains(Rights { bits: RIGHT_FD_READDIR })
                &&& (index == 0 ==> self_ino is Ok)
                &&& (index <= 1 ==> parent_ino is Ok)
                &&& (forall|j: int| 0 <= j < entries@.len() ==> entry_good(#[trigger] entries@[j]))
            }),
            r matches Ok(v) ==> {
                let dots: int = if index == 0 {
                    2
                } else if index == 1 {
                    1
                } else {
                    0
                };
                &&& v@.len() == dots + entries@.len()
                &&& (index == 0 ==> v@[0].name@ == crate::vpath::dot() && v@[0].inode
                    == self_ino->Ok_0 && v@[0].filetype == FileType::Directory)
                &&& (index == 0 ==> v@[1].name@ == crate::vpath::dotdot() && v@[1].inode
                    == parent_ino->Ok_0 && v@[1].filetype == FileType::Directory)
                &&& (index == 1 ==> v@[0].name@ == crate::vpath::dotdot() && v@[0].inode
                    == parent_ino->Ok_0 && v@[0].filetype == FileType::Directory)
                &&& (forall|j: int|
                    0 <= j < entries@.len() ==> entry_out(#[trigger] v@[dots + j], entries@[j]))
            },
            r is Err ==> ({
                let e = r->Err_0;
                if !self.dir_rights.spec_contains(Rights { bits: RIGHT_FD_READDIR }) {
                    e == Errno::Acces
                } else if index == 0 && self_ino is Err {
                    e == self_ino->Err_0
                } else if index <= 1 && parent_ino is Err {
                    e == parent_ino->Err_0
                } else {
                    exists|j: int|
                        {
                            &&& 0 <= j < entries@.len()
                            &&& !entry_good(#[trigger] entries@[j])
                            &&& (forall|l: int| 0 <= l < j ==> entry_good(#[trigger] entries@[l]))
                            &&& e == entry_error(entries@[j])
                        }
                }
            }),
    {
        if let Err(e) = self.dir_rights.can(Rights::from_bits(RIGHT_FD_READDIR)) {
            return Err(e);
        }
        let mut dirs: Vec<DirEntry> = Vec::new();
        if index == 0 {
            let si: u64 = match self_ino {
                Ok(si) => *si,
                Err(e) => {
                    return Err(*e);
                },
            };
            let name = dot_name();
            dirs.push(DirEntry { name, inode: si, filetype: FileType::Directory });
        }
        if index <= 1 {
            let pi: u64 = match parent_ino {
                Ok(pi) => *pi,
                Err(e) => {
                    return Err(*e);
                },
            };
            let name = dotdot_name();
            dirs.push(DirEntry { name, inode: pi, filetype: FileType::Directory });
        }
        let ghost dots: int = dirs@.len() as int;
        let mut j: usize = 0;
        while j < entries.len()
            invariant
                j <= entries@.len(),
                dirs@.len() == dots + j,
                self.dir_rights.spec_contains(Rights { bits: RIGHT_FD_READDIR }),
                index == 0 ==> self_ino is Ok,
                index <= 1 ==> parent_ino is Ok,
                dots == (if index == 0 {
                    2int
                } else if index == 1 {
                    1int
                } else {
                    0int
                }),
                index == 0 ==> dirs@[0].name@ == crate::vpath::dot() && dirs@[0].inode
                    == self_ino->Ok_0 && dirs@[0].filetype == FileType::Directory,
                index == 0 ==> dirs@[1].name@ == crate::vpath::dotdot() && dirs@[1].inode
                    == parent_ino->Ok_0 && dirs@[1].filetype == FileType::Directory,
                index == 1 ==> dirs@[0].name@ == crate::vpath::dotdot() && dirs@[0].inode
                    == parent_ino->Ok_0 && dirs@[0].filetype == FileType::Directory,
                forall|l: int| 0 <= l < j ==> entry_good(#[trigger] entries@[l]),
                forall|l: int| 0 <= l < j ==> entry_out(#[trigger] dirs@[dots + l], entries@[l]),
            decreases entries@.len() - j,
        {
            match &entries[j] {
                Err(e) => {
                    proof {
                        let jj = j as int;
                        assert(!entry_good(entries@[jj]) && (forall|l: int|
                            0 <= l < jj ==> entry_good(#[trigger] entries@[l])) && entry_error(
                            entries@[jj],
                        ) == *e);
                        assert(exists|jx: int|
                            {
                                &&& 0 <= jx < entries@.len()
                                &&& !entry_good(#[trigger] entries@[jx])
                                &&& (forall|l: int|
                                    0 <= l < jx ==> entry_good(#[trigger] entries@[l]))
                                &&& *e == entry_error(entries@[jx])
                            }) by {
                            assert(!entry_good(entries@[jj]));
                        }
                    }
                    return Err(*e);
                },
                Ok(raw) => {
                    match &raw.name {
                        None => {
                            proof {
                                let jj = j as int;
                                assert(!entry_good(entries@[jj]) && (forall|l: int|
                                    0 <= l < jj ==> entry_good(#[trigger] entries@[l]))
                                    && entry_error(entries@[jj]) == Errno::Ilseq);
                                assert(exists|jx: int|
                                    {
                                        &&& 0 <= jx < entries@.len()
                                        &&& !entry_good(#[trigger] entries@[jx])
                                        &&& (forall|l: int|
                                            0 <= l < jx ==> entry_good(#[trigger] entries@[l]))
                                        &&& Errno::Ilseq == entry_error(entries@[jx])
                                    }) by {
                                    assert(!entry_good(entries@[jj]));
                                }
                            }
                            return Err(Errno::Ilseq);
                        },
                        Some(nm) => {
                            dirs.push(
                                DirEntry {
                                    name: nm.clone(),
                                    inode: raw.inode,
                                    filetype: raw.filetype,
                                },
                            );
                        },
                    }
                },
            }
            j += 1;
        }
        Ok(dirs)
    }
}

/// The `.` entry name.
fn dot_name() -> (r: String)
    ensures
        r@ == crate::vpath::dot(),
{
    let r = String::from_str(".");
    proof {
        reveal_strlit(".");
        assert(r@ =~= crate::vpath::dot());
    }
    r
}

/// The `..` entry name.
fn dotdot_name() -> (r: String)
    ensures
        r@ == crate::vpath::dotdot(),
{
    let r = String::from_str("..");
    proof {
        reveal_strlit("..");
        assert(r@ =~= crate::vpath::dotdot());
    }
    r
}

/// An open file handle. The host file itself lives outside the library,
/// keyed by the inode index; `size` and `position` track the host file's
/// length and stream position, on which the write quota and the
/// seek/tell rules are enforced.
pub struct DiskFile {
    pub flags: FdFlags,
    pub right: Rights,
    pub size: u64,
    pub position: u64,
}

/// The file state after a plain write of `n` bytes: an append-mode write
/// lands at the end of the file, any other write lands at the stream
/// position, which advances past the written bytes.
pub open spec fn write_transition(f: DiskFile, n: u64) -> DiskFile {
    if f.flags.spec_contains(FDFLAG_APPEND) {
        DiskFile { size: (f.size + n) as u64, position: (f.size + n) as u64, ..f }
    } else {
        let end = (f.position + n) as u64;
        DiskFile { size: if f.size >= end { f.size } else { end }, position: end, ..f }
    }
}

/// The file state after a positioned write of `n` bytes at `offset`:
/// the size grows to cover the written range, the stream position does
/// not move.
pub open spec fn pwrite_transition(f: DiskFile, offset: u64, n: u64) -> DiskFile {
    let end = (offset + n) as u64;
    DiskFile { size: if f.size >= end { f.size } else { end }, ..f }
}

impl DiskFile {
    pub open spec fn has_right(&self, bits: u64) -> bool {
        self.right.spec_contains(Rights { bits })
    }

    /// Build the descriptor statistics from what the host reported.
    pub fn fd_fdstat_get(&self, meta: &Result<HostMeta, Errno>) -> (r: Result<FdStat, Errno>)
        ensures
            r == (match *meta {
                Err(e) => Err::<FdStat, Errno>(e),
                Ok(m) => Ok::<FdStat, Errno>(
                    FdStat {
                        filetype: if m.is_symlink {
                            FileType::SymbolicLink
                        } else {
                            FileType::RegularFile
                        },
                        fs_rights_base: self.right,
                        fs_rights_inheriting: Rights { bits: 0 },
                        flags: self.flags,
                    },
                ),
            }),
    {
        match meta {
            Err(e) => Err(*e),
            Ok(m) => Ok(
                FdStat {
                    filetype: if m.is_symlink {
                        FileType::SymbolicLink
                    } else {
                        FileType::RegularFile
                    },
                    fs_rights_base: self.right,
                    fs_rights_inheriting: Rights::empty(),
                    flags: self.flags,
                },
            ),
        }
    }

    /// Change the descriptor flags: NONBLOCK combined with a sync flag is
    /// invalid, and APPEND cannot be toggled after the open.
    pub fn fd_fdstat_set_flags(&mut self, flags: FdFlags) -> (r: Result<(), Errno>)
        ensures
            r == (if !old(self).has_right(RIGHT_FD_FDSTAT_SET_FLAGS) {
                Err::<(), Errno>(Errno::Acces)
            } else if flags.spec_contains(FDFLAG_NONBLOCK) && flags.spec_intersects(
                FDFLAG_ANY_SYNC,
            ) {
                Err::<(), Errno>(Errno::Inval)
            } else if flags.spec_contains(FDFLAG_APPEND) {
                Err::<(), Errno>(Errno::Nosys)
            } else {
                Ok::<(), Errno>(())
            }),
            r is Ok ==> *final(self) == (DiskFile { flags, ..*old(self) }),
            r is Err ==> *final(self) == *old(self),
    {
        if let Err(e) = self.right.can(Rights::from_bits(RIGHT_FD_FDSTAT_SET_FLAGS)) {
            return Err(e);
        }
        if flags.contains(FDFLAG_NONBLOCK) && flags.intersects(FDFLAG_ANY_SYNC) {
            return Err(Errno::Inval);
        }
        if flags.contains(FDFLAG_APPEND) {
            return Err(Errno::Nosys);
        }
        self.flags = flags;
        Ok(())
    }

    /// Narrow this handle's rights; widening is a rights violation. The
    /// inheriting set is ignored: files pass no rights on.
    pub fn fd_fdstat_set_rights(
        &mut self,
        fs_rights_base: Rights,
        fs_rights_inheriting: Rights,
    ) -> (r: Result<(), Errno>)
        ensures
            r == (if old(self).right.spec_contains(fs_rights_base) {
                Ok::<(), Errno>(())
            } else {
                Err::<(), Errno>(Errno::Acces)
            }),
            r is Ok ==> *final(self) == (DiskFile { right: fs_rights_base, ..*old(self) }),
            r is Err ==> *final(self) == *old(self),
    {
        let _ = fs_rights_inheriting;
        if let Err(e) = self.right.can(fs_rights_base) {
            return Err(e);
        }
        self.right = fs_rights_base;
        Ok(())
    }

    /// Build the file statistics from what the host reported; requires
    /// the filestat-get right.
    pub fn fd_filestat_get(&self, meta: &Result<HostMeta, Errno>) -> (r: Result<Filestat, Errno>)
        ensures
            r == (if !self.has_right(RIGHT_FD_FILESTAT_GET) {
                Err::<Filestat, Errno>(Errno::Acces)
            } else {
                match *meta {
                    Err(e) => Err::<Filestat, Errno>(e),
                    Ok(m) => Ok::<Filestat, Errno>(
                        Filestat {
                            filetype: if m.is_symlink {
                                FileType::SymbolicLink
                            } else {
                                FileType::RegularFile
                            },
                            inode: m.inode,
                            nlink: m.nlink,
                            size: m.size,
                            atim: m.atim,
                            mtim: m.mtim,
                            ctim: m.ctim,
                        },
                    ),
                }
            }),
    {
        if let Err(e) = self.right.can(Rights::from_bits(RIGHT_FD_FILESTAT_GET)) {
            return Err(e);
        }
        match meta {
            Err(e) => Err(*e),
            Ok(m) => Ok(
                Filestat {
                    filetype: if m.is_symlink {
                        FileType::SymbolicLink
                    } else {
                        FileType::RegularFile
                    },
                    inode: m.inode,
                    nlink: m.nlink,
                    size: m.size,
                    atim: m.atim,
                    mtim: m.mtim,
                    ctim: m.ctim,
                },
            ),
        }
    }

    /// Decide a set-size request: on success the caller truncates or
    /// extends the host file to exactly the returned length.
    pub fn fd_filestat_set_size(&mut self, size: u64) -> (r: Result<u64, Errno>)
        ensures
            r == (if old(self).has_right(RIGHT_FD_FILESTAT_SET_SIZE) {
                Ok::<u64, Errno>(size)
            } else {
                Err::<u64, Errno>(Errno::Acces)
            }),
            r is Ok ==> *final(self) == (DiskFile { size, ..*old(self) }),
            r is Err ==> *final(self) == *old(self),
    {
        if let Err(e) = self.right.can(Rights::from_bits(RIGHT_FD_FILESTAT_SET_SIZE)) {
            return Err(e);
        }
        self.size = size;
        Ok(size)
    }

    /// Decode a set-times request into one instruction per timestamp for
    /// the caller to apply; naming both an absolute time and "now" for
    /// the same timestamp is invalid.
    pub fn fd_filestat_set_times(&self, atim: u64, mtim: u64, fst_flags: u16) -> (r: Result<
        (Option<SystemTimeSpec>, Option<SystemTimeSpec>),
        Errno,
    >)
        ensures
            !self.has_right(RIGHT_FD_FILESTAT_SET_TIMES) ==> r == Err::<
                (Option<SystemTimeSpec>, Option<SystemTimeSpec>),
                Errno,
            >(Errno::Acces),
            self.has_right(RIGHT_FD_FILESTAT_SET_TIMES) ==> r == spec_times_instructions(
                atim,
                mtim,
                fst_flags,
            ),
    {
        if let Err(e) = self.right.can(Rights::from_bits(RIGHT_FD_FILESTAT_SET_TIMES)) {
            return Err(e);
        }
        let set_atim = fst_flags & FSTFLAG_ATIM > 0;
        let set_atim_now = fst_flags & FSTFLAG_ATIM_NOW > 0;
        let set_mtim = fst_flags & FSTFLAG_MTIM > 0;
        let set_mtim_now = fst_flags & FSTFLAG_MTIM_NOW > 0;
        let atim_spec = match systimespec(set_atim, atim, set_atim_now) {
            Ok(a) => a,
            Err(e) => {
                return Err(e);
            },
        };
        let mtim_spec = match systimespec(set_mtim, mtim, set_mtim_now) {
            Ok(m) => m,
            Err(e) => {
                return Err(e);
            },
        };
        Ok((atim_spec, mtim_spec))
    }

    /// Access-pattern advice is accepted and ignored.
    pub fn fd_advise(&mut self, offset: u64, len: u64, advice: Advice) -> (r: Result<(), Errno>)
        ensures
            r == Ok::<(), Errno>(()),
            *final(self) == *old(self),
    {
        let _ = offset;
        let _ = len;
        let _ = advice;
        Ok(())
    }

    /// Reserve space: when `offset + len` exceeds the current size the
    /// file grows to that length and the caller extends the host file to
    /// the returned length, restoring the stream position afterwards.
    pub fn fd_allocate(&mut self, offset: u64, len: u64) -> (r: Result<Option<u64>, Errno>)
        requires
            offset + len <= u64::MAX,
        ensures
            r == (if !old(self).has_right(RIGHT_FD_ALLOCATE) {
                Err::<Option<u64>, Errno>(Errno::Acces)
            } else if offset + len > old(self).size {
                Ok::<Option<u64>, Errno>(Some((offset + len) as u64))
            } else {
                Ok::<Option<u64>, Errno>(None)
            }),
            r is Ok ==> *final(self) == (DiskFile {
                size: if offset + len > old(self).size {
                    (offset + len) as u64
                } else {
                    old(self).size
                },
                ..*old(self)
            }),
            r is Err ==> *final(self) == *old(self),
            final(self).position == old(self).position,
    {
        if let Err(e) = self.right.can(Rights::from_bits(RIGHT_FD_ALLOCATE)) {
            return Err(e);
        }
        let new_len = offset + len;
        if new_len > self.size {
            self.size = new_len;
            Ok(Some(new_len))
        } else {
            Ok(None)
        }
    }

    /// The caller may flush file data to disk only with the datasync right.
    pub fn fd_datasync(&self) -> (r: Result<(), Errno>)
        ensures
            r == (if self.has_right(RIGHT_FD_DATASYNC) {
                Ok::<(), Errno>(())
            } else {
                Err::<(), Errno>(Errno::Acces)
            }),
    {
        self.right.can(Rights::from_bits(RIGHT_FD_DATASYNC))
    }

    /// The caller may flush file data and metadata only with the sync right.
    pub fn fd_sync(&self) -> (r: Result<(), Errno>)
        ensures
            r == (if self.has_right(RIGHT_FD_SYNC) {
                Ok::<(), Errno>(())
            } else {
                Err::<(), Errno>(Errno::Acces)
            }),
    {
        self.right.can(Rights::from_bits(RIGHT_FD_SYNC))
    }

    /// The caller may read at the stream position only with the read right.
    pub fn fd_read_check(&self) -> (r: Result<(), Errno>)
        ensures
            r == (if self.has_right(RIGHT_FD_READ) {
                Ok::<(), Errno>(())
            } else {
                Err::<(), Errno>(Errno::Acces)
            }),
    {
        self.right.can(Rights::from_bits(RIGHT_FD_READ))
    }

    /// Record a completed read of `n` bytes: the stream position advances
    /// past them; nothing else changes.
    pub fn fd_read_commit(&mut self, n: u64)
        requires
            old(self).position + n <= u64::MAX,
        ensures
            *final(self) == (DiskFile { position: (old(self).position + n) as u64, ..*old(self) }),
    {
        self.position = self.position + n;
    }

    /// A positioned read needs both the read and the seek right; it saves
    /// and restores the stream position, so the file state is untouched.
    pub fn fd_pread_check(&self) -> (r: Result<(), Errno>)
        ensures
            r == (if self.has_right(RIGHT_FD_READ | RIGHT_FD_SEEK) {
                Ok::<(), Errno>(())
            } else {
                Err::<(), Errno>(Errno::Acces)
            }),
    {
        self.right.can(Rights::from_bits(RIGHT_FD_READ | RIGHT_FD_SEEK))
    }

    /// Decide a plain write of `buf_len` bytes: it needs the write right,
    /// and it is refused with no-space when the current size plus the
    /// incoming bytes would pass the write quota.
    pub fn fd_write_check(&self, buf_len: u64) -> (r: Result<(), Errno>)
        ensures
            r == (if !self.has_right(RIGHT_FD_WRITE) {
                Err::<(), Errno>(Errno::Acces)
            } else if self.size + buf_len > FILE_WRITE_LIMIT {
                Err::<(), Errno>(Errno::Nospc)
            } else {
                Ok::<(), Errno>(())
            }),
    {
        if let Err(e) = self.right.can(Rights::from_bits(RIGHT_FD_WRITE)) {
            return Err(e);
        }
        if self.size > FILE_WRITE_LIMIT || buf_len > FILE_WRITE_LIMIT - self.size {
            return Err(Errno::Nospc);
        }
        Ok(())
    }

    /// Record a completed plain write of `n` bytes.
    pub fn fd_write_commit(&mut self, n: u64)
        requires
            old(self).size + n <= u64::MAX,
            old(self).position + n <= u64::MAX,
        ensures
            *final(self) == write_transition(*old(self), n),
    {
        if self.flags.contains(FDFLAG_APPEND) {
            let end = self.size + n;
            self.size = end;
            self.position = end;
        } else {
            let end = self.position + n;
            if end > self.size {
                self.size = end;
            }
            self.position = end;
        }
    }

    /// Decide a positioned write of `buf_len` bytes at `offset`: it needs
    /// the write and seek rights, and it is refused with no-space when the
    /// written range would pass the write quota.
    pub fn fd_pwrite_check(&self, offset: u64, buf_len: u64) -> (r: Result<(), Errno>)
        ensures
            r == (if !self.has_right(RIGHT_FD_WRITE | RIGHT_FD_SEEK) {
                Err::<(), Errno>(Errno::Acces)
            } else if offset + buf_len > FILE_WRITE_LIMIT {
                Err::<(), Errno>(Errno::Nospc)
            } else {
                Ok::<(), Errno>(())
            }),
    {
        if let Err(e) = self.right.can(Rights::from_bits(RIGHT_FD_WRITE | RIGHT_FD_SEEK)) {
            return Err(e);
        }
        if offset > FILE_WRITE_LIMIT || buf_len > FILE_WRITE_LIMIT - offset {
            return Err(Errno::Nospc);
        }
        Ok(())
    }

    /// Record a completed positioned write of `n` bytes at `offset`; the
    /// stream position is saved and restored around it, so it does not
    /// move.
    pub fn fd_pwrite_commit(&mut self, offset: u64, n: u64)
        requires
            offset + n <= u64::MAX,
        ensures
            *final(self) == pwrite_transition(*old(self), offset, n),
    {
        let end = offset + n;
        if end > self.size {
            self.size = end;
        }
    }

    /// Move the stream position. A zero seek from the current position is
    /// a position query and needs only the tell right; any other seek
    /// needs the seek right too. A target outside the host's range is
    /// invalid.
    pub fn fd_seek(&mut self, offset: i64, whence: u8) -> (r: Result<u64, Errno>)
        ensures
            r == (if !old(self).has_right(seek_required_rights(offset, whence)) {
                Err::<u64, Errno>(Errno::Acces)
            } else {
                match seek_target(*old(self), offset, whence) {
                    Some(t) => Ok::<u64, Errno>(t),
                    None => Err::<u64, Errno>(Errno::Inval),
                }
            }),
            r matches Ok(t) ==> *final(self) == (DiskFile { position: t, ..*old(self) }),
            r is Err ==> *final(self) == *old(self),
    {
        let required: u64 = if offset == 0 && whence == WHENCE_CUR {
            RIGHT_FD_TELL
        } else {
            RIGHT_FD_TELL | RIGHT_FD_SEEK
        };
        if let Err(e) = self.right.can(Rights::from_bits(required)) {
            return Err(e);
        }
        let target: u64 = if whence == WHENCE_CUR {
            match add_signed(self.position, offset) {
                Some(t) => t,
                None => {
                    return Err(Errno::Inval);
                },
            }
        } else if whence == WHENCE_END {
            match add_signed(self.size, offset) {
                Some(t) => t,
                None => {
                    return Err(Errno::Inval);
                },
            }
        } else if whence == WHENCE_SET {
            #[verifier::truncate]
            (offset as u64)
        } else {
            return Err(Errno::Inval);
        };
        self.position = target;
        Ok(target)
    }

    /// Report the stream position; needs the tell right.
    pub fn fd_tell(&self) -> (r: Result<u64, Errno>)
        ensures
            r == (if self.has_right(RIGHT_FD_TELL) {
                Ok::<u64, Errno>(self.position)
            } else {
                Err::<u64, Errno>(Errno::Acces)
            }),
    {
        if let Err(e) = self.right.can(Rights::from_bits(RIGHT_FD_TELL)) {
            return Err(e);
        }
        Ok(self.position)
    }
}

pub const WHENCE_SET: u8 = 0;
pub const WHENCE_CUR: u8 = 1;
pub const WHENCE_END: u8 = 2;

/// The rights a seek request needs: a zero seek from the current position
/// is only a position query.
pub open spec fn seek_required_rights(offset: i64, whence: u8) -> u64 {
    if offset == 0 && whence == WHENCE_CUR {
        RIGHT_FD_TELL
    } else {
        RIGHT_FD_TELL | RIGHT_FD_SEEK
    }
}

/// Where a seek lands: relative to the current position, the end, or the
/// start of the file; absent when the target leaves the host's range or
/// the whence value is unknown. A seek to an absolute offset reinterprets
/// the offset's bits, as the host does.
pub open spec fn seek_target(f: DiskFile, offset: i64, whence: u8) -> Option<u64> {
    if whence == WHENCE_CUR {
        spec_add_signed(f.position, offset)
    } else if whence == WHENCE_END {
        spec_add_signed(f.size, offset)
    } else if whence == WHENCE_SET {
        Some(offset as u64)
    } else {
        None
    }
}

pub open spec fn spec_add_signed(base: u64, off: i64) -> Option<u64> {
    if 0 <= base + off <= u64::MAX {
        Some((base + off) as u64)
    } else {
        None
    }
}

/// Add a signed offset to an unsigned position, refusing targets outside
/// the unsigned range.
fn add_signed(base: u64, off: i64) -> (r: Option<u64>)
    ensures
        r == spec_add_signed(base, off),
{
    if off >= 0 {
        base.checked_add(off as u64)
    } else {
        let mag: u64 = (-(off as i128)) as u64;
        assert(mag == -(off as int));
        base.checked_sub(mag)
    }
}

/// An inode of the sandbox filesystem: an open directory or an open file.
pub enum DiskInode {
    Dir(DiskDir),
    File(DiskFile),
}

/// The descriptor statistics of a directory handle.
pub open spec fn spec_dir_fdstat(d: DiskDir) -> FdStat {
    FdStat {
        filetype: FileType::Directory,
        fs_rights_base: d.dir_rights,
        fs_rights_inheriting: d.file_rights,
        flags: FdFlags { bits: 0 },
    }
}

/// The descriptor statistics of a file handle, given host metadata.
pub open spec fn spec_file_fdstat(f: DiskFile, m: HostMeta) -> FdStat {
    FdStat {
        filetype: if m.is_symlink {
            FileType::SymbolicLink
        } else {
            FileType::RegularFile
        },
        fs_rights_base: f.right,
        fs_rights_inheriting: Rights { bits: 0 },
        flags: f.flags,
    }
}

/// File statistics built from host metadata under a chosen file type.
pub open spec fn spec_filestat(filetype: FileType, m: HostMeta) -> Filestat {
    Filestat {
        filetype,
        inode: m.inode,
        nlink: m.nlink,
        size: m.size,
        atim: m.atim,
        mtim: m.mtim,
        ctim: m.ctim,
    }
}

impl DiskInode {
    /// Dispatch `fd_fdstat_get` by inode kind; only a file consults the
    /// host metadata beyond the symlink bit, a directory none at all.
    pub fn fd_fdstat_get(&self, meta: &Result<HostMeta, Errno>) -> (r: Result<FdStat, Errno>)
        ensures
            self matches DiskInode::Dir(d) ==> r == Ok::<FdStat, Errno>(spec_dir_fdstat(*d)),
            self matches DiskInode::File(f) ==> r == (match *meta {
                Err(e) => Err::<FdStat, Errno>(e),
                Ok(m) => Ok::<FdStat, Errno>(spec_file_fdstat(*f, m)),
            }),
    {
        match self {
            DiskInode::Dir(inode) => inode.fd_fdstat_get(),
            DiskInode::File(inode) => inode.fd_fdstat_get(meta),
        }
    }

    /// Dispatch `fd_fdstat_set_flags` by inode kind.
    pub fn fd_fdstat_set_flags(&mut self, flags: FdFlags) -> (r: Result<(), Errno>)
        ensures
            (*old(self)) is Dir ==> r == Err::<(), Errno>(Errno::Badf) && *final(self) == *old(self),
            (*old(self)) matches DiskInode::File(f) ==> {
                &&& r == (if !f.has_right(RIGHT_FD_FDSTAT_SET_FLAGS) {
                    Err::<(), Errno>(Errno::Acces)
                } else if flags.spec_contains(FDFLAG_NONBLOCK) && flags.spec_intersects(
                    FDFLAG_ANY_SYNC,
                ) {
                    Err::<(), Errno>(Errno::Inval)
                } else if flags.spec_contains(FDFLAG_APPEND) {
                    Err::<(), Errno>(Errno::Nosys)
                } else {
                    Ok::<(), Errno>(())
                })
                &&& (r is Ok ==> *final(self) == DiskInode::File(DiskFile { flags, ..f }))
                &&& (r is Err ==> *final(self) == *old(self))
            },
    {
        match self {
            DiskInode::Dir(inode) => inode.fd_fdstat_set_flags(flags),
            DiskInode::File(inode) => inode.fd_fdstat_set_flags(flags),
        }
    }

    /// Dispatch `fd_fdstat_set_rights` by inode kind.
    pub fn fd_fdstat_set_rights(
        &mut self,
        fs_rights_base: Rights,
        fs_rights_inheriting: Rights,
    ) -> (r: Result<(), Errno>)
        ensures
            (*old(self)) matches DiskInode::Dir(d) ==> {
                &&& r == (if d.dir_rights.spec_contains(fs_rights_base)
                    && d.file_rights.spec_contains(fs_rights_inheriting) {
                    Ok::<(), Errno>(())
                } else {
                    Err::<(), Errno>(Errno::Acces)
                })
                &&& (r is Ok ==> *final(self) == DiskInode::Dir(
                    DiskDir {
                        real_path: d.real_path,
                        dir_rights: fs_rights_base,
                        file_rights: fs_rights_inheriting,
                    },
                ))
                &&& (r is Err ==> *final(self) == *old(self))
            },
            (*old(self)) matches DiskInode::File(f) ==> {
                &&& r == (if f.right.spec_contains(fs_rights_base) {
                    Ok::<(), Errno>(())
                } else {
                    Err::<(), Errno>(Errno::Acces)
                })
                &&& (r is Ok ==> *final(self) == DiskInode::File(
                    DiskFile { right: fs_rights_base, ..f },
                ))
                &&& (r is Err ==> *final(self) == *old(self))
            },
    {
        match self {
            DiskInode::Dir(inode) => inode.fd_fdstat_set_rights(
                fs_rights_base,
                fs_rights_inheriting,
            ),
            DiskInode::File(inode) => inode.fd_fdstat_set_rights(
                fs_rights_base,
                fs_rights_inheriting,
            ),
        }
    }

    /// Dispatch `fd_filestat_get` by inode kind.
    pub fn fd_filestat_get(&self, meta: &Result<HostMeta, Errno>) -> (r: Result<Filestat, Errno>)
        ensures
            self matches DiskInode::Dir(d) ==> r == (if !d.dir_rights.spec_contains(
                Rights { bits: RIGHT_FD_FILESTAT_GET },
            ) {
                Err::<Filestat, Errno>(Errno::Acces)
            } else {
                match *meta {
                    Err(e) => Err::<Filestat, Errno>(e),
                    Ok(m) => Ok::<Filestat, Errno>(
                        spec_filestat(
                            if m.is_symlink {
                                FileType::SymbolicLink
                            } else {
                                FileType::Directory
                            },
                            m,
                        ),
                    ),
                }
            }),
            self matches DiskInode::File(f) ==> r == (if !f.has_right(RIGHT_FD_FILESTAT_GET) {
                Err::<Filestat, Errno>(Errno::Acces)
            } else {
                match *meta {
                    Err(e) => Err::<Filestat, Errno>(e),
                    Ok(m) => Ok::<Filestat, Errno>(
                        spec_filestat(
                            if m.is_symlink {
                                FileType::SymbolicLink
                            } else {
                                FileType::RegularFile
                            },
                            m,
                        ),
                    ),
                }
            }),
    {
        match self {
            DiskInode::Dir(inode) => inode.fd_filestat_get(meta),
            DiskInode::File(inode) => inode.fd_filestat_get(meta),
        }
    }

    /// Dispatch `fd_filestat_set_size` by inode kind.
    pub fn fd_filestat_set_size(&mut self, size: u64) -> (r: Result<u64, Errno>)
        ensures
            (*old(self)) is Dir ==> r == Err::<u64, Errno>(Errno::Badf) && *final(self) == *old(self),
            (*old(self)) matches DiskInode::File(f) ==> {
                &&& r == (if f.has_right(RIGHT_FD_FILESTAT_SET_SIZE) {
                    Ok::<u64, Errno>(size)
                } else {
                    Err::<u64, Errno>(Errno::Acces)
                })
                &&& (r is Ok ==> *final(self) == DiskInode::File(DiskFile { size, ..f }))
                &&& (r is Err ==> *final(self) == *old(self))
            },
    {
        match self {
            DiskInode::Dir(inode) => inode.fd_filestat_set_size(size),
            DiskInode::File(inode) => inode.fd_filestat_set_size(size),
        }
    }

    /// Dispatch `fd_filestat_set_times` by inode kind: rights-checked but
    /// unsupported on a directory, decoded into timestamp instructions on
    /// a file.
    pub fn fd_filestat_set_times(&self, atim: u64, mtim: u64, fst_flags: u16) -> (r: Result<
        (Option<SystemTimeSpec>, Option<SystemTimeSpec>),
        Errno,
    >)
        ensures
            self matches DiskInode::Dir(d) ==> r == (if !d.dir_rights.spec_contains(
                Rights { bits: RIGHT_FD_FILESTAT_SET_TIMES },
            ) {
                Err::<(Option<SystemTimeSpec>, Option<SystemTimeSpec>), Errno>(Errno::Acces)
            } else {
                Err::<(Option<SystemTimeSpec>, Option<SystemTimeSpec>), Errno>(Errno::Nosys)
            }),
            self matches DiskInode::File(f) ==> {
                &&& (!f.has_right(RIGHT_FD_FILESTAT_SET_TIMES) ==> r == Err::<
                    (Option<SystemTimeSpec>, Option<SystemTimeSpec>),
                    Errno,
                >(Errno::Acces))
                &&& (f.has_right(RIGHT_FD_FILESTAT_SET_TIMES) ==> r == spec_times_instructions(
                    atim,
                    mtim,
                    fst_flags,
                ))
            },
    {
        match self {
            DiskInode::Dir(inode) => {
                if let Err(e) = inode.dir_rights.can(
                    Rights::from_bits(RIGHT_FD_FILESTAT_SET_TIMES),
                ) {
                    Err(e)
                } else {
                    Err(Errno::Nosys)
                }
            },
            DiskInode::File(inode) => inode.fd_filestat_set_times(atim, mtim, fst_flags),
        }
    }
}

/// The timestamp instructions a set-times request decodes to, or the
/// invalid-argument error for a contradictory request.
pub open spec fn spec_times_instructions(atim: u64, mtim: u64, fst_flags: u16) -> Result<
    (Option<SystemTimeSpec>, Option<SystemTimeSpec>),
    Errno,
> {
    let set_atim = fst_flags & FSTFLAG_ATIM > 0;
    let set_atim_now = fst_flags & FSTFLAG_ATIM_NOW > 0;
    let set_mtim = fst_flags & FSTFLAG_MTIM > 0;
    let set_mtim_now = fst_flags & FSTFLAG_MTIM_NOW > 0;
    if set_atim && set_atim_now {
        Err(Errno::Inval)
    } else if set_mtim && set_mtim_now {
        Err(Errno::Inval)
    } else {
        Ok(
            (
                if set_atim {
                    Some(SystemTimeSpec::Absolute(atim))
                } else if set_atim_now {
                    Some(SystemTimeSpec::SymbolicNow)
                } else {
                    None
                },
                if set_mtim {
                    Some(SystemTimeSpec::Absolute(mtim))
                } else if set_mtim_now {
                    Some(SystemTimeSpec::SymbolicNow)
                } else {
                    None
                },
            ),
        )
    }
}

/// The directory inside an inode slot known to hold one.
pub open spec fn spec_dir_of(n: Option<DiskInode>) -> DiskDir
    recommends
        n matches Some(DiskInode::Dir(_)),
{
    match n {
        Some(DiskInode::Dir(d)) => d,
        _ => vstd::pervasive::arbitrary(),
    }
}

/// Did the host find a directory at the target path?
pub open spec fn spec_meta_is_dir(meta: Option<HostMeta>) -> bool {
    meta matches Some(m) && m.is_dir
}

/// What a validated `path_open` request resolved to.
pub enum OpenPlan {
    /// The request names the preopen root itself: inode 0 is reused.
    Root,
    /// The request names this host path; the caller asks the host what
    /// stands there and completes the open.
    Target(Vec<String>),
}

/// The host open options a `path_open` request translates to, mirroring
/// the host's open-options builder.
#[derive(Clone, Copy, Debug, PartialEq, Eq, Structural)]
pub struct OpenOpts {
    pub read: bool,
    pub write: bool,
    pub create: bool,
    pub create_new: bool,
    pub truncate: bool,
    pub append: bool,
}

/// How a `path_open` completes.
pub enum OpenOutcome {
    /// An existing directory: this inode index was allocated for it.
    Opened(usize),
    /// A file: the caller opens the host file with these options, then
    /// registers it with `register_file`.
    HostOpen(OpenOpts),
}

/// The host open options for a file open: create-new for an exclusive
/// create, create otherwise; creating or holding the write right opens
/// for writing; without the write right the file is opened at least for
/// reading.
pub open spec fn spec_open_options(oflags: OFlags, fs_rights_base: Rights, fdflags: FdFlags) -> OpenOpts {
    let read = fs_rights_base.spec_contains(Rights { bits: RIGHT_FD_READ });
    let write = fs_rights_base.spec_contains(Rights { bits: RIGHT_FD_WRITE });
    let create_any = oflags.spec_contains(OFLAG_CREATE);
    let excl = oflags.spec_contains(OFLAG_CREATE | OFLAG_EXCLUSIVE);
    OpenOpts {
        read: read || !write,
        write: write || create_any,
        create: create_any && !excl,
        create_new: excl,
        truncate: oflags.spec_contains(OFLAG_TRUNCATE),
        append: fdflags.spec_contains(FDFLAG_APPEND),
    }
}

/// Translate open flags and requested rights into host open options,
/// exactly as `spec_open_options` states them.
pub fn open_options_for(oflags: OFlags, fs_rights_base: Rights, fdflags: FdFlags) -> (r: OpenOpts)
    ensures
        r == spec_open_options(oflags, fs_rights_base, fdflags),
{
    let read = fs_rights_base.contains(Rights::from_bits(RIGHT_FD_READ));
    let write = fs_rights_base.contains(Rights::from_bits(RIGHT_FD_WRITE));
    let mut opts = OpenOpts {
        read: false,
        write: false,
        create: false,
        create_new: false,
        truncate: false,
        append: false,
    };
    if oflags.contains(OFLAG_CREATE | OFLAG_EXCLUSIVE) {
        opts.create_new = true;
        opts.write = true;
    } else if oflags.contains(OFLAG_CREATE) {
        opts.create = true;
        opts.write = true;
    }
    if oflags.contains(OFLAG_TRUNCATE) {
        opts.truncate = true;
    }
    if read {
        opts.read = true;
    }
    if write {
        opts.write = true;
    } else {
        opts.read = true;
    }
    if fdflags.contains(FDFLAG_APPEND) {
        opts.append = true;
    }
    proof {
        let b = oflags.bits;
        assert(b & (OFLAG_CREATE | OFLAG_EXCLUSIVE) == (OFLAG_CREATE | OFLAG_EXCLUSIVE) ==> b
            & OFLAG_CREATE == OFLAG_CREATE) by (bit_vector);
    }
    opts
}

/// What `path_open_prepare` returns, step by step: sync flags are
/// unsupported, the directory flag cannot be combined with create,
/// exclusive or truncate, the parent must be a live directory inode, the
/// guest path must resolve below the parent, and the root path itself is
/// the `Root` plan.
pub open spec fn path_open_prepare_post(
    fs: DiskFileSys,
    dir_ino: usize,
    path: Seq<char>,
    oflags: OFlags,
    fdflags: FdFlags,
    r: Result<OpenPlan, Errno>,
) -> bool {
    if fdflags.spec_intersects(FDFLAG_ANY_SYNC) {
        r == Err::<OpenPlan, Errno>(Errno::Nosys)
    } else if oflags.spec_contains(OFLAG_DIRECTORY) && (oflags.spec_contains(OFLAG_CREATE)
        || oflags.spec_contains(OFLAG_EXCLUSIVE) || oflags.spec_contains(OFLAG_TRUNCATE)) {
        r == Err::<OpenPlan, Errno>(Errno::Inval)
    } else if !(dir_ino < fs.inodes@.len() && fs.inodes@[dir_ino as int] is Some) {
        r == Err::<OpenPlan, Errno>(Errno::Badf)
    } else {
        match fs.inodes@[dir_ino as int] {
            Some(DiskInode::Dir(d)) => {
                let resolved = resolve(d.real_path.deep_view(), path);
                if !path_prefix_of(d.real_path.deep_view(), resolved) {
                    r == Err::<OpenPlan, Errno>(Errno::Noent)
                } else if resolved == fs.real_path.deep_view() {
                    r == Ok::<OpenPlan, Errno>(OpenPlan::Root)
                } else {
                    r matches Ok(plan) && plan matches OpenPlan::Target(p) && p.deep_view()
                        == resolved
                }
            },
            _ => r == Err::<OpenPlan, Errno>(Errno::Notdir),
        }
    }
}

/// What resolving a guest path below a directory inode returns: a bad
/// descriptor for a dead index, not-a-directory for a file, the missing
/// -entry error for a path that escapes, and the resolved path otherwise.
pub open spec fn dir_resolve_post(
    fs: DiskFileSys,
    dir_ino: usize,
    path: Seq<char>,
    r: Result<Vec<String>, Errno>,
) -> bool {
    if !(dir_ino < fs.inodes@.len() && fs.inodes@[dir_ino as int] is Some) {
        r == Err::<Vec<String>, Errno>(Errno::Badf)
    } else {
        match fs.inodes@[dir_ino as int] {
            Some(DiskInode::Dir(d)) => {
                let resolved = resolve(d.real_path.deep_view(), path);
                if path_prefix_of(d.real_path.deep_view(), resolved) {
                    r matches Ok(p) && p.deep_view() == resolved
                } else {
                    r == Err::<Vec<String>, Errno>(Errno::Noent)
                }
            },
            _ => r == Err::<Vec<String>, Errno>(Errno::Notdir),
        }
    }
}

/// A rights-checked path resolution: access is denied without the
/// required root-level right, then the path resolves below the parent.
pub open spec fn path_resolve_post(
    fs: DiskFileSys,
    required: Rights,
    dir_ino: usize,
    path: Seq<char>,
    r: Result<Vec<String>, Errno>,
) -> bool {
    if !fs.dir_rights.spec_contains(required) {
        r == Err::<Vec<String>, Errno>(Errno::Acces)
    } else {
        dir_resolve_post(fs, dir_ino, path, r)
    }
}

/// What a rename resolution returns: the source parent and path resolve
/// first, then the destination's.
pub open spec fn rename_resolve_post(
    fs: DiskFileSys,
    old_dir: usize,
    old_path: Seq<char>,
    new_dir: usize,
    new_path: Seq<char>,
    r: Result<(Vec<String>, Vec<String>), Errno>,
) -> bool {
    if !(old_dir < fs.inodes@.len() && fs.inodes@[old_dir as int] is Some) {
        r == Err::<(Vec<String>, Vec<String>), Errno>(Errno::Badf)
    } else {
        match fs.inodes@[old_dir as int] {
            Some(DiskInode::Dir(d1)) => {
                let from = resolve(d1.real_path.deep_view(), old_path);
                if !path_prefix_of(d1.real_path.deep_view(), from) {
                    r == Err::<(Vec<String>, Vec<String>), Errno>(Errno::Noent)
                } else if !(new_dir < fs.inodes@.len() && fs.inodes@[new_dir as int] is Some) {
                    r == Err::<(Vec<String>, Vec<String>), Errno>(Errno::Badf)
                } else {
                    match fs.inodes@[new_dir as int] {
                        Some(DiskInode::Dir(d2)) => {
                            let to = resolve(d2.real_path.deep_view(), new_path);
                            if !path_prefix_of(d2.real_path.deep_view(), to) {
                                r == Err::<(Vec<String>, Vec<String>), Errno>(Errno::Noent)
                            } else {
                                r matches Ok(pair) && pair.0.deep_view() == from
                                    && pair.1.deep_view() == to
                            }
                        },
                        _ => r == Err::<(Vec<String>, Vec<String>), Errno>(Errno::Notdir),
                    }
                }
            },
            _ => r == Err::<(Vec<String>, Vec<String>), Errno>(Errno::Notdir),
        }
    }
}

/// Build the statistics of a path's target from host metadata, with the
/// full three-way file type.
pub fn path_filestat_from_meta(meta: &HostMeta) -> (r: Filestat)
    ensures
        r == spec_filestat(
            if meta.is_symlink {
                FileType::SymbolicLink
            } else if meta.is_dir {
                FileType::Directory
            } else {
                FileType::RegularFile
            },
            *meta,
        ),
{
    Filestat {
        filetype: if meta.is_symlink {
            FileType::SymbolicLink
        } else if meta.is_dir {
            FileType::Directory
        } else {
            FileType::RegularFile
        },
        inode: meta.inode,
        nlink: meta.nlink,
        size: meta.size,
        atim: meta.atim,
        mtim: meta.mtim,
        ctim: meta.ctim,
    }
}

/// The per-invocation sandbox filesystem: a dense, index-keyed inode
/// table whose slot 0 initially holds the preopen root, with the root's
/// own path and the root-level rights.
pub struct DiskFileSys {
    pub real_path: Vec<String>,
    pub inodes: Vec<Option<DiskInode>>,
    pub dir_rights: Rights,
    pub file_rights: Rights,
}

impl DiskFileSys {
    /// The filesystem's standing invariant: the root path is well-formed
    /// and every live directory inode names a well-formed path at or
    /// below it. A resolved path can therefore never leave the sandbox.
    pub open spec fn wf(&self) -> bool {
        &&& wf_path(self.real_path.deep_view())
        &&& forall|i: int|
            0 <= i < self.inodes@.len() ==> ((#[trigger] self.inodes@[i]) matches Some(
                DiskInode::Dir(d),
            ) ==> path_prefix_of(self.real_path.deep_view(), d.real_path.deep_view()) && wf_path(
                d.real_path.deep_view(),
            ))
    }

    /// Create the filesystem over one canonicalized host directory, which
    /// becomes inode 0 with all directory and file rights.
    pub fn new(host_path: Vec<String>) -> (r: DiskFileSys)
        requires
            wf_path(host_path.deep_view()),
        ensures
            r.wf(),
            r.real_path == host_path,
            r.inodes@.len() == 1,
            r.inodes@[0] matches Some(DiskInode::Dir(d)) && d.real_path.deep_view()
                == host_path.deep_view() && d.dir_rights.bits == RIGHTS_DIR_ALL
                && d.file_rights.bits == RIGHTS_FD_ALL,
            r.dir_rights.bits == RIGHTS_DIR_ALL,
            r.file_rights.bits == RIGHTS_FD_ALL,
    {
        let root = DiskDir {
            real_path: clone_path(&host_path),
            dir_rights: Rights::dir_all(),
            file_rights: Rights::fd_all(),
        };
        let mut inodes: Vec<Option<DiskInode>> = Vec::new();
        inodes.push(Some(DiskInode::Dir(root)));
        let r = DiskFileSys {
            real_path: host_path,
            inodes,
            dir_rights: Rights::dir_all(),
            file_rights: Rights::fd_all(),
        };
        proof {
            lemma_path_prefix_reflexive(r.real_path.deep_view());
            assert forall|i: int|
                0 <= i < r.inodes@.len() implies ((#[trigger] r.inodes@[i]) matches Some(
                DiskInode::Dir(d),
            ) ==> path_prefix_of(r.real_path.deep_view(), d.real_path.deep_view()) && wf_path(
                d.real_path.deep_view(),
            )) by {
                assert(r.inodes@[0] matches Some(DiskInode::Dir(d)) && d.real_path.deep_view()
                    == r.real_path.deep_view());
            }
        }
        r
    }

    /// Store an inode in the lowest free slot, growing the table when none
    /// is free, and return its index.
    fn alloc_inode(&mut self, node: DiskInode) -> (ino: usize)
        ensures
            ino <= old(self).inodes@.len(),
            forall|j: int| 0 <= j < ino ==> (#[trigger] old(self).inodes@[j]) is Some,
            ino < old(self).inodes@.len() ==> old(self).inodes@[ino as int] is None,
            final(self).inodes@ == (if ino < old(self).inodes@.len() {
                old(self).inodes@.update(ino as int, Some(node))
            } else {
                old(self).inodes@.push(Some(node))
            }),
            final(self).real_path == old(self).real_path,
            final(self).dir_rights == old(self).dir_rights,
            final(self).file_rights == old(self).file_rights,
    {
        let mut i: usize = 0;
        while i < self.inodes.len()
            invariant
                i <= self.inodes@.len(),
                *self == *old(self),
                forall|j: int| 0 <= j < i ==> (#[trigger] self.inodes@[j]) is Some,
            decreases self.inodes@.len() - i,
        {
            let free = self.inodes[i].is_none();
            if free {
                self.inodes[i] = Some(node);
                return i;
            }
            i += 1;
        }
        self.inodes.push(Some(node));
        i
    }

    /// Look up a live inode; a dead or out-of-range index is a bad
    /// descriptor.
    pub fn get_inode(&self, ino: usize) -> (r: Result<&DiskInode, Errno>)
        ensures
            (r is Ok) == (ino < self.inodes@.len() && self.inodes@[ino as int] is Some),
            r matches Ok(n) ==> self.inodes@[ino as int] == Some(*n),
            r is Err ==> r == Err::<&DiskInode, Errno>(Errno::Badf),
    {
        if ino >= self.inodes.len() {
            return Err(Errno::Badf);
        }
        match &self.inodes[ino] {
            None => Err(Errno::Badf),
            Some(n) => Ok(n),
        }
    }

    /// Look up a live directory inode.
    pub fn get_dir(&self, ino: usize) -> (r: Result<&DiskDir, Errno>)
        ensures
            (r is Ok) == (ino < self.inodes@.len() && self.inodes@[ino as int] matches Some(
                DiskInode::Dir(_),
            )),
            r matches Ok(d) ==> self.inodes@[ino as int] == Some(DiskInode::Dir(*d)),
            (ino >= self.inodes@.len() || self.inodes@[ino as int] is None) ==> r == Err::<
                &DiskDir,
                Errno,
            >(Errno::Badf),
            ino < self.inodes@.len() && (self.inodes@[ino as int] matches Some(
                DiskInode::File(_),
            )) ==> r == Err::<&DiskDir, Errno>(Errno::Notdir),
    {
        if ino >= self.inodes.len() {
            return Err(Errno::Badf);
        }
        match &self.inodes[ino] {
            None => Err(Errno::Badf),
            Some(DiskInode::Dir(d)) => Ok(d),
            Some(DiskInode::File(_)) => Err(Errno::Notdir),
        }
    }

    /// Look up a live file inode.
    pub fn get_file(&self, ino: usize) -> (r: Result<&DiskFile, Errno>)
        ensures
            (r is Ok) == (ino < self.inodes@.len() && self.inodes@[ino as int] matches Some(
                DiskInode::File(_),
            )),
            r matches Ok(f) ==> self.inodes@[ino as int] == Some(DiskInode::File(*f)),
            (ino >= self.inodes@.len() || self.inodes@[ino as int] is None) ==> r == Err::<
                &DiskFile,
                Errno,
            >(Errno::Badf),
            ino < self.inodes@.len() && (self.inodes@[ino as int] matches Some(
                DiskInode::Dir(_),
            )) ==> r == Err::<&DiskFile, Errno>(Errno::Isdir),
    {
        if ino >= self.inodes.len() {
            return Err(Errno::Badf);
        }
        match &self.inodes[ino] {
            None => Err(Errno::Badf),
            Some(DiskInode::File(f)) => Ok(f),
            Some(DiskInode::Dir(_)) => Err(Errno::Isdir),
        }
    }

    /// Borrow a live inode mutably. Whatever the caller writes through
    /// the returned handle, only that slot changes, and replacing one
    /// inode by another of the same kind preserves the filesystem
    /// invariant for files; for directories the caller's contract governs.
    pub fn get_mut_inode(&mut self, ino: usize) -> (r: Result<&mut DiskInode, Errno>)
        ensures
            (r is Ok) == (ino < old(self).inodes@.len() && old(self).inodes@[ino as int] is Some),
            r matches Ok(n) ==> {
                &&& old(self).inodes@[ino as int] == Some(*n)
                &&& final(self).inodes@ == old(self).inodes@.update(ino as int, Some(*final(n)))
                &&& final(self).real_path == old(self).real_path
                &&& final(self).dir_rights == old(self).dir_rights
                &&& final(self).file_rights == old(self).file_rights
            },
            r is Err ==> r == Err::<&mut DiskInode, Errno>(Errno::Badf) && *final(self) == *old(
                self,
            ),
    {
        if ino >= self.inodes.len() {
            return Err(Errno::Badf);
        }
        let live = self.inodes[ino].is_some();
        if !live {
            return Err(Errno::Badf);
        }
        match &mut self.inodes[ino] {
            Some(n) => Ok(n),
            None => unreached(),
        }
    }

    /// Borrow a live file inode mutably; only that slot changes, and it
    /// stays a file, so the filesystem invariant is preserved.
    pub fn get_mut_file(&mut self, ino: usize) -> (r: Result<&mut DiskFile, Errno>)
        ensures
            (r is Ok) == (ino < old(self).inodes@.len() && (old(self).inodes@[ino as int] matches
            Some(DiskInode::File(_)))),
            r matches Ok(f) ==> {
                &&& old(self).inodes@[ino as int] == Some(DiskInode::File(*f))
                &&& final(self).inodes@ == old(self).inodes@.update(
                    ino as int,
                    Some(DiskInode::File(*final(f))),
                )
                &&& final(self).real_path == old(self).real_path
                &&& final(self).dir_rights == old(self).dir_rights
                &&& final(self).file_rights == old(self).file_rights
                &&& (old(self).wf() ==> final(self).wf())
            },
            r is Err ==> *final(self) == *old(self),
            (ino >= old(self).inodes@.len() || old(self).inodes@[ino as int] is None) ==> r
                == Err::<&mut DiskFile, Errno>(Errno::Badf),
            ino < old(self).inodes@.len() && (old(self).inodes@[ino as int] matches Some(
                DiskInode::Dir(_),
            )) ==> r == Err::<&mut DiskFile, Errno>(Errno::Isdir),
    {
        if ino >= self.inodes.len() {
            return Err(Errno::Badf);
        }
        match &self.inodes[ino] {
            None => {
                return Err(Errno::Badf);
            },
            Some(DiskInode::Dir(_)) => {
                return Err(Errno::Isdir);
            },
            Some(DiskInode::File(_)) => {},
        }
        match &mut self.inodes[ino] {
            Some(DiskInode::File(f)) => Ok(f),
            _ => unreached(),
        }
    }

    /// Borrow a live directory inode mutably; only that slot changes.
    /// The caller may only narrow its rights, which preserves the
    /// filesystem invariant, since the path is part of the handle.
    pub fn get_mut_dir(&mut self, ino: usize) -> (r: Result<&mut DiskDir, Errno>)
        ensures
            (r is Ok) == (ino < old(self).inodes@.len() && (old(self).inodes@[ino as int] matches
            Some(DiskInode::Dir(_)))),
            r matches Ok(d) ==> {
                &&& old(self).inodes@[ino as int] == Some(DiskInode::Dir(*d))
                &&& final(self).inodes@ == old(self).inodes@.update(
                    ino as int,
                    Some(DiskInode::Dir(*final(d))),
                )
                &&& final(self).real_path == old(self).real_path
                &&& final(self).dir_rights == old(self).dir_rights
                &&& final(self).file_rights == old(self).file_rights
            },
            r is Err ==> *final(self) == *old(self),
            (ino >= old(self).inodes@.len() || old(self).inodes@[ino as int] is None) ==> r
                == Err::<&mut DiskDir, Errno>(Errno::Badf),
            ino < old(self).inodes@.len() && (old(self).inodes@[ino as int] matches Some(
                DiskInode::File(_),
            )) ==> r == Err::<&mut DiskDir, Errno>(Errno::Notdir),
    {
        if ino >= self.inodes.len() {
            return Err(Errno::Badf);
        }
        match &self.inodes[ino] {
            None => {
                return Err(Errno::Badf);
            },
            Some(DiskInode::File(_)) => {
                return Err(Errno::Notdir);
            },
            Some(DiskInode::Dir(_)) => {},
        }
        match &mut self.inodes[ino] {
            Some(DiskInode::Dir(d)) => Ok(d),
            _ => unreached(),
        }
    }

    /// Resolve and validate a `path_open` request up to the host's view
    /// of the target: validate the descriptor flags and the open-flag
    /// combination, look the parent directory up, and resolve the guest
    /// path below it. A plan of `Root` reuses inode 0; for a `Target` the
    /// caller asks the host what stands at that path and calls
    /// `path_open_finish`.
    pub fn path_open_prepare(
        &self,
        dir_ino: usize,
        path: &str,
        oflags: OFlags,
        fdflags: FdFlags,
    ) -> (r: Result<OpenPlan, Errno>)
        ensures
            path_open_prepare_post(*self, dir_ino, path@, oflags, fdflags, r),
            self.wf() ==> (r matches Ok(plan) ==> (plan matches OpenPlan::Target(p)
                ==> path_prefix_of(self.real_path.deep_view(), p.deep_view()) && wf_path(
                p.deep_view(),
            ))),
    {
        if fdflags.intersects(FDFLAG_ANY_SYNC) {
            return Err(Errno::Nosys);
        }
        if oflags.contains(OFLAG_DIRECTORY) && (oflags.contains(OFLAG_CREATE) || oflags.contains(
            OFLAG_EXCLUSIVE,
        ) || oflags.contains(OFLAG_TRUNCATE)) {
            return Err(Errno::Inval);
        }
        let parent_dir = match self.get_dir(dir_ino) {
            Ok(d) => d,
            Err(e) => {
                return Err(e);
            },
        };
        let p = match parent_dir.get_absolutize_path(path) {
            Ok(p) => p,
            Err(e) => {
                return Err(e);
            },
        };
        if path_eq(&p, &self.real_path) {
            return Ok(OpenPlan::Root);
        }
        proof {
            if self.wf() {
                lemma_path_prefix_transitive(
                    self.real_path.deep_view(),
                    parent_dir.real_path.deep_view(),
                    p.deep_view(),
                );
            }
        }
        Ok(OpenPlan::Target(p))
    }

    /// Complete a `path_open` on a resolved target, given what the host
    /// found there. An existing directory becomes a new directory inode
    /// whose rights are the parent's, narrowed by the requested rights;
    /// anything else becomes a host open request whose options the caller
    /// applies, registering the opened file afterwards.
    pub fn path_open_finish(
        &mut self,
        dir_ino: usize,
        target: Vec<String>,
        target_meta: &Option<HostMeta>,
        oflags: OFlags,
        fs_rights_base: Rights,
        fs_rights_inheriting: Rights,
        fdflags: FdFlags,
    ) -> (r: Result<OpenOutcome, Errno>)
        requires
            old(self).wf(),
            path_prefix_of(old(self).real_path.deep_view(), target.deep_view()),
            wf_path(target.deep_view()),
        ensures
            final(self).wf(),
            (!(dir_ino < old(self).inodes@.len() && old(self).inodes@[dir_ino as int] is Some))
                ==> r == Err::<OpenOutcome, Errno>(Errno::Badf) && *final(self) == *old(self),
            dir_ino < old(self).inodes@.len() && (old(self).inodes@[dir_ino as int] matches Some(
                DiskInode::File(_),
            )) ==> r == Err::<OpenOutcome, Errno>(Errno::Notdir) && *final(self) == *old(self),
            old(self).inodes@[dir_ino as int] matches Some(DiskInode::Dir(_)) && dir_ino < old(
                self,
            ).inodes@.len() ==> ({
                let parent = spec_dir_of(old(self).inodes@[dir_ino as int]);
                if spec_meta_is_dir(*target_meta) {
                r matches Ok(out) && out matches OpenOutcome::Opened(ino) && {
                    &&& ino <= old(self).inodes@.len()
                    &&& (forall|j: int| 0 <= j < ino ==> (#[trigger] old(self).inodes@[j]) is Some)
                    &&& (ino < old(self).inodes@.len() ==> old(self).inodes@[ino as int] is None)
                    &&& ino < final(self).inodes@.len()
                    &&& final(self).inodes@[ino as int] matches Some(DiskInode::Dir(d)) && {
                        &&& d.real_path.deep_view() == target.deep_view()
                        &&& d.dir_rights == parent.dir_rights.spec_intersect(fs_rights_base)
                        &&& d.file_rights == parent.file_rights.spec_intersect(
                            fs_rights_inheriting,
                        )
                    }
                    &&& (forall|j: int|
                        0 <= j < final(self).inodes@.len() && j != ino ==> final(self).inodes@[j]
                            == (#[trigger] old(self).inodes@[j]))
                }
                } else if oflags.spec_contains(OFLAG_DIRECTORY) {
                    r == Err::<OpenOutcome, Errno>(Errno::Notdir) && *final(self) == *old(self)
                } else {
                    r == Ok::<OpenOutcome, Errno>(
                        OpenOutcome::HostOpen(spec_open_options(oflags, fs_rights_base, fdflags)),
                    ) && *final(self) == *old(self)
                }
            }),
    {
        let parent_dir = match self.get_dir(dir_ino) {
            Ok(d) => d,
            Err(e) => {
                return Err(e);
            },
        };
        let is_dir = match target_meta {
            Some(m) => m.is_dir,
            None => false,
        };
        if is_dir {
            let dir_rights = parent_dir.dir_rights.intersect(fs_rights_base);
            let file_rights = parent_dir.file_rights.intersect(fs_rights_inheriting);
            let ghost pre = *self;
            let node = DiskInode::Dir(DiskDir { real_path: target, dir_rights, file_rights });
            let ino = self.alloc_inode(node);
            proof {
                assert forall|i: int|
                    0 <= i < self.inodes@.len() implies ((#[trigger] self.inodes@[i]) matches Some(
                    DiskInode::Dir(d),
                ) ==> path_prefix_of(self.real_path.deep_view(), d.real_path.deep_view())
                    && wf_path(d.real_path.deep_view())) by {
                    if i < pre.inodes@.len() && i != ino {
                        assert(self.inodes@[i] == pre.inodes@[i]);
                    }
                }
            }
            return Ok(OpenOutcome::Opened(ino));
        }
        if oflags.contains(OFLAG_DIRECTORY) {
            return Err(Errno::Notdir);
        }
        Ok(OpenOutcome::HostOpen(open_options_for(oflags, fs_rights_base, fdflags)))
    }

    /// Register a file the host opened as part of a `path_open`: a fresh
    /// file inode carrying the requested flags and rights, the host
    /// file's current length, and stream position zero.
    pub fn register_file(&mut self, fdflags: FdFlags, fs_rights_base: Rights, size: u64) -> (ino:
        usize)
        ensures
            old(self).wf() ==> final(self).wf(),
            ino <= old(self).inodes@.len(),
            forall|j: int| 0 <= j < ino ==> (#[trigger] old(self).inodes@[j]) is Some,
            ino < old(self).inodes@.len() ==> old(self).inodes@[ino as int] is None,
            final(self).inodes@ == (if ino < old(self).inodes@.len() {
                old(self).inodes@.update(
                    ino as int,
                    Some(
                        DiskInode::File(
                            DiskFile { flags: fdflags, right: fs_rights_base, size, position: 0 },
                        ),
                    ),
                )
            } else {
                old(self).inodes@.push(
                    Some(
                        DiskInode::File(
                            DiskFile { flags: fdflags, right: fs_rights_base, size, position: 0 },
                        ),
                    ),
                )
            }),
            final(self).real_path == old(self).real_path,
            final(self).dir_rights == old(self).dir_rights,
            final(self).file_rights == old(self).file_rights,
    {
        let ghost pre = *self;
        let node = DiskInode::File(
            DiskFile { flags: fdflags, right: fs_rights_base, size, position: 0 },
        );
        let ino = self.alloc_inode(node);
        proof {
            if pre.wf() {
                assert forall|i: int|
                    0 <= i < self.inodes@.len() implies ((#[trigger] self.inodes@[i]) matches Some(
                    DiskInode::Dir(d),
                ) ==> path_prefix_of(self.real_path.deep_view(), d.real_path.deep_view())
                    && wf_path(d.real_path.deep_view())) by {
                    if i < pre.inodes@.len() && i != ino {
                        assert(self.inodes@[i] == pre.inodes@[i]);
                    }
                }
            }
        }
        ino
    }

    /// Resolve both ends of a rename; the caller performs the host
    /// rename between the two returned paths.
    pub fn path_rename(
        &self,
        old_dir: usize,
        old_path: &str,
        new_dir: usize,
        new_path: &str,
    ) -> (r: Result<(Vec<String>, Vec<String>), Errno>)
        ensures
            rename_resolve_post(*self, old_dir, old_path@, new_dir, new_path@, r),
            self.wf() ==> (r matches Ok(pair) ==> path_prefix_of(
                self.real_path.deep_view(),
                pair.0.deep_view(),
            ) && path_prefix_of(self.real_path.deep_view(), pair.1.deep_view())),
    {
        let old_parent = match self.get_dir(old_dir) {
            Ok(d) => d,
            Err(e) => {
                return Err(e);
            },
        };
        let from = match old_parent.get_absolutize_path(old_path) {
            Ok(p) => p,
            Err(e) => {
                return Err(e);
            },
        };
        let new_parent = match self.get_dir(new_dir) {
            Ok(d) => d,
            Err(e) => {
                return Err(e);
            },
        };
        let to = match new_parent.get_absolutize_path(new_path) {
            Ok(p) => p,
            Err(e) => {
                return Err(e);
            },
        };
        proof {
            if self.wf() {
                lemma_path_prefix_transitive(
                    self.real_path.deep_view(),
                    old_parent.real_path.deep_view(),
                    from.deep_view(),
                );
                lemma_path_prefix_transitive(
                    self.real_path.deep_view(),
                    new_parent.real_path.deep_view(),
                    to.deep_view(),
                );
            }
        }
        Ok((from, to))
    }

    /// Resolve a create-directory request, enforcing the root-level
    /// create right; the caller creates the returned host path.
    pub fn path_create_directory(&self, dir_ino: usize, path: &str) -> (r: Result<
        Vec<String>,
        Errno,
    >)
        ensures
            path_resolve_post(
                *self,
                Rights { bits: RIGHT_PATH_CREATE_DIRECTORY },
                dir_ino,
                path@,
                r,
            ),
            self.wf() ==> (r matches Ok(p) ==> path_prefix_of(
                self.real_path.deep_view(),
                p.deep_view(),
            ) && wf_path(p.deep_view())),
    {
        if let Err(e) = self.dir_rights.can(Rights::from_bits(RIGHT_PATH_CREATE_DIRECTORY)) {
            return Err(e);
        }
        self.resolve_under_dir(dir_ino, path)
    }

    /// Resolve a remove-directory request, enforcing the root-level
    /// remove right; the caller removes the returned host path.
    pub fn path_remove_directory(&self, dir_ino: usize, path: &str) -> (r: Result<
        Vec<String>,
        Errno,
    >)
        ensures
            path_resolve_post(
                *self,
                Rights { bits: RIGHT_PATH_REMOVE_DIRECTORY },
                dir_ino,
                path@,
                r,
            ),
            self.wf() ==> (r matches Ok(p) ==> path_prefix_of(
                self.real_path.deep_view(),
                p.deep_view(),
            ) && wf_path(p.deep_view())),
    {
        if let Err(e) = self.dir_rights.can(Rights::from_bits(RIGHT_PATH_REMOVE_DIRECTORY)) {
            return Err(e);
        }
        self.resolve_under_dir(dir_ino, path)
    }

    /// Resolve an unlink request; the caller removes the returned host
    /// file. The right checked is the remove-directory right, a deliberate
    /// simplification this sandbox inherits.
    pub fn path_unlink_file(&self, dir_ino: usize, path: &str) -> (r: Result<Vec<String>, Errno>)
        ensures
            path_resolve_post(
                *self,
                Rights { bits: RIGHT_PATH_REMOVE_DIRECTORY },
                dir_ino,
                path@,
                r,
            ),
            self.wf() ==> (r matches Ok(p) ==> path_prefix_of(
                self.real_path.deep_view(),
                p.deep_view(),
            ) && wf_path(p.deep_view())),
    {
        if let Err(e) = self.dir_rights.can(Rights::from_bits(RIGHT_PATH_REMOVE_DIRECTORY)) {
            return Err(e);
        }
        self.resolve_under_dir(dir_ino, path)
    }

    /// Hard links are not supported.
    pub fn path_link_file(
        &self,
        old_dir: usize,
        old_path: &str,
        new_dir: usize,
        new_path: &str,
    ) -> (r: Result<(), Errno>)
        ensures
            r == Err::<(), Errno>(Errno::Nosys),
    {
        let _ = old_dir;
        let _ = old_path;
        let _ = new_dir;
        let _ = new_path;
        Err(Errno::Nosys)
    }

    /// Resolve a filestat request, enforcing the root-level filestat
    /// right; the caller stats the returned host path (following symlinks
    /// or not) and builds the result with `path_filestat_from_meta`.
    pub fn path_filestat_locate(&self, dir_ino: usize, path: &str) -> (r: Result<
        Vec<String>,
        Errno,
    >)
        ensures
            path_resolve_post(*self, Rights { bits: RIGHT_PATH_FILESTAT_GET }, dir_ino, path@, r),
            self.wf() ==> (r matches Ok(p) ==> path_prefix_of(
                self.real_path.deep_view(),
                p.deep_view(),
            ) && wf_path(p.deep_view())),
    {
        if let Err(e) = self.dir_rights.can(Rights::from_bits(RIGHT_PATH_FILESTAT_GET)) {
            return Err(e);
        }
        self.resolve_under_dir(dir_ino, path)
    }

    /// Look the parent up and resolve a guest path below it.
    fn resolve_under_dir(&self, dir_ino: usize, path: &str) -> (r: Result<Vec<String>, Errno>)
        ensures
            dir_resolve_post(*self, dir_ino, path@, r),
            self.wf() ==> (r matches Ok(p) ==> path_prefix_of(
                self.real_path.deep_view(),
                p.deep_view(),
            ) && wf_path(p.deep_view())),
    {
        let parent_dir = match self.get_dir(dir_ino) {
            Ok(d) => d,
            Err(e) => {
                return Err(e);
            },
        };
        let p = match parent_dir.get_absolutize_path(path) {
            Ok(p) => p,
            Err(e) => {
                return Err(e);
            },
        };
        proof {
            if self.wf() {
                lemma_path_prefix_transitive(
                    self.real_path.deep_view(),
                    parent_dir.real_path.deep_view(),
                    p.deep_view(),
                );
            }
        }
        Ok(p)
    }

    /// Drop an inode; closing a dead or out-of-range index is a no-op.
    pub fn fclose(&mut self, ino: usize) -> (r: Result<(), Errno>)
        ensures
            r == Ok::<(), Errno>(()),
            final(self).inodes@ == (if ino < old(self).inodes@.len() {
                old(self).inodes@.update(ino as int, None)
            } else {
                old(self).inodes@
            }),
            final(self).real_path == old(self).real_path,
            final(self).dir_rights == old(self).dir_rights,
            final(self).file_rights == old(self).file_rights,
            old(self).wf() ==> final(self).wf(),
    {
        if ino < self.inodes.len() {
            self.inodes[ino] = None;
        }
        Ok(())
    }
}

/// Path containment: in a well-formed filesystem, every live directory
/// inode's resolved path lies at or below the preopen root's path.
/// Together with the contracts of `path_open_prepare` (every `Target`
/// lies below the root) and `path_open_finish` (well-formedness is kept),
/// no sequence of opens yields a handle outside the sandbox.
pub proof fn lemma_path_containment(fs: DiskFileSys, ino: int)
    requires
        fs.wf(),
        0 <= ino < fs.inodes@.len(),
        fs.inodes@[ino] matches Some(DiskInode::Dir(_)),
    ensures
        path_prefix_of(fs.real_path.deep_view(), spec_dir_of(fs.inodes@[ino]).real_path.deep_view()),
{
}

/// Rights monotonicity: a directory handle allocated by `path_open_finish`
/// carries `parent.dir_rights ∩ rights_base` and
/// `parent.file_rights ∩ rights_inheriting`, so its rights never exceed
/// its parent's, nor the requested sets.
pub proof fn lemma_rights_monotonic(parent: DiskDir, base: Rights, inh: Rights)
    ensures
        parent.dir_rights.spec_intersect(base).spec_subset_of(parent.dir_rights),
        parent.dir_rights.spec_intersect(base).spec_subset_of(base),
        parent.file_rights.spec_intersect(inh).spec_subset_of(parent.file_rights),
        parent.file_rights.spec_intersect(inh).spec_subset_of(inh),
{
    crate::rights::lemma_and_subset(parent.dir_rights.bits, base.bits);
    crate::rights::lemma_and_subset(parent.file_rights.bits, inh.bits);
}

/// Write quota: when a plain write's quota check passes (the current size
/// plus the incoming bytes stays within the limit), the file's size after
/// the write still lies within the limit, for a write at or before the
/// end of the file; a write that would pass the limit fails the check
/// with no-space and leaves the file untouched (`fd_write_check` takes
/// the file immutably). A plain write after a seek beyond the end of the
/// file is not covered: its quota check inherits the host's, which
/// consults the file's size, not the write's end.
pub proof fn lemma_write_quota(f: DiskFile, buf_len: u64, n: u64)
    requires
        f.size + buf_len <= FILE_WRITE_LIMIT,
        n <= buf_len,
        f.flags.spec_contains(FDFLAG_APPEND) || f.position <= f.size,
        f.position + n <= u64::MAX,
    ensures
        write_transition(f, n).size <= FILE_WRITE_LIMIT,
{
}

/// Write quota for positioned writes: when the check passes (the written
/// range ends within the limit) and the size was within the limit, it
/// stays within it.
pub proof fn lemma_pwrite_quota(f: DiskFile, buf_len: u64, offset: u64, n: u64)
    requires
        f.size <= FILE_WRITE_LIMIT,
        offset + buf_len <= FILE_WRITE_LIMIT,
        n <= buf_len,
    ensures
        pwrite_transition(f, offset, n).size <= FILE_WRITE_LIMIT,
{
}

/// Positioned writes do not move the stream position: what `fd_tell`
/// reports after a positioned write equals what it reported before.
/// A positioned read touches no file state at all (`fd_pread_check`
/// takes the file immutably), so the same holds of it.
pub proof fn lemma_pwrite_tell_neutral(f: DiskFile, offset: u64, n: u64)
    requires
        offset + n <= u64::MAX,
    ensures
        pwrite_transition(f, offset, n).position == f.position,
{
}

/// How many host entries a readdir cookie skips: the first two cookie
/// positions are the dot entries, later cookies index into the host
/// listing directly.
pub fn readdir_host_skip(index: u64) -> (r: u64)
    ensures
        r == (if index <= 2 {
            0u64
        } else {
            (index - 2) as u64
        }),
{
    if index <= 2 {
        0
    } else {
        index - 2
    }
}

} // verus!
