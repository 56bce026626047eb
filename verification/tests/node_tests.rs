use flows_host::rights::{Rights, RIGHT_FD_READ, RIGHT_FD_WRITE, RIGHTS_FD_ALL};
use flows_host::vfs::{path_filestat_from_meta, DiskDir, DiskFile, DiskInode};
use flows_host::wasi::{Errno, FdFlags, FileType, HostMeta};

fn p(parts: &[&str]) -> Vec<String> {
    parts.iter().map(|s| s.to_string()).collect()
}

fn a_dir() -> DiskDir {
    DiskDir {
        real_path: p(&["srv", "work"]),
        dir_rights: Rights::dir_all(),
        file_rights: Rights::fd_all(),
    }
}

fn a_file() -> DiskFile {
    DiskFile { flags: FdFlags::from_bits(0), right: Rights::fd_all(), size: 9, position: 4 }
}

fn a_meta() -> HostMeta {
    HostMeta {
        is_dir: false,
        is_symlink: false,
        inode: 42,
        nlink: 2,
        size: 9,
        atim: Some(1_000),
        mtim: Some(2_000),
        ctim: None,
    }
}

#[test]
fn dir_absolutize_is_contained() {
    let d = a_dir();
    assert_eq!(
        d.get_absolutize_path("x/y").unwrap(),
        p(&["srv", "work", "x", "y"])
    );
    assert_eq!(d.get_absolutize_path("../..").err(), Some(Errno::Noent));
}

#[test]
fn dir_fdstat_reports_both_rights_sets() {
    let d = a_dir();
    let s = d.fd_fdstat_get().unwrap();
    assert_eq!(s.filetype, FileType::Directory);
    assert_eq!(s.fs_rights_base, Rights::dir_all());
    assert_eq!(s.fs_rights_inheriting, Rights::fd_all());
    assert_eq!(s.flags.bits, 0);
}

#[test]
fn dir_rejects_file_operations() {
    let mut d = a_dir();
    assert_eq!(d.fd_fdstat_set_flags(FdFlags::from_bits(0)), Err(Errno::Badf));
    assert_eq!(d.fd_filestat_set_size(5), Err(Errno::Badf));
    assert_eq!(d.fd_filestat_set_times(0, 0, 0).err(), Some(Errno::Nosys));
}

#[test]
fn dir_set_rights_only_narrows() {
    let mut d = a_dir();
    let narrow = Rights::from_bits(flows_host::rights::RIGHT_FD_READDIR);
    assert_eq!(d.fd_fdstat_set_rights(narrow, Rights::empty()), Ok(()));
    assert_eq!(d.dir_rights, narrow);
    assert_eq!(d.file_rights, Rights::empty());
    // Widening back is refused.
    assert_eq!(
        d.fd_fdstat_set_rights(Rights::dir_all(), Rights::empty()),
        Err(Errno::Acces)
    );
}

#[test]
fn file_fdstat_and_filestat_from_host_meta() {
    let f = a_file();
    let s = f.fd_fdstat_get(&Ok(a_meta())).unwrap();
    assert_eq!(s.filetype, FileType::RegularFile);
    assert_eq!(s.fs_rights_base.bits, RIGHTS_FD_ALL);
    assert_eq!(s.fs_rights_inheriting.bits, 0);
    let st = f.fd_filestat_get(&Ok(a_meta())).unwrap();
    assert_eq!(st.inode, 42);
    assert_eq!(st.nlink, 2);
    assert_eq!(st.size, 9);
    assert_eq!(st.atim, Some(1_000));
    assert_eq!(st.filetype, FileType::RegularFile);
    // A host error passes through once the rights check passed.
    assert_eq!(f.fd_filestat_get(&Err(Errno::Host(29))).err(), Some(Errno::Host(29)));
}

#[test]
fn file_set_rights_narrows_and_set_size_tracks() {
    let mut f = a_file();
    assert_eq!(f.fd_fdstat_set_rights(Rights::from_bits(RIGHT_FD_READ), Rights::empty()), Ok(()));
    assert_eq!(f.right.bits, RIGHT_FD_READ);
    assert_eq!(
        f.fd_fdstat_set_rights(Rights::from_bits(RIGHT_FD_WRITE), Rights::empty()),
        Err(Errno::Acces)
    );
    let mut g = a_file();
    assert_eq!(g.fd_filestat_set_size(100), Ok(100));
    assert_eq!(g.size, 100);
    assert_eq!(g.position, 4);
}

#[test]
fn allocate_extends_only_past_the_end() {
    let mut f = a_file();
    assert_eq!(f.fd_allocate(2, 3), Ok(None));
    assert_eq!(f.size, 9);
    assert_eq!(f.fd_allocate(6, 10), Ok(Some(16)));
    assert_eq!(f.size, 16);
    assert_eq!(f.position, 4);
    let mut g = a_file();
    g.right = Rights::from_bits(RIGHT_FD_READ);
    assert_eq!(g.fd_allocate(0, 100), Err(Errno::Acces));
    assert_eq!(g.size, 9);
}

#[test]
fn sync_and_read_rights() {
    let f = a_file();
    assert_eq!(f.fd_datasync(), Ok(()));
    assert_eq!(f.fd_sync(), Ok(()));
    assert_eq!(f.fd_read_check(), Ok(()));
    assert_eq!(f.fd_pread_check(), Ok(()));
    let mut g = a_file();
    g.right = Rights::from_bits(RIGHT_FD_WRITE);
    assert_eq!(g.fd_datasync(), Err(Errno::Acces));
    assert_eq!(g.fd_sync(), Err(Errno::Acces));
    assert_eq!(g.fd_read_check(), Err(Errno::Acces));
    assert_eq!(g.fd_pread_check(), Err(Errno::Acces));
    // Reads advance the stream position.
    let mut h = a_file();
    h.fd_read_commit(3);
    assert_eq!(h.position, 7);
    assert_eq!(h.size, 9);
}

#[test]
fn inode_dispatch_matches_node_kind() {
    let mut n = DiskInode::Dir(a_dir());
    assert_eq!(n.fd_fdstat_get(&Ok(a_meta())).unwrap().filetype, FileType::Directory);
    assert_eq!(n.fd_fdstat_set_flags(FdFlags::from_bits(0)), Err(Errno::Badf));
    assert_eq!(n.fd_filestat_set_size(1), Err(Errno::Badf));
    assert_eq!(n.fd_filestat_set_times(0, 0, 0).err(), Some(Errno::Nosys));

    let mut m = DiskInode::File(a_file());
    assert_eq!(m.fd_fdstat_get(&Ok(a_meta())).unwrap().filetype, FileType::RegularFile);
    assert_eq!(m.fd_fdstat_set_flags(FdFlags::from_bits(0)), Ok(()));
    assert_eq!(m.fd_filestat_set_size(3), Ok(3));
    assert_eq!(m.fd_filestat_get(&Ok(a_meta())).unwrap().inode, 42);
    assert_eq!(m.fd_filestat_set_times(0, 0, 0), Ok((None, None)));
    assert_eq!(
        m.fd_fdstat_set_rights(Rights::from_bits(RIGHT_FD_READ), Rights::empty()),
        Ok(())
    );
}

#[test]
fn symlink_metadata_wins_in_path_filestat() {
    let mut m = a_meta();
    m.is_symlink = true;
    m.is_dir = true;
    assert_eq!(path_filestat_from_meta(&m).filetype, FileType::SymbolicLink);
    m.is_symlink = false;
    assert_eq!(path_filestat_from_meta(&m).filetype, FileType::Directory);
    m.is_dir = false;
    assert_eq!(path_filestat_from_meta(&m).filetype, FileType::RegularFile);
}
