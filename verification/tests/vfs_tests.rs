use flows_host::rights::{
    Rights, RIGHT_FD_FILESTAT_SET_TIMES, RIGHT_FD_READ, RIGHT_FD_SEEK, RIGHT_FD_TELL,
    RIGHT_FD_WRITE,
};
use flows_host::vfs::{
    readdir_host_skip, DiskDir, DiskFile, DiskFileSys, OpenOutcome, OpenPlan, RawDirEntry,
    WHENCE_CUR, WHENCE_END, WHENCE_SET,
};
use flows_host::wasi::{
    systimespec, Errno, FdFlags, FileType, HostMeta, OFlags, SystemTimeSpec, FDFLAG_APPEND,
    FDFLAG_DSYNC, FDFLAG_NONBLOCK, FSTFLAG_ATIM, FSTFLAG_ATIM_NOW, FSTFLAG_MTIM_NOW, OFLAG_CREATE,
    OFLAG_DIRECTORY, OFLAG_EXCLUSIVE, OFLAG_TRUNCATE,
};
use flows_host::{file_write_limit, FILE_WRITE_LIMIT};

fn p(parts: &[&str]) -> Vec<String> {
    parts.iter().map(|s| s.to_string()).collect()
}

fn root_fs() -> DiskFileSys {
    DiskFileSys::new(p(&["srv", "work"]))
}

fn meta(is_dir: bool, size: u64) -> HostMeta {
    HostMeta {
        is_dir,
        is_symlink: false,
        inode: 7,
        nlink: 1,
        size,
        atim: None,
        mtim: None,
        ctim: None,
    }
}

#[test]
fn sandbox_escape_is_noent() {
    let fs = root_fs();
    let r = fs.path_open_prepare(
        0,
        "../../etc/passwd",
        OFlags::from_bits(0),
        FdFlags::from_bits(0),
    );
    assert!(matches!(r, Err(Errno::Noent)));
}

#[test]
fn open_root_reuses_inode_zero() {
    let fs = root_fs();
    let r = fs.path_open_prepare(0, "", OFlags::from_bits(0), FdFlags::from_bits(0));
    assert!(matches!(r, Ok(OpenPlan::Root)));
}

#[test]
fn sync_flags_are_unsupported_at_open() {
    let fs = root_fs();
    let r = fs.path_open_prepare(0, "a", OFlags::from_bits(0), FdFlags::from_bits(FDFLAG_DSYNC));
    assert!(matches!(r, Err(Errno::Nosys)));
}

#[test]
fn directory_with_create_is_invalid() {
    let fs = root_fs();
    let r = fs.path_open_prepare(
        0,
        "a",
        OFlags::from_bits(OFLAG_DIRECTORY | OFLAG_CREATE),
        FdFlags::from_bits(0),
    );
    assert!(matches!(r, Err(Errno::Inval)));
}

#[test]
fn dead_parent_is_badf() {
    let fs = root_fs();
    let r = fs.path_open_prepare(3, "a", OFlags::from_bits(0), FdFlags::from_bits(0));
    assert!(matches!(r, Err(Errno::Badf)));
}

#[test]
fn open_existing_directory_narrows_rights() {
    let mut fs = root_fs();
    let plan = fs
        .path_open_prepare(0, "sub", OFlags::from_bits(0), FdFlags::from_bits(0))
        .unwrap();
    let target = match plan {
        OpenPlan::Target(t) => t,
        OpenPlan::Root => panic!("expected a target"),
    };
    assert_eq!(target, p(&["srv", "work", "sub"]));
    let base = Rights::from_bits(RIGHT_FD_READ);
    let inh = Rights::from_bits(RIGHT_FD_WRITE);
    let out = fs
        .path_open_finish(
            0,
            target,
            &Some(meta(true, 0)),
            OFlags::from_bits(0),
            base,
            inh,
            FdFlags::from_bits(0),
        )
        .unwrap();
    let ino = match out {
        OpenOutcome::Opened(ino) => ino,
        OpenOutcome::HostOpen(_) => panic!("expected a directory inode"),
    };
    assert_eq!(ino, 1);
    let d = fs.get_dir(ino).unwrap();
    // The child's rights are the parent's intersected with the request.
    assert_eq!(d.dir_rights.bits, Rights::dir_all().bits & base.bits);
    assert_eq!(d.file_rights.bits, Rights::fd_all().bits & inh.bits);
    assert_eq!(d.real_path, p(&["srv", "work", "sub"]));
}

#[test]
fn open_missing_with_directory_flag_is_notdir() {
    let mut fs = root_fs();
    let r = fs.path_open_finish(
        0,
        p(&["srv", "work", "nope"]),
        &None,
        OFlags::from_bits(OFLAG_DIRECTORY),
        Rights::fd_all(),
        Rights::fd_all(),
        FdFlags::from_bits(0),
    );
    assert!(matches!(r, Err(Errno::Notdir)));
}

#[test]
fn open_file_translates_options() {
    let mut fs = root_fs();
    let out = fs
        .path_open_finish(
            0,
            p(&["srv", "work", "f"]),
            &None,
            OFlags::from_bits(OFLAG_CREATE | OFLAG_TRUNCATE),
            Rights::from_bits(RIGHT_FD_WRITE),
            Rights::empty(),
            FdFlags::from_bits(FDFLAG_APPEND),
        )
        .unwrap();
    let opts = match out {
        OpenOutcome::HostOpen(o) => o,
        OpenOutcome::Opened(_) => panic!("expected a host open"),
    };
    assert!(opts.create && !opts.create_new && opts.truncate && opts.write && opts.append);
    assert!(!opts.read);
}

#[test]
fn exclusive_create_is_create_new() {
    let mut fs = root_fs();
    let out = fs
        .path_open_finish(
            0,
            p(&["srv", "work", "f"]),
            &None,
            OFlags::from_bits(OFLAG_CREATE | OFLAG_EXCLUSIVE),
            Rights::empty(),
            Rights::empty(),
            FdFlags::from_bits(0),
        )
        .unwrap();
    let opts = match out {
        OpenOutcome::HostOpen(o) => o,
        OpenOutcome::Opened(_) => panic!("expected a host open"),
    };
    // No read or write right: the file is still opened at least for reading,
    // and creating implies opening for writing.
    assert!(opts.create_new && !opts.create && opts.write && opts.read);
}

#[test]
fn register_and_close_reuses_slots() {
    let mut fs = root_fs();
    let ino = fs.register_file(FdFlags::from_bits(0), Rights::fd_all(), 10);
    assert_eq!(ino, 1);
    let f = fs.get_file(ino).unwrap();
    assert_eq!(f.size, 10);
    assert_eq!(f.position, 0);
    assert!(fs.fclose(ino).is_ok());
    assert!(matches!(fs.get_file(ino), Err(Errno::Badf)));
    // Closing again is a no-op.
    assert!(fs.fclose(ino).is_ok());
    // The freed slot is reused.
    let ino2 = fs.register_file(FdFlags::from_bits(0), Rights::fd_all(), 0);
    assert_eq!(ino2, 1);
}

#[test]
fn accessors_distinguish_kinds() {
    let mut fs = root_fs();
    let ino = fs.register_file(FdFlags::from_bits(0), Rights::fd_all(), 0);
    assert!(matches!(fs.get_dir(ino), Err(Errno::Notdir)));
    assert!(matches!(fs.get_file(0), Err(Errno::Isdir)));
    assert!(matches!(fs.get_inode(9), Err(Errno::Badf)));
    assert!(fs.get_inode(ino).is_ok());
    assert!(fs.get_mut_file(ino).is_ok());
    assert!(matches!(fs.get_mut_dir(ino), Err(Errno::Notdir)));
    assert!(fs.get_mut_dir(0).is_ok());
}

#[test]
fn quota_boundary() {
    let limit = file_write_limit();
    assert_eq!(limit, 300 * 1024 * 1024);
    let f = DiskFile {
        flags: FdFlags::from_bits(0),
        right: Rights::fd_all(),
        size: limit - 1,
        position: 0,
    };
    // Reaching the limit exactly is allowed; passing it is no-space.
    assert_eq!(f.fd_write_check(1), Ok(()));
    assert_eq!(f.fd_write_check(2), Err(Errno::Nospc));
}

#[test]
fn quota_full_file_rejects_one_more_byte() {
    // A guest that has written the full quota cannot add a single byte.
    let mut f = DiskFile {
        flags: FdFlags::from_bits(0),
        right: Rights::fd_all(),
        size: 0,
        position: 0,
    };
    assert_eq!(f.fd_write_check(FILE_WRITE_LIMIT), Ok(()));
    f.fd_write_commit(FILE_WRITE_LIMIT);
    assert_eq!(f.size, 300 * 1024 * 1024);
    assert_eq!(f.fd_write_check(1), Err(Errno::Nospc));
    assert_eq!(f.size, 300 * 1024 * 1024);
}

#[test]
fn write_without_right_is_acces() {
    let f = DiskFile {
        flags: FdFlags::from_bits(0),
        right: Rights::from_bits(RIGHT_FD_READ),
        size: 0,
        position: 0,
    };
    assert_eq!(f.fd_write_check(1), Err(Errno::Acces));
    assert_eq!(f.fd_pwrite_check(0, 1), Err(Errno::Acces));
}

#[test]
fn pwrite_keeps_position() {
    let mut f = DiskFile {
        flags: FdFlags::from_bits(0),
        right: Rights::fd_all(),
        size: 4,
        position: 2,
    };
    assert_eq!(f.fd_pwrite_check(10, 5), Ok(()));
    f.fd_pwrite_commit(10, 5);
    assert_eq!(f.position, 2);
    assert_eq!(f.size, 15);
    assert_eq!(f.fd_tell(), Ok(2));
}

#[test]
fn pwrite_quota_uses_offset() {
    let f = DiskFile {
        flags: FdFlags::from_bits(0),
        right: Rights::fd_all(),
        size: 0,
        position: 0,
    };
    assert_eq!(f.fd_pwrite_check(FILE_WRITE_LIMIT, 1), Err(Errno::Nospc));
    assert_eq!(f.fd_pwrite_check(FILE_WRITE_LIMIT - 1, 1), Ok(()));
}

#[test]
fn append_write_moves_to_end() {
    let mut f = DiskFile {
        flags: FdFlags::from_bits(FDFLAG_APPEND),
        right: Rights::fd_all(),
        size: 10,
        position: 3,
    };
    f.fd_write_commit(4);
    assert_eq!(f.size, 14);
    assert_eq!(f.position, 14);
}

#[test]
fn seek_rights_and_targets() {
    let mut f = DiskFile {
        flags: FdFlags::from_bits(0),
        right: Rights::from_bits(RIGHT_FD_TELL),
        size: 100,
        position: 40,
    };
    // A zero seek from the current position is a position query.
    assert_eq!(f.fd_seek(0, WHENCE_CUR), Ok(40));
    // Any real seek needs the seek right too.
    assert_eq!(f.fd_seek(5, WHENCE_CUR), Err(Errno::Acces));
    f.right = Rights::from_bits(RIGHT_FD_TELL | RIGHT_FD_SEEK);
    assert_eq!(f.fd_seek(5, WHENCE_CUR), Ok(45));
    assert_eq!(f.fd_seek(-5, WHENCE_END), Ok(95));
    assert_eq!(f.fd_seek(7, WHENCE_SET), Ok(7));
    assert_eq!(f.fd_seek(-8, WHENCE_CUR), Err(Errno::Inval));
    assert_eq!(f.fd_tell(), Ok(7));
    assert_eq!(f.fd_seek(0, 9), Err(Errno::Inval));
}

#[test]
fn fdstat_set_flags_rules() {
    let mut f = DiskFile {
        flags: FdFlags::from_bits(0),
        right: Rights::fd_all(),
        size: 0,
        position: 0,
    };
    assert_eq!(
        f.fd_fdstat_set_flags(FdFlags::from_bits(FDFLAG_NONBLOCK | FDFLAG_DSYNC)),
        Err(Errno::Inval)
    );
    assert_eq!(f.fd_fdstat_set_flags(FdFlags::from_bits(FDFLAG_APPEND)), Err(Errno::Nosys));
    assert_eq!(f.fd_fdstat_set_flags(FdFlags::from_bits(FDFLAG_NONBLOCK)), Ok(()));
    assert_eq!(f.flags.bits, FDFLAG_NONBLOCK);
}

#[test]
fn set_times_decoding() {
    let f = DiskFile {
        flags: FdFlags::from_bits(0),
        right: Rights::from_bits(RIGHT_FD_FILESTAT_SET_TIMES),
        size: 0,
        position: 0,
    };
    // Both an absolute access time and "now" for it: invalid.
    assert_eq!(f.fd_filestat_set_times(5, 0, FSTFLAG_ATIM | FSTFLAG_ATIM_NOW), Err(Errno::Inval));
    let (atim, mtim) = f
        .fd_filestat_set_times(5, 0, FSTFLAG_ATIM | FSTFLAG_MTIM_NOW)
        .unwrap();
    assert_eq!(atim, Some(SystemTimeSpec::Absolute(5)));
    assert_eq!(mtim, Some(SystemTimeSpec::SymbolicNow));
    let (atim, mtim) = f.fd_filestat_set_times(5, 6, 0).unwrap();
    assert_eq!(atim, None);
    assert_eq!(mtim, None);
    assert_eq!(systimespec(true, 9, true), Err(Errno::Inval));
    assert_eq!(systimespec(false, 9, false), Ok(None));
}

#[test]
fn readdir_starts_with_dot_entries() {
    let dir = DiskDir {
        real_path: p(&["srv", "work"]),
        dir_rights: Rights::dir_all(),
        file_rights: Rights::fd_all(),
    };
    let entries = vec![
        Ok(RawDirEntry { name: Some("a.txt".to_string()), inode: 11, filetype: FileType::RegularFile }),
        Ok(RawDirEntry { name: Some("sub".to_string()), inode: 12, filetype: FileType::Directory }),
    ];
    let out = dir.get_readdir(0, &Ok(1), &Ok(2), &entries).unwrap();
    assert_eq!(out.len(), 4);
    assert_eq!(out[0].name, ".");
    assert_eq!(out[0].inode, 1);
    assert_eq!(out[0].filetype, FileType::Directory);
    assert_eq!(out[1].name, "..");
    assert_eq!(out[1].inode, 2);
    assert_eq!(out[2].name, "a.txt");
    assert_eq!(out[3].name, "sub");
    // Cookie 1 yields only the parent entry before the host listing.
    let out1 = dir.get_readdir(1, &Ok(1), &Ok(2), &entries).unwrap();
    assert_eq!(out1.len(), 3);
    assert_eq!(out1[0].name, "..");
    // Cookie 2 yields the host listing alone.
    let out2 = dir.get_readdir(2, &Ok(1), &Ok(2), &entries).unwrap();
    assert_eq!(out2.len(), 2);
    assert_eq!(out2[0].name, "a.txt");
}

#[test]
fn readdir_bad_name_is_ilseq() {
    let dir = DiskDir {
        real_path: p(&["srv", "work"]),
        dir_rights: Rights::dir_all(),
        file_rights: Rights::fd_all(),
    };
    let entries = vec![
        Ok(RawDirEntry { name: None, inode: 11, filetype: FileType::RegularFile }),
    ];
    assert_eq!(dir.get_readdir(2, &Ok(1), &Ok(2), &entries).err(), Some(Errno::Ilseq));
}

#[test]
fn readdir_without_right_is_acces() {
    let dir = DiskDir {
        real_path: p(&["srv", "work"]),
        dir_rights: Rights::empty(),
        file_rights: Rights::fd_all(),
    };
    assert_eq!(dir.get_readdir(0, &Ok(1), &Ok(2), &Vec::new()).err(), Some(Errno::Acces));
}

#[test]
fn readdir_cookie_skip() {
    assert_eq!(readdir_host_skip(0), 0);
    assert_eq!(readdir_host_skip(1), 0);
    assert_eq!(readdir_host_skip(2), 0);
    assert_eq!(readdir_host_skip(7), 5);
}

#[test]
fn path_ops_resolve_and_check_rights() {
    let fs = root_fs();
    assert_eq!(fs.path_create_directory(0, "d").unwrap(), p(&["srv", "work", "d"]));
    assert_eq!(fs.path_remove_directory(0, "d").unwrap(), p(&["srv", "work", "d"]));
    assert_eq!(fs.path_unlink_file(0, "f").unwrap(), p(&["srv", "work", "f"]));
    assert_eq!(fs.path_unlink_file(0, "../f").err(), Some(Errno::Noent));
    assert!(matches!(fs.path_link_file(0, "a", 0, "b"), Err(Errno::Nosys)));
    let (from, to) = fs.path_rename(0, "a", 0, "b/c").unwrap();
    assert_eq!(from, p(&["srv", "work", "a"]));
    assert_eq!(to, p(&["srv", "work", "b", "c"]));
    assert_eq!(fs.path_filestat_locate(0, "x").unwrap(), p(&["srv", "work", "x"]));
}
