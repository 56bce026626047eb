use flows_host::rights::{
    Rights, RIGHTS_DIR_ALL, RIGHTS_FD_ALL, RIGHT_FD_READ, RIGHT_FD_SEEK, RIGHT_FD_TELL,
    RIGHT_FD_WRITE, RIGHT_PATH_OPEN,
};
use flows_host::wasi::Errno;

#[test]
fn can_accepts_subset() {
    let all = Rights::fd_all();
    assert_eq!(all.can(Rights::from_bits(RIGHT_FD_READ | RIGHT_FD_WRITE)), Ok(()));
    assert_eq!(all.can(Rights::from_bits(0)), Ok(()));
}

#[test]
fn can_rejects_missing_right() {
    let read_only = Rights::from_bits(RIGHT_FD_READ);
    assert_eq!(read_only.can(Rights::from_bits(RIGHT_FD_WRITE)), Err(Errno::Acces));
    assert_eq!(
        read_only.can(Rights::from_bits(RIGHT_FD_READ | RIGHT_FD_WRITE)),
        Err(Errno::Acces)
    );
}

#[test]
fn intersect_narrows() {
    let a = Rights::from_bits(RIGHT_FD_READ | RIGHT_FD_WRITE | RIGHT_FD_TELL);
    let b = Rights::from_bits(RIGHT_FD_WRITE | RIGHT_FD_SEEK);
    let c = a.intersect(b);
    assert_eq!(c.bits, RIGHT_FD_WRITE);
    assert!(a.contains(c));
    assert!(b.contains(c));
}

#[test]
fn fixed_rights_sets() {
    assert_eq!(Rights::fd_all().bits, RIGHTS_FD_ALL);
    assert_eq!(Rights::dir_all().bits, RIGHTS_DIR_ALL);
    assert!(Rights::dir_all().contains(Rights::from_bits(RIGHT_PATH_OPEN)));
    assert!(!Rights::fd_all().contains(Rights::from_bits(RIGHT_PATH_OPEN)));
    assert_eq!(Rights::empty().bits, 0);
}

#[test]
fn errno_codes_are_wasi_numbers() {
    assert_eq!(Errno::Acces.code(), 2);
    assert_eq!(Errno::Badf.code(), 8);
    assert_eq!(Errno::Ilseq.code(), 25);
    assert_eq!(Errno::Inval.code(), 28);
    assert_eq!(Errno::Isdir.code(), 31);
    assert_eq!(Errno::Noent.code(), 44);
    assert_eq!(Errno::Nospc.code(), 51);
    assert_eq!(Errno::Nosys.code(), 52);
    assert_eq!(Errno::Notdir.code(), 54);
    assert_eq!(Errno::Host(29).code(), 29);
}
