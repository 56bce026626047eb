use flows_host::buffer::ReadWriteBuf;

#[test]
fn write_then_read_all() {
    let mut b = ReadWriteBuf::new();
    assert_eq!(b.read_all(), "");
    {
        let w = b.get_write_buf();
        assert_eq!(w.write(b"hello "), 6);
        w.flush();
        assert_eq!(w.write(b"world"), 5);
    }
    assert_eq!(b.read_all(), "hello world");
}

#[test]
fn read_all_is_lossy() {
    let mut b = ReadWriteBuf::new();
    b.get_write_buf().write(&[0x68, 0xff, 0x69]);
    assert_eq!(b.read_all(), "h\u{fffd}i");
}
