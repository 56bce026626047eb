use flows_host::guest_mem::{AbiVal, GuestMem, Trap};
use flows_host::tls::{default_client_config, send_data_parse, WasmEdgeTlsReqData};

#[test]
fn response_queue_round_trip() {
    // One completed exchange: poll the length, drain the buffer, and the
    // queue is empty again.
    let mut data = WasmEdgeTlsReqData::new(default_client_config());
    assert_eq!(data.get_rcv_len(), 0);
    data.enqueue_response(b"resp!".to_vec());
    assert_eq!(data.get_rcv_len(), 5);
    // Polling the length is non-destructive.
    assert_eq!(data.get_rcv_len(), 5);
    let mut m = GuestMem::new(vec![0u8; 8]);
    data.get_rcv(&mut m, vec![AbiVal::I32(1)]).unwrap();
    assert_eq!(&m.data[1..6], b"resp!");
    assert_eq!(data.get_rcv_len(), 0);
}

#[test]
fn queue_is_first_in_first_out() {
    let mut data = WasmEdgeTlsReqData::new(default_client_config());
    data.enqueue_response(b"one".to_vec());
    data.enqueue_response(b"two!".to_vec());
    assert_eq!(data.get_rcv_len(), 3);
    let mut m = GuestMem::new(vec![0u8; 8]);
    data.get_rcv(&mut m, vec![AbiVal::I32(0)]).unwrap();
    assert_eq!(&m.data[0..3], b"one");
    assert_eq!(data.get_rcv_len(), 4);
}

#[test]
fn drain_on_empty_queue_writes_nothing() {
    let mut data = WasmEdgeTlsReqData::new(default_client_config());
    let mut m = GuestMem::new(vec![7u8; 4]);
    data.get_rcv(&mut m, vec![AbiVal::I32(0)]).unwrap();
    assert_eq!(m.data, vec![7u8; 4]);
}

#[test]
fn drain_argument_checks() {
    let mut data = WasmEdgeTlsReqData::new(default_client_config());
    let mut m = GuestMem::new(vec![0u8; 4]);
    assert_eq!(data.get_rcv(&mut m, vec![]).err(), Some(Trap::FuncTypeMismatch));
    assert_eq!(
        data.get_rcv(&mut m, vec![AbiVal::I32(0), AbiVal::I32(0)]).err(),
        Some(Trap::FuncTypeMismatch)
    );
    data.enqueue_response(b"long response".to_vec());
    assert_eq!(
        data.get_rcv(&mut m, vec![AbiVal::I32(0)]).err(),
        Some(Trap::MemoryOutOfBounds)
    );
}

#[test]
fn send_request_decoding() {
    // Memory: host name at 0..11, body at 11..15.
    let mut bytes = b"example.com".to_vec();
    bytes.extend_from_slice(b"GET\n");
    let m = GuestMem::new(bytes);
    let args = vec![
        AbiVal::I32(0),
        AbiVal::I32(11),
        AbiVal::I32(443),
        AbiVal::I32(11),
        AbiVal::I32(4),
    ];
    let (host, port, body) = send_data_parse(&m, &args).unwrap();
    assert_eq!(host, b"example.com".to_vec());
    assert_eq!(port, 443);
    assert_eq!(body, b"GET\n".to_vec());
}

#[test]
fn send_request_bad_arguments() {
    let m = GuestMem::new(vec![0u8; 4]);
    assert_eq!(
        send_data_parse(&m, &vec![AbiVal::I32(0)]).err(),
        Some(Trap::FuncTypeMismatch)
    );
    let args = vec![
        AbiVal::I32(0),
        AbiVal::I32(400),
        AbiVal::I32(443),
        AbiVal::I32(0),
        AbiVal::I32(0),
    ];
    assert_eq!(send_data_parse(&m, &args).err(), Some(Trap::MemoryOutOfBounds));
}
