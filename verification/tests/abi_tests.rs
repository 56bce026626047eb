use flows_host::context::{
    get_event_body, get_event_body_length, get_event_headers, get_event_headers_length,
    get_event_method, get_event_query, get_event_subpath, get_event_subpath_length, get_flow_id,
    get_flows_user, is_listening, set_error_code, set_error_log, set_flows, set_output,
    set_response, set_response_headers, set_response_status,
};
use flows_host::driver::{build_context, harvest_response};
use flows_host::guest_mem::{AbiVal, GuestMem, Trap};

fn ctx() -> flows_host::context::FlowsParams {
    build_context(
        "user1".to_string(),
        "flow1".to_string(),
        "GET".to_string(),
        vec![("a".to_string(), "b".to_string())],
        "{}".to_string(),
        "a/b/c".to_string(),
        b"hi".to_vec(),
        "echo_GET".to_string(),
        None,
        "/srv/work".to_string(),
    )
}

fn mem(n: usize) -> GuestMem {
    GuestMem::new(vec![0u8; n])
}

#[test]
fn length_then_copy_body() {
    let mut d = ctx();
    let mut m = mem(16);
    let len = get_event_body_length(&mut d, vec![]).unwrap();
    assert_eq!(len, vec![AbiVal::I32(2)]);
    let r = get_event_body(&mut d, &mut m, vec![AbiVal::I32(4)]).unwrap();
    // The copy returns exactly the announced length and writes those bytes.
    assert_eq!(r, vec![AbiVal::I32(2)]);
    assert_eq!(&m.data[4..6], b"hi");
    assert_eq!(m.data[3], 0);
    assert_eq!(m.data[6], 0);
}

#[test]
fn length_then_copy_strings() {
    let mut d = ctx();
    let mut m = mem(64);
    assert_eq!(get_event_subpath_length(&mut d, vec![]).unwrap(), vec![AbiVal::I32(5)]);
    get_event_subpath(&mut d, &mut m, vec![AbiVal::I32(0)]).unwrap();
    assert_eq!(&m.data[0..5], b"a/b/c");
    get_event_method(&mut d, &mut m, vec![AbiVal::I32(10)]).unwrap();
    assert_eq!(&m.data[10..13], b"GET");
    get_flows_user(&mut d, &mut m, vec![AbiVal::I32(20)]).unwrap();
    assert_eq!(&m.data[20..25], b"user1");
    get_flow_id(&mut d, &mut m, vec![AbiVal::I32(30)]).unwrap();
    assert_eq!(&m.data[30..35], b"flow1");
    get_event_query(&mut d, &mut m, vec![AbiVal::I32(40)]).unwrap();
    assert_eq!(&m.data[40..42], b"{}");
}

#[test]
fn headers_are_json_encoded() {
    let mut d = ctx();
    let mut m = mem(64);
    let want = br#"[["a","b"]]"#;
    let len = match get_event_headers_length(&mut d, vec![]).unwrap()[0] {
        AbiVal::I32(l) => l as usize,
        AbiVal::Other => panic!("expected an integer"),
    };
    assert_eq!(len, want.len());
    get_event_headers(&mut d, &mut m, vec![AbiVal::I32(0)]).unwrap();
    assert_eq!(&m.data[0..len], want);
}

#[test]
fn getter_traps() {
    let mut d = ctx();
    let mut m = mem(4);
    assert_eq!(get_event_body(&mut d, &mut m, vec![]).err(), Some(Trap::FuncTypeMismatch));
    assert_eq!(
        get_event_body(&mut d, &mut m, vec![AbiVal::Other]).err(),
        Some(Trap::FuncTypeMismatch)
    );
    // Two bytes at offset 3 of a four-byte memory do not fit.
    assert_eq!(
        get_event_body(&mut d, &mut m, vec![AbiVal::I32(3)]).err(),
        Some(Trap::MemoryOutOfBounds)
    );
    assert_eq!(m.data, vec![0u8; 4]);
}

#[test]
fn echo_round_trip() {
    // A guest whose export reads the body and echoes it back.
    let mut d = ctx();
    let mut m = mem(8);
    get_event_body(&mut d, &mut m, vec![AbiVal::I32(0)]).unwrap();
    set_response(&mut d, &m, vec![AbiVal::I32(0), AbiVal::I32(2)]).unwrap();
    set_response_status(&mut d, vec![AbiVal::I32(200)]).unwrap();
    let reply = harvest_response(&d);
    assert_eq!(reply.status, 200);
    assert_eq!(reply.body, b"hi".to_vec());
    assert!(reply.headers.is_empty());
}

#[test]
fn status_defaults_to_204() {
    // The guest never calls set_response_status.
    let mut d = ctx();
    let m = mem(8);
    set_response(&mut d, &m, vec![AbiVal::I32(0), AbiVal::I32(0)]).unwrap();
    let reply = harvest_response(&d);
    assert_eq!(reply.status, 204);
}

#[test]
fn header_passthrough() {
    // A guest that answers with one response header.
    let mut d = ctx();
    let hdr = br#"[["x-echo","v"]]"#;
    let mut m = GuestMem::new(hdr.to_vec());
    set_response_headers(&mut d, &m, vec![AbiVal::I32(0), AbiVal::I32(hdr.len() as i32)]).unwrap();
    set_response_status(&mut d, vec![AbiVal::I32(204)]).unwrap();
    let reply = harvest_response(&d);
    assert_eq!(reply.status, 204);
    assert_eq!(reply.headers, vec![("x-echo".to_string(), "v".to_string())]);
    let _ = &mut m;
}

#[test]
fn undecodable_response_headers_become_empty() {
    let mut d = ctx();
    let m = GuestMem::new(b"not json".to_vec());
    set_response_headers(&mut d, &m, vec![AbiVal::I32(0), AbiVal::I32(8)]).unwrap();
    let reply = harvest_response(&d);
    assert!(reply.headers.is_empty());
}

#[test]
fn status_is_truncated_to_16_bits() {
    let mut d = ctx();
    set_response_status(&mut d, vec![AbiVal::I32(65536 + 200)]).unwrap();
    assert_eq!(d.response_status, 200);
    set_error_code(&mut d, vec![AbiVal::I32(65536 + 7)]).unwrap();
    assert_eq!(d.error_code, 7);
    assert_eq!(set_response_status(&mut d, vec![]).err(), Some(Trap::FuncTypeMismatch));
    assert_eq!(set_error_code(&mut d, vec![AbiVal::Other]).err(), Some(Trap::FuncTypeMismatch));
}

#[test]
fn set_flows_silent_utf8_failure() {
    let mut d = ctx();
    let m = GuestMem::new(vec![0xff, 0xfe]);
    set_flows(&mut d, &m, vec![AbiVal::I32(0), AbiVal::I32(2)]).unwrap();
    assert_eq!(d.flows, None);
    let m2 = GuestMem::new(b"ok".to_vec());
    set_flows(&mut d, &m2, vec![AbiVal::I32(0), AbiVal::I32(2)]).unwrap();
    assert_eq!(d.flows, Some("ok".to_string()));
}

#[test]
fn set_output_appends() {
    let mut d = ctx();
    let m = GuestMem::new(b"abcdef".to_vec());
    set_output(&mut d, &m, vec![AbiVal::I32(0), AbiVal::I32(3)]).unwrap();
    set_output(&mut d, &m, vec![AbiVal::I32(3), AbiVal::I32(3)]).unwrap();
    assert_eq!(d.output, vec![b"abc".to_vec(), b"def".to_vec()]);
    assert_eq!(
        set_output(&mut d, &m, vec![AbiVal::I32(0)]).err(),
        Some(Trap::FuncTypeMismatch)
    );
    assert_eq!(
        set_output(&mut d, &m, vec![AbiVal::I32(5), AbiVal::I32(5)]).err(),
        Some(Trap::MemoryOutOfBounds)
    );
}

#[test]
fn set_error_log_overwrites() {
    let mut d = ctx();
    let m = GuestMem::new(b"oops".to_vec());
    set_error_log(&mut d, &m, vec![AbiVal::I32(0), AbiVal::I32(4)]).unwrap();
    assert_eq!(d.error_log, Some(b"oops".to_vec()));
    set_error_log(&mut d, &m, vec![AbiVal::I32(0), AbiVal::I32(2)]).unwrap();
    assert_eq!(d.error_log, Some(b"oo".to_vec()));
}

#[test]
fn listening_flag() {
    let mut d = ctx();
    assert_eq!(is_listening(&mut d, vec![]).unwrap(), vec![AbiVal::I32(0)]);
    d.listening = 1;
    assert_eq!(is_listening(&mut d, vec![]).unwrap(), vec![AbiVal::I32(1)]);
}
