//! The per-invocation request context and the guest ABI over it.
//!
//! Every input field follows the length-then-copy convention: one call
//! reports the field's byte length, a second writes the bytes into guest
//! memory and returns the same length. Every output setter copies bytes
//! out of guest memory into its slot. Argument lists are type-checked:
//! a wrong arity or a non-integer argument is a type-mismatch trap.

use vstd::prelude::*;

use crate::guest_mem::{fits, mem_written, AbiVal, GuestMem, Trap};
use crate::strutil::{utf8_decode, utf8_to_string};
use vstd::utf8::encode_utf8;

verus! {

/// The request context of one invocation: immutable identity and event
/// fields set by the driver, and output slots the guest fills through
/// the ABI.
pub struct FlowsParams {
    pub listening: i32,
    pub flows_user: String,
    pub flow_id: String,
    pub event_method: String,
    pub event_query: String,
    pub event_headers: String,
    pub event_subpath: String,
    pub event_body: Vec<u8>,
    pub wasm_func: String,
    pub wasm_env: Option<Vec<String>>,
    pub preopen: Option<Vec<(String, String)>>,
    pub flows: Option<String>,
    pub error_log: Option<Vec<u8>>,
    pub output: Vec<Vec<u8>>,
    pub response: Option<Vec<u8>>,
    pub response_headers: Option<Vec<u8>>,
    pub response_status: u16,
    pub error_code: u16,
}

/// The input fields the ABI exposes through the length-then-copy pair.
#[derive(Clone, Copy, Debug, PartialEq, Eq, Structural)]
pub enum AbiField {
    FlowsUser,
    FlowId,
    EventBody,
    EventQuery,
    EventSubpath,
    EventMethod,
    EventHeaders,
}

/// The bytes of one input field: the UTF-8 encoding of a string field,
/// the body's bytes themselves.
pub open spec fn field_bytes(d: FlowsParams, f: AbiField) -> Seq<u8> {
    match f {
        AbiField::FlowsUser => encode_utf8(d.flows_user@),
        AbiField::FlowId => encode_utf8(d.flow_id@),
        AbiField::EventBody => d.event_body@,
        AbiField::EventQuery => encode_utf8(d.event_query@),
        AbiField::EventSubpath => encode_utf8(d.event_subpath@),
        AbiField::EventMethod => encode_utf8(d.event_method@),
        AbiField::EventHeaders => encode_utf8(d.event_headers@),
    }
}

/// What a copy-getter for `field` does: with a final integer argument it
/// writes the field's bytes at that pointer and returns their count;
/// without one it is a type-mismatch trap, and an out-of-range pointer a
/// memory trap. Either way the context is untouched.
pub open spec fn getter_post(
    field: Seq<u8>,
    pre_mem: GuestMem,
    post_mem: GuestMem,
    args: Seq<AbiVal>,
    r: Result<Vec<AbiVal>, Trap>,
) -> bool {
    if args.len() > 0 && args.last() is I32 {
        let p = args.last()->I32_0 as u32;
        if fits(pre_mem.data@.len() as int, p, field.len() as int) {
            &&& r matches Ok(out)
            &&& out@ == seq![AbiVal::I32((field.len() as usize) as i32)]
            &&& post_mem.data@ == mem_written(pre_mem.data@, p, field)
        } else {
            r == Err::<Vec<AbiVal>, Trap>(Trap::MemoryOutOfBounds) && post_mem == pre_mem
        }
    } else {
        r == Err::<Vec<AbiVal>, Trap>(Trap::FuncTypeMismatch) && post_mem == pre_mem
    }
}

/// The bytes a two-argument setter reads: `(ptr, len)` out of guest
/// memory.
pub open spec fn setter_read(mem: GuestMem, ptr: i32, len: i32) -> Seq<u8> {
    mem.data@.subrange(ptr as u32 as int, ptr as u32 + len as u32)
}

/// A setter's argument list is usable when it starts with two integers
/// naming an in-range byte range.
pub open spec fn setter_args_typed(args: Seq<AbiVal>) -> bool {
    args.len() >= 2 && args[0] is I32 && args[1] is I32
}

pub open spec fn setter_args_fit(mem: GuestMem, args: Seq<AbiVal>) -> bool {
    fits(mem.data@.len() as int, args[0]->I32_0 as u32, args[1]->I32_0 as u32 as int)
}

/// Shared body of the copy-getters: write `bytes` to the pointer named by
/// the last argument and return their count.
fn copy_out(mem: &mut GuestMem, bytes: &[u8], args: &Vec<AbiVal>) -> (r: Result<Vec<AbiVal>, Trap>)
    ensures
        getter_post(bytes@, *old(mem), *final(mem), args@, r),
{
    let n = args.len();
    if n == 0 {
        return Err(Trap::FuncTypeMismatch);
    }
    let ptr_i: i32 = match args[n - 1] {
        AbiVal::I32(p) => p,
        AbiVal::Other => {
            return Err(Trap::FuncTypeMismatch);
        },
    };
    let ptr_u: u32 = #[verifier::truncate] (ptr_i as u32);
    if let Err(e) = mem.set_data(bytes, ptr_u) {
        return Err(e);
    }
    let n_bytes = bytes.len();
    proof {
        vstd::slice::axiom_spec_len(bytes);
    }
    let len32: i32 = #[verifier::truncate] (n_bytes as i32);
    let mut out: Vec<AbiVal> = Vec::new();
    out.push(AbiVal::I32(len32));
    proof {
        assert(out@ =~= seq![AbiVal::I32(len32)]);
    }
    Ok(out)
}

/// Read the two-integer `(ptr, len)` prefix of a setter's arguments.
fn setter_range(args: &Vec<AbiVal>) -> (r: Result<(i32, i32), Trap>)
    ensures
        (r is Ok) == setter_args_typed(args@),
        r matches Ok(pair) ==> args@[0] == AbiVal::I32(pair.0) && args@[1] == AbiVal::I32(pair.1),
        r is Err ==> r == Err::<(i32, i32), Trap>(Trap::FuncTypeMismatch),
    {
    if args.len() < 2 {
        return Err(Trap::FuncTypeMismatch);
    }
    let ptr = match args[0] {
        AbiVal::I32(p) => p,
        AbiVal::Other => {
            return Err(Trap::FuncTypeMismatch);
        },
    };
    let len = match args[1] {
        AbiVal::I32(l) => l,
        AbiVal::Other => {
            return Err(Trap::FuncTypeMismatch);
        },
    };
    Ok((ptr, len))
}

/// Reports the liveness flag.
pub fn is_listening(data: &mut FlowsParams, args: Vec<AbiVal>) -> (r: Result<Vec<AbiVal>, Trap>)
    ensures
        *final(data) == *old(data),
        r matches Ok(out) && out@ == seq![AbiVal::I32(old(data).listening)],
{
    let _ = args;
    Ok(vec![AbiVal::I32(data.listening)])
}

/// Writes the invoking user's identity into guest memory.
pub fn get_flows_user(data: &mut FlowsParams, mem: &mut GuestMem, args: Vec<AbiVal>) -> (r: Result<
    Vec<AbiVal>,
    Trap,
>)
    ensures
        *final(data) == *old(data),
        getter_post(
            field_bytes(*old(data), AbiField::FlowsUser),
            *old(mem),
            *final(mem),
            args@,
            r,
        ),
{
    copy_out(mem, data.flows_user.as_str().as_bytes(), &args)
}

/// Writes the flow identity into guest memory.
pub fn get_flow_id(data: &mut FlowsParams, mem: &mut GuestMem, args: Vec<AbiVal>) -> (r: Result<
    Vec<AbiVal>,
    Trap,
>)
    ensures
        *final(data) == *old(data),
        getter_post(field_bytes(*old(data), AbiField::FlowId), *old(mem), *final(mem), args@, r),
{
    copy_out(mem, data.flow_id.as_str().as_bytes(), &args)
}

/// Reports the request body's byte length.
pub fn get_event_body_length(data: &mut FlowsParams, args: Vec<AbiVal>) -> (r: Result<
    Vec<AbiVal>,
    Trap,
>)
    ensures
        *final(data) == *old(data),
        r matches Ok(out) && out@ == seq![
            AbiVal::I32((field_bytes(*old(data), AbiField::EventBody).len() as usize) as i32),
        ],
{
    let _ = args;
    let len32: i32 = #[verifier::truncate] (data.event_body.len() as i32);
    Ok(vec![AbiVal::I32(len32)])
}

/// Writes the request body into guest memory.
pub fn get_event_body(data: &mut FlowsParams, mem: &mut GuestMem, args: Vec<AbiVal>) -> (r: Result<
    Vec<AbiVal>,
    Trap,
>)
    ensures
        *final(data) == *old(data),
        getter_post(
            field_bytes(*old(data), AbiField::EventBody),
            *old(mem),
            *final(mem),
            args@,
            r,
        ),
{
    copy_out(mem, data.event_body.as_slice(), &args)
}

/// Reports the JSON-encoded query's byte length.
pub fn get_event_query_length(data: &mut FlowsParams, args: Vec<AbiVal>) -> (r: Result<
    Vec<AbiVal>,
    Trap,
>)
    ensures
        *final(data) == *old(data),
        r matches Ok(out) && out@ == seq![
            AbiVal::I32((field_bytes(*old(data), AbiField::EventQuery).len() as usize) as i32),
        ],
{
    let _ = args;
    let len32: i32 = #[verifier::truncate] (data.event_query.as_str().len() as i32);
    Ok(vec![AbiVal::I32(len32)])
}

/// Writes the JSON-encoded query into guest memory.
pub fn get_event_query(data: &mut FlowsParams, mem: &mut GuestMem, args: Vec<AbiVal>) -> (r:
    Result<Vec<AbiVal>, Trap>)
    ensures
        *final(data) == *old(data),
        getter_post(
            field_bytes(*old(data), AbiField::EventQuery),
            *old(mem),
            *final(mem),
            args@,
            r,
        ),
{
    copy_out(mem, data.event_query.as_str().as_bytes(), &args)
}

/// Reports the request subpath's byte length.
pub fn get_event_subpath_length(data: &mut FlowsParams, args: Vec<AbiVal>) -> (r: Result<
    Vec<AbiVal>,
    Trap,
>)
    ensures
        *final(data) == *old(data),
        r matches Ok(out) && out@ == seq![
            AbiVal::I32((field_bytes(*old(data), AbiField::EventSubpath).len() as usize) as i32),
        ],
{
    let _ = args;
    let len32: i32 = #[verifier::truncate] (data.event_subpath.as_str().len() as i32);
    Ok(vec![AbiVal::I32(len32)])
}

/// Writes the request subpath into guest memory.
pub fn get_event_subpath(data: &mut FlowsParams, mem: &mut GuestMem, args: Vec<AbiVal>) -> (r:
    Result<Vec<AbiVal>, Trap>)
    ensures
        *final(data) == *old(data),
        getter_post(
            field_bytes(*old(data), AbiField::EventSubpath),
            *old(mem),
            *final(mem),
            args@,
            r,
        ),
{
    copy_out(mem, data.event_subpath.as_str().as_bytes(), &args)
}

/// Reports the request method's byte length.
pub fn get_event_method_length(data: &mut FlowsParams, args: Vec<AbiVal>) -> (r: Result<
    Vec<AbiVal>,
    Trap,
>)
    ensures
        *final(data) == *old(data),
        r matches Ok(out) && out@ == seq![
            AbiVal::I32((field_bytes(*old(data), AbiField::EventMethod).len() as usize) as i32),
        ],
{
    let _ = args;
    let len32: i32 = #[verifier::truncate] (data.event_method.as_str().len() as i32);
    Ok(vec![AbiVal::I32(len32)])
}

/// Writes the request method into guest memory.
pub fn get_event_method(data: &mut FlowsParams, mem: &mut GuestMem, args: Vec<AbiVal>) -> (r:
    Result<Vec<AbiVal>, Trap>)
    ensures
        *final(data) == *old(data),
        getter_post(
            field_bytes(*old(data), AbiField::EventMethod),
            *old(mem),
            *final(mem),
            args@,
            r,
        ),
{
    copy_out(mem, data.event_method.as_str().as_bytes(), &args)
}

/// Reports the JSON-encoded header list's byte length.
pub fn get_event_headers_length(data: &mut FlowsParams, args: Vec<AbiVal>) -> (r: Result<
    Vec<AbiVal>,
    Trap,
>)
    ensures
        *final(data) == *old(data),
        r matches Ok(out) && out@ == seq![
            AbiVal::I32((field_bytes(*old(data), AbiField::EventHeaders).len() as usize) as i32),
        ],
{
    let _ = args;
    let len32: i32 = #[verifier::truncate] (data.event_headers.as_str().len() as i32);
    Ok(vec![AbiVal::I32(len32)])
}

/// Writes the JSON-encoded header list into guest memory.
pub fn get_event_headers(data: &mut FlowsParams, mem: &mut GuestMem, args: Vec<AbiVal>) -> (r:
    Result<Vec<AbiVal>, Trap>)
    ensures
        *final(data) == *old(data),
        getter_post(
            field_bytes(*old(data), AbiField::EventHeaders),
            *old(mem),
            *final(mem),
            args@,
            r,
        ),
{
    copy_out(mem, data.event_headers.as_str().as_bytes(), &args)
}

/// Stores the flows slot from guest bytes; bytes that are not valid
/// UTF-8 silently leave the slot absent.
pub fn set_flows(data: &mut FlowsParams, mem: &GuestMem, args: Vec<AbiVal>) -> (r: Result<
    Vec<AbiVal>,
    Trap,
>)
    ensures
        !setter_args_typed(args@) ==> r == Err::<Vec<AbiVal>, Trap>(Trap::FuncTypeMismatch)
            && *final(data) == *old(data),
        setter_args_typed(args@) && !setter_args_fit(*mem, args@) ==> r == Err::<
            Vec<AbiVal>,
            Trap,
        >(Trap::MemoryOutOfBounds) && *final(data) == *old(data),
        setter_args_typed(args@) && setter_args_fit(*mem, args@) ==> ({
            let bytes = setter_read(*mem, args@[0]->I32_0, args@[1]->I32_0);
            &&& r matches Ok(out) && out@ == Seq::<AbiVal>::empty()
            &&& (final(data).flows is Some) == (utf8_decode(bytes) is Some)
            &&& (final(data).flows matches Some(s) ==> utf8_decode(bytes) == Some(s@))
            &&& *final(data) == (FlowsParams { flows: final(data).flows, ..*old(data) })
        }),
{
    let (ptr, len) = match setter_range(&args) {
        Ok(p) => p,
        Err(e) => {
            return Err(e);
        },
    };
    let bytes = match mem.get_data(
        #[verifier::truncate] (ptr as u32),
        #[verifier::truncate] (len as u32),
    ) {
        Ok(b) => b,
        Err(e) => {
            return Err(e);
        },
    };
    data.flows = utf8_to_string(bytes);
    Ok(Vec::new())
}

/// Appends one chunk of guest bytes to the output sequence.
pub fn set_output(data: &mut FlowsParams, mem: &GuestMem, args: Vec<AbiVal>) -> (r: Result<
    Vec<AbiVal>,
    Trap,
>)
    ensures
        !setter_args_typed(args@) ==> r == Err::<Vec<AbiVal>, Trap>(Trap::FuncTypeMismatch)
            && *final(data) == *old(data),
        setter_args_typed(args@) && !setter_args_fit(*mem, args@) ==> r == Err::<
            Vec<AbiVal>,
            Trap,
        >(Trap::MemoryOutOfBounds) && *final(data) == *old(data),
        setter_args_typed(args@) && setter_args_fit(*mem, args@) ==> ({
            let bytes = setter_read(*mem, args@[0]->I32_0, args@[1]->I32_0);
            &&& r matches Ok(out) && out@ == Seq::<AbiVal>::empty()
            &&& final(data).output.deep_view() == old(data).output.deep_view().push(bytes)
            &&& *final(data) == (FlowsParams { output: final(data).output, ..*old(data) })
        }),
{
    let (ptr, len) = match setter_range(&args) {
        Ok(p) => p,
        Err(e) => {
            return Err(e);
        },
    };
    let chunk = match mem.get_data(
        #[verifier::truncate] (ptr as u32),
        #[verifier::truncate] (len as u32),
    ) {
        Ok(b) => b,
        Err(e) => {
            return Err(e);
        },
    };
    let ghost pre = data.output@;
    data.output.push(chunk);
    proof {
        assert forall|j: int|
            0 <= j < data.output@.len() implies data.output.deep_view()[j] == old(
            data,
        ).output.deep_view().push(setter_read(*mem, args@[0]->I32_0, args@[1]->I32_0))[j] by {
            assert(data.output.deep_view()[j] == data.output@[j]@);
            if j < pre.len() {
                assert(data.output@[j] == pre[j]);
                assert(old(data).output.deep_view()[j] == pre[j]@);
            }
        }
        assert(data.output.deep_view() =~= old(data).output.deep_view().push(
            setter_read(*mem, args@[0]->I32_0, args@[1]->I32_0),
        ));
    }
    Ok(Vec::new())
}

/// Stores the error-log slot from guest bytes, replacing any prior value.
pub fn set_error_log(data: &mut FlowsParams, mem: &GuestMem, args: Vec<AbiVal>) -> (r: Result<
    Vec<AbiVal>,
    Trap,
>)
    ensures
        !setter_args_typed(args@) ==> r == Err::<Vec<AbiVal>, Trap>(Trap::FuncTypeMismatch)
            && *final(data) == *old(data),
        setter_args_typed(args@) && !setter_args_fit(*mem, args@) ==> r == Err::<
            Vec<AbiVal>,
            Trap,
        >(Trap::MemoryOutOfBounds) && *final(data) == *old(data),
        setter_args_typed(args@) && setter_args_fit(*mem, args@) ==> ({
            let bytes = setter_read(*mem, args@[0]->I32_0, args@[1]->I32_0);
            &&& r matches Ok(out) && out@ == Seq::<AbiVal>::empty()
            &&& final(data).error_log matches Some(v) && v@ == bytes
            &&& *final(data) == (FlowsParams { error_log: final(data).error_log, ..*old(data) })
        }),
{
    let (ptr, len) = match setter_range(&args) {
        Ok(p) => p,
        Err(e) => {
            return Err(e);
        },
    };
    let bytes = match mem.get_data(
        #[verifier::truncate] (ptr as u32),
        #[verifier::truncate] (len as u32),
    ) {
        Ok(b) => b,
        Err(e) => {
            return Err(e);
        },
    };
    data.error_log = Some(bytes);
    Ok(Vec::new())
}

/// Stores the response body slot from guest bytes, replacing any prior
/// value.
pub fn set_response(data: &mut FlowsParams, mem: &GuestMem, args: Vec<AbiVal>) -> (r: Result<
    Vec<AbiVal>,
    Trap,
>)
    ensures
        !setter_args_typed(args@) ==> r == Err::<Vec<AbiVal>, Trap>(Trap::FuncTypeMismatch)
            && *final(data) == *old(data),
        setter_args_typed(args@) && !setter_args_fit(*mem, args@) ==> r == Err::<
            Vec<AbiVal>,
            Trap,
        >(Trap::MemoryOutOfBounds) && *final(data) == *old(data),
        setter_args_typed(args@) && setter_args_fit(*mem, args@) ==> ({
            let bytes = setter_read(*mem, args@[0]->I32_0, args@[1]->I32_0);
            &&& r matches Ok(out) && out@ == Seq::<AbiVal>::empty()
            &&& final(data).response matches Some(v) && v@ == bytes
            &&& *final(data) == (FlowsParams { response: final(data).response, ..*old(data) })
        }),
{
    let (ptr, len) = match setter_range(&args) {
        Ok(p) => p,
        Err(e) => {
            return Err(e);
        },
    };
    let bytes = match mem.get_data(
        #[verifier::truncate] (ptr as u32),
        #[verifier::truncate] (len as u32),
    ) {
        Ok(b) => b,
        Err(e) => {
            return Err(e);
        },
    };
    data.response = Some(bytes);
    Ok(Vec::new())
}

/// Stores the response-header slot from guest bytes, replacing any prior
/// value; the bytes are expected to decode as a JSON array of name/value
/// pairs, which the driver checks at harvest time.
pub fn set_response_headers(data: &mut FlowsParams, mem: &GuestMem, args: Vec<AbiVal>) -> (r:
    Result<Vec<AbiVal>, Trap>)
    ensures
        !setter_args_typed(args@) ==> r == Err::<Vec<AbiVal>, Trap>(Trap::FuncTypeMismatch)
            && *final(data) == *old(data),
        setter_args_typed(args@) && !setter_args_fit(*mem, args@) ==> r == Err::<
            Vec<AbiVal>,
            Trap,
        >(Trap::MemoryOutOfBounds) && *final(data) == *old(data),
        setter_args_typed(args@) && setter_args_fit(*mem, args@) ==> ({
            let bytes = setter_read(*mem, args@[0]->I32_0, args@[1]->I32_0);
            &&& r matches Ok(out) && out@ == Seq::<AbiVal>::empty()
            &&& final(data).response_headers matches Some(v) && v@ == bytes
            &&& *final(data) == (FlowsParams {
                response_headers: final(data).response_headers,
                ..*old(data)
            })
        }),
{
    let (ptr, len) = match setter_range(&args) {
        Ok(p) => p,
        Err(e) => {
            return Err(e);
        },
    };
    let bytes = match mem.get_data(
        #[verifier::truncate] (ptr as u32),
        #[verifier::truncate] (len as u32),
    ) {
        Ok(b) => b,
        Err(e) => {
            return Err(e);
        },
    };
    data.response_headers = Some(bytes);
    Ok(Vec::new())
}

/// Stores the response status, truncated to 16 bits; a first argument
/// that is not an integer is a type-mismatch trap.
pub fn set_response_status(data: &mut FlowsParams, args: Vec<AbiVal>) -> (r: Result<
    Vec<AbiVal>,
    Trap,
>)
    ensures
        !(args@.len() >= 1 && args@[0] is I32) ==> r == Err::<Vec<AbiVal>, Trap>(
            Trap::FuncTypeMismatch,
        ) && *final(data) == *old(data),
        args@.len() >= 1 && args@[0] is I32 ==> {
            &&& r matches Ok(out) && out@ == Seq::<AbiVal>::empty()
            &&& *final(data) == (FlowsParams {
                response_status: args@[0]->I32_0 as u16,
                ..*old(data)
            })
        },
{
    if args.len() == 0 {
        return Err(Trap::FuncTypeMismatch);
    }
    let status = match args[0] {
        AbiVal::I32(s) => s,
        AbiVal::Other => {
            return Err(Trap::FuncTypeMismatch);
        },
    };
    data.response_status = #[verifier::truncate] (status as u16);
    Ok(Vec::new())
}

/// Stores the error code, truncated to 16 bits; a first argument that is
/// not an integer is a type-mismatch trap.
pub fn set_error_code(data: &mut FlowsParams, args: Vec<AbiVal>) -> (r: Result<Vec<AbiVal>, Trap>)
    ensures
        !(args@.len() >= 1 && args@[0] is I32) ==> r == Err::<Vec<AbiVal>, Trap>(
            Trap::FuncTypeMismatch,
        ) && *final(data) == *old(data),
        args@.len() >= 1 && args@[0] is I32 ==> {
            &&& r matches Ok(out) && out@ == Seq::<AbiVal>::empty()
            &&& *final(data) == (FlowsParams { error_code: args@[0]->I32_0 as u16, ..*old(data) })
        },
{
    if args.len() == 0 {
        return Err(Trap::FuncTypeMismatch);
    }
    let code = match args[0] {
        AbiVal::I32(c) => c,
        AbiVal::Other => {
            return Err(Trap::FuncTypeMismatch);
        },
    };
    data.error_code = #[verifier::truncate] (code as u16);
    Ok(Vec::new())
}

/// Length/copy consistency: for any field, the bytes the copy-getter
/// writes at `ptr` are exactly the field's bytes — as many as the
/// length-getter reports — and the rest of guest memory is untouched.
pub proof fn lemma_length_copy_consistency(d: FlowsParams, f: AbiField, m: Seq<u8>, ptr: u32)
    requires
        fits(m.len() as int, ptr, field_bytes(d, f).len() as int),
    ensures
        mem_written(m, ptr, field_bytes(d, f)).subrange(
            ptr as int,
            ptr + field_bytes(d, f).len(),
        ) == field_bytes(d, f),
        mem_written(m, ptr, field_bytes(d, f)).len() == m.len(),
        mem_written(m, ptr, field_bytes(d, f)).subrange(0, ptr as int) == m.subrange(
            0,
            ptr as int,
        ),
        mem_written(m, ptr, field_bytes(d, f)).skip(ptr + field_bytes(d, f).len()) == m.skip(
            ptr + field_bytes(d, f).len(),
        ),
{
    let field = field_bytes(d, f);
    let w = mem_written(m, ptr, field);
    assert(w.subrange(ptr as int, ptr + field.len()) =~= field);
    assert(w.subrange(0, ptr as int) =~= m.subrange(0, ptr as int));
    assert(w.skip(ptr + field.len()) =~= m.skip(ptr + field.len()));
}

} // verus!
