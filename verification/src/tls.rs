//! The outbound TLS helper's guest-visible state: a FIFO of completed
//! response buffers per guest instance, and the decoding of a send
//! request out of guest memory. The TLS exchange itself (connect, write,
//! read to end) happens outside the library; what came back is enqueued
//! here and handed to the guest by the poll-length/drain pair.

use vstd::prelude::*;

use crate::guest_mem::{AbiVal, GuestMem, Trap};
use std::sync::Arc;

verus! {

#[verifier::external_type_specification]
#[verifier::external_body]
pub struct ExClientConfig(rustls::ClientConfig);

/// Per-instance TLS helper state: the queue of response bodies not yet
/// drained by the guest, and the shared client configuration carrying
/// the trust anchors.
pub struct WasmEdgeTlsReqData {
    pub response: Vec<Vec<u8>>,
    pub client_config: Arc<rustls::ClientConfig>,
}

impl WasmEdgeTlsReqData {
    pub fn new(client_config: Arc<rustls::ClientConfig>) -> (r: WasmEdgeTlsReqData)
        ensures
            r.response@.len() == 0,
            r.client_config == client_config,
    {
        WasmEdgeTlsReqData { response: Vec::new(), client_config }
    }

    /// Queue one completed response body behind those not yet drained.
    pub fn enqueue_response(&mut self, resp: Vec<u8>)
        ensures
            final(self).response.deep_view() == old(self).response.deep_view().push(resp@),
            final(self).client_config == old(self).client_config,
    {
        let ghost pre = self.response@;
        self.response.push(resp);
        proof {
            assert forall|j: int|
                0 <= j < self.response@.len() implies self.response.deep_view()[j] == old(
                self,
            ).response.deep_view().push(self.response@[pre.len() as int]@)[j] by {
                if j < pre.len() {
                    assert(self.response@[j] == pre[j]);
                }
            }
            assert(self.response.deep_view() =~= old(self).response.deep_view().push(
                self.response@[pre.len() as int]@,
            ));
        }
    }

    /// The byte length of the front queued buffer, or zero when the
    /// queue is empty; the queue is not changed.
    pub fn get_rcv_len(&self) -> (r: i32)
        ensures
            self.response@.len() == 0 ==> r == 0,
            self.response@.len() > 0 ==> r == ((self.response@[0]@.len() as usize) as i32),
    {
        if self.response.len() == 0 {
            0
        } else {
            #[verifier::truncate]
            (self.response[0].len() as i32)
        }
    }

    /// Pop the front buffer and copy it into guest memory at the pointer
    /// named by the single argument; with an empty queue nothing is
    /// written. The buffer leaves the queue even when the write traps.
    pub fn get_rcv(&mut self, mem: &mut GuestMem, args: Vec<AbiVal>) -> (r: Result<
        Vec<AbiVal>,
        Trap,
    >)
        ensures
            final(self).client_config == old(self).client_config,
            !(args@.len() == 1 && args@[0] is I32) ==> r == Err::<Vec<AbiVal>, Trap>(
                Trap::FuncTypeMismatch,
            ) && *final(self) == *old(self) && *final(mem) == *old(mem),
            args@.len() == 1 && args@[0] is I32 && old(self).response@.len() == 0 ==> ({
                &&& r matches Ok(out)
                &&& out@ == Seq::<AbiVal>::empty()
                &&& *final(self) == *old(self)
                &&& *final(mem) == *old(mem)
            }),
            args@.len() == 1 && args@[0] is I32 && old(self).response@.len() > 0 ==> ({
                let ptr = args@[0]->I32_0 as u32;
                let front = old(self).response@[0]@;
                &&& final(self).response@ == old(self).response@.remove(0)
                &&& (if crate::guest_mem::fits(old(mem).data@.len() as int, ptr, front.len() as int) {
                    r matches Ok(out) && out@ == Seq::<AbiVal>::empty() && final(mem).data@
                        == crate::guest_mem::mem_written(old(mem).data@, ptr, front)
                } else {
                    r == Err::<Vec<AbiVal>, Trap>(Trap::MemoryOutOfBounds) && *final(mem) == *old(
                        mem,
                    )
                })
            }),
    {
        if args.len() != 1 {
            return Err(Trap::FuncTypeMismatch);
        }
        let ptr_i: i32 = match args[0] {
            AbiVal::I32(p) => p,
            AbiVal::Other => {
                return Err(Trap::FuncTypeMismatch);
            },
        };
        if self.response.len() == 0 {
            return Ok(Vec::new());
        }
        let front = self.response.remove(0);
        let ptr_u: u32 = #[verifier::truncate] (ptr_i as u32);
        if let Err(e) = mem.set_data(front.as_slice(), ptr_u) {
            return Err(e);
        }
        Ok(Vec::new())
    }
}

/// Decode a send request out of guest memory: the five arguments name
/// the server host's bytes, the port, and the request body's bytes.
/// Returns `(host, port, body)` for the caller to run the TLS exchange
/// with; the port is truncated to 16 bits as the host API takes it.
pub fn send_data_parse(mem: &GuestMem, args: &Vec<AbiVal>) -> (r: Result<
    (Vec<u8>, u16, Vec<u8>),
    Trap,
>)
    ensures
        !send_args_typed(args@) ==> r == Err::<(Vec<u8>, u16, Vec<u8>), Trap>(
            Trap::FuncTypeMismatch,
        ),
        send_args_typed(args@) ==> ({
            let host_ptr = args@[0]->I32_0 as u32;
            let host_len = args@[1]->I32_0 as u32;
            let body_ptr = args@[3]->I32_0 as u32;
            let body_len = args@[4]->I32_0 as u32;
            if !crate::guest_mem::fits(mem.data@.len() as int, host_ptr, host_len as int) {
                r == Err::<(Vec<u8>, u16, Vec<u8>), Trap>(Trap::MemoryOutOfBounds)
            } else if !crate::guest_mem::fits(mem.data@.len() as int, body_ptr, body_len as int) {
                r == Err::<(Vec<u8>, u16, Vec<u8>), Trap>(Trap::MemoryOutOfBounds)
            } else {
                r matches Ok(t) && {
                    &&& t.0@ == mem.data@.subrange(host_ptr as int, host_ptr + host_len)
                    &&& t.1 == args@[2]->I32_0 as u16
                    &&& t.2@ == mem.data@.subrange(body_ptr as int, body_ptr + body_len)
                }
            }
        }),
{
    if args.len() != 5 {
        return Err(Trap::FuncTypeMismatch);
    }
    let host_ptr: i32 = match args[0] {
        AbiVal::I32(v) => v,
        AbiVal::Other => {
            return Err(Trap::FuncTypeMismatch);
        },
    };
    let host_len: i32 = match args[1] {
        AbiVal::I32(v) => v,
        AbiVal::Other => {
            return Err(Trap::FuncTypeMismatch);
        },
    };
    let port: i32 = match args[2] {
        AbiVal::I32(v) => v,
        AbiVal::Other => {
            return Err(Trap::FuncTypeMismatch);
        },
    };
    let body_ptr: i32 = match args[3] {
        AbiVal::I32(v) => v,
        AbiVal::Other => {
            return Err(Trap::FuncTypeMismatch);
        },
    };
    let body_len: i32 = match args[4] {
        AbiVal::I32(v) => v,
        AbiVal::Other => {
            return Err(Trap::FuncTypeMismatch);
        },
    };
    let host = match mem.get_data(
        #[verifier::truncate] (host_ptr as u32),
        #[verifier::truncate] (host_len as u32),
    ) {
        Ok(h) => h,
        Err(e) => {
            return Err(e);
        },
    };
    let body = match mem.get_data(
        #[verifier::truncate] (body_ptr as u32),
        #[verifier::truncate] (body_len as u32),
    ) {
        Ok(b) => b,
        Err(e) => {
            return Err(e);
        },
    };
    Ok((host, #[verifier::truncate] (port as u16), body))
}

/// Are all five send arguments integers?
pub open spec fn send_args_typed(args: Seq<AbiVal>) -> bool {
    args.len() == 5 && (forall|i: int| 0 <= i < 5 ==> (#[trigger] args[i]) is I32)
}

/// Relies on rustls's client-configuration builder and the webpki trust
/// anchors: builds the process-wide TLS client configuration with safe
/// defaults, the bundled roots, and no client authentication. The
/// closure converts each bundled anchor into rustls's owned form,
/// moving its fields only.
#[verifier::external_body]
pub fn default_client_config() -> Arc<rustls::ClientConfig> {
    let mut root_store = rustls::RootCertStore::empty();
    root_store.add_trust_anchors(webpki_roots::TLS_SERVER_ROOTS.iter().map(|ta| {
        rustls::OwnedTrustAnchor::from_subject_spki_name_constraints(
            ta.subject,
            ta.spki,
            ta.name_constraints,
        )
    }));
    let client_config = rustls::ClientConfig::builder()
        .with_safe_defaults()
        .with_root_certificates(root_store)
        .with_no_client_auth();
    Arc::new(client_config)
}

} // verus!
