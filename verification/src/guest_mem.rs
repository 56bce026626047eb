//! A model of the guest's linear memory and of the values crossing the
//! ABI boundary: reads and writes are bounds-checked against the memory's
//! length, and every host function argument is a typed value whose type
//! the callee checks.

use vstd::prelude::*;

verus! {

/// How an ABI call fails: the guest handed an out-of-range pointer or
/// length, arguments of the wrong arity or type, or the host work behind
/// the call failed.
#[derive(Clone, Copy, Debug, PartialEq, Eq, Structural)]
pub enum Trap {
    MemoryOutOfBounds,
    FuncTypeMismatch,
    HostFuncFailed,
}

/// One value crossing the ABI boundary: every argument this host reads is
/// a 32-bit integer; a value of any other type only ever fails the type
/// check, so its payload is not carried.
#[derive(Clone, Copy, Debug, PartialEq, Eq, Structural)]
pub enum AbiVal {
    I32(i32),
    Other,
}

/// Does `n` more bytes starting at `ptr` stay inside a memory of length
/// `len`?
pub open spec fn fits(len: int, ptr: u32, n: int) -> bool {
    ptr + n <= len
}

/// The memory contents after writing `bytes` at `ptr`.
pub open spec fn mem_written(m: Seq<u8>, ptr: u32, bytes: Seq<u8>) -> Seq<u8> {
    m.subrange(0, ptr as int) + bytes + m.skip(ptr + bytes.len())
}

/// The guest's linear memory, as the bytes it holds.
pub struct GuestMem {
    pub data: Vec<u8>,
}

impl GuestMem {
    pub fn new(data: Vec<u8>) -> (r: GuestMem)
        ensures
            r.data == data,
    {
        GuestMem { data }
    }

    /// Read `len` bytes at `ptr`; a range that leaves the memory is a
    /// memory-out-of-bounds trap.
    pub fn get_data(&self, ptr: u32, len: u32) -> (r: Result<Vec<u8>, Trap>)
        ensures
            (r is Ok) == fits(self.data@.len() as int, ptr, len as int),
            r matches Ok(v) ==> v@ == self.data@.subrange(ptr as int, ptr + len),
            r is Err ==> r == Err::<Vec<u8>, Trap>(Trap::MemoryOutOfBounds),
    {
        let end: u64 = ptr as u64 + len as u64;
        if end > self.data.len() as u64 {
            return Err(Trap::MemoryOutOfBounds);
        }
        let start = ptr as usize;
        let n = len as usize;
        let cap = self.data.len();
        let mut v: Vec<u8> = Vec::new();
        let mut i: usize = 0;
        while i < n
            invariant
                i <= n,
                start + n <= cap,
                cap == self.data@.len(),
                v@ == self.data@.subrange(start as int, start + i),
            decreases n - i,
        {
            v.push(self.data[start + i]);
            assert(v@ =~= self.data@.subrange(start as int, start + i + 1));
            i += 1;
        }
        Ok(v)
    }

    /// Write `bytes` at `ptr`; a range that leaves the memory is a
    /// memory-out-of-bounds trap, and the memory is untouched.
    pub fn set_data(&mut self, bytes: &[u8], ptr: u32) -> (r: Result<(), Trap>)
        ensures
            (r is Ok) == fits(old(self).data@.len() as int, ptr, bytes@.len() as int),
            r is Ok ==> final(self).data@ == mem_written(old(self).data@, ptr, bytes@),
            r is Err ==> r == Err::<(), Trap>(Trap::MemoryOutOfBounds) && *final(self) == *old(
                self,
            ),
    {
        let end: u128 = ptr as u128 + bytes.len() as u128;
        if end > self.data.len() as u128 {
            return Err(Trap::MemoryOutOfBounds);
        }
        let start = ptr as usize;
        let n = bytes.len();
        let cap = self.data.len();
        let mut i: usize = 0;
        while i < n
            invariant
                i <= n,
                n == bytes@.len(),
                start == ptr as int,
                start + n <= cap,
                cap == self.data@.len(),
                self.data@.len() == old(self).data@.len(),
                self.data@ == old(self).data@.subrange(0, start as int) + bytes@.subrange(
                    0,
                    i as int,
                ) + old(self).data@.skip(start + i),
            decreases n - i,
        {
            let ghost pre = self.data@;
            self.data[start + i] = bytes[i];
            proof {
                assert(self.data@ =~= old(self).data@.subrange(0, start as int)
                    + bytes@.subrange(0, i + 1) + old(self).data@.skip(start + i + 1));
            }
            i += 1;
        }
        proof {
            assert(self.data@ =~= mem_written(old(self).data@, ptr, bytes@));
        }
        Ok(())
    }
}

} // verus!
