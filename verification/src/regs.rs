//! The register window: a bounds-checked accessor over the device's
//! memory-mapped register block.

use vstd::prelude::*;

use crate::errors::Error;

verus! {

/// Size of the register window in bytes.
pub const GPIO_SIZE: usize = 0x100;

/// Byte offset of the direction bitmask register. Bit `n` set means line `n`
/// is configured as an output, clear means input.
pub const GPIO_DIR: usize = 0x0000;

/// The 64-bit value stored little-endian in `m` at byte offset `off`.
pub open spec fn le64_at(m: Seq<u8>, off: int) -> u64
    recommends
        0 <= off,
        off + 8 <= m.len(),
{
    (m[off] as u64) | ((m[off + 1] as u64) << 8) | ((m[off + 2] as u64) << 16) | ((m[off + 3]
        as u64) << 24) | ((m[off + 4] as u64) << 32) | ((m[off + 5] as u64) << 40) | ((m[off + 6]
        as u64) << 48) | ((m[off + 7] as u64) << 56)
}

/// Whether bit `n` of `v` is set.
pub open spec fn bit_is_set(v: u64, n: u32) -> bool
    recommends
        n < 64,
{
    v & (1u64 << n) != 0
}

/// A fixed-size window onto the device's registers, obtained by mapping a
/// previously claimed memory region. Every access is checked against the
/// window size before it is issued; an access that would run past the end
/// fails closed and touches nothing.
#[derive(Debug)]
pub struct RegisterWindow {
    mem: Vec<u8>,
}

impl RegisterWindow {
    /// The window holds exactly `GPIO_SIZE` bytes. Established by `try_new`
    /// and preserved by every access.
    pub closed spec fn wf(self) -> bool {
        self.mem@.len() == GPIO_SIZE
    }

    /// The bytes visible through the window.
    pub closed spec fn mem(self) -> Seq<u8> {
        self.mem@
    }

    /// Maps a claimed region into a register window. Fails with a mapping
    /// error unless the region is exactly the declared window size.
    pub fn try_new(region: Vec<u8>) -> (r: Result<RegisterWindow, Error>)
        ensures
            region@.len() == GPIO_SIZE ==> (r matches Ok(w) && w.wf() && w.mem() == region@),
            region@.len() != GPIO_SIZE ==> r == Err::<RegisterWindow, Error>(
                Error::MappingFailure,
            ),
    {
        if region.len() != GPIO_SIZE {
            return Err(Error::MappingFailure);
        }
        Ok(RegisterWindow { mem: region })
    }

    /// Reads the 64-bit little-endian value at `offset`. Fails with an
    /// out-of-range error if the access would run past the window.
    pub fn read64(&self, offset: usize) -> (r: Result<u64, Error>)
        requires
            self.wf(),
        ensures
            offset + 8 <= GPIO_SIZE ==> (r matches Ok(v) && v == le64_at(
                self.mem(),
                offset as int,
            )),
            offset + 8 > GPIO_SIZE ==> r == Err::<u64, Error>(Error::OutOfRange),
    {
        if offset > GPIO_SIZE - 8 {
            return Err(Error::OutOfRange);
        }
        let v: u64 = (self.mem[offset] as u64) | ((self.mem[offset + 1] as u64) << 8) | ((
        self.mem[offset + 2] as u64) << 16) | ((self.mem[offset + 3] as u64) << 24) | ((
        self.mem[offset + 4] as u64) << 32) | ((self.mem[offset + 5] as u64) << 40) | ((
        self.mem[offset + 6] as u64) << 48) | ((self.mem[offset + 7] as u64) << 56);
        Ok(v)
    }

    /// Writes `value` little-endian at `offset`. Fails with an out-of-range
    /// error, leaving the window untouched, if the access would run past the
    /// window.
    pub fn write64(&mut self, offset: usize, value: u64) -> (r: Result<(), Error>)
        requires
            old(self).wf(),
        ensures
            final(self).wf(),
            offset + 8 > GPIO_SIZE ==> r == Err::<(), Error>(Error::OutOfRange)
                && final(self).mem() == old(self).mem(),
            offset + 8 <= GPIO_SIZE ==> {
                &&& r == Ok::<(), Error>(())
                &&& forall|j: int|
                    0 <= j < GPIO_SIZE && !(offset <= j < offset + 8) ==> final(self).mem()[j]
                        == old(self).mem()[j]
                &&& le64_at(final(self).mem(), offset as int) == value
            },
    {
        if offset > GPIO_SIZE - 8 {
            return Err(Error::OutOfRange);
        }
        self.mem[offset] = #[verifier::truncate] (value as u8);
        self.mem[offset + 1] = #[verifier::truncate] ((value >> 8) as u8);
        self.mem[offset + 2] = #[verifier::truncate] ((value >> 16) as u8);
        self.mem[offset + 3] = #[verifier::truncate] ((value >> 24) as u8);
        self.mem[offset + 4] = #[verifier::truncate] ((value >> 32) as u8);
        self.mem[offset + 5] = #[verifier::truncate] ((value >> 40) as u8);
        self.mem[offset + 6] = #[verifier::truncate] ((value >> 48) as u8);
        self.mem[offset + 7] = #[verifier::truncate] ((value >> 56) as u8);
        proof {
            lemma_le64_reassemble(value);
        }
        Ok(())
    }
}

/// Splitting a 64-bit value into its eight little-endian bytes and
/// reassembling them gives the value back.
proof fn lemma_le64_reassemble(v: u64)
    by (bit_vector)
    ensures
        ((v as u8) as u64) | ((((v >> 8) as u8) as u64) << 8) | ((((v >> 16) as u8) as u64) << 16)
            | ((((v >> 24) as u8) as u64) << 24) | ((((v >> 32) as u8) as u64) << 32) | ((((v >> 40)
            as u8) as u64) << 40) | ((((v >> 48) as u8) as u64) << 48) | ((((v >> 56) as u8) as u64)
            << 56) == v,
{
}

} // verus!
