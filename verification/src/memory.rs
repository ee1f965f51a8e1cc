//! The address space as the CPU sees it.

use vstd::prelude::*;

verus! {

/// A 16-bit address space. Reads may change what is behind the addresses
/// (memory-mapped registers do), so both operations take the space mutably
/// and both are described by a function on a model of it.
pub trait Memory {
    /// The mathematical content of the address space.
    type Model;

    spec fn model(&self) -> Self::Model;

    /// What must hold of the space before it is read or written.
    spec fn inv(m: Self::Model) -> bool;

    /// The byte that a read of `addr` returns.
    spec fn read_value(m: Self::Model, addr: u16) -> u8;

    /// The space after a read of `addr`.
    spec fn read_next(m: Self::Model, addr: u16) -> Self::Model;

    /// The space after `data` is written to `addr`.
    spec fn write_next(m: Self::Model, addr: u16, data: u8) -> Self::Model;

    fn read(&mut self, addr: u16) -> (value: u8)
        requires
            Self::inv(old(self).model()),
        ensures
            Self::inv(final(self).model()),
            value == Self::read_value(old(self).model(), addr),
            final(self).model() == Self::read_next(old(self).model(), addr),
    ;

    fn write(&mut self, addr: u16, data: u8)
        requires
            Self::inv(old(self).model()),
        ensures
            Self::inv(final(self).model()),
            final(self).model() == Self::write_next(old(self).model(), addr, data),
    ;
}

/// A read: the byte returned and the space it leaves behind.
pub open spec fn fetch<M: Memory>(m: M::Model, addr: u16) -> (u8, M::Model) {
    (M::read_value(m, addr), M::read_next(m, addr))
}

/// Two reads at consecutive (wrapping) addresses, low byte first.
pub open spec fn fetch_word<M: Memory>(m: M::Model, addr: u16) -> (u16, M::Model) {
    let (lo, m1) = fetch::<M>(m, addr);
    let (hi, m2) = fetch::<M>(m1, addr.wrapping_add(1));
    (crate::bits::word(lo, hi), m2)
}

/// 64 KiB of plain RAM: every address holds the byte last written to it.
pub struct FlatMemory {
    pub bytes: Vec<u8>,
}

impl FlatMemory {
    /// The memory has its 65536 bytes.
    pub open spec fn wf(&self) -> bool {
        self.bytes@.len() == 65536
    }

    /// All 65536 bytes zero.
    pub fn new() -> (mem: FlatMemory)
        ensures
            mem.wf(),
            forall|i: int| 0 <= i < 65536 ==> mem.bytes@[i] == 0,
    {
        let mut bytes: Vec<u8> = Vec::new();
        let mut i: usize = 0;
        while i < 65536
            invariant
                i <= 65536,
                bytes@.len() == i,
                forall|k: int| 0 <= k < i ==> bytes@[k] == 0,
            decreases 65536 - i,
        {
            bytes.push(0);
            i += 1;
        }
        FlatMemory { bytes }
    }

    /// Copies `data` into memory starting at `start`; bytes that would fall
    /// beyond the last address are left out.
    pub fn load(&mut self, start: u16, data: &[u8])
        requires
            old(self).wf(),
        ensures
            final(self).wf(),
            forall|i: int|
                0 <= i < 65536 ==> final(self).bytes@[i] == (if start <= i < start + data@.len() {
                    data@[i - start]
                } else {
                    old(self).bytes@[i]
                }),
    {
        let mut k: usize = 0;
        while k < data.len() && k + (start as usize) < 65536
            invariant
                self.wf(),
                k <= data@.len(),
                k + start <= 65536,
                forall|i: int|
                    0 <= i < 65536 ==> self.bytes@[i] == (if start <= i < start + k {
                        data@[i - start]
                    } else {
                        old(self).bytes@[i]
                    }),
            decreases data@.len() - k,
        {
            self.bytes[k + (start as usize)] = data[k];
            k += 1;
        }
    }

    /// The byte at `addr`.
    pub fn peek(&self, addr: u16) -> (value: u8)
        requires
            self.wf(),
        ensures
            value == self.bytes@[addr as int],
    {
        self.bytes[addr as usize]
    }
}

impl Memory for FlatMemory {
    type Model = Seq<u8>;

    open spec fn model(&self) -> Seq<u8> {
        self.bytes@
    }

    open spec fn inv(m: Seq<u8>) -> bool {
        m.len() == 65536
    }

    open spec fn read_value(m: Seq<u8>, addr: u16) -> u8 {
        m[addr as int]
    }

    open spec fn read_next(m: Seq<u8>, addr: u16) -> Seq<u8> {
        m
    }

    open spec fn write_next(m: Seq<u8>, addr: u16, data: u8) -> Seq<u8> {
        m.update(addr as int, data)
    }

    fn read(&mut self, addr: u16) -> (value: u8) {
        self.bytes[addr as usize]
    }

    fn write(&mut self, addr: u16, data: u8) {
        self.bytes[addr as usize] = data;
    }
}

} // verus!
