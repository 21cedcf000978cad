//! The byte-wide output device and the memory user buffers are read from.
use vstd::prelude::*;

verus! {

/// Physical address of the output device's transmit register.
pub const UART_ADDR: u64 = 0x1000_0000;

/// The output device: a single-byte sink. `sent` holds every byte it has
/// received, oldest first.
#[derive(Debug)]
pub struct Uart {
    pub sent: Vec<u8>,
}

impl Uart {
    /// A device that has received nothing yet.
    pub fn new() -> (r: Uart)
        ensures
            r.sent@ == Seq::<u8>::empty(),
    {
        Uart { sent: Vec::new() }
    }

    /// Stores one byte to the transmit register.
    pub fn emit(&mut self, b: u8)
        ensures
            final(self).sent@ == old(self).sent@.push(b),
    {
        self.sent.push(b);
    }

    /// Stores each byte of `bytes` in order.
    pub fn emit_all(&mut self, bytes: &[u8])
        ensures
            final(self).sent@ == old(self).sent@ + bytes@,
    {
        let mut i: usize = 0;
        while i < bytes.len()
            invariant
                i <= bytes@.len(),
                self.sent@ == old(self).sent@ + bytes@.subrange(0, i as int),
            decreases bytes@.len() - i,
        {
            self.emit(bytes[i]);
            i = i + 1;
            assert(bytes@.subrange(0, i as int) =~= bytes@.subrange(0, i - 1 as int).push(
                bytes@[i - 1],
            ));
        }
        assert(bytes@.subrange(0, bytes@.len() as int) =~= bytes@);
    }
}

/// A span of physical memory starting at address `base`.
#[derive(Debug)]
pub struct Memory {
    pub base: u64,
    pub bytes: Vec<u8>,
}

/// The mathematical contents of a memory span.
pub ghost struct MemoryState {
    pub base: u64,
    pub bytes: Seq<u8>,
}

impl View for Memory {
    type V = MemoryState;

    open spec fn view(&self) -> MemoryState {
        MemoryState { base: self.base, bytes: self.bytes@ }
    }
}

impl MemoryState {
    /// Whether `[addr, addr + len)` lies inside the span, which itself ends
    /// within the address space.
    pub open spec fn holds(self, addr: u64, len: u64) -> bool {
        &&& self.base + self.bytes.len() <= u64::MAX + 1
        &&& self.base <= addr
        &&& addr + len <= self.base + self.bytes.len()
    }

    /// The bytes stored at `[addr, addr + len)`.
    pub open spec fn range(self, addr: u64, len: u64) -> Seq<u8> {
        self.bytes.subrange(addr - self.base, addr - self.base + len)
    }
}

impl Memory {
    /// A span at `base` holding `bytes`.
    pub fn new(base: u64, bytes: Vec<u8>) -> (r: Memory)
        requires
            base + bytes@.len() <= u64::MAX,
        ensures
            r@ == (MemoryState { base, bytes: bytes@ }),
    {
        Memory { base, bytes }
    }

    /// Loads the byte at `addr`.
    pub fn load(&self, addr: u64) -> (r: u8)
        requires
            self@.holds(addr, 1),
        ensures
            r == self@.bytes[addr - self@.base],
    {
        let off = addr - self.base;
        let n = self.bytes.len();
        assert(off < n);
        self.bytes[off as usize]
    }
}

} // verus!
