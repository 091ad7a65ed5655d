use vstd::prelude::*;
use crate::memory::page_successor;
use crate::memory::successor;
use crate::memory::word;
use crate::memory::make_word;
use crate::memory::next_in_page;
use crate::memory::PpuMem;
use crate::memory::VramState;

verus! {

/// A byte-addressed store that reading leaves as it is.
///
/// The view of the store is its whole state. `peek` is the byte that a read
/// returns and `stored` the state after a write.
pub trait Access: View + Sized {
    spec fn peek(state: Self::V, addr: u16) -> u8;

    spec fn stored(state: Self::V, addr: u16, value: u8) -> Self::V;

    /// Reads one byte.
    fn read(&self, addr: u16) -> (value: u8)
        ensures
            value == Self::peek(self@, addr),
    ;

    /// Writes one byte.
    fn write(&mut self, addr: u16, value: u8)
        ensures
            final(self)@ == Self::stored(old(self)@, addr, value),
    ;

    /// Reads the little-endian word at `addr` and the address after it.
    fn read16(&self, addr: u16) -> (value: u16)
        ensures
            value == word(Self::peek(self@, addr), Self::peek(self@, successor(addr))),
    {
        make_word(self.read(addr), self.read(addr.wrapping_add(1)))
    }

    /// Reads a little-endian word whose high byte comes from the same page
    /// as its low byte.
    fn read16_wrapped(&self, addr: u16) -> (value: u16)
        ensures
            value == word(Self::peek(self@, addr), Self::peek(self@, page_successor(addr))),
    {
        let wrapped = next_in_page(addr);
        make_word(self.read(addr), self.read(wrapped))
    }
}

impl Access for PpuMem {
    open spec fn peek(state: VramState, addr: u16) -> u8 {
        state.peek(addr)
    }

    open spec fn stored(state: VramState, addr: u16, value: u8) -> VramState {
        state.stored(addr, value)
    }

    fn read(&self, addr: u16) -> (value: u8) {
        self.peek_at(addr)
    }

    fn write(&mut self, addr: u16, value: u8) {
        self.store_at(addr, value);
    }
}

} // verus!
