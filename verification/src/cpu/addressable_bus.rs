//! The bus that the processor reads and writes: 65536 byte cells.

use vstd::prelude::*;

verus! {

/// The number of cells on the bus.
pub const BUS_SIZE: usize = 0x1_0000;

/// The address `distance` cells from `addr`, wrapping around the ends of the
/// address space.
pub open spec fn advance(addr: u16, distance: int) -> u16 {
    ((addr + distance) % 0x1_0000) as u16
}

/// The address that follows `addr`, wrapping from the last cell to the first.
pub open spec fn next_address(addr: u16) -> u16 {
    advance(addr, 1)
}

/// The low byte of `word`.
pub open spec fn low_byte(word: u16) -> u8 {
    (word % 0x100) as u8
}

/// The high byte of `word`.
pub open spec fn high_byte(word: u16) -> u8 {
    (word / 0x100) as u8
}

/// The word made of the two bytes.
pub open spec fn word_of(low: u8, high: u8) -> u16 {
    (low + 0x100 * high) as u16
}

/// A byte-addressable store. An implementation supplies `get` and `set`;
/// word access and bulk loading are derived from them.
pub trait DataBus {
    /// The byte held at `addr`.
    spec fn byte_at(&self, addr: u16) -> u8;

    /// Reads the cell at `addr`.
    fn get(&self, addr: u16) -> (byte: u8)
        ensures
            byte == self.byte_at(addr),
    ;

    /// Writes `x` to the cell at `addr` and leaves every other cell alone.
    fn set(&mut self, addr: u16, x: u8)
        ensures
            forall|a: u16|
                #[trigger] final(self).byte_at(a) == if a == addr {
                    x
                } else {
                    old(self).byte_at(a)
                },
    ;

    /// Writes `x` little-endian: its low byte at `offset`, then its high byte
    /// in the following cell.
    fn set_word(&mut self, offset: u16, x: u16)
        ensures
            forall|a: u16|
                #[trigger] final(self).byte_at(a) == if a == next_address(offset) {
                    high_byte(x)
                } else if a == offset {
                    low_byte(x)
                } else {
                    old(self).byte_at(a)
                },
    {
        self.set(offset, (x % 0x100) as u8);
        self.set(offset.wrapping_add(1), (x / 0x100) as u8);
    }

    /// Reads the little-endian word whose low byte is at `offset`.
    fn get_word(&self, offset: u16) -> (word: u16)
        ensures
            word == word_of(self.byte_at(offset), self.byte_at(next_address(offset))),
    {
        let ll = self.get(offset);
        let hh = self.get(offset.wrapping_add(1));
        (hh as u16) * 0x100 + ll as u16
    }

    /// Copies `program` onto the bus from `offset` on. Bytes that would fall
    /// behind the last cell are dropped.
    fn load(&mut self, offset: u16, program: &[u8])
        ensures
            forall|a: u16|
                #[trigger] final(self).byte_at(a) == if offset <= a < offset + program@.len() {
                    program@[a - offset]
                } else {
                    old(self).byte_at(a)
                },
    {
        let mut i: usize = 0;
        let room: usize = BUS_SIZE - offset as usize;
        while i < program.len() && i < room
            invariant
                room == 0x1_0000 - offset,
                i <= program.len(),
                i <= room,
                forall|a: u16|
                    #[trigger] self.byte_at(a) == if offset <= a < offset + i {
                        program@[a - offset]
                    } else {
                        old(self).byte_at(a)
                    },
            decreases program.len() - i,
        {
            self.set((offset as usize + i) as u16, program[i]);
            i += 1;
        }
    }
}

/// Everything a bus holds, as a sequence indexed by address.
pub open spec fn image<B: DataBus + ?Sized>(bus: &B) -> Seq<u8> {
    Seq::new(0x1_0000, |a: int| bus.byte_at(a as u16))
}

/// The little-endian word whose low byte is at `addr` and whose high byte is
/// in the following cell.
pub open spec fn word_at(memory: Seq<u8>, addr: u16) -> u16 {
    word_of(memory[addr as int], memory[next_address(addr) as int])
}

/// `memory` after `word` is written little-endian at `addr`.
pub open spec fn word_stored(memory: Seq<u8>, addr: u16, word: u16) -> Seq<u8> {
    memory.update(addr as int, low_byte(word)).update(next_address(addr) as int, high_byte(word))
}

/// `memory` after `program` is copied in from `offset` on. Bytes that would
/// fall behind the last cell are dropped.
pub open spec fn loaded(memory: Seq<u8>, offset: u16, program: Seq<u8>) -> Seq<u8> {
    Seq::new(
        memory.len(),
        |a: int|
            if offset <= a < offset + program.len() {
                program[a - offset]
            } else {
                memory[a]
            },
    )
}

/// A bus that differs from `before` in the one cell `addr`, where it holds
/// `x`, has the image of `before` updated at `addr`.
pub proof fn lemma_set_updates_image<B: DataBus + ?Sized>(before: &B, after: &B, addr: u16, x: u8)
    requires
        forall|a: u16|
            #[trigger] after.byte_at(a) == if a == addr {
                x
            } else {
                before.byte_at(a)
            },
    ensures
        image(after) == image(before).update(addr as int, x),
{
    assert(image(after) =~= image(before).update(addr as int, x));
}

} // verus!
