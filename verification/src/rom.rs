//! Read-only memory holding a program.
use vstd::prelude::*;

verus! {

/// A read-only memory of 16-bit words.
pub struct Rom {
    pub data: Vec<u16>,
}

/// The word a read at `address` gives: the stored word, or 0 past the end.
pub open spec fn rom_word(data: Seq<u16>, address: int) -> u16 {
    if address >= data.len() {
        0
    } else {
        data[address]
    }
}

impl Rom {
    /// A memory holding `program`.
    pub fn new(program: Vec<u16>) -> (r: Self)
        ensures
            r.data@ == program@,
    {
        Rom { data: program }
    }

    /// The word at `address`, or 0 when `address` is past the end.
    pub fn read(&self, address: usize) -> (w: u16)
        ensures
            w == rom_word(self.data@, address as int),
    {
        if address >= self.data.len() {
            return 0;
        }
        self.data[address]
    }
}

/// A read inside the program gives the stored word; a read past its end
/// gives 0.
pub proof fn lemma_rom_read(data: Seq<u16>, address: int)
    requires
        0 <= address,
    ensures
        address < data.len() ==> rom_word(data, address) == data[address],
        address >= data.len() ==> rom_word(data, address) == 0,
{
}

} // verus!
