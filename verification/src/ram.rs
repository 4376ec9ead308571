//! Random-access memory.
use vstd::prelude::*;

verus! {

/// A memory of 16-bit words, addressed from 0.
#[derive(Debug)]
pub struct Ram {
    pub data: Vec<u16>,
}

/// The memory contents and the output word after a tick: a load writes
/// `input` at `address`, and the output is the word at `address` afterwards.
pub open spec fn ram_next(data: Seq<u16>, input: u16, address: int, load: bool) -> (Seq<u16>, u16) {
    let after = if load {
        data.update(address, input)
    } else {
        data
    };
    (after, after[address])
}

impl Ram {
    /// A memory of `size` words, all 0.
    pub fn new(size: usize) -> (r: Self)
        ensures
            r.data@ == Seq::new(size as nat, |i: int| 0u16),
    {
        let mut data: Vec<u16> = Vec::new();
        let mut i: usize = 0;
        while i < size
            invariant
                i <= size,
                data@ == Seq::new(i as nat, |j: int| 0u16),
            decreases size - i,
        {
            data.push(0);
            i = i + 1;
            assert(data@ =~= Seq::new(i as nat, |j: int| 0u16));
        }
        Ram { data }
    }

    /// One clock cycle at `address`: writes `input` there when `load` is set,
    /// and returns the word stored there afterwards.
    pub fn tick(&mut self, input: u16, address: usize, load: bool) -> (out: u16)
        requires
            address < old(self).data.len(),
        ensures
            (final(self).data@, out) == ram_next(old(self).data@, input, address as int, load),
    {
        if load {
            self.data.set(address, input);
        }
        self.data[address]
    }
}

/// A word written to memory is what a later read at the same address gives,
/// and a write leaves every other address as it was.
pub proof fn lemma_ram_read_after_write(
    data: Seq<u16>,
    input: u16,
    address: int,
    other_input: u16,
    other: int,
)
    requires
        0 <= address < data.len(),
        0 <= other < data.len(),
    ensures
        ram_next(ram_next(data, input, address, true).0, other_input, address, false).1 == input,
        other != address ==> ram_next(data, input, address, true).0[other] == data[other],
        ram_next(data, input, address, true).0.len() == data.len(),
{
}

/// A tick without load changes nothing.
pub proof fn lemma_ram_read_keeps(data: Seq<u16>, input: u16, address: int)
    requires
        0 <= address < data.len(),
    ensures
        ram_next(data, input, address, false) == (data, data[address]),
{
}

} // verus!
