//! A 16-bit register.
use vstd::prelude::*;

verus! {

/// A 16-bit register: it keeps its value until a tick loads a new one.
#[derive(Debug)]
pub struct Register {
    pub value: u16,
}

impl Default for Register {
    /// A register holding 0.
    fn default() -> (r: Self)
        ensures
            r.value == 0,
    {
        Register { value: 0 }
    }
}

/// The value a register holds after a tick.
pub open spec fn register_next(value: u16, input: u16, load: bool) -> u16 {
    if load {
        input
    } else {
        value
    }
}

impl Register {
    /// One clock cycle: loads `input` when `load` is set, and returns the
    /// value held afterwards.
    pub fn tick(&mut self, input: u16, load: bool) -> (out: u16)
        ensures
            final(self).value == register_next(old(self).value, input, load),
            out == final(self).value,
    {
        if load {
            self.value = input;
        }
        self.value
    }
}

/// A tick with load set makes the register hold the input; without it the
/// register keeps its value.
pub proof fn lemma_register_load(value: u16, input: u16)
    ensures
        register_next(value, input, true) == input,
        register_next(value, input, false) == value,
{
}

} // verus!
