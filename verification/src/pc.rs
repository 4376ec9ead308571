//! The program counter.
use vstd::prelude::*;

verus! {

/// The program counter: it can be reset, loaded, or incremented.
#[derive(Debug)]
pub struct Pc {
    pub value: u16,
}

impl Default for Pc {
    /// A counter at 0.
    fn default() -> (r: Self)
        ensures
            r.value == 0,
    {
        Pc { value: 0 }
    }
}

/// The counter's value after a tick: reset wins over load, load wins over
/// increment, and the increment wraps around from 0xFFFF to 0.
pub open spec fn pc_next(value: u16, input: u16, load: bool, inc: bool, reset: bool) -> u16 {
    if reset {
        0
    } else if load {
        input
    } else if inc {
        ((value + 1) % 0x10000) as u16
    } else {
        value
    }
}

impl Pc {
    /// One clock cycle; returns the value held afterwards.
    pub fn tick(&mut self, input: u16, load: bool, inc: bool, reset: bool) -> (out: u16)
        ensures
            final(self).value == pc_next(old(self).value, input, load, inc, reset),
            out == final(self).value,
    {
        if reset {
            self.value = 0;
        } else if load {
            self.value = input;
        } else if inc {
            self.value = self.value.wrapping_add(1);
        }
        self.value
    }
}

/// How the control inputs decide the counter's next value: a reset clears
/// it, otherwise a load takes the input, otherwise an increment adds one
/// (0xFFFF wraps to 0), and with no control input set it keeps its value.
pub proof fn lemma_pc_controls(value: u16, input: u16, load: bool, inc: bool)
    ensures
        pc_next(value, input, load, inc, true) == 0,
        pc_next(value, input, true, inc, false) == input,
        value < 0xffff ==> pc_next(value, input, false, true, false) == value + 1,
        pc_next(0xffff, input, false, true, false) == 0,
        pc_next(value, input, false, false, false) == value,
{
}

} // verus!
