//! The arithmetic-logic unit.
use vstd::prelude::*;

verus! {

/// The Hack ALU: inputs `x` and `y`, the six control bits, and the outputs
/// `out`, `zr` (out is zero) and `ng` (out is negative).
#[derive(Debug)]
pub struct Alu {
    pub x: u16,
    pub y: u16,
    pub zx: bool,
    pub nx: bool,
    pub zy: bool,
    pub ny: bool,
    pub f: bool,
    pub no: bool,
    pub out: u16,
    pub zr: bool,
    pub ng: bool,
}

impl Default for Alu {
    /// An ALU with all inputs, control bits and outputs at zero.
    fn default() -> (r: Self)
        ensures
            r.x == 0 && r.y == 0,
            !r.zx && !r.nx && !r.zy && !r.ny && !r.f && !r.no,
            r.out == 0 && !r.zr && !r.ng,
    {
        Alu {
            x: 0,
            y: 0,
            zx: false,
            nx: false,
            zy: false,
            ny: false,
            f: false,
            no: false,
            out: 0,
            zr: false,
            ng: false,
        }
    }
}

/// An input after the zero and negate controls: zeroed when `z`, then
/// bitwise negated when `n`.
pub open spec fn preset(v: u16, z: bool, n: bool) -> u16 {
    let v1: u16 = if z {
        0
    } else {
        v
    };
    if n {
        !v1
    } else {
        v1
    }
}

/// The ALU's output: `f` selects the sum modulo 2^16 or the bitwise and of
/// the preset inputs, and `no` negates the result bitwise.
pub open spec fn alu_output(
    x: u16,
    y: u16,
    zx: bool,
    nx: bool,
    zy: bool,
    ny: bool,
    f: bool,
    no: bool,
) -> u16 {
    let a = preset(x, zx, nx);
    let b = preset(y, zy, ny);
    let o: u16 = if f {
        ((a + b) % 0x10000) as u16
    } else {
        a & b
    };
    if no {
        !o
    } else {
        o
    }
}

/// The ALU after it computes: the inputs and control bits unchanged, `out`
/// as `alu_output` says, `zr` when out is 0, `ng` when its top bit is set.
pub open spec fn alu_computed(a: Alu) -> Alu {
    let o = alu_output(a.x, a.y, a.zx, a.nx, a.zy, a.ny, a.f, a.no);
    Alu { out: o, zr: o == 0, ng: o >= 0x8000, ..a }
}

impl Alu {
    /// Computes `out`, `zr` and `ng` from the inputs and control bits.
    pub fn compute(&mut self)
        ensures
            *final(self) == alu_computed(*old(self)),
    {
        let mut x = self.x;
        if self.zx {
            x = 0;
        }
        if self.nx {
            x = !x;
        }
        let mut y = self.y;
        if self.zy {
            y = 0;
        }
        if self.ny {
            y = !y;
        }
        let mut out: u16 = if self.f {
            x.wrapping_add(y)
        } else {
            x & y
        };
        if self.no {
            out = !out;
        }
        self.out = out;
        self.zr = out == 0;
        self.ng = (out & 0x8000) != 0;
        assert(((out & 0x8000) != 0) == (out >= 0x8000)) by (bit_vector);
    }
}

} // verus!
