//! The two kinds of processing unit that blocks drive.
//!
//! A [`Generator`] produces one sample per step from its own state; a
//! [`Modifier`] turns one input sample into one output sample per step. Both
//! are deterministic state machines: what a step returns, and the state it
//! leaves, depend on the state (and the input) alone.

use crate::sample::{add_spec, mul_spec, sample_add, sample_mul, Sample, ONE};
use vstd::prelude::*;

verus! {

/// A unit that produces one sample per step from its internal state.
pub trait Generator: Sized {
    /// The sample that the next step returns.
    spec fn gen_out(&self) -> Sample;

    /// The state after one step.
    spec fn gen_next(&self) -> Self;

    /// Advances one step and returns its sample.
    fn process(&mut self) -> (r: Sample)
        ensures
            r == old(self).gen_out(),
            *final(self) == old(self).gen_next(),
    ;
}

/// A unit that consumes one input sample per step and produces one output.
pub trait Modifier: Sized {
    /// The sample that the next step returns on input `x`.
    spec fn mod_out(&self, x: Sample) -> Sample;

    /// The state after one step on input `x`.
    spec fn mod_next(&self, x: Sample) -> Self;

    /// Advances one step on input `x` and returns its sample.
    fn process(&mut self, x: Sample) -> (r: Sample)
        ensures
            r == old(self).mod_out(x),
            *final(self) == old(self).mod_next(x),
    ;
}

/// The first `n` samples that `g` produces.
pub open spec fn gen_outputs<G: Generator>(g: G, n: nat) -> Seq<Sample>
    decreases n,
{
    if n == 0 {
        Seq::empty()
    } else {
        seq![g.gen_out()] + gen_outputs(g.gen_next(), (n - 1) as nat)
    }
}

/// A generator that always produces silence.
#[derive(Clone, Copy, Debug, PartialEq, Eq)]
pub struct Zero {}

impl Zero {
    pub fn new() -> (r: Zero)
        ensures
            r == (Zero {}),
    {
        Zero {}
    }
}

impl Generator for Zero {
    open spec fn gen_out(&self) -> Sample {
        0
    }

    open spec fn gen_next(&self) -> Zero {
        *self
    }

    fn process(&mut self) -> (r: Sample) {
        0
    }
}

/// A modifier that hands its input through unchanged.
#[derive(Clone, Copy, Debug, PartialEq, Eq)]
pub struct Passthrough {}

impl Passthrough {
    pub fn new() -> (r: Passthrough)
        ensures
            r == (Passthrough {}),
    {
        Passthrough {}
    }
}

impl Modifier for Passthrough {
    open spec fn mod_out(&self, x: Sample) -> Sample {
        x
    }

    open spec fn mod_next(&self, x: Sample) -> Passthrough {
        *self
    }

    fn process(&mut self, x: Sample) -> (r: Sample) {
        x
    }
}

/// A fixed-frequency oscillator that plays a table of samples over and over.
pub struct Wavetable {
    table: Vec<Sample>,
    pos: usize,
}

impl Wavetable {
    /// The table being played.
    pub closed spec fn table(&self) -> Seq<Sample> {
        self.table@
    }

    /// The index of the sample that the next step returns.
    pub closed spec fn pos(&self) -> usize {
        self.pos
    }

    /// An oscillator that starts at the first sample of `table`.
    pub fn new(table: Vec<Sample>) -> (r: Wavetable)
        ensures
            r.table() == table@,
            r.pos() == 0,
    {
        Wavetable { table, pos: 0 }
    }
}

impl Generator for Wavetable {
    /// The sample at the current index; an empty table is silent.
    closed spec fn gen_out(&self) -> Sample {
        if self.pos < self.table@.len() {
            self.table@[self.pos as int]
        } else {
            0
        }
    }

    /// The index moves on by one and wraps round at the end of the table.
    closed spec fn gen_next(&self) -> Wavetable {
        Wavetable {
            table: self.table,
            pos: if self.pos + 1 < self.table@.len() {
                (self.pos + 1) as usize
            } else {
                0
            },
        }
    }

    fn process(&mut self) -> (r: Sample) {
        let n = self.table.len();
        let r = if self.pos < n {
            self.table[self.pos]
        } else {
            0
        };
        self.pos = if n > 0 && self.pos < n - 1 {
            self.pos + 1
        } else {
            0
        };
        r
    }
}

/// A one-pole low-pass filter: each output moves from the last one toward the
/// input by the fraction `coef / ONE`.
#[derive(Clone, Copy, Debug, PartialEq, Eq)]
pub struct OnePole {
    /// The weight of the input, in units of `1 / ONE`.
    pub coef: Sample,
    /// The weight of the last output, `ONE - coef`.
    pub keep: Sample,
    /// The last output.
    pub last: Sample,
}

impl OnePole {
    /// A filter at rest that weighs each input by `coef / ONE`.
    pub fn new(coef: Sample) -> (r: OnePole)
        requires
            0 <= coef <= ONE,
        ensures
            r == (OnePole { coef, keep: (ONE - coef) as Sample, last: 0 }),
    {
        OnePole { coef, keep: ONE - coef, last: 0 }
    }
}

impl Modifier for OnePole {
    open spec fn mod_out(&self, x: Sample) -> Sample {
        add_spec(mul_spec(self.last as int, self.keep as int) as int, mul_spec(x as int, self.coef as int) as int)
    }

    open spec fn mod_next(&self, x: Sample) -> OnePole {
        OnePole { last: self.mod_out(x), ..*self }
    }

    fn process(&mut self, x: Sample) -> (r: Sample) {
        let y = sample_add(sample_mul(self.last, self.keep), sample_mul(x, self.coef));
        self.last = y;
        y
    }
}

} // verus!
