//! A processing node pairing one generator with one modifier.

use crate::sample::{add_spec, mul_spec, sample_add, sample_mul, Sample};
use crate::unit::{gen_outputs, Generator, Modifier};
use vstd::prelude::*;

verus! {

/// The rule by which a block combines its generator's and modifier's samples.
#[derive(Clone, Copy, Debug, PartialEq, Eq)]
pub enum Interactor {
    /// The product of the two samples (amplitude modulation).
    Multiply,
    /// The generator's sample; the modifier's is dropped.
    GeneratorPassthrough,
    /// The modifier's sample; the generator's is dropped.
    ModifierPassthrough,
}

impl Interactor {
    /// What this rule makes of generator sample `g` and modifier sample `m`.
    pub open spec fn combine_spec(self, g: Sample, m: Sample) -> Sample {
        match self {
            Interactor::Multiply => mul_spec(g as int, m as int),
            Interactor::GeneratorPassthrough => g,
            Interactor::ModifierPassthrough => m,
        }
    }

    /// Combines generator sample `g` and modifier sample `m`.
    pub fn combine(self, g: Sample, m: Sample) -> (r: Sample)
        ensures
            r == self.combine_spec(g, m),
    {
        match self {
            Interactor::Multiply => sample_mul(g, m),
            Interactor::GeneratorPassthrough => g,
            Interactor::ModifierPassthrough => m,
        }
    }
}

/// What a block is, as the contracts see it.
pub struct BlockModel<G, M> {
    /// The generator; `None` stands for a silent source.
    pub g: Option<G>,
    /// The modifier; `None` stands for one that hands its input through.
    pub m: Option<M>,
    /// How the two samples of a step are combined.
    pub i: Interactor,
    /// The input primed since the last step.
    pub input: Sample,
}

impl<G: Generator, M: Modifier> BlockModel<G, M> {
    /// The generator's sample for the next step.
    pub open spec fn gen_sample(self) -> Sample {
        match self.g {
            Some(g) => g.gen_out(),
            None => 0,
        }
    }

    /// The modifier's sample for the next step, on the primed input.
    pub open spec fn mod_sample(self) -> Sample {
        match self.m {
            Some(m) => m.mod_out(self.input),
            None => self.input,
        }
    }

    /// The sample that the next step returns.
    pub open spec fn out(self) -> Sample {
        self.i.combine_spec(self.gen_sample(), self.mod_sample())
    }

    /// The block after one step: both units advanced, the input reset.
    pub open spec fn next(self) -> Self {
        BlockModel {
            g: match self.g {
                Some(g) => Some(g.gen_next()),
                None => None,
            },
            m: match self.m {
                Some(m) => Some(m.mod_next(self.input)),
                None => None,
            },
            i: self.i,
            input: 0,
        }
    }

    /// The block after `x` is primed into its input.
    pub open spec fn primed(self, x: Sample) -> Self {
        BlockModel { input: add_spec(self.input as int, x as int), ..self }
    }

    /// The samples of `n` steps with nothing primed in between.
    pub open spec fn outputs(self, n: nat) -> Seq<Sample>
        decreases n,
    {
        if n == 0 {
            Seq::empty()
        } else {
            seq![self.out()] + self.next().outputs((n - 1) as nat)
        }
    }
}

/// A generator and a modifier under an [`Interactor`], with the input that
/// has been primed since the last step.
pub struct BaeBlock<G, M> {
    g: Option<G>,
    m: Option<M>,
    i: Interactor,
    input: Sample,
}

impl<G: Generator, M: Modifier> View for BaeBlock<G, M> {
    type V = BlockModel<G, M>;

    closed spec fn view(&self) -> BlockModel<G, M> {
        BlockModel { g: self.g, m: self.m, i: self.i, input: self.input }
    }
}

impl<G: Generator, M: Modifier> BaeBlock<G, M> {
    /// A block of generator `g` and modifier `m` under interactor `i`.
    pub fn new(g: G, m: M, i: Interactor) -> (r: Self)
        ensures
            r@ == (BlockModel { g: Some(g), m: Some(m), i, input: 0 }),
    {
        BaeBlock { g: Some(g), m: Some(m), i, input: 0 }
    }

    /// A block whose output is the output of generator `g`.
    pub fn from_generator(g: G) -> (r: Self)
        ensures
            r@ == (BlockModel::<G, M> {
                g: Some(g),
                m: None,
                i: Interactor::GeneratorPassthrough,
                input: 0,
            }),
    {
        BaeBlock { g: Some(g), m: None, i: Self::generator_passthrough(), input: 0 }
    }

    /// A block whose output is the output of modifier `m` on the primed input.
    pub fn from_modifier(m: M) -> (r: Self)
        ensures
            r@ == (BlockModel::<G, M> {
                g: None,
                m: Some(m),
                i: Interactor::ModifierPassthrough,
                input: 0,
            }),
    {
        BaeBlock { g: None, m: Some(m), i: Self::modifier_passthrough(), input: 0 }
    }

    /// The interactor that multiplies the two samples.
    pub fn default_interactor() -> (r: Interactor)
        ensures
            r == Interactor::Multiply,
    {
        Interactor::Multiply
    }

    /// The interactor that keeps the generator's sample.
    pub fn generator_passthrough() -> (r: Interactor)
        ensures
            r == Interactor::GeneratorPassthrough,
    {
        Interactor::GeneratorPassthrough
    }

    /// The interactor that keeps the modifier's sample.
    pub fn modifier_passthrough() -> (r: Interactor)
        ensures
            r == Interactor::ModifierPassthrough,
    {
        Interactor::ModifierPassthrough
    }

    /// The generator, if the block has one.
    pub fn get_g(&self) -> (r: &Option<G>)
        ensures
            *r == self@.g,
    {
        &self.g
    }

    /// The modifier, if the block has one.
    pub fn get_m(&self) -> (r: &Option<M>)
        ensures
            *r == self@.m,
    {
        &self.m
    }

    /// Mutable access to the generator, if the block has one; the block keeps
    /// whatever the generator becomes.
    pub fn get_g_mut(&mut self) -> (r: Option<&mut G>)
        ensures
            old(self)@.g.is_none() ==> r.is_none() && final(self)@ == old(self)@,
            old(self)@.g.is_some() ==> r.is_some() && *r.unwrap() == old(self)@.g.unwrap()
                && final(self)@ == (BlockModel { g: Some(*final(r.unwrap())), ..old(self)@ }),
    {
        self.g.as_mut()
    }

    /// Mutable access to the modifier, if the block has one; the block keeps
    /// whatever the modifier becomes.
    pub fn get_m_mut(&mut self) -> (r: Option<&mut M>)
        ensures
            old(self)@.m.is_none() ==> r.is_none() && final(self)@ == old(self)@,
            old(self)@.m.is_some() ==> r.is_some() && *r.unwrap() == old(self)@.m.unwrap()
                && final(self)@ == (BlockModel { m: Some(*final(r.unwrap())), ..old(self)@ }),
    {
        self.m.as_mut()
    }

    /// Adds `x` to the input of the next step.
    pub fn prime_input(&mut self, x: Sample)
        ensures
            final(self)@ == old(self)@.primed(x),
    {
        self.input = sample_add(self.input, x);
    }

    /// Runs one step: the generator, the modifier on the primed input, and the
    /// interactor on both; the input is reset to zero.
    pub fn process(&mut self) -> (r: Sample)
        ensures
            r == old(self)@.out(),
            final(self)@ == old(self)@.next(),
    {
        let gs: Sample = match &mut self.g {
            Some(g) => g.process(),
            None => 0,
        };
        let ms: Sample = match &mut self.m {
            Some(m) => m.process(self.input),
            None => self.input,
        };
        let y = self.i.combine(gs, ms);
        self.input = 0;
        y
    }
}

/// A block built from a generator alone produces, step after step, exactly
/// the samples that the generator produces when called directly.
pub proof fn lemma_passthrough_equivalence<G: Generator, M: Modifier>(g: G, n: nat)
    ensures
        (BlockModel::<G, M> {
            g: Some(g),
            m: None,
            i: Interactor::GeneratorPassthrough,
            input: 0,
        }).outputs(n) == gen_outputs(g, n),
    decreases n,
{
    let b = BlockModel::<G, M> { g: Some(g), m: None, i: Interactor::GeneratorPassthrough, input: 0 };
    if n > 0 {
        lemma_passthrough_equivalence::<G, M>(g.gen_next(), (n - 1) as nat);
        assert(b.next() == BlockModel::<G, M> {
            g: Some(g.gen_next()),
            m: None,
            i: Interactor::GeneratorPassthrough,
            input: 0,
        });
    }
}

/// A step taken with nothing primed is the same as one taken after priming
/// zero: priming zero leaves the block as it is.
pub proof fn lemma_input_reset<G: Generator, M: Modifier>(b: BlockModel<G, M>)
    ensures
        b.primed(0) == b,
        b.primed(0).out() == b.out(),
        b.primed(0).next() == b.next(),
        b.next().input == 0,
{
    assert(add_spec(b.input as int, 0) == b.input);
}

} // verus!
