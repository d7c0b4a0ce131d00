//! A generator block followed by a serial chain of modifier blocks, with gain
//! staging, mute and pause, and the identity that a channel gives it.
//!
//! A sound owns its blocks, so nothing else can drive one of them while the
//! sound takes a step: every block of the chain runs exactly once per step.

use crate::block::{BaeBlock, BlockModel};
use crate::sample::{mul_spec, sample_mul, Sample};
use crate::unit::{Generator, Modifier};
use vstd::prelude::*;

verus! {

/// The models of a list of blocks.
pub open spec fn block_views<G: Generator, M: Modifier>(v: Seq<BaeBlock<G, M>>) -> Seq<
    BlockModel<G, M>,
> {
    v.map_values(|b: BaeBlock<G, M>| b@)
}

/// The value that leaves the chain `mods`, from block `k` on, when `x` enters
/// block `k`: each block is primed with the running value and its step's
/// sample becomes the new running value.
pub open spec fn chain_out<G: Generator, M: Modifier>(
    mods: Seq<BlockModel<G, M>>,
    k: int,
    x: Sample,
) -> Sample
    decreases mods.len() - k,
{
    if k < 0 || k >= mods.len() {
        x
    } else {
        chain_out(mods, k + 1, mods[k].primed(x).out())
    }
}

/// The blocks `k..` of the chain `mods` after one pass that `x` enters at
/// block `k`.
pub open spec fn chain_next<G: Generator, M: Modifier>(
    mods: Seq<BlockModel<G, M>>,
    k: int,
    x: Sample,
) -> Seq<BlockModel<G, M>>
    decreases mods.len() - k,
{
    if k < 0 || k >= mods.len() {
        Seq::empty()
    } else {
        seq![mods[k].primed(x).next()] + chain_next(mods, k + 1, mods[k].primed(x).out())
    }
}

/// What a sound is, as the contracts see it.
pub struct SoundModel<G, M> {
    pub generator: BlockModel<G, M>,
    pub modifiers: Seq<BlockModel<G, M>>,
    pub input_gain: Sample,
    pub output_gain: Sample,
    pub id: Option<usize>,
    pub muted: bool,
    pub paused: bool,
}

impl<G: Generator, M: Modifier> SoundModel<G, M> {
    /// What the generator block is primed with on input `x`.
    pub open spec fn gen_input(self, x: Sample) -> Sample {
        mul_spec(x as int, self.input_gain as int)
    }

    /// The generator block's sample on input `x`.
    pub open spec fn gen_sample(self, x: Sample) -> Sample {
        self.generator.primed(self.gen_input(x)).out()
    }

    /// The value that leaves the modifier chain on input `x`, before mute and
    /// output gain.
    pub open spec fn chain_value(self, x: Sample) -> Sample {
        chain_out(self.modifiers, 0, self.gen_sample(x))
    }

    /// The sample that one step on input `x` returns.
    pub open spec fn out(self, x: Sample) -> Sample {
        if self.paused || self.muted {
            0
        } else {
            mul_spec(self.chain_value(x) as int, self.output_gain as int)
        }
    }

    /// The sound after one step on input `x`; a paused sound does not move.
    pub open spec fn next(self, x: Sample) -> Self {
        if self.paused {
            self
        } else {
            SoundModel {
                generator: self.generator.primed(self.gen_input(x)).next(),
                modifiers: chain_next(self.modifiers, 0, self.gen_sample(x)),
                ..self
            }
        }
    }

    /// The same sound with the muted flag set to `b`.
    pub open spec fn with_muted(self, b: bool) -> Self {
        SoundModel { muted: b, ..self }
    }

    /// The samples of one step per input of `xs`.
    pub open spec fn outputs(self, xs: Seq<Sample>) -> Seq<Sample>
        decreases xs.len(),
    {
        if xs.len() == 0 {
            Seq::empty()
        } else {
            seq![self.out(xs[0])] + self.next(xs[0]).outputs(xs.drop_first())
        }
    }

    /// The sound after one step per input of `xs`.
    pub open spec fn run(self, xs: Seq<Sample>) -> Self
        decreases xs.len(),
    {
        if xs.len() == 0 {
            self
        } else {
            self.next(xs[0]).run(xs.drop_first())
        }
    }
}

/// A generator block run through a list of modifier blocks in series.
pub struct BaeSound<G, M> {
    generator: BaeBlock<G, M>,
    modifier_list: Vec<BaeBlock<G, M>>,
    input_gain: Sample,
    output_gain: Sample,
    id: Option<usize>,
    is_muted: bool,
    is_paused: bool,
}

impl<G: Generator, M: Modifier> View for BaeSound<G, M> {
    type V = SoundModel<G, M>;

    closed spec fn view(&self) -> SoundModel<G, M> {
        SoundModel {
            generator: self.generator@,
            modifiers: block_views(self.modifier_list@),
            input_gain: self.input_gain,
            output_gain: self.output_gain,
            id: self.id,
            muted: self.is_muted,
            paused: self.is_paused,
        }
    }
}

impl<G: Generator, M: Modifier> BaeSound<G, M> {
    /// A sound of `generator` with no modifiers, unregistered, neither muted
    /// nor paused.
    pub fn new(input_gain: Sample, output_gain: Sample, generator: BaeBlock<G, M>) -> (r: Self)
        ensures
            r@ == (SoundModel {
                generator: generator@,
                modifiers: Seq::empty(),
                input_gain,
                output_gain,
                id: None,
                muted: false,
                paused: false,
            }),
    {
        let r = BaeSound {
            generator,
            modifier_list: Vec::new(),
            input_gain,
            output_gain,
            id: None,
            is_muted: false,
            is_paused: false,
        };
        assert(r@.modifiers =~= Seq::empty());
        r
    }

    /// Appends block `m` to the end of the modifier chain.
    pub fn add_modifier(&mut self, m: BaeBlock<G, M>)
        ensures
            final(self)@ == (SoundModel { modifiers: old(self)@.modifiers.push(m@), ..old(self)@ }),
    {
        self.modifier_list.push(m);
        assert(block_views(self.modifier_list@) =~= old(self)@.modifiers.push(m@));
    }

    /// Appends the blocks of `m_list`, in order, to the end of the modifier
    /// chain.
    pub fn extend_modifiers(&mut self, m_list: Vec<BaeBlock<G, M>>)
        ensures
            final(self)@ == (SoundModel {
                modifiers: old(self)@.modifiers + block_views(m_list@),
                ..old(self)@
            }),
    {
        let ghost added = m_list@;
        let mut m_list = m_list;
        self.modifier_list.append(&mut m_list);
        assert(block_views(self.modifier_list@) =~= old(self)@.modifiers + block_views(added));
    }

    /// The gain applied to the input of each step.
    pub fn get_input_gain(&self) -> (r: Sample)
        ensures
            r == self@.input_gain,
    {
        self.input_gain
    }

    /// The gain applied to the output of each step.
    pub fn get_output_gain(&self) -> (r: Sample)
        ensures
            r == self@.output_gain,
    {
        self.output_gain
    }

    /// Sets the gain applied to the input of each step.
    pub fn set_input_gain(&mut self, g: Sample)
        ensures
            final(self)@ == (SoundModel { input_gain: g, ..old(self)@ }),
    {
        self.input_gain = g;
    }

    /// Sets the gain applied to the output of each step.
    pub fn set_output_gain(&mut self, g: Sample)
        ensures
            final(self)@ == (SoundModel { output_gain: g, ..old(self)@ }),
    {
        self.output_gain = g;
    }

    /// Pauses a running sound, or resumes a paused one.
    pub fn toggle_pause(&mut self)
        ensures
            final(self)@ == (SoundModel { paused: !old(self)@.paused, ..old(self)@ }),
    {
        self.is_paused = !self.is_paused;
    }

    /// Whether the sound is paused.
    pub fn is_paused(&self) -> (r: bool)
        ensures
            r == self@.paused,
    {
        self.is_paused
    }

    /// Mutes an audible sound, or unmutes a muted one.
    pub fn toggle_mute(&mut self)
        ensures
            final(self)@ == old(self)@.with_muted(!old(self)@.muted),
    {
        self.is_muted = !self.is_muted;
    }

    /// Whether the sound is muted.
    pub fn is_muted(&self) -> (r: bool)
        ensures
            r == self@.muted,
    {
        self.is_muted
    }

    /// Records the identity that a channel gave the sound.
    pub fn register(&mut self, id: usize)
        ensures
            final(self)@ == (SoundModel { id: Some(id), ..old(self)@ }),
    {
        self.id = Some(id);
    }

    /// Clears the sound's identity.
    pub fn unregister(&mut self)
        ensures
            final(self)@ == (SoundModel { id: None, ..old(self)@ }),
    {
        self.id = None;
    }

    /// The identity that a channel gave the sound, if it is registered.
    pub fn get_id(&self) -> (r: Option<usize>)
        ensures
            r == self@.id,
    {
        self.id
    }

    /// Runs one step on input `input` and returns its sample.
    ///
    /// A paused sound returns silence and nothing advances. Otherwise the
    /// generator block is primed with the input times the input gain, and its
    /// sample runs through the modifier blocks in order; a muted sound then
    /// returns silence, and any other the result times the output gain.
    pub fn process(&mut self, input: Sample) -> (r: Sample)
        ensures
            r == old(self)@.out(input),
            final(self)@ == old(self)@.next(input),
    {
        if self.is_paused {
            return 0;
        }
        let ghost mods = block_views(self.modifier_list@);
        let gi = sample_mul(input, self.input_gain);
        self.generator.prime_input(gi);
        let mut out = self.generator.process();
        let ghost x0 = out;
        let ghost g_after = self.generator@;
        let ghost pre = *self;
        let n = self.modifier_list.len();
        let mut i: usize = 0;
        while i < n
            invariant
                0 <= i <= n,
                n == mods.len(),
                self.generator@ == g_after,
                self.input_gain == pre.input_gain,
                self.output_gain == pre.output_gain,
                self.id == pre.id,
                self.is_muted == pre.is_muted,
                self.is_paused == pre.is_paused,
                self.modifier_list@.len() == n,
                forall|j: int| i <= j < n ==> #[trigger] self.modifier_list@[j]@ == mods[j],
                chain_out(mods, 0, x0) == chain_out(mods, i as int, out),
                chain_next(mods, 0, x0) == block_views(self.modifier_list@).take(i as int)
                    + chain_next(mods, i as int, out),
            decreases n - i,
        {
            let ghost before = self.modifier_list@;
            let m = &mut self.modifier_list[i];
            m.prime_input(out);
            let y = m.process();
            proof {
                let nb = mods[i as int].primed(out).next();
                assert(block_views(self.modifier_list@).take(i as int + 1) =~= block_views(
                    before,
                ).take(i as int) + seq![nb]);
                assert(chain_next(mods, i as int, out) =~= seq![nb] + chain_next(
                    mods,
                    i as int + 1,
                    y,
                ));
                assert(chain_next(mods, 0, x0) =~= block_views(self.modifier_list@).take(
                    i as int + 1,
                ) + chain_next(mods, i as int + 1, y));
            }
            out = y;
            i = i + 1;
        }
        proof {
            assert(block_views(self.modifier_list@).take(n as int) =~= block_views(
                self.modifier_list@,
            ));
            assert(chain_next(mods, 0, x0) =~= block_views(self.modifier_list@));
        }
        if self.is_muted {
            0
        } else {
            sample_mul(out, self.output_gain)
        }
    }
}

/// Muting never disturbs how a sound's state evolves: a sound muted for the
/// steps of `xs` returns silence on each of them, and once unmuted it is
/// exactly the sound that ran those steps unmuted, so it goes on with the
/// same samples.
pub proof fn lemma_mute_transparency<G: Generator, M: Modifier>(
    s: SoundModel<G, M>,
    xs: Seq<Sample>,
    ys: Seq<Sample>,
)
    requires
        !s.muted,
    ensures
        s.with_muted(true).outputs(xs) == Seq::new(xs.len(), |_i: int| 0i64),
        s.with_muted(true).run(xs).with_muted(false) == s.run(xs),
        s.with_muted(true).run(xs).with_muted(false).outputs(ys) == s.run(xs).outputs(ys),
    decreases xs.len(),
{
    lemma_muted_run(s, xs);
    assert(s.with_muted(true).run(xs).with_muted(false) == s.run(xs).with_muted(false));
}

proof fn lemma_muted_run<G: Generator, M: Modifier>(s: SoundModel<G, M>, xs: Seq<Sample>)
    ensures
        s.with_muted(true).outputs(xs) == Seq::new(xs.len(), |_i: int| 0i64),
        s.with_muted(true).run(xs) == s.run(xs).with_muted(true),
        s.run(xs).muted == s.muted,
    decreases xs.len(),
{
    if xs.len() > 0 {
        let x = xs[0];
        assert(s.with_muted(true).next(x) == s.next(x).with_muted(true));
        lemma_muted_run(s.next(x), xs.drop_first());
        assert(s.with_muted(true).outputs(xs) =~= Seq::new(xs.len(), |_i: int| 0i64));
    } else {
        assert(s.with_muted(true).outputs(xs) =~= Seq::new(xs.len(), |_i: int| 0i64));
    }
}

/// A paused sound stands still: steps taken while paused return silence and
/// leave it exactly as it was, so on resuming it continues where it stopped.
pub proof fn lemma_pause_freezes<G: Generator, M: Modifier>(s: SoundModel<G, M>, xs: Seq<Sample>)
    requires
        s.paused,
    ensures
        s.outputs(xs) == Seq::new(xs.len(), |_i: int| 0i64),
        s.run(xs) == s,
    decreases xs.len(),
{
    if xs.len() > 0 {
        lemma_pause_freezes(s, xs.drop_first());
    }
    assert(s.outputs(xs) =~= Seq::new(xs.len(), |_i: int| 0i64));
}

} // verus!
