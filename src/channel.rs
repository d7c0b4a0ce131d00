//! A mixer that sums its registered sounds into a time-bounded buffer.
//!
//! The channel owns the sounds it mixes, each under the identity it gave it;
//! durations are counted in nanoseconds.

use crate::sample::{add_spec, clamp, clamp_wide, lemma_mul_one, mul_spec, sample_mul, Sample, ONE};
use crate::sound::{BaeSound, SoundModel};
use crate::unit::{Generator, Modifier};
use vstd::prelude::*;

verus! {

/// Nanoseconds in one second.
pub const NANOS_PER_SEC: u64 = 1_000_000_000;

/// The processing window of a new channel, in nanoseconds (10 ms).
pub const DEFAULT_PROCESS_NANOS: u64 = 10_000_000;

/// The number of whole samples in `nanos` nanoseconds at `sample_rate` samples
/// per second.
pub open spec fn window_len(nanos: int, sample_rate: int) -> int {
    nanos * sample_rate / (NANOS_PER_SEC as int)
}

/// The sum of what every sound of `sounds` returns for one step on silence.
pub open spec fn mix_sum<G: Generator, M: Modifier>(sounds: Seq<SoundModel<G, M>>) -> int
    decreases sounds.len(),
{
    if sounds.len() == 0 {
        0
    } else {
        mix_sum(sounds.drop_last()) + sounds.last().out(0) as int
    }
}

/// One mixed slot: the sum of `sounds`, limited to a sample, times `gain`.
pub open spec fn mix_slot<G: Generator, M: Modifier>(
    sounds: Seq<SoundModel<G, M>>,
    gain: Sample,
) -> Sample {
    mul_spec(clamp(mix_sum(sounds)), gain as int)
}

/// Every sound of `sounds` after one step on silence.
pub open spec fn step_all<G: Generator, M: Modifier>(sounds: Seq<SoundModel<G, M>>) -> Seq<
    SoundModel<G, M>,
> {
    Seq::new(sounds.len(), |i: int| sounds[i].next(0))
}

/// Every sound of `sounds` after `n` steps on silence.
pub open spec fn advance_all<G: Generator, M: Modifier>(
    sounds: Seq<SoundModel<G, M>>,
    n: nat,
) -> Seq<SoundModel<G, M>>
    decreases n,
{
    if n == 0 {
        sounds
    } else {
        step_all(advance_all(sounds, (n - 1) as nat))
    }
}

/// Sound `s` after `n` steps on silence.
pub open spec fn iterate<G: Generator, M: Modifier>(s: SoundModel<G, M>, n: nat) -> SoundModel<
    G,
    M,
>
    decreases n,
{
    if n == 0 {
        s
    } else {
        iterate(s, (n - 1) as nat).next(0)
    }
}

/// The models of a list of sounds.
pub open spec fn sound_views<G: Generator, M: Modifier>(v: Seq<BaeSound<G, M>>) -> Seq<
    SoundModel<G, M>,
> {
    v.map_values(|s: BaeSound<G, M>| s@)
}

/// What a channel is, as the contracts see it.
pub struct ChannelModel<G, M> {
    pub sample_rate: u64,
    pub output: Seq<Sample>,
    /// The identities of the mixed sounds, one per sound, in the order in
    /// which they were added.
    pub ids: Seq<usize>,
    pub sounds: Seq<SoundModel<G, M>>,
    pub gain: Sample,
    /// The identity that the next added sound receives.
    pub id_counter: usize,
}

impl<G: Generator, M: Modifier> ChannelModel<G, M> {
    /// Identities strictly increase and stay below the counter, and each mixed
    /// sound carries its own identity.
    pub open spec fn wf(self) -> bool {
        &&& self.ids.len() == self.sounds.len()
        &&& forall|i: int, j: int|
            0 <= i < j < self.ids.len() ==> self.ids[i] < self.ids[j]
        &&& forall|i: int| 0 <= i < self.ids.len() ==> self.ids[i] < self.id_counter
        &&& forall|i: int|
            0 <= i < self.ids.len() ==> #[trigger] self.sounds[i].id == Some(self.ids[i])
    }

    /// The channel after one pass: each slot of the buffer holds the mix of
    /// one step of every sound, and every sound has taken one step per slot.
    pub open spec fn processed(self) -> Self {
        ChannelModel {
            output: Seq::new(
                self.output.len(),
                |j: int| mix_slot(advance_all(self.sounds, j as nat), self.gain),
            ),
            sounds: advance_all(self.sounds, self.output.len()),
            ..self
        }
    }

    /// The channel after `s` is added under the next identity.
    pub open spec fn added(self, s: SoundModel<G, M>) -> Self {
        ChannelModel {
            ids: self.ids.push(self.id_counter),
            sounds: self.sounds.push(SoundModel { id: Some(self.id_counter), ..s }),
            id_counter: (self.id_counter + 1) as usize,
            ..self
        }
    }

    /// The channel after the sound of identity `id`, if any, is removed.
    pub open spec fn removed(self, id: usize) -> Self {
        if self.ids.contains(id) {
            let k = choose|k: int| 0 <= k < self.ids.len() && self.ids[k] == id;
            ChannelModel { ids: self.ids.remove(k), sounds: self.sounds.remove(k), ..self }
        } else {
            self
        }
    }

    /// The channel with a buffer of `nanos` nanoseconds of silence.
    pub open spec fn with_process_time(self, nanos: u64) -> Self {
        ChannelModel {
            output: Seq::new(window_len(nanos as int, self.sample_rate as int) as nat, |_i: int| 0i64),
            ..self
        }
    }
}

/// A mixer of registered sounds.
pub struct BaeChannel<G, M> {
    sample_rate: u64,
    output: Vec<Sample>,
    ids: Vec<usize>,
    sounds: Vec<BaeSound<G, M>>,
    gain: Sample,
    id_counter: usize,
}

impl<G: Generator, M: Modifier> View for BaeChannel<G, M> {
    type V = ChannelModel<G, M>;

    closed spec fn view(&self) -> ChannelModel<G, M> {
        ChannelModel {
            sample_rate: self.sample_rate,
            output: self.output@,
            ids: self.ids@,
            sounds: sound_views(self.sounds@),
            gain: self.gain,
            id_counter: self.id_counter,
        }
    }
}

/// A buffer of `n` silent samples.
fn silence(n: usize) -> (r: Vec<Sample>)
    ensures
        r@ == Seq::new(n as nat, |_i: int| 0i64),
{
    let mut v: Vec<Sample> = Vec::with_capacity(n);
    let mut i: usize = 0;
    while i < n
        invariant
            i <= n,
            v@ == Seq::new(i as nat, |_i: int| 0i64),
        decreases n - i,
    {
        v.push(0);
        i = i + 1;
        assert(v@ =~= Seq::new(i as nat, |_i: int| 0i64));
    }
    v
}

/// The number of whole samples in `nanos` nanoseconds at `sample_rate`.
fn window(nanos: u64, sample_rate: u64) -> (r: usize)
    requires
        window_len(nanos as int, sample_rate as int) <= usize::MAX,
    ensures
        r == window_len(nanos as int, sample_rate as int),
{
    proof {
        assert(0 <= nanos as int * sample_rate as int <= u64::MAX as int * u64::MAX as int)
            by (nonlinear_arith);
    }
    let p: u128 = nanos as u128 * sample_rate as u128;
    (p / (NANOS_PER_SEC as u128)) as usize
}

impl<G: Generator, M: Modifier> BaeChannel<G, M> {
    /// A channel of gain `gain` at `sample_rate` samples per second, with no
    /// sounds and a silent buffer of 10 ms.
    pub fn new(gain: Sample, sample_rate: u64) -> (r: Self)
        requires
            window_len(DEFAULT_PROCESS_NANOS as int, sample_rate as int) <= usize::MAX,
        ensures
            r@.wf(),
            r@ == (ChannelModel::<G, M> {
                sample_rate,
                output: Seq::new(
                    window_len(DEFAULT_PROCESS_NANOS as int, sample_rate as int) as nat,
                    |_i: int| 0i64,
                ),
                ids: Seq::empty(),
                sounds: Seq::empty(),
                gain,
                id_counter: 0,
            }),
    {
        let n = window(DEFAULT_PROCESS_NANOS, sample_rate);
        let r = BaeChannel {
            sample_rate,
            output: silence(n),
            ids: Vec::new(),
            sounds: Vec::new(),
            gain,
            id_counter: 0,
        };
        assert(r@.sounds =~= Seq::empty());
        r
    }

    /// Hands out the next identity.
    fn get_id(&mut self) -> (r: usize)
        requires
            old(self).id_counter < usize::MAX,
        ensures
            r == old(self).id_counter,
            *final(self) == (BaeChannel { id_counter: (r + 1) as usize, ..*old(self) }),
    {
        let old = self.id_counter;
        self.id_counter = self.id_counter + 1;
        old
    }

    /// Replaces the buffer by `nanos` nanoseconds of silence, truncated to
    /// whole samples.
    pub fn set_process_time(&mut self, nanos: u64)
        requires
            window_len(nanos as int, old(self)@.sample_rate as int) <= usize::MAX,
        ensures
            final(self)@ == old(self)@.with_process_time(nanos),
    {
        let n = window(nanos, self.sample_rate);
        self.output = silence(n);
    }

    /// The buffer of the last pass.
    pub fn get_output(&self) -> (r: &Vec<Sample>)
        ensures
            r@ == self@.output,
    {
        &self.output
    }

    /// Replaces the gain applied to each mixed slot.
    pub fn set_gain(&mut self, gain: Sample)
        ensures
            final(self)@ == (ChannelModel { gain, ..old(self)@ }),
    {
        self.gain = gain;
    }

    /// Mixes one buffer: for each slot in turn, every sound takes one step on
    /// silence, and the slot gets the sum, limited to a sample, times the gain.
    pub fn process(&mut self)
        requires
            old(self)@.wf(),
        ensures
            final(self)@ == old(self)@.processed(),
            final(self)@.wf(),
    {
        let ghost s0 = sound_views(self.sounds@);
        let ghost pre = *self;
        let len = self.output.len();
        let ns = self.sounds.len();
        let mut j: usize = 0;
        while j < len
            invariant
                j <= len,
                len == pre.output@.len(),
                ns == s0.len(),
                self.output@.len() == len,
                self.sounds@.len() == ns,
                self.ids == pre.ids,
                self.gain == pre.gain,
                self.sample_rate == pre.sample_rate,
                self.id_counter == pre.id_counter,
                sound_views(self.sounds@) == advance_all(s0, j as nat),
                forall|k: int|
                    0 <= k < j ==> self.output@[k] == #[trigger] mix_slot(
                        advance_all(s0, k as nat),
                        pre.gain,
                    ),
            decreases len - j,
        {
            let ghost cur = sound_views(self.sounds@);
            let mut acc: i128 = 0;
            let mut k: usize = 0;
            while k < ns
                invariant
                    k <= ns,
                    ns == cur.len(),
                    self.sounds@.len() == ns,
                    self.output@.len() == len,
                    self.ids == pre.ids,
                    self.gain == pre.gain,
                    self.sample_rate == pre.sample_rate,
                    self.id_counter == pre.id_counter,
                    forall|k2: int| 0 <= k2 < j ==> self.output@[k2] == #[trigger] mix_slot(
                        advance_all(s0, k2 as nat),
                        pre.gain,
                    ),
                    forall|m: int| 0 <= m < k ==> #[trigger] self.sounds@[m]@ == cur[m].next(0),
                    forall|m: int| k <= m < ns ==> #[trigger] self.sounds@[m]@ == cur[m],
                    acc == mix_sum(cur.take(k as int)),
                    -0x8000_0000_0000_0000 * k <= acc <= 0x8000_0000_0000_0000 * k,
                decreases ns - k,
            {
                let v = self.sounds[k].process(0);
                proof {
                    assert(cur.take(k as int + 1).drop_last() =~= cur.take(k as int));
                    assert(k as int + 1 <= 0xffff_ffff_ffff_ffff);
                    assert(0x8000_0000_0000_0000 * (k as int + 1) <= 0x8000_0000_0000_0000
                        * 0xffff_ffff_ffff_ffff) by (nonlinear_arith)
                        requires
                            k as int + 1 <= 0xffff_ffff_ffff_ffff,
                    ;
                }
                acc = acc + v as i128;
                k = k + 1;
            }
            let y = sample_mul(clamp_wide(acc), self.gain);
            self.output.set(j, y);
            proof {
                assert(cur.take(ns as int) =~= cur);
                assert(sound_views(self.sounds@) =~= step_all(cur));
            }
            j = j + 1;
        }
        proof {
            assert(self.output@ =~= pre@.processed().output);
            lemma_advance_ids(s0, len as nat);
        }
    }

    /// Adds `sound` to the mix under a fresh identity, which it records and
    /// which is returned.
    pub fn add_sound(&mut self, sound: BaeSound<G, M>) -> (id: usize)
        requires
            old(self)@.wf(),
            old(self)@.id_counter < usize::MAX,
        ensures
            id == old(self)@.id_counter,
            final(self)@ == old(self)@.added(sound@),
            final(self)@.wf(),
    {
        let mut sound = sound;
        let id = self.get_id();
        sound.register(id);
        self.ids.push(id);
        self.sounds.push(sound);
        assert(sound_views(self.sounds@) =~= old(self)@.sounds.push(
            SoundModel { id: Some(id), ..sound@ },
        ));
        id
    }

    /// Removes the sound of identity `id` from the mix; an identity that is
    /// not mixed leaves the channel as it is.
    pub fn remove_sound(&mut self, id: usize)
        requires
            old(self)@.wf(),
        ensures
            final(self)@ == old(self)@.removed(id),
            final(self)@.wf(),
    {
        let n = self.ids.len();
        let mut k: usize = 0;
        while k < n
            invariant
                k <= n,
                n == self.ids@.len(),
                self == old(self),
                self@ == old(self)@,
                self@.wf(),
                self.sounds@.len() == n,
                forall|m: int| 0 <= m < k ==> self.ids@[m] != id,
            decreases n - k,
        {
            if self.ids[k] == id {
                let ghost pre = self@;
                self.ids.remove(k);
                self.sounds.remove(k);
                proof {
                    assert(pre.ids[k as int] == id);
                    lemma_removed_at(pre, id, k as int);
                    assert(sound_views(self.sounds@) =~= pre.sounds.remove(k as int));
                }
                return;
            }
            k = k + 1;
        }
        assert(!self@.ids.contains(id));
    }
}

/// Steps never change a sound's identity.
proof fn lemma_advance_ids<G: Generator, M: Modifier>(s: Seq<SoundModel<G, M>>, n: nat)
    ensures
        advance_all(s, n).len() == s.len(),
        forall|i: int| 0 <= i < s.len() ==> #[trigger] advance_all(s, n)[i].id == s[i].id,
    decreases n,
{
    if n > 0 {
        lemma_advance_ids(s, (n - 1) as nat);
    }
}

/// Removing the identity found at index `k` removes exactly that entry, and
/// keeps the channel well formed.
proof fn lemma_removed_at<G: Generator, M: Modifier>(c: ChannelModel<G, M>, id: usize, k: int)
    requires
        c.wf(),
        0 <= k < c.ids.len(),
        c.ids[k] == id,
    ensures
        c.removed(id) == (ChannelModel { ids: c.ids.remove(k), sounds: c.sounds.remove(k), ..c }),
        c.removed(id).wf(),
{
    assert(c.ids.contains(id));
    let x = choose|x: int| 0 <= x < c.ids.len() && c.ids[x] == id;
    assert(x == k) by {
        if x < k {
            assert(c.ids[x] < c.ids[k]);
        } else if x > k {
            assert(c.ids[k] < c.ids[x]);
        }
    }
    let r = c.removed(id);
    assert forall|i: int, j: int| 0 <= i < j < r.ids.len() implies r.ids[i] < r.ids[j] by {
        if j < k {
        } else if i < k {
            assert(c.ids[i] < c.ids[j + 1]);
        } else {
            assert(c.ids[i + 1] < c.ids[j + 1]);
        }
    }
    assert forall|i: int| 0 <= i < r.ids.len() implies #[trigger] r.sounds[i].id == Some(
        r.ids[i],
    ) by {
        if i >= k {
            assert(c.sounds[i + 1].id == Some(c.ids[i + 1]));
        }
    }
}

/// The channel after each sound of `ss` is added in turn.
pub open spec fn add_all<G: Generator, M: Modifier>(
    c: ChannelModel<G, M>,
    ss: Seq<SoundModel<G, M>>,
) -> ChannelModel<G, M>
    decreases ss.len(),
{
    if ss.len() == 0 {
        c
    } else {
        add_all(c, ss.drop_last()).added(ss.last())
    }
}

/// Adding sounds gives each a distinct identity, the next ones of the
/// counter, even where the same sound is added more than once. Removing a
/// mixed identity removes exactly one mixing slot; removing any other
/// identity changes nothing.
pub proof fn lemma_identity_uniqueness<G: Generator, M: Modifier>(
    c: ChannelModel<G, M>,
    ss: Seq<SoundModel<G, M>>,
    id: usize,
)
    requires
        c.wf(),
        c.id_counter + ss.len() < usize::MAX,
    ensures
        add_all(c, ss).wf(),
        add_all(c, ss).ids == c.ids + Seq::new(ss.len(), |i: int| (c.id_counter + i) as usize),
        forall|i: int, j: int|
            0 <= i < j < add_all(c, ss).ids.len() ==> add_all(c, ss).ids[i] != add_all(
                c,
                ss,
            ).ids[j],
        c.ids.contains(id) ==> c.removed(id).sounds.len() == c.sounds.len() - 1
            && !c.removed(id).ids.contains(id),
        !c.ids.contains(id) ==> c.removed(id) == c,
    decreases ss.len(),
{
    if ss.len() > 0 {
        lemma_identity_uniqueness(c, ss.drop_last(), id);
        let p = add_all(c, ss.drop_last());
        assert(p.id_counter == c.id_counter + ss.len() - 1) by {
            lemma_add_all_counter(c, ss.drop_last());
        }
        assert(add_all(c, ss).ids =~= c.ids + Seq::new(
            ss.len(),
            |i: int| (c.id_counter + i) as usize,
        ));
    } else {
        assert(c.ids =~= c.ids + Seq::new(0, |i: int| (c.id_counter + i) as usize));
    }
    if c.ids.contains(id) {
        let k = choose|k: int| 0 <= k < c.ids.len() && c.ids[k] == id;
        lemma_removed_at(c, id, k);
        let r = c.removed(id);
        if r.ids.contains(id) {
            let x = choose|x: int| 0 <= x < r.ids.len() && r.ids[x] == id;
            if x < k {
                assert(c.ids[x] < c.ids[k]);
            } else {
                assert(c.ids[k] < c.ids[x + 1]);
            }
        }
    }
}

proof fn lemma_add_all_counter<G: Generator, M: Modifier>(
    c: ChannelModel<G, M>,
    ss: Seq<SoundModel<G, M>>,
)
    requires
        c.id_counter + ss.len() < usize::MAX,
    ensures
        add_all(c, ss).id_counter == c.id_counter + ss.len(),
        add_all(c, ss).sounds.len() == c.sounds.len() + ss.len(),
    decreases ss.len(),
{
    if ss.len() > 0 {
        lemma_add_all_counter(c, ss.drop_last());
    }
}

/// In a channel of gain `ONE` that mixes two sounds `a` and `b`, each slot
/// holds the sum of what `a` and `b` return when stepped alone, slot by slot.
pub proof fn lemma_mix_linearity<G: Generator, M: Modifier>(
    c: ChannelModel<G, M>,
    a: SoundModel<G, M>,
    b: SoundModel<G, M>,
)
    requires
        c.sounds == seq![a, b],
        c.gain == ONE,
    ensures
        c.processed().output == Seq::new(
            c.output.len(),
            |j: int| add_spec(iterate(a, j as nat).out(0) as int, iterate(b, j as nat).out(0) as int),
        ),
{
    assert forall|j: int| 0 <= j < c.output.len() implies #[trigger] c.processed().output[j] == add_spec(
        iterate(a, j as nat).out(0) as int,
        iterate(b, j as nat).out(0) as int,
    ) by {
        lemma_advance_pair(a, b, j as nat);
        let s = advance_all(c.sounds, j as nat);
        assert(s.drop_last().drop_last() =~= Seq::<SoundModel<G, M>>::empty());
        assert(s.drop_last() =~= seq![iterate(a, j as nat)]);
        let x = iterate(a, j as nat).out(0) as int;
        let y = iterate(b, j as nat).out(0) as int;
        assert(mix_sum(s.drop_last().drop_last()) == 0);
        assert(mix_sum(s.drop_last()) == x);
        assert(mix_sum(s) == x + y);
        lemma_mul_one(clamp(x + y) as i64);
        assert(c.processed().output[j] == mix_slot(s, c.gain));
    }
    assert(c.processed().output =~= Seq::new(
        c.output.len(),
        |j: int| add_spec(iterate(a, j as nat).out(0) as int, iterate(b, j as nat).out(0) as int),
    ));
}

proof fn lemma_advance_pair<G: Generator, M: Modifier>(
    a: SoundModel<G, M>,
    b: SoundModel<G, M>,
    n: nat,
)
    ensures
        advance_all(seq![a, b], n) == seq![iterate(a, n), iterate(b, n)],
    decreases n,
{
    if n > 0 {
        lemma_advance_pair(a, b, (n - 1) as nat);
        assert(advance_all(seq![a, b], n) =~= seq![iterate(a, n), iterate(b, n)]);
    }
}

/// After the processing time is set, a pass fills exactly the number of whole
/// samples that the time holds at the channel's rate.
pub proof fn lemma_buffer_resize<G: Generator, M: Modifier>(c: ChannelModel<G, M>, nanos: u64)
    requires
        window_len(nanos as int, c.sample_rate as int) <= usize::MAX,
    ensures
        c.with_process_time(nanos).processed().output.len() == window_len(
            nanos as int,
            c.sample_rate as int,
        ),
{
    assert(0 <= nanos as int * c.sample_rate as int) by (nonlinear_arith);
}

} // verus!
