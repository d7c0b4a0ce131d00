use bae_sounds::{
    sample_add, sample_mul, BaeBlock, BaeChannel, BaeSound, Generator, Interactor, Modifier,
    OnePole, Passthrough, Wavetable, Zero, ONE,
};

type Block = BaeBlock<Wavetable, OnePole>;
type Sound = BaeSound<Wavetable, OnePole>;

fn wave() -> Wavetable {
    Wavetable::new(vec![0, ONE / 2, ONE, ONE / 2, 0, -ONE / 2, -ONE, -ONE / 2])
}

fn filtered_sound() -> Sound {
    let mut s = Sound::new(ONE, ONE, Block::from_generator(wave()));
    s.add_modifier(Block::from_modifier(OnePole::new(ONE / 4)));
    s
}

fn constant_sound(v: i64) -> Sound {
    Sound::new(ONE, ONE, Block::from_generator(Wavetable::new(vec![v])))
}

#[test]
fn sample_arithmetic_is_fixed_point_and_saturates() {
    assert_eq!(sample_mul(ONE / 2, 3 * ONE), 3 * ONE / 2);
    assert_eq!(sample_mul(-ONE / 2, ONE / 2), -ONE / 4);
    assert_eq!(sample_mul(-1, 1), 0);
    assert_eq!(sample_mul(i64::MAX, 2 * ONE), i64::MAX);
    assert_eq!(sample_mul(i64::MIN, 2 * ONE), i64::MIN);
    assert_eq!(sample_add(i64::MAX, 1), i64::MAX);
    assert_eq!(sample_add(i64::MIN, -1), i64::MIN);
    assert_eq!(sample_add(3, -5), -2);
}

#[test]
fn interactors_combine_as_named() {
    assert_eq!(Interactor::Multiply.combine(ONE / 2, ONE / 2), ONE / 4);
    assert_eq!(Interactor::GeneratorPassthrough.combine(7, 9), 7);
    assert_eq!(Interactor::ModifierPassthrough.combine(7, 9), 9);
    assert_eq!(BaeBlock::<Zero, Passthrough>::default_interactor(), Interactor::Multiply);
}

#[test]
fn wavetable_wraps_and_empty_is_silent() {
    let mut w = Wavetable::new(vec![1, 2, 3]);
    let got: Vec<i64> = (0..5).map(|_| w.process()).collect();
    assert_eq!(got, vec![1, 2, 3, 1, 2]);
    let mut e = Wavetable::new(vec![]);
    assert_eq!(e.process(), 0);
    assert_eq!(e.process(), 0);
}

#[test]
fn one_pole_moves_toward_input() {
    let mut f = OnePole::new(ONE / 2);
    assert_eq!(f.process(ONE), ONE / 2);
    assert_eq!(f.process(ONE), 3 * ONE / 4);
    assert_eq!(f.process(0), 3 * ONE / 8);
}

#[test]
fn block_multiplies_generator_and_modifier() {
    let mut b = BaeBlock::new(Wavetable::new(vec![ONE / 2]), Passthrough::new(), Interactor::Multiply);
    b.prime_input(ONE);
    b.prime_input(ONE / 2);
    assert_eq!(b.process(), 3 * ONE / 4);
    assert_eq!(b.process(), 0);
}

#[test]
fn block_getters_reach_units() {
    let mut b = Block::from_generator(Wavetable::new(vec![5, 6]));
    assert!(b.get_g().is_some());
    assert!(b.get_m().is_none());
    assert!(b.get_m_mut().is_none());
    if let Some(g) = b.get_g_mut() {
        assert_eq!(g.process(), 5);
    }
    assert_eq!(b.process(), 6);
}

#[test]
fn passthrough_block_matches_generator() {
    let mut b = Block::from_generator(wave());
    let mut g = wave();
    for _ in 0..100 {
        assert_eq!(b.process(), g.process());
    }
}

#[test]
fn process_without_prime_equals_prime_zero() {
    let mut a = Block::from_modifier(OnePole::new(ONE / 3));
    let mut b = Block::from_modifier(OnePole::new(ONE / 3));
    a.prime_input(ONE);
    b.prime_input(ONE);
    assert_eq!(a.process(), b.process());
    a.prime_input(0);
    assert_eq!(a.process(), b.process());
    for _ in 0..5 {
        a.prime_input(0);
        assert_eq!(a.process(), b.process());
    }
}

#[test]
fn sound_applies_gains() {
    let g = BaeBlock::new(Zero::new(), Passthrough::new(), Interactor::ModifierPassthrough);
    let mut s = BaeSound::new(2 * ONE, ONE / 2, g);
    assert_eq!(s.get_input_gain(), 2 * ONE);
    assert_eq!(s.get_output_gain(), ONE / 2);
    assert_eq!(s.process(ONE), ONE);
    s.set_input_gain(3 * ONE);
    s.set_output_gain(ONE);
    assert_eq!(s.process(ONE), 3 * ONE);
}

#[test]
fn sound_runs_modifiers_in_order() {
    let mut s = Sound::new(ONE, ONE, Block::from_generator(Wavetable::new(vec![ONE])));
    s.extend_modifiers(vec![
        Block::from_modifier(OnePole::new(ONE / 2)),
        Block::from_modifier(OnePole::new(ONE / 2)),
    ]);
    assert_eq!(s.process(0), ONE / 4);
    assert_eq!(s.process(0), ONE / 2);
}

#[test]
fn mute_keeps_state_evolving() {
    let mut muted = filtered_sound();
    let mut plain = filtered_sound();
    muted.toggle_mute();
    assert!(muted.is_muted());
    for _ in 0..13 {
        assert_eq!(muted.process(0), 0);
        plain.process(0);
    }
    muted.toggle_mute();
    assert!(!muted.is_muted());
    for _ in 0..50 {
        assert_eq!(muted.process(0), plain.process(0));
    }
}

#[test]
fn pause_freezes_state() {
    let mut paused = filtered_sound();
    let mut plain = filtered_sound();
    for _ in 0..3 {
        assert_eq!(paused.process(0), plain.process(0));
    }
    paused.toggle_pause();
    assert!(paused.is_paused());
    for _ in 0..11 {
        assert_eq!(paused.process(ONE), 0);
    }
    paused.toggle_pause();
    assert!(!paused.is_paused());
    for _ in 0..50 {
        assert_eq!(paused.process(0), plain.process(0));
    }
}

#[test]
fn register_and_unregister_identity() {
    let mut s = filtered_sound();
    assert_eq!(s.get_id(), None);
    s.register(4);
    assert_eq!(s.get_id(), Some(4));
    s.unregister();
    assert_eq!(s.get_id(), None);
}

#[test]
fn identities_are_unique_and_removal_is_exact() {
    let mut c: BaeChannel<Wavetable, OnePole> = BaeChannel::new(ONE, 48_000);
    c.set_process_time(1_000_000);
    let a = c.add_sound(constant_sound(ONE / 4));
    let b = c.add_sound(constant_sound(ONE / 4));
    let d = c.add_sound(constant_sound(ONE / 4));
    assert_eq!((a, b, d), (0, 1, 2));
    c.process();
    assert!(c.get_output().iter().all(|&x| x == 3 * ONE / 4));
    c.remove_sound(b);
    c.process();
    assert!(c.get_output().iter().all(|&x| x == ONE / 2));
    c.remove_sound(b);
    c.remove_sound(99);
    c.process();
    assert!(c.get_output().iter().all(|&x| x == ONE / 2));
    assert_eq!(c.add_sound(constant_sound(0)), 3);
}

#[test]
fn mix_is_sum_of_sounds() {
    let mut c: BaeChannel<Wavetable, OnePole> = BaeChannel::new(ONE, 48_000);
    c.add_sound(filtered_sound());
    c.add_sound(constant_sound(ONE / 8));
    c.process();
    let mut a = filtered_sound();
    let mut b = constant_sound(ONE / 8);
    assert_eq!(c.get_output().len(), 480);
    for &y in c.get_output() {
        assert_eq!(y, a.process(0) + b.process(0));
    }
}

#[test]
fn channel_gain_scales_mix() {
    let mut c: BaeChannel<Wavetable, OnePole> = BaeChannel::new(ONE, 1000);
    c.add_sound(constant_sound(ONE / 4));
    c.set_gain(2 * ONE);
    c.process();
    assert_eq!(c.get_output().clone(), vec![ONE / 2; 10]);
}

#[test]
fn muted_and_paused_sounds_mix_silence() {
    let mut c: BaeChannel<Wavetable, OnePole> = BaeChannel::new(ONE, 1000);
    let mut m = constant_sound(ONE);
    m.toggle_mute();
    let mut p = constant_sound(ONE);
    p.toggle_pause();
    c.add_sound(m);
    c.add_sound(p);
    c.process();
    assert_eq!(c.get_output().clone(), vec![0; 10]);
}

#[test]
fn set_process_time_resizes_buffer() {
    let mut c: BaeChannel<Wavetable, OnePole> = BaeChannel::new(ONE, 48_000);
    c.set_process_time(5_000_000);
    c.process();
    assert_eq!(c.get_output().len(), 240);
    c.set_process_time(1_234_567);
    c.process();
    assert_eq!(c.get_output().len(), 59);
    c.set_process_time(0);
    c.process();
    assert_eq!(c.get_output().len(), 0);
}

#[test]
fn ten_ms_window_matches_raw_generator() {
    let mut c: BaeChannel<Wavetable, OnePole> = BaeChannel::new(ONE, 48_000);
    c.add_sound(Sound::new(ONE, ONE, Block::from_generator(wave())));
    c.process();
    let mut g = wave();
    let expected: Vec<i64> = (0..480).map(|_| g.process()).collect();
    assert_eq!(c.get_output().clone(), expected);
}
