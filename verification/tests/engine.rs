use std::collections::HashMap;
use thock::asmr::{AsmrSettings, AsmrUpdate, ThunderTimer};
use thock::command::{AsmrAction, AsmrParam};
use thock::keymap::{get_key_map, lookup_key};
use thock::prng::PRNG;
use thock::tap::{KeyEventKind, KeySound, KeyTap, SampleChoice};
use thock::voicing::{duration_ms, duration_nanos, voicing, SampleCursor};

#[test]
fn prng_first_states_from_one() {
    let mut p = PRNG::new(0);
    assert_eq!(p.next_u32(), 270369);
    assert_eq!(p.next_u32(), 67634689);
    assert_eq!(p.next_u32(), 2647435461);
}

#[test]
fn prng_even_and_odd_seeds_coincide() {
    let mut a = PRNG::new(6);
    let mut b = PRNG::new(7);
    for _ in 0..10 {
        assert_eq!(a.next_u32(), b.next_u32());
    }
}

#[test]
fn prng_never_reaches_zero() {
    let mut p = PRNG::new(0x8000_0000);
    for _ in 0..100_000 {
        assert_ne!(p.next_u32(), 0);
    }
}

#[test]
fn keymap_has_the_whole_table() {
    let m = get_key_map();
    assert_eq!(m.len(), 100);
    assert_eq!(m.get(&53), Some(&1));
    assert_eq!(m.get(&0), Some(&30));
    assert_eq!(m.get(&49), Some(&57));
    assert_eq!(m.get(&126), Some(&57416));
    assert_eq!(m.get(&62), Some(&3613));
    assert_eq!(m.get(&92), Some(&73));
}

#[test]
fn keymap_dot_and_keypad_decimal_share_a_code() {
    let m = get_key_map();
    assert_eq!(lookup_key(&m, 47), Some(52));
    assert_eq!(lookup_key(&m, 65), Some(52));
}

#[test]
fn keymap_unknown_code_is_absent() {
    let m = get_key_map();
    assert_eq!(lookup_key(&m, 10), None);
    assert_eq!(lookup_key(&m, 200), None);
}

#[test]
fn tap_autorepeat_press_is_ignored() {
    let mut t = KeyTap::new();
    assert_eq!(t.classify(KeyEventKind::KeyDown, 1, 0), None);
    assert_eq!(t.classify(KeyEventKind::KeyDown, 0, 0), Some(false));
    assert_eq!(t.classify(KeyEventKind::KeyUp, 1, 0), Some(true));
}

#[test]
fn tap_modifier_release_is_detected_from_flags() {
    let mut t = KeyTap::new();
    assert_eq!(t.classify(KeyEventKind::FlagsChanged, 0, 0x20000), Some(false));
    assert_eq!(t.classify(KeyEventKind::FlagsChanged, 0, 0), Some(true));
    // Flags of other events are not remembered.
    assert_eq!(t.classify(KeyEventKind::KeyDown, 0, 0x40000), Some(false));
    assert_eq!(t.classify(KeyEventKind::FlagsChanged, 1, 0x100), None);
}

#[test]
fn tap_mapped_key_plays_its_sample() {
    let keymap = get_key_map();
    let mut mappings: HashMap<u64, &str> = HashMap::new();
    mappings.insert(30, "a.wav");
    let mut t = KeyTap::new();
    // macOS key code 0 is 'A', sound-pack code 30.
    assert_eq!(t.choose_sample(&keymap, 0, &mappings, 3), Some(SampleChoice::Mapped(30)));
    // The key-code field is read as 16 bits.
    assert_eq!(t.choose_sample(&keymap, 65536, &mappings, 3), Some(SampleChoice::Mapped(30)));
}

#[test]
fn tap_defaults_rotate() {
    let keymap = get_key_map();
    let mappings: HashMap<u64, ()> = HashMap::new();
    let mut t = KeyTap::new();
    let picks: Vec<_> = (0..7).map(|_| t.choose_sample(&keymap, 0, &mappings, 3)).collect();
    let expect: Vec<_> = [0usize, 1, 2, 0, 1, 2, 0].iter().map(|i| Some(SampleChoice::Default(*i))).collect();
    assert_eq!(picks, expect);
}

#[test]
fn tap_no_defaults_no_mapping_is_silent() {
    let keymap = get_key_map();
    let mappings: HashMap<u64, ()> = HashMap::new();
    let mut t = KeyTap::new();
    assert_eq!(t.choose_sample(&keymap, 12, &mappings, 0), None);
    assert_eq!(t.sound_for(false, false, &keymap, 12, &mappings, 0), KeySound::Silent);
}

#[test]
fn tap_procedural_plays_on_release_too() {
    let keymap = get_key_map();
    let mappings: HashMap<u64, ()> = HashMap::new();
    let mut t = KeyTap::new();
    assert_eq!(t.sound_for(true, true, &keymap, 0, &mappings, 2), KeySound::Procedural);
    assert_eq!(t.sound_for(true, false, &keymap, 0, &mappings, 2), KeySound::Silent);
    assert_eq!(t.sound_for(false, false, &keymap, 0, &mappings, 2), KeySound::Sample(SampleChoice::Default(0)));
}

#[test]
fn asmr_defaults() {
    let s = AsmrSettings::new();
    assert_eq!(s.master_vol, 50);
    assert_eq!(s.thunder_vol, 80);
    assert_eq!(s.rain_on + s.wind_on + s.thunder_on, 0);
}

#[test]
fn asmr_command_actions() {
    let mut s = AsmrSettings::new();
    s.apply_action(&AsmrAction::RainOn);
    s.apply_action(&AsmrAction::ThunderOn);
    assert_eq!((s.rain_on, s.wind_on, s.thunder_on), (1, 0, 1));
    s.apply_action(&AsmrAction::Assign(AsmrParam::WindVol, 100));
    assert_eq!(s.wind_vol, 100);
    assert_eq!(s.param(AsmrParam::WindVol), 100);
    s.apply_action(&AsmrAction::AllOff);
    assert_eq!((s.rain_on, s.wind_on, s.thunder_on), (0, 0, 0));
    let before = s;
    s.apply_action(&AsmrAction::UnknownParam("x".to_string()));
    s.apply_action(&AsmrAction::BadValue);
    assert_eq!(s, before);
}

#[test]
fn asmr_window_update() {
    let mut s = AsmrSettings::new();
    let u = AsmrUpdate {
        rain_on: Some(true),
        wind_on: None,
        thunder_on: Some(false),
        master_vol: Some(75),
        rain_density: None,
        wind_gust: Some(0x1_0000_0005),
        rain_vol: None,
        wind_vol: None,
        thunder_freq: None,
        thunder_intensity: Some(10),
        thunder_vol: None,
    };
    s.apply_update(&u);
    assert_eq!(s.rain_on, 1);
    assert_eq!(s.thunder_on, 0);
    assert_eq!(s.master_vol, 75);
    assert_eq!(s.wind_gust, 5);
    assert_eq!(s.thunder_int, 10);
    assert_eq!(s.rain_dens, 50);
}

#[test]
fn thunder_timer_cooldown_and_rolls() {
    let mut t = ThunderTimer::new();
    assert_eq!(t.tick(false, true), None);
    assert_eq!(t.tick(true, true), Some(1199382711));
    t.strike(50);
    // 40 + 50 * 8 ticks of cooldown
    for _ in 0..439 {
        assert_eq!(t.tick(true, true), None);
    }
    assert!(t.tick(true, true).is_some());
    assert_eq!(t.tick(true, false), None);
}

#[test]
fn thunder_strike_frequency_above_range_wraps() {
    let mut t = ThunderTimer::new();
    t.strike(101);
    // 40 + (100 - 101) * 8 in 32-bit wrapping arithmetic
    let mut ticks = 0u64;
    while t.tick(true, true).is_none() {
        ticks += 1;
        if ticks > 40 { break; }
    }
    assert_eq!(ticks, 31);
}

#[test]
fn voicing_tables() {
    let v = voicing("blue", "pom");
    assert_eq!(v.impact_cutoff_hz, 1200);
    assert_eq!(v.modal_base_hz, 900);
    assert_eq!(v.modal_decay_ms, 7);
    assert_eq!(v.impact_decay_tenth_ms, 30);
    assert_eq!(v.tail_ms, 80);
    assert_eq!(v.total_samples, 3528);
    assert!(v.clicky);
    let w = voicing("white", "pc");
    assert_eq!(w.impact_cutoff_hz, 700);
    assert_eq!(w.modal_decay_ms, 10);
    assert_eq!(w.impact_decay_tenth_ms, 40);
    assert_eq!(w.total_samples, 2425);
    assert!(w.clicky);
    let n = voicing("holy_panda", "nylon");
    assert_eq!(n.modal_decay_ms, 8);
    assert_eq!(n.modal_base_hz, 1200);
    assert_eq!(n.total_samples, 2866);
    assert!(!n.clicky);
    let c = voicing("cream", "unknown");
    assert_eq!(c.impact_cutoff_hz, 1200);
    assert_eq!(c.total_samples, 1984);
}

#[test]
fn durations() {
    assert_eq!(duration_ms(3528, 44100), 80);
    assert_eq!(duration_ms(2866, 44100), 64);
    assert_eq!(duration_nanos(88200, 2, 44100), 1_000_000_000);
    assert_eq!(duration_nanos(3, 2, 1), 1_000_000_000);
}

#[test]
fn sample_cursor_runs_once() {
    let mut c = SampleCursor::new(3);
    assert_eq!(c.remaining(), 3);
    assert_eq!(c.advance(), Some(0));
    assert_eq!(c.advance(), Some(1));
    assert_eq!(c.remaining(), 1);
    assert_eq!(c.advance(), Some(2));
    assert_eq!(c.advance(), None);
    assert_eq!(c.remaining(), 0);
}
