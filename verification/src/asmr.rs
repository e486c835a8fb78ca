use vstd::prelude::*;
use crate::command::{AsmrAction, AsmrParam};
use crate::prng::{PRNG, xorshift32};
use vstd::wrapping::u32_specs;

verus! {

/// The settings of the ambience layers (rain, wind, thunder): percentages
/// and on/off switches (0 = off, anything else = on).
#[derive(PartialEq, Eq, Structural, Clone, Copy, Debug)]
pub struct AsmrSettings {
    pub master_vol: u32,
    pub rain_dens: u32,
    pub wind_gust: u32,
    pub rain_vol: u32,
    pub wind_vol: u32,
    pub thunder_freq: u32,
    pub thunder_int: u32,
    pub thunder_vol: u32,
    pub rain_on: u32,
    pub wind_on: u32,
    pub thunder_on: u32,
}

/// A partial update of the ambience settings sent by the settings window;
/// each present field replaces the setting (numbers keep their low 32 bits).
#[derive(PartialEq, Eq, Structural, Clone, Copy, Debug)]
pub struct AsmrUpdate {
    pub rain_on: Option<bool>,
    pub wind_on: Option<bool>,
    pub thunder_on: Option<bool>,
    pub master_vol: Option<u64>,
    pub rain_density: Option<u64>,
    pub wind_gust: Option<u64>,
    pub rain_vol: Option<u64>,
    pub wind_vol: Option<u64>,
    pub thunder_freq: Option<u64>,
    pub thunder_intensity: Option<u64>,
    pub thunder_vol: Option<u64>,
}

/// The value of parameter `p` in `s`.
pub open spec fn param_value(s: AsmrSettings, p: AsmrParam) -> u32 {
    match p {
        AsmrParam::MasterVol => s.master_vol,
        AsmrParam::RainDens => s.rain_dens,
        AsmrParam::WindGust => s.wind_gust,
        AsmrParam::RainVol => s.rain_vol,
        AsmrParam::WindVol => s.wind_vol,
        AsmrParam::ThunderFreq => s.thunder_freq,
        AsmrParam::ThunderInt => s.thunder_int,
        AsmrParam::ThunderVol => s.thunder_vol,
    }
}

/// `s` with parameter `p` set to `v`.
pub open spec fn with_param(s: AsmrSettings, p: AsmrParam, v: u32) -> AsmrSettings {
    match p {
        AsmrParam::MasterVol => AsmrSettings { master_vol: v, ..s },
        AsmrParam::RainDens => AsmrSettings { rain_dens: v, ..s },
        AsmrParam::WindGust => AsmrSettings { wind_gust: v, ..s },
        AsmrParam::RainVol => AsmrSettings { rain_vol: v, ..s },
        AsmrParam::WindVol => AsmrSettings { wind_vol: v, ..s },
        AsmrParam::ThunderFreq => AsmrSettings { thunder_freq: v, ..s },
        AsmrParam::ThunderInt => AsmrSettings { thunder_int: v, ..s },
        AsmrParam::ThunderVol => AsmrSettings { thunder_vol: v, ..s },
    }
}

/// The settings after an `asmr` command.
pub open spec fn spec_apply_action(s: AsmrSettings, a: AsmrAction<Seq<char>>) -> AsmrSettings {
    match a {
        AsmrAction::AllOff => AsmrSettings { rain_on: 0, wind_on: 0, thunder_on: 0, ..s },
        AsmrAction::RainOn => AsmrSettings { rain_on: 1, ..s },
        AsmrAction::ThunderOn => AsmrSettings { thunder_on: 1, ..s },
        AsmrAction::Assign(p, v) => with_param(s, p, v),
        _ => s,
    }
}

pub open spec fn flag_of(b: bool) -> u32 {
    if b {
        1
    } else {
        0
    }
}

pub open spec fn update_flag(old: u32, u: Option<bool>) -> u32 {
    match u {
        Some(b) => flag_of(b),
        None => old,
    }
}

pub open spec fn update_level(old: u32, u: Option<u64>) -> u32 {
    match u {
        Some(v) => v as u32,
        None => old,
    }
}

/// The settings after an update from the settings window.
pub open spec fn spec_apply_update(s: AsmrSettings, u: AsmrUpdate) -> AsmrSettings {
    AsmrSettings {
        master_vol: update_level(s.master_vol, u.master_vol),
        rain_dens: update_level(s.rain_dens, u.rain_density),
        wind_gust: update_level(s.wind_gust, u.wind_gust),
        rain_vol: update_level(s.rain_vol, u.rain_vol),
        wind_vol: update_level(s.wind_vol, u.wind_vol),
        thunder_freq: update_level(s.thunder_freq, u.thunder_freq),
        thunder_int: update_level(s.thunder_int, u.thunder_intensity),
        thunder_vol: update_level(s.thunder_vol, u.thunder_vol),
        rain_on: update_flag(s.rain_on, u.rain_on),
        wind_on: update_flag(s.wind_on, u.wind_on),
        thunder_on: update_flag(s.thunder_on, u.thunder_on),
    }
}

/// An update that carries nothing.
pub open spec fn empty_update() -> AsmrUpdate {
    AsmrUpdate {
        rain_on: None,
        wind_on: None,
        thunder_on: None,
        master_vol: None,
        rain_density: None,
        wind_gust: None,
        rain_vol: None,
        wind_vol: None,
        thunder_freq: None,
        thunder_intensity: None,
        thunder_vol: None,
    }
}

/// Each field of a window update sets exactly its own setting: an empty
/// update changes nothing, and an update that carries one field changes
/// only the setting of that name (numbers keep their low 32 bits, switches
/// become 1 or 0).
pub proof fn lemma_update_fields_independent(s: AsmrSettings, b: bool, v: u64)
    ensures
        spec_apply_update(s, empty_update()) == s,
        spec_apply_update(s, AsmrUpdate { rain_on: Some(b), ..empty_update() }) == (AsmrSettings {
            rain_on: if b { 1u32 } else { 0u32 },
            ..s
        }),
        spec_apply_update(s, AsmrUpdate { wind_on: Some(b), ..empty_update() }) == (AsmrSettings {
            wind_on: if b { 1u32 } else { 0u32 },
            ..s
        }),
        spec_apply_update(s, AsmrUpdate { thunder_on: Some(b), ..empty_update() }) == (
        AsmrSettings { thunder_on: if b { 1u32 } else { 0u32 }, ..s }),
        spec_apply_update(s, AsmrUpdate { master_vol: Some(v), ..empty_update() }) == (
        AsmrSettings { master_vol: v as u32, ..s }),
        spec_apply_update(s, AsmrUpdate { rain_density: Some(v), ..empty_update() }) == (
        AsmrSettings { rain_dens: v as u32, ..s }),
        spec_apply_update(s, AsmrUpdate { wind_gust: Some(v), ..empty_update() }) == (
        AsmrSettings { wind_gust: v as u32, ..s }),
        spec_apply_update(s, AsmrUpdate { rain_vol: Some(v), ..empty_update() }) == (AsmrSettings {
            rain_vol: v as u32,
            ..s
        }),
        spec_apply_update(s, AsmrUpdate { wind_vol: Some(v), ..empty_update() }) == (AsmrSettings {
            wind_vol: v as u32,
            ..s
        }),
        spec_apply_update(s, AsmrUpdate { thunder_freq: Some(v), ..empty_update() }) == (
        AsmrSettings { thunder_freq: v as u32, ..s }),
        spec_apply_update(s, AsmrUpdate { thunder_intensity: Some(v), ..empty_update() }) == (
        AsmrSettings { thunder_int: v as u32, ..s }),
        spec_apply_update(s, AsmrUpdate { thunder_vol: Some(v), ..empty_update() }) == (
        AsmrSettings { thunder_vol: v as u32, ..s }),
{
}

/// An `asmr <param> <n>` command sets exactly that parameter to `n`; the
/// layer switches and the other parameters stay.
pub proof fn lemma_assign_sets_only_its_param(s: AsmrSettings, p: AsmrParam, q: AsmrParam, v: u32)
    ensures
        param_value(spec_apply_action(s, AsmrAction::Assign(p, v)), p) == v,
        p != q ==> param_value(spec_apply_action(s, AsmrAction::Assign(p, v)), q) == param_value(
            s,
            q,
        ),
        spec_apply_action(s, AsmrAction::Assign(p, v)).rain_on == s.rain_on,
        spec_apply_action(s, AsmrAction::Assign(p, v)).wind_on == s.wind_on,
        spec_apply_action(s, AsmrAction::Assign(p, v)).thunder_on == s.thunder_on,
{
}

fn level(old: u32, u: Option<u64>) -> (r: u32)
    ensures
        r == update_level(old, u),
{
    match u {
        Some(v) => v as u32,
        None => old,
    }
}

fn flag(old: u32, u: Option<bool>) -> (r: u32)
    ensures
        r == update_flag(old, u),
{
    match u {
        Some(b) => if b {
            1
        } else {
            0
        },
        None => old,
    }
}

impl AsmrSettings {
    /// The settings at start-up: every layer off.
    pub open spec fn new_spec() -> AsmrSettings {
        AsmrSettings {
            master_vol: 50,
            rain_dens: 50,
            wind_gust: 30,
            rain_vol: 70,
            wind_vol: 40,
            thunder_freq: 50,
            thunder_int: 70,
            thunder_vol: 80,
            rain_on: 0,
            wind_on: 0,
            thunder_on: 0,
        }
    }

    /// The settings at start-up: every layer off.
    pub fn new() -> (r: Self)
        ensures
            r == Self::new_spec(),
            r == (AsmrSettings {
                master_vol: 50,
                rain_dens: 50,
                wind_gust: 30,
                rain_vol: 70,
                wind_vol: 40,
                thunder_freq: 50,
                thunder_int: 70,
                thunder_vol: 80,
                rain_on: 0,
                wind_on: 0,
                thunder_on: 0,
            }),
    {
        AsmrSettings {
            master_vol: 50,
            rain_dens: 50,
            wind_gust: 30,
            rain_vol: 70,
            wind_vol: 40,
            thunder_freq: 50,
            thunder_int: 70,
            thunder_vol: 80,
            rain_on: 0,
            wind_on: 0,
            thunder_on: 0,
        }
    }

    /// The value of one parameter.
    pub fn param(&self, p: AsmrParam) -> (r: u32)
        ensures
            r == param_value(*self, p),
    {
        match p {
            AsmrParam::MasterVol => self.master_vol,
            AsmrParam::RainDens => self.rain_dens,
            AsmrParam::WindGust => self.wind_gust,
            AsmrParam::RainVol => self.rain_vol,
            AsmrParam::WindVol => self.wind_vol,
            AsmrParam::ThunderFreq => self.thunder_freq,
            AsmrParam::ThunderInt => self.thunder_int,
            AsmrParam::ThunderVol => self.thunder_vol,
        }
    }

    /// Applies an `asmr` command of the command line.
    pub fn apply_action(&mut self, a: &AsmrAction<String>)
        ensures
            *final(self) == spec_apply_action(*old(self), a@),
    {
        match a {
            AsmrAction::AllOff => {
                self.rain_on = 0;
                self.wind_on = 0;
                self.thunder_on = 0;
            },
            AsmrAction::RainOn => {
                self.rain_on = 1;
            },
            AsmrAction::ThunderOn => {
                self.thunder_on = 1;
            },
            AsmrAction::Assign(p, v) => {
                let v = *v;
                match p {
                    AsmrParam::MasterVol => self.master_vol = v,
                    AsmrParam::RainDens => self.rain_dens = v,
                    AsmrParam::WindGust => self.wind_gust = v,
                    AsmrParam::RainVol => self.rain_vol = v,
                    AsmrParam::WindVol => self.wind_vol = v,
                    AsmrParam::ThunderFreq => self.thunder_freq = v,
                    AsmrParam::ThunderInt => self.thunder_int = v,
                    AsmrParam::ThunderVol => self.thunder_vol = v,
                }
            },
            _ => {},
        }
    }

    /// Applies an update from the settings window.
    pub fn apply_update(&mut self, u: &AsmrUpdate)
        ensures
            *final(self) == spec_apply_update(*old(self), *u),
    {
        self.rain_on = flag(self.rain_on, u.rain_on);
        self.wind_on = flag(self.wind_on, u.wind_on);
        self.thunder_on = flag(self.thunder_on, u.thunder_on);
        self.master_vol = level(self.master_vol, u.master_vol);
        self.rain_dens = level(self.rain_dens, u.rain_density);
        self.wind_gust = level(self.wind_gust, u.wind_gust);
        self.rain_vol = level(self.rain_vol, u.rain_vol);
        self.wind_vol = level(self.wind_vol, u.wind_vol);
        self.thunder_freq = level(self.thunder_freq, u.thunder_freq);
        self.thunder_int = level(self.thunder_int, u.thunder_intensity);
        self.thunder_vol = level(self.thunder_vol, u.thunder_vol);
    }
}

/// The cooldown, in polling ticks, after a thunder strike at frequency
/// setting `freq`: `40 + (100 - freq) * 8` in wrapping 32-bit arithmetic.
pub open spec fn strike_cooldown(freq: u32) -> u32 {
    u32_specs::wrapping_add(40, u32_specs::wrapping_mul(u32_specs::wrapping_sub(100, freq), 8))
}

/// The thunder re-trigger logic of the ambience controller, polled every
/// tick: a cooldown counter and the generator of the random rolls.
pub struct ThunderTimer {
    rng: PRNG,
    cooldown: u32,
}

impl ThunderTimer {
    pub closed spec fn cooldown(&self) -> u32 {
        self.cooldown
    }

    pub closed spec fn rng_state(&self) -> u32 {
        self.rng.state()
    }

    /// A timer with no cooldown and the fixed generator state `0xdeadbeef`.
    pub fn new() -> (r: Self)
        ensures
            r.cooldown() == 0,
            r.rng_state() == 0xdeadbeefu32,
    {
        assert(0xdeadbeefu32 | 1u32 == 0xdeadbeefu32) by (bit_vector);
        ThunderTimer { rng: PRNG::new(0xdeadbeef), cooldown: 0 }
    }

    /// One tick: the cooldown counts down; when thunder is on, the cooldown
    /// is over and nothing is playing, the generator advances and its new
    /// state is returned as the roll that decides whether thunder strikes.
    pub fn tick(&mut self, thunder_on: bool, sink_empty: bool) -> (r: Option<u32>)
        ensures
            final(self).cooldown() == cooldown_after_tick(old(self).cooldown()),
            thunder_on && final(self).cooldown() == 0 && sink_empty ==> r == Some(
                xorshift32(old(self).rng_state()),
            ) && final(self).rng_state() == xorshift32(old(self).rng_state()),
            !(thunder_on && final(self).cooldown() == 0 && sink_empty) ==> r is None
                && final(self).rng_state() == old(self).rng_state(),
    {
        if self.cooldown > 0 {
            self.cooldown = self.cooldown - 1;
        }
        if thunder_on && self.cooldown == 0 && sink_empty {
            Some(self.rng.next_u32())
        } else {
            None
        }
    }

    /// Records a strike at frequency setting `freq`: the cooldown restarts.
    pub fn strike(&mut self, freq: u32)
        ensures
            final(self).cooldown() == strike_cooldown(freq),
            freq <= 100 ==> final(self).cooldown() == 40 + (100 - freq) * 8,
            final(self).rng_state() == old(self).rng_state(),
    {
        self.cooldown = 40u32.wrapping_add(100u32.wrapping_sub(freq).wrapping_mul(8));
    }
}


/// The cooldown after one tick.
pub open spec fn cooldown_after_tick(c: u32) -> u32 {
    if c > 0 {
        (c - 1) as u32
    } else {
        0
    }
}

/// The cooldown after `k` ticks.
pub open spec fn cooldown_after_ticks(c: u32, k: nat) -> u32
    decreases k,
{
    if k == 0 {
        c
    } else {
        cooldown_after_tick(cooldown_after_ticks(c, (k - 1) as nat))
    }
}

/// After a strike at frequency setting `freq` (at most 100), the next
/// `39 + (100 - freq) * 8` ticks roll nothing: the cooldown is still
/// positive after each of them, and it reaches zero on the tick after.
pub proof fn lemma_strike_silence(freq: u32, k: nat)
    requires
        freq <= 100,
        k <= 40 + (100 - freq) * 8,
    ensures
        cooldown_after_ticks((40 + (100 - freq) * 8) as u32, k) == 40 + (100 - freq) * 8 - k,
    decreases k,
{
    if k > 0 {
        lemma_strike_silence(freq, (k - 1) as nat);
    }
}

} // verus!
