use vstd::prelude::*;
use crate::text::str_eq;

verus! {

/// The sample rate of the synthesised switch sounds, in Hz.
pub const SAMPLE_RATE: u32 = 44100;

/// Plate materials that the procedural engine tells apart.
#[derive(PartialEq, Eq, Structural, Clone, Copy, Debug)]
pub enum PlateMaterial {
    Fr4,
    Brass,
    Aluminum,
    Nylon,
    Pom,
    Abs,
    Polycarbonate,
    Other,
}

/// Switch families that the procedural engine tells apart.
#[derive(PartialEq, Eq, Structural, Clone, Copy, Debug)]
pub enum SwitchFamily {
    Cream,
    Linear,
    Tactile,
    Clicky,
    Other,
}

/// The material- and switch-dependent integer parameters of a synthesised
/// keystroke.
#[derive(PartialEq, Eq, Structural, Clone, Copy, Debug)]
pub struct Voicing {
    /// Base cutoff of the impact noise filter, in Hz.
    pub impact_cutoff_hz: u32,
    /// Base frequency of the resonant tail, in Hz.
    pub modal_base_hz: u32,
    /// Base decay of the resonant tail, in ms.
    pub modal_decay_ms: u32,
    /// Base decay of the impact envelope, in tenths of a ms.
    pub impact_decay_tenth_ms: u32,
    /// Length of the sound, in ms.
    pub tail_ms: u32,
    /// Length of the sound, in samples at `SAMPLE_RATE`.
    pub total_samples: u64,
    /// Whether the switch type has a click mechanism.
    pub clicky: bool,
}

pub open spec fn spec_plate_material(s: Seq<char>) -> PlateMaterial {
    if s == "fr4"@ {
        PlateMaterial::Fr4
    } else if s == "brass"@ {
        PlateMaterial::Brass
    } else if s == "aluminum"@ {
        PlateMaterial::Aluminum
    } else if s == "nylon"@ {
        PlateMaterial::Nylon
    } else if s == "pom"@ {
        PlateMaterial::Pom
    } else if s == "abs"@ {
        PlateMaterial::Abs
    } else if s == "polycarbonate"@ || s == "pc"@ {
        PlateMaterial::Polycarbonate
    } else {
        PlateMaterial::Other
    }
}

pub open spec fn spec_switch_family(s: Seq<char>) -> SwitchFamily {
    if s == "cream"@ {
        SwitchFamily::Cream
    } else if s == "linear"@ || s == "red"@ || s == "black"@ {
        SwitchFamily::Linear
    } else if s == "tactile"@ || s == "brown"@ || s == "holy_panda"@ {
        SwitchFamily::Tactile
    } else if s == "clicky"@ || s == "blue"@ || s == "box_jade"@ {
        SwitchFamily::Clicky
    } else {
        SwitchFamily::Other
    }
}

pub open spec fn spec_is_clicky(s: Seq<char>) -> bool {
    s == "clicky"@ || s == "blue"@ || s == "white"@ || s == "box_jade"@
}

pub open spec fn impact_cutoff(p: PlateMaterial) -> u32 {
    match p {
        PlateMaterial::Fr4 => 3500,
        PlateMaterial::Brass => 2800,
        PlateMaterial::Aluminum => 2400,
        PlateMaterial::Nylon => 1400,
        PlateMaterial::Pom => 1200,
        PlateMaterial::Abs => 1000,
        PlateMaterial::Polycarbonate => 700,
        PlateMaterial::Other => 1200,
    }
}

pub open spec fn modal_base(p: PlateMaterial) -> u32 {
    match p {
        PlateMaterial::Fr4 => 2800,
        PlateMaterial::Brass => 2200,
        PlateMaterial::Aluminum => 1800,
        PlateMaterial::Nylon => 1200,
        PlateMaterial::Pom => 900,
        PlateMaterial::Abs => 750,
        PlateMaterial::Polycarbonate => 550,
        PlateMaterial::Other => 900,
    }
}

pub open spec fn modal_decay(p: PlateMaterial) -> u32 {
    match p {
        PlateMaterial::Fr4 => 20,
        PlateMaterial::Brass => 18,
        PlateMaterial::Aluminum => 14,
        PlateMaterial::Polycarbonate => 10,
        PlateMaterial::Pom => 7,
        PlateMaterial::Abs => 5,
        _ => 8,
    }
}

pub open spec fn impact_decay(f: SwitchFamily) -> u32 {
    match f {
        SwitchFamily::Cream => 45,
        SwitchFamily::Linear => 35,
        SwitchFamily::Tactile => 50,
        SwitchFamily::Clicky => 30,
        SwitchFamily::Other => 40,
    }
}

pub open spec fn tail(f: SwitchFamily) -> u32 {
    match f {
        SwitchFamily::Clicky => 80,
        SwitchFamily::Tactile => 65,
        SwitchFamily::Cream => 45,
        _ => 55,
    }
}

/// The voicing of a switch type on a plate material.
pub open spec fn spec_voicing(switch_type: Seq<char>, plate: Seq<char>) -> Voicing {
    let p = spec_plate_material(plate);
    let f = spec_switch_family(switch_type);
    Voicing {
        impact_cutoff_hz: impact_cutoff(p),
        modal_base_hz: modal_base(p),
        modal_decay_ms: modal_decay(p),
        impact_decay_tenth_ms: impact_decay(f),
        tail_ms: tail(f),
        total_samples: (SAMPLE_RATE * tail(f) / 1000) as u64,
        clicky: spec_is_clicky(switch_type),
    }
}

pub fn plate_material(s: &str) -> (r: PlateMaterial)
    ensures
        r == spec_plate_material(s@),
{
    if str_eq(s, "fr4") {
        PlateMaterial::Fr4
    } else if str_eq(s, "brass") {
        PlateMaterial::Brass
    } else if str_eq(s, "aluminum") {
        PlateMaterial::Aluminum
    } else if str_eq(s, "nylon") {
        PlateMaterial::Nylon
    } else if str_eq(s, "pom") {
        PlateMaterial::Pom
    } else if str_eq(s, "abs") {
        PlateMaterial::Abs
    } else if str_eq(s, "polycarbonate") || str_eq(s, "pc") {
        PlateMaterial::Polycarbonate
    } else {
        PlateMaterial::Other
    }
}

pub fn switch_family(s: &str) -> (r: SwitchFamily)
    ensures
        r == spec_switch_family(s@),
{
    if str_eq(s, "cream") {
        SwitchFamily::Cream
    } else if str_eq(s, "linear") || str_eq(s, "red") || str_eq(s, "black") {
        SwitchFamily::Linear
    } else if str_eq(s, "tactile") || str_eq(s, "brown") || str_eq(s, "holy_panda") {
        SwitchFamily::Tactile
    } else if str_eq(s, "clicky") || str_eq(s, "blue") || str_eq(s, "box_jade") {
        SwitchFamily::Clicky
    } else {
        SwitchFamily::Other
    }
}

/// Computes the voicing of a switch type on a plate material.
pub fn voicing(switch_type: &str, plate: &str) -> (r: Voicing)
    ensures
        r == spec_voicing(switch_type@, plate@),
{
    let p = plate_material(plate);
    let f = switch_family(switch_type);
    let impact_cutoff_hz: u32 = match p {
        PlateMaterial::Fr4 => 3500,
        PlateMaterial::Brass => 2800,
        PlateMaterial::Aluminum => 2400,
        PlateMaterial::Nylon => 1400,
        PlateMaterial::Pom => 1200,
        PlateMaterial::Abs => 1000,
        PlateMaterial::Polycarbonate => 700,
        PlateMaterial::Other => 1200,
    };
    let modal_base_hz: u32 = match p {
        PlateMaterial::Fr4 => 2800,
        PlateMaterial::Brass => 2200,
        PlateMaterial::Aluminum => 1800,
        PlateMaterial::Nylon => 1200,
        PlateMaterial::Pom => 900,
        PlateMaterial::Abs => 750,
        PlateMaterial::Polycarbonate => 550,
        PlateMaterial::Other => 900,
    };
    let modal_decay_ms: u32 = match p {
        PlateMaterial::Fr4 => 20,
        PlateMaterial::Brass => 18,
        PlateMaterial::Aluminum => 14,
        PlateMaterial::Polycarbonate => 10,
        PlateMaterial::Pom => 7,
        PlateMaterial::Abs => 5,
        _ => 8,
    };
    let impact_decay_tenth_ms: u32 = match f {
        SwitchFamily::Cream => 45,
        SwitchFamily::Linear => 35,
        SwitchFamily::Tactile => 50,
        SwitchFamily::Clicky => 30,
        SwitchFamily::Other => 40,
    };
    let tail_ms: u32 = match f {
        SwitchFamily::Clicky => 80,
        SwitchFamily::Tactile => 65,
        SwitchFamily::Cream => 45,
        _ => 55,
    };
    let clicky = str_eq(switch_type, "clicky") || str_eq(switch_type, "blue") || str_eq(
        switch_type,
        "white",
    ) || str_eq(switch_type, "box_jade");
    let total_samples = (SAMPLE_RATE as u64) * (tail_ms as u64) / 1000;
    Voicing {
        impact_cutoff_hz,
        modal_base_hz,
        modal_decay_ms,
        impact_decay_tenth_ms,
        tail_ms,
        total_samples,
        clicky,
    }
}

/// The characters of the switch and plate names.
proof fn lemma_voicing_word_chars()
    ensures
        "cream"@ == seq!['c', 'r', 'e', 'a', 'm'],
        "linear"@ == seq!['l', 'i', 'n', 'e', 'a', 'r'],
        "red"@ == seq!['r', 'e', 'd'],
        "black"@ == seq!['b', 'l', 'a', 'c', 'k'],
        "tactile"@ == seq!['t', 'a', 'c', 't', 'i', 'l', 'e'],
        "brown"@ == seq!['b', 'r', 'o', 'w', 'n'],
        "holy_panda"@ == seq!['h', 'o', 'l', 'y', '_', 'p', 'a', 'n', 'd', 'a'],
        "clicky"@ == seq!['c', 'l', 'i', 'c', 'k', 'y'],
        "blue"@ == seq!['b', 'l', 'u', 'e'],
        "box_jade"@ == seq!['b', 'o', 'x', '_', 'j', 'a', 'd', 'e'],
        "white"@ == seq!['w', 'h', 'i', 't', 'e'],
        "fr4"@ == seq!['f', 'r', '4'],
        "brass"@ == seq!['b', 'r', 'a', 's', 's'],
        "aluminum"@ == seq!['a', 'l', 'u', 'm', 'i', 'n', 'u', 'm'],
        "nylon"@ == seq!['n', 'y', 'l', 'o', 'n'],
        "pom"@ == seq!['p', 'o', 'm'],
        "abs"@ == seq!['a', 'b', 's'],
        "polycarbonate"@ == seq!['p', 'o', 'l', 'y', 'c', 'a', 'r', 'b', 'o', 'n', 'a', 't', 'e'],
        "pc"@ == seq!['p', 'c'],
{
    reveal_strlit("cream");
    reveal_strlit("linear");
    reveal_strlit("red");
    reveal_strlit("black");
    reveal_strlit("tactile");
    reveal_strlit("brown");
    reveal_strlit("holy_panda");
    reveal_strlit("clicky");
    reveal_strlit("blue");
    reveal_strlit("box_jade");
    reveal_strlit("white");
    reveal_strlit("fr4");
    reveal_strlit("brass");
    reveal_strlit("aluminum");
    reveal_strlit("nylon");
    reveal_strlit("pom");
    reveal_strlit("abs");
    reveal_strlit("polycarbonate");
    reveal_strlit("pc");
}

/// The voicing of the switch types, on any plate: each alias sounds like
/// its family ("brown" and "holy_panda" like "tactile", "red" and "black"
/// like "linear", "blue" and "box_jade" like "clicky"), and the families
/// differ in impact decay and length: tactile 5.0 ms and 65 ms, linear
/// 3.5 ms and 55 ms, clicky 3.0 ms and 80 ms with a click, cream 4.5 ms and
/// 45 ms; an unknown type such as "white" gets 4.0 ms and 55 ms (and
/// "white" clicks).
pub proof fn lemma_switch_voicings(plate: Seq<char>)
    ensures
        spec_voicing("brown"@, plate) == spec_voicing("tactile"@, plate),
        spec_voicing("holy_panda"@, plate) == spec_voicing("tactile"@, plate),
        spec_voicing("red"@, plate) == spec_voicing("linear"@, plate),
        spec_voicing("black"@, plate) == spec_voicing("linear"@, plate),
        spec_voicing("blue"@, plate) == spec_voicing("clicky"@, plate),
        spec_voicing("box_jade"@, plate) == spec_voicing("clicky"@, plate),
        spec_voicing("tactile"@, plate).impact_decay_tenth_ms == 50,
        spec_voicing("tactile"@, plate).tail_ms == 65,
        spec_voicing("tactile"@, plate).total_samples == 2866,
        !spec_voicing("tactile"@, plate).clicky,
        spec_voicing("linear"@, plate).impact_decay_tenth_ms == 35,
        spec_voicing("linear"@, plate).tail_ms == 55,
        spec_voicing("linear"@, plate).total_samples == 2425,
        !spec_voicing("linear"@, plate).clicky,
        spec_voicing("clicky"@, plate).impact_decay_tenth_ms == 30,
        spec_voicing("clicky"@, plate).tail_ms == 80,
        spec_voicing("clicky"@, plate).total_samples == 3528,
        spec_voicing("clicky"@, plate).clicky,
        spec_voicing("cream"@, plate).impact_decay_tenth_ms == 45,
        spec_voicing("cream"@, plate).tail_ms == 45,
        spec_voicing("cream"@, plate).total_samples == 1984,
        !spec_voicing("cream"@, plate).clicky,
        spec_voicing("white"@, plate).impact_decay_tenth_ms == 40,
        spec_voicing("white"@, plate).tail_ms == 55,
        spec_voicing("white"@, plate).clicky,
{
    lemma_voicing_word_chars();
}

/// The voicing of the plate materials, for any switch type: impact cutoff,
/// resonance frequency and resonance decay of each plate ("pc" is
/// polycarbonate), and the switch type alone decides the length, impact
/// decay and click of the sound.
pub proof fn lemma_plate_voicings(switch_type: Seq<char>, plate: Seq<char>, other: Seq<char>)
    ensures
        spec_voicing(switch_type, "pc"@) == spec_voicing(switch_type, "polycarbonate"@),
        spec_voicing(switch_type, plate).tail_ms == spec_voicing(switch_type, other).tail_ms,
        spec_voicing(switch_type, plate).impact_decay_tenth_ms == spec_voicing(
            switch_type,
            other,
        ).impact_decay_tenth_ms,
        spec_voicing(switch_type, plate).clicky == spec_voicing(switch_type, other).clicky,
        ({
            let v = spec_voicing(switch_type, "fr4"@);
            v.impact_cutoff_hz == 3500 && v.modal_base_hz == 2800 && v.modal_decay_ms == 20
        }),
        ({
            let v = spec_voicing(switch_type, "brass"@);
            v.impact_cutoff_hz == 2800 && v.modal_base_hz == 2200 && v.modal_decay_ms == 18
        }),
        ({
            let v = spec_voicing(switch_type, "aluminum"@);
            v.impact_cutoff_hz == 2400 && v.modal_base_hz == 1800 && v.modal_decay_ms == 14
        }),
        ({
            let v = spec_voicing(switch_type, "nylon"@);
            v.impact_cutoff_hz == 1400 && v.modal_base_hz == 1200 && v.modal_decay_ms == 8
        }),
        ({
            let v = spec_voicing(switch_type, "pom"@);
            v.impact_cutoff_hz == 1200 && v.modal_base_hz == 900 && v.modal_decay_ms == 7
        }),
        ({
            let v = spec_voicing(switch_type, "abs"@);
            v.impact_cutoff_hz == 1000 && v.modal_base_hz == 750 && v.modal_decay_ms == 5
        }),
        ({
            let v = spec_voicing(switch_type, "polycarbonate"@);
            v.impact_cutoff_hz == 700 && v.modal_base_hz == 550 && v.modal_decay_ms == 10
        }),
{
    lemma_voicing_word_chars();
}

/// The length in whole milliseconds of `total` samples at `sample_rate` Hz.
pub fn duration_ms(total: u64, sample_rate: u32) -> (r: u64)
    requires
        sample_rate > 0,
        total * 1000 <= u64::MAX,
    ensures
        r == total * 1000 / (sample_rate as int),
{
    total * 1000 / (sample_rate as u64)
}

/// The length in whole nanoseconds of `n_samples` interleaved samples with
/// `channels` channels at `sample_rate` Hz.
pub fn duration_nanos(n_samples: u64, channels: u16, sample_rate: u32) -> (r: u64)
    requires
        channels > 0,
        sample_rate > 0,
        (n_samples as int / channels as int) * 1_000_000_000 <= u64::MAX,
    ensures
        r == (n_samples as int / channels as int) * 1_000_000_000 / (sample_rate as int),
{
    let frames = n_samples / (channels as u64);
    frames * 1_000_000_000 / (sample_rate as u64)
}

/// A read position in a finite run of samples.
#[derive(Clone, Copy, Debug)]
pub struct SampleCursor {
    position: u64,
    total: u64,
}

impl SampleCursor {
    pub closed spec fn position(&self) -> u64 {
        self.position
    }

    pub closed spec fn total(&self) -> u64 {
        self.total
    }

    #[verifier::type_invariant]
    closed spec fn within(&self) -> bool {
        self.position <= self.total
    }

    /// A cursor at the start of `total` samples.
    pub fn new(total: u64) -> (r: Self)
        ensures
            r.position() == 0,
            r.total() == total,
    {
        SampleCursor { position: 0, total }
    }

    /// The index of the next sample, if any remain; the cursor moves past it.
    pub fn advance(&mut self) -> (r: Option<u64>)
        ensures
            final(self).total() == old(self).total(),
            old(self).position() < old(self).total() ==> r == Some(old(self).position())
                && final(self).position() == old(self).position() + 1,
            old(self).position() >= old(self).total() ==> r is None && final(self).position()
                == old(self).position(),
    {
        proof {
            use_type_invariant(&*self);
        }
        if self.position < self.total {
            let p = self.position;
            self.position = p + 1;
            Some(p)
        } else {
            None
        }
    }

    /// How many samples the run has.
    pub fn total_samples(&self) -> (r: u64)
        ensures
            r == self.total(),
    {
        self.total
    }

    /// How many samples remain.
    pub fn remaining(&self) -> (r: u64)
        ensures
            r == self.total() - self.position(),
    {
        proof {
            use_type_invariant(self);
        }
        self.total - self.position
    }
}

} // verus!
