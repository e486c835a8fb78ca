use vstd::prelude::*;
use crate::text::{
    join_from, parse_u32, parse_unsigned, seq_join, split_words, str_eq, string_views, words,
};

verus! {

/// A setting of the procedural sound engine that `proc <setting> <value>` changes.
#[derive(PartialEq, Eq, Structural, Clone, Copy, Debug)]
pub enum ProcProperty {
    Switch,
    Weight,
    Lube,
    Foam,
    ORings,
    Pitch,
    Keycap,
    Plate,
    Case,
    Mount,
}

/// An ambience parameter (a percentage) that `asmr <param> <value>` changes.
#[derive(PartialEq, Eq, Structural, Clone, Copy, Debug)]
pub enum AsmrParam {
    MasterVol,
    RainDens,
    WindGust,
    RainVol,
    WindVol,
    ThunderFreq,
    ThunderInt,
    ThunderVol,
}

/// What a `proc` command asks for; `S` is the string type.
#[derive(Debug)]
pub enum ProcAction<S> {
    /// `proc` alone: show the current settings.
    Show,
    /// `proc <one word>`: print the usage line.
    Usage,
    /// `proc <setting> <value> ...`: set a known setting to the value text.
    Assign(ProcProperty, S),
    /// `proc <unknown> <value> ...`.
    UnknownProperty(S),
}

/// What an `asmr` command asks for; `S` is the string type.
#[derive(Debug)]
pub enum AsmrAction<S> {
    /// `asmr` alone: show the status.
    Status,
    /// `asmr none`: every layer off.
    AllOff,
    /// `asmr rain`: the rain layer on.
    RainOn,
    /// `asmr thunder`: the thunder layer on.
    ThunderOn,
    /// `asmr <param> <n>`: set a parameter to `n` clamped to 100.
    Assign(AsmrParam, u32),
    /// `asmr <unknown> <n>` with a valid number.
    UnknownParam(S),
    /// `asmr <word> <not a number>`.
    BadValue,
    /// `asmr <word>` without a value.
    MissingValue(S),
}

/// One line of the interactive command line, parsed; `S` is the string type.
#[derive(Debug)]
pub enum Command<S> {
    /// A line without words.
    Blank,
    Help,
    /// `vol <n>`: the volume, clamped to 100.
    SetVolume(u32),
    /// `vol <not a number>`.
    InvalidVolume,
    /// `vol` or `pack` without an argument: nothing happens.
    NoArgument,
    /// `pack <words>`: the words joined with `_`.
    SwitchPack(S),
    ListPacks,
    Proc(ProcAction<S>),
    Asmr(AsmrAction<S>),
    Quit,
    Unknown,
}

impl View for ProcAction<String> {
    type V = ProcAction<Seq<char>>;

    open spec fn view(&self) -> ProcAction<Seq<char>> {
        match self {
            ProcAction::Show => ProcAction::Show,
            ProcAction::Usage => ProcAction::Usage,
            ProcAction::Assign(p, v) => ProcAction::Assign(*p, v@),
            ProcAction::UnknownProperty(p) => ProcAction::UnknownProperty(p@),
        }
    }
}

impl View for AsmrAction<String> {
    type V = AsmrAction<Seq<char>>;

    open spec fn view(&self) -> AsmrAction<Seq<char>> {
        match self {
            AsmrAction::Status => AsmrAction::Status,
            AsmrAction::AllOff => AsmrAction::AllOff,
            AsmrAction::RainOn => AsmrAction::RainOn,
            AsmrAction::ThunderOn => AsmrAction::ThunderOn,
            AsmrAction::Assign(p, v) => AsmrAction::Assign(*p, *v),
            AsmrAction::UnknownParam(p) => AsmrAction::UnknownParam(p@),
            AsmrAction::BadValue => AsmrAction::BadValue,
            AsmrAction::MissingValue(p) => AsmrAction::MissingValue(p@),
        }
    }
}

impl View for Command<String> {
    type V = Command<Seq<char>>;

    open spec fn view(&self) -> Command<Seq<char>> {
        match self {
            Command::Blank => Command::Blank,
            Command::Help => Command::Help,
            Command::SetVolume(v) => Command::SetVolume(*v),
            Command::InvalidVolume => Command::InvalidVolume,
            Command::NoArgument => Command::NoArgument,
            Command::SwitchPack(p) => Command::SwitchPack(p@),
            Command::ListPacks => Command::ListPacks,
            Command::Proc(a) => Command::Proc(a@),
            Command::Asmr(a) => Command::Asmr(a@),
            Command::Quit => Command::Quit,
            Command::Unknown => Command::Unknown,
        }
    }
}

pub open spec fn spec_proc_property(w: Seq<char>) -> Option<ProcProperty> {
    if w == "switch"@ {
        Some(ProcProperty::Switch)
    } else if w == "weight"@ {
        Some(ProcProperty::Weight)
    } else if w == "lube"@ {
        Some(ProcProperty::Lube)
    } else if w == "foam"@ {
        Some(ProcProperty::Foam)
    } else if w == "orings"@ {
        Some(ProcProperty::ORings)
    } else if w == "pitch"@ {
        Some(ProcProperty::Pitch)
    } else if w == "keycap"@ {
        Some(ProcProperty::Keycap)
    } else if w == "plate"@ {
        Some(ProcProperty::Plate)
    } else if w == "case"@ {
        Some(ProcProperty::Case)
    } else if w == "mount"@ {
        Some(ProcProperty::Mount)
    } else {
        None
    }
}

pub open spec fn spec_asmr_param(w: Seq<char>) -> Option<AsmrParam> {
    if w == "vol"@ {
        Some(AsmrParam::MasterVol)
    } else if w == "rain_dens"@ {
        Some(AsmrParam::RainDens)
    } else if w == "wind_gust"@ {
        Some(AsmrParam::WindGust)
    } else if w == "rain_vol"@ {
        Some(AsmrParam::RainVol)
    } else if w == "wind_vol"@ {
        Some(AsmrParam::WindVol)
    } else if w == "thunder_freq"@ {
        Some(AsmrParam::ThunderFreq)
    } else if w == "thunder_int"@ {
        Some(AsmrParam::ThunderInt)
    } else if w == "thunder_vol"@ {
        Some(AsmrParam::ThunderVol)
    } else {
        None
    }
}

/// A percentage typed on the command line: the number, at most 100.
pub open spec fn clamp_percent(v: nat) -> u32 {
    if v > 100 {
        100
    } else {
        v as u32
    }
}

pub open spec fn spec_proc_action(ws: Seq<Seq<char>>) -> ProcAction<Seq<char>> {
    if ws.len() == 1 {
        ProcAction::Show
    } else if ws.len() >= 3 {
        match spec_proc_property(ws[1]) {
            Some(p) => ProcAction::Assign(p, ws[2]),
            None => ProcAction::UnknownProperty(ws[1]),
        }
    } else {
        ProcAction::Usage
    }
}

pub open spec fn spec_asmr_action(ws: Seq<Seq<char>>) -> AsmrAction<Seq<char>> {
    if ws.len() == 1 {
        AsmrAction::Status
    } else if ws[1] == "none"@ {
        AsmrAction::AllOff
    } else if ws[1] == "rain"@ {
        AsmrAction::RainOn
    } else if ws[1] == "thunder"@ {
        AsmrAction::ThunderOn
    } else if ws.len() >= 3 {
        match parse_unsigned(ws[2], u32::MAX as nat) {
            Some(v) => match spec_asmr_param(ws[1]) {
                Some(p) => AsmrAction::Assign(p, clamp_percent(v)),
                None => AsmrAction::UnknownParam(ws[1]),
            },
            None => AsmrAction::BadValue,
        }
    } else {
        AsmrAction::MissingValue(ws[1])
    }
}

/// The meaning of a command line split into the words `ws`.
pub open spec fn spec_command(ws: Seq<Seq<char>>) -> Command<Seq<char>> {
    if ws.len() == 0 {
        Command::Blank
    } else if ws[0] == "help"@ {
        Command::Help
    } else if ws[0] == "vol"@ {
        if ws.len() > 1 {
            match parse_unsigned(ws[1], u32::MAX as nat) {
                Some(v) => Command::SetVolume(clamp_percent(v)),
                None => Command::InvalidVolume,
            }
        } else {
            Command::NoArgument
        }
    } else if ws[0] == "pack"@ {
        if ws.len() > 1 {
            Command::SwitchPack(seq_join(ws.subrange(1, ws.len() as int), "_"@))
        } else {
            Command::NoArgument
        }
    } else if ws[0] == "packs"@ {
        Command::ListPacks
    } else if ws[0] == "proc"@ {
        Command::Proc(spec_proc_action(ws))
    } else if ws[0] == "asmr"@ {
        Command::Asmr(spec_asmr_action(ws))
    } else if ws[0] == "quit"@ || ws[0] == "exit"@ {
        Command::Quit
    } else {
        Command::Unknown
    }
}

pub fn proc_property(w: &str) -> (r: Option<ProcProperty>)
    ensures
        r == spec_proc_property(w@),
{
    if str_eq(w, "switch") {
        Some(ProcProperty::Switch)
    } else if str_eq(w, "weight") {
        Some(ProcProperty::Weight)
    } else if str_eq(w, "lube") {
        Some(ProcProperty::Lube)
    } else if str_eq(w, "foam") {
        Some(ProcProperty::Foam)
    } else if str_eq(w, "orings") {
        Some(ProcProperty::ORings)
    } else if str_eq(w, "pitch") {
        Some(ProcProperty::Pitch)
    } else if str_eq(w, "keycap") {
        Some(ProcProperty::Keycap)
    } else if str_eq(w, "plate") {
        Some(ProcProperty::Plate)
    } else if str_eq(w, "case") {
        Some(ProcProperty::Case)
    } else if str_eq(w, "mount") {
        Some(ProcProperty::Mount)
    } else {
        None
    }
}

pub fn asmr_param(w: &str) -> (r: Option<AsmrParam>)
    ensures
        r == spec_asmr_param(w@),
{
    if str_eq(w, "vol") {
        Some(AsmrParam::MasterVol)
    } else if str_eq(w, "rain_dens") {
        Some(AsmrParam::RainDens)
    } else if str_eq(w, "wind_gust") {
        Some(AsmrParam::WindGust)
    } else if str_eq(w, "rain_vol") {
        Some(AsmrParam::RainVol)
    } else if str_eq(w, "wind_vol") {
        Some(AsmrParam::WindVol)
    } else if str_eq(w, "thunder_freq") {
        Some(AsmrParam::ThunderFreq)
    } else if str_eq(w, "thunder_int") {
        Some(AsmrParam::ThunderInt)
    } else if str_eq(w, "thunder_vol") {
        Some(AsmrParam::ThunderVol)
    } else {
        None
    }
}

fn clamp_percent_u32(v: u32) -> (r: u32)
    ensures
        r == clamp_percent(v as nat),
{
    if v > 100 {
        100
    } else {
        v
    }
}

fn copy_word(ws: &Vec<String>, i: usize) -> (r: String)
    requires
        i < ws@.len(),
    ensures
        r@ == ws@[i as int]@,
{
    ws[i].clone()
}

fn parse_proc(ws: &Vec<String>) -> (r: ProcAction<String>)
    requires
        ws@.len() >= 1,
    ensures
        r@ == spec_proc_action(string_views(ws@)),
{
    if ws.len() == 1 {
        ProcAction::Show
    } else if ws.len() >= 3 {
        match proc_property(ws[1].as_str()) {
            Some(p) => ProcAction::Assign(p, copy_word(ws, 2)),
            None => ProcAction::UnknownProperty(copy_word(ws, 1)),
        }
    } else {
        ProcAction::Usage
    }
}

fn parse_asmr(ws: &Vec<String>) -> (r: AsmrAction<String>)
    requires
        ws@.len() >= 1,
    ensures
        r@ == spec_asmr_action(string_views(ws@)),
{
    if ws.len() == 1 {
        AsmrAction::Status
    } else if str_eq(ws[1].as_str(), "none") {
        AsmrAction::AllOff
    } else if str_eq(ws[1].as_str(), "rain") {
        AsmrAction::RainOn
    } else if str_eq(ws[1].as_str(), "thunder") {
        AsmrAction::ThunderOn
    } else if ws.len() >= 3 {
        match parse_u32(ws[2].as_str()) {
            Some(v) => match asmr_param(ws[1].as_str()) {
                Some(p) => AsmrAction::Assign(p, clamp_percent_u32(v)),
                None => AsmrAction::UnknownParam(copy_word(ws, 1)),
            },
            None => AsmrAction::BadValue,
        }
    } else {
        AsmrAction::MissingValue(copy_word(ws, 1))
    }
}

/// Parses one line typed at the interactive prompt.
pub fn parse_command(line: &str) -> (r: Command<String>)
    ensures
        r@ == spec_command(words(line@)),
{
    let ws = split_words(line);
    let ghost v = string_views(ws@);
    if ws.len() == 0 {
        Command::Blank
    } else if str_eq(ws[0].as_str(), "help") {
        Command::Help
    } else if str_eq(ws[0].as_str(), "vol") {
        if ws.len() > 1 {
            match parse_u32(ws[1].as_str()) {
                Some(n) => Command::SetVolume(clamp_percent_u32(n)),
                None => Command::InvalidVolume,
            }
        } else {
            Command::NoArgument
        }
    } else if str_eq(ws[0].as_str(), "pack") {
        if ws.len() > 1 {
            Command::SwitchPack(join_from(&ws, 1, "_"))
        } else {
            Command::NoArgument
        }
    } else if str_eq(ws[0].as_str(), "packs") {
        Command::ListPacks
    } else if str_eq(ws[0].as_str(), "proc") {
        Command::Proc(parse_proc(&ws))
    } else if str_eq(ws[0].as_str(), "asmr") {
        Command::Asmr(parse_asmr(&ws))
    } else if str_eq(ws[0].as_str(), "quit") || str_eq(ws[0].as_str(), "exit") {
        Command::Quit
    } else {
        Command::Unknown
    }
}


/// Every percentage set from the command line (the volume and the ambience
/// parameters) is at most 100.
pub proof fn lemma_cli_percentages_bounded(ws: Seq<Seq<char>>)
    ensures
        match spec_command(ws) {
            Command::SetVolume(v) => v <= 100,
            Command::Asmr(AsmrAction::Assign(_, v)) => v <= 100,
            _ => true,
        },
{
}

/// The word that names an ambience parameter on the command line.
pub open spec fn asmr_param_word(p: AsmrParam) -> Seq<char> {
    match p {
        AsmrParam::MasterVol => "vol"@,
        AsmrParam::RainDens => "rain_dens"@,
        AsmrParam::WindGust => "wind_gust"@,
        AsmrParam::RainVol => "rain_vol"@,
        AsmrParam::WindVol => "wind_vol"@,
        AsmrParam::ThunderFreq => "thunder_freq"@,
        AsmrParam::ThunderInt => "thunder_int"@,
        AsmrParam::ThunderVol => "thunder_vol"@,
    }
}

/// The word that names a procedural setting on the command line.
pub open spec fn proc_property_word(p: ProcProperty) -> Seq<char> {
    match p {
        ProcProperty::Switch => "switch"@,
        ProcProperty::Weight => "weight"@,
        ProcProperty::Lube => "lube"@,
        ProcProperty::Foam => "foam"@,
        ProcProperty::ORings => "orings"@,
        ProcProperty::Pitch => "pitch"@,
        ProcProperty::Keycap => "keycap"@,
        ProcProperty::Plate => "plate"@,
        ProcProperty::Case => "case"@,
        ProcProperty::Mount => "mount"@,
    }
}

/// The characters of the command words.
proof fn lemma_command_word_chars()
    ensures
        "help"@ == seq!['h', 'e', 'l', 'p'],
        "vol"@ == seq!['v', 'o', 'l'],
        "pack"@ == seq!['p', 'a', 'c', 'k'],
        "packs"@ == seq!['p', 'a', 'c', 'k', 's'],
        "proc"@ == seq!['p', 'r', 'o', 'c'],
        "asmr"@ == seq!['a', 's', 'm', 'r'],
        "quit"@ == seq!['q', 'u', 'i', 't'],
        "exit"@ == seq!['e', 'x', 'i', 't'],
        "none"@ == seq!['n', 'o', 'n', 'e'],
        "rain"@ == seq!['r', 'a', 'i', 'n'],
        "thunder"@ == seq!['t', 'h', 'u', 'n', 'd', 'e', 'r'],
        "rain_dens"@ == seq!['r', 'a', 'i', 'n', '_', 'd', 'e', 'n', 's'],
        "wind_gust"@ == seq!['w', 'i', 'n', 'd', '_', 'g', 'u', 's', 't'],
        "rain_vol"@ == seq!['r', 'a', 'i', 'n', '_', 'v', 'o', 'l'],
        "wind_vol"@ == seq!['w', 'i', 'n', 'd', '_', 'v', 'o', 'l'],
        "thunder_freq"@ == seq!['t', 'h', 'u', 'n', 'd', 'e', 'r', '_', 'f', 'r', 'e', 'q'],
        "thunder_int"@ == seq!['t', 'h', 'u', 'n', 'd', 'e', 'r', '_', 'i', 'n', 't'],
        "thunder_vol"@ == seq!['t', 'h', 'u', 'n', 'd', 'e', 'r', '_', 'v', 'o', 'l'],
        "switch"@ == seq!['s', 'w', 'i', 't', 'c', 'h'],
        "weight"@ == seq!['w', 'e', 'i', 'g', 'h', 't'],
        "lube"@ == seq!['l', 'u', 'b', 'e'],
        "foam"@ == seq!['f', 'o', 'a', 'm'],
        "orings"@ == seq!['o', 'r', 'i', 'n', 'g', 's'],
        "pitch"@ == seq!['p', 'i', 't', 'c', 'h'],
        "keycap"@ == seq!['k', 'e', 'y', 'c', 'a', 'p'],
        "plate"@ == seq!['p', 'l', 'a', 't', 'e'],
        "case"@ == seq!['c', 'a', 's', 'e'],
        "mount"@ == seq!['m', 'o', 'u', 'n', 't'],
{
    reveal_strlit("help");
    reveal_strlit("vol");
    reveal_strlit("pack");
    reveal_strlit("packs");
    reveal_strlit("proc");
    reveal_strlit("asmr");
    reveal_strlit("quit");
    reveal_strlit("exit");
    reveal_strlit("none");
    reveal_strlit("rain");
    reveal_strlit("thunder");
    reveal_strlit("rain_dens");
    reveal_strlit("wind_gust");
    reveal_strlit("rain_vol");
    reveal_strlit("wind_vol");
    reveal_strlit("thunder_freq");
    reveal_strlit("thunder_int");
    reveal_strlit("thunder_vol");
    reveal_strlit("switch");
    reveal_strlit("weight");
    reveal_strlit("lube");
    reveal_strlit("foam");
    reveal_strlit("orings");
    reveal_strlit("pitch");
    reveal_strlit("keycap");
    reveal_strlit("plate");
    reveal_strlit("case");
    reveal_strlit("mount");
}

/// Each ambience parameter name denotes its own parameter: the word of `p`
/// parses to `p`, and distinct parameters have distinct words.
pub proof fn lemma_asmr_param_words(p: AsmrParam, q: AsmrParam)
    ensures
        spec_asmr_param(asmr_param_word(p)) == Some(p),
        p != q ==> asmr_param_word(p) != asmr_param_word(q),
{
    lemma_command_word_chars();
}

/// Each procedural setting name denotes its own setting: the word of `p`
/// parses to `p`, and distinct settings have distinct words.
pub proof fn lemma_proc_property_words(p: ProcProperty, q: ProcProperty)
    ensures
        spec_proc_property(proc_property_word(p)) == Some(p),
        p != q ==> proc_property_word(p) != proc_property_word(q),
{
    lemma_command_word_chars();
}

/// `asmr <name> <n>` with the name of parameter `p` and a number `n` sets
/// exactly `p`, to `n` capped at 100.
pub proof fn lemma_asmr_assigns_named_param(ws: Seq<Seq<char>>, p: AsmrParam, n: nat)
    requires
        ws.len() >= 3,
        ws[0] == "asmr"@,
        ws[1] == asmr_param_word(p),
        parse_unsigned(ws[2], u32::MAX as nat) == Some(n),
    ensures
        spec_command(ws) == Command::<Seq<char>>::Asmr(
            AsmrAction::Assign(p, if n > 100 { 100u32 } else { n as u32 }),
        ),
{
    lemma_command_word_chars();
    lemma_asmr_param_words(p, p);
}

/// `proc <name> <value> ...` with the name of setting `p` sets exactly `p`,
/// to the value word.
pub proof fn lemma_proc_assigns_named_property(ws: Seq<Seq<char>>, p: ProcProperty)
    requires
        ws.len() >= 3,
        ws[0] == "proc"@,
        ws[1] == proc_property_word(p),
    ensures
        spec_command(ws) == Command::<Seq<char>>::Proc(ProcAction::Assign(p, ws[2])),
{
    lemma_command_word_chars();
    lemma_proc_property_words(p, p);
}

/// What each command word does, whatever follows it: `help`, `packs`,
/// `quit` and `exit` ignore their arguments; `vol <n>` sets the volume to
/// `n` capped at 100 and rejects a word that is not a number; `pack` joins
/// its words with `_`; `asmr none|rain|thunder` switch the layers; `vol` or
/// `pack` alone does nothing; any other first word is unknown.
pub proof fn lemma_command_words(ws: Seq<Seq<char>>)
    requires
        ws.len() >= 1,
    ensures
        ws[0] == "help"@ ==> spec_command(ws) == Command::<Seq<char>>::Help,
        ws[0] == "packs"@ ==> spec_command(ws) == Command::<Seq<char>>::ListPacks,
        ws[0] == "quit"@ || ws[0] == "exit"@ ==> spec_command(ws) == Command::<Seq<char>>::Quit,
        (ws[0] == "vol"@ || ws[0] == "pack"@) && ws.len() == 1 ==> spec_command(ws)
            == Command::<Seq<char>>::NoArgument,
        ws[0] == "vol"@ && ws.len() > 1 ==> spec_command(ws) == match parse_unsigned(
            ws[1],
            u32::MAX as nat,
        ) {
            Some(n) => Command::<Seq<char>>::SetVolume(if n > 100 { 100u32 } else { n as u32 }),
            None => Command::<Seq<char>>::InvalidVolume,
        },
        ws[0] == "pack"@ && ws.len() == 2 ==> spec_command(ws) == Command::<Seq<char>>::SwitchPack(
            ws[1],
        ),
        ws[0] == "pack"@ && ws.len() == 3 ==> spec_command(ws) == Command::<Seq<char>>::SwitchPack(
            ws[1] + "_"@ + ws[2],
        ),
        ws[0] == "asmr"@ && ws.len() >= 2 && ws[1] == "none"@ ==> spec_command(ws)
            == Command::<Seq<char>>::Asmr(AsmrAction::AllOff),
        ws[0] == "asmr"@ && ws.len() >= 2 && ws[1] == "rain"@ ==> spec_command(ws)
            == Command::<Seq<char>>::Asmr(AsmrAction::RainOn),
        ws[0] == "asmr"@ && ws.len() >= 2 && ws[1] == "thunder"@ ==> spec_command(ws)
            == Command::<Seq<char>>::Asmr(AsmrAction::ThunderOn),
        ws[0] != "help"@ && ws[0] != "vol"@ && ws[0] != "pack"@ && ws[0] != "packs"@ && ws[0]
            != "proc"@ && ws[0] != "asmr"@ && ws[0] != "quit"@ && ws[0] != "exit"@ ==> spec_command(
            ws,
        ) == Command::<Seq<char>>::Unknown,
{
    lemma_command_word_chars();
    assert("packs"@.len() != "pack"@.len());
    if ws.len() == 2 {
        assert(ws.subrange(1, 2) =~= seq![ws[1]]);
    }
    if ws.len() == 3 {
        let t = ws.subrange(1, 3);
        assert(t.drop_last() =~= seq![ws[1]]);
        assert(t.last() == ws[2]);
        assert(seq_join(t, "_"@) == seq_join(t.drop_last(), "_"@) + "_"@ + t.last());
    }
}

} // verus!

