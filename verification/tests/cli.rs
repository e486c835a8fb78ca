use thock::command::{parse_command, AsmrAction, AsmrParam, Command, ProcAction, ProcProperty};
use thock::completion::ThockHelper;
use thock::text::{join_from, parse_u32, parse_u64, split_words, str_eq, str_starts_with};

fn words(s: &str) -> Vec<String> {
    split_words(s)
}

#[test]
fn split_words_like_split_whitespace() {
    for line in ["", "   ", "vol 80", "  pack   creamy  heavy ", "a\tb\nc", "x\u{3000}y\u{a0}z", "é à"] {
        let expect: Vec<String> = line.split_whitespace().map(|s| s.to_string()).collect();
        assert_eq!(words(line), expect, "{:?}", line);
    }
}

#[test]
fn parse_u32_like_str_parse() {
    for s in ["0", "42", "+42", "007", "4294967295", "4294967296", "", "+", "-1", "-0", "1_0", "12a", " 1", "\u{663}", "99999999999999999999"] {
        assert_eq!(parse_u32(s), s.parse::<u32>().ok(), "{:?}", s);
    }
}

#[test]
fn parse_u64_like_str_parse() {
    for s in ["18446744073709551615", "18446744073709551616", "30", "+3613", "3.5", "x"] {
        assert_eq!(parse_u64(s), s.parse::<u64>().ok(), "{:?}", s);
    }
}

#[test]
fn join_and_compare() {
    let ws = words("pack creamy heavy nk");
    assert_eq!(join_from(&ws, 1, "_"), "creamy_heavy_nk");
    assert_eq!(join_from(&ws, 4, "_"), "");
    assert!(str_eq("abc", "abc"));
    assert!(!str_eq("abc", "abd"));
    assert!(str_starts_with("pitch", "pi"));
    assert!(!str_starts_with("pi", "pitch"));
}

#[test]
fn command_help_quit_unknown() {
    assert!(matches!(parse_command("help"), Command::Help));
    assert!(matches!(parse_command("  quit "), Command::Quit));
    assert!(matches!(parse_command("exit now"), Command::Quit));
    assert!(matches!(parse_command("jump"), Command::Unknown));
    assert!(matches!(parse_command("   "), Command::Blank));
    assert!(matches!(parse_command("packs"), Command::ListPacks));
}

#[test]
fn command_volume() {
    assert!(matches!(parse_command("vol 80"), Command::SetVolume(80)));
    assert!(matches!(parse_command("vol 150"), Command::SetVolume(100)));
    assert!(matches!(parse_command("vol +0"), Command::SetVolume(0)));
    assert!(matches!(parse_command("vol -3"), Command::InvalidVolume));
    assert!(matches!(parse_command("vol loud"), Command::InvalidVolume));
    assert!(matches!(parse_command("vol"), Command::NoArgument));
}

#[test]
fn command_pack_joins_words() {
    match parse_command("pack creamy heavy") {
        Command::SwitchPack(p) => assert_eq!(p, "creamy_heavy"),
        other => panic!("{:?}", other),
    }
    assert!(matches!(parse_command("pack"), Command::NoArgument));
}

#[test]
fn command_proc_forms() {
    assert!(matches!(parse_command("proc"), Command::Proc(ProcAction::Show)));
    assert!(matches!(parse_command("proc lube"), Command::Proc(ProcAction::Usage)));
    match parse_command("proc lube 0.9") {
        Command::Proc(ProcAction::Assign(ProcProperty::Lube, v)) => assert_eq!(v, "0.9"),
        other => panic!("{:?}", other),
    }
    match parse_command("proc color red") {
        Command::Proc(ProcAction::UnknownProperty(p)) => assert_eq!(p, "color"),
        other => panic!("{:?}", other),
    }
}

#[test]
fn command_asmr_forms() {
    assert!(matches!(parse_command("asmr"), Command::Asmr(AsmrAction::Status)));
    assert!(matches!(parse_command("asmr none"), Command::Asmr(AsmrAction::AllOff)));
    assert!(matches!(parse_command("asmr rain 5"), Command::Asmr(AsmrAction::RainOn)));
    assert!(matches!(parse_command("asmr thunder"), Command::Asmr(AsmrAction::ThunderOn)));
    assert!(matches!(parse_command("asmr vol 120"), Command::Asmr(AsmrAction::Assign(AsmrParam::MasterVol, 100))));
    assert!(matches!(parse_command("asmr thunder_int 7"), Command::Asmr(AsmrAction::Assign(AsmrParam::ThunderInt, 7))));
    assert!(matches!(parse_command("asmr rain_vol x"), Command::Asmr(AsmrAction::BadValue)));
    assert!(matches!(parse_command("asmr bogus x"), Command::Asmr(AsmrAction::BadValue)));
    match parse_command("asmr bogus 3") {
        Command::Asmr(AsmrAction::UnknownParam(p)) => assert_eq!(p, "bogus"),
        other => panic!("{:?}", other),
    }
    match parse_command("asmr wind_vol") {
        Command::Asmr(AsmrAction::MissingValue(p)) => assert_eq!(p, "wind_vol"),
        other => panic!("{:?}", other),
    }
}

fn helper() -> ThockHelper {
    ThockHelper::new(vec!["cream".to_string(), "creamy_heavy".to_string(), "blue".to_string()])
}

#[test]
fn complete_first_word() {
    let h = helper();
    assert_eq!(h.complete("", 0), (0, vec!["vol", "pack", "proc", "pitch", "help", "exit"].into_iter().map(String::from).collect::<Vec<_>>()));
    assert_eq!(h.complete("p", 1), (0, vec!["pack".to_string(), "proc".to_string(), "pitch".to_string()]));
    assert_eq!(h.complete("  pr", 4), (2, vec!["proc".to_string()]));
    assert_eq!(h.complete("pitch", 2), (0, vec!["pitch".to_string()]));
}

#[test]
fn complete_pack_names() {
    let h = helper();
    assert_eq!(h.complete("pack ", 5), (5, vec!["cream".to_string(), "creamy_heavy".to_string(), "blue".to_string()]));
    assert_eq!(h.complete("pack crea", 9), (5, vec!["cream".to_string(), "creamy_heavy".to_string()]));
    assert_eq!(h.complete("pack creamy", 11), (5, vec!["creamy_heavy".to_string()]));
    assert_eq!(h.complete("pack a b", 8), (7, vec!["cream".to_string(), "creamy_heavy".to_string(), "blue".to_string()]));
}

#[test]
fn complete_other_commands_offer_nothing() {
    let h = helper();
    assert_eq!(h.complete("vol ", 4), (4, vec![]));
    assert_eq!(h.complete("vol 8", 5), (4, vec![]));
}

#[test]
fn complete_counts_bytes() {
    let h = ThockHelper::new(vec!["été".to_string()]);
    // 'é' takes two bytes in UTF-8
    assert_eq!(h.complete("pack é", 7), (5, vec!["été".to_string()]));
    assert_eq!(h.complete("é pack", 2).0, 0);
    assert_eq!(h.complete("é ", 3).0, 3);
}
