use thock::cards::{
    capitalize_with, card_image, card_image_lowered, display_name, safe_id, str_contains, switch_label,
    switch_label_lowered, CardImage, SwitchKind,
};
use thock::packs::{order_packs, sort_names, str_lt, Favorites};
use thock::session::{starting_pack, window_request, AppSettings, Session, WindowRequest, DEFAULT_VOLUME};

fn strings(v: &[&str]) -> Vec<String> {
    v.iter().map(|s| s.to_string()).collect()
}

#[test]
fn names_sort_like_string_order() {
    let v = strings(&["zeta", "Alpha", "alpha", "beta", "é", "e", "", "beta"]);
    let mut expect = v.clone();
    expect.sort();
    assert_eq!(sort_names(&v), expect);
}

#[test]
fn favourites_come_first() {
    let v = strings(&["d", "c", "b", "a"]);
    let favs = Favorites::from_names(&strings(&["c", "a"]));
    assert_eq!(order_packs(&v, &favs), strings(&["a", "c", "b", "d"]));
}

#[test]
fn str_lt_is_code_point_order() {
    assert!(str_lt("a", "b"));
    assert!(str_lt("a", "ab"));
    assert!(!str_lt("ab", "a"));
    assert!(!str_lt("x", "x"));
    assert!(str_lt("Z", "a"));
    assert!(str_lt("z", "é"));
}

#[test]
fn favourites_toggle() {
    let mut f = Favorites::new();
    assert!(!f.contains("cream"));
    f.toggle("cream");
    assert!(f.contains("cream"));
    f.toggle("blue");
    let mut names = f.names();
    names.sort();
    assert_eq!(names, strings(&["blue", "cream"]));
    f.toggle("cream");
    assert!(!f.contains("cream"));
    assert_eq!(f.names(), strings(&["blue"]));
}

#[test]
fn favourites_toggle_twice_restores() {
    let mut f = Favorites::from_names(&strings(&["a", "b", "a"]));
    assert_eq!(f.names().len(), 2);
    f.toggle("c");
    f.toggle("c");
    let mut n = f.names();
    n.sort();
    assert_eq!(n, strings(&["a", "b"]));
}

#[test]
fn starting_pack_prefers_saved_when_available() {
    let avail = strings(&["blue", "cream"]);
    assert_eq!(starting_pack(&avail, Some("cream")), Some("cream".to_string()));
    assert_eq!(starting_pack(&avail, Some("gone")), Some("blue".to_string()));
    assert_eq!(starting_pack(&avail, None), Some("blue".to_string()));
    assert_eq!(starting_pack(&Vec::new(), Some("cream")), None);
}

#[test]
fn session_start_and_changes() {
    let avail = strings(&["blue", "cream"]);
    let saved = AppSettings { volume: 35, pack: "cream".to_string() };
    let (mut s, first) = Session::start(&avail, Some(&saved), Favorites::new());
    assert_eq!(first, Some("cream".to_string()));
    assert_eq!(s.volume, 35);
    assert_eq!(s.pack_name, "cream");
    let out = s.set_volume(80);
    assert_eq!((out.volume, out.pack.as_str()), (80, "cream"));
    let out = s.set_volume_from_window(0x1_0000_0007);
    assert_eq!(out.volume, 7);
    let out = s.select_pack("blue");
    assert_eq!((out.volume, out.pack.as_str()), (7, "blue"));
    let favs = s.toggle_favorite("blue");
    assert_eq!(favs, strings(&["blue"]));
    let favs = s.toggle_favorite("blue");
    assert!(favs.is_empty());
}

#[test]
fn session_start_without_settings_or_packs() {
    let (s, first) = Session::start(&Vec::new(), None, Favorites::new());
    assert_eq!(first, None);
    assert_eq!(s.volume, DEFAULT_VOLUME);
    assert_eq!(s.pack_name, "");
}

#[test]
fn card_ids_and_names() {
    assert_eq!(safe_id("my-pack 1é"), "my_pack_1_");
    assert_eq!(display_name("cherry_mx_blue"), "Cherry Mx Blue");
    assert_eq!(display_name("a__b"), "A  B");
    assert_eq!(display_name(""), "");
    assert_eq!(display_name("ßeta"), "SSeta");
}

#[test]
fn card_pictures() {
    assert_eq!(card_image("Holy Panda"), CardImage::Panda);
    assert_eq!(card_image("NK Cream"), CardImage::NewBlue);
    assert_eq!(card_image("Cherry MX Blue"), CardImage::Blue);
    assert_eq!(card_image("Alpaca V2"), CardImage::Alpaca);
    // no keyword: by the byte sum of the name (1388 % 5 == 3)
    assert_eq!(card_image("Gateron Yellow"), CardImage::Black);
}

#[test]
fn card_switch_labels() {
    assert_eq!(switch_label("cherry_mx_blue", "Cherry Mx Blue"), (SwitchKind::Clicky, 60));
    assert_eq!(switch_label("holy_panda", "Holy Panda"), (SwitchKind::Tactile, 67));
    assert_eq!(switch_label("xpanda", "Something"), (SwitchKind::Tactile, 67));
    assert_eq!(switch_label("nk_cream", "Nk Cream"), (SwitchKind::Linear, 55));
    assert_eq!(switch_label("gateron", "Gateron"), (SwitchKind::Linear, 50));
}

#[test]
fn contains_piece_search() {
    assert!(str_contains("creamy heavy", "my he"));
    assert!(str_contains("abc", ""));
    assert!(!str_contains("ab", "abc"));
    assert!(!str_contains("abc", "cb"));
}

#[test]
fn window_request_kinds() {
    assert_eq!(window_request("set_volume"), WindowRequest::SetVolume);
    assert_eq!(window_request("toggle_fav"), WindowRequest::ToggleFavorite);
    assert_eq!(window_request("asmr_update"), WindowRequest::AsmrUpdate);
    assert_eq!(window_request("quit"), WindowRequest::Quit);
    assert_eq!(window_request("Quit"), WindowRequest::Other);
}

#[test]
fn card_image_from_lowered_name() {
    assert_eq!(card_image_lowered("holy panda", "Holy Panda"), CardImage::Panda);
    assert_eq!(card_image_lowered("steelseries apex", "Steelseries Apex"), CardImage::NewBlue);
    assert_eq!(card_image_lowered("gateron red", "Gateron Red"), CardImage::Red);
    // No keyword: the byte sum of "ab" is 97 + 98 = 195, and 195 % 5 == 0.
    assert_eq!(card_image_lowered("ab", "ab"), CardImage::Panda);
    // Keywords are looked for in the lower-cased name only; the byte sum is
    // taken over the display name: "PANDA" sums to 356 (356 % 5 == 1), "Blue"
    // to 392 (392 % 5 == 2).
    assert_eq!(card_image_lowered("plain", "PANDA"), CardImage::Blue);
    assert_eq!(card_image_lowered("plain", "Blue"), CardImage::Red);
}

#[test]
fn switch_label_from_lowered_names() {
    assert_eq!(switch_label_lowered("kailh brown", "kailh_brown"), (SwitchKind::Tactile, 55));
    assert_eq!(switch_label_lowered("gateron black", "gateron_black"), (SwitchKind::Linear, 60));
    assert_eq!(switch_label_lowered("something", "x_panda"), (SwitchKind::Tactile, 67));
    assert_eq!(switch_label_lowered("BLUE", "blue"), (SwitchKind::Linear, 50));
}

#[test]
fn capitalize_with_replaces_first_character() {
    assert_eq!(capitalize_with("SS", "ßeta"), "SSeta");
    assert_eq!(capitalize_with("C", "cherry"), "Cherry");
    assert_eq!(capitalize_with("X", "y"), "X");
}

