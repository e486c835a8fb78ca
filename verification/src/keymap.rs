use vstd::prelude::*;
use std::collections::HashMap;

verus! {

broadcast use vstd::std_specs::hash::group_hash_axioms;

/// The table from macOS virtual key codes to the key codes that sound packs
/// name their samples by, in the order in which it is built.
pub open spec fn key_pairs() -> Seq<(u16, u64)> {
    seq![
        (53u16, 1u64), // Escape
        (122u16, 59u64), // F1
        (120u16, 60u64), // F2
        (99u16, 61u64), // F3
        (118u16, 62u64), // F4
        (96u16, 63u64), // F5
        (97u16, 64u64), // F6
        (98u16, 65u64), // F7
        (100u16, 66u64), // F8
        (101u16, 67u64), // F9
        (109u16, 68u64), // F10
        (103u16, 87u64), // F11
        (111u16, 88u64), // F12
        (50u16, 41u64), // BackQuote
        (18u16, 2u64), // 1
        (19u16, 3u64), // 2
        (20u16, 4u64), // 3
        (21u16, 5u64), // 4
        (23u16, 6u64), // 5
        (22u16, 7u64), // 6
        (26u16, 8u64), // 7
        (28u16, 9u64), // 8
        (25u16, 10u64), // 9
        (29u16, 11u64), // 0
        (27u16, 12u64), // Minus
        (24u16, 13u64), // Equal
        (51u16, 14u64), // Backspace
        (48u16, 15u64), // Tab
        (57u16, 58u64), // CapsLock
        (0u16, 30u64), // A
        (11u16, 48u64), // B
        (8u16, 46u64), // C
        (2u16, 32u64), // D
        (14u16, 18u64), // E
        (3u16, 33u64), // F
        (5u16, 34u64), // G
        (4u16, 35u64), // H
        (34u16, 23u64), // I
        (38u16, 36u64), // J
        (40u16, 37u64), // K
        (37u16, 38u64), // L
        (46u16, 50u64), // M
        (45u16, 49u64), // N
        (31u16, 24u64), // O
        (35u16, 25u64), // P
        (12u16, 16u64), // Q
        (15u16, 19u64), // R
        (1u16, 31u64), // S
        (17u16, 20u64), // T
        (32u16, 22u64), // U
        (9u16, 47u64), // V
        (13u16, 17u64), // W
        (7u16, 45u64), // X
        (16u16, 21u64), // Y
        (6u16, 44u64), // Z
        (33u16, 26u64), // LeftBracket
        (30u16, 27u64), // RightBracket
        (42u16, 43u64), // BackSlash
        (41u16, 39u64), // SemiColon
        (39u16, 40u64), // Quote
        (36u16, 28u64), // Return
        (43u16, 51u64), // Comma
        (47u16, 52u64), // Dot
        (44u16, 53u64), // Slash
        (49u16, 57u64), // Space
        (114u16, 3666u64), // Insert (Help on mac)
        (117u16, 3667u64), // Delete (Forward Delete)
        (115u16, 3655u64), // Home
        (119u16, 3663u64), // End
        (116u16, 3657u64), // PageUp
        (121u16, 3665u64), // PageDown
        (126u16, 57416u64), // UpArrow
        (123u16, 57419u64), // LeftArrow
        (124u16, 57421u64), // RightArrow
        (125u16, 57424u64), // DownArrow
        (56u16, 42u64), // ShiftLeft
        (60u16, 54u64), // ShiftRight
        (59u16, 29u64), // ControlLeft
        (62u16, 3613u64), // ControlRight
        (58u16, 56u64), // AltLeft (Option)
        (61u16, 3640u64), // AltRight
        (55u16, 91u64), // CommandLeft
        (54u16, 92u64), // CommandRight
        (71u16, 69u64), // NumLock (Clear)
        (75u16, 3637u64), // KpDivide
        (67u16, 55u64), // KpMultiply
        (78u16, 74u64), // KpMinus
        (69u16, 78u64), // KpPlus
        (76u16, 3612u64), // KpReturn
        (82u16, 82u64), // Kp0
        (83u16, 79u64), // Kp1
        (84u16, 80u64), // Kp2
        (85u16, 81u64), // Kp3
        (86u16, 75u64), // Kp4
        (87u16, 76u64), // Kp5
        (88u16, 77u64), // Kp6
        (89u16, 71u64), // Kp7
        (91u16, 72u64), // Kp8
        (92u16, 73u64), // Kp9
        (65u16, 52u64), // KpDecimal
    ]
}

/// The map that inserting `pairs` in order builds.
pub open spec fn map_of(pairs: Seq<(u16, u64)>) -> Map<u16, u64>
    decreases pairs.len(),
{
    if pairs.len() == 0 {
        Map::empty()
    } else {
        map_of(pairs.drop_last()).insert(pairs.last().0, pairs.last().1)
    }
}

/// The key map: macOS key code to sound-pack key code.
pub open spec fn key_table() -> Map<u16, u64> {
    map_of(key_pairs())
}

/// Builds the map from macOS virtual key codes to sound-pack key codes.
pub fn get_key_map() -> (r: HashMap<u16, u64>)
    ensures
        r@ == key_table(),
{
    let standard: Vec<(u16, u64)> = vec![
        (53u16, 1u64),
        (122u16, 59u64),
        (120u16, 60u64),
        (99u16, 61u64),
        (118u16, 62u64),
        (96u16, 63u64),
        (97u16, 64u64),
        (98u16, 65u64),
        (100u16, 66u64),
        (101u16, 67u64),
        (109u16, 68u64),
        (103u16, 87u64),
        (111u16, 88u64),
        (50u16, 41u64),
        (18u16, 2u64),
        (19u16, 3u64),
        (20u16, 4u64),
        (21u16, 5u64),
        (23u16, 6u64),
        (22u16, 7u64),
        (26u16, 8u64),
        (28u16, 9u64),
        (25u16, 10u64),
        (29u16, 11u64),
        (27u16, 12u64),
        (24u16, 13u64),
        (51u16, 14u64),
        (48u16, 15u64),
        (57u16, 58u64),
        (0u16, 30u64),
        (11u16, 48u64),
        (8u16, 46u64),
        (2u16, 32u64),
        (14u16, 18u64),
        (3u16, 33u64),
        (5u16, 34u64),
        (4u16, 35u64),
        (34u16, 23u64),
        (38u16, 36u64),
        (40u16, 37u64),
        (37u16, 38u64),
        (46u16, 50u64),
        (45u16, 49u64),
        (31u16, 24u64),
        (35u16, 25u64),
        (12u16, 16u64),
        (15u16, 19u64),
        (1u16, 31u64),
        (17u16, 20u64),
        (32u16, 22u64),
        (9u16, 47u64),
        (13u16, 17u64),
        (7u16, 45u64),
        (16u16, 21u64),
        (6u16, 44u64),
        (33u16, 26u64),
        (30u16, 27u64),
        (42u16, 43u64),
        (41u16, 39u64),
        (39u16, 40u64),
        (36u16, 28u64),
        (43u16, 51u64),
        (47u16, 52u64),
        (44u16, 53u64),
        (49u16, 57u64),
        (114u16, 3666u64),
        (117u16, 3667u64),
        (115u16, 3655u64),
        (119u16, 3663u64),
        (116u16, 3657u64),
        (121u16, 3665u64),
        (126u16, 57416u64),
        (123u16, 57419u64),
        (124u16, 57421u64),
        (125u16, 57424u64),
        (56u16, 42u64),
        (60u16, 54u64),
        (59u16, 29u64),
        (62u16, 3613u64),
        (58u16, 56u64),
        (61u16, 3640u64),
        (55u16, 91u64),
        (54u16, 92u64),
        (71u16, 69u64),
        (75u16, 3637u64),
        (67u16, 55u64),
        (78u16, 74u64),
        (69u16, 78u64),
        (76u16, 3612u64),
        (82u16, 82u64),
        (83u16, 79u64),
        (84u16, 80u64),
        (85u16, 81u64),
        (86u16, 75u64),
        (87u16, 76u64),
        (88u16, 77u64),
        (89u16, 71u64),
        (91u16, 72u64),
        (92u16, 73u64),
        (65u16, 52u64),
    ];
    assert(standard@ == key_pairs());
    let mut map: HashMap<u16, u64> = HashMap::with_capacity(standard.len());
    let mut i: usize = 0;
    while i < standard.len()
        invariant
            i <= standard@.len(),
            standard@ == key_pairs(),
            map@ == map_of(standard@.take(i as int)),
        decreases standard@.len() - i,
    {
        let (cg_code, mech_code) = standard[i];
        assert(standard@.take(i + 1).drop_last() =~= standard@.take(i as int));
        map.insert(cg_code, mech_code);
        i = i + 1;
    }
    assert(standard@.take(standard@.len() as int) =~= standard@);
    map
}

/// The sound-pack key code of the macOS key code `cg_code`, if the map has one.
pub fn lookup_key(map: &HashMap<u16, u64>, cg_code: u16) -> (r: Option<u64>)
    ensures
        r == (if map@.contains_key(cg_code) {
            Some(map@[cg_code])
        } else {
            None
        }),
{
    match map.get(&cg_code) {
        Some(v) => Some(*v),
        None => None,
    }
}

} // verus!
