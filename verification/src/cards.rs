use vstd::prelude::*;
use vstd::string::*;
use vstd::utf8::encode_utf8;
use vstd::wrapping::usize_specs;
use crate::text::{join_from, seq_join, str_eq, str_starts_with, string_views};

verus! {

/// What `char::to_uppercase` yields for `c`, collected into a string.
pub uninterp spec fn uppercase_of(c: char) -> Seq<char>;

/// What `str::to_lowercase` returns for `s`.
pub uninterp spec fn lowercase_of(s: Seq<char>) -> Seq<char>;

/// Calls `char::to_uppercase` and collects the characters it yields. Its
/// contract only names the result: the Unicode case mapping is not stated.
#[verifier::external_body]
fn char_to_uppercase(c: char) -> (r: String)
    ensures
        r@ == uppercase_of(c),
{
    c.to_uppercase().collect::<String>()
}

/// Calls `str::to_lowercase`. Its contract only names the result: the
/// Unicode case mapping is not stated.
#[verifier::external_body]
fn str_to_lowercase(s: &str) -> (r: String)
    ensures
        r@ == lowercase_of(s@),
{
    s.to_lowercase()
}

/// The pieces of `s` between occurrences of `sep`, as `str::split` with a
/// character pattern gives them (empty pieces included).
pub open spec fn split_on(s: Seq<char>, sep: char) -> Seq<Seq<char>>
    decreases s.len(),
{
    if s.len() == 0 {
        seq![Seq::<char>::empty()]
    } else {
        let w = split_on(s.drop_last(), sep);
        if s.last() == sep {
            w.push(Seq::<char>::empty())
        } else {
            w.update(w.len() - 1, w.last().push(s.last()))
        }
    }
}

/// `w` with its first character upper-cased.
pub open spec fn capitalized(w: Seq<char>) -> Seq<char> {
    if w.len() == 0 {
        w
    } else {
        uppercase_of(w[0]) + w.drop_first()
    }
}

/// The name shown for a pack: the `_`-separated pieces of the directory
/// name, each capitalised, joined with spaces.
pub open spec fn spec_display_name(pack: Seq<char>) -> Seq<char> {
    seq_join(capitalize_all(split_on(pack, '_')), " "@)
}

/// Every piece of `ws` capitalised.
pub open spec fn capitalize_all(ws: Seq<Seq<char>>) -> Seq<Seq<char>> {
    ws.map_values(|w: Seq<char>| capitalized(w))
}

pub open spec fn is_ascii_alphanumeric(c: char) -> bool {
    let u = c as u32;
    (0x30 <= u <= 0x39) || (0x41 <= u <= 0x5A) || (0x61 <= u <= 0x7A)
}

/// The element id of a pack card: the name with every character that is not
/// an ASCII letter or digit replaced by `_`.
pub open spec fn spec_safe_id(pack: Seq<char>) -> Seq<char> {
    Seq::new(
        pack.len(),
        |i: int|
            if is_ascii_alphanumeric(pack[i]) {
                pack[i]
            } else {
                '_'
            },
    )
}

/// `h` contains `n` as a contiguous piece.
pub open spec fn contains_piece(h: Seq<char>, n: Seq<char>) -> bool {
    exists|i: int| 0 <= i && i + n.len() <= h.len() && #[trigger] h.subrange(i, i + n.len()) == n
}

/// The sum of `b` in wrapping machine-word arithmetic.
pub open spec fn wrapping_byte_sum(b: Seq<u8>) -> usize
    decreases b.len(),
{
    if b.len() == 0 {
        0
    } else {
        usize_specs::wrapping_add(wrapping_byte_sum(b.drop_last()), b.last() as usize)
    }
}

/// The switch picture on a pack card.
#[derive(PartialEq, Eq, Structural, Clone, Copy, Debug)]
pub enum CardImage {
    Panda,
    NewBlue,
    Blue,
    Red,
    Black,
    Alpaca,
}

/// The switch kind printed on a pack card.
#[derive(PartialEq, Eq, Structural, Clone, Copy, Debug)]
pub enum SwitchKind {
    Clicky,
    Tactile,
    Linear,
}

/// The picture chosen by its position `i` among the fallback pictures.
pub open spec fn fallback_image(i: nat) -> CardImage {
    if i == 0 {
        CardImage::Panda
    } else if i == 1 {
        CardImage::Blue
    } else if i == 2 {
        CardImage::Red
    } else if i == 3 {
        CardImage::Black
    } else {
        CardImage::Alpaca
    }
}

/// The picture of a pack card, from the lower-cased display name `low` and
/// the display name `display`: a keyword of `low`, else one of five
/// pictures by the byte sum of `display`.
pub open spec fn card_image_from(low: Seq<char>, display: Seq<char>) -> CardImage {
    if contains_piece(low, "panda"@) {
        CardImage::Panda
    } else if contains_piece(low, "creamy heavy"@) || contains_piece(low, "steelseries"@)
        || contains_piece(low, "nk cream"@) {
        CardImage::NewBlue
    } else if contains_piece(low, "blue"@) {
        CardImage::Blue
    } else if contains_piece(low, "red"@) {
        CardImage::Red
    } else if contains_piece(low, "black"@) {
        CardImage::Black
    } else if contains_piece(low, "alpaca"@) {
        CardImage::Alpaca
    } else {
        fallback_image((wrapping_byte_sum(encode_utf8(display)) % 5) as nat)
    }
}

/// The picture of a pack card with display name `display`.
pub open spec fn spec_card_image(display: Seq<char>) -> CardImage {
    card_image_from(lowercase_of(display), display)
}

/// The switch kind and actuation weight (grams) printed on a pack card,
/// from the lower-cased display name `low` and the lower-cased directory
/// name `low_pack` (read only for "panda").
pub open spec fn switch_label_from(low: Seq<char>, low_pack: Seq<char>) -> (SwitchKind, u32) {
    if contains_piece(low, "blue"@) {
        (SwitchKind::Clicky, 60)
    } else if contains_piece(low, "brown"@) {
        (SwitchKind::Tactile, 55)
    } else if contains_piece(low, "red"@) {
        (SwitchKind::Linear, 45)
    } else if contains_piece(low, "black"@) {
        (SwitchKind::Linear, 60)
    } else if contains_piece(low, "holy"@) || contains_piece(low_pack, "panda"@) {
        (SwitchKind::Tactile, 67)
    } else if contains_piece(low, "cream"@) {
        (SwitchKind::Linear, 55)
    } else {
        (SwitchKind::Linear, 50)
    }
}

/// The switch kind and actuation weight of the card of `pack`, whose
/// display name is `display`.
pub open spec fn spec_switch_label(pack: Seq<char>, display: Seq<char>) -> (SwitchKind, u32) {
    switch_label_from(lowercase_of(display), lowercase_of(pack))
}

/// Whether `h` contains `n` as a contiguous piece, as `str::contains` with a
/// string pattern.
pub fn str_contains(h: &str, n: &str) -> (r: bool)
    ensures
        r == contains_piece(h@, n@),
{
    let hl = h.unicode_len();
    let nl = n.unicode_len();
    if nl > hl {
        return false;
    }
    let limit = hl - nl;
    let mut i: usize = 0;
    loop
        invariant
            hl == h@.len(),
            nl == n@.len(),
            limit == hl - nl,
            i <= limit,
            forall|j: int| 0 <= j < i ==> #[trigger] h@.subrange(j, j + nl) != n@,
        decreases limit - i,
    {
        let rest = h.substring_char(i, hl);
        assert(rest@.take(nl as int) =~= h@.subrange(i as int, i + nl));
        if str_starts_with(rest, n) {
            return true;
        }
        if i == limit {
            return false;
        }
        i = i + 1;
    }
}

/// The element id of a pack card.
pub fn safe_id(pack: &str) -> (r: String)
    ensures
        r@ == spec_safe_id(pack@),
{
    let n = pack.unicode_len();
    let mut out = String::new();
    let mut i: usize = 0;
    while i < n
        invariant
            n == pack@.len(),
            i <= n,
            out@ == spec_safe_id(pack@).take(i as int),
        decreases n - i,
    {
        let c = pack.get_char(i);
        let u = c as u32;
        if (0x30 <= u && u <= 0x39) || (0x41 <= u && u <= 0x5A) || (0x61 <= u && u <= 0x7A) {
            out.append(pack.substring_char(i, i + 1));
        } else {
            out.append("_");
            proof {
                reveal_strlit("_");
            }
        }
        assert(out@ =~= spec_safe_id(pack@).take(i + 1));
        i = i + 1;
    }
    assert(spec_safe_id(pack@).take(n as int) =~= spec_safe_id(pack@));
    out
}

/// Splits `s` at every `_`.
fn split_underscore(s: &str) -> (r: Vec<String>)
    ensures
        string_views(r@) == split_on(s@, '_'),
{
    let n = s.unicode_len();
    let mut out: Vec<String> = Vec::new();
    let mut start: usize = 0;
    let mut i: usize = 0;
    assert(s@.take(0) =~= Seq::<char>::empty());
    assert(s@.subrange(0, 0) =~= Seq::<char>::empty());
    assert(string_views(out@).push(s@.subrange(0, 0)) =~= split_on(s@.take(0), '_'));
    while i < n
        invariant
            n == s@.len(),
            start <= i <= n,
            split_on(s@.take(i as int), '_') == string_views(out@).push(
                s@.subrange(start as int, i as int),
            ),
        decreases n - i,
    {
        let c = s.get_char(i);
        assert(s@.take(i + 1).drop_last() =~= s@.take(i as int));
        assert(s@.take(i + 1).last() == c);
        if c == '_' {
            let piece = String::from_str(s.substring_char(start, i));
            let ghost before = out@;
            out.push(piece);
            assert(string_views(out@) =~= string_views(before).push(piece@));
            start = i + 1;
            assert(s@.subrange(start as int, i + 1) =~= Seq::<char>::empty());
        } else {
            let ghost v = string_views(out@);
            let ghost cur = s@.subrange(start as int, i as int);
            assert(v.push(cur).update(v.len() as int, cur.push(c)) =~= v.push(cur.push(c)));
            assert(cur.push(c) =~= s@.subrange(start as int, i + 1));
        }
        i = i + 1;
    }
    let last = String::from_str(s.substring_char(start, n));
    let ghost before = out@;
    out.push(last);
    assert(string_views(out@) =~= string_views(before).push(last@));
    assert(s@.take(n as int) =~= s@);
    out
}

/// A word with its first character replaced by `upper`, the upper-cased
/// form of that character.
pub fn capitalize_with(upper: &str, w: &str) -> (r: String)
    requires
        w@.len() > 0,
    ensures
        r@ == upper@ + w@.drop_first(),
{
    let n = w.unicode_len();
    let mut head = String::from_str(upper);
    head.append(w.substring_char(1, n));
    assert(w@.subrange(1, n as int) =~= w@.drop_first());
    head
}

fn capitalize(w: &str) -> (r: String)
    ensures
        r@ == capitalized(w@),
{
    let n = w.unicode_len();
    if n == 0 {
        return String::from_str(w);
    }
    let upper = char_to_uppercase(w.get_char(0));
    capitalize_with(upper.as_str(), w)
}

/// The name shown for a pack.
pub fn display_name(pack: &str) -> (r: String)
    ensures
        r@ == spec_display_name(pack@),
{
    let pieces = split_underscore(pack);
    let ghost pv = string_views(pieces@);
    let mut caps: Vec<String> = Vec::new();
    let mut i: usize = 0;
    while i < pieces.len()
        invariant
            i <= pieces@.len(),
            pv == string_views(pieces@),
            string_views(caps@) == capitalize_all(pv.take(i as int)),
        decreases pieces@.len() - i,
    {
        let c = capitalize(pieces[i].as_str());
        assert(pieces@[i as int]@ == pv[i as int]);
        let ghost before = caps@;
        caps.push(c);
        proof {
            assert(caps@ =~= before.push(c));
            let old_v = string_views(before);
            assert(old_v == capitalize_all(pv.take(i as int)));
            assert(old_v.len() == i);
            assert(string_views(caps@) =~= old_v.push(c@));
            assert(capitalize_all(pv.take(i + 1)) =~= old_v.push(capitalized(pv[i as int])));
        }
        i = i + 1;
    }
    assert(pv.take(pieces@.len() as int) =~= pv);
    let joined = join_from(&caps, 0, " ");
    assert(string_views(caps@).subrange(0, caps@.len() as int) =~= string_views(caps@));
    joined
}

/// The wrapping sum of the UTF-8 bytes of `s`.
fn byte_sum(s: &str) -> (r: usize)
    ensures
        r == wrapping_byte_sum(encode_utf8(s@)),
{
    let b = s.as_bytes();
    let mut acc: usize = 0;
    let mut i: usize = 0;
    while i < b.len()
        invariant
            b@ == encode_utf8(s@),
            i <= b@.len(),
            acc == wrapping_byte_sum(b@.take(i as int)),
        decreases b@.len() - i,
    {
        assert(b@.take(i + 1).drop_last() =~= b@.take(i as int));
        acc = acc.wrapping_add(b[i] as usize);
        i = i + 1;
    }
    assert(b@.take(b@.len() as int) =~= b@);
    acc
}

/// The picture of a pack card, given its display name `display` and that
/// name lower-cased, `low`.
pub fn card_image_lowered(low: &str, display: &str) -> (r: CardImage)
    ensures
        r == card_image_from(low@, display@),
{
    if str_contains(low, "panda") {
        CardImage::Panda
    } else if str_contains(low, "creamy heavy") || str_contains(low, "steelseries")
        || str_contains(low, "nk cream") {
        CardImage::NewBlue
    } else if str_contains(low, "blue") {
        CardImage::Blue
    } else if str_contains(low, "red") {
        CardImage::Red
    } else if str_contains(low, "black") {
        CardImage::Black
    } else if str_contains(low, "alpaca") {
        CardImage::Alpaca
    } else {
        let k = byte_sum(display) % 5;
        if k == 0 {
            CardImage::Panda
        } else if k == 1 {
            CardImage::Blue
        } else if k == 2 {
            CardImage::Red
        } else if k == 3 {
            CardImage::Black
        } else {
            CardImage::Alpaca
        }
    }
}

/// The picture of a pack card with display name `display`.
pub fn card_image(display: &str) -> (r: CardImage)
    ensures
        r == spec_card_image(display@),
{
    let low = str_to_lowercase(display);
    card_image_lowered(low.as_str(), display)
}

/// The switch kind and actuation weight (grams) of a pack card, given the
/// lower-cased display name `low` and the lower-cased directory name
/// `low_pack`.
pub fn switch_label_lowered(low: &str, low_pack: &str) -> (r: (SwitchKind, u32))
    ensures
        r == switch_label_from(low@, low_pack@),
{
    if str_contains(low, "blue") {
        (SwitchKind::Clicky, 60)
    } else if str_contains(low, "brown") {
        (SwitchKind::Tactile, 55)
    } else if str_contains(low, "red") {
        (SwitchKind::Linear, 45)
    } else if str_contains(low, "black") {
        (SwitchKind::Linear, 60)
    } else if str_contains(low, "holy") || str_contains(low_pack, "panda") {
        (SwitchKind::Tactile, 67)
    } else if str_contains(low, "cream") {
        (SwitchKind::Linear, 55)
    } else {
        (SwitchKind::Linear, 50)
    }
}

/// The switch kind and actuation weight (grams) of the card of `pack`,
/// whose display name is `display`.
pub fn switch_label(pack: &str, display: &str) -> (r: (SwitchKind, u32))
    ensures
        r == spec_switch_label(pack@, display@),
{
    let low = str_to_lowercase(display);
    let low_pack = str_to_lowercase(pack);
    switch_label_lowered(low.as_str(), low_pack.as_str())
}

} // verus!
