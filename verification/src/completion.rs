use vstd::prelude::*;
use vstd::string::*;
use vstd::utf8::{decode_utf8, encode_utf8, encode_utf8_decode_utf8, is_char_boundary, valid_utf8};
use crate::text::{split_words, str_eq, str_starts_with, string_views, words};

verus! {

/// `c` starts with `w`.
pub open spec fn has_prefix(c: Seq<char>, w: Seq<char>) -> bool {
    w.len() <= c.len() && c.take(w.len() as int) == w
}

/// The characters of `line[..pos]` for a string `line` and a byte index `pos`.
pub open spec fn prefix_chars(line: Seq<char>, pos: int) -> Seq<char> {
    decode_utf8(encode_utf8(line).subrange(0, pos))
}

/// The char index of the last ASCII space of `s`, or -1.
pub open spec fn last_space(s: Seq<char>) -> int
    decreases s.len(),
{
    if s.len() == 0 {
        -1
    } else if s.last() == ' ' {
        s.len() - 1
    } else {
        last_space(s.drop_last())
    }
}

/// The byte index where the word being completed starts: just after the last
/// space of the text before the cursor, or 0.
pub open spec fn completion_start(p: Seq<char>) -> nat {
    if last_space(p) < 0 {
        0
    } else {
        encode_utf8(p.take(last_space(p) + 1)).len()
    }
}

/// The cursor is still in the first word: no word yet, or one word that no
/// space follows.
pub open spec fn in_first_word(p: Seq<char>) -> bool {
    let ws = words(p);
    ws.len() == 0 || (ws.len() == 1 && !(p.len() > 0 && p.last() == ' '))
}

/// The entries of `s` that start with `w`, in order.
pub open spec fn prefixed(s: Seq<Seq<char>>, w: Seq<char>) -> Seq<Seq<char>> {
    s.filter(|c: Seq<char>| has_prefix(c, w))
}

/// The word that the candidates must start with: the first word while it
/// is being typed, the second word after `pack` (empty unless exactly two
/// words were typed).
pub open spec fn completion_word(p: Seq<char>) -> Seq<char> {
    let ws = words(p);
    if in_first_word(p) {
        if ws.len() == 0 {
            Seq::<char>::empty()
        } else {
            ws[0]
        }
    } else if ws.len() == 2 {
        ws[1]
    } else {
        Seq::<char>::empty()
    }
}

/// The candidates offered for the text `p` before the cursor: commands that
/// start with the first word while it is being typed; after `pack`, pack
/// names that start with the second word; nothing otherwise.
pub open spec fn completion_candidates(
    commands: Seq<Seq<char>>,
    packs: Seq<Seq<char>>,
    p: Seq<char>,
) -> Seq<Seq<char>> {
    let w = completion_word(p);
    if in_first_word(p) {
        prefixed(commands, w)
    } else if words(p)[0] == "pack"@ {
        prefixed(packs, w)
    } else {
        Seq::<Seq<char>>::empty()
    }
}

proof fn lemma_prefixed_within(s: Seq<Seq<char>>, w: Seq<char>)
    ensures
        forall|i: int|
            0 <= i < prefixed(s, w).len() ==> s.contains(#[trigger] prefixed(s, w)[i]) && has_prefix(
                prefixed(s, w)[i],
                w,
            ),
    decreases s.len(),
{
    broadcast use vstd::seq_lib::group_filter_ensures;

    reveal_with_fuel(Seq::<_>::filter, 1);
    if s.len() > 0 {
        lemma_prefixed_within(s.drop_last(), w);
        let sub = prefixed(s.drop_last(), w);
        assert forall|i: int| 0 <= i < prefixed(s, w).len() implies s.contains(
            #[trigger] prefixed(s, w)[i],
        ) by {
            if i < sub.len() {
                assert(prefixed(s, w)[i] == sub[i]);
                let k = choose|k: int| 0 <= k < s.drop_last().len() && s.drop_last()[k] == sub[i];
                assert(s[k] == sub[i]);
            } else {
                assert(prefixed(s, w)[i] == s.last());
                assert(s[s.len() - 1] == s.last());
            }
        }
    }
}

/// Every completion offered is one of the known command words or pack
/// names and starts with the word being completed.
pub proof fn lemma_candidates_match(commands: Seq<Seq<char>>, packs: Seq<Seq<char>>, p: Seq<char>)
    ensures
        forall|i: int|
            0 <= i < completion_candidates(commands, packs, p).len() ==> ((commands.contains(
                #[trigger] completion_candidates(commands, packs, p)[i],
            ) || packs.contains(completion_candidates(commands, packs, p)[i])) && has_prefix(
                completion_candidates(commands, packs, p)[i],
                completion_word(p),
            )),
{
    lemma_prefixed_within(commands, completion_word(p));
    lemma_prefixed_within(packs, completion_word(p));
}

/// Completions are complete: while the first word is typed, every command
/// word that starts with it is offered; after `pack`, every pack name that
/// starts with the word being completed is offered (a name typed in full
/// included).
pub proof fn lemma_candidates_complete(
    commands: Seq<Seq<char>>,
    packs: Seq<Seq<char>>,
    p: Seq<char>,
)
    ensures
        in_first_word(p) ==> forall|i: int|
            0 <= i < commands.len() && has_prefix(commands[i], completion_word(p))
                ==> completion_candidates(commands, packs, p).contains(#[trigger] commands[i]),
        !in_first_word(p) && words(p)[0] == "pack"@ ==> forall|i: int|
            0 <= i < packs.len() && has_prefix(packs[i], completion_word(p))
                ==> completion_candidates(commands, packs, p).contains(#[trigger] packs[i]),
{
    broadcast use vstd::seq_lib::group_filter_ensures;

    let w = completion_word(p);
    let pred = |c: Seq<char>| has_prefix(c, w);
    assert forall|i: int| 0 <= i < commands.len() && has_prefix(commands[i], w) implies prefixed(
        commands,
        w,
    ).contains(#[trigger] commands[i]) by {
        assert(pred(commands[i]));
        commands.lemma_filter_contains(pred, i);
    }
    assert forall|i: int| 0 <= i < packs.len() && has_prefix(packs[i], w) implies prefixed(
        packs,
        w,
    ).contains(#[trigger] packs[i]) by {
        assert(pred(packs[i]));
        packs.lemma_filter_contains(pred, i);
    }
}

/// Tab completion for the interactive prompt.
pub struct ThockHelper {
    pub commands: Vec<String>,
    pub packs: Vec<String>,
}

proof fn lemma_encode_utf8_append(a: Seq<char>, b: Seq<char>)
    ensures
        encode_utf8(a + b) == encode_utf8(a) + encode_utf8(b),
    decreases a.len(),
{
    if a.len() > 0 {
        assert((a + b).drop_first() =~= a.drop_first() + b);
        assert((a + b)[0] == a[0]);
        lemma_encode_utf8_append(a.drop_first(), b);
        assert(encode_utf8(a + b) =~= encode_utf8(a) + encode_utf8(b));
    } else {
        assert(a + b =~= b);
        assert(encode_utf8(a) =~= Seq::<u8>::empty());
        assert(encode_utf8(a) + encode_utf8(b) =~= encode_utf8(b));
    }
}

/// The entries of `list` that start with `w`, in order.
fn filter_prefix(list: &Vec<String>, w: &str) -> (r: Vec<String>)
    ensures
        string_views(r@) == prefixed(string_views(list@), w@),
{
    let ghost pred = |c: Seq<char>| has_prefix(c, w@);
    let ghost all = string_views(list@);
    let mut out: Vec<String> = Vec::new();
    let mut i: usize = 0;
    while i < list.len()
        invariant
            i <= list@.len(),
            all == string_views(list@),
            pred == (|c: Seq<char>| has_prefix(c, w@)),
            string_views(out@) == all.take(i as int).filter(pred),
        decreases list@.len() - i,
    {
        proof {
            reveal_with_fuel(Seq::<_>::filter, 1);
            assert(all.take(i + 1).drop_last() =~= all.take(i as int));
            assert(all.take(i + 1).last() == list@[i as int]@);
        }
        if str_starts_with(list[i].as_str(), w) {
            let c = list[i].clone();
            let ghost before = out@;
            out.push(c);
            assert(string_views(out@) =~= string_views(before).push(c@)) by {
                assert(out@ =~= before.push(c));
            }
        }
        i = i + 1;
    }
    assert(all.take(list@.len() as int) =~= all);
    assert(all.filter(pred) == prefixed(all, w@));
    out
}

/// The char index of the last ASCII space of `p`, if any.
fn find_last_space(p: &str) -> (r: Option<usize>)
    ensures
        match r {
            Some(k) => k < p@.len() && last_space(p@) == k as int,
            None => last_space(p@) == -1,
        },
{
    let n = p.unicode_len();
    let mut i = n;
    assert(p@.take(n as int) =~= p@);
    while i > 0
        invariant
            n == p@.len(),
            i <= n,
            last_space(p@) == last_space(p@.take(i as int)),
        decreases i,
    {
        assert(p@.take(i as int).drop_last() =~= p@.take(i - 1));
        if p.get_char(i - 1) == ' ' {
            return Some(i - 1);
        }
        i = i - 1;
    }
    None
}

/// The words that the first word of a command line completes to.
pub open spec fn command_words() -> Seq<Seq<char>> {
    seq!["vol"@, "pack"@, "proc"@, "pitch"@, "help"@, "exit"@]
}

impl ThockHelper {
    /// A helper that completes command words and the names `packs`.
    pub fn new(packs: Vec<String>) -> (r: Self)
        ensures
            string_views(r.commands@) == command_words(),
            r.packs@ == packs@,
    {
        let commands = vec![
            String::from_str("vol"),
            String::from_str("pack"),
            String::from_str("proc"),
            String::from_str("pitch"),
            String::from_str("help"),
            String::from_str("exit"),
        ];
        assert(string_views(commands@) =~= command_words());
        ThockHelper { commands, packs }
    }

    /// Completes the word before the byte position `pos` of `line`: returns
    /// the byte index where the completed word starts and the candidates.
    pub fn complete(&self, line: &str, pos: usize) -> (r: (usize, Vec<String>))
        requires
            is_char_boundary(line.spec_bytes(), pos as int),
        ensures
            r.0 == completion_start(prefix_chars(line@, pos as int)),
            string_views(r.1@) == completion_candidates(
                string_views(self.commands@),
                string_views(self.packs@),
                prefix_chars(line@, pos as int),
            ),
    {
        proof {
            broadcast use vstd::utf8::encode_utf8_valid_utf8;

            assert(valid_utf8(line.spec_bytes()));
            assert(pos <= line.spec_bytes().len());
        }
        let (p, _rest) = line.split_at(pos);
        proof {
            assert(encode_utf8(p@).len() == pos);
            encode_utf8_decode_utf8(p@);
            assert(p@ == prefix_chars(line@, pos as int));
        }
        let ws = split_words(p);
        let n = p.unicode_len();
        let ends_with_space = n > 0 && p.get_char(n - 1) == ' ';
        let first = ws.len() == 0 || (ws.len() == 1 && !ends_with_space);
        let candidates = if first {
            if ws.len() == 0 {
                let r = filter_prefix(&self.commands, "");
                proof {
                    reveal_strlit("");
                    assert(""@ =~= Seq::<char>::empty());
                }
                r
            } else {
                filter_prefix(&self.commands, ws[0].as_str())
            }
        } else if str_eq(ws[0].as_str(), "pack") {
            if ws.len() == 2 {
                filter_prefix(&self.packs, ws[1].as_str())
            } else {
                let r = filter_prefix(&self.packs, "");
                proof {
                    reveal_strlit("");
                    assert(""@ =~= Seq::<char>::empty());
                }
                r
            }
        } else {
            let r: Vec<String> = Vec::new();
            assert(string_views(r@) =~= Seq::<Seq<char>>::empty());
            r
        };
        let start = match find_last_space(p) {
            Some(k) => {
                let head = p.substring_char(0, k + 1);
                proof {
                    lemma_encode_utf8_append(p@.take(k + 1), p@.skip(k + 1));
                    assert(p@.take(k + 1) + p@.skip(k + 1) =~= p@);
                    assert(head@ =~= p@.take(k + 1));
                }
                head.len()
            },
            None => 0,
        };
        (start, candidates)
    }
}

} // verus!
