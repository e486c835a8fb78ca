use vstd::prelude::*;
use vstd::string::*;

verus! {

/// The Unicode `White_Space` property (the characters on which the command
/// line is split into words).
pub open spec fn is_white_space(c: char) -> bool {
    let u = c as u32;
    ||| 0x9 <= u <= 0xD
    ||| u == 0x20
    ||| u == 0x85
    ||| u == 0xA0
    ||| u == 0x1680
    ||| 0x2000 <= u <= 0x200A
    ||| u == 0x2028
    ||| u == 0x2029
    ||| u == 0x202F
    ||| u == 0x205F
    ||| u == 0x3000
}

/// The maximal runs of non-white-space characters of `s`, in order.
pub open spec fn words(s: Seq<char>) -> Seq<Seq<char>>
    decreases s.len(),
{
    if s.len() == 0 {
        seq![]
    } else {
        let w = words(s.drop_last());
        let c = s.last();
        if is_white_space(c) {
            w
        } else if s.len() >= 2 && !is_white_space(s[s.len() - 2]) {
            w.update(w.len() - 1, w.last().push(c))
        } else {
            w.push(seq![c])
        }
    }
}

/// The character sequences of a list of strings.
pub open spec fn string_views(v: Seq<String>) -> Seq<Seq<char>> {
    v.map_values(|t: String| t@)
}

/// The pieces of `list` glued together with `sep` between consecutive pieces.
pub open spec fn seq_join(list: Seq<Seq<char>>, sep: Seq<char>) -> Seq<char>
    decreases list.len(),
{
    if list.len() == 0 {
        seq![]
    } else if list.len() == 1 {
        list[0]
    } else {
        seq_join(list.drop_last(), sep) + sep + list.last()
    }
}

pub open spec fn is_digit(c: char) -> bool {
    0x30 <= (c as u32) <= 0x39
}

pub open spec fn all_digits(s: Seq<char>) -> bool {
    forall|i: int| 0 <= i < s.len() ==> is_digit(#[trigger] s[i])
}

/// The number that the decimal digits `s` spell (most significant first).
pub open spec fn decimal_value(s: Seq<char>) -> nat
    decreases s.len(),
{
    if s.len() == 0 {
        0
    } else {
        decimal_value(s.drop_last()) * 10 + ((s.last() as u32) - 0x30) as nat
    }
}

/// `s` without one leading `+`, if it has one.
pub open spec fn unsigned_digits(s: Seq<char>) -> Seq<char> {
    if s.len() > 0 && s[0] == '+' {
        s.drop_first()
    } else {
        s
    }
}

/// What `str::parse` gives for an unsigned integer type whose largest value
/// is `max`: an optional `+`, then one or more ASCII digits, and a value
/// that fits.
pub open spec fn parse_unsigned(s: Seq<char>, max: nat) -> Option<nat> {
    let d = unsigned_digits(s);
    if d.len() > 0 && all_digits(d) && decimal_value(d) <= max {
        Some(decimal_value(d))
    } else {
        None
    }
}

pub fn is_white_space_char(c: char) -> (r: bool)
    ensures
        r == is_white_space(c),
{
    let u = c as u32;
    (0x9 <= u && u <= 0xD) || u == 0x20 || u == 0x85 || u == 0xA0 || u == 0x1680 || (0x2000 <= u
        && u <= 0x200A) || u == 0x2028 || u == 0x2029 || u == 0x202F || u == 0x205F || u == 0x3000
}

proof fn lemma_words_push_space(t: Seq<char>, c: char)
    requires
        is_white_space(c),
    ensures
        words(t.push(c)) == words(t),
{
    assert(t.push(c).drop_last() =~= t);
}

proof fn lemma_words_push_start(t: Seq<char>, c: char)
    requires
        !is_white_space(c),
        t.len() == 0 || is_white_space(t.last()),
    ensures
        words(t.push(c)) == words(t).push(seq![c]),
{
    assert(t.push(c).drop_last() =~= t);
}

proof fn lemma_words_push_extend(t: Seq<char>, c: char)
    requires
        !is_white_space(c),
        t.len() > 0,
        !is_white_space(t.last()),
    ensures
        words(t.push(c)) == words(t).update(words(t).len() - 1, words(t).last().push(c)),
{
    assert(t.push(c).drop_last() =~= t);
    assert(t.push(c)[t.push(c).len() - 2] == t.last());
}

/// Splits `s` into its white-space separated words, as `str::split_whitespace` does.
pub fn split_words(s: &str) -> (r: Vec<String>)
    ensures
        string_views(r@) == words(s@),
{
    let n = s.unicode_len();
    let mut toks: Vec<String> = Vec::new();
    let mut i: usize = 0;
    let mut start: usize = 0;
    let mut in_word = false;
    while i < n
        invariant
            n == s@.len(),
            i <= n,
            !in_word ==> string_views(toks@) == words(s@.take(i as int)),
            !in_word ==> (i == 0 || is_white_space(s@[i - 1])),
            in_word ==> start < i,
            in_word ==> string_views(toks@) == words(s@.take(start as int)),
            in_word ==> words(s@.take(i as int)) == words(s@.take(start as int)).push(
                s@.subrange(start as int, i as int),
            ),
            in_word ==> !is_white_space(s@[i - 1]),
        decreases n - i,
    {
        let c = s.get_char(i);
        assert(s@.take(i + 1) =~= s@.take(i as int).push(c));
        if is_white_space_char(c) {
            proof {
                lemma_words_push_space(s@.take(i as int), c);
            }
            if in_word {
                let w = String::from_str(s.substring_char(start, i));
                let ghost before = toks@;
                toks.push(w);
                assert(string_views(toks@) =~= string_views(before).push(w@)) by {
                    assert(toks@ =~= before.push(w));
                }
                in_word = false;
            }
        } else {
            if !in_word {
                proof {
                    lemma_words_push_start(s@.take(i as int), c);
                    assert(s@.subrange(i as int, i + 1) =~= seq![c]);
                }
                start = i;
                in_word = true;
            } else {
                proof {
                    let t = s@.take(i as int);
                    assert(t.last() == s@[i - 1]);
                    lemma_words_push_extend(t, c);
                    let pre = words(s@.take(start as int));
                    let cur = s@.subrange(start as int, i as int);
                    assert(pre.push(cur).update(pre.len() as int, cur.push(c)) =~= pre.push(
                        cur.push(c),
                    ));
                    assert(cur.push(c) =~= s@.subrange(start as int, i + 1));
                }
            }
        }
        i = i + 1;
    }
    if in_word {
        let w = String::from_str(s.substring_char(start, n));
        let ghost before = toks@;
        toks.push(w);
        assert(toks@ =~= before.push(w));
        assert(string_views(toks@) =~= string_views(before).push(w@));
    }
    assert(s@.take(n as int) =~= s@);
    toks
}


proof fn lemma_decimal_value_prefix(d: Seq<char>, k: int)
    requires
        all_digits(d),
        0 <= k <= d.len(),
    ensures
        decimal_value(d.take(k)) <= decimal_value(d),
    decreases d.len(),
{
    if k < d.len() {
        assert(d.drop_last().take(k) =~= d.take(k));
        lemma_decimal_value_prefix(d.drop_last(), k);
    } else {
        assert(d.take(k) =~= d);
    }
}

/// Parses an unsigned decimal number no larger than `max`, as `str::parse`
/// does for an unsigned integer type whose largest value is `max`.
pub fn parse_unsigned_str(s: &str, max: u64) -> (r: Option<u64>)
    ensures
        match r {
            Some(v) => parse_unsigned(s@, max as nat) == Some(v as nat),
            None => parse_unsigned(s@, max as nat) is None,
        },
{
    let n = s.unicode_len();
    let mut i: usize = 0;
    if n > 0 && s.get_char(0) == '+' {
        i = 1;
    }
    let first = i;
    let ghost d = unsigned_digits(s@);
    assert(d =~= s@.subrange(first as int, n as int));
    if i == n {
        return None;
    }
    let mut acc: u128 = 0;
    while i < n
        invariant
            n == s@.len(),
            first <= i <= n,
            d == s@.subrange(first as int, n as int),
            d == unsigned_digits(s@),
            all_digits(d.take(i - first)),
            acc == decimal_value(d.take(i - first)),
            acc <= max,
        decreases n - i,
    {
        let c = s.get_char(i);
        let u = c as u32;
        if u < 0x30 || u > 0x39 {
            assert(d[i - first] == c);
            return None;
        }
        proof {
            assert(d.take(i - first + 1).drop_last() =~= d.take(i - first));
            assert(d.take(i - first + 1).last() == c);
        }
        acc = acc * 10 + (u - 0x30) as u128;
        assert(all_digits(d.take(i - first + 1))) by {
            assert forall|j: int| 0 <= j < d.take(i - first + 1).len() implies is_digit(
                #[trigger] d.take(i - first + 1)[j],
            ) by {
                if j < i - first {
                    assert(d.take(i - first + 1)[j] == d.take(i - first)[j]);
                }
            }
        }
        if acc > max as u128 {
            proof {
                if all_digits(d) {
                    lemma_decimal_value_prefix(d, i - first + 1);
                }
            }
            return None;
        }
        i = i + 1;
    }
    assert(d.take(n - first) =~= d);
    Some(acc as u64)
}

/// `str::parse::<u32>` on a word.
pub fn parse_u32(s: &str) -> (r: Option<u32>)
    ensures
        match r {
            Some(v) => parse_unsigned(s@, u32::MAX as nat) == Some(v as nat),
            None => parse_unsigned(s@, u32::MAX as nat) is None,
        },
{
    match parse_unsigned_str(s, 0xffff_ffff) {
        Some(v) => Some(v as u32),
        None => None,
    }
}

/// `str::parse::<u64>` on a word.
pub fn parse_u64(s: &str) -> (r: Option<u64>)
    ensures
        match r {
            Some(v) => parse_unsigned(s@, u64::MAX as nat) == Some(v as nat),
            None => parse_unsigned(s@, u64::MAX as nat) is None,
        },
{
    parse_unsigned_str(s, 0xffff_ffff_ffff_ffff)
}

/// Joins `parts[from..]` with `sep` between consecutive parts, as `[..].join(sep)` does.
pub fn join_from(parts: &Vec<String>, from: usize, sep: &str) -> (r: String)
    requires
        from <= parts@.len(),
    ensures
        r@ == seq_join(string_views(parts@).subrange(from as int, parts@.len() as int), sep@),
{
    let mut res = String::new();
    let mut i = from;
    let ghost all = string_views(parts@);
    while i < parts.len()
        invariant
            from <= i <= parts@.len(),
            all == string_views(parts@),
            res@ == seq_join(all.subrange(from as int, i as int), sep@),
        decreases parts@.len() - i,
    {
        proof {
            let next = all.subrange(from as int, i + 1);
            assert(next.drop_last() =~= all.subrange(from as int, i as int));
            assert(next.last() == parts@[i as int]@);
        }
        if i > from {
            res.append(sep);
        } else {
            assert(all.subrange(from as int, i + 1) =~= seq![parts@[i as int]@]);
            assert(res@ =~= seq![]);
        }
        res.append(parts[i].as_str());
        i = i + 1;
    }
    res
}


/// Character-by-character equality of two strings.
pub fn str_eq(a: &str, b: &str) -> (r: bool)
    ensures
        r == (a@ == b@),
{
    let n = a.unicode_len();
    if n != b.unicode_len() {
        return false;
    }
    let mut i: usize = 0;
    while i < n
        invariant
            n == a@.len(),
            n == b@.len(),
            i <= n,
            forall|j: int| 0 <= j < i ==> a@[j] == b@[j],
        decreases n - i,
    {
        if a.get_char(i) != b.get_char(i) {
            return false;
        }
        i = i + 1;
    }
    assert(a@ =~= b@);
    true
}

/// Whether `p` is a prefix of `s`, as `str::starts_with` with a string pattern.
pub fn str_starts_with(s: &str, p: &str) -> (r: bool)
    ensures
        r == (p@.len() <= s@.len() && s@.take(p@.len() as int) == p@),
{
    let n = p.unicode_len();
    if n > s.unicode_len() {
        return false;
    }
    let mut i: usize = 0;
    while i < n
        invariant
            n == p@.len(),
            n <= s@.len(),
            i <= n,
            forall|j: int| 0 <= j < i ==> s@[j] == p@[j],
        decreases n - i,
    {
        if s.get_char(i) != p.get_char(i) {
            assert(s@.take(n as int)[i as int] != p@[i as int]);
            return false;
        }
        i = i + 1;
    }
    assert(s@.take(n as int) =~= p@);
    true
}


/// Every word of a line is non-empty and holds no white space.
pub proof fn lemma_words_unbroken(s: Seq<char>)
    ensures
        forall|i: int|
            0 <= i < words(s).len() ==> #[trigger] words(s)[i].len() > 0 && forall|j: int|
                0 <= j < words(s)[i].len() ==> !is_white_space(words(s)[i][j]),
    decreases s.len(),
{
    if s.len() > 0 {
        lemma_words_unbroken(s.drop_last());
        let w = words(s.drop_last());
        let c = s.last();
        if !is_white_space(c) && s.len() >= 2 && !is_white_space(s[s.len() - 2]) {
            lemma_words_nonempty_when_word_ends(s.drop_last());
            let nw = w.update(w.len() - 1, w.last().push(c));
            assert forall|i: int| 0 <= i < nw.len() implies #[trigger] nw[i].len() > 0 && forall|j: int|
                0 <= j < nw[i].len() ==> !is_white_space(nw[i][j]) by {
                if i == w.len() - 1 {
                    assert forall|j: int| 0 <= j < nw[i].len() implies !is_white_space(nw[i][j]) by {
                        if j < w.last().len() {
                            assert(nw[i][j] == w[i][j]);
                        }
                    }
                }
            }
        } else if !is_white_space(c) {
            let nw = w.push(seq![c]);
            assert forall|i: int| 0 <= i < nw.len() implies #[trigger] nw[i].len() > 0 && forall|j: int|
                0 <= j < nw[i].len() ==> !is_white_space(nw[i][j]) by {
                if i < w.len() {
                    assert(nw[i] == w[i]);
                }
            }
        }
    }
}

/// A line that ends in a non-white-space character has at least one word.
proof fn lemma_words_nonempty_when_word_ends(s: Seq<char>)
    requires
        s.len() > 0,
        !is_white_space(s.last()),
    ensures
        words(s).len() > 0,
    decreases s.len(),
{
    if s.len() >= 2 && !is_white_space(s[s.len() - 2]) {
        lemma_words_nonempty_when_word_ends(s.drop_last());
    }
}

} // verus!
