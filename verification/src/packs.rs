use vstd::prelude::*;
use crate::text::{str_eq, string_views};

verus! {

broadcast use vstd::seq_lib::group_to_multiset_ensures;

/// Code-point lexicographic order on character sequences, which is the
/// byte order of their UTF-8 encodings and so the order of `String`.
pub open spec fn chars_lt(a: Seq<char>, b: Seq<char>) -> bool
    decreases a.len(),
{
    if a.len() == 0 {
        b.len() > 0
    } else if b.len() == 0 {
        false
    } else if a[0] == b[0] {
        chars_lt(a.drop_first(), b.drop_first())
    } else {
        (a[0] as u32) < (b[0] as u32)
    }
}

/// `a` is listed strictly before `b`: favourites first, then by name.
pub open spec fn precedes(a: Seq<char>, b: Seq<char>, favs: Set<Seq<char>>) -> bool {
    (favs.contains(a) && !favs.contains(b)) || (favs.contains(a) == favs.contains(b)
        && chars_lt(a, b))
}

/// `s` is in list order: no entry precedes an earlier one.
pub open spec fn in_list_order(s: Seq<Seq<char>>, favs: Set<Seq<char>>) -> bool {
    forall|i: int, j: int| 0 <= i < j < s.len() ==> !precedes(#[trigger] s[j], #[trigger] s[i], favs)
}

pub proof fn lemma_chars_lt_irreflexive(a: Seq<char>)
    ensures
        !chars_lt(a, a),
    decreases a.len(),
{
    if a.len() > 0 {
        lemma_chars_lt_irreflexive(a.drop_first());
    }
}

pub proof fn lemma_chars_lt_asymmetric(a: Seq<char>, b: Seq<char>)
    requires
        chars_lt(a, b),
    ensures
        !chars_lt(b, a),
    decreases a.len(),
{
    if a.len() > 0 && b.len() > 0 && a[0] == b[0] {
        lemma_chars_lt_asymmetric(a.drop_first(), b.drop_first());
    }
}

pub proof fn lemma_chars_lt_transitive(a: Seq<char>, b: Seq<char>, c: Seq<char>)
    requires
        chars_lt(a, b),
        chars_lt(b, c),
    ensures
        chars_lt(a, c),
    decreases a.len(),
{
    if a.len() > 0 && b.len() > 0 && c.len() > 0 && a[0] == b[0] && b[0] == c[0] {
        lemma_chars_lt_transitive(a.drop_first(), b.drop_first(), c.drop_first());
    }
}

pub proof fn lemma_chars_lt_total(a: Seq<char>, b: Seq<char>)
    ensures
        a == b || chars_lt(a, b) || chars_lt(b, a),
    decreases a.len(),
{
    if a.len() > 0 && b.len() > 0 {
        if a[0] == b[0] {
            lemma_chars_lt_total(a.drop_first(), b.drop_first());
            if a.drop_first() == b.drop_first() {
                assert(a.drop_first().len() == a.len() - 1);
                assert(b.drop_first().len() == b.len() - 1);
                assert(a.len() == b.len());
                assert forall|k: int| 0 <= k < a.len() implies a[k] == b[k] by {
                    if k > 0 {
                        assert(a[k] == a.drop_first()[k - 1]);
                        assert(b[k] == b.drop_first()[k - 1]);
                    }
                }
                assert(a =~= b);
            }
        } else {
            if (a[0] as u32) == (b[0] as u32) {
                vstd::utf8::char_u32_cast(a[0], a[0] as u32);
                vstd::utf8::char_u32_cast(b[0], b[0] as u32);
            }
        }
    } else if a.len() == 0 && b.len() == 0 {
        assert(a =~= b);
    }
}

proof fn lemma_push_to_set(s: Seq<Seq<char>>, x: Seq<char>)
    ensures
        s.push(x).to_set() == s.to_set().insert(x),
{
    assert forall|y: Seq<char>| s.push(x).to_set().contains(y) implies s.to_set().insert(x).contains(y) by {
        let k = choose|k: int| 0 <= k < s.push(x).len() && s.push(x)[k] == y;
        if k < s.len() {
            assert(s[k] == y);
        }
    }
    assert forall|y: Seq<char>| s.to_set().insert(x).contains(y) implies s.push(x).to_set().contains(y) by {
        if y == x {
            assert(s.push(x)[s.len() as int] == y);
        } else {
            let k = choose|k: int| 0 <= k < s.len() && s[k] == y;
            assert(s.push(x)[k] == y);
        }
    }
    assert(s.push(x).to_set() =~= s.to_set().insert(x));
}

/// If `a` precedes `b` and `c` does not precede `b`, then `a` precedes `c`.
proof fn lemma_precedes_chain(a: Seq<char>, b: Seq<char>, c: Seq<char>, favs: Set<Seq<char>>)
    requires
        precedes(a, b, favs),
        !precedes(c, b, favs),
    ensures
        precedes(a, c, favs),
{
    lemma_chars_lt_total(b, c);
    if chars_lt(b, c) && chars_lt(a, b) {
        lemma_chars_lt_transitive(a, b, c);
    }
}

proof fn lemma_precedes_asymmetric(a: Seq<char>, b: Seq<char>, favs: Set<Seq<char>>)
    requires
        precedes(a, b, favs),
    ensures
        !precedes(b, a, favs),
{
    if chars_lt(a, b) {
        lemma_chars_lt_asymmetric(a, b);
    }
}

/// Whether `a` comes before `b` in code-point order.
pub fn str_lt(a: &str, b: &str) -> (r: bool)
    ensures
        r == chars_lt(a@, b@),
{
    let la = a.unicode_len();
    let lb = b.unicode_len();
    let mut i: usize = 0;
    assert(a@.skip(0) =~= a@);
    assert(b@.skip(0) =~= b@);
    while i < la && i < lb
        invariant
            la == a@.len(),
            lb == b@.len(),
            i <= la,
            i <= lb,
            chars_lt(a@, b@) == chars_lt(a@.skip(i as int), b@.skip(i as int)),
        decreases la - i,
    {
        let ca = a.get_char(i);
        let cb = b.get_char(i);
        assert(a@.skip(i as int)[0] == ca);
        assert(b@.skip(i as int)[0] == cb);
        if ca != cb {
            return (ca as u32) < (cb as u32);
        }
        assert(a@.skip(i as int).drop_first() =~= a@.skip(i + 1));
        assert(b@.skip(i as int).drop_first() =~= b@.skip(i + 1));
        i = i + 1;
    }
    i < lb
}

/// The set of favourite pack names.
pub struct Favorites {
    names: Vec<String>,
}

impl View for Favorites {
    type V = Set<Seq<char>>;

    closed spec fn view(&self) -> Set<Seq<char>> {
        string_views(self.names@).to_set()
    }
}

/// The set after toggling `name`: removed when present, added otherwise.
pub open spec fn toggled(s: Set<Seq<char>>, name: Seq<char>) -> Set<Seq<char>> {
    if s.contains(name) {
        s.remove(name)
    } else {
        s.insert(name)
    }
}

/// Toggling the same name twice gives back the set of favourites it started from.
pub proof fn lemma_toggle_twice(s: Set<Seq<char>>, name: Seq<char>)
    ensures
        toggled(toggled(s, name), name) == s,
{
    if s.contains(name) {
        assert(toggled(toggled(s, name), name) =~= s);
    } else {
        assert(toggled(toggled(s, name), name) =~= s);
    }
}

impl Favorites {
    #[verifier::type_invariant]
    closed spec fn each_once(&self) -> bool {
        string_views(self.names@).no_duplicates()
    }

    /// No favourites.
    pub fn new() -> (r: Self)
        ensures
            r@ == Set::<Seq<char>>::empty(),
    {
        let r = Favorites { names: Vec::new() };
        assert(r@ =~= Set::<Seq<char>>::empty());
        r
    }

    fn index_of(&self, name: &str) -> (r: Option<usize>)
        ensures
            match r {
                Some(i) => i < self.names@.len() && self.names@[i as int]@ == name@,
                None => !self@.contains(name@),
            },
    {
        let mut i: usize = 0;
        while i < self.names.len()
            invariant
                i <= self.names@.len(),
                forall|j: int| 0 <= j < i ==> self.names@[j]@ != name@,
            decreases self.names@.len() - i,
        {
            if str_eq(self.names[i].as_str(), name) {
                return Some(i);
            }
            i = i + 1;
        }
        proof {
            if self@.contains(name@) {
                let k = choose|k: int|
                    0 <= k < string_views(self.names@).len() && string_views(self.names@)[k]
                        == name@;
                assert(self.names@[k]@ == name@);
            }
        }
        None
    }

    /// Whether `name` is a favourite.
    pub fn contains(&self, name: &str) -> (r: bool)
        ensures
            r == self@.contains(name@),
    {
        match self.index_of(name) {
            Some(i) => {
                assert(string_views(self.names@)[i as int] == name@);
                true
            },
            None => false,
        }
    }

    /// Builds the set of favourites from a list of names.
    pub fn from_names(list: &Vec<String>) -> (r: Self)
        ensures
            r@ == string_views(list@).to_set(),
    {
        let mut r = Favorites::new();
        let mut i: usize = 0;
        while i < list.len()
            invariant
                i <= list@.len(),
                r@ == string_views(list@).take(i as int).to_set(),
            decreases list@.len() - i,
        {
            if !r.contains(list[i].as_str()) {
                r.toggle(list[i].as_str());
            }
            proof {
                assert(string_views(list@).take(i + 1) =~= string_views(list@).take(i as int).push(
                    list@[i as int]@,
                ));
                lemma_push_to_set(string_views(list@).take(i as int), list@[i as int]@);
            }
            i = i + 1;
        }
        assert(string_views(list@).take(list@.len() as int) =~= string_views(list@));
        r
    }

    /// Adds `name` when it is not a favourite, removes it when it is.
    pub fn toggle(&mut self, name: &str)
        ensures
            final(self)@ == toggled(old(self)@, name@),
    {
        proof {
            use_type_invariant(&*self);
        }
        let ghost before = string_views(self.names@);
        let found = self.index_of(name);
        let mut names: Vec<String> = Vec::new();
        std::mem::swap(&mut names, &mut self.names);
        match found {
            Some(i) => {
                names.remove(i);
                proof {
                    let after = string_views(names@);
                    assert(after =~= before.remove(i as int));
                    assert(before[i as int] == name@);
                    assert(after.no_duplicates()) by {
                        assert forall|p: int, q: int|
                            0 <= p < after.len() && 0 <= q < after.len() && p != q implies after[p]
                            != after[q] by {
                            let pp = if p < i { p } else { p + 1 };
                            let qq = if q < i { q } else { q + 1 };
                            assert(after[p] == before[pp]);
                            assert(after[q] == before[qq]);
                        }
                    }
                    assert(after.to_set() =~= before.to_set().remove(name@)) by {
                        assert forall|x: Seq<char>| after.to_set().contains(x) implies before.to_set().remove(name@).contains(x) by {
                            let k = choose|k: int| 0 <= k < after.len() && after[k] == x;
                            if k < i {
                                assert(before[k] == x);
                                assert(before[k] != before[i as int]);
                            } else {
                                assert(before[k + 1] == x);
                                assert(before[k + 1] != before[i as int]);
                            }
                        }
                        assert forall|x: Seq<char>| before.to_set().remove(name@).contains(x) implies after.to_set().contains(x) by {
                            let k = choose|k: int| 0 <= k < before.len() && before[k] == x;
                            assert(k != i);
                            if k < i {
                                assert(after[k] == x);
                            } else {
                                assert(after[k - 1] == x);
                            }
                        }
                    }
                }
            },
            None => {
                names.push(String::from_str(name));
                proof {
                    let after = string_views(names@);
                    assert(after =~= before.push(name@));
                    assert(!before.contains(name@));
                    assert(after.no_duplicates()) by {
                        assert forall|p: int, q: int|
                            0 <= p < after.len() && 0 <= q < after.len() && p != q implies after[p]
                            != after[q] by {
                            if p == before.len() {
                                assert(after[q] == before[q]);
                            } else if q == before.len() {
                                assert(after[p] == before[p]);
                            } else {
                                assert(after[p] == before[p]);
                                assert(after[q] == before[q]);
                            }
                        }
                    }
                    assert(after.to_set() =~= before.to_set().insert(name@)) by {
                        assert forall|x: Seq<char>| after.to_set().contains(x) implies before.to_set().insert(name@).contains(x) by {
                            let k = choose|k: int| 0 <= k < after.len() && after[k] == x;
                            if k < before.len() {
                                assert(before[k] == x);
                            }
                        }
                        assert forall|x: Seq<char>| before.to_set().insert(name@).contains(x) implies after.to_set().contains(x) by {
                            if x == name@ {
                                assert(after[before.len() as int] == x);
                            } else {
                                let k = choose|k: int| 0 <= k < before.len() && before[k] == x;
                                assert(after[k] == x);
                            }
                        }
                    }
                }
            },
        }
        self.names = names;
    }

    /// The favourite names, each once.
    pub fn names(&self) -> (r: Vec<String>)
        ensures
            string_views(r@).to_set() == self@,
            string_views(r@).no_duplicates(),
    {
        proof {
            use_type_invariant(self);
        }
        let r = self.names.clone();
        assert(r@ =~= self.names@) by {
            assert forall|k: int| 0 <= k < r@.len() implies r@[k] == self.names@[k] by {}
        }
        r
    }
}


fn precedes_exec(a: &str, a_fav: bool, b: &str, b_fav: bool) -> (r: bool)
    ensures
        r == ((a_fav && !b_fav) || (a_fav == b_fav && chars_lt(a@, b@))),
{
    (a_fav && !b_fav) || (a_fav == b_fav && str_lt(a, b))
}

proof fn lemma_insert_to_multiset(s: Seq<Seq<char>>, k: int, x: Seq<char>)
    requires
        0 <= k <= s.len(),
    ensures
        s.insert(k, x).to_multiset() == s.to_multiset().insert(x),
{
    let t = s.insert(k, x);
    assert(t.remove(k) =~= s);
    assert(t[k] == x);
    assert(t.contains(x));
    assert(t.to_multiset().count(x) > 0);
    assert(t.to_multiset() =~= s.to_multiset().insert(x));
}

/// Lists pack names in display order: favourites first, then by name in
/// code-point order (the order of `String`).
pub fn order_packs(names: &Vec<String>, favs: &Favorites) -> (r: Vec<String>)
    ensures
        in_list_order(string_views(r@), favs@),
        string_views(r@).to_multiset() == string_views(names@).to_multiset(),
{
    let ghost fs = favs@;
    let ghost all = string_views(names@);
    let mut out: Vec<String> = Vec::new();
    let mut i: usize = 0;
    assert(all.take(0) =~= Seq::<Seq<char>>::empty());
    assert(string_views(out@) =~= Seq::<Seq<char>>::empty());
    while i < names.len()
        invariant
            i <= names@.len(),
            fs == favs@,
            all == string_views(names@),
            in_list_order(string_views(out@), fs),
            string_views(out@).to_multiset() == all.take(i as int).to_multiset(),
        decreases names@.len() - i,
    {
        let x = names[i].clone();
        let x_fav = favs.contains(x.as_str());
        let ghost cur = string_views(out@);
        let mut k: usize = 0;
        let mut found = false;
        while k < out.len() && !found
            invariant
                k <= out@.len(),
                cur == string_views(out@),
                x_fav == fs.contains(x@),
                fs == favs@,
                forall|j: int| 0 <= j < k ==> !precedes(x@, #[trigger] cur[j], fs),
                found ==> k < out@.len() && precedes(x@, cur[k as int], fs),
            decreases out@.len() - k + (if found { 0int } else { 1int }),
        {
            let y_fav = favs.contains(out[k].as_str());
            if precedes_exec(x.as_str(), x_fav, out[k].as_str(), y_fav) {
                found = true;
            } else {
                k = k + 1;
            }
        }
        proof {
            assert forall|j: int| k <= j < cur.len() implies precedes(x@, #[trigger] cur[j], fs) by {
                if j > k {
                    lemma_precedes_chain(x@, cur[k as int], cur[j], fs);
                }
            }
        }
        let ghost xv = x@;
        out.insert(k, x);
        proof {
            let ns = string_views(out@);
            assert(ns =~= cur.insert(k as int, xv));
            assert forall|p: int, q: int| 0 <= p < q < ns.len() implies !precedes(
                #[trigger] ns[q],
                #[trigger] ns[p],
                fs,
            ) by {
                if q < k {
                    assert(ns[p] == cur[p] && ns[q] == cur[q]);
                } else if q == k {
                    assert(ns[p] == cur[p]);
                } else if p == k {
                    assert(ns[q] == cur[q - 1]);
                    lemma_precedes_asymmetric(xv, cur[q - 1], fs);
                } else if p < k {
                    assert(ns[p] == cur[p] && ns[q] == cur[q - 1]);
                } else {
                    assert(ns[p] == cur[p - 1] && ns[q] == cur[q - 1]);
                }
            }
            lemma_insert_to_multiset(cur, k as int, xv);
            assert(all.take(i + 1) =~= all.take(i as int).push(xv));
        }
        i = i + 1;
    }
    assert(all.take(names@.len() as int) =~= all);
    out
}

/// In display order every favourite comes before every other pack (a
/// starred pack is pinned to the top), and packs of the same kind come in
/// name order.
pub proof fn lemma_favorites_on_top(s: Seq<Seq<char>>, favs: Set<Seq<char>>)
    requires
        in_list_order(s, favs),
    ensures
        forall|i: int, j: int|
            0 <= i < j < s.len() && #[trigger] favs.contains(s[j]) ==> #[trigger] favs.contains(s[i]),
        forall|i: int, j: int|
            0 <= i < j < s.len() && favs.contains(s[i]) == favs.contains(s[j]) ==> !chars_lt(
                #[trigger] s[j],
                #[trigger] s[i],
            ),
{
    assert forall|i: int, j: int|
        0 <= i < j < s.len() && #[trigger] favs.contains(s[j]) implies #[trigger] favs.contains(s[i]) by {
        assert(!precedes(s[j], s[i], favs));
    }
    assert forall|i: int, j: int|
        0 <= i < j < s.len() && favs.contains(s[i]) == favs.contains(s[j]) implies !chars_lt(
            #[trigger] s[j],
            #[trigger] s[i],
        ) by {
        assert(!precedes(s[j], s[i], favs));
    }
}

/// Sorts names in code-point order (the order of `String`).
pub fn sort_names(names: &Vec<String>) -> (r: Vec<String>)
    ensures
        in_list_order(string_views(r@), Set::<Seq<char>>::empty()),
        string_views(r@).to_multiset() == string_views(names@).to_multiset(),
{
    let none = Favorites::new();
    order_packs(names, &none)
}

} // verus!
