//! Small string utilities: trailing-whitespace trimming, decimal rendering
//! of numbers, and lexicographic sorting of strings.

use vstd::prelude::*;
use vstd::string::StrSliceExecFns;
use vstd::string::StringExecFns;

verus! {

/// The characters with the Unicode `White_Space` property, the set that
/// trailing-whitespace trimming removes.
pub open spec fn is_whitespace_char(c: char) -> bool {
    ||| c == ' '
    ||| ('\u{9}' <= c && c <= '\u{d}')
    ||| c == '\u{85}'
    ||| c == '\u{a0}'
    ||| c == '\u{1680}'
    ||| ('\u{2000}' <= c && c <= '\u{200a}')
    ||| c == '\u{2028}'
    ||| c == '\u{2029}'
    ||| c == '\u{202f}'
    ||| c == '\u{205f}'
    ||| c == '\u{3000}'
}

/// Decides [`is_whitespace_char`].
pub fn is_whitespace(c: char) -> (r: bool)
    ensures
        r == is_whitespace_char(c),
{
    c == ' ' || ('\u{9}' <= c && c <= '\u{d}') || c == '\u{85}' || c == '\u{a0}' || c == '\u{1680}'
        || ('\u{2000}' <= c && c <= '\u{200a}') || c == '\u{2028}' || c == '\u{2029}'
        || c == '\u{202f}' || c == '\u{205f}' || c == '\u{3000}'
}

/// Length of `s` once all trailing whitespace is removed.
pub open spec fn trimmed_len(s: Seq<char>) -> nat
    decreases s.len(),
{
    if s.len() > 0 && is_whitespace_char(s.last()) {
        trimmed_len(s.drop_last())
    } else {
        s.len()
    }
}

/// `s` without its trailing whitespace.
pub open spec fn spec_trim_end(s: Seq<char>) -> Seq<char> {
    s.take(trimmed_len(s) as int)
}

proof fn lemma_trimmed_len_at(s: Seq<char>, k: int)
    requires
        0 <= k <= s.len(),
        forall|j: int| k <= j < s.len() ==> is_whitespace_char(#[trigger] s[j]),
        k > 0 ==> !is_whitespace_char(s[k - 1]),
    ensures
        trimmed_len(s) == k,
    decreases s.len(),
{
    if k < s.len() {
        assert(is_whitespace_char(s.last()));
        lemma_trimmed_len_at(s.drop_last(), k);
    }
}

/// In-place removal of trailing whitespace.
pub trait StringExt: View<V = Seq<char>> {
    fn trim_end_inplace(&mut self)
        ensures
            final(self)@ == spec_trim_end(old(self)@),
    ;
}

impl StringExt for String {
    fn trim_end_inplace(&mut self) {
        let ghost s0 = self@;
        let len: usize = self.as_str().unicode_len();
        let mut k: usize = len;
        while k > 0 && is_whitespace(self.as_str().get_char(k - 1))
            invariant
                k <= len,
                len == s0.len(),
                self@ == s0,
                forall|j: int| k <= j < s0.len() ==> is_whitespace_char(#[trigger] s0[j]),
            decreases k,
        {
            k = k - 1;
        }
        proof {
            lemma_trimmed_len_at(s0, k as int);
        }
        let t = self.as_str().substring_char(0, k).to_owned();
        *self = t;
    }
}

/// The decimal digit for a value below ten.
pub open spec fn digit_char(d: int) -> char
    recommends
        0 <= d < 10,
{
    if d == 0 {
        '0'
    } else if d == 1 {
        '1'
    } else if d == 2 {
        '2'
    } else if d == 3 {
        '3'
    } else if d == 4 {
        '4'
    } else if d == 5 {
        '5'
    } else if d == 6 {
        '6'
    } else if d == 7 {
        '7'
    } else if d == 8 {
        '8'
    } else {
        '9'
    }
}

/// The decimal digits of a nonnegative number, most significant first.
pub open spec fn dec_digits(n: nat) -> Seq<char>
    decreases n,
{
    if n < 10 {
        seq![digit_char(n as int)]
    } else {
        dec_digits(n / 10).push(digit_char((n % 10) as int))
    }
}

/// The decimal rendering of an integer, with a leading minus sign when it is
/// negative.
pub open spec fn dec_int(n: int) -> Seq<char> {
    if n >= 0 {
        dec_digits(n as nat)
    } else {
        seq!['-'] + dec_digits((-n) as nat)
    }
}

fn digit_string(d: u64) -> (r: String)
    requires
        d < 10,
    ensures
        r@ == seq![digit_char(d as int)],
{
    let s: &str = if d == 0 {
        "0"
    } else if d == 1 {
        "1"
    } else if d == 2 {
        "2"
    } else if d == 3 {
        "3"
    } else if d == 4 {
        "4"
    } else if d == 5 {
        "5"
    } else if d == 6 {
        "6"
    } else if d == 7 {
        "7"
    } else if d == 8 {
        "8"
    } else {
        "9"
    };
    proof {
        reveal_strlit("0");
        reveal_strlit("1");
        reveal_strlit("2");
        reveal_strlit("3");
        reveal_strlit("4");
        reveal_strlit("5");
        reveal_strlit("6");
        reveal_strlit("7");
        reveal_strlit("8");
        reveal_strlit("9");
        assert(s@ =~= seq![digit_char(d as int)]);
    }
    s.to_owned()
}

/// Renders `n` in decimal.
pub fn u64_to_string(n: u64) -> (r: String)
    ensures
        r@ == dec_digits(n as nat),
    decreases n,
{
    if n < 10 {
        digit_string(n)
    } else {
        let mut s = u64_to_string(n / 10);
        let d = digit_string(n % 10);
        s.append(d.as_str());
        proof {
            assert(s@ =~= dec_digits(n as nat));
        }
        s
    }
}

/// Renders `n` in decimal, with a minus sign when it is negative.
pub fn i32_to_string(n: i32) -> (r: String)
    ensures
        r@ == dec_int(n as int),
{
    if n >= 0 {
        u64_to_string(n as u64)
    } else {
        let m: u64 = (-(n as i64)) as u64;
        let mut s = String::from_str("-");
        let d = u64_to_string(m);
        s.append(d.as_str());
        proof {
            reveal_strlit("-");
            assert(s@ =~= dec_int(n as int));
        }
        s
    }
}

/// Lexicographic order on character sequences, by code point.
pub open spec fn lex_le(a: Seq<char>, b: Seq<char>) -> bool
    decreases a.len(),
{
    if a.len() == 0 {
        true
    } else if b.len() == 0 {
        false
    } else if a.first() == b.first() {
        lex_le(a.drop_first(), b.drop_first())
    } else {
        (a.first() as int) < (b.first() as int)
    }
}

/// The lexicographic order relates every pair of strings, one way or the
/// other.
pub proof fn lemma_lex_le_total(a: Seq<char>, b: Seq<char>)
    ensures
        lex_le(a, b) || lex_le(b, a),
    decreases a.len(),
{
    if a.len() == 0 {
        assert(lex_le(a, b));
    } else if b.len() == 0 {
        assert(lex_le(b, a));
    } else if a.first() == b.first() {
        lemma_lex_le_total(a.drop_first(), b.drop_first());
    } else {
        assert((a.first() as int) != (b.first() as int));
        assert(lex_le(a, b) || lex_le(b, a));
    }
}

/// The lexicographic order is transitive.
pub proof fn lemma_lex_le_trans(a: Seq<char>, b: Seq<char>, c: Seq<char>)
    requires
        lex_le(a, b),
        lex_le(b, c),
    ensures
        lex_le(a, c),
    decreases a.len(),
{
    if a.len() > 0 && b.len() > 0 && c.len() > 0 && a.first() == b.first() && b.first()
        == c.first() {
        lemma_lex_le_trans(a.drop_first(), b.drop_first(), c.drop_first());
    }
}

/// The lexicographic order is reflexive.
pub proof fn lemma_lex_le_refl(a: Seq<char>)
    ensures
        lex_le(a, a),
    decreases a.len(),
{
    if a.len() > 0 {
        lemma_lex_le_refl(a.drop_first());
    }
}

/// Decides [`lex_le`] on string slices.
pub fn str_le(a: &str, b: &str) -> (r: bool)
    ensures
        r == lex_le(a@, b@),
{
    let alen: usize = a.unicode_len();
    let blen: usize = b.unicode_len();
    let mut i: usize = 0;
    proof {
        assert(a@.skip(0) =~= a@);
        assert(b@.skip(0) =~= b@);
    }
    loop
        invariant
            i <= alen,
            i <= blen,
            alen == a@.len(),
            blen == b@.len(),
            lex_le(a@, b@) == lex_le(a@.skip(i as int), b@.skip(i as int)),
        decreases alen - i,
    {
        if i == alen {
            return true;
        }
        if i == blen {
            return false;
        }
        let ca = a.get_char(i);
        let cb = b.get_char(i);
        if ca != cb {
            return (ca as u32) < (cb as u32);
        }
        proof {
            assert(a@.skip(i as int).drop_first() =~= a@.skip(i as int + 1));
            assert(b@.skip(i as int).drop_first() =~= b@.skip(i as int + 1));
        }
        i = i + 1;
    }
}

/// The views of a sequence of strings.
pub open spec fn views_of(v: Seq<String>) -> Seq<Seq<char>> {
    v.map_values(|s: String| s@)
}

/// Whether a sequence of strings ascends lexicographically.
pub open spec fn lex_sorted(v: Seq<Seq<char>>) -> bool {
    forall|i: int, j: int| 0 <= i < j < v.len() ==> lex_le(#[trigger] v[i], #[trigger] v[j])
}

proof fn lemma_views_of_remove_first(v: Seq<String>)
    requires
        v.len() > 0,
    ensures
        views_of(v).to_multiset() == views_of(v.remove(0)).to_multiset().insert(v[0]@),
{
    broadcast use vstd::seq_lib::group_to_multiset_ensures;

    assert(views_of(v).remove(0) =~= views_of(v.remove(0)));
    assert(views_of(v).remove(0).to_multiset() =~= views_of(v).to_multiset().remove(v[0]@));
    assert(views_of(v).to_multiset().contains(v[0]@)) by {
        assert(views_of(v)[0] == v[0]@);
        assert(views_of(v).contains(v[0]@));
    }
    assert(views_of(v).to_multiset() =~= views_of(v.remove(0)).to_multiset().insert(v[0]@));
}

proof fn lemma_views_of_insert(v: Seq<String>, j: int, s: String)
    requires
        0 <= j <= v.len(),
    ensures
        views_of(v.insert(j, s)).to_multiset() == views_of(v).to_multiset().insert(s@),
{
    broadcast use vstd::seq_lib::group_to_multiset_ensures;

    let w = v.insert(j, s);
    assert(views_of(w).remove(j) =~= views_of(v));
    assert(views_of(w).remove(j).to_multiset() =~= views_of(w).to_multiset().remove(s@)) by {
        assert(views_of(w)[j] == s@);
    }
    assert(views_of(w).to_multiset().contains(s@)) by {
        assert(views_of(w)[j] == s@);
        assert(views_of(w).contains(s@));
    }
    assert(views_of(w).to_multiset() =~= views_of(v).to_multiset().insert(s@));
}

fn insert_pos(r: &Vec<String>, s: &str) -> (j: usize)
    ensures
        j <= r@.len(),
        forall|i: int| 0 <= i < j ==> lex_le(#[trigger] r@[i]@, s@),
        j < r@.len() ==> lex_le(s@, r@[j as int]@),
{
    let mut j: usize = 0;
    loop
        invariant
            j <= r@.len(),
            forall|i: int| 0 <= i < j ==> lex_le(#[trigger] r@[i]@, s@),
        decreases r@.len() - j,
    {
        if j == r.len() {
            return j;
        }
        if !str_le(r[j].as_str(), s) {
            proof {
                lemma_lex_le_total(r@[j as int]@, s@);
            }
            return j;
        }
        j = j + 1;
    }
}

/// Sorts strings in ascending lexicographic order; the result holds the same
/// strings, as a multiset of views.
pub fn sort_strings(v: Vec<String>) -> (r: Vec<String>)
    ensures
        lex_sorted(views_of(r@)),
        views_of(r@).to_multiset() == views_of(v@).to_multiset(),
{
    broadcast use vstd::multiset::group_multiset_axioms;

    let mut rest = v;
    let mut r: Vec<String> = Vec::new();
    proof {
        assert(views_of(r@) =~= Seq::<Seq<char>>::empty());
        broadcast use vstd::seq_lib::group_to_multiset_ensures;

        assert(views_of(r@).to_multiset().add(views_of(rest@).to_multiset()) =~= views_of(
            v@,
        ).to_multiset());
    }
    while rest.len() > 0
        invariant
            lex_sorted(views_of(r@)),
            views_of(r@).to_multiset().add(views_of(rest@).to_multiset()) == views_of(
                v@,
            ).to_multiset(),
        decreases rest.len(),
    {
        let ghost rest0 = rest@;
        let s = rest.remove(0);
        proof {
            lemma_views_of_remove_first(rest0);
        }
        let j = insert_pos(&r, s.as_str());
        proof {
            let w = r@.insert(j as int, s);
            assert(forall|i: int| 0 <= i < w.len() ==> #[trigger] views_of(w)[i] == w[i]@);
            assert(forall|i: int| 0 <= i < r@.len() ==> #[trigger] views_of(r@)[i] == r@[i]@);
            assert forall|x: int, y: int| 0 <= x < y < w.len() implies lex_le(
                #[trigger] views_of(w)[x],
                #[trigger] views_of(w)[y],
            ) by {
                if y < j {
                    assert(w[x]@ == r@[x]@ && w[y]@ == r@[y]@);
                    assert(lex_le(views_of(r@)[x], views_of(r@)[y]));
                } else if x < j && y == j {
                    assert(w[x]@ == r@[x]@ && w[y]@ == s@);
                    assert(lex_le(r@[x]@, s@));
                } else if x == j && y > j {
                    assert(w[x]@ == s@ && w[y]@ == r@[y - 1]@);
                    assert(j < r@.len());
                    assert(lex_le(s@, r@[j as int]@));
                    if y - 1 > j {
                        assert(lex_le(views_of(r@)[j as int], views_of(r@)[y - 1]));
                        assert(views_of(r@)[j as int] == r@[j as int]@);
                        assert(views_of(r@)[y - 1] == r@[y - 1]@);
                        lemma_lex_le_trans(s@, r@[j as int]@, r@[y - 1]@);
                    }
                } else if x < j && y > j {
                    assert(w[x]@ == r@[x]@ && w[y]@ == r@[y - 1]@);
                    if y - 1 == x {
                        lemma_lex_le_refl(r@[x]@);
                    } else {
                        assert(lex_le(views_of(r@)[x], views_of(r@)[y - 1]));
                    }
                } else if x > j && y > j {
                    assert(w[x]@ == r@[x - 1]@ && w[y]@ == r@[y - 1]@);
                    assert(lex_le(views_of(r@)[x - 1], views_of(r@)[y - 1]));
                }
            }
            lemma_views_of_insert(r@, j as int, s);
        }
        r.insert(j, s);
        proof {
            assert(views_of(r@).to_multiset().add(views_of(rest@).to_multiset()) =~= views_of(
                v@,
            ).to_multiset());
        }
    }
    proof {
        assert(views_of(rest@) =~= Seq::<Seq<char>>::empty());
        broadcast use vstd::seq_lib::group_to_multiset_ensures;

        assert(views_of(r@).to_multiset() =~= views_of(v@).to_multiset());
    }
    r
}

} // verus!
