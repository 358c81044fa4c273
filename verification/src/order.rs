//! The order of paths and the sort built on it.
//!
//! Paths are ordered component by component, and components as their UTF-8
//! bytes are. On the text of a path that is the lexicographic order of its
//! bytes with the separator `/` ranked before every other byte: where two
//! paths part, the one whose component ends there comes first.

use vstd::prelude::*;
use vstd::relations::*;
use vstd::seq_lib::*;
use vstd::string::*;
use vstd::utf8::*;

verus! {

/// The byte that separates the components of a path.
pub const SEPARATOR: u8 = 47;

/// Place of a byte in the order: the separator first, then the bytes by
/// value.
pub open spec fn rank(byte: u8) -> int {
    if byte == SEPARATOR {
        0
    } else {
        byte + 1
    }
}

/// `a <= b` lexicographically by rank, looking only at positions from `i`
/// on.
pub open spec fn lex_le_from(a: Seq<u8>, b: Seq<u8>, i: int) -> bool
    decreases a.len() - i,
{
    if i >= a.len() {
        true
    } else if i >= b.len() {
        false
    } else if a[i] != b[i] {
        rank(a[i]) < rank(b[i])
    } else {
        lex_le_from(a, b, i + 1)
    }
}

/// `a <= b` in the lexicographic order of bytes by rank.
pub open spec fn lex_le(a: Seq<u8>, b: Seq<u8>) -> bool {
    lex_le_from(a, b, 0)
}

/// `a <= b` in the order of paths.
pub open spec fn path_le(a: Seq<char>, b: Seq<char>) -> bool {
    lex_le(encode_utf8(a), encode_utf8(b))
}

pub proof fn lemma_lex_reflexive(a: Seq<u8>, i: int)
    requires
        0 <= i,
    ensures
        lex_le_from(a, a, i),
    decreases a.len() - i,
{
    if i < a.len() {
        lemma_lex_reflexive(a, i + 1);
    }
}

pub proof fn lemma_lex_connected(a: Seq<u8>, b: Seq<u8>, i: int)
    requires
        0 <= i,
    ensures
        lex_le_from(a, b, i) || lex_le_from(b, a, i),
    decreases a.len() - i,
{
    if i < a.len() && i < b.len() && a[i] == b[i] {
        lemma_lex_connected(a, b, i + 1);
    }
}

pub proof fn lemma_lex_transitive(a: Seq<u8>, b: Seq<u8>, c: Seq<u8>, i: int)
    requires
        0 <= i,
        lex_le_from(a, b, i),
        lex_le_from(b, c, i),
    ensures
        lex_le_from(a, c, i),
    decreases a.len() - i,
{
    if i < a.len() && a[i] == b[i] && b[i] == c[i] {
        lemma_lex_transitive(a, b, c, i + 1);
    }
}

pub proof fn lemma_lex_antisymmetric(a: Seq<u8>, b: Seq<u8>, i: int)
    requires
        0 <= i <= a.len(),
        i <= b.len(),
        forall|j: int| 0 <= j < i ==> a[j] == b[j],
        lex_le_from(a, b, i),
        lex_le_from(b, a, i),
    ensures
        a == b,
    decreases a.len() - i,
{
    if i < a.len() {
        lemma_lex_antisymmetric(a, b, i + 1);
    } else {
        assert(a =~= b);
    }
}

/// The order of paths as a relation.
pub open spec fn path_order() -> spec_fn(Seq<char>, Seq<char>) -> bool {
    |a: Seq<char>, b: Seq<char>| path_le(a, b)
}

/// The order of paths is total: any two paths compare, and two that
/// compare both ways are the same path.
pub proof fn lemma_path_order_total()
    ensures
        total_ordering(path_order()),
{
    let r = path_order();
    assert forall|x: Seq<char>| #[trigger] r(x, x) by {
        lemma_lex_reflexive(encode_utf8(x), 0);
    }
    assert forall|x: Seq<char>, y: Seq<char>| #[trigger] r(x, y) || #[trigger] r(y, x) by {
        lemma_lex_connected(encode_utf8(x), encode_utf8(y), 0);
    }
    assert forall|x: Seq<char>, y: Seq<char>, z: Seq<char>| #[trigger]
        r(x, y) && #[trigger] r(y, z) implies r(x, z) by {
        lemma_lex_transitive(encode_utf8(x), encode_utf8(y), encode_utf8(z), 0);
    }
    assert forall|x: Seq<char>, y: Seq<char>| #[trigger] r(x, y) && #[trigger] r(y, x) implies x
        == y by {
        lemma_lex_antisymmetric(encode_utf8(x), encode_utf8(y), 0);
        encode_utf8_decode_utf8(x);
        encode_utf8_decode_utf8(y);
    }
}

/// Where `x` goes into `s`: in front of the first element that is not
/// below it.
pub open spec fn insert_position(s: Seq<Seq<char>>, x: Seq<char>) -> int
    decreases s.len(),
{
    if s.len() == 0 || path_le(x, s[0]) {
        0
    } else {
        1 + insert_position(s.drop_first(), x)
    }
}

/// `s` with `x` put in at its position.
pub open spec fn insert_sorted(s: Seq<Seq<char>>, x: Seq<char>) -> Seq<Seq<char>> {
    s.insert(insert_position(s, x), x)
}

/// The paths of `s` in ascending order.
pub open spec fn sorted_paths(s: Seq<Seq<char>>) -> Seq<Seq<char>>
    decreases s.len(),
{
    if s.len() == 0 {
        Seq::empty()
    } else {
        insert_sorted(sorted_paths(s.drop_first()), s[0])
    }
}

pub proof fn lemma_insert_position(s: Seq<Seq<char>>, x: Seq<char>)
    ensures
        0 <= insert_position(s, x) <= s.len(),
        forall|j: int| 0 <= j < insert_position(s, x) ==> !path_le(x, #[trigger] s[j]),
        insert_position(s, x) < s.len() ==> path_le(x, s[insert_position(s, x)]),
    decreases s.len(),
{
    if !(s.len() == 0 || path_le(x, s[0])) {
        let rest = s.drop_first();
        lemma_insert_position(rest, x);
        assert forall|j: int| 0 <= j < insert_position(s, x) implies !path_le(x, #[trigger] s[j]) by {
            if j > 0 {
                assert(s[j] == rest[j - 1]);
            }
        }
    }
}

/// Putting a path in at its position keeps a sorted sequence sorted.
pub proof fn lemma_insert_keeps_sorted(s: Seq<Seq<char>>, x: Seq<char>)
    requires
        sorted_by(s, path_order()),
    ensures
        sorted_by(insert_sorted(s, x), path_order()),
        insert_sorted(s, x).len() == s.len() + 1,
        insert_sorted(s, x).to_multiset() == s.to_multiset().insert(x),
{
    let r = path_order();
    let p = insert_position(s, x);
    let t = insert_sorted(s, x);
    lemma_insert_position(s, x);
    lemma_path_order_total();
    to_multiset_insert(s, p, x);
    assert forall|i: int, j: int| 0 <= i < j < t.len() implies #[trigger] r(t[i], t[j]) by {
        if j == p {
            assert(t[j] == x);
            assert(t[i] == s[i]);
            assert(!path_le(x, s[i]));
            assert(r(x, s[i]) || r(s[i], x));
        } else if i == p {
            assert(t[i] == x);
            assert(t[j] == s[j - 1]);
            assert(r(x, s[p]));
            if j - 1 > p {
                assert(r(s[p], s[j - 1]));
            }
        } else {
            let si = if i < p {
                i
            } else {
                i - 1
            };
            let sj = if j < p {
                j
            } else {
                j - 1
            };
            assert(t[i] == s[si]);
            assert(t[j] == s[sj]);
            assert(r(s[si], s[sj]));
        }
    }
}

/// Sorting yields an ascending sequence with exactly the paths it was
/// given.
pub proof fn lemma_sorted_paths(s: Seq<Seq<char>>)
    ensures
        sorted_by(sorted_paths(s), path_order()),
        sorted_paths(s).len() == s.len(),
        sorted_paths(s).to_multiset() == s.to_multiset(),
    decreases s.len(),
{
    broadcast use vstd::multiset::group_multiset_axioms;
    broadcast use group_to_multiset_ensures;

    if s.len() > 0 {
        let rest = s.drop_first();
        lemma_sorted_paths(rest);
        lemma_insert_keeps_sorted(sorted_paths(rest), s[0]);
        to_multiset_insert(rest, 0, s[0]);
        assert(rest.insert(0, s[0]) =~= s);
    }
}

/// The sorted list depends on which paths were found and how often, not
/// on the order in which they were found.
pub proof fn lemma_sorted_paths_unique(a: Seq<Seq<char>>, b: Seq<Seq<char>>)
    requires
        a.to_multiset() == b.to_multiset(),
    ensures
        sorted_paths(a) == sorted_paths(b),
{
    lemma_sorted_paths(a);
    lemma_sorted_paths(b);
    lemma_path_order_total();
    lemma_sorted_unique(sorted_paths(a), sorted_paths(b), path_order());
}

/// The paths that a vector of strings stands for.
pub open spec fn names(v: Seq<String>) -> Seq<Seq<char>> {
    v.map_values(|s: String| s@)
}

/// Place of a byte in the order.
pub fn byte_rank(byte: u8) -> (r: u16)
    ensures
        r == rank(byte),
{
    if byte == SEPARATOR {
        0
    } else {
        byte as u16 + 1
    }
}

/// Compares two paths.
pub fn path_less_or_equal(a: &str, b: &str) -> (le: bool)
    ensures
        le == path_le(a@, b@),
{
    let x = a.as_bytes();
    let y = b.as_bytes();
    let n: usize = x.len();
    let m: usize = y.len();
    let mut i: usize = 0;
    while i < n
        invariant
            i <= n,
            n == x@.len(),
            m == y@.len(),
            x@ == encode_utf8(a@),
            y@ == encode_utf8(b@),
            lex_le(x@, y@) == lex_le_from(x@, y@, i as int),
        decreases n - i,
    {
        if i >= m {
            return false;
        }
        if x[i] != y[i] {
            return byte_rank(x[i]) < byte_rank(y[i]);
        }
        i = i + 1;
    }
    true
}

/// In a sorted sequence the position of `x` is the only index with
/// nothing at or above `x` in front of it and something at or above `x` on
/// it.
pub proof fn lemma_insert_position_unique(s: Seq<Seq<char>>, x: Seq<char>, p: int)
    requires
        0 <= p <= s.len(),
        forall|j: int| 0 <= j < p ==> !path_le(x, #[trigger] s[j]),
        p < s.len() ==> path_le(x, s[p]),
    ensures
        p == insert_position(s, x),
{
    lemma_insert_position(s, x);
    let q = insert_position(s, x);
    if p < q {
        assert(!path_le(x, s[p]));
    } else if q < p {
        assert(!path_le(x, s[q]));
    }
}

/// Finds where `x` goes into the sorted `paths`, by bisection.
fn find_insert_position(paths: &Vec<String>, x: &str) -> (p: usize)
    requires
        sorted_by(names(paths@), path_order()),
    ensures
        p == insert_position(names(paths@), x@),
        p <= paths@.len(),
{
    let ghost s = names(paths@);
    let mut low: usize = 0;
    let mut high: usize = paths.len();
    while low < high
        invariant
            low <= high <= paths@.len(),
            s == names(paths@),
            sorted_by(s, path_order()),
            forall|j: int| 0 <= j < low ==> !path_le(x@, #[trigger] s[j]),
            high < s.len() ==> path_le(x@, s[high as int]),
        decreases high - low,
    {
        let mid: usize = low + (high - low) / 2;
        assert(s[mid as int] == paths@[mid as int]@);
        if path_less_or_equal(x, paths[mid].as_str()) {
            high = mid;
        } else {
            proof {
                lemma_path_order_total();
                assert forall|j: int| 0 <= j < mid + 1 implies !path_le(x@, #[trigger] s[j]) by {
                    if j < mid && path_le(x@, s[j]) {
                        assert(path_order()(s[j], s[mid as int]));
                        assert(path_order()(x@, s[j]));
                        assert(path_order()(x@, s[mid as int]));
                    }
                }
            }
            low = mid + 1;
        }
    }
    proof {
        lemma_insert_position_unique(s, x@, low as int);
    }
    low
}

/// Sorts paths into ascending order.
pub fn sort_paths(paths: Vec<String>) -> (out: Vec<String>)
    ensures
        names(out@) == sorted_paths(names(paths@)),
        out@.len() == paths@.len(),
{
    let ghost all = names(paths@);
    let mut rest = paths;
    let mut out: Vec<String> = Vec::new();
    assert(all.skip(all.len() as int) =~= Seq::<Seq<char>>::empty());
    assert(names(out@) =~= Seq::<Seq<char>>::empty());
    loop
        invariant
            rest@.len() <= all.len(),
            names(rest@) == all.take(rest@.len() as int),
            names(out@) == sorted_paths(all.skip(rest@.len() as int)),
            out@.len() + rest@.len() == all.len(),
        ensures
            rest@.len() == 0,
        decreases rest@.len(),
    {
        let ghost k = rest@.len() as int;
        let x = match rest.pop() {
            Some(x) => x,
            None => {
                break ;
            },
        };
        let ghost before = names(out@);
        proof {
            assert(all[k - 1] == x@) by {
                assert(all.take(k)[k - 1] == x@);
            }
            assert(all.skip(k - 1).drop_first() =~= all.skip(k));
            assert(all.skip(k - 1)[0] == x@);
            assert(names(rest@) =~= all.take(k - 1)) by {
                assert forall|j: int| 0 <= j < k - 1 implies names(rest@)[j] == all.take(k - 1)[j] by {
                    assert(all.take(k)[j] == all[j]);
                }
            }
            lemma_sorted_paths(all.skip(k));
        }
        let p: usize = find_insert_position(&out, x.as_str());
        out.insert(p, x);
        assert(names(out@) =~= before.insert(p as int, x@));
    }
    assert(all.skip(0) =~= all);
    out
}

} // verus!
