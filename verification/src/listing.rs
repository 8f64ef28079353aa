//! The deterministic order in which source folders and video files are offered: names
//! compare without regard to ASCII case, and names that differ only in case keep their
//! exact code-point order.
use vstd::prelude::*;

use crate::text::{chars_of, lower, lower_char, lower_char_exec};
use crate::workflow::distinct;

verus! {

/// Lexicographic order of character sequences by code point, a prefix first.
pub open spec fn seq_le(a: Seq<char>, b: Seq<char>) -> bool
    decreases a.len(),
{
    if a.len() == 0 {
        true
    } else if b.len() == 0 {
        false
    } else if a[0] != b[0] {
        (a[0] as int) < (b[0] as int)
    } else {
        seq_le(a.drop_first(), b.drop_first())
    }
}

/// The listing order: case-insensitive first, exact order between names that differ in
/// case only.
pub open spec fn listing_le(a: Seq<char>, b: Seq<char>) -> bool {
    if lower(a) == lower(b) {
        seq_le(a, b)
    } else {
        seq_le(lower(a), lower(b))
    }
}

/// The lexicographic order is reflexive.
pub proof fn lemma_seq_le_reflexive(a: Seq<char>)
    ensures
        seq_le(a, a),
    decreases a.len(),
{
    if a.len() > 0 {
        lemma_seq_le_reflexive(a.drop_first());
    }
}

/// The lexicographic order is total.
pub proof fn lemma_seq_le_total(a: Seq<char>, b: Seq<char>)
    ensures
        seq_le(a, b) || seq_le(b, a),
    decreases a.len(),
{
    if a.len() > 0 && b.len() > 0 {
        if a[0] == b[0] {
            lemma_seq_le_total(a.drop_first(), b.drop_first());
        }
    }
}

/// The lexicographic order is antisymmetric.
pub proof fn lemma_seq_le_antisymmetric(a: Seq<char>, b: Seq<char>)
    requires
        seq_le(a, b),
        seq_le(b, a),
    ensures
        a == b,
    decreases a.len(),
{
    if a.len() > 0 && b.len() > 0 {
        lemma_seq_le_antisymmetric(a.drop_first(), b.drop_first());
        assert(a =~= seq![a[0]] + a.drop_first());
        assert(b =~= seq![b[0]] + b.drop_first());
    }
}

/// The lexicographic order is transitive.
pub proof fn lemma_seq_le_transitive(a: Seq<char>, b: Seq<char>, c: Seq<char>)
    requires
        seq_le(a, b),
        seq_le(b, c),
    ensures
        seq_le(a, c),
    decreases a.len(),
{
    if a.len() > 0 && b.len() > 0 && c.len() > 0 && a[0] == b[0] && b[0] == c[0] {
        lemma_seq_le_transitive(a.drop_first(), b.drop_first(), c.drop_first());
    }
}

/// The listing order is total.
pub proof fn lemma_listing_le_total(a: Seq<char>, b: Seq<char>)
    ensures
        listing_le(a, b) || listing_le(b, a),
{
    lemma_seq_le_total(a, b);
    lemma_seq_le_total(lower(a), lower(b));
}

/// The listing order is transitive.
pub proof fn lemma_listing_le_transitive(a: Seq<char>, b: Seq<char>, c: Seq<char>)
    requires
        listing_le(a, b),
        listing_le(b, c),
    ensures
        listing_le(a, c),
{
    let (la, lb, lc) = (lower(a), lower(b), lower(c));
    if la == lb && lb == lc {
        lemma_seq_le_transitive(a, b, c);
    } else {
        lemma_seq_le_reflexive(la);
        lemma_seq_le_reflexive(lb);
        lemma_seq_le_transitive(la, lb, lc);
        if la == lc {
            lemma_seq_le_antisymmetric(la, lb);
        }
    }
}

/// Whether `a` comes no later than `b` in code-point order.
fn chars_le(a: &Vec<char>, b: &Vec<char>) -> (r: bool)
    ensures
        r == seq_le(a@, b@),
{
    let mut i: usize = 0;
    assert(a@.skip(0) =~= a@ && b@.skip(0) =~= b@);
    while i < a.len() && i < b.len() && a[i] == b[i]
        invariant
            i <= a@.len(),
            i <= b@.len(),
            seq_le(a@, b@) == seq_le(a@.skip(i as int), b@.skip(i as int)),
        decreases a@.len() - i,
    {
        assert(a@.skip(i as int).drop_first() =~= a@.skip(i + 1));
        assert(b@.skip(i as int).drop_first() =~= b@.skip(i + 1));
        i = i + 1;
    }
    if i == a.len() {
        true
    } else if i == b.len() {
        false
    } else {
        a[i] < b[i]
    }
}

fn lower_vec(v: &Vec<char>) -> (r: Vec<char>)
    ensures
        r@ == lower(v@),
{
    let mut r: Vec<char> = Vec::new();
    let mut i: usize = 0;
    while i < v.len()
        invariant
            i <= v@.len(),
            r@ == lower(v@.take(i as int)),
        decreases v@.len() - i,
    {
        r.push(lower_char_exec(v[i]));
        i = i + 1;
        assert(lower(v@.take(i as int)) =~= lower(v@.take(i - 1)).push(lower_char(v@[i - 1])));
    }
    assert(v@.take(i as int) =~= v@);
    r
}

fn chars_equal(a: &Vec<char>, b: &Vec<char>) -> (r: bool)
    ensures
        r == (a@ == b@),
{
    if a.len() != b.len() {
        return false;
    }
    let mut i: usize = 0;
    while i < a.len()
        invariant
            a@.len() == b@.len(),
            i <= a@.len(),
            forall|k: int| 0 <= k < i ==> a@[k] == b@[k],
        decreases a@.len() - i,
    {
        if a[i] != b[i] {
            return false;
        }
        i = i + 1;
    }
    assert(a@ =~= b@);
    true
}

/// Whether name `a` is listed no later than name `b`.
pub fn listed_no_later(a: &str, b: &str) -> (r: bool)
    ensures
        r == listing_le(a@, b@),
{
    let a_chars = chars_of(a);
    let b_chars = chars_of(b);
    let a_lower = lower_vec(&a_chars);
    let b_lower = lower_vec(&b_chars);
    if chars_equal(&a_lower, &b_lower) {
        chars_le(&a_chars, &b_chars)
    } else {
        chars_le(&a_lower, &b_lower)
    }
}

/// The positions of `names` in listing order, each position once.
pub fn listing_order(names: &Vec<String>) -> (r: Vec<usize>)
    ensures
        r@.len() == names@.len(),
        distinct(r@),
        forall|k: int| 0 <= k < r@.len() ==> #[trigger] r@[k] < names@.len(),
        forall|a: int, b: int|
            0 <= a < b < r@.len() ==> listing_le(
                names@[#[trigger] r@[a] as int]@,
                names@[#[trigger] r@[b] as int]@,
            ),
{
    let mut out: Vec<usize> = Vec::new();
    let mut i: usize = 0;
    while i < names.len()
        invariant
            i <= names@.len(),
            out@.len() == i,
            distinct(out@),
            forall|k: int| 0 <= k < out@.len() ==> #[trigger] out@[k] < i,
            forall|a: int, b: int|
                0 <= a < b < out@.len() ==> listing_le(
                    names@[#[trigger] out@[a] as int]@,
                    names@[#[trigger] out@[b] as int]@,
                ),
        decreases names@.len() - i,
    {
        let mut pos: usize = 0;
        while pos < out.len() && listed_no_later(names[out[pos]].as_str(), names[i].as_str())
            invariant
                i < names@.len(),
                pos <= out@.len(),
                forall|k: int| 0 <= k < out@.len() ==> #[trigger] out@[k] < i,
                forall|k: int|
                    0 <= k < pos ==> listing_le(names@[#[trigger] out@[k] as int]@, names@[i as int]@),
            decreases out@.len() - pos,
        {
            pos = pos + 1;
        }
        let ghost before = out@;
        let ghost x = names@[i as int]@;
        out.insert(pos, i);
        proof {
            assert(out@ =~= before.insert(pos as int, i));
            if pos < before.len() {
                assert(!listing_le(names@[before[pos as int] as int]@, x));
                lemma_listing_le_total(names@[before[pos as int] as int]@, x);
            }
            assert forall|a: int, b: int| 0 <= a < b < out@.len() implies listing_le(
                names@[#[trigger] out@[a] as int]@,
                names@[#[trigger] out@[b] as int]@,
            ) by {
                if b < pos {
                    assert(out@[a] == before[a] && out@[b] == before[b]);
                } else if b == pos {
                    assert(out@[a] == before[a]);
                } else if a < pos {
                    assert(out@[a] == before[a] && out@[b] == before[b - 1]);
                } else if a == pos {
                    assert(out@[b] == before[b - 1]);
                    if b - 1 > pos {
                        assert(listing_le(
                            names@[before[pos as int] as int]@,
                            names@[before[b - 1] as int]@,
                        ));
                        lemma_listing_le_transitive(
                            x,
                            names@[before[pos as int] as int]@,
                            names@[before[b - 1] as int]@,
                        );
                    }
                } else {
                    assert(out@[a] == before[a - 1] && out@[b] == before[b - 1]);
                }
            }
            assert forall|a: int, b: int| 0 <= a < b < out@.len() implies #[trigger] out@[a]
                != #[trigger] out@[b] by {
                if b < pos {
                    assert(out@[a] == before[a] && out@[b] == before[b]);
                } else if b == pos {
                    assert(out@[a] == before[a]);
                } else if a < pos {
                    assert(out@[a] == before[a] && out@[b] == before[b - 1]);
                } else if a == pos {
                    assert(out@[b] == before[b - 1]);
                } else {
                    assert(out@[a] == before[a - 1] && out@[b] == before[b - 1]);
                }
            }
            assert forall|k: int| 0 <= k < out@.len() implies #[trigger] out@[k] < i + 1 by {
                if k < pos {
                    assert(out@[k] == before[k]);
                } else if k > pos {
                    assert(out@[k] == before[k - 1]);
                }
            }
        }
        i = i + 1;
    }
    out
}

} // verus!
