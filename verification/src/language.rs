//! Local validation and canonical casing of TMDB metadata language tags
//! (`pt-BR`, `zh-Hant-TW`, `es-419`).
use vstd::prelude::*;
use vstd::string::*;

use crate::text::{
    all_ascii_alnum, all_ascii_alpha, chars_of, is_ascii_alnum, is_ascii_alnum_char,
    is_ascii_alpha, is_ascii_alpha_char, is_space, lower, lower_char, lower_chars, trim, trim_end,
    trim_start, trim_str, upper, upper_char, upper_chars,
};

verus! {

/// `str::split('-')`: the dash-separated parts of `s`, empty parts included.
pub open spec fn split_dash(s: Seq<char>) -> Seq<Seq<char>>
    decreases s.len(),
{
    if s.len() == 0 {
        seq![Seq::<char>::empty()]
    } else {
        let parts = split_dash(s.drop_last());
        if s.last() == '-' {
            parts.push(Seq::<char>::empty())
        } else {
            parts.update(parts.len() - 1, parts.last().push(s.last()))
        }
    }
}

/// The parts joined by single dashes.
pub open spec fn join_dash(parts: Seq<Seq<char>>) -> Seq<char>
    decreases parts.len(),
{
    if parts.len() == 0 {
        Seq::<char>::empty()
    } else if parts.len() == 1 {
        parts[0]
    } else {
        join_dash(parts.drop_last()) + seq!['-'] + parts.last()
    }
}

/// The primary language subtag: two or three ASCII letters.
pub open spec fn valid_primary(p: Seq<char>) -> bool {
    2 <= p.len() <= 3 && all_ascii_alpha(p)
}

/// A later subtag: one to eight ASCII letters or digits.
pub open spec fn valid_subtag(p: Seq<char>) -> bool {
    1 <= p.len() <= 8 && all_ascii_alnum(p)
}

/// A primary subtag followed by at most three later subtags.
pub open spec fn valid_tag_parts(parts: Seq<Seq<char>>) -> bool {
    &&& 1 <= parts.len() <= 4
    &&& valid_primary(parts[0])
    &&& forall|i: int| 1 <= i < parts.len() ==> #[trigger] valid_subtag(parts[i])
}

/// Script subtags (four letters) in title case, region subtags (two letters) in upper
/// case, everything else in lower case.
pub open spec fn canonical_subtag(p: Seq<char>) -> Seq<char> {
    if p.len() == 4 && all_ascii_alpha(p) {
        upper(p.take(1)) + lower(p.skip(1))
    } else if p.len() == 2 && all_ascii_alpha(p) {
        upper(p)
    } else {
        lower(p)
    }
}

/// Each part in its canonical casing; the primary subtag in lower case.
pub open spec fn canonical_parts(parts: Seq<Seq<char>>) -> Seq<Seq<char>> {
    Seq::new(
        parts.len(),
        |i: int|
            if i == 0 {
                lower(parts[0])
            } else {
                canonical_subtag(parts[i])
            },
    )
}

/// The canonical tag for `value`, or `None` when it is rejected.
pub open spec fn spec_language_tag(value: Seq<char>) -> Option<Seq<char>> {
    let parts = split_dash(trim(value));
    if valid_tag_parts(parts) {
        Some(join_dash(canonical_parts(parts)))
    } else {
        None
    }
}

pub proof fn lemma_split_dash_len(s: Seq<char>)
    ensures
        split_dash(s).len() >= 1,
    decreases s.len(),
{
    if s.len() > 0 {
        lemma_split_dash_len(s.drop_last());
    }
}

fn all_alpha_in(v: &Vec<char>, from: usize, to: usize) -> (r: bool)
    requires
        from <= to <= v.len(),
    ensures
        r == all_ascii_alpha(v@.subrange(from as int, to as int)),
{
    let mut i = from;
    while i < to
        invariant
            from <= i <= to <= v.len(),
            all_ascii_alpha(v@.subrange(from as int, i as int)),
        decreases to - i,
    {
        if !is_ascii_alpha_char(v[i]) {
            assert(!is_ascii_alpha(v@.subrange(from as int, to as int)[i - from]));
            return false;
        }
        i = i + 1;
        assert(all_ascii_alpha(v@.subrange(from as int, i as int))) by {
            assert forall|j: int| 0 <= j < i - from implies #[trigger] is_ascii_alpha(
                v@.subrange(from as int, i as int)[j],
            ) by {
                if j < i - 1 - from {
                    assert(v@.subrange(from as int, i as int)[j] == v@.subrange(
                        from as int,
                        i - 1,
                    )[j]);
                }
            }
        }
    }
    true
}

fn all_alnum_in(v: &Vec<char>, from: usize, to: usize) -> (r: bool)
    requires
        from <= to <= v.len(),
    ensures
        r == all_ascii_alnum(v@.subrange(from as int, to as int)),
{
    let mut i = from;
    while i < to
        invariant
            from <= i <= to <= v.len(),
            all_ascii_alnum(v@.subrange(from as int, i as int)),
        decreases to - i,
    {
        if !is_ascii_alnum_char(v[i]) {
            assert(!is_ascii_alnum(v@.subrange(from as int, to as int)[i - from]));
            return false;
        }
        i = i + 1;
        assert(all_ascii_alnum(v@.subrange(from as int, i as int))) by {
            assert forall|j: int| 0 <= j < i - from implies #[trigger] is_ascii_alnum(
                v@.subrange(from as int, i as int)[j],
            ) by {
                if j < i - 1 - from {
                    assert(v@.subrange(from as int, i as int)[j] == v@.subrange(
                        from as int,
                        i - 1,
                    )[j]);
                }
            }
        }
    }
    true
}

/// The `(start, end)` character ranges of the dash-separated parts of `v`.
fn split_ranges(v: &Vec<char>) -> (ranges: Vec<(usize, usize)>)
    ensures
        ranges@.len() == split_dash(v@).len(),
        forall|k: int|
            #![trigger ranges@[k]]
            0 <= k < ranges@.len() ==> ranges@[k].0 <= ranges@[k].1 <= v@.len(),
        forall|k: int|
            0 <= k < ranges@.len() ==> #[trigger] split_dash(v@)[k] == v@.subrange(
                ranges@[k].0 as int,
                ranges@[k].1 as int,
            ),
{
    let n = v.len();
    let mut ranges: Vec<(usize, usize)> = Vec::new();
    let mut current: usize = 0;
    let mut i: usize = 0;
    assert(v@.take(0) =~= Seq::<char>::empty());
    while i < n
        invariant
            n == v@.len(),
            current <= i <= n,
            ranges@.len() + 1 == split_dash(v@.take(i as int)).len(),
            forall|k: int|
                #![trigger ranges@[k]]
                0 <= k < ranges@.len() ==> ranges@[k].0 <= ranges@[k].1 <= i,
            forall|k: int|
                0 <= k < ranges@.len() ==> #[trigger] split_dash(v@.take(i as int))[k]
                    == v@.subrange(ranges@[k].0 as int, ranges@[k].1 as int),
            split_dash(v@.take(i as int)).last() == v@.subrange(current as int, i as int),
        decreases n - i,
    {
        let ghost before = split_dash(v@.take(i as int));
        assert(v@.take(i + 1).drop_last() =~= v@.take(i as int));
        assert(v@.take(i + 1).last() == v@[i as int]);
        proof {
            lemma_split_dash_len(v@.take(i as int));
        }
        let ghost old_ranges = ranges@;
        let ghost old_current = current;
        if v[i] == '-' {
            ranges.push((current, i));
            current = i + 1;
            i = i + 1;
            assert(v@.subrange(current as int, i as int) =~= Seq::<char>::empty());
            let ghost after = split_dash(v@.take(i as int));
            assert(after == before.push(Seq::<char>::empty()));
            assert forall|k: int| 0 <= k < ranges@.len() implies #[trigger] split_dash(v@.take(i as int))[k] == v@.subrange(
                    ranges@[k].0 as int,
                    ranges@[k].1 as int,
                ) by {
                if k < old_ranges.len() {
                    assert(ranges@[k] == old_ranges[k]);
                    assert(after[k] == before[k]);
                } else {
                    assert(after[k] == before.last());
                }
            }
        } else {
            i = i + 1;
            assert(v@.subrange(current as int, i as int) =~= v@.subrange(
                current as int,
                i - 1,
            ).push(v@[i - 1]));
            let ghost after = split_dash(v@.take(i as int));
            assert(after == before.update(before.len() - 1, before.last().push(v@[i - 1])));
            assert forall|k: int| 0 <= k < ranges@.len() implies #[trigger] split_dash(v@.take(i as int))[k] == v@.subrange(
                    ranges@[k].0 as int,
                    ranges@[k].1 as int,
                ) by {
                assert(after[k] == before[k]);
            }
        }
    }
    assert(v@.take(n as int) =~= v@);
    proof {
        lemma_split_dash_len(v@);
    }
    let ghost old_ranges = ranges@;
    ranges.push((current, n));
    assert forall|k: int| 0 <= k < ranges@.len() implies #[trigger] split_dash(v@)[k] == v@.subrange(ranges@[k].0 as int, ranges@[k].1 as int) by {
        if k < old_ranges.len() {
            assert(ranges@[k] == old_ranges[k]);
        }
    }
    ranges
}

/// The canonical casing of the later subtag `v[from..to]`.
fn canonical_subtag_exec(v: &Vec<char>, from: usize, to: usize) -> (r: String)
    requires
        from <= to <= v.len(),
    ensures
        r@ == canonical_subtag(v@.subrange(from as int, to as int)),
{
    let ghost p = v@.subrange(from as int, to as int);
    let alpha = all_alpha_in(v, from, to);
    if to - from == 4 && alpha {
        let mut r = upper_chars(v, from, from + 1);
        let rest = lower_chars(v, from + 1, to);
        r.append(rest.as_str());
        assert(p.take(1) =~= v@.subrange(from as int, from + 1));
        assert(p.skip(1) =~= v@.subrange(from + 1, to as int));
        r
    } else if to - from == 2 && alpha {
        upper_chars(v, from, to)
    } else {
        lower_chars(v, from, to)
    }
}

/// Normalizes a plausible BCP-47-style locale for use in TMDB query parameters.
///
/// Rejects empty, malformed, or whitespace-containing values and canonicalizes
/// common language/region casing. `None` stands for an invalid language.
pub fn canonical_language_tag(value: &str) -> (r: Option<String>)
    ensures
        match r {
            Some(tag) => spec_language_tag(value@) == Some(tag@),
            None => spec_language_tag(value@) is None,
        },
{
    let trimmed = trim_str(value);
    let v = chars_of(trimmed.as_str());
    let ranges = split_ranges(&v);
    let ghost parts = split_dash(trim(value@));
    assert(parts == split_dash(v@));
    proof {
        lemma_split_dash_len(v@);
    }
    let count = ranges.len();
    if count > 4 {
        return None;
    }
    let (first_start, first_end) = ranges[0];
    assert(parts[0] == v@.subrange(first_start as int, first_end as int));
    if !(first_end - first_start >= 2 && first_end - first_start <= 3 && all_alpha_in(
        &v,
        first_start,
        first_end,
    )) {
        return None;
    }
    let mut k: usize = 1;
    while k < count
        invariant
            1 <= k <= count == ranges@.len() == parts.len() <= 4,
            v@ == trim(value@),
            parts == split_dash(v@),
            valid_primary(parts[0]),
            forall|j: int|
                #![trigger ranges@[j]]
                0 <= j < ranges@.len() ==> ranges@[j].0 <= ranges@[j].1 <= v@.len(),
            forall|j: int|
                0 <= j < ranges@.len() ==> #[trigger] parts[j] == v@.subrange(
                    ranges@[j].0 as int,
                    ranges@[j].1 as int,
                ),
            forall|j: int| 1 <= j < k ==> #[trigger] valid_subtag(parts[j]),
        decreases count - k,
    {
        let (start, end) = ranges[k];
        assert(parts[k as int] == v@.subrange(start as int, end as int));
        if !(end - start >= 1 && end - start <= 8 && all_alnum_in(&v, start, end)) {
            assert(!valid_subtag(parts[k as int]));
            return None;
        }
        k = k + 1;
    }
    assert(valid_tag_parts(parts));
    let ghost canon = canonical_parts(parts);
    let mut out = lower_chars(&v, first_start, first_end);
    assert(canon.take(1) =~= seq![canon[0]]);
    let mut k: usize = 1;
    while k < count
        invariant
            1 <= k <= count == ranges@.len() == parts.len() <= 4,
            v@ == trim(value@),
            parts == split_dash(v@),
            canon == canonical_parts(parts),
            forall|j: int|
                #![trigger ranges@[j]]
                0 <= j < ranges@.len() ==> ranges@[j].0 <= ranges@[j].1 <= v@.len(),
            forall|j: int|
                0 <= j < ranges@.len() ==> #[trigger] parts[j] == v@.subrange(
                    ranges@[j].0 as int,
                    ranges@[j].1 as int,
                ),
            out@ == join_dash(canon.take(k as int)),
        decreases count - k,
    {
        let (start, end) = ranges[k];
        let part = canonical_subtag_exec(&v, start, end);
        out.append("-");
        out.append(part.as_str());
        proof {
            reveal_strlit("-");
            assert(canon.take(k + 1).drop_last() =~= canon.take(k as int));
            assert(canon.take(k + 1).last() == canon[k as int]);
        }
        k = k + 1;
    }
    assert(canon.take(count as int) =~= canon);
    Some(out)
}

pub open spec fn dash_free(s: Seq<char>) -> bool {
    forall|i: int| 0 <= i < s.len() ==> s[i] != '-'
}

proof fn lemma_split_dash_free(s: Seq<char>)
    requires
        dash_free(s),
    ensures
        split_dash(s) == seq![s],
    decreases s.len(),
{
    if s.len() > 0 {
        lemma_split_dash_free(s.drop_last());
        assert(s.drop_last().push(s.last()) =~= s);
        assert(split_dash(s) =~= seq![s]);
    } else {
        assert(s =~= Seq::<char>::empty());
    }
}

proof fn lemma_split_after_dash(x: Seq<char>, y: Seq<char>)
    requires
        dash_free(y),
    ensures
        split_dash(x + seq!['-'] + y) == split_dash(x).push(y),
    decreases y.len(),
{
    if y.len() == 0 {
        assert((x + seq!['-'] + y).drop_last() =~= x);
        assert(y =~= Seq::<char>::empty());
    } else {
        let y0 = y.drop_last();
        lemma_split_after_dash(x, y0);
        assert((x + seq!['-'] + y).drop_last() =~= x + seq!['-'] + y0);
        assert(y0.push(y.last()) =~= y);
        assert(split_dash(x + seq!['-'] + y) =~= split_dash(x).push(y));
    }
}

proof fn lemma_split_join(parts: Seq<Seq<char>>)
    requires
        parts.len() >= 1,
        forall|i: int| 0 <= i < parts.len() ==> #[trigger] dash_free(parts[i]),
    ensures
        split_dash(join_dash(parts)) == parts,
    decreases parts.len(),
{
    if parts.len() == 1 {
        lemma_split_dash_free(parts[0]);
        assert(parts =~= seq![parts[0]]);
    } else {
        let front = parts.drop_last();
        assert forall|i: int| 0 <= i < front.len() implies #[trigger] dash_free(front[i]) by {
            assert(front[i] == parts[i]);
        }
        lemma_split_join(front);
        assert(dash_free(parts[parts.len() - 1]));
        lemma_split_after_dash(join_dash(front), parts.last());
        assert(front.push(parts.last()) =~= parts);
    }
}

proof fn lemma_join_ends(parts: Seq<Seq<char>>)
    requires
        parts.len() >= 1,
        parts[0].len() >= 1,
        parts.last().len() >= 1,
    ensures
        join_dash(parts).len() >= 1,
        join_dash(parts)[0] == parts[0][0],
        join_dash(parts).last() == parts.last().last(),
    decreases parts.len(),
{
    if parts.len() > 1 {
        let front = parts.drop_last();
        if front.len() > 1 {
            assert(front.last() == parts[parts.len() - 2]);
        }
        if parts[parts.len() - 2].len() >= 1 {
            lemma_join_ends(front);
        } else {
            lemma_join_front(front);
        }
    }
}

proof fn lemma_join_front(parts: Seq<Seq<char>>)
    requires
        parts.len() >= 1,
        parts[0].len() >= 1,
    ensures
        join_dash(parts).len() >= 1,
        join_dash(parts)[0] == parts[0][0],
    decreases parts.len(),
{
    if parts.len() > 1 {
        lemma_join_front(parts.drop_last());
    }
}

proof fn lemma_lower_char(c: char)
    ensures
        lower_char(lower_char(c)) == lower_char(c),
        is_ascii_alpha(lower_char(c)) == is_ascii_alpha(c),
        is_ascii_alnum(lower_char(c)) == is_ascii_alnum(c),
{
}

proof fn lemma_upper_char(c: char)
    ensures
        upper_char(upper_char(c)) == upper_char(c),
        is_ascii_alpha(upper_char(c)) == is_ascii_alpha(c),
        is_ascii_alnum(upper_char(c)) == is_ascii_alnum(c),
{
}

proof fn lemma_lower_seq(p: Seq<char>)
    ensures
        lower(p).len() == p.len(),
        lower(lower(p)) == lower(p),
        all_ascii_alpha(lower(p)) == all_ascii_alpha(p),
        all_ascii_alnum(lower(p)) == all_ascii_alnum(p),
{
    assert forall|i: int| 0 <= i < p.len() implies #[trigger] lower(lower(p))[i] == lower(p)[i] by {
        lemma_lower_char(p[i]);
    }
    assert(lower(lower(p)) =~= lower(p));
    assert forall|i: int| 0 <= i < p.len() implies is_ascii_alpha(#[trigger] lower(p)[i])
        == is_ascii_alpha(p[i]) && is_ascii_alnum(lower(p)[i]) == is_ascii_alnum(p[i]) by {
        lemma_lower_char(p[i]);
    }
    if all_ascii_alpha(lower(p)) {
        assert forall|i: int| 0 <= i < p.len() implies #[trigger] is_ascii_alpha(p[i]) by {
            assert(is_ascii_alpha(lower(p)[i]));
        }
    }
    if all_ascii_alnum(lower(p)) {
        assert forall|i: int| 0 <= i < p.len() implies #[trigger] is_ascii_alnum(p[i]) by {
            assert(is_ascii_alnum(lower(p)[i]));
        }
    }
}

proof fn lemma_upper_seq(p: Seq<char>)
    ensures
        upper(p).len() == p.len(),
        upper(upper(p)) == upper(p),
        all_ascii_alpha(upper(p)) == all_ascii_alpha(p),
        all_ascii_alnum(upper(p)) == all_ascii_alnum(p),
{
    assert forall|i: int| 0 <= i < p.len() implies #[trigger] upper(upper(p))[i] == upper(p)[i] by {
        lemma_upper_char(p[i]);
    }
    assert(upper(upper(p)) =~= upper(p));
    assert forall|i: int| 0 <= i < p.len() implies is_ascii_alpha(#[trigger] upper(p)[i])
        == is_ascii_alpha(p[i]) && is_ascii_alnum(upper(p)[i]) == is_ascii_alnum(p[i]) by {
        lemma_upper_char(p[i]);
    }
    if all_ascii_alpha(upper(p)) {
        assert forall|i: int| 0 <= i < p.len() implies #[trigger] is_ascii_alpha(p[i]) by {
            assert(is_ascii_alpha(upper(p)[i]));
        }
    }
    if all_ascii_alnum(upper(p)) {
        assert forall|i: int| 0 <= i < p.len() implies #[trigger] is_ascii_alnum(p[i]) by {
            assert(is_ascii_alnum(upper(p)[i]));
        }
    }
}

proof fn lemma_alnum_dash_free(p: Seq<char>)
    requires
        all_ascii_alnum(p),
    ensures
        dash_free(p),
        p.len() > 0 ==> !is_space(p[0]) && !is_space(p.last()),
{
    assert forall|i: int| 0 <= i < p.len() implies p[i] != '-' by {
        assert(is_ascii_alnum(p[i]));
    }
    if p.len() > 0 {
        assert(is_ascii_alnum(p[0]));
        assert(is_ascii_alnum(p[p.len() - 1]));
    }
}

proof fn lemma_canonical_subtag(p: Seq<char>)
    requires
        valid_subtag(p),
    ensures
        valid_subtag(canonical_subtag(p)),
        canonical_subtag(canonical_subtag(p)) == canonical_subtag(p),
{
    let c = canonical_subtag(p);
    lemma_lower_seq(p);
    lemma_upper_seq(p);
    if p.len() == 4 && all_ascii_alpha(p) {
        let head = p.take(1);
        let tail = p.skip(1);
        lemma_upper_seq(head);
        lemma_lower_seq(tail);
        assert(all_ascii_alpha(head));
        assert(all_ascii_alpha(tail));
        assert(c.take(1) =~= upper(head));
        assert(c.skip(1) =~= lower(tail));
        assert(all_ascii_alpha(c)) by {
            assert forall|i: int| 0 <= i < c.len() implies #[trigger] is_ascii_alpha(c[i]) by {
                if i < 1 {
                    assert(c[i] == upper(head)[i]);
                } else {
                    assert(c[i] == lower(tail)[i - 1]);
                }
            }
        }
        assert(all_ascii_alnum(c)) by {
            assert forall|i: int| 0 <= i < c.len() implies #[trigger] is_ascii_alnum(c[i]) by {
                assert(is_ascii_alpha(c[i]));
            }
        }
    } else if p.len() == 2 && all_ascii_alpha(p) {
    } else {
    }
}

proof fn lemma_canonical_parts(parts: Seq<Seq<char>>)
    requires
        valid_tag_parts(parts),
    ensures
        valid_tag_parts(canonical_parts(parts)),
        canonical_parts(canonical_parts(parts)) == canonical_parts(parts),
        forall|i: int|
            0 <= i < parts.len() ==> #[trigger] all_ascii_alnum(canonical_parts(parts)[i])
                && canonical_parts(parts)[i].len() >= 1,
{
    let canon = canonical_parts(parts);
    lemma_lower_seq(parts[0]);
    assert(all_ascii_alnum(canon[0])) by {
        assert forall|i: int| 0 <= i < canon[0].len() implies #[trigger] is_ascii_alnum(
            canon[0][i],
        ) by {
            assert(is_ascii_alpha(canon[0][i]));
        }
    }
    assert forall|i: int| 1 <= i < parts.len() implies #[trigger] valid_subtag(canon[i])
        && canonical_subtag(canon[i]) == canon[i] by {
        assert(valid_subtag(parts[i]));
        lemma_canonical_subtag(parts[i]);
    }
    assert forall|i: int| 0 <= i < parts.len() implies #[trigger] all_ascii_alnum(canon[i])
        && canon[i].len() >= 1 by {
        if i >= 1 {
            assert(valid_subtag(canon[i]));
        }
    }
    assert forall|i: int| 0 <= i < parts.len() implies #[trigger] canonical_parts(canon)[i]
        == canon[i] by {
        if i >= 1 {
            assert(valid_subtag(canon[i]));
        }
    }
    assert(canonical_parts(canon) =~= canon);
}

/// Normalization is idempotent: a canonical tag is accepted and left unchanged.
pub proof fn lemma_language_tag_idempotent(value: Seq<char>)
    requires
        spec_language_tag(value) is Some,
    ensures
        spec_language_tag(spec_language_tag(value).unwrap()) == spec_language_tag(value),
{
    let parts = split_dash(trim(value));
    let canon = canonical_parts(parts);
    let out = join_dash(canon);
    lemma_canonical_parts(parts);
    assert forall|i: int| 0 <= i < canon.len() implies #[trigger] dash_free(canon[i]) by {
        assert(all_ascii_alnum(canon[i]));
        lemma_alnum_dash_free(canon[i]);
    }
    lemma_split_join(canon);
    assert(all_ascii_alnum(canon[canon.len() - 1]));
    assert(all_ascii_alnum(canon[0]));
    lemma_join_ends(canon);
    lemma_alnum_dash_free(canon[0]);
    lemma_alnum_dash_free(canon[canon.len() - 1]);
    assert(trim_start(out) == out);
    assert(trim_end(out) == out);
    assert(trim(out) == out);
}

proof fn lemma_lower_of_upper_char(c: char)
    ensures
        lower_char(upper_char(c)) == lower_char(c),
{
}

proof fn lemma_lower_concat(x: Seq<char>, y: Seq<char>)
    ensures
        lower(x + y) == lower(x) + lower(y),
{
    assert(lower(x + y) =~= lower(x) + lower(y));
}

/// A later subtag keeps its length and its letters without regard to ASCII case.
proof fn lemma_canonical_subtag_same_letters(p: Seq<char>)
    ensures
        canonical_subtag(p).len() == p.len(),
        lower(canonical_subtag(p)) == lower(p),
{
    lemma_lower_seq(p);
    lemma_upper_seq(p);
    if p.len() == 4 && all_ascii_alpha(p) {
        let head = p.take(1);
        let tail = p.skip(1);
        lemma_upper_seq(head);
        lemma_lower_seq(tail);
        lemma_lower_concat(upper(head), lower(tail));
        assert(lower(upper(head)) =~= lower(head)) by {
            assert forall|i: int| 0 <= i < head.len() implies #[trigger] lower(upper(head))[i]
                == lower(head)[i] by {
                lemma_lower_of_upper_char(head[i]);
            }
        }
        lemma_lower_concat(head, tail);
        assert(head + tail =~= p);
    } else if p.len() == 2 && all_ascii_alpha(p) {
        assert(lower(upper(p)) =~= lower(p)) by {
            assert forall|i: int| 0 <= i < p.len() implies #[trigger] lower(upper(p))[i]
                == lower(p)[i] by {
                lemma_lower_of_upper_char(p[i]);
            }
        }
    }
}

/// Joining parts of the same lengths and the same letters without regard to case gives
/// texts of the same length and the same letters without regard to case.
proof fn lemma_join_same_letters(a: Seq<Seq<char>>, b: Seq<Seq<char>>)
    requires
        a.len() == b.len(),
        forall|i: int|
            0 <= i < a.len() ==> (#[trigger] a[i]).len() == b[i].len() && lower(a[i]) == lower(
                b[i],
            ),
    ensures
        join_dash(a).len() == join_dash(b).len(),
        lower(join_dash(a)) == lower(join_dash(b)),
    decreases a.len(),
{
    if a.len() > 1 {
        let (fa, fb) = (a.drop_last(), b.drop_last());
        assert forall|i: int| 0 <= i < fa.len() implies (#[trigger] fa[i]).len() == fb[i].len()
            && lower(fa[i]) == lower(fb[i]) by {
            assert(fa[i] == a[i] && fb[i] == b[i]);
        }
        lemma_join_same_letters(fa, fb);
        assert(a.last() == a[a.len() - 1] && b.last() == b[b.len() - 1]);
        lemma_lower_concat(join_dash(fa) + seq!['-'], a.last());
        lemma_lower_concat(join_dash(fa), seq!['-']);
        lemma_lower_concat(join_dash(fb) + seq!['-'], b.last());
        lemma_lower_concat(join_dash(fb), seq!['-']);
    } else if a.len() == 1 {
        assert(a[0].len() == b[0].len());
    }
}

/// Splitting at the dashes and joining again gives the text back.
proof fn lemma_join_split(s: Seq<char>)
    ensures
        join_dash(split_dash(s)) == s,
    decreases s.len(),
{
    if s.len() > 0 {
        let front = s.drop_last();
        let parts = split_dash(front);
        lemma_join_split(front);
        lemma_split_dash_len(front);
        if s.last() == '-' {
            let pushed = parts.push(Seq::<char>::empty());
            assert(pushed.drop_last() =~= parts);
            assert(join_dash(pushed) == join_dash(parts) + seq!['-'] + Seq::<char>::empty());
            assert(front.push('-') =~= s);
            assert(join_dash(parts) + seq!['-'] + Seq::<char>::empty() =~= front.push('-'));
        } else {
            let n = parts.len();
            let updated = parts.update(n - 1, parts.last().push(s.last()));
            if n > 1 {
                assert(updated.drop_last() =~= parts.drop_last());
                assert(join_dash(parts) == join_dash(parts.drop_last()) + seq!['-'] + parts.last());
                assert(join_dash(updated) == join_dash(parts.drop_last()) + seq!['-']
                    + parts.last().push(s.last()));
                assert(join_dash(updated) =~= join_dash(parts).push(s.last()));
            } else {
                assert(join_dash(updated) == updated[0]);
                assert(join_dash(parts) == parts[0]);
            }
            assert(front.push(s.last()) =~= s);
        }
    }
}

/// The canonical tag has the trimmed input's dash-separated parts, each in its canonical
/// casing (the primary subtag in lower case): the same number of parts, the same length,
/// and the same letters without regard to ASCII case.
pub proof fn lemma_language_tag_shape(value: Seq<char>)
    requires
        spec_language_tag(value) is Some,
    ensures
        ({
            let t = trim(value);
            let r = spec_language_tag(value).unwrap();
            &&& split_dash(r) == canonical_parts(split_dash(t))
            &&& r.len() == t.len()
            &&& lower(r) == lower(t)
        }),
{
    let t = trim(value);
    let parts = split_dash(t);
    let canon = canonical_parts(parts);
    lemma_canonical_parts(parts);
    assert forall|i: int| 0 <= i < canon.len() implies #[trigger] dash_free(canon[i]) by {
        assert(all_ascii_alnum(canon[i]));
        lemma_alnum_dash_free(canon[i]);
    }
    lemma_split_join(canon);
    assert forall|i: int| 0 <= i < canon.len() implies (#[trigger] canon[i]).len()
        == parts[i].len() && lower(canon[i]) == lower(parts[i]) by {
        if i == 0 {
            lemma_lower_seq(parts[0]);
        } else {
            lemma_canonical_subtag_same_letters(parts[i]);
        }
    }
    lemma_join_same_letters(canon, parts);
    lemma_join_split(t);
}

/// A text made of accepted parts joined by dashes is trimmed already and splits back
/// into those parts.
proof fn lemma_joined_parts_read_back(parts: Seq<Seq<char>>)
    requires
        1 <= parts.len(),
        forall|i: int| 0 <= i < parts.len() ==> #[trigger] all_ascii_alnum(parts[i]),
        forall|i: int| 0 <= i < parts.len() ==> (#[trigger] parts[i]).len() >= 1,
    ensures
        trim(join_dash(parts)) == join_dash(parts),
        split_dash(join_dash(parts)) == parts,
{
    assert forall|i: int| 0 <= i < parts.len() implies #[trigger] dash_free(parts[i]) by {
        lemma_alnum_dash_free(parts[i]);
    }
    lemma_split_join(parts);
    assert(all_ascii_alnum(parts[0]));
    assert(all_ascii_alnum(parts[parts.len() - 1]));
    assert(parts[parts.len() - 1].len() >= 1);
    lemma_join_ends(parts);
    lemma_alnum_dash_free(parts[0]);
    lemma_alnum_dash_free(parts[parts.len() - 1]);
    let out = join_dash(parts);
    assert(trim_start(out) == out);
    assert(trim_end(out) == out);
}

/// Any primary subtag of two or three ASCII letters followed by at most three subtags of
/// one to eight ASCII letters or digits, joined by dashes, is accepted; the result has
/// the same parts, in their canonical casing.
pub proof fn lemma_well_formed_tags_are_accepted(parts: Seq<Seq<char>>)
    requires
        1 <= parts.len() <= 4,
        2 <= parts[0].len() <= 3,
        all_ascii_alpha(parts[0]),
        forall|i: int|
            1 <= i < parts.len() ==> 1 <= (#[trigger] parts[i]).len() <= 8 && all_ascii_alnum(
                parts[i],
            ),
    ensures
        spec_language_tag(join_dash(parts)) == Some(join_dash(canonical_parts(parts))),
{
    assert forall|i: int| 0 <= i < parts.len() implies #[trigger] all_ascii_alnum(parts[i])
        && parts[i].len() >= 1 by {
        if i == 0 {
            assert forall|k: int| 0 <= k < parts[0].len() implies #[trigger] is_ascii_alnum(
                parts[0][k],
            ) by {
                assert(is_ascii_alpha(parts[0][k]));
            }
        }
    }
    lemma_joined_parts_read_back(parts);
    assert(valid_tag_parts(parts));
}

/// A tag made of a primary subtag alone (two or three ASCII letters, such as `en` or
/// `PT`) is accepted in lower case.
pub proof fn lemma_primary_subtag_alone_is_accepted(primary: Seq<char>)
    requires
        2 <= primary.len() <= 3,
        all_ascii_alpha(primary),
    ensures
        spec_language_tag(primary) == Some(lower(primary)),
{
    let parts = seq![primary];
    assert(join_dash(parts) == primary);
    lemma_well_formed_tags_are_accepted(parts);
    assert(canonical_parts(parts) =~= seq![lower(primary)]);
    assert(join_dash(seq![lower(primary)]) == lower(primary));
}

/// `pt-BR` is already canonical.
pub proof fn lemma_pt_br_is_canonical()
    ensures
        spec_language_tag("pt-BR"@) == Some("pt-BR"@),
{
    reveal_strlit("pt-BR");
    let p = seq!['p', 't'];
    let q = seq!['B', 'R'];
    let parts = seq![p, q];
    assert(join_dash(parts) =~= "pt-BR"@) by {
        assert(parts.drop_last() =~= seq![p]);
        assert(join_dash(parts.drop_last()) == p);
    }
    assert(all_ascii_alpha(p));
    assert(all_ascii_alnum(q)) by {
        assert(is_ascii_alnum(q[0]) && is_ascii_alnum(q[1]));
    }
    lemma_well_formed_tags_are_accepted(parts);
    let canon = canonical_parts(parts);
    assert(all_ascii_alpha(q));
    assert(lower(p) =~= p);
    assert(upper(q) =~= q);
    assert(canon =~= parts);
}

} // verus!
