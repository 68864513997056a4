use vstd::prelude::*;
use crate::codec::{gunzip_text, gunzip_to_string, iso_datetime, iso_datetime_text};
use crate::error::CollectError;
use crate::model::Build;
use crate::text::{ends_with, has_suffix};

verus! {

/// The first position at or after `k` that holds `c`, or the length of `s`.
pub open spec fn find_char(s: Seq<char>, c: char, k: int) -> int
    decreases s.len() - k,
{
    if k < 0 || k >= s.len() {
        s.len() as int
    } else if s[k] == c {
        k
    } else {
        find_char(s, c, k + 1)
    }
}

/// The fields of `s` from position `start` on, separated by `c`.
pub open spec fn split_from(s: Seq<char>, c: char, start: int) -> Seq<Seq<char>>
    decreases s.len() - start,
{
    if start < 0 || start > s.len() {
        Seq::empty()
    } else {
        let i = find_char(s, c, start);
        if i < start || i >= s.len() {
            seq![s.subrange(start, s.len() as int)]
        } else {
            seq![s.subrange(start, i)] + split_from(s, c, i + 1)
        }
    }
}

/// The part of a file name before its first `.`.
pub open spec fn stem(name: Seq<char>) -> Seq<char> {
    name.subrange(0, find_char(name, '.', 0))
}

/// The ISO-8601 text that a snapshot name `YYYY-MM-DD-HHMM.json.gz` stands for:
/// the first three `-` fields of its stem as the date, then the fourth split
/// after two characters into hour and minute.
pub open spec fn timestamp_text(name: Seq<char>) -> Option<Seq<char>> {
    let parts = split_from(stem(name), '-', 0);
    if parts.len() < 4 || parts[3].len() < 2 {
        None
    } else {
        Some(
            parts[0] + "-"@ + parts[1] + "-"@ + parts[2] + "T"@ + parts[3].subrange(0, 2) + ":"@
                + parts[3].subrange(2, parts[3].len() as int),
        )
    }
}

/// The date recorded for a snapshot file name, as the iso8601 crate prints it.
pub open spec fn snapshot_date_of(name: Seq<char>) -> Option<Seq<char>> {
    match timestamp_text(name) {
        Some(t) => iso_datetime_text(t),
        None => None,
    }
}

/// Whether a file of the snapshot directory is a snapshot; others are ignored.
pub fn is_snapshot_name(name: &str) -> (r: bool)
    ensures
        r == ends_with(name@, ".json.gz"@),
{
    has_suffix(name, ".json.gz")
}

fn find_char_from(s: &str, c: char, k: usize) -> (r: usize)
    requires
        k <= s@.len(),
    ensures
        r == find_char(s@, c, k as int),
        k <= r <= s@.len(),
{
    let n = s.unicode_len();
    let mut i = k;
    while i < n && s.get_char(i) != c
        invariant
            n == s@.len(),
            k <= i <= n,
            find_char(s@, c, i as int) == find_char(s@, c, k as int),
        decreases n - i,
    {
        i += 1;
    }
    i
}

/// The fields of `s` separated by `c`.
pub fn split_fields(s: &str, c: char) -> (r: Vec<String>)
    ensures
        r@.map_values(|f: String| f@) == split_from(s@, c, 0),
{
    let n = s.unicode_len();
    let mut fields: Vec<String> = Vec::new();
    let mut start: usize = 0;
    loop
        invariant
            n == s@.len(),
            start <= n,
            fields@.map_values(|f: String| f@) + split_from(s@, c, start as int) == split_from(
                s@,
                c,
                0,
            ),
        decreases n + 1 - start,
    {
        let i = find_char_from(s, c, start);
        let field = s.substring_char(start, i).to_string();
        let ghost old_fields = fields@;
        fields.push(field);
        assert(fields@.map_values(|f: String| f@) =~= old_fields.map_values(|f: String| f@).push(
            field@,
        ));
        if i >= n {
            assert(fields@.map_values(|f: String| f@) =~= fields@.map_values(|f: String| f@)
                + Seq::<Seq<char>>::empty());
            assert(old_fields.map_values(|f: String| f@) + split_from(s@, c, start as int)
                =~= fields@.map_values(|f: String| f@));
            return fields;
        }
        assert(old_fields.map_values(|f: String| f@) + split_from(s@, c, start as int)
            =~= fields@.map_values(|f: String| f@) + split_from(s@, c, i + 1));
        start = i + 1;
    }
}

/// The ISO-8601 text that a snapshot file name stands for, before it is parsed.
pub fn timestamp_of(name: &str) -> (r: Option<String>)
    ensures
        r matches Some(t) ==> timestamp_text(name@) == Some(t@),
        r is None ==> timestamp_text(name@) is None,
{
    let dot = find_char_from(name, '.', 0);
    let stem = name.substring_char(0, dot);
    let parts = split_fields(stem, '-');
    proof {
        assert(parts@.map_values(|f: String| f@).len() == parts@.len());
    }
    if parts.len() < 4 {
        return None;
    }
    let digits = parts[3].as_str();
    let m = digits.unicode_len();
    proof {
        assert(parts@.map_values(|f: String| f@)[3] == parts@[3]@);
    }
    if m < 2 {
        return None;
    }
    let text = parts[0].clone().concat("-").concat(parts[1].as_str()).concat("-").concat(
        parts[2].as_str(),
    ).concat("T").concat(digits.substring_char(0, 2)).concat(":").concat(
        digits.substring_char(2, m),
    );
    proof {
        assert(parts@.map_values(|f: String| f@)[0] == parts@[0]@);
        assert(parts@.map_values(|f: String| f@)[1] == parts@[1]@);
        assert(parts@.map_values(|f: String| f@)[2] == parts@[2]@);
    }
    Some(text)
}

/// The date of a snapshot from its file name; a malformed name is a parse error.
pub fn snapshot_date(name: &str) -> (r: Result<String, CollectError>)
    ensures
        r matches Ok(d) ==> snapshot_date_of(name@) == Some(d@),
        r is Err <==> snapshot_date_of(name@) is None,
        r matches Err(e) ==> (e matches CollectError::Parse { what } && what@ == name@),
{
    let text = match timestamp_of(name) {
        Some(t) => t,
        None => {
            return Err(CollectError::Parse { what: name.to_string() });
        },
    };
    match iso_datetime(text.as_str()) {
        Some(d) => Ok(d),
        None => Err(CollectError::Parse { what: name.to_string() }),
    }
}

/// The date and the JSON text of a snapshot file, from its name and its
/// compressed contents; fails with a parse error naming the file where the
/// name is malformed or the contents are not gzip-compressed text.
pub fn snapshot_document(name: &str, contents: &[u8]) -> (r: Result<(String, String), CollectError>)
    ensures
        r matches Ok((d, json)) ==> snapshot_date_of(name@) == Some(d@) && gunzip_text(contents@)
            == Some(json@),
        r is Ok <==> snapshot_date_of(name@) is Some && gunzip_text(contents@) is Some,
        r matches Err(e) ==> (e matches CollectError::Parse { what } && what@ == name@),
{
    let date = snapshot_date(name)?;
    match gunzip_to_string(contents) {
        Ok(json) => Ok((date, json)),
        Err(_) => Err(CollectError::Parse { what: name.to_string() }),
    }
}

/// Number of most recent builds that are published.
pub const PUBLISHED_BUILDS: usize = 60;

/// Lexicographic order of the characters of `a` and `b` from position `k` on;
/// a prefix comes first.
pub open spec fn text_le_from(a: Seq<char>, b: Seq<char>, k: int) -> bool
    decreases a.len() - k,
{
    if k < 0 || k >= a.len() {
        true
    } else if k >= b.len() {
        false
    } else if a[k] < b[k] {
        true
    } else if a[k] > b[k] {
        false
    } else {
        text_le_from(a, b, k + 1)
    }
}

/// String order, which for this date format is chronological order.
pub open spec fn text_le(a: Seq<char>, b: Seq<char>) -> bool {
    text_le_from(a, b, 0)
}

pub open spec fn date_le(x: Build, y: Build) -> bool {
    text_le(x.date@, y.date@)
}

pub open spec fn sorted_by_date(s: Seq<Build>) -> bool {
    forall|i: int, j: int| 0 <= i < j < s.len() ==> date_le(#[trigger] s[i], #[trigger] s[j])
}

proof fn lemma_text_le_total(a: Seq<char>, b: Seq<char>, k: int)
    requires
        0 <= k,
    ensures
        text_le_from(a, b, k) || text_le_from(b, a, k),
    decreases a.len() - k,
{
    if k < a.len() && k < b.len() && a[k] == b[k] {
        lemma_text_le_total(a, b, k + 1);
    }
}

proof fn lemma_text_le_trans(a: Seq<char>, b: Seq<char>, c: Seq<char>, k: int)
    requires
        0 <= k,
        text_le_from(a, b, k),
        text_le_from(b, c, k),
    ensures
        text_le_from(a, c, k),
    decreases a.len() - k,
{
    if k < a.len() && k < b.len() && k < c.len() && a[k] == b[k] && b[k] == c[k] {
        lemma_text_le_trans(a, b, c, k + 1);
    }
}

pub open spec fn has_date(d: Seq<char>) -> spec_fn(Build) -> bool {
    |b: Build| b.date@ == d
}

/// The builds of `s` dated `d`, in their order in `s`.
pub open spec fn with_date(s: Seq<Build>, d: Seq<char>) -> Seq<Build> {
    s.filter(has_date(d))
}

proof fn lemma_text_le_refl(a: Seq<char>, k: int)
    requires
        0 <= k,
    ensures
        text_le_from(a, a, k),
    decreases a.len() - k,
{
    if k < a.len() {
        lemma_text_le_refl(a, k + 1);
    }
}

proof fn lemma_none_dated(s: Seq<Build>, d: Seq<char>)
    requires
        forall|k: int| 0 <= k < s.len() ==> s[k].date@ != d,
    ensures
        with_date(s, d) == Seq::<Build>::empty(),
    decreases s.len(),
{
    reveal(Seq::filter);
    if s.len() > 0 {
        lemma_none_dated(s.drop_last(), d);
    }
}

proof fn lemma_insert_dated(out: Seq<Build>, p: int, x: Build, d: Seq<char>)
    requires
        0 <= p <= out.len(),
        forall|k: int| p <= k < out.len() ==> out[k].date@ != x.date@,
    ensures
        with_date(out.insert(p, x), d) == if x.date@ == d {
            with_date(out, d).push(x)
        } else {
            with_date(out, d)
        },
{
    let a = out.subrange(0, p);
    let b = out.subrange(p, out.len() as int);
    let pred = has_date(d);
    assert(out =~= a + b);
    assert(out.insert(p, x) =~= (a + seq![x]) + b);
    Seq::filter_distributes_over_add(a + seq![x], b, pred);
    Seq::filter_distributes_over_add(a, seq![x], pred);
    Seq::filter_distributes_over_add(a, b, pred);
    assert(seq![x] =~= Seq::<Build>::empty().push(x));
    Seq::<Build>::empty().lemma_filter_push(x, pred);
    assert(Seq::<Build>::empty().filter(pred) =~= Seq::<Build>::empty());
    if x.date@ == d {
        lemma_none_dated(b, d);
        assert(a.filter(pred) + seq![x] =~= (a.filter(pred) + Seq::<Build>::empty()).push(x));
        assert(a.filter(pred) + Seq::<Build>::empty() =~= a.filter(pred));
    } else {
        assert(a.filter(pred) + Seq::<Build>::empty() =~= a.filter(pred));
    }
}

/// Whether `a` comes no later than `b` in string order.
pub fn text_at_most(a: &str, b: &str) -> (r: bool)
    ensures
        r == text_le(a@, b@),
{
    let n = a.unicode_len();
    let m = b.unicode_len();
    let mut k: usize = 0;
    while k < n && k < m
        invariant
            n == a@.len(),
            m == b@.len(),
            text_le_from(a@, b@, k as int) == text_le(a@, b@),
            forall|j: int| 0 <= j < k ==> a@[j] == b@[j],
        decreases n - k,
    {
        let x = a.get_char(k);
        let y = b.get_char(k);
        if x < y {
            return true;
        }
        if x > y {
            return false;
        }
        k += 1;
    }
    k >= n
}

/// The builds in ascending order of date; builds with equal dates keep their order.
pub fn sort_builds(builds: Vec<Build>) -> (r: Vec<Build>)
    ensures
        r@.to_multiset() == builds@.to_multiset(),
        sorted_by_date(r@),
        forall|d: Seq<char>| #[trigger] with_date(r@, d) == with_date(builds@, d),
{
    broadcast use vstd::seq_lib::group_to_multiset_ensures, vstd::multiset::group_multiset_axioms;

    let mut rest = builds;
    let mut out: Vec<Build> = Vec::new();
    proof {
        assert(out@.to_multiset() =~= vstd::multiset::Multiset::<Build>::empty());
    }
    let ghost mut consumed: int = 0;
    while rest.len() > 0
        invariant
            out@.to_multiset().add(rest@.to_multiset()) == builds@.to_multiset(),
            sorted_by_date(out@),
            0 <= consumed <= builds@.len(),
            rest@ == builds@.subrange(consumed, builds@.len() as int),
            forall|d: Seq<char>|
                #[trigger] with_date(out@, d) == with_date(builds@.subrange(0, consumed), d),
        decreases rest@.len(),
    {
        let ghost before = rest@;
        let x = rest.remove(0);
        let mut p: usize = 0;
        while p < out.len() && text_at_most(out[p].date.as_str(), x.date.as_str())
            invariant
                p <= out@.len(),
                forall|k: int| 0 <= k < p ==> date_le(#[trigger] out@[k], x),
            decreases out@.len() - p,
        {
            p += 1;
        }
        let ghost old_out = out@;
        proof {
            if p < old_out.len() {
                lemma_text_le_total(old_out[p as int].date@, x.date@, 0);
                assert forall|k: int| p <= k < old_out.len() implies date_le(x, #[trigger] old_out[k]) by {
                    if k > p {
                        lemma_text_le_trans(x.date@, old_out[p as int].date@, old_out[k].date@, 0);
                    }
                }
            }
        }
        proof {
            assert forall|k: int| p <= k < old_out.len() implies old_out[k].date@ != x.date@ by {
                if old_out[k].date@ == x.date@ {
                    lemma_text_le_refl(x.date@, 0);
                    if k > p {
                        assert(date_le(old_out[p as int], old_out[k]));
                    }
                }
            }
        }
        out.insert(p, x);
        proof {
            assert(builds@.subrange(0, consumed + 1) =~= builds@.subrange(0, consumed).push(x));
            assert forall|d: Seq<char>| #[trigger]
                with_date(out@, d) == with_date(builds@.subrange(0, consumed + 1), d) by {
                lemma_insert_dated(old_out, p as int, x, d);
                builds@.subrange(0, consumed).lemma_filter_push(x, has_date(d));
            }
            consumed = consumed + 1;
            assert forall|i: int, j: int| 0 <= i < j < out@.len() implies date_le(
                #[trigger] out@[i],
                #[trigger] out@[j],
            ) by {
                if j < p {
                    assert(out@[i] == old_out[i] && out@[j] == old_out[j]);
                } else if j == p {
                    assert(out@[i] == old_out[i]);
                } else if i < p {
                    assert(out@[i] == old_out[i] && out@[j] == old_out[j - 1]);
                    assert(date_le(old_out[i], x));
                    assert(date_le(x, old_out[j - 1]));
                    lemma_text_le_trans(old_out[i].date@, x.date@, old_out[j - 1].date@, 0);
                } else if i == p {
                    assert(out@[j] == old_out[j - 1]);
                } else {
                    assert(out@[i] == old_out[i - 1] && out@[j] == old_out[j - 1]);
                }
            }
            assert(before[0] == x);
            assert(before.contains(x));
            assert(rest@ == before.remove(0));
            vstd::seq_lib::to_multiset_remove(before, 0);
            vstd::seq_lib::to_multiset_insert(old_out, p as int, x);
            assert(rest@.to_multiset() == before.to_multiset().remove(x));
            assert(out@ == old_out.insert(p as int, x));
            assert(out@.to_multiset() == old_out.to_multiset().insert(x));
            vstd::seq_lib::to_multiset_contains(before, x);
            assert(before.to_multiset().count(x) > 0);
            assert(old_out.to_multiset().add(before.to_multiset()) == builds@.to_multiset());
            assert(out@.to_multiset().add(rest@.to_multiset()) =~= builds@.to_multiset());
        }
    }
    proof {
        assert(builds@.subrange(0, consumed) =~= builds@);
        assert(rest@.to_multiset() =~= vstd::multiset::Multiset::<Build>::empty());
        assert(out@.to_multiset().add(rest@.to_multiset()) =~= out@.to_multiset());
    }
    out
}

/// The last `window` builds, or all of them where there are fewer.
pub fn latest(builds: Vec<Build>, window: usize) -> (r: Vec<Build>)
    ensures
        r@ == builds@.subrange(
            builds@.len() - if window < builds@.len() {
                window as int
            } else {
                builds@.len() as int
            },
            builds@.len() as int,
        ),
{
    let mut builds = builds;
    let len = builds.len();
    let keep = if window < len {
        window
    } else {
        len
    };
    builds.split_off(len - keep)
}

/// The published series: the builds sorted by date (equal dates in their
/// given order), then the last `window` of them.
pub fn publish(builds: Vec<Build>, window: usize) -> (r: Vec<Build>)
    ensures
        r@.len() == if window < builds@.len() {
            window as nat
        } else {
            builds@.len()
        },
        sorted_by_date(r@),
        exists|s: Seq<Build>|
            #![trigger s.to_multiset()]
            s.to_multiset() == builds@.to_multiset() && sorted_by_date(s) && (forall|d: Seq<char>|
                #[trigger] with_date(s, d) == with_date(builds@, d)) && r@ == s.subrange(
                s.len() - r@.len(),
                s.len() as int,
            ),
{
    let ghost n = builds@.len();
    let sorted = sort_builds(builds);
    let ghost s = sorted@;
    proof {
        vstd::seq_lib::to_multiset_len(s);
        vstd::seq_lib::to_multiset_len(builds@);
    }
    let r = latest(sorted, window);
    assert(sorted_by_date(r@)) by {
        assert forall|i: int, j: int| 0 <= i < j < r@.len() implies date_le(
            #[trigger] r@[i],
            #[trigger] r@[j],
        ) by {
            assert(r@[i] == s[s.len() - r@.len() + i]);
            assert(r@[j] == s[s.len() - r@.len() + j]);
        }
    }
    r
}

} // verus!
