//! Table paging for the iter orchestrator.
//!
//! Row ids come in ascending primary-key order. The next page starts strictly after the bare id
//! of the previous page's last row. Engines without a reliable `WHERE id >` pushdown load the
//! ordered id list and apply that cursor in process ([`keyset_page`]).

use vstd::prelude::*;

use crate::model::IdCell;
use crate::text::{
    after_last, after_last_spec, concat2, concat3, contains, contains_spec, decimal,
    lemma_seq_lt_irreflexive, lemma_seq_lt_total, lemma_seq_lt_transitive, seq_lt, str_eq, str_lt,
    trim, trim_char, trim_char_spec, trim_spec, usize_to_decimal, views,
};

verus! {

/// The cursor filter: `x` comes after `after` (everything passes without a cursor).
pub open spec fn above(after: Option<Seq<char>>, x: Seq<char>) -> bool {
    match after {
        Some(a) => seq_lt(a, x),
        None => true,
    }
}

/// Every element is strictly below the ones after it (sorted, no duplicates).
pub open spec fn strictly_sorted(s: Seq<Seq<char>>) -> bool {
    forall|i: int, j: int| 0 <= i < j < s.len() ==> seq_lt(#[trigger] s[i], #[trigger] s[j])
}

/// `s` holds exactly the ids of `raw` that come after the cursor.
pub open spec fn holds_candidates(
    s: Seq<Seq<char>>,
    raw: Seq<Seq<char>>,
    after: Option<Seq<char>>,
) -> bool {
    forall|x: Seq<char>| #[trigger] s.contains(x) <==> (raw.contains(x) && above(after, x))
}

/// The distinct ids of `raw` after the cursor, in ascending order.
pub open spec fn sorted_candidates(raw: Seq<Seq<char>>, after: Option<Seq<char>>) -> Seq<
    Seq<char>,
> {
    choose|s: Seq<Seq<char>>| strictly_sorted(s) && holds_candidates(s, raw, after)
}

/// One page: the first `limit` distinct ids of `raw` after the cursor, ascending.
pub open spec fn keyset_page_spec(raw: Seq<Seq<char>>, after: Option<Seq<char>>, limit: nat) -> Seq<
    Seq<char>,
> {
    let all = sorted_candidates(raw, after);
    if limit < all.len() {
        all.take(limit as int)
    } else {
        all
    }
}

/// The cursor the page query uses: an empty cursor means "from the start".
pub open spec fn effective_after(after: Option<Seq<char>>) -> Option<Seq<char>> {
    match after {
        Some(a) => if a.len() > 0 {
            Some(a)
        } else {
            None
        },
        None => None,
    }
}

proof fn lemma_sorted_head_below(s: Seq<Seq<char>>, k: int)
    requires
        strictly_sorted(s),
        0 < k < s.len(),
    ensures
        seq_lt(s[0], s[k]),
{
}

/// Two strictly sorted sequences with the same elements are equal.
pub proof fn lemma_sorted_unique(s1: Seq<Seq<char>>, s2: Seq<Seq<char>>)
    requires
        strictly_sorted(s1),
        strictly_sorted(s2),
        forall|x: Seq<char>| s1.contains(x) <==> s2.contains(x),
    ensures
        s1 == s2,
    decreases s1.len(),
{
    if s1.len() == 0 {
        if s2.len() > 0 {
            assert(s2.contains(s2[0]));
        }
        assert(s1 =~= s2);
    } else {
        assert(s1.contains(s1[0]));
        assert(s2.len() > 0);
        assert(s2.contains(s2[0]));
        assert(s1.contains(s2[0]));
        let k = choose|k: int| 0 <= k < s2.len() && s2[k] == s1[0];
        let j = choose|j: int| 0 <= j < s1.len() && s1[j] == s2[0];
        if k > 0 {
            lemma_sorted_head_below(s2, k);
            if j > 0 {
                lemma_sorted_head_below(s1, j);
                lemma_seq_lt_total(s1[0], s2[0]);
            } else {
                lemma_seq_lt_irreflexive(s2[0]);
            }
        }
        assert(s1[0] == s2[0]);
        let t1 = s1.drop_first();
        let t2 = s2.drop_first();
        assert forall|x: Seq<char>| t1.contains(x) <==> t2.contains(x) by {
            if t1.contains(x) {
                let a = choose|a: int| 0 <= a < t1.len() && t1[a] == x;
                assert(s1[a + 1] == x);
                lemma_sorted_head_below(s1, a + 1);
                assert(s2.contains(x));
                let b = choose|b: int| 0 <= b < s2.len() && s2[b] == x;
                if b == 0 {
                    lemma_seq_lt_irreflexive(x);
                }
                assert(t2[b - 1] == x);
            }
            if t2.contains(x) {
                let a = choose|a: int| 0 <= a < t2.len() && t2[a] == x;
                assert(s2[a + 1] == x);
                lemma_sorted_head_below(s2, a + 1);
                assert(s1.contains(x));
                let b = choose|b: int| 0 <= b < s1.len() && s1[b] == x;
                if b == 0 {
                    lemma_seq_lt_irreflexive(x);
                }
                assert(t1[b - 1] == x);
            }
        }
        assert forall|i: int, j: int| 0 <= i < j < t1.len() implies seq_lt(t1[i], t1[j]) by {
            assert(t1[i] == s1[i + 1] && t1[j] == s1[j + 1]);
        }
        assert forall|i: int, j: int| 0 <= i < j < t2.len() implies seq_lt(t2[i], t2[j]) by {
            assert(t2[i] == s2[i + 1] && t2[j] == s2[j + 1]);
        }
        lemma_sorted_unique(t1, t2);
        assert forall|i: int| 0 <= i < s1.len() implies s1[i] == s2[i] by {
            if i > 0 {
                assert(s1[i] == t1[i - 1] && s2[i] == t2[i - 1]);
            }
        }
        assert(s1.len() == t1.len() + 1 && s2.len() == t2.len() + 1);
        assert(s1 =~= s2);
    }
}

/// Inserting `x` at a position where everything before is below it and everything after is
/// above it keeps a strictly sorted sequence strictly sorted.
proof fn lemma_insert_keeps_sorted(s: Seq<Seq<char>>, p: int, x: Seq<char>)
    requires
        strictly_sorted(s),
        0 <= p <= s.len(),
        forall|i: int| 0 <= i < p ==> seq_lt(#[trigger] s[i], x),
        p < s.len() ==> seq_lt(x, s[p]),
    ensures
        strictly_sorted(s.insert(p, x)),
        forall|y: Seq<char>| s.insert(p, x).contains(y) <==> (s.contains(y) || y == x),
{
    let t = s.insert(p, x);
    assert forall|i: int, j: int| 0 <= i < j < t.len() implies seq_lt(t[i], t[j]) by {
        if j < p {
            assert(t[i] == s[i] && t[j] == s[j]);
        } else if j == p {
            assert(t[i] == s[i] && t[j] == x);
        } else if i < p {
            assert(t[i] == s[i] && t[j] == s[j - 1]);
            assert(seq_lt(x, s[p]));
            if j - 1 > p {
                assert(seq_lt(s[p], s[j - 1]));
                lemma_seq_lt_transitive(x, s[p], s[j - 1]);
            }
            lemma_seq_lt_transitive(s[i], x, s[j - 1]);
        } else if i == p {
            assert(t[i] == x && t[j] == s[j - 1]);
            if j - 1 > p {
                assert(seq_lt(s[p], s[j - 1]));
                lemma_seq_lt_transitive(x, s[p], s[j - 1]);
            }
        } else {
            assert(t[i] == s[i - 1] && t[j] == s[j - 1]);
        }
    }
    assert forall|y: Seq<char>| t.contains(y) <==> (s.contains(y) || y == x) by {
        if t.contains(y) {
            let a = choose|a: int| 0 <= a < t.len() && t[a] == y;
            if a < p {
                assert(s[a] == y);
            } else if a > p {
                assert(s[a - 1] == y);
            }
        }
        if s.contains(y) {
            let a = choose|a: int| 0 <= a < s.len() && s[a] == y;
            if a < p {
                assert(t[a] == y);
            } else {
                assert(t[a + 1] == y);
            }
        }
        if y == x {
            assert(t[p] == x);
        }
    }
}

/// A strictly sorted sequence holding exactly the candidates exists (so `sorted_candidates`
/// is that sequence).
pub proof fn lemma_sorted_candidates(raw: Seq<Seq<char>>, after: Option<Seq<char>>)
    ensures
        strictly_sorted(sorted_candidates(raw, after)),
        holds_candidates(sorted_candidates(raw, after), raw, after),
{
    let w = lemma_candidates_witness(raw, after);
    assert(strictly_sorted(w) && holds_candidates(w, raw, after));
}

proof fn lemma_candidates_witness(raw: Seq<Seq<char>>, after: Option<Seq<char>>) -> (s: Seq<
    Seq<char>,
>)
    ensures
        strictly_sorted(s),
        holds_candidates(s, raw, after),
    decreases raw.len(),
{
    if raw.len() == 0 {
        let s = Seq::<Seq<char>>::empty();
        assert forall|x: Seq<char>| #[trigger] s.contains(x) <==> (raw.contains(x) && above(after, x)) by {
            if raw.contains(x) {
                let a = choose|a: int| 0 <= a < raw.len() && raw[a] == x;
            }
        }
        s
    } else {
        let prev = raw.drop_last();
        let x = raw.last();
        let s0 = lemma_candidates_witness(prev, after);
        assert forall|y: Seq<char>| raw.contains(y) <==> (prev.contains(y) || y == x) by {
            if raw.contains(y) {
                let a = choose|a: int| 0 <= a < raw.len() && raw[a] == y;
                if a < raw.len() - 1 {
                    assert(prev[a] == y);
                }
            }
            if prev.contains(y) {
                let a = choose|a: int| 0 <= a < prev.len() && prev[a] == y;
                assert(raw[a] == y);
            }
            if y == x {
                assert(raw[raw.len() - 1] == y);
            }
        }
        if !above(after, x) || s0.contains(x) {
            s0
        } else {
            let t = lemma_insert_sorted_witness(s0, x);
            t
        }
    }
}

proof fn lemma_insert_sorted_witness(s: Seq<Seq<char>>, x: Seq<char>) -> (t: Seq<Seq<char>>)
    requires
        strictly_sorted(s),
        !s.contains(x),
    ensures
        strictly_sorted(t),
        forall|y: Seq<char>| #[trigger] t.contains(y) <==> (s.contains(y) || y == x),
    decreases s.len(),
{
    if s.len() == 0 {
        let t = seq![x];
        assert forall|y: Seq<char>| #[trigger] t.contains(y) <==> (s.contains(y) || y == x) by {
            if t.contains(y) {
                let a = choose|a: int| 0 <= a < t.len() && t[a] == y;
            }
            if y == x {
                assert(t[0] == x);
            }
        }
        t
    } else if seq_lt(s[0], x) {
        let rest = s.drop_first();
        assert forall|i: int, j: int| 0 <= i < j < rest.len() implies seq_lt(rest[i], rest[j]) by {
            assert(rest[i] == s[i + 1] && rest[j] == s[j + 1]);
        }
        assert(!rest.contains(x)) by {
            if rest.contains(x) {
                let a = choose|a: int| 0 <= a < rest.len() && rest[a] == x;
                assert(s[a + 1] == x);
            }
        }
        let t0 = lemma_insert_sorted_witness(rest, x);
        let t = seq![s[0]] + t0;
        assert forall|y: Seq<char>| t0.contains(y) implies seq_lt(s[0], y) by {
            if y != x {
                assert(rest.contains(y));
                let a = choose|a: int| 0 <= a < rest.len() && rest[a] == y;
                assert(s[a + 1] == y);
            }
        }
        assert forall|i: int, j: int| 0 <= i < j < t.len() implies seq_lt(t[i], t[j]) by {
            if i == 0 {
                assert(t0.contains(t[j])) by {
                    assert(t0[j - 1] == t[j]);
                }
            } else {
                assert(t[i] == t0[i - 1] && t[j] == t0[j - 1]);
            }
        }
        assert forall|y: Seq<char>| #[trigger] t.contains(y) <==> (s.contains(y) || y == x) by {
            if t.contains(y) {
                let a = choose|a: int| 0 <= a < t.len() && t[a] == y;
                if a == 0 {
                    assert(s[0] == y);
                } else {
                    assert(t0[a - 1] == y);
                    assert(t0.contains(y));
                    if y != x {
                        assert(rest.contains(y));
                        let b = choose|b: int| 0 <= b < rest.len() && rest[b] == y;
                        assert(s[b + 1] == y);
                    }
                }
            }
            if s.contains(y) {
                let a = choose|a: int| 0 <= a < s.len() && s[a] == y;
                if a == 0 {
                    assert(t[0] == y);
                } else {
                    assert(rest[a - 1] == y);
                    assert(t0.contains(y));
                    let b = choose|b: int| 0 <= b < t0.len() && t0[b] == y;
                    assert(t[b + 1] == y);
                }
            }
            if y == x {
                assert(t0.contains(x));
                let b = choose|b: int| 0 <= b < t0.len() && t0[b] == x;
                assert(t[b + 1] == x);
            }
        }
        t
    } else {
        assert(s[0] != x) by {
            if s[0] == x {
                assert(s.contains(x));
            }
        }
        lemma_seq_lt_total(s[0], x);
        assert forall|i: int| 0 <= i < 0 implies seq_lt(#[trigger] s[i], x) by {
        }
        lemma_insert_keeps_sorted(s, 0, x);
        s.insert(0, x)
    }
}

/// Law: a page is the first `limit` ids after the cursor in ascending order. It is strictly
/// ascending, holds only ids of `raw` after the cursor, is as long as `limit` allows, and every
/// id after the cursor that it leaves out comes after all of its ids (and then the page is full).
pub proof fn law_keyset_page_is_next_ids(
    raw: Seq<Seq<char>>,
    after: Option<Seq<char>>,
    limit: nat,
)
    ensures
        strictly_sorted(keyset_page_spec(raw, after, limit)),
        forall|k: int|
            0 <= k < keyset_page_spec(raw, after, limit).len() ==> raw.contains(
                #[trigger] keyset_page_spec(raw, after, limit)[k],
            ) && above(after, keyset_page_spec(raw, after, limit)[k]),
        keyset_page_spec(raw, after, limit).len() <= limit,
        keyset_page_spec(raw, after, limit).len() == limit || keyset_page_spec(
            raw,
            after,
            limit,
        ).len() == sorted_candidates(raw, after).len(),
        forall|x: Seq<char>|
            raw.contains(x) && above(after, x) && !keyset_page_spec(raw, after, limit).contains(x)
                ==> {
                &&& keyset_page_spec(raw, after, limit).len() == limit
                &&& limit > 0 ==> seq_lt(keyset_page_spec(raw, after, limit).last(), x)
            },
{
    lemma_sorted_candidates(raw, after);
    let all = sorted_candidates(raw, after);
    let page = keyset_page_spec(raw, after, limit);
    assert forall|i: int, j: int| 0 <= i < j < page.len() implies seq_lt(page[i], page[j]) by {
        assert(page[i] == all[i] && page[j] == all[j]);
    }
    assert forall|k: int| 0 <= k < page.len() implies raw.contains(#[trigger] page[k]) && above(
        after,
        page[k],
    ) by {
        assert(page[k] == all[k]);
        assert(all.contains(all[k]));
    }
    assert forall|x: Seq<char>|
        raw.contains(x) && above(after, x) && !page.contains(x) implies {
        &&& page.len() == limit
        &&& limit > 0 ==> seq_lt(page.last(), x)
    } by {
        assert(all.contains(x));
        let k = choose|k: int| 0 <= k < all.len() && all[k] == x;
        if k < page.len() {
            assert(page[k] == x);
            assert(page.contains(x));
        }
        assert(limit < all.len());
        if limit > 0 {
            assert(page.last() == all[limit - 1]);
        }
    }
}

/// The ids after the `n`-th candidate are the candidates after it.
pub proof fn lemma_candidates_after(raw: Seq<Seq<char>>, after: Option<Seq<char>>, n: nat)
    requires
        0 < n <= sorted_candidates(raw, after).len(),
    ensures
        sorted_candidates(raw, Some(sorted_candidates(raw, after)[n - 1])) == sorted_candidates(
            raw,
            after,
        ).skip(n as int),
{
    lemma_sorted_candidates(raw, after);
    let all = sorted_candidates(raw, after);
    let last = all[n - 1];
    let rest = all.skip(n as int);
    assert forall|i: int, j: int| 0 <= i < j < rest.len() implies seq_lt(rest[i], rest[j]) by {
        assert(rest[i] == all[i + n] && rest[j] == all[j + n]);
    }
    assert forall|x: Seq<char>| #[trigger] rest.contains(x) <==> (raw.contains(x) && above(
        Some(last),
        x,
    )) by {
        if rest.contains(x) {
            let a = choose|a: int| 0 <= a < rest.len() && rest[a] == x;
            assert(all[a + n] == x);
            assert(all.contains(x));
            if a > 0 {
                assert(seq_lt(all[n - 1], all[a + n]));
            } else {
                assert(seq_lt(all[n - 1], all[n as int]));
            }
        }
        if raw.contains(x) && above(Some(last), x) {
            assert(all.contains(last));
            match after {
                Some(a0) => {
                    lemma_seq_lt_transitive(a0, last, x);
                },
                None => {},
            }
            assert(all.contains(x));
            let k = choose|k: int| 0 <= k < all.len() && all[k] == x;
            if k < n - 1 {
                assert(seq_lt(all[k], all[n - 1]));
                lemma_seq_lt_total(x, last);
            } else if k == n - 1 {
                lemma_seq_lt_irreflexive(x);
            }
            assert(rest[k - n] == x);
        }
    }
    lemma_sorted_candidates(raw, Some(last));
    lemma_sorted_unique(rest, sorted_candidates(raw, Some(last)));
}

/// Law: paging with the last id of a full page as the next cursor walks the same ids as one
/// larger page. A page of `n` ids followed by the next page of `m` ids is the page of `n + m`
/// ids, so a scan that feeds each page's last id back as the cursor visits every id after the
/// first cursor once, in ascending order.
pub proof fn law_consecutive_pages(raw: Seq<Seq<char>>, after: Option<Seq<char>>, n: nat, m: nat)
    requires
        n > 0,
        keyset_page_spec(raw, after, n).len() == n,
    ensures
        keyset_page_spec(raw, after, n) + keyset_page_spec(
            raw,
            Some(keyset_page_spec(raw, after, n).last()),
            m,
        ) == keyset_page_spec(raw, after, n + m),
{
    lemma_sorted_candidates(raw, after);
    let all = sorted_candidates(raw, after);
    let p1 = keyset_page_spec(raw, after, n);
    assert(n <= all.len());
    let last = all[n - 1];
    assert(p1.last() == last);
    lemma_candidates_after(raw, after, n);
    let p2 = keyset_page_spec(raw, Some(last), m);
    assert(p1 + p2 =~= keyset_page_spec(raw, after, n + m));
}

/// The ids a keyset scan visits: pages of at most `limit` ids, each starting after the last id
/// of the page before, until a page comes back empty (`pages` bounds how many are fetched).
pub open spec fn keyset_scan(raw: Seq<Seq<char>>, after: Option<Seq<char>>, limit: nat, pages: nat) -> Seq<
    Seq<char>,
>
    decreases pages,
{
    let page = keyset_page_spec(raw, after, limit);
    if pages == 0 || page.len() == 0 {
        Seq::empty()
    } else {
        page + keyset_scan(raw, Some(page.last()), limit, (pages - 1) as nat)
    }
}

/// Law: a full keyset scan visits every id of `raw` after the first cursor exactly once, in
/// ascending order. With pages of at least one id, feeding each page's last id back as the next
/// cursor until a page comes back empty yields exactly the distinct ids after the cursor,
/// strictly ascending (`pages` only has to exceed the number of such ids).
pub proof fn law_keyset_scan_visits_every_id_once(
    raw: Seq<Seq<char>>,
    after: Option<Seq<char>>,
    limit: nat,
    pages: nat,
)
    requires
        limit >= 1,
        pages > sorted_candidates(raw, after).len(),
    ensures
        keyset_scan(raw, after, limit, pages) == sorted_candidates(raw, after),
        strictly_sorted(keyset_scan(raw, after, limit, pages)),
        forall|x: Seq<char>| #[trigger]
            keyset_scan(raw, after, limit, pages).contains(x) <==> (raw.contains(x) && above(
                after,
                x,
            )),
    decreases pages,
{
    lemma_sorted_candidates(raw, after);
    let all = sorted_candidates(raw, after);
    let page = keyset_page_spec(raw, after, limit);
    if all.len() == 0 {
        assert(page.len() == 0);
    } else if limit >= all.len() {
        assert(page == all);
        lemma_candidates_after(raw, after, all.len());
        assert(all.skip(all.len() as int) =~= Seq::<Seq<char>>::empty());
        law_keyset_scan_visits_every_id_once(raw, Some(all.last()), limit, (pages - 1) as nat);
        assert(page + Seq::<Seq<char>>::empty() =~= all);
    } else {
        assert(page == all.take(limit as int));
        assert(page.last() == all[limit - 1]);
        lemma_candidates_after(raw, after, limit);
        law_keyset_scan_visits_every_id_once(raw, Some(page.last()), limit, (pages - 1) as nat);
        assert(all.take(limit as int) + all.skip(limit as int) =~= all);
    }
}

/// The page of ids after the cursor `after` (an empty cursor counts as none): the first
/// `limit` distinct ids of `raw`, ascending (`sort`, `dedup`, `retain(> after)`, `truncate`).
pub fn keyset_page(raw: &Vec<String>, after: Option<&str>, limit: usize) -> (r: Vec<String>)
    ensures
        views(r@) == keyset_page_spec(
            views(raw@),
            effective_after(
                match after {
                    Some(a) => Some(a@),
                    None => None,
                },
            ),
            limit as nat,
        ),
{
    let ghost raw_v = views(raw@);
    let ghost cursor = effective_after(
        match after {
            Some(a) => Some(a@),
            None => None,
        },
    );
    let cur: Option<&str> = match after {
        Some(a) => if a.unicode_len() > 0 {
            Some(a)
        } else {
            None
        },
        None => None,
    };
    assert(cursor == match cur {
        Some(a) => Some(a@),
        None => None::<Seq<char>>,
    });
    let mut sorted: Vec<String> = Vec::new();
    let mut i: usize = 0;
    while i < raw.len()
        invariant
            i <= raw.len(),
            raw_v == views(raw@),
            cursor == match cur {
                Some(a) => Some(a@),
                None => None::<Seq<char>>,
            },
            strictly_sorted(views(sorted@)),
            holds_candidates(views(sorted@), raw_v.take(i as int), cursor),
        decreases raw.len() - i,
    {
        let x = &raw[i];
        let ghost xv = x@;
        let ghost pre = views(sorted@);
        assert(raw_v[i as int] == xv);
        let ghost nxt = raw_v.take(i + 1);
        let ghost cur_t = raw_v.take(i as int);
        assert forall|y: Seq<char>| nxt.contains(y) <==> (cur_t.contains(y) || y == xv) by {
            if nxt.contains(y) {
                let a = choose|a: int| 0 <= a < nxt.len() && nxt[a] == y;
                if a < i {
                    assert(cur_t[a] == y);
                }
            }
            if cur_t.contains(y) {
                let a = choose|a: int| 0 <= a < cur_t.len() && cur_t[a] == y;
                assert(nxt[a] == y);
            }
            if y == xv {
                assert(nxt[i as int] == y);
            }
        }
        let keep = match cur {
            Some(a) => str_lt(a, x.as_str()),
            None => true,
        };
        if keep {
            let mut p: usize = 0;
            while p < sorted.len() && str_lt(sorted[p].as_str(), x.as_str())
                invariant
                    p <= sorted.len(),
                    pre == views(sorted@),
                    xv == x@,
                    forall|k: int| 0 <= k < p ==> seq_lt(#[trigger] pre[k], xv),
                decreases sorted.len() - p,
            {
                p = p + 1;
            }
            if p < sorted.len() && sorted[p] == *x {
                assert(pre[p as int] == xv);
                assert(pre.contains(xv));
            } else {
                proof {
                    if p < sorted.len() {
                        lemma_seq_lt_total(pre[p as int], xv);
                    }
                    lemma_insert_keeps_sorted(pre, p as int, xv);
                }
                sorted.insert(p, x.clone());
                assert(views(sorted@) =~= pre.insert(p as int, xv));
            }
        }
        assert forall|y: Seq<char>| #[trigger]
            views(sorted@).contains(y) <==> (nxt.contains(y) && above(cursor, y)) by {
            assert(nxt.contains(y) <==> (cur_t.contains(y) || y == xv));
            assert(pre.contains(y) <==> (cur_t.contains(y) && above(cursor, y)));
        }
        i = i + 1;
    }
    assert(raw_v.take(raw.len() as int) =~= raw_v);
    proof {
        lemma_sorted_candidates(raw_v, cursor);
        lemma_sorted_unique(views(sorted@), sorted_candidates(raw_v, cursor));
    }
    sorted.truncate(limit);
    assert(views(sorted@) =~= keyset_page_spec(raw_v, cursor, limit as nat));
    sorted
}

} // verus!

verus! {

/// Message prefix of the error for a table name outside `[a-zA-Z0-9_]`.
pub const UNSAFE_TABLE_NAME_MESSAGE: &'static str =
    "unsafe table name for iter paging (allowed: [a-zA-Z0-9_]): ";

/// The character is allowed in a table name (`[a-zA-Z0-9_]`).
pub open spec fn table_name_char(c: char) -> bool {
    ('a' <= c <= 'z') || ('A' <= c <= 'Z') || ('0' <= c <= '9') || c == '_'
}

/// Only ASCII alphanumerics and `_` (defense in depth: the name goes into query text).
pub open spec fn safe_table_name(t: Seq<char>) -> bool {
    forall|i: int| 0 <= i < t.len() ==> table_name_char(#[trigger] t[i])
}

/// What `format!("{:?}", s)` renders for a string `s`: the text in double quotes, with quotes,
/// backslashes and control characters escaped.
pub uninterp spec fn debug_rendering(s: Seq<char>) -> Seq<char>;

/// The `Debug` rendering of a string (std's `<str as Debug>::fmt` through `format!`); the
/// contract only names the result as a function of the text, it does not spell out the
/// escaping rules.
#[verifier::external_body]
fn debug_quoted(s: &str) -> (r: String)
    ensures
        r@ == debug_rendering(s@),
{
    format!("{:?}", s)
}

/// The error for an unsafe table name, given the name's `Debug` rendering.
pub fn unsafe_table_name_message(rendered: &str) -> (m: String)
    ensures
        m@ == UNSAFE_TABLE_NAME_MESSAGE@ + rendered@,
{
    String::from_str(UNSAFE_TABLE_NAME_MESSAGE).concat(rendered)
}

/// Accept a table name made of `[a-zA-Z0-9_]` only; otherwise an error that names it.
pub fn assert_safe_table_name(table: &str) -> (r: Result<(), String>)
    ensures
        r is Ok <==> safe_table_name(table@),
        r matches Err(m) ==> m@ == UNSAFE_TABLE_NAME_MESSAGE@ + debug_rendering(table@),
{
    let n = table.unicode_len();
    let mut i: usize = 0;
    while i < n
        invariant
            n == table@.len(),
            i <= n,
            forall|k: int| 0 <= k < i ==> table_name_char(#[trigger] table@[k]),
        decreases n - i,
    {
        let c = table.get_char(i);
        if !(('a' <= c && c <= 'z') || ('A' <= c && c <= 'Z') || ('0' <= c && c <= '9') || c
            == '_') {
            let rendered = debug_quoted(table);
            return Err(unsafe_table_name_message(rendered.as_str()));
        }
        i = i + 1;
    }
    Ok(())
}

/// Engine ids that name a SurrealDB backend.
pub open spec fn is_surreal_engine_spec(engine: Seq<char>) -> bool {
    contains_spec(engine, "surreal"@)
}

/// Engine ids of the in-memory backend.
pub open spec fn is_mem_engine_spec(engine: Seq<char>, mem_engine_id: Seq<char>) -> bool {
    engine == mem_engine_id || contains_spec(engine, "inmemory"@)
}

/// Engine ids of SQL document backends (SQLite, Postgres, hybrid).
pub open spec fn is_sql_document_engine_spec(engine: Seq<char>, sqlite_engine_id: Seq<char>) -> bool {
    engine == sqlite_engine_id || contains_spec(engine, "postgres"@) || contains_spec(
        engine,
        "hybrid"@,
    )
}

/// Engines without a reliable `WHERE id >` pushdown (mem, and historically redis/mongo/indra).
pub open spec fn uses_in_process_keyset_spec(engine: Seq<char>, sqlite_engine_id: Seq<char>) -> bool {
    !is_surreal_engine_spec(engine) && !is_sql_document_engine_spec(engine, sqlite_engine_id)
}

/// Whether the engine is SurrealDB.
pub fn is_surreal_engine(engine_id: &str) -> (r: bool)
    ensures
        r == is_surreal_engine_spec(engine_id@),
{
    contains(engine_id, "surreal")
}

/// Whether the engine is the in-memory backend (`mem_engine_id` is the store's id for it).
pub fn is_mem_engine(engine_id: &str, mem_engine_id: &str) -> (r: bool)
    ensures
        r == is_mem_engine_spec(engine_id@, mem_engine_id@),
{
    str_eq(engine_id, mem_engine_id) || contains(engine_id, "inmemory")
}

/// Whether the engine is a SQL document backend (`sqlite_engine_id` is the store's SQLite id).
pub fn is_sql_document_engine(engine_id: &str, sqlite_engine_id: &str) -> (r: bool)
    ensures
        r == is_sql_document_engine_spec(engine_id@, sqlite_engine_id@),
{
    str_eq(engine_id, sqlite_engine_id) || contains(engine_id, "postgres") || contains(
        engine_id,
        "hybrid",
    )
}

/// Whether paging applies the cursor in process rather than in the query.
pub fn uses_in_process_keyset(engine_id: &str, sqlite_engine_id: &str) -> (r: bool)
    ensures
        r == uses_in_process_keyset_spec(engine_id@, sqlite_engine_id@),
{
    !is_surreal_engine(engine_id) && !is_sql_document_engine(engine_id, sqlite_engine_id)
}

/// The row-count query text for a table on an engine.
pub open spec fn count_query_spec(
    engine: Seq<char>,
    table: Seq<char>,
    mem_engine_id: Seq<char>,
    sqlite_engine_id: Seq<char>,
) -> Seq<char> {
    if is_surreal_engine_spec(engine) {
        "SELECT VALUE count FROM (SELECT count() AS count FROM "@ + table + " GROUP ALL)"@
    } else if is_mem_engine_spec(engine, mem_engine_id) {
        "SELECT count() AS count FROM "@ + table
    } else if is_sql_document_engine_spec(engine, sqlite_engine_id) {
        "SELECT COUNT(*) AS count FROM "@ + table
    } else {
        "SELECT VALUE count FROM (SELECT count() AS count FROM "@ + table + " GROUP ALL)"@
    }
}

/// The row-count query for `table` in the dialect of its engine.
pub fn count_query(engine_id: &str, table: &str, mem_engine_id: &str, sqlite_engine_id: &str) -> (r:
    String)
    ensures
        r@ == count_query_spec(engine_id@, table@, mem_engine_id@, sqlite_engine_id@),
{
    if is_surreal_engine(engine_id) {
        concat3("SELECT VALUE count FROM (SELECT count() AS count FROM ", table, " GROUP ALL)")
    } else if is_mem_engine(engine_id, mem_engine_id) {
        concat2("SELECT count() AS count FROM ", table)
    } else if is_sql_document_engine(engine_id, sqlite_engine_id) {
        concat2("SELECT COUNT(*) AS count FROM ", table)
    } else {
        concat3("SELECT VALUE count FROM (SELECT count() AS count FROM ", table, " GROUP ALL)")
    }
}

/// The first cell of a count query's result, as plain values.
#[derive(Clone, Debug)]
pub enum CountCell {
    /// An integer cell (a float cell is handed over truncated toward zero).
    Int(i64),
    /// An object cell; `count` is its `"count"` member when that is an integer.
    Object { count: Option<i64> },
    /// Any other cell.
    Other,
}

/// Error message when the count query returned no rows.
pub const COUNT_NO_ROWS_MESSAGE: &'static str = "count query returned no rows";

/// Error message when the count query's first cell is not an integer.
pub const COUNT_NON_INTEGER_MESSAGE: &'static str = "count query returned non-integer";

/// The row count read off the first result cell, or why none could be read.
pub fn count_from_cell(first: Option<CountCell>) -> (r: Result<i64, String>)
    ensures
        match first {
            None => r matches Err(m) && m@ == COUNT_NO_ROWS_MESSAGE@,
            Some(CountCell::Int(n)) => r == Ok::<i64, String>(n),
            Some(CountCell::Object { count: Some(n) }) => r == Ok::<i64, String>(n),
            _ => r matches Err(m) && m@ == COUNT_NON_INTEGER_MESSAGE@,
        },
{
    match first {
        None => Err(String::from_str(COUNT_NO_ROWS_MESSAGE)),
        Some(CountCell::Int(n)) => Ok(n),
        Some(CountCell::Object { count: Some(n) }) => Ok(n),
        _ => Err(String::from_str(COUNT_NON_INTEGER_MESSAGE)),
    }
}

/// A query for ordered primary keys, with its named parameters (name, string value).
pub struct IdsQuery {
    /// Query text.
    pub text: String,
    /// Named string parameters.
    pub params: Vec<(String, String)>,
}

/// ` LIMIT n`, or nothing without a limit.
pub open spec fn limit_clause(limit: Option<nat>) -> Seq<char> {
    match limit {
        Some(n) => " LIMIT "@ + decimal(n),
        None => Seq::empty(),
    }
}

/// Text and parameters of the ordered-ids query.
pub open spec fn ids_query_spec(
    engine: Seq<char>,
    table: Seq<char>,
    after: Option<Seq<char>>,
    limit: Option<nat>,
    sqlite_engine_id: Seq<char>,
) -> (Seq<char>, Seq<(Seq<char>, Seq<char>)>) {
    let lim = limit_clause(limit);
    match effective_after(after) {
        Some(rid) => if is_surreal_engine_spec(engine) {
            (
                "SELECT VALUE id FROM "@ + table + " WHERE id > type::record($tb, $rid) ORDER BY id ASC"@
                    + lim,
                seq![("tb"@, table), ("rid"@, rid)],
            )
        } else if is_sql_document_engine_spec(engine, sqlite_engine_id) {
            (
                "SELECT id FROM "@ + table + " WHERE id > $rid ORDER BY id ASC"@ + lim,
                seq![("rid"@, rid)],
            )
        } else {
            ("SELECT VALUE id FROM "@ + table + " ORDER BY id ASC"@ + lim, Seq::empty())
        },
        None => if is_sql_document_engine_spec(engine, sqlite_engine_id) {
            ("SELECT id FROM "@ + table + " ORDER BY id ASC"@ + lim, Seq::empty())
        } else {
            ("SELECT VALUE id FROM "@ + table + " ORDER BY id ASC"@ + lim, Seq::empty())
        },
    }
}

/// Plain-value parameters of a query.
pub open spec fn params_view(p: Seq<(String, String)>) -> Seq<(Seq<char>, Seq<char>)> {
    p.map_values(|q: (String, String)| (q.0@, q.1@))
}

/// The query for primary keys of `table` in ascending order: after the bare id `after` when
/// the engine can filter by it (an empty cursor counts as none), at most `limit` of them.
pub fn ordered_ids_query(
    engine_id: &str,
    table: &str,
    after: Option<&str>,
    limit: Option<usize>,
    sqlite_engine_id: &str,
) -> (q: IdsQuery)
    ensures
        (q.text@, params_view(q.params@)) == ids_query_spec(
            engine_id@,
            table@,
            match after {
                Some(a) => Some(a@),
                None => None,
            },
            match limit {
                Some(n) => Some(n as nat),
                None => None,
            },
            sqlite_engine_id@,
        ),
{
    let lim = match limit {
        Some(n) => concat2(" LIMIT ", usize_to_decimal(n).as_str()),
        None => String::new(),
    };
    let cursor: Option<&str> = match after {
        Some(a) => if a.unicode_len() > 0 {
            Some(a)
        } else {
            None
        },
        None => None,
    };
    let mut params: Vec<(String, String)> = Vec::new();
    let text = match cursor {
        Some(rid) => {
            if is_surreal_engine(engine_id) {
                params.push((String::from_str("tb"), String::from_str(table)));
                params.push((String::from_str("rid"), String::from_str(rid)));
                concat3("SELECT VALUE id FROM ", table, " WHERE id > type::record($tb, $rid) ORDER BY id ASC").concat(lim.as_str())
            } else if is_sql_document_engine(engine_id, sqlite_engine_id) {
                params.push((String::from_str("rid"), String::from_str(rid)));
                concat3("SELECT id FROM ", table, " WHERE id > $rid ORDER BY id ASC").concat(
                    lim.as_str(),
                )
            } else {
                concat3("SELECT VALUE id FROM ", table, " ORDER BY id ASC").concat(lim.as_str())
            }
        },
        None => {
            if is_sql_document_engine(engine_id, sqlite_engine_id) {
                concat3("SELECT id FROM ", table, " ORDER BY id ASC").concat(lim.as_str())
            } else {
                concat3("SELECT VALUE id FROM ", table, " ORDER BY id ASC").concat(lim.as_str())
            }
        },
    };
    proof {
        reveal_strlit("tb");
        reveal_strlit("rid");
    }
    assert(params_view(params@) =~= ids_query_spec(
        engine_id@,
        table@,
        match after {
            Some(a) => Some(a@),
            None => None,
        },
        match limit {
            Some(n) => Some(n as nat),
            None => None,
        },
        sqlite_engine_id@,
    ).1);
    IdsQuery { text, params }
}

/// The bare id a primary-key cell names: the text after its last `:`, trimmed. A string cell
/// gives its text, an object its string `"id"`, otherwise the cell's JSON text (with
/// surrounding `"` removed unless it is an object with a `"tb"` or `"id"` member).
pub open spec fn bare_id_of_cell_spec(cell: IdCell) -> Seq<char> {
    let s = match cell {
        IdCell::Text(t) => t@,
        IdCell::Object { id: Some(i), .. } => i@,
        IdCell::Object { id: None, keyed: true, rendered } => rendered@,
        IdCell::Object { id: None, keyed: false, rendered } => trim_char_spec(rendered@, '"'),
        IdCell::Other { rendered } => trim_char_spec(rendered@, '"'),
    };
    trim_spec(after_last_spec(s, ':'))
}

/// Normalize an id cell to the bare id that record lookups expect.
pub fn bare_record_id_from_query_cell(cell: &IdCell) -> (r: String)
    ensures
        r@ == bare_id_of_cell_spec(*cell),
{
    let s = match cell {
        IdCell::Text(t) => t.clone(),
        IdCell::Object { id: Some(i), .. } => i.clone(),
        IdCell::Object { id: None, keyed, rendered } => if *keyed {
            rendered.clone()
        } else {
            trim_char(rendered.as_str(), '"')
        },
        IdCell::Other { rendered } => trim_char(rendered.as_str(), '"'),
    };
    let tail = after_last(s.as_str(), ':');
    trim(tail.as_str())
}

/// The non-empty bare ids of the cells, in order.
pub open spec fn ids_from_cells_spec(cells: Seq<IdCell>) -> Seq<Seq<char>>
    decreases cells.len(),
{
    if cells.len() == 0 {
        Seq::empty()
    } else {
        let rest = ids_from_cells_spec(cells.drop_last());
        let id = bare_id_of_cell_spec(cells.last());
        if id.len() > 0 {
            rest.push(id)
        } else {
            rest
        }
    }
}

/// Bare ids of the query's cells, skipping cells that normalize to an empty id.
pub fn ids_from_cells(cells: &Vec<IdCell>) -> (ids: Vec<String>)
    ensures
        views(ids@) == ids_from_cells_spec(cells@),
{
    let mut ids: Vec<String> = Vec::new();
    let mut i: usize = 0;
    while i < cells.len()
        invariant
            i <= cells.len(),
            views(ids@) == ids_from_cells_spec(cells@.subrange(0, i as int)),
        decreases cells.len() - i,
    {
        assert(cells@.subrange(0, i + 1).drop_last() =~= cells@.subrange(0, i as int));
        let id = bare_record_id_from_query_cell(&cells[i]);
        if id.unicode_len() > 0 {
            ids.push(id);
        }
        assert(views(ids@) =~= ids_from_cells_spec(cells@.subrange(0, i + 1)));
        i = i + 1;
    }
    assert(cells@.subrange(0, cells.len() as int) =~= cells@);
    ids
}

/// How a page of row ids is fetched.
pub struct PageQuery {
    /// `true`: the query lists every id and [`keyset_page`] applies cursor and limit.
    pub in_process: bool,
    /// The ordered-ids query to run.
    pub query: IdsQuery,
}

/// Check a page request before touching the backend: `Err` for an unsafe table name,
/// `Ok(false)` when `limit` is `0` (the page is empty), `Ok(true)` otherwise.
pub fn page_request_admits(table: &str, limit: usize) -> (r: Result<bool, String>)
    ensures
        !safe_table_name(table@) ==> (r matches Err(m) && m@ == UNSAFE_TABLE_NAME_MESSAGE@
            + debug_rendering(table@)),
        safe_table_name(table@) ==> r == Ok::<bool, String>(limit > 0),
{
    match assert_safe_table_name(table) {
        Err(m) => Err(m),
        Ok(()) => Ok(limit > 0),
    }
}

/// The query for one page: engines with a cursor pushdown get cursor and `LIMIT` in the
/// query; the others list every id in order and page in process.
pub fn page_query(
    engine_id: &str,
    table: &str,
    after: Option<&str>,
    limit: usize,
    sqlite_engine_id: &str,
) -> (p: PageQuery)
    ensures
        p.in_process == uses_in_process_keyset_spec(engine_id@, sqlite_engine_id@),
        p.in_process ==> (p.query.text@, params_view(p.query.params@)) == ids_query_spec(
            engine_id@,
            table@,
            None,
            None,
            sqlite_engine_id@,
        ),
        !p.in_process ==> (p.query.text@, params_view(p.query.params@)) == ids_query_spec(
            engine_id@,
            table@,
            match after {
                Some(a) => Some(a@),
                None => None,
            },
            Some(limit as nat),
            sqlite_engine_id@,
        ),
{
    if uses_in_process_keyset(engine_id, sqlite_engine_id) {
        PageQuery {
            in_process: true,
            query: ordered_ids_query(engine_id, table, None, None, sqlite_engine_id),
        }
    } else {
        PageQuery {
            in_process: false,
            query: ordered_ids_query(engine_id, table, after, Some(limit), sqlite_engine_id),
        }
    }
}

/// The page of row ids from the fetched (existing, non-empty) ids: the in-process cursor and
/// limit, or the query's own result when the engine applied them.
pub fn page_row_ids(
    fetched: Vec<String>,
    in_process: bool,
    after: Option<&str>,
    limit: usize,
) -> (r: Vec<String>)
    ensures
        in_process ==> views(r@) == keyset_page_spec(
            views(fetched@),
            effective_after(
                match after {
                    Some(a) => Some(a@),
                    None => None,
                },
            ),
            limit as nat,
        ),
        !in_process ==> r@ == fetched@,
{
    if in_process {
        keyset_page(&fetched, after, limit)
    } else {
        fetched
    }
}

} // verus!
