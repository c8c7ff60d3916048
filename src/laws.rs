use vstd::prelude::*;

use crate::record::{ids_of, Show};
use crate::reconcile::{
    consistent, finishes_with, flatten, misses_of, moves_on, Action, Phase, ReconcilerView,
};

verus! {

/// The rows a store that holds `table` returns for a bulk lookup of `ids`:
/// those whose show is among `ids`, in table order.
pub open spec fn table_lookup(table: Seq<Show>, ids: Seq<Seq<char>>) -> Seq<Show> {
    table.filter(|r: Show| ids.contains(r.showid@))
}

proof fn lemma_push_contains<A>(s: Seq<A>, x: A, y: A)
    ensures
        s.push(x).contains(y) <==> (s.contains(y) || y == x),
{
    if s.contains(y) {
        let k = choose|k: int| 0 <= k < s.len() && s[k] == y;
        assert(s.push(x)[k] == y);
    }
    if y == x {
        assert(s.push(x)[s.len() as int] == y);
    }
    if s.push(x).contains(y) {
        let k = choose|k: int| 0 <= k < s.push(x).len() && s.push(x)[k] == y;
        if k < s.len() {
            assert(s[k] == y);
        }
    }
}

/// The misses of a request are its identifiers that were not found, each
/// exactly once: every absent identifier is fetched upstream once, however
/// often it was requested, and no found one is fetched.
pub proof fn lemma_misses_are_distinct_absent(requested: Seq<Seq<char>>, found: Seq<Seq<char>>)
    ensures
        misses_of(requested, found).no_duplicates(),
        forall|x: Seq<char>|
            misses_of(requested, found).contains(x) <==> (requested.contains(x) && !found.contains(
                x,
            )),
    decreases requested.len(),
{
    if requested.len() > 0 {
        let r = requested.drop_last();
        let x = requested.last();
        lemma_misses_are_distinct_absent(r, found);
        assert(requested =~= r.push(x));
        let earlier = misses_of(r, found);
        assert forall|y: Seq<char>|
            misses_of(requested, found).contains(y) <==> (requested.contains(y)
                && !found.contains(y)) by {
            lemma_push_contains(r, x, y);
            lemma_push_contains(earlier, x, y);
        }
        if !(found.contains(x) || earlier.contains(x)) {
            let m = earlier.push(x);
            assert forall|i: int, j: int| 0 <= i < m.len() && 0 <= j < m.len() && i != j implies m[i]
                != m[j] by {
                if i == earlier.len() {
                    assert(earlier[j] == m[j]);
                } else if j == earlier.len() {
                    assert(earlier[i] == m[i]);
                }
            }
        }
    }
}

proof fn lemma_add_contains<A>(s: Seq<A>, t: Seq<A>, y: A)
    ensures
        (s + t).contains(y) <==> (s.contains(y) || t.contains(y)),
{
    if s.contains(y) {
        let k = choose|k: int| 0 <= k < s.len() && s[k] == y;
        assert((s + t)[k] == y);
    }
    if t.contains(y) {
        let k = choose|k: int| 0 <= k < t.len() && t[k] == y;
        assert((s + t)[s.len() + k] == y);
    }
    if (s + t).contains(y) {
        let k = choose|k: int| 0 <= k < (s + t).len() && (s + t)[k] == y;
        if k < s.len() {
            assert(s[k] == y);
        } else {
            assert(t[k - s.len()] == y);
        }
    }
}

/// Which identifiers are misses depends only on whether each requested
/// identifier is found.
proof fn lemma_misses_depend_on_membership(
    requested: Seq<Seq<char>>,
    a: Seq<Seq<char>>,
    b: Seq<Seq<char>>,
)
    requires
        forall|i: int| 0 <= i < requested.len() ==> (a.contains(requested[i]) <==> b.contains(requested[i])),
    ensures
        misses_of(requested, a) == misses_of(requested, b),
    decreases requested.len(),
{
    if requested.len() > 0 {
        let r = requested.drop_last();
        assert forall|i: int| 0 <= i < r.len() implies (a.contains(r[i]) <==> b.contains(r[i])) by {
            assert(r[i] == requested[i]);
        }
        lemma_misses_depend_on_membership(r, a, b);
    }
}

/// Taking the misses against `a`, then those against `b`, is taking the
/// misses against both at once.
proof fn lemma_misses_twice(requested: Seq<Seq<char>>, a: Seq<Seq<char>>, b: Seq<Seq<char>>)
    ensures
        misses_of(misses_of(requested, a), b) == misses_of(requested, a + b),
    decreases requested.len(),
{
    if requested.len() > 0 {
        let r = requested.drop_last();
        let x = requested.last();
        lemma_misses_twice(r, a, b);
        lemma_misses_are_distinct_absent(r, a);
        lemma_misses_are_distinct_absent(r, a + b);
        lemma_add_contains(a, b, x);
        let m = misses_of(r, a);
        if !(a.contains(x) || m.contains(x)) {
            assert(m.push(x).drop_last() =~= m);
            lemma_misses_are_distinct_absent(m, b);
        }
    }
}

proof fn lemma_ids_of_add(s: Seq<Show>, t: Seq<Show>)
    ensures
        ids_of(s + t) == ids_of(s) + ids_of(t),
{
    assert(ids_of(s + t) =~= ids_of(s) + ids_of(t));
}

proof fn lemma_lookup_ids(table: Seq<Show>, ids: Seq<Seq<char>>, x: Seq<char>)
    requires
        ids.contains(x),
    ensures
        ids_of(table_lookup(table, ids)).contains(x) <==> ids_of(table).contains(x),
{
    let pred = |r: Show| ids.contains(r.showid@);
    let found = table.filter(pred);
    if ids_of(found).contains(x) {
        let k = choose|k: int| 0 <= k < ids_of(found).len() && ids_of(found)[k] == x;
        assert(found.contains(found[k]));
        table.lemma_filter_contains_rev(pred, found[k]);
        let j = choose|j: int| 0 <= j < table.len() && table[j] == found[k];
        assert(ids_of(table)[j] == x);
    }
    if ids_of(table).contains(x) {
        let j = choose|j: int| 0 <= j < ids_of(table).len() && ids_of(table)[j] == x;
        assert(pred(table[j]));
        table.lemma_filter_contains(pred, j);
        let k = choose|k: int| 0 <= k < found.len() && found[k] == table[j];
        assert(ids_of(found)[k] == x);
    }
}

/// A repeated request against a store that kept everything the first
/// request wrote back fetches only the misses of the first request for
/// which nothing was fetched: every identifier resolved the first time is a
/// store hit the second time.
pub proof fn lemma_repeat_request(v: ReconcilerView, table: Seq<Show>)
    requires
        consistent(v),
        v.phase == Phase::Finished,
        v.hits == table_lookup(table, v.requested),
    ensures
        misses_of(v.requested, ids_of(table_lookup(table + v.inserted, v.requested))) == misses_of(
            v.misses,
            ids_of(v.inserted),
        ),
        forall|x: Seq<char>|
            #![trigger ids_of(v.inserted).contains(x)]
            ids_of(v.inserted).contains(x) ==> !misses_of(
                v.requested,
                ids_of(table_lookup(table + v.inserted, v.requested)),
            ).contains(x),
{
    let req = v.requested;
    let second = ids_of(table_lookup(table + v.inserted, req));
    let first = ids_of(table_lookup(table, req));
    assert forall|i: int| 0 <= i < req.len() implies (second.contains(req[i]) <==> (first
        + ids_of(v.inserted)).contains(req[i])) by {
        let x = req[i];
        lemma_lookup_ids(table + v.inserted, req, x);
        lemma_lookup_ids(table, req, x);
        lemma_ids_of_add(table, v.inserted);
        lemma_add_contains(ids_of(table), ids_of(v.inserted), x);
        lemma_add_contains(first, ids_of(v.inserted), x);
    }
    lemma_misses_depend_on_membership(req, second, first + ids_of(v.inserted));
    lemma_misses_twice(req, first, ids_of(v.inserted));
    lemma_misses_are_distinct_absent(v.misses, ids_of(v.inserted));
}

/// When every requested identifier has a row in the store, the lookup's
/// answer is exactly the store's rows and nothing is fetched upstream.
pub proof fn lemma_full_hit(v: ReconcilerView, a: Action)
    requires
        v.misses == misses_of(v.requested, ids_of(v.hits)),
        v.outcomes.len() == 0,
        v.fetched.len() == 0,
        moves_on(v, a),
        forall|i: int| 0 <= i < v.requested.len() ==> ids_of(v.hits).contains(v.requested[i]),
    ensures
        v.misses.len() == 0,
        v.phase == Phase::Finished,
        finishes_with(a, v.hits),
{
    lemma_misses_are_distinct_absent(v.requested, ids_of(v.hits));
    if v.misses.len() > 0 {
        let x = v.misses[0];
        assert(v.misses.contains(x));
        assert(v.requested.contains(x) && !ids_of(v.hits).contains(x));
        let k = choose|k: int| 0 <= k < v.requested.len() && v.requested[k] == x;
        assert(ids_of(v.hits).contains(v.requested[k]));
    }
    assert(v.hits + v.fetched =~= v.hits);
}

proof fn lemma_flatten_contains(outcomes: Seq<Seq<Show>>, i: int, j: int)
    requires
        0 <= i < outcomes.len(),
        0 <= j < outcomes[i].len(),
    ensures
        flatten(outcomes).contains(outcomes[i][j]),
    decreases outcomes.len(),
{
    let pre = flatten(outcomes.drop_last());
    if i == outcomes.len() - 1 {
        assert(flatten(outcomes)[pre.len() + j] == outcomes[i][j]);
    } else {
        assert(outcomes.drop_last()[i] == outcomes[i]);
        lemma_flatten_contains(outcomes.drop_last(), i, j);
        let k = choose|k: int| 0 <= k < pre.len() && pre[k] == outcomes[i][j];
        assert(flatten(outcomes)[k] == outcomes[i][j]);
    }
}

/// A finished reconciliation fetched each miss once and wrote back every
/// record that the fetches returned, in the order they came, and nothing else.
pub proof fn lemma_finished_wrote_back_all(v: ReconcilerView)
    requires
        consistent(v),
        v.phase == Phase::Finished,
    ensures
        v.outcomes.len() == v.misses.len(),
        v.inserted == flatten(v.outcomes),
        forall|i: int, j: int|
            0 <= i < v.outcomes.len() && 0 <= j < v.outcomes[i].len() ==> v.inserted.contains(
                #[trigger] v.outcomes[i][j],
            ),
{
    assert forall|i: int, j: int|
        0 <= i < v.outcomes.len() && 0 <= j < v.outcomes[i].len() implies v.inserted.contains(
        #[trigger] v.outcomes[i][j],
    ) by {
        lemma_flatten_contains(v.outcomes, i, j);
    }
}

/// The answer of a finished reconciliation is the store's rows followed by
/// everything the fetches returned; a failed fetch takes nothing away from
/// the records of the others.
pub proof fn lemma_answer_keeps_every_fetch(v: ReconcilerView, a: Action)
    requires
        consistent(v),
        v.phase == Phase::Finished,
        moves_on(v, a),
    ensures
        finishes_with(a, v.hits + flatten(v.outcomes)),
        forall|i: int, j: int|
            0 <= i < v.outcomes.len() && 0 <= j < v.outcomes[i].len() ==> (v.hits + flatten(
                v.outcomes,
            )).contains(#[trigger] v.outcomes[i][j]),
{
    assert forall|i: int, j: int|
        0 <= i < v.outcomes.len() && 0 <= j < v.outcomes[i].len() implies (v.hits + flatten(
        v.outcomes,
    )).contains(#[trigger] v.outcomes[i][j]) by {
        lemma_flatten_contains(v.outcomes, i, j);
        lemma_add_contains(v.hits, flatten(v.outcomes), v.outcomes[i][j]);
    }
}

proof fn lemma_lookup_keeps_all(rows: Seq<Show>, ids: Seq<Seq<char>>)
    requires
        forall|k: int| 0 <= k < rows.len() ==> ids.contains(#[trigger] rows[k].showid@),
    ensures
        table_lookup(rows, ids) == rows,
    decreases rows.len(),
{
    if rows.len() > 0 {
        let r = rows.drop_last();
        assert forall|k: int| 0 <= k < r.len() implies ids.contains(#[trigger] r[k].showid@) by {
            assert(r[k] == rows[k]);
        }
        lemma_lookup_keeps_all(r, ids);
        assert(rows =~= r.push(rows.last()));
        assert(ids.contains(rows[rows.len() - 1].showid@));
        r.lemma_filter_push(rows.last(), |x: Show| ids.contains(x.showid@));
    }
}

proof fn lemma_flatten_ids(outcomes: Seq<Seq<Show>>, misses: Seq<Seq<char>>)
    requires
        outcomes.len() <= misses.len(),
        forall|i: int, j: int|
            0 <= i < outcomes.len() && 0 <= j < outcomes[i].len() ==> #[trigger] outcomes[i][j].showid@
                == misses[i],
    ensures
        forall|k: int|
            0 <= k < flatten(outcomes).len() ==> misses.contains(#[trigger] flatten(outcomes)[k].showid@),
    decreases outcomes.len(),
{
    if outcomes.len() > 0 {
        let pre = outcomes.drop_last();
        assert forall|i: int, j: int| 0 <= i < pre.len() && 0 <= j < pre[i].len() implies #[trigger] pre[i][j].showid@
            == misses[i] by {
            assert(pre[i] == outcomes[i]);
        }
        lemma_flatten_ids(pre, misses);
        let f = flatten(outcomes);
        let fp = flatten(pre);
        let last = outcomes.len() - 1;
        assert forall|k: int| 0 <= k < f.len() implies misses.contains(#[trigger] f[k].showid@) by {
            if k < fp.len() {
                assert(f[k] == fp[k]);
            } else {
                assert(f[k] == outcomes[last][k - fp.len()]);
                assert(misses[last] == f[k].showid@);
            }
        }
    }
}

/// A repeated request, against a store that kept everything the first
/// request wrote back, finds in the store exactly the first request's
/// answer, provided each record fetched for an identifier names that
/// identifier: every record resolved the first time is served from the
/// store the second time.
pub proof fn lemma_repeat_request_answer(v: ReconcilerView, table: Seq<Show>)
    requires
        consistent(v),
        v.phase == Phase::Finished,
        v.hits == table_lookup(table, v.requested),
        forall|i: int, j: int|
            0 <= i < v.outcomes.len() && 0 <= j < v.outcomes[i].len() ==> #[trigger] v.outcomes[i][j].showid@
                == v.misses[i],
    ensures
        table_lookup(table + v.inserted, v.requested) == v.hits + v.fetched,
{
    let req = v.requested;
    lemma_flatten_ids(v.outcomes, v.misses);
    lemma_misses_are_distinct_absent(req, ids_of(v.hits));
    assert forall|k: int| 0 <= k < v.inserted.len() implies req.contains(#[trigger] v.inserted[k].showid@) by {
        let x = v.inserted[k].showid@;
        assert(v.misses.contains(x));
    }
    lemma_lookup_keeps_all(v.inserted, req);
    Seq::filter_distributes_over_add(table, v.inserted, |x: Show| req.contains(x.showid@));
}

} // verus!
