//! The order in which the checks panel lists the results: passing checks
//! first, then skipped ones, warnings, and failures last; within a status,
//! the narrower findings first; otherwise in run order.
use vstd::prelude::*;
use crate::runner::{result_views, CheckResult, ResultView};
use crate::support::outcome::Status;

verus! {

/// The rank of a status in the panel.
pub open spec fn status_rank(s: Status) -> nat {
    match s {
        Status::Pass => 0,
        Status::Skipped => 1,
        Status::Warn => 2,
        Status::Fail => 3,
    }
}

/// How broad a finding is: an organization-wide finding is the broadest;
/// otherwise the number of affected entries.
pub open spec fn breadth(r: ResultView) -> nat {
    if (r.status == Status::Fail || r.status == Status::Warn) && r.summary == "org-wide"@ {
        usize::MAX as nat
    } else {
        r.affected_repos.len()
    }
}

/// Result `i` is listed before result `j`: by status rank, then breadth,
/// then run order.
pub open spec fn listed_before(rs: Seq<ResultView>, i: int, j: int) -> bool {
    let (a, b) = (rs[i], rs[j]);
    status_rank(a.status) < status_rank(b.status)
        || (status_rank(a.status) == status_rank(b.status) && breadth(a) < breadth(b))
        || (status_rank(a.status) == status_rank(b.status) && breadth(a) == breadth(b) && i < j)
}

/// `p` lists every result exactly once, in panel order.
pub open spec fn is_display_order(rs: Seq<ResultView>, p: Seq<int>) -> bool {
    &&& forall|x: int| #[trigger] p.contains(x) <==> 0 <= x < rs.len()
    &&& forall|a: int, b: int| 0 <= a < b < p.len() ==> listed_before(rs, #[trigger] p[a], #[trigger] p[b])
}

/// The indices as integers.
pub open spec fn ints(v: Seq<usize>) -> Seq<int> {
    v.map_values(|x: usize| x as int)
}

/// The panel order of the results.
pub open spec fn display_order(rs: Seq<ResultView>) -> Seq<int> {
    choose|p: Seq<int>| is_display_order(rs, p)
}

proof fn lemma_before_order(rs: Seq<ResultView>, i: int, j: int, k: int)
    ensures
        !listed_before(rs, i, i),
        listed_before(rs, i, j) && listed_before(rs, j, k) ==> listed_before(rs, i, k),
        i != j ==> listed_before(rs, i, j) || listed_before(rs, j, i),
{
}

proof fn lemma_display_order_unique(rs: Seq<ResultView>, p: Seq<int>, q: Seq<int>)
    requires
        forall|a: int, b: int| 0 <= a < b < p.len() ==> listed_before(rs, #[trigger] p[a], #[trigger] p[b]),
        forall|a: int, b: int| 0 <= a < b < q.len() ==> listed_before(rs, #[trigger] q[a], #[trigger] q[b]),
        forall|x: int| #![trigger p.contains(x)] #![trigger q.contains(x)] p.contains(x) <==> q.contains(x),
    ensures
        p == q,
    decreases p.len() + q.len(),
{
    if p.len() == 0 {
        if q.len() > 0 {
            assert(q.contains(q[0]));
        }
        assert(p =~= q);
    } else if q.len() == 0 {
        assert(p.contains(p[0]));
    } else {
        assert(p.contains(p[0]));
        let j = choose|j: int| 0 <= j < q.len() && q[j] == p[0];
        assert(q.contains(q[0]));
        let i = choose|i: int| 0 <= i < p.len() && p[i] == q[0];
        lemma_before_order(rs, p[0], q[0], p[0]);
        lemma_before_order(rs, q[0], p[0], q[0]);
        if j > 0 {
            assert(0 < j < q.len());
            assert(listed_before(rs, q[0], q[j]));
            if i > 0 {
                assert(0 < i < p.len());
                assert(listed_before(rs, p[0], p[i]));
                assert(false);
            }
            assert(false);
        }
        assert(p[0] == q[0]);
        let p1 = p.drop_first();
        let q1 = q.drop_first();
        assert forall|x: int| #![trigger p1.contains(x)] #![trigger q1.contains(x)] p1.contains(x) <==> q1.contains(x) by {
            if p1.contains(x) {
                let a = choose|a: int| 0 <= a < p1.len() && p1[a] == x;
                assert(p[a + 1] == x);
                assert(p.contains(x));
                let b = choose|b: int| 0 <= b < q.len() && q[b] == x;
                assert(listed_before(rs, p[0], p[a + 1]));
                lemma_before_order(rs, x, x, x);
                assert(b != 0);
                assert(q1[b - 1] == x);
            }
            if q1.contains(x) {
                let b = choose|b: int| 0 <= b < q1.len() && q1[b] == x;
                assert(q[b + 1] == x);
                assert(q.contains(x));
                let a = choose|a: int| 0 <= a < p.len() && p[a] == x;
                assert(listed_before(rs, q[0], q[b + 1]));
                lemma_before_order(rs, x, x, x);
                assert(a != 0);
                assert(p1[a - 1] == x);
            }
        }
        assert forall|a: int, b: int| 0 <= a < b < p1.len() implies listed_before(rs, #[trigger] p1[a], #[trigger] p1[b]) by {
            assert(listed_before(rs, p[a + 1], p[b + 1]));
        }
        assert forall|a: int, b: int| 0 <= a < b < q1.len() implies listed_before(rs, #[trigger] q1[a], #[trigger] q1[b]) by {
            assert(listed_before(rs, q[a + 1], q[b + 1]));
        }
        lemma_display_order_unique(rs, p1, q1);
        assert(p =~= seq![p[0]] + p1);
        assert(q =~= seq![q[0]] + q1);
    }
}

fn rank(s: Status) -> (r: u8)
    ensures
        r == status_rank(s),
{
    match s {
        Status::Pass => 0,
        Status::Skipped => 1,
        Status::Warn => 2,
        Status::Fail => 3,
    }
}

fn breadth_of(r: &CheckResult) -> (b: usize)
    ensures
        b == breadth(r@),
{
    proof { reveal_strlit("org-wide"); }
    if (r.status == Status::Fail || r.status == Status::Warn) && crate::text::str_eq(r.summary.as_str(), "org-wide") {
        usize::MAX
    } else {
        r.affected_repos.len()
    }
}

fn before_exec(results: &[CheckResult], i: usize, j: usize) -> (b: bool)
    requires
        i < results@.len(),
        j < results@.len(),
    ensures
        b == listed_before(result_views(results@), i as int, j as int),
{
    let (ri, rj) = (rank(results[i].status), rank(results[j].status));
    let (bi, bj) = (breadth_of(&results[i]), breadth_of(&results[j]));
    ri < rj || (ri == rj && bi < bj) || (ri == rj && bi == bj && i < j)
}

/// The indices of the results in panel order: by status (passing, skipped,
/// warning, failing), then by breadth, then in run order.
pub fn display_order_exec(results: &[CheckResult]) -> (order: Vec<usize>)
    ensures
        ints(order@) == display_order(result_views(results@)),
        is_display_order(result_views(results@), ints(order@)),
        forall|a: int| 0 <= a < order@.len() ==> #[trigger] order@[a] < results@.len(),
{
    let ghost rs = result_views(results@);
    let mut order: Vec<usize> = Vec::new();
    let mut k: usize = 0;
    while k < results.len()
        invariant
            k <= results@.len(),
            rs == result_views(results@),
            forall|x: int| #[trigger] ints(order@).contains(x) <==> 0 <= x < k,
            forall|a: int, b: int| 0 <= a < b < order@.len()
                ==> listed_before(rs, #[trigger] order@[a] as int, #[trigger] order@[b] as int),
            forall|a: int| 0 <= a < order@.len() ==> #[trigger] order@[a] < k,
            k <= results@.len(),
        decreases results@.len() - k,
    {
        let ghost os = order@;
        let mut p: usize = 0;
        while p < order.len() && before_exec(results, order[p], k)
            invariant
                p <= order@.len(),
                os == order@,
                k < results@.len(),
                rs == result_views(results@),
                forall|a: int| 0 <= a < order@.len() ==> #[trigger] order@[a] < k,
                forall|a: int| 0 <= a < p ==> listed_before(rs, #[trigger] os[a] as int, k as int),
            decreases order@.len() - p,
        {
            p = p + 1;
        }
        proof {
            assert forall|a: int| p <= a < os.len() implies listed_before(rs, k as int, #[trigger] os[a] as int) by {
                lemma_before_order(rs, os[p as int] as int, k as int, os[a] as int);
                lemma_before_order(rs, k as int, os[p as int] as int, os[a] as int);
                if a > p {
                    assert(listed_before(rs, os[p as int] as int, os[a] as int));
                }
            }
        }
        order.insert(p, k);
        proof {
            let ns = order@;
            assert(ns =~= os.insert(p as int, k));
            assert forall|a: int, b: int| 0 <= a < b < ns.len()
                implies listed_before(rs, #[trigger] ns[a] as int, #[trigger] ns[b] as int) by {
                if b < p {
                    assert(listed_before(rs, os[a] as int, os[b] as int));
                } else if a < p && b == p {
                } else if a < p && b > p {
                    lemma_before_order(rs, os[a] as int, k as int, os[b - 1] as int);
                } else if a == p {
                } else {
                    assert(listed_before(rs, os[a - 1] as int, os[b - 1] as int));
                }
            }
            let nv = ints(ns);
            let ov = ints(os);
            assert forall|x: int| #[trigger] nv.contains(x) <==> 0 <= x < k + 1 by {
                if nv.contains(x) {
                    let w = choose|w: int| 0 <= w < nv.len() && nv[w] == x;
                    if w < p {
                        assert(ov[w] == x);
                    } else if w > p {
                        assert(ov[w - 1] == x);
                    }
                }
                if 0 <= x < k {
                    assert(ov.contains(x));
                    let w = choose|w: int| 0 <= w < ov.len() && ov[w] == x;
                    if w < p {
                        assert(nv[w] == x);
                    } else {
                        assert(nv[w + 1] == x);
                    }
                }
                if x == k {
                    assert(nv[p as int] == x);
                }
            }
        }
        k = k + 1;
    }
    proof {
        let ov = ints(order@);
        assert forall|a: int, b: int| 0 <= a < b < ov.len() implies listed_before(rs, #[trigger] ov[a], #[trigger] ov[b]) by {
            assert(listed_before(rs, order@[a] as int, order@[b] as int));
        }
        assert(is_display_order(rs, ov));
        let c = display_order(rs);
        assert(is_display_order(rs, c));
        lemma_display_order_unique(rs, c, ov);
    }
    order
}

} // verus!
