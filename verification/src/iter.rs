//! Iterators over a report and all its descendant reports.

use std::collections::VecDeque;
use std::marker::PhantomData;
use vstd::prelude::*;

use crate::report::{forest_size, preorder, preorder_forest, lemma_preorder_forest_append, lemma_preorder_forest_reverse_multiset, Report};

verus! {

/// The reports that a sequence of references points to.
pub open spec fn derefs<'a>(s: Seq<&'a Report>) -> Seq<Report> {
    s.map_values(|r: &'a Report| *r)
}

/// What a depth-first traversal yields from a stack whose top is its last
/// element: the pre-order of each tree on it, from the top down.
pub open spec fn dfs_order<'a>(stack: Seq<&'a Report>) -> Seq<Report> {
    preorder_forest(derefs(stack).reverse())
}

/// What a breadth-first traversal yields from a queue whose front is its
/// first element: the front report, then what the queue yields once the
/// front is removed and its children are added at the back, last child first.
pub open spec fn bfs_order(q: Seq<Report>) -> Seq<Report>
    decreases forest_size(q),
{
    if q.len() == 0 {
        seq![]
    } else {
        proof {
            lemma_bfs_step_size(q);
        }
        seq![q[0]] + bfs_order(bfs_step(q))
    }
}

/// The queue after one breadth-first step.
pub open spec fn bfs_step(q: Seq<Report>) -> Seq<Report>
    recommends
        q.len() > 0,
{
    q.drop_first() + q[0].children@.reverse()
}

/// The sequence holding the value of an option, or nothing.
pub open spec fn option_seq<'a>(r: Option<&'a Report>) -> Seq<Report> {
    match r {
        Some(x) => seq![*x],
        None => seq![],
    }
}

/// One breadth-first step removes exactly one report from the forest.
pub proof fn lemma_bfs_step_size(q: Seq<Report>)
    requires
        q.len() > 0,
    ensures
        forest_size(bfs_step(q)) + 1 == forest_size(q),
{
    let ch = q[0].children@;
    lemma_preorder_forest_append(q.drop_first(), ch.reverse());
    lemma_preorder_forest_reverse_multiset(ch);
}

/// Removing the top of a stack and pushing its children, last child first,
/// leaves what the depth-first traversal yields after the top.
pub proof fn lemma_dfs_step<'a>(popped: Seq<&'a Report>, cur: Report, after: Seq<&'a Report>)
    requires
        derefs(after) == derefs(popped) + cur.children@.reverse(),
    ensures
        dfs_order(popped.push(&cur)) == seq![cur] + dfs_order(after),
{
    let p = derefs(popped);
    let ch = cur.children@;
    assert(derefs(popped.push(&cur)) =~= p.push(cur));
    assert(p.push(cur).reverse() =~= seq![cur] + p.reverse());
    assert((p + ch.reverse()).reverse() =~= ch + p.reverse());
    lemma_preorder_forest_append(seq![cur], p.reverse());
    lemma_preorder_forest_append(ch, p.reverse());
    let one = seq![cur];
    assert(one.drop_first() =~= Seq::<Report>::empty());
    assert(preorder_forest(one.drop_first()) =~= seq![]);
    assert(preorder_forest(one) =~= seq![cur] + preorder_forest(ch));
}

/// Breadth-first traversal visits every report of the forest exactly as
/// often as depth-first pre-order does: the two orders are permutations of
/// each other.
pub proof fn lemma_bfs_permutes_preorder(q: Seq<Report>)
    ensures
        bfs_order(q).to_multiset() == preorder_forest(q).to_multiset(),
        bfs_order(q).len() == forest_size(q),
    decreases forest_size(q),
{
    broadcast use vstd::seq_lib::group_to_multiset_ensures;
    if q.len() == 0 {
        assert(preorder_forest(q) =~= seq![]);
    } else {
        let next = bfs_step(q);
        let ch = q[0].children@;
        lemma_bfs_step_size(q);
        lemma_bfs_permutes_preorder(next);
        lemma_preorder_forest_append(q.drop_first(), ch.reverse());
        lemma_preorder_forest_reverse_multiset(ch);
        let head = seq![q[0]];
        vstd::seq_lib::lemma_multiset_commutative(head, bfs_order(next));
        vstd::seq_lib::lemma_multiset_commutative(
            preorder_forest(q.drop_first()),
            preorder_forest(ch.reverse()),
        );
        let pre = preorder_forest(q);
        assert(pre =~= head + preorder_forest(ch) + preorder_forest(q.drop_first()));
        vstd::seq_lib::lemma_multiset_commutative(head + preorder_forest(ch), preorder_forest(q.drop_first()));
        vstd::seq_lib::lemma_multiset_commutative(head, preorder_forest(ch));
        assert(bfs_order(q).to_multiset() =~= pre.to_multiset());
    }
}

/// A depth-first traversal started from one report yields that report and
/// all its descendants in pre-order.
pub proof fn lemma_dfs_from_report<'a>(r: &'a Report)
    ensures
        dfs_order(seq![r]) == preorder(*r),
{
    assert(derefs(seq![r]).reverse() =~= seq![*r]);
}

/// A depth-first traversal started from a report's children, last child on
/// top, yields the report's pre-order without the report itself.
pub proof fn lemma_dfs_from_children<'a>(r: &'a Report, stack: Seq<&'a Report>)
    requires
        derefs(stack) == r.children@.reverse(),
    ensures
        dfs_order(stack) == preorder(*r).drop_first(),
{
    crate::report::lemma_preorder_single(*r);
    assert(derefs(stack).reverse() =~= r.children@);
    assert(preorder(*r).drop_first() =~= preorder_forest(r.children@));
}

/// A traversal order: which end of the pending buffer the next report is
/// taken from.
pub trait ReportIterTraversalStrategy {
    /// Whether the next report is taken from the back of the buffer.
    spec fn pops_back() -> bool;

    /// Takes the next report to visit out of the buffer.
    fn pop<'a>(it: &mut VecDeque<&'a Report>) -> (r: Option<&'a Report>)
        ensures
            old(it)@.len() == 0 ==> r is None && final(it)@ == old(it)@,
            old(it)@.len() > 0 && Self::pops_back() ==> r == Some(old(it)@.last())
                && final(it)@ == old(it)@.drop_last(),
            old(it)@.len() > 0 && !Self::pops_back() ==> r == Some(old(it)@[0])
                && final(it)@ == old(it)@.drop_first(),
    ;
}

/// Depth-first traversal: the next report is taken from the back.
#[derive(Clone, Copy, PartialEq, Eq)]
pub struct DFS;

/// Breadth-first traversal: the next report is taken from the front.
#[derive(Clone, Copy, PartialEq, Eq)]
pub struct BFS;

impl ReportIterTraversalStrategy for DFS {
    open spec fn pops_back() -> bool {
        true
    }

    fn pop<'a>(it: &mut VecDeque<&'a Report>) -> (r: Option<&'a Report>) {
        it.pop_back()
    }
}

impl ReportIterTraversalStrategy for BFS {
    open spec fn pops_back() -> bool {
        false
    }

    fn pop<'a>(it: &mut VecDeque<&'a Report>) -> (r: Option<&'a Report>) {
        it.pop_front()
    }
}

/// What a traversal of the given strategy yields from a pending buffer.
pub open spec fn traversal_order<'a, S: ReportIterTraversalStrategy>(
    buffer: Seq<&'a Report>,
) -> Seq<Report> {
    if S::pops_back() {
        dfs_order(buffer)
    } else {
        bfs_order(derefs(buffer))
    }
}

/// Appends the children of `cur` to the back of `buffer`, last child first.
pub(crate) fn push_children_reversed<'a>(buffer: &mut VecDeque<&'a Report>, cur: &'a Report)
    ensures
        final(buffer)@.len() == old(buffer)@.len() + cur.children@.len(),
        derefs(final(buffer)@) == derefs(old(buffer)@) + cur.children@.reverse(),
{
    let n: usize = cur.children.len();
    let mut i: usize = n;
    while i > 0
        invariant
            i <= n,
            n == cur.children@.len(),
            buffer@.len() == old(buffer)@.len() + (n - i),
            derefs(buffer@) == derefs(old(buffer)@) + cur.children@.subrange(i as int, n as int).reverse(),
        decreases i,
    {
        i = i - 1;
        let ghost prev = buffer@;
        buffer.push_back(&cur.children[i]);
        assert(derefs(buffer@) =~= derefs(prev).push(cur.children@[i as int]));
        assert(cur.children@.subrange(i as int, n as int).reverse() =~= cur.children@.subrange(
            (i + 1) as int,
            n as int,
        ).reverse().push(cur.children@[i as int]));
        assert(derefs(buffer@) =~= derefs(old(buffer)@) + cur.children@.subrange(
            i as int,
            n as int,
        ).reverse());
    }
    assert(cur.children@.subrange(0, n as int) =~= cur.children@);
}

/// An iterator over reports, visiting each pending report and then its
/// descendants in the order that the strategy `S` gives.
pub struct ReportIter<'a, S: ReportIterTraversalStrategy> {
    buffer: VecDeque<&'a Report>,
    _strategy: PhantomData<S>,
}

impl<'a, S: ReportIterTraversalStrategy> View for ReportIter<'a, S> {
    type V = Seq<&'a Report>;

    closed spec fn view(&self) -> Seq<&'a Report> {
        self.buffer@
    }
}

impl<'a, S: ReportIterTraversalStrategy> ReportIter<'a, S> {
    /// Creates an iterator whose pending reports are `buffer`.
    pub fn from_buffer(buffer: VecDeque<&'a Report>) -> (r: Self)
        ensures
            r@ == buffer@,
    {
        ReportIter { buffer, _strategy: PhantomData }
    }

    /// The reports this iterator will yield, in order.
    pub open spec fn remaining(&self) -> Seq<Report> {
        traversal_order::<S>(self@)
    }

    /// Yields the next report and schedules its children.
    pub fn next(&mut self) -> (r: Option<&'a Report>)
        ensures
            (r is None) == (old(self)@.len() == 0),
            r is None ==> final(self)@ == old(self)@,
            old(self).remaining() == option_seq(r) + final(self).remaining(),
            r is Some && S::pops_back() ==> r == Some(old(self)@.last()) && derefs(final(self)@)
                == derefs(old(self)@.drop_last()) + r.unwrap().children@.reverse(),
            r is Some && !S::pops_back() ==> r == Some(old(self)@[0]) && derefs(final(self)@)
                == derefs(old(self)@.drop_first()) + r.unwrap().children@.reverse(),
    {
        let ghost before = self.buffer@;
        let cur = match S::pop(&mut self.buffer) {
            Some(c) => c,
            None => {
                assert(derefs(before) =~= Seq::<Report>::empty());
                assert(before.reverse() =~= before);
                assert(derefs(before).reverse() =~= Seq::<Report>::empty());
                return None;
            },
        };
        let ghost popped = self.buffer@;
        push_children_reversed(&mut self.buffer, cur);
        proof {
            if S::pops_back() {
                assert(before =~= popped.push(cur));
                lemma_dfs_step(popped, *cur, self.buffer@);
            } else {
                assert(derefs(before)[0] == *cur);
                assert(derefs(before).drop_first() =~= derefs(popped));
                assert(bfs_step(derefs(before)) =~= derefs(self.buffer@));
            }
        }
        Some(cur)
    }

    /// Yields all remaining reports, in order.
    pub fn collect_remaining(&mut self) -> (v: Vec<&'a Report>)
        ensures
            derefs(v@) == old(self).remaining(),
            final(self)@.len() == 0,
    {
        let mut out: Vec<&'a Report> = Vec::new();
        loop
            invariant
                derefs(out@) + self.remaining() == old(self).remaining(),
            ensures
                derefs(out@) == old(self).remaining(),
                self@.len() == 0,
            decreases self.remaining().len(),
        {
            let ghost before = self.remaining();
            let ghost prev = out@;
            match self.next() {
                Some(r) => {
                    out.push(r);
                    assert(derefs(out@) =~= derefs(prev) + seq![*r]);
                    assert(derefs(out@) + self.remaining() =~= derefs(prev) + before);
                },
                None => {
                    assert(self.remaining() =~= before);
                    assert(option_seq(None) =~= Seq::<Report>::empty());
                    assert(derefs(out@) =~= derefs(out@) + self.remaining());
                    return out;
                },
            }
        }
    }
}

impl Report {
    /// An iterator over this report and all its descendants.
    pub fn iter_reports<'a, S: ReportIterTraversalStrategy>(&'a self) -> (it: ReportIter<'a, S>)
        ensures
            derefs(it@) == seq![*self],
            S::pops_back() ==> it.remaining() == preorder(*self),
            !S::pops_back() ==> it.remaining().to_multiset() == preorder(*self).to_multiset(),
            it.remaining().len() == preorder(*self).len(),
    {
        let mut buffer: VecDeque<&'a Report> = VecDeque::new();
        buffer.push_back(self);
        assert(derefs(buffer@) =~= seq![*self]);
        proof {
            assert(buffer@ =~= seq![self]);
            lemma_dfs_from_report(self);
            lemma_bfs_permutes_preorder(seq![*self]);
        }
        ReportIter::from_buffer(buffer)
    }

    /// An iterator over the descendants of this report, not the report itself.
    pub fn iter_sub_reports<'a, S: ReportIterTraversalStrategy>(&'a self) -> (it: ReportIter<'a, S>)
        ensures
            derefs(it@) == self.children@.reverse(),
            S::pops_back() ==> it.remaining() == preorder(*self).drop_first(),
            !S::pops_back() ==> it.remaining().to_multiset() == preorder(*self).drop_first().to_multiset(),
            it.remaining().len() + 1 == preorder(*self).len(),
    {
        let mut buffer: VecDeque<&'a Report> = VecDeque::new();
        push_children_reversed(&mut buffer, self);
        assert(derefs(buffer@) =~= self.children@.reverse());
        proof {
            lemma_dfs_from_children(self, buffer@);
            lemma_bfs_permutes_preorder(self.children@.reverse());
            lemma_preorder_forest_reverse_multiset(self.children@);
            crate::report::lemma_preorder_single(*self);
            assert(preorder(*self).drop_first() =~= preorder_forest(self.children@));
        }
        ReportIter::from_buffer(buffer)
    }
}


/// The reports of `s`, each paired with depth `d`.
pub open spec fn with_depth(s: Seq<Report>, d: nat) -> Seq<(Report, nat)> {
    s.map_values(|r: Report| (r, d))
}

/// The reports of a sequence of reports paired with depths.
pub open spec fn reports_of(q: Seq<(Report, nat)>) -> Seq<Report> {
    q.map_values(|p: (Report, nat)| p.0)
}

/// One breadth-first step on a queue of reports paired with their depths:
/// the front report's children join the back, one level deeper.
pub open spec fn bfs_step_depth(q: Seq<(Report, nat)>) -> Seq<(Report, nat)>
    recommends
        q.len() > 0,
{
    q.drop_first() + with_depth(q[0].0.children@.reverse(), q[0].1 + 1)
}

/// Dropping the depths of a breadth-first step on paired reports gives the
/// breadth-first step on the reports.
pub proof fn lemma_reports_of_step(q: Seq<(Report, nat)>)
    requires
        q.len() > 0,
    ensures
        reports_of(bfs_step_depth(q)) == bfs_step(reports_of(q)),
{
    assert(reports_of(bfs_step_depth(q)) =~= bfs_step(reports_of(q)));
}

/// What a breadth-first traversal yields from a queue of reports paired
/// with their depths, each report with its depth.
pub open spec fn bfs_with_depth(q: Seq<(Report, nat)>) -> Seq<(Report, nat)>
    decreases forest_size(reports_of(q)),
{
    if q.len() == 0 {
        seq![]
    } else {
        proof {
            lemma_reports_of_step(q);
            lemma_bfs_step_size(reports_of(q));
        }
        seq![q[0]] + bfs_with_depth(bfs_step_depth(q))
    }
}

/// The depths in `s` never decrease.
pub open spec fn depth_sorted(s: Seq<(Report, nat)>) -> bool {
    forall|i: int, j: int| 0 <= i <= j < s.len() ==> #[trigger] s[i].1 <= #[trigger] s[j].1
}

/// A queue of one level and the next: depths never decrease, and none is
/// more than one below the front's.
pub open spec fn is_level_queue(q: Seq<(Report, nat)>) -> bool {
    &&& depth_sorted(q)
    &&& forall|i: int| 0 <= i < q.len() ==> #[trigger] q[i].1 <= q[0].1 + 1
}

/// The reports that a breadth-first traversal yields with their depths are
/// the ones `bfs_order` gives.
pub proof fn lemma_bfs_with_depth_reports(q: Seq<(Report, nat)>)
    ensures
        reports_of(bfs_with_depth(q)) == bfs_order(reports_of(q)),
    decreases forest_size(reports_of(q)),
{
    if q.len() > 0 {
        lemma_reports_of_step(q);
        lemma_bfs_step_size(reports_of(q));
        lemma_bfs_with_depth_reports(bfs_step_depth(q));
        assert(reports_of(q)[0] == q[0].0);
        assert(reports_of(bfs_with_depth(q)) =~= seq![q[0].0] + reports_of(bfs_with_depth(bfs_step_depth(q))));
    } else {
        assert(reports_of(q) =~= Seq::<Report>::empty());
        assert(reports_of(bfs_with_depth(q)) =~= Seq::<Report>::empty());
    }
}

/// A breadth-first step keeps a queue of one level and the next.
pub proof fn lemma_bfs_step_keeps_levels(q: Seq<(Report, nat)>)
    requires
        q.len() > 0,
        is_level_queue(q),
    ensures
        is_level_queue(bfs_step_depth(q)),
        forall|i: int| 0 <= i < bfs_step_depth(q).len() ==> #[trigger] bfs_step_depth(q)[i].1 >= q[0].1,
{
    let next = bfs_step_depth(q);
    let d = q[0].1;
    let k = q.len() - 1;
    assert forall|i: int| 0 <= i < next.len() implies #[trigger] next[i].1 >= d && next[i].1 <= d + 1 by {
        if i < k {
            assert(next[i] == q[i + 1]);
            assert(q[0].1 <= q[i + 1].1);
        }
    }
    assert forall|i: int, j: int| 0 <= i <= j < next.len() implies #[trigger] next[i].1 <= #[trigger] next[j].1 by {
        if j < k {
            assert(next[i] == q[i + 1]);
            assert(next[j] == q[j + 1]);
            assert(q[i + 1].1 <= q[j + 1].1);
        } else if i >= k {
            assert(next[i].1 == d + 1);
            assert(next[j].1 == d + 1);
        } else {
            assert(next[j].1 == d + 1);
        }
    }
    if next.len() > 0 {
        assert(next[0].1 >= d);
    }
}

/// From a queue of one level and the next, a breadth-first traversal yields
/// reports in order of depth: every report of one depth before any report
/// of a greater depth. It starts with the front of the queue.
pub proof fn lemma_bfs_depth_nondecreasing(q: Seq<(Report, nat)>)
    requires
        is_level_queue(q),
    ensures
        depth_sorted(bfs_with_depth(q)),
        q.len() > 0 ==> bfs_with_depth(q)[0] == q[0],
        forall|i: int| 0 <= i < bfs_with_depth(q).len() ==> #[trigger] bfs_with_depth(q)[i].1 >= q[0].1,
    decreases forest_size(reports_of(q)),
{
    if q.len() > 0 {
        let next = bfs_step_depth(q);
        lemma_reports_of_step(q);
        lemma_bfs_step_size(reports_of(q));
        lemma_bfs_step_keeps_levels(q);
        lemma_bfs_depth_nondecreasing(next);
        let rest = bfs_with_depth(next);
        let out = bfs_with_depth(q);
        assert(out =~= seq![q[0]] + rest);
        assert forall|i: int| 0 <= i < rest.len() implies #[trigger] rest[i].1 >= q[0].1 by {
            assert(rest[i].1 >= next[0].1);
            assert(next[0].1 >= q[0].1);
        }
        assert forall|i: int, j: int| 0 <= i <= j < out.len() implies #[trigger] out[i].1 <= #[trigger] out[j].1 by {
            if i == 0 {
                if j > 0 {
                    assert(out[j] == rest[j - 1]);
                }
            } else {
                assert(out[i] == rest[i - 1]);
                assert(out[j] == rest[j - 1]);
            }
        }
        assert forall|i: int| 0 <= i < out.len() implies #[trigger] out[i].1 >= q[0].1 by {
            if i > 0 {
                assert(out[i] == rest[i - 1]);
            }
        }
    }
}

/// A breadth-first traversal from one report yields that report first, at
/// depth zero, and then every report in order of depth below it, the depth
/// of a child being one more than its parent's: every report of one depth
/// comes before any report of a greater depth.
pub proof fn lemma_bfs_from_report_by_depth(r: Report)
    ensures
        reports_of(bfs_with_depth(seq![(r, 0nat)])) == bfs_order(seq![r]),
        depth_sorted(bfs_with_depth(seq![(r, 0nat)])),
        bfs_with_depth(seq![(r, 0nat)])[0] == (r, 0nat),
{
    let q = seq![(r, 0nat)];
    assert(reports_of(q) =~= seq![r]);
    lemma_bfs_with_depth_reports(q);
    lemma_bfs_depth_nondecreasing(q);
}

/// A breadth-first traversal from a report's children, all at depth one,
/// yields the descendants in order of depth.
pub proof fn lemma_bfs_from_children_by_depth(children: Seq<Report>)
    ensures
        reports_of(bfs_with_depth(with_depth(children, 1))) == bfs_order(children),
        depth_sorted(bfs_with_depth(with_depth(children, 1))),
{
    let q = with_depth(children, 1);
    assert(reports_of(q) =~= children);
    lemma_bfs_with_depth_reports(q);
    lemma_bfs_depth_nondecreasing(q);
}

} // verus!
