//! Breadth-first iteration over a report and its descendants, with the
//! extension traits that start it.

use std::collections::VecDeque;
use vstd::prelude::*;

use crate::iter::{
    bfs_order, bfs_step, derefs, lemma_bfs_permutes_preorder, option_seq, push_children_reversed,
};
use crate::report::{lemma_preorder_single, preorder, preorder_forest, Report};

verus! {

/// An iterator over reports in breadth-first order: the front report of the
/// queue is yielded and its children are queued at the back, last child first.
pub struct ReportIterBfs<'a> {
    stack: VecDeque<&'a Report>,
}

impl<'a> View for ReportIterBfs<'a> {
    type V = Seq<&'a Report>;

    closed spec fn view(&self) -> Seq<&'a Report> {
        self.stack@
    }
}

impl<'a> ReportIterBfs<'a> {
    /// Creates an iterator whose queue is `stack`, front first.
    pub fn from_raw(stack: VecDeque<&'a Report>) -> (r: Self)
        ensures
            r@ == stack@,
    {
        ReportIterBfs { stack }
    }

    /// The reports this iterator will yield, in order.
    pub open spec fn remaining(&self) -> Seq<Report> {
        bfs_order(derefs(self@))
    }

    /// Yields the front report and queues its children.
    pub fn next(&mut self) -> (r: Option<&'a Report>)
        ensures
            (r is None) == (old(self)@.len() == 0),
            r is None ==> final(self)@ == old(self)@,
            r is Some ==> r == Some(old(self)@[0]) && derefs(final(self)@) == derefs(
                old(self)@.drop_first(),
            ) + r.unwrap().children@.reverse(),
            old(self).remaining() == option_seq(r) + final(self).remaining(),
    {
        let ghost before = self.stack@;
        let cur = match self.stack.pop_front() {
            Some(c) => c,
            None => {
                assert(derefs(before) =~= Seq::<Report>::empty());
                return None;
            },
        };
        let ghost popped = self.stack@;
        push_children_reversed(&mut self.stack, cur);
        proof {
            assert(derefs(before)[0] == *cur);
            assert(derefs(before).drop_first() =~= derefs(popped));
            assert(bfs_step(derefs(before)) =~= derefs(self.stack@));
        }
        Some(cur)
    }

    /// Yields all remaining reports, in order.
    pub fn collect_remaining(&mut self) -> (v: Vec<&'a Report>)
        ensures
            derefs(v@) == old(self).remaining(),
            final(self)@.len() == 0,
    {
        let mut out: Vec<&'a Report> = Vec::new();
        loop
            invariant
                derefs(out@) + self.remaining() == old(self).remaining(),
            ensures
                derefs(out@) == old(self).remaining(),
                self@.len() == 0,
            decreases self.remaining().len(),
        {
            let ghost before = self.remaining();
            let ghost prev = out@;
            match self.next() {
                Some(r) => {
                    out.push(r);
                    assert(derefs(out@) =~= derefs(prev) + seq![*r]);
                    assert(derefs(out@) + self.remaining() =~= derefs(prev) + before);
                },
                None => {
                    assert(option_seq(None) =~= Seq::<Report>::empty());
                    assert(derefs(out@) =~= derefs(out@) + self.remaining());
                    return out;
                },
            }
        }
    }
}

/// Starts a breadth-first iteration from a borrowed report.
pub trait ReportRefIterExt<'a> {
    /// The report that iteration starts from.
    spec fn root(self) -> Report;

    /// Iterates over the report and all its descendants.
    fn iter_reports_bfs(self) -> (it: ReportIterBfs<'a>)
        ensures
            derefs(it@) == seq![self.root()],
            it.remaining().to_multiset() == preorder(self.root()).to_multiset(),
            it.remaining().len() == preorder(self.root()).len(),
    ;

    /// Iterates over the descendants of the report, its children queued first
    /// to last.
    fn iter_sub_reports_bfs(self) -> (it: ReportIterBfs<'a>)
        ensures
            derefs(it@) == self.root().children@,
            it.remaining().to_multiset() == preorder(self.root()).drop_first().to_multiset(),
            it.remaining().len() + 1 == preorder(self.root()).len(),
    ;
}

impl<'a> ReportRefIterExt<'a> for &'a Report {
    open spec fn root(self) -> Report {
        *self
    }

    fn iter_reports_bfs(self) -> (it: ReportIterBfs<'a>) {
        let mut stack: VecDeque<&'a Report> = VecDeque::new();
        stack.push_back(self);
        assert(derefs(stack@) =~= seq![*self]);
        proof {
            lemma_bfs_permutes_preorder(seq![*self]);
        }
        ReportIterBfs::from_raw(stack)
    }

    fn iter_sub_reports_bfs(self) -> (it: ReportIterBfs<'a>) {
        let mut stack: VecDeque<&'a Report> = VecDeque::new();
        let n: usize = self.children.len();
        let mut i: usize = 0;
        while i < n
            invariant
                i <= n,
                n == self.children@.len(),
                derefs(stack@) == self.children@.subrange(0, i as int),
            decreases n - i,
        {
            let ghost prev = stack@;
            stack.push_back(&self.children[i]);
            assert(derefs(stack@) =~= derefs(prev).push(self.children@[i as int]));
            assert(self.children@.subrange(0, i + 1) =~= self.children@.subrange(0, i as int).push(
                self.children@[i as int],
            ));
            i = i + 1;
        }
        assert(self.children@.subrange(0, n as int) =~= self.children@);
        proof {
            lemma_bfs_permutes_preorder(self.children@);
            lemma_preorder_single(*self);
            assert(preorder(*self).drop_first() =~= preorder_forest(self.children@));
        }
        ReportIterBfs::from_raw(stack)
    }
}

/// Starts a breadth-first iteration from a report.
pub trait ReportIterExt {
    /// The report that iteration starts from.
    spec fn root_report(&self) -> Report;

    /// Iterates over the report and all its descendants.
    fn iter_reports_bfs(&self) -> (it: ReportIterBfs<'_>)
        ensures
            derefs(it@) == seq![self.root_report()],
            it.remaining().to_multiset() == preorder(self.root_report()).to_multiset(),
    ;

    /// Iterates over the descendants of the report, its children queued first
    /// to last.
    fn iter_sub_reports_bfs(&self) -> (it: ReportIterBfs<'_>)
        ensures
            derefs(it@) == self.root_report().children@,
            it.remaining().to_multiset() == preorder(self.root_report()).drop_first().to_multiset(),
    ;
}

impl ReportIterExt for Report {
    open spec fn root_report(&self) -> Report {
        *self
    }

    fn iter_reports_bfs(&self) -> (it: ReportIterBfs<'_>) {
        ReportRefIterExt::iter_reports_bfs(self)
    }

    fn iter_sub_reports_bfs(&self) -> (it: ReportIterBfs<'_>) {
        ReportRefIterExt::iter_sub_reports_bfs(self)
    }
}

} // verus!
