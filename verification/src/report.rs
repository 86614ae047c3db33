//! The report tree: a context, its attachments and its child reports.

use vstd::prelude::*;

verus! {

/// What an attachment holds, as far as report tooling tells attachments apart.
#[derive(PartialEq, Eq, Structural, Clone, Copy, Debug)]
pub enum AttachmentType {
    /// The source location at which a report was created.
    Location,
    /// A captured backtrace.
    Backtrace,
    /// Any other attachment, identified by a tag of its type.
    Other(u64),
}

/// One attachment of a report, with its rendered texts.
pub struct Attachment {
    pub kind: AttachmentType,
    /// The attachment rendered with its display formatting.
    pub display: String,
    /// The attachment rendered with its debug formatting.
    pub debug: String,
}

/// A report: its current context, its attachments and its child reports.
pub struct Report {
    /// The name of the type of the current context.
    pub context_type_name: String,
    /// The current context rendered with display formatting.
    pub context_display: String,
    /// The current context rendered with debug formatting.
    pub context_debug: String,
    pub attachments: Vec<Attachment>,
    pub children: Vec<Report>,
}

/// The reports of a forest in depth-first pre-order: each tree's root, then
/// its children's trees from first to last, then the following trees.
pub open spec fn preorder_forest(s: Seq<Report>) -> Seq<Report>
    decreases s,
{
    if s.len() == 0 {
        seq![]
    } else {
        proof {
            broadcast use vstd::seq::axiom_seq_subrange_decreases;
        }
        seq![s[0]] + preorder_forest(s[0].children@) + preorder_forest(s.drop_first())
    }
}

/// A report followed by all its descendants in depth-first pre-order.
pub open spec fn preorder(r: Report) -> Seq<Report> {
    preorder_forest(seq![r])
}

/// The number of reports in a forest, descendants included.
pub open spec fn forest_size(s: Seq<Report>) -> nat {
    preorder_forest(s).len()
}

/// Pre-order of a concatenation is the concatenation of pre-orders.
pub proof fn lemma_preorder_forest_append(a: Seq<Report>, b: Seq<Report>)
    ensures
        preorder_forest(a + b) == preorder_forest(a) + preorder_forest(b),
    decreases a.len(),
{
    if a.len() == 0 {
        assert(a + b =~= b);
        assert(preorder_forest(a) =~= seq![]);
        assert(preorder_forest(a) + preorder_forest(b) =~= preorder_forest(b));
    } else {
        let ab = a + b;
        assert(ab[0] == a[0]);
        assert(ab.drop_first() =~= a.drop_first() + b);
        lemma_preorder_forest_append(a.drop_first(), b);
        assert(preorder_forest(ab) =~= seq![a[0]] + preorder_forest(a[0].children@)
            + preorder_forest(a.drop_first()) + preorder_forest(b));
    }
}

/// The pre-order of a single report starts with it, then its children's trees.
pub proof fn lemma_preorder_single(r: Report)
    ensures
        preorder(r) == seq![r] + preorder_forest(r.children@),
{
    let s = seq![r];
    assert(s.drop_first() =~= Seq::<Report>::empty());
    assert(preorder_forest(s.drop_first()) =~= seq![]);
    assert(preorder(r) =~= seq![r] + preorder_forest(r.children@));
}

/// Reversing a forest keeps the reports it holds, each as often.
pub proof fn lemma_preorder_forest_reverse_multiset(s: Seq<Report>)
    ensures
        preorder_forest(s.reverse()).to_multiset() == preorder_forest(s).to_multiset(),
        forest_size(s.reverse()) == forest_size(s),
    decreases s.len(),
{
    broadcast use vstd::seq_lib::group_to_multiset_ensures;
    if s.len() == 0 {
        assert(s.reverse() =~= s);
    } else {
        let init = s.drop_last();
        let last = seq![s.last()];
        assert(s =~= init + last);
        assert(s.reverse() =~= last + init.reverse());
        lemma_preorder_forest_reverse_multiset(init);
        lemma_preorder_forest_append(init, last);
        lemma_preorder_forest_append(last, init.reverse());
        vstd::seq_lib::lemma_multiset_commutative(preorder_forest(init), preorder_forest(last));
        vstd::seq_lib::lemma_multiset_commutative(
            preorder_forest(last),
            preorder_forest(init.reverse()),
        );
    }
}

} // verus!
