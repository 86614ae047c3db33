//! Looking up the first attachment of a given type on a report.

use vstd::prelude::*;

use crate::report::{Attachment, AttachmentType, Report};

verus! {

/// Some attachment in `atts` has type `kind`.
pub open spec fn has_attachment(atts: Seq<Attachment>, kind: AttachmentType) -> bool {
    exists|i: int| 0 <= i < atts.len() && #[trigger] atts[i].kind == kind
}

/// `i` is the position of the first attachment of type `kind` in `atts`.
pub open spec fn is_first_attachment(atts: Seq<Attachment>, kind: AttachmentType, i: int) -> bool {
    &&& 0 <= i < atts.len()
    &&& atts[i].kind == kind
    &&& forall|j: int| 0 <= j < i ==> #[trigger] atts[j].kind != kind
}

/// The first attachment of type `kind` in `atts`, if there is one.
pub open spec fn first_attachment(atts: Seq<Attachment>, kind: AttachmentType) -> Option<Attachment> {
    if has_attachment(atts, kind) {
        Some(atts[choose|i: int| is_first_attachment(atts, kind, i)])
    } else {
        None
    }
}

/// There is at most one first position.
pub proof fn lemma_first_attachment_unique(atts: Seq<Attachment>, kind: AttachmentType, i: int)
    requires
        is_first_attachment(atts, kind, i),
    ensures
        has_attachment(atts, kind),
        first_attachment(atts, kind) == Some(atts[i]),
{
    let j: int = choose|j: int| is_first_attachment(atts, kind, j);
    assert(is_first_attachment(atts, kind, j));
    if j < i {
        assert(atts[j].kind != kind);
    } else if i < j {
        assert(atts[i].kind != kind);
    }
}

/// The position of the first attachment of type `kind`, if there is one.
pub fn find_attachment_index(atts: &Vec<Attachment>, kind: AttachmentType) -> (r: Option<usize>)
    ensures
        r is None <==> !has_attachment(atts@, kind),
        r matches Some(i) ==> is_first_attachment(atts@, kind, i as int),
{
    let mut i: usize = 0;
    while i < atts.len()
        invariant
            i <= atts@.len(),
            forall|j: int| 0 <= j < i ==> #[trigger] atts@[j].kind != kind,
        decreases atts@.len() - i,
    {
        if atts[i].kind == kind {
            return Some(i);
        }
        i = i + 1;
    }
    None
}

/// Finds attachments on a borrowed report.
pub trait ReportRefExt<'a> {
    /// The attachments of the report.
    spec fn attachments_of(self) -> Seq<Attachment>;

    /// The first attachment of type `kind`, if there is one.
    fn find_attachment(self, kind: AttachmentType) -> (r: Option<&'a Attachment>)
        ensures
            r is None <==> !has_attachment(self.attachments_of(), kind),
            r matches Some(a) ==> exists|i: int|
                is_first_attachment(self.attachments_of(), kind, i) && *a
                    == #[trigger] self.attachments_of()[i],
    ;
}

impl<'a> ReportRefExt<'a> for &'a Report {
    open spec fn attachments_of(self) -> Seq<Attachment> {
        self.attachments@
    }

    fn find_attachment(self, kind: AttachmentType) -> (r: Option<&'a Attachment>) {
        match find_attachment_index(&self.attachments, kind) {
            Some(i) => Some(&self.attachments[i]),
            None => None,
        }
    }
}

/// Finds attachments on a report.
pub trait ReportExt {
    /// The attachments of the report.
    spec fn attachment_list(&self) -> Seq<Attachment>;

    /// The first attachment of type `kind`, if there is one.
    fn find_attachment(&self, kind: AttachmentType) -> (r: Option<&Attachment>)
        ensures
            r is None <==> !has_attachment(self.attachment_list(), kind),
            r matches Some(a) ==> exists|i: int|
                is_first_attachment(self.attachment_list(), kind, i) && *a
                    == #[trigger] self.attachment_list()[i],
    ;
}

impl ReportExt for Report {
    open spec fn attachment_list(&self) -> Seq<Attachment> {
        self.attachments@
    }

    fn find_attachment(&self, kind: AttachmentType) -> (r: Option<&Attachment>) {
        ReportRefExt::find_attachment(self, kind)
    }
}

/// Finds attachments on a report for changing them in place.
pub trait ReportMutExt {
    /// The attachments of the report.
    spec fn attachments_in(&self) -> Seq<Attachment>;

    /// The rest of the report, which a change through the returned
    /// reference leaves as it is.
    spec fn without_attachments(&self) -> (String, String, String, Seq<Report>);

    /// The first attachment of type `kind`, if there is one, to change in place.
    fn find_attachment_mut(&mut self, kind: AttachmentType) -> (r: Option<&mut Attachment>)
        ensures
            r is None <==> !has_attachment(old(self).attachments_in(), kind),
            r is None ==> final(self).attachments_in() == old(self).attachments_in(),
            r matches Some(a) ==> exists|i: int|
                is_first_attachment(old(self).attachments_in(), kind, i) && *a
                    == #[trigger] old(self).attachments_in()[i] && final(self).attachments_in()
                    == old(self).attachments_in().update(i, *final(a)),
            final(self).without_attachments() == old(self).without_attachments(),
    ;
}

impl ReportMutExt for Report {
    open spec fn attachments_in(&self) -> Seq<Attachment> {
        self.attachments@
    }

    open spec fn without_attachments(&self) -> (String, String, String, Seq<Report>) {
        (self.context_type_name, self.context_display, self.context_debug, self.children@)
    }

    fn find_attachment_mut(&mut self, kind: AttachmentType) -> (r: Option<&mut Attachment>) {
        match find_attachment_index(&self.attachments, kind) {
            Some(i) => Some(&mut self.attachments[i]),
            None => None,
        }
    }
}

} // verus!
