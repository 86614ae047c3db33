//! How contexts and attachments prefer to be rendered in a report.

use vstd::prelude::*;

verus! {

/// Whether a value prefers display or debug formatting.
#[derive(Clone, Copy, PartialEq, Eq, Structural, Debug)]
pub enum FormattingFunction {
    Display,
    Debug,
}

/// Where an attachment prefers to be placed in a report.
#[derive(Clone, Copy, PartialEq, Eq, Debug)]
pub enum AttachmentFormattingPlacement {
    /// Inline with the error message.
    Inline,
    /// Inline, below a header.
    InlineWithHeader { header: &'static str },
    /// In an appendix of the given name.
    Appendix { appendix_name: &'static str },
    /// Not shown, but counted.
    Opaque,
    /// Not shown at all.
    Hidden,
}

/// The formatting preferences of an attachment.
#[derive(Clone, Copy, Debug)]
pub struct AttachmentFormattingStyle {
    pub placement: AttachmentFormattingPlacement,
    pub function: FormattingFunction,
    /// Higher priorities prefer to be printed earlier.
    pub priority: i32,
}

/// The formatting preferences of a context.
#[derive(Clone, Copy, Debug)]
pub struct ContextFormattingStyle {
    pub function: FormattingFunction,
    /// Whether the error source chain is followed.
    pub follow_source: bool,
    /// How deep the source chain is followed; `None` is unlimited.
    pub follow_source_depth: Option<usize>,
}

/// `style` with its placement replaced by `Hidden`.
pub open spec fn hidden_style(style: AttachmentFormattingStyle) -> AttachmentFormattingStyle {
    AttachmentFormattingStyle { placement: AttachmentFormattingPlacement::Hidden, ..style }
}

/// `style` with its priority replaced by `priority`.
pub open spec fn prioritized_style(style: AttachmentFormattingStyle, priority: i32) -> AttachmentFormattingStyle {
    AttachmentFormattingStyle { priority, ..style }
}

/// `style` with its formatting function replaced by display formatting.
pub open spec fn display_attachment_style(style: AttachmentFormattingStyle) -> AttachmentFormattingStyle {
    AttachmentFormattingStyle { function: FormattingFunction::Display, ..style }
}

/// `style` with its formatting function replaced by display formatting.
pub open spec fn display_context_style(style: ContextFormattingStyle) -> ContextFormattingStyle {
    ContextFormattingStyle { function: FormattingFunction::Display, ..style }
}

/// Hiding sets the placement to `Hidden` and keeps the function and the
/// priority, whatever the style.
pub proof fn lemma_hidden_style_fields(s: AttachmentFormattingStyle)
    ensures
        hidden_style(s).placement == AttachmentFormattingPlacement::Hidden,
        hidden_style(s).function == s.function,
        hidden_style(s).priority == s.priority,
{
}

/// Setting a priority gives exactly that priority, negative or not, and
/// keeps the placement and the function.
pub proof fn lemma_prioritized_style_fields(s: AttachmentFormattingStyle, p: i32)
    ensures
        prioritized_style(s, p).priority == p,
        prioritized_style(s, p).placement == s.placement,
        prioritized_style(s, p).function == s.function,
{
}

/// Redacting an attachment style sets display formatting and keeps the
/// placement and the priority.
pub proof fn lemma_display_attachment_style_fields(s: AttachmentFormattingStyle)
    ensures
        display_attachment_style(s).function == FormattingFunction::Display,
        display_attachment_style(s).placement == s.placement,
        display_attachment_style(s).priority == s.priority,
{
}

/// Redacting a context style sets display formatting and keeps how the
/// source chain is followed.
pub proof fn lemma_display_context_style_fields(s: ContextFormattingStyle)
    ensures
        display_context_style(s).function == FormattingFunction::Display,
        display_context_style(s).follow_source == s.follow_source,
        display_context_style(s).follow_source_depth == s.follow_source_depth,
{
}

/// Hiding twice is hiding once; the last priority set wins; hiding,
/// setting a priority and switching to display formatting each change one
/// field, so they commute.
pub proof fn lemma_style_overrides_commute(s: AttachmentFormattingStyle, p: i32, q: i32)
    ensures
        hidden_style(hidden_style(s)) == hidden_style(s),
        prioritized_style(prioritized_style(s, p), q) == prioritized_style(s, q),
        display_attachment_style(display_attachment_style(s)) == display_attachment_style(s),
        hidden_style(prioritized_style(s, p)) == prioritized_style(hidden_style(s), p),
        hidden_style(display_attachment_style(s)) == display_attachment_style(hidden_style(s)),
        prioritized_style(display_attachment_style(s), p) == display_attachment_style(
            prioritized_style(s, p),
        ),
{
}

} // verus!
