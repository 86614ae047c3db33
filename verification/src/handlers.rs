//! Context and attachment handlers: how a value is rendered and which
//! formatting it prefers, including combinators that override one aspect
//! of an inner handler's preferences.

use vstd::prelude::*;

use crate::style::{
    display_attachment_style, display_context_style, hidden_style, prioritized_style,
    AttachmentFormattingPlacement, AttachmentFormattingStyle, ContextFormattingStyle,
    FormattingFunction,
};

verus! {

/// The lowest of the named priorities.
pub const LOWEST_PRIORITY: i32 = -100;

/// A priority below the default.
pub const LOW_PRIORITY: i32 = -10;

/// A priority above the default.
pub const HIGH_PRIORITY: i32 = 10;

/// The highest of the named priorities.
pub const HIGHEST_PRIORITY: i32 = 100;

/// The attachment preferences of `Invisible`: hidden, with the lowest
/// possible priority.
pub open spec fn invisible_attachment_style(function: FormattingFunction) -> AttachmentFormattingStyle {
    AttachmentFormattingStyle {
        function,
        placement: AttachmentFormattingPlacement::Hidden,
        priority: i32::MIN,
    }
}

/// Hiding an `Invisible` attachment changes nothing: it is hidden already.
pub proof fn lemma_invisible_is_hidden(function: FormattingFunction)
    ensures
        hidden_style(invisible_attachment_style(function)) == invisible_attachment_style(function),
{
}

/// The handler that renders nothing, has no source and is always hidden.
pub struct Invisible;

impl Invisible {
    /// Renders the value with display formatting: nothing.
    pub fn display() -> (s: String)
        ensures
            s@ == Seq::<char>::empty(),
    {
        String::new()
    }

    /// Renders the value with debug formatting: nothing.
    pub fn debug() -> (s: String)
        ensures
            s@ == Seq::<char>::empty(),
    {
        String::new()
    }

    /// Whether a context handled this way has an error source: never.
    pub fn has_source() -> (b: bool)
        ensures
            !b,
    {
        false
    }

    /// As a context handler: keep the requested function, never follow the
    /// source chain.
    pub fn context_preferred_formatting_style(function: FormattingFunction) -> (s: ContextFormattingStyle)
        ensures
            s == (ContextFormattingStyle {
                function,
                follow_source: false,
                follow_source_depth: Some(0),
            }),
    {
        ContextFormattingStyle { function, follow_source: false, follow_source_depth: Some(0) }
    }

    /// As an attachment handler: keep the requested function, hidden, with
    /// the lowest possible priority.
    pub fn attachment_preferred_formatting_style(function: FormattingFunction) -> (s: AttachmentFormattingStyle)
        ensures
            s == invisible_attachment_style(function),
    {
        AttachmentFormattingStyle {
            function,
            placement: AttachmentFormattingPlacement::Hidden,
            priority: i32::MIN,
        }
    }
}

/// The handler combinator that redacts the value in display output and
/// prefers display output; debug output is the inner handler's.
pub struct Redacted;

impl Redacted {
    /// What an attachment of the named type displays as: the text depends on
    /// the type alone, never on the value.
    pub fn attachment_display<T>(_value: &T, value_type: &str) -> (s: String)
        ensures
            s@ == "Redacted attachment of type "@ + value_type@,
    {
        let mut s = String::from_str("Redacted attachment of type ");
        s.append(value_type);
        s
    }

    /// What a context of the named type displays as: the text depends on the
    /// type alone, never on the value.
    pub fn context_display<T>(_value: &T, value_type: &str) -> (s: String)
        ensures
            s@ == "Redacted context of type "@ + value_type@,
    {
        let mut s = String::from_str("Redacted context of type ");
        s.append(value_type);
        s
    }

    /// The inner handler's preferences, with display formatting.
    pub fn attachment_preferred_formatting_style(inner: AttachmentFormattingStyle) -> (s: AttachmentFormattingStyle)
        ensures
            s == display_attachment_style(inner),
    {
        AttachmentFormattingStyle { function: FormattingFunction::Display, ..inner }
    }

    /// The inner handler's preferences, with display formatting.
    pub fn context_preferred_formatting_style(inner: ContextFormattingStyle) -> (s: ContextFormattingStyle)
        ensures
            s == display_context_style(inner),
    {
        ContextFormattingStyle { function: FormattingFunction::Display, ..inner }
    }
}

/// The attachment handler combinator that hides the attachment; everything
/// else is the inner handler's.
pub struct Hidden;

impl Hidden {
    /// The inner handler's preferences, placed hidden.
    pub fn preferred_formatting_style(inner: AttachmentFormattingStyle) -> (s: AttachmentFormattingStyle)
        ensures
            s == hidden_style(inner),
    {
        AttachmentFormattingStyle { placement: AttachmentFormattingPlacement::Hidden, ..inner }
    }
}

/// The attachment handler combinator that sets the priority; everything
/// else is the inner handler's.
pub struct Priority;

impl Priority {
    /// The inner handler's preferences, with the given priority.
    pub fn preferred_formatting_style(inner: AttachmentFormattingStyle, priority: i32) -> (s: AttachmentFormattingStyle)
        ensures
            s == prioritized_style(inner, priority),
    {
        AttachmentFormattingStyle { priority, ..inner }
    }
}

/// The context handler for a whole report used as a context: it passes on
/// the inner report's own preferences.
pub struct ReportAsContextHandler;

impl ReportAsContextHandler {
    /// The contained report's preferences, unchanged.
    pub fn preferred_formatting_style(report_preference: ContextFormattingStyle) -> (s: ContextFormattingStyle)
        ensures
            s == report_preference,
    {
        report_preference
    }
}

} // verus!
