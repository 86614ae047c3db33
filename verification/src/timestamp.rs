//! Timestamps of report creation: the collector that records them and the
//! handler that renders them as RFC 3339 text.

use vstd::prelude::*;

use crate::handlers::{invisible_attachment_style, Invisible};
use crate::style::{AttachmentFormattingPlacement, AttachmentFormattingStyle, FormattingFunction};

verus! {

/// The RFC 3339 text of the UTC instant `secs` seconds and `nanos`
/// nanoseconds after the Unix epoch, as chrono renders it, or `None` where
/// chrono has no such instant.
pub uninterp spec fn rfc3339_text(secs: int, nanos: int) -> Option<Seq<char>>;

/// The debug rendering of a string: the string quoted, with escapes.
pub uninterp spec fn debug_text(s: Seq<char>) -> Seq<char>;

/// Calls chrono's `DateTime::<Utc>::from_timestamp` and, when it gives an
/// instant, its `to_rfc3339`. The contract claims only that the result is
/// what the name `rfc3339_text` gives for these arguments, the same each time.
#[verifier::external_body]
fn utc_rfc3339(secs: i64, nanos: u32) -> (r: Option<String>)
    ensures
        match r {
            Some(s) => rfc3339_text(secs as int, nanos as int) == Some(s@),
            None => rfc3339_text(secs as int, nanos as int) is None,
        },
{
    match chrono::DateTime::<chrono::Utc>::from_timestamp(secs, nanos) {
        Some(instant) => Some(instant.to_rfc3339()),
        None => None,
    }
}

/// Calls std's `Debug` formatting of a `str`. The contract claims that the
/// result is what the name `debug_text` gives for the text, and that it is
/// quoted; the escaping is left unstated.
#[verifier::external_body]
fn str_debug(s: &str) -> (r: String)
    ensures
        r@ == debug_text(s@),
        r@.len() >= 2,
        r@[0] == '"',
        r@.last() == '"',
{
    format!("{:?}", s)
}

/// The preferences of `ChronoHandler`: inline, with priority 15.
pub open spec fn chrono_style(function: FormattingFunction) -> AttachmentFormattingStyle {
    AttachmentFormattingStyle {
        function,
        placement: AttachmentFormattingPlacement::Inline,
        priority: 15,
    }
}

/// Whatever formatting is requested, a timestamp shown through
/// `ChronoHandler` is placed inline, with priority 15, in the requested
/// formatting; a visible timestamp collector prefers the same, a hidden one
/// is placed hidden.
pub proof fn lemma_chrono_style_fields(function: FormattingFunction)
    ensures
        chrono_style(function).placement == AttachmentFormattingPlacement::Inline,
        chrono_style(function).priority == 15,
        chrono_style(function).function == function,
        invisible_attachment_style(function).placement == AttachmentFormattingPlacement::Hidden,
        invisible_attachment_style(function).priority == i32::MIN,
        invisible_attachment_style(function).function == function,
{
}

/// The attachment handler that renders a timestamp as RFC 3339 text.
pub struct ChronoHandler;

impl ChronoHandler {
    /// The RFC 3339 text of the instant, or `None` where there is no such
    /// instant.
    pub fn display(secs: i64, nanos: u32) -> (r: Option<String>)
        ensures
            match r {
                Some(s) => rfc3339_text(secs as int, nanos as int) == Some(s@),
                None => rfc3339_text(secs as int, nanos as int) is None,
            },
    {
        utc_rfc3339(secs, nanos)
    }

    /// The RFC 3339 text of the instant, debug-rendered, or `None` where
    /// there is no such instant.
    pub fn debug(secs: i64, nanos: u32) -> (r: Option<String>)
        ensures
            match r {
                Some(s) => exists|t: Seq<char>|
                    rfc3339_text(secs as int, nanos as int) == Some(t) && s@ == #[trigger] debug_text(t),
                None => rfc3339_text(secs as int, nanos as int) is None,
            },
    {
        match utc_rfc3339(secs, nanos) {
            Some(text) => {
                let quoted = str_debug(text.as_str());
                Some(quoted)
            },
            None => None,
        }
    }

    /// Keep the requested function, inline, with priority 15.
    pub fn preferred_formatting_style(function: FormattingFunction) -> (s: AttachmentFormattingStyle)
        ensures
            s == chrono_style(function),
    {
        AttachmentFormattingStyle {
            function,
            placement: AttachmentFormattingPlacement::Inline,
            priority: 15,
        }
    }
}

/// The collector that attaches the time a report is created; the attached
/// time is shown, through `ChronoHandler`, only when `VISIBLE` holds, and is
/// otherwise handled by `Invisible`.
pub struct TimestampCollector<const VISIBLE: bool>;

impl<const VISIBLE: bool> TimestampCollector<VISIBLE> {
    /// The preferences of the attached time.
    pub fn preferred_formatting_style(&self, function: FormattingFunction) -> (s: AttachmentFormattingStyle)
        ensures
            VISIBLE ==> s == chrono_style(function),
            !VISIBLE ==> s == invisible_attachment_style(function),
    {
        if VISIBLE {
            ChronoHandler::preferred_formatting_style(function)
        } else {
            Invisible::attachment_preferred_formatting_style(function)
        }
    }

    /// The display rendering of the attached time: RFC 3339 text when
    /// visible, nothing otherwise.
    pub fn display(&self, secs: i64, nanos: u32) -> (r: Option<String>)
        ensures
            VISIBLE ==> match r {
                Some(s) => rfc3339_text(secs as int, nanos as int) == Some(s@),
                None => rfc3339_text(secs as int, nanos as int) is None,
            },
            !VISIBLE ==> (r matches Some(s) && s@ == Seq::<char>::empty()),
    {
        if VISIBLE {
            ChronoHandler::display(secs, nanos)
        } else {
            Some(Invisible::display())
        }
    }
}

} // verus!
