use rootcause_extras::alternate::AlternateHandlerHook;
use rootcause_extras::handlers::{
    Hidden, Invisible, Priority, Redacted, ReportAsContextHandler, HIGHEST_PRIORITY, HIGH_PRIORITY,
    LOWEST_PRIORITY, LOW_PRIORITY,
};
use rootcause_extras::style::{
    AttachmentFormattingPlacement, AttachmentFormattingStyle, ContextFormattingStyle,
    FormattingFunction,
};
use rootcause_extras::timestamp::{ChronoHandler, TimestampCollector};

fn appendix_debug() -> AttachmentFormattingStyle {
    AttachmentFormattingStyle {
        placement: AttachmentFormattingPlacement::Appendix { appendix_name: "Details" },
        function: FormattingFunction::Debug,
        priority: 3,
    }
}

#[test]
fn invisible_renders_nothing_and_hides() {
    assert_eq!(Invisible::display(), "");
    assert_eq!(Invisible::debug(), "");
    assert!(!Invisible::has_source());
    let s = Invisible::attachment_preferred_formatting_style(FormattingFunction::Debug);
    assert_eq!(s.placement, AttachmentFormattingPlacement::Hidden);
    assert_eq!(s.function, FormattingFunction::Debug);
    assert_eq!(s.priority, i32::MIN);
    let c = Invisible::context_preferred_formatting_style(FormattingFunction::Display);
    assert_eq!(c.function, FormattingFunction::Display);
    assert!(!c.follow_source);
    assert_eq!(c.follow_source_depth, Some(0));
}

#[test]
fn redacted_texts_and_styles() {
    assert_eq!(Redacted::attachment_display(&"hunter2", "Password"), "Redacted attachment of type Password");
    assert_eq!(Redacted::attachment_display(&"letmein", "Password"), "Redacted attachment of type Password");
    assert_eq!(Redacted::context_display(&42u32, "Secret"), "Redacted context of type Secret");
    let s = Redacted::attachment_preferred_formatting_style(appendix_debug());
    assert_eq!(s.function, FormattingFunction::Display);
    assert_eq!(s.placement, AttachmentFormattingPlacement::Appendix { appendix_name: "Details" });
    assert_eq!(s.priority, 3);
    let c = Redacted::context_preferred_formatting_style(ContextFormattingStyle {
        function: FormattingFunction::Debug,
        follow_source: true,
        follow_source_depth: None,
    });
    assert_eq!(c.function, FormattingFunction::Display);
    assert!(c.follow_source);
    assert_eq!(c.follow_source_depth, None);
}

#[test]
fn hidden_and_priority_override_one_field() {
    let h = Hidden::preferred_formatting_style(appendix_debug());
    assert_eq!(h.placement, AttachmentFormattingPlacement::Hidden);
    assert_eq!(h.function, FormattingFunction::Debug);
    assert_eq!(h.priority, 3);
    let p = Priority::preferred_formatting_style(appendix_debug(), HIGH_PRIORITY);
    assert_eq!(p.priority, 10);
    assert_eq!(p.function, FormattingFunction::Debug);
    assert_eq!((LOWEST_PRIORITY, LOW_PRIORITY, HIGHEST_PRIORITY), (-100, -10, 100));
    let hp = Hidden::preferred_formatting_style(Priority::preferred_formatting_style(appendix_debug(), 5));
    let ph = Priority::preferred_formatting_style(Hidden::preferred_formatting_style(appendix_debug()), 5);
    assert_eq!((hp.placement, hp.priority), (ph.placement, ph.priority));
}

#[test]
fn report_as_context_passes_preferences_on() {
    let c = ContextFormattingStyle {
        function: FormattingFunction::Debug,
        follow_source: true,
        follow_source_depth: Some(4),
    };
    let r = ReportAsContextHandler::preferred_formatting_style(c);
    assert_eq!(r.function, FormattingFunction::Debug);
    assert_eq!(r.follow_source_depth, Some(4));
}

#[test]
fn alternate_hook_prefers_the_handler_when_types_match() {
    let hook = AlternateHandlerHook::<u32, Redacted, false, true>::new();
    assert!(!hook.applies_to_contexts());
    assert!(hook.applies_to_attachments());
    let own = AttachmentFormattingStyle {
        placement: AttachmentFormattingPlacement::Inline,
        function: FormattingFunction::Display,
        priority: 0,
    };
    let chosen = AlternateHandlerHook::<u32, Redacted, false, true>::attachment_preferred_formatting_style(Some(appendix_debug()), own);
    assert_eq!(chosen.priority, 3);
    let fallback = AlternateHandlerHook::<u32, Redacted, false, true>::attachment_preferred_formatting_style(None, own);
    assert_eq!(fallback.priority, 0);
    let ctx = AlternateHandlerHook::<u32, Redacted, true, false>::new();
    assert!(ctx.applies_to_contexts());
    let c = ContextFormattingStyle { function: FormattingFunction::Debug, follow_source: false, follow_source_depth: None };
    let d = ContextFormattingStyle { function: FormattingFunction::Display, follow_source: true, follow_source_depth: Some(1) };
    assert_eq!(AlternateHandlerHook::<u32, Redacted, true, false>::context_preferred_formatting_style(Some(c), d).function, FormattingFunction::Debug);
    assert_eq!(AlternateHandlerHook::<u32, Redacted, true, false>::context_preferred_formatting_style(None, d).function, FormattingFunction::Display);
    let both = AlternateHandlerHook::<u32, Redacted, true, true>::new();
    assert!(both.applies_to_contexts() && both.applies_to_attachments());
}

#[test]
fn chrono_renders_rfc3339() {
    assert_eq!(ChronoHandler::display(0, 0).unwrap(), "1970-01-01T00:00:00+00:00");
    assert_eq!(ChronoHandler::display(1431648000, 500_000_000).unwrap(), "2015-05-15T00:00:00.500+00:00");
    assert_eq!(ChronoHandler::debug(0, 0).unwrap(), "\"1970-01-01T00:00:00+00:00\"");
    assert!(ChronoHandler::display(i64::MAX, 0).is_none());
    assert!(ChronoHandler::debug(i64::MAX, 0).is_none());
    let s = ChronoHandler::preferred_formatting_style(FormattingFunction::Debug);
    assert_eq!((s.placement, s.function, s.priority), (AttachmentFormattingPlacement::Inline, FormattingFunction::Debug, 15));
}

#[test]
fn timestamp_collector_visibility() {
    let shown = TimestampCollector::<true>;
    let hidden = TimestampCollector::<false>;
    assert_eq!(shown.display(86_400, 0).unwrap(), "1970-01-02T00:00:00+00:00");
    assert_eq!(hidden.display(86_400, 0).unwrap(), "");
    assert_eq!(shown.preferred_formatting_style(FormattingFunction::Display).priority, 15);
    assert_eq!(
        hidden.preferred_formatting_style(FormattingFunction::Display).placement,
        AttachmentFormattingPlacement::Hidden
    );
}

#[test]
fn hiding_an_invisible_attachment_changes_nothing() {
    for f in [FormattingFunction::Display, FormattingFunction::Debug] {
        let s = Invisible::attachment_preferred_formatting_style(f);
        let h = Hidden::preferred_formatting_style(s);
        assert_eq!((h.placement, h.function, h.priority), (s.placement, s.function, s.priority));
    }
}
