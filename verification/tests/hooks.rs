use rootcause_extras::format_helpers::FormattingCallbacks;
use rootcause_extras::format_utils::{FormatFunctions, FormatterWriter, WriteError};
use rootcause_extras::report::{Attachment, AttachmentType, Report};
use rootcause_extras::report_creation::{
    collector_debug, creation_hook_debug, run_creation_hooks_local, run_creation_hooks_sendsync,
    AttachmentCollector, HookList, Location, LocationHook, ReportCreationHook, StoredHook,
};

type Hooks = HookList<Box<dyn ReportCreationHook>, Box<dyn AttachmentCollector>>;
use rootcause_extras::style::FormattingFunction;

fn fresh() -> Report {
    Report {
        context_type_name: "E".to_string(),
        context_display: "e".to_string(),
        context_debug: "E".to_string(),
        attachments: Vec::new(),
        children: Vec::new(),
    }
}

fn here() -> Location {
    Location { file: "src/lib.rs".to_string(), line: 42 }
}

struct RequestId;

impl AttachmentCollector for RequestId {
    fn collect(&self, _caller: &Location) -> Attachment {
        Attachment { kind: AttachmentType::Other(9), display: "Request ID: 42".to_string(), debug: "42".to_string() }
    }
}

struct Renamer;

impl ReportCreationHook for Renamer {
    fn on_local_creation(&self, report: &mut Report, _caller: &Location) {
        report.context_display = "local".to_string();
    }

    fn on_sendsync_creation(&self, report: &mut Report, _caller: &Location) {
        report.context_display = "sendsync".to_string();
    }
}

#[test]
fn location_renders_file_and_line() {
    assert_eq!(here().display(), "src/lib.rs:42");
    let a = LocationHook.collect(&here());
    assert_eq!(a.kind, AttachmentType::Location);
    assert_eq!(a.display, "src/lib.rs:42");
}

#[test]
fn without_installed_hooks_only_the_location_is_attached() {
    let mut r = fresh();
    run_creation_hooks_local::<Box<dyn ReportCreationHook>, Box<dyn AttachmentCollector>>(&mut r, None, &here());
    assert_eq!(r.attachments.len(), 1);
    assert_eq!(r.attachments[0].kind, AttachmentType::Location);
    assert_eq!(r.attachments[0].display, "src/lib.rs:42");
    let mut s = fresh();
    run_creation_hooks_sendsync::<Box<dyn ReportCreationHook>, Box<dyn AttachmentCollector>>(&mut s, None, &here());
    assert_eq!(s.attachments[0].debug, "src/lib.rs:42");
}

#[test]
fn installed_hooks_run_in_order() {
    let mut hooks = Hooks::new_with_locations();
    hooks.push_collector(Box::new(RequestId));
    hooks.push_hook(Box::new(Renamer));
    assert_eq!(hooks.iter().len(), 3);
    assert!(matches!(hooks.iter()[0], StoredHook::Location(_)));
    assert!(matches!(hooks.iter()[1], StoredHook::Collector(_)));
    assert!(matches!(hooks.iter()[2], StoredHook::Creation(_)));
    let mut r = fresh();
    run_creation_hooks_local(&mut r, Some(&hooks), &here());
    assert_eq!(r.attachments.len(), 2);
    assert_eq!(r.attachments[0].display, "src/lib.rs:42");
    assert_eq!(r.attachments[1].display, "Request ID: 42");
    assert_eq!(r.context_display, "local");
    let mut s = fresh();
    hooks.on_sendsync_creation(&mut s, &here());
    assert_eq!(s.context_display, "sendsync");
    assert_eq!(s.attachments.len(), 2);
}

#[test]
fn writer_appends_valid_utf8_only() {
    let mut w = FormatterWriter::new("start:".to_string());
    assert_eq!(w.write("héllo".as_bytes()), Ok(6));
    assert_eq!(w.write(&[0xff, 0xfe]), Err(WriteError::InvalidUtf8));
    assert_eq!(w.flush(), Ok(()));
    assert_eq!(w.write(b""), Ok(0));
    assert_eq!(w.into_text(), "start:héllo");
}

#[test]
fn formatting_callbacks_pick_the_right_callback() {
    let two = FormattingCallbacks::new((5u32,), (|d: u32| format!("{}", d), |d: u32| format!("{:?}!", d)));
    assert_eq!(two.display_one(), "5");
    assert_eq!(two.debug_one(), "5!");
    let pair = FormattingCallbacks::new((1u8, 2u8), (|a: u8, b: u8| format!("{}+{}", a, b), |a: u8, b: u8| format!("{}-{}", a, b)));
    assert_eq!(pair.display_two(), "1+2");
    assert_eq!(pair.debug_two(), "1-2");
    let told = FormattingCallbacks::new(('x',), |c: char, f: FormattingFunction| format!("{}:{:?}", c, f));
    assert_eq!(told.display_one_with(), "x:Display");
    assert_eq!(told.debug_one_with(), "x:Debug");
    let told2 = FormattingCallbacks::new((3i32, 4i32), |a: i32, b: i32, f: FormattingFunction| format!("{}{}{:?}", a, b, f));
    assert_eq!(told2.display_two_with(), "34Display");
    assert_eq!(told2.debug_two_with(), "34Debug");
}

#[test]
fn format_functions_render_through_their_functions() {
    let value = 12u64;
    let f = FormatFunctions::new(&value, |v: &u64| format!("{} items", v), |v: &u64| format!("Count({})", v));
    assert_eq!(f.display(), "12 items");
    assert_eq!(f.debug(), "Count(12)");
}

#[test]
fn stored_hooks_describe_themselves() {
    assert_eq!(creation_hook_debug("my::Hook"), "CreationHook<my::Hook>");
    assert_eq!(
        collector_debug("alloc::string::String", "rootcause::handlers::Display", "my::Collector"),
        "AttachmentCollector<alloc::string::String, rootcause::handlers::Display, my::Collector>"
    );
}

#[test]
fn closures_collect_what_they_return() {
    let mut hooks = Hooks::new_with_locations();
    let collector: Box<dyn AttachmentCollector> = Box::new(|| Attachment {
        kind: AttachmentType::Other(1),
        display: "from a closure".to_string(),
        debug: "closure".to_string(),
    });
    hooks.push_collector(collector);
    let mut r = fresh();
    hooks.on_local_creation(&mut r, &here());
    assert_eq!(r.attachments.len(), 2);
    assert_eq!(r.attachments[1].display, "from a closure");
}

#[test]
fn sendsync_runs_use_the_sendsync_method() {
    let mut hooks = Hooks::new_with_locations();
    hooks.push_hook(Box::new(Renamer));
    let mut r = fresh();
    run_creation_hooks_sendsync(&mut r, Some(&hooks), &here());
    assert_eq!(r.context_display, "sendsync");
    assert_eq!(r.attachments[0].display, "src/lib.rs:42");
}
