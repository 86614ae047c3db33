use rootcause_extras::report::{Attachment, AttachmentType, Report};
use rootcause_extras::style::FormattingFunction;
use rootcause_extras::terse::{decimal_string, TerseReportFormatting};
use rootcause_extras::utils::{find_attachment_index, ReportExt, ReportMutExt, ReportRefExt};

fn att(kind: AttachmentType, text: &str) -> Attachment {
    Attachment { kind, display: text.to_string(), debug: format!("{:?}", text) }
}

fn report(attachments: Vec<Attachment>, children: Vec<Report>) -> Report {
    Report {
        context_type_name: "std::io::Error".to_string(),
        context_display: "file not found".to_string(),
        context_debug: "NotFound".to_string(),
        attachments,
        children,
    }
}

#[test]
fn find_attachment_gives_the_first_of_its_type() {
    let r = report(
        vec![
            att(AttachmentType::Other(7), "seven"),
            att(AttachmentType::Location, "src/a.rs:1"),
            att(AttachmentType::Location, "src/b.rs:2"),
        ],
        vec![],
    );
    assert_eq!(ReportExt::find_attachment(&r, AttachmentType::Location).unwrap().display, "src/a.rs:1");
    assert_eq!(ReportRefExt::find_attachment(&r, AttachmentType::Other(7)).unwrap().display, "seven");
    assert!(ReportExt::find_attachment(&r, AttachmentType::Backtrace).is_none());
    assert!(ReportExt::find_attachment(&r, AttachmentType::Other(8)).is_none());
    assert_eq!(find_attachment_index(&r.attachments, AttachmentType::Location), Some(1));
}

#[test]
fn find_attachment_mut_changes_the_first_only() {
    let mut r = report(
        vec![att(AttachmentType::Location, "old"), att(AttachmentType::Location, "other")],
        vec![],
    );
    if let Some(a) = r.find_attachment_mut(AttachmentType::Location) {
        a.display = "new".to_string();
    }
    assert_eq!(r.attachments[0].display, "new");
    assert_eq!(r.attachments[1].display, "other");
    assert!(r.find_attachment_mut(AttachmentType::Backtrace).is_none());
}

#[test]
fn decimal_strings() {
    assert_eq!(decimal_string(0), "0");
    assert_eq!(decimal_string(7), "7");
    assert_eq!(decimal_string(10), "10");
    assert_eq!(decimal_string(12345), "12345");
    assert_eq!(decimal_string(usize::MAX), usize::MAX.to_string());
}

#[test]
fn terse_report_with_everything() {
    let child = report(vec![], vec![]);
    let r = report(
        vec![
            att(AttachmentType::Other(1), "x"),
            att(AttachmentType::Location, "src/main.rs:12"),
            att(AttachmentType::Backtrace, "0: main"),
        ],
        vec![child],
    );
    let text = TerseReportFormatting.format_report(&r, FormattingFunction::Display);
    assert_eq!(
        text,
        "Report<std::io::Error>:\nfile not found\n@ src/main.rs:12\n0: main\n3 attachments\n1 children"
    );
}

#[test]
fn terse_report_debug_without_attachments() {
    let r = report(vec![], vec![report(vec![], vec![]), report(vec![], vec![])]);
    let text = TerseReportFormatting.format_report(&r, FormattingFunction::Debug);
    assert_eq!(text, "Report<std::io::Error>:\nNotFound\n2 children");
}

#[test]
fn terse_report_bare() {
    let r = report(vec![], vec![]);
    assert_eq!(
        TerseReportFormatting.format_report(&r, FormattingFunction::Display),
        "Report<std::io::Error>:\nfile not found"
    );
}

#[test]
fn terse_reports_render_the_first_only() {
    let a = report(vec![att(AttachmentType::Other(3), "a")], vec![]);
    let b = report(vec![], vec![]);
    let both = [&a, &b];
    assert_eq!(
        TerseReportFormatting.format_reports(&both, FormattingFunction::Display),
        "Report<std::io::Error>:\nfile not found\n1 attachments"
    );
    let none: [&Report; 0] = [];
    assert_eq!(TerseReportFormatting.format_reports(&none, FormattingFunction::Display), "");
}

#[test]
fn decimal_strings_read_back() {
    for n in [0usize, 1, 9, 10, 99, 100, 4096, 1_000_000_007] {
        let s = decimal_string(n);
        assert_eq!(s.parse::<usize>().unwrap(), n);
        assert!(n == 0 || !s.starts_with('0'));
    }
}
