//! A short rendering of a report: the context, where it was created, its
//! backtrace and how many attachments and children it has.

use vstd::prelude::*;

use crate::report::{AttachmentType, Report};
use crate::style::FormattingFunction;
use crate::utils::{find_attachment_index, first_attachment, lemma_first_attachment_unique};

verus! {

/// The character of a decimal digit.
pub open spec fn digit_char(d: nat) -> char {
    seq!['0', '1', '2', '3', '4', '5', '6', '7', '8', '9'][d as int]
}

/// The decimal digits of `n`, most significant first, with no leading zero.
pub open spec fn decimal(n: nat) -> Seq<char>
    decreases n,
{
    if n < 10 {
        seq![digit_char(n)]
    } else {
        decimal(n / 10) + seq![digit_char(n % 10)]
    }
}

/// The value that a string of decimal digits stands for.
pub open spec fn decimal_value(s: Seq<char>) -> nat
    decreases s.len(),
{
    if s.len() == 0 {
        0
    } else {
        decimal_value(s.drop_last()) * 10 + ((s.last() as u32) - ('0' as u32)) as nat
    }
}

/// `c` is one of the characters `0` to `9`.
pub open spec fn is_digit(c: char) -> bool {
    '0' as u32 <= c as u32 <= '9' as u32
}

/// Every character of `s` is one of `0` to `9`.
pub open spec fn all_digits(s: Seq<char>) -> bool {
    forall|i: int| 0 <= i < s.len() ==> is_digit(#[trigger] s[i])
}

/// A digit's character stands for the digit.
pub proof fn lemma_digit_value(d: nat)
    requires
        d < 10,
    ensures
        ((digit_char(d) as u32) - ('0' as u32)) as nat == d,
        is_digit(digit_char(d)),
{
    let digits = seq!['0', '1', '2', '3', '4', '5', '6', '7', '8', '9'];
    assert(digits[0] == '0' && digits[1] == '1' && digits[2] == '2' && digits[3] == '3'
        && digits[4] == '4' && digits[5] == '5' && digits[6] == '6' && digits[7] == '7'
        && digits[8] == '8' && digits[9] == '9');
}

/// Reading the decimal digits of `n` back gives `n`; the first digit is
/// zero only for zero itself.
pub proof fn lemma_decimal_round_trip(n: nat)
    ensures
        decimal_value(decimal(n)) == n,
        decimal(n).len() > 0,
        decimal(n)[0] == '0' ==> n == 0,
    decreases n,
{
    let s = decimal(n);
    lemma_digit_value(n % 10);
    if n < 10 {
        assert(s.drop_last() =~= Seq::<char>::empty());
        assert(decimal_value(s.drop_last()) == 0);
        assert(s.last() == digit_char(n % 10));
    } else {
        lemma_decimal_round_trip(n / 10);
        assert(s.drop_last() =~= decimal(n / 10));
        assert(s[0] == decimal(n / 10)[0]);
        assert(s.last() == digit_char(n % 10));
        assert(decimal_value(s) == (n / 10) * 10 + n % 10);
    }
}

/// The decimal text of a number is made of digits only.
pub proof fn lemma_decimal_digits(n: nat)
    ensures
        all_digits(decimal(n)),
    decreases n,
{
    lemma_digit_value(n % 10);
    if n >= 10 {
        lemma_decimal_digits(n / 10);
        let s = decimal(n);
        assert forall|i: int| 0 <= i < s.len() implies is_digit(#[trigger] s[i]) by {
            if i < decimal(n / 10).len() {
                assert(s[i] == decimal(n / 10)[i]);
            } else {
                assert(s[i] == digit_char(n % 10));
            }
        }
    }
}

/// The decimal text of `n` is digits that read back as `n`, with no
/// leading zero unless `n` is zero.
pub proof fn lemma_decimal_reads_back(n: nat)
    ensures
        decimal(n).len() > 0,
        all_digits(decimal(n)),
        decimal_value(decimal(n)) == n,
        decimal(n)[0] == '0' ==> n == 0,
{
    lemma_decimal_round_trip(n);
    lemma_decimal_digits(n);
}

/// The string of one decimal digit.
fn digit_str(d: usize) -> (s: &'static str)
    requires
        d < 10,
    ensures
        s@ == seq![digit_char(d as nat)],
{
    proof {
        reveal_strlit("0");
        reveal_strlit("1");
        reveal_strlit("2");
        reveal_strlit("3");
        reveal_strlit("4");
        reveal_strlit("5");
        reveal_strlit("6");
        reveal_strlit("7");
        reveal_strlit("8");
        reveal_strlit("9");
    }
    let s = if d == 0 {
        "0"
    } else if d == 1 {
        "1"
    } else if d == 2 {
        "2"
    } else if d == 3 {
        "3"
    } else if d == 4 {
        "4"
    } else if d == 5 {
        "5"
    } else if d == 6 {
        "6"
    } else if d == 7 {
        "7"
    } else if d == 8 {
        "8"
    } else {
        "9"
    };
    assert(s@ =~= seq![digit_char(d as nat)]);
    s
}

/// Appends the decimal digits of `n` to `out`.
pub fn push_decimal(out: &mut String, n: usize)
    ensures
        final(out)@ == old(out)@ + decimal(n as nat),
    decreases n,
{
    if n >= 10 {
        push_decimal(out, n / 10);
    }
    let d = digit_str(n % 10);
    out.append(d);
    assert(final(out)@ =~= old(out)@ + decimal(n as nat));
}

/// The decimal digits of `n`.
pub fn decimal_string(n: usize) -> (s: String)
    ensures
        s@ == decimal(n as nat),
{
    let mut s = String::new();
    push_decimal(&mut s, n);
    assert(s@ =~= decimal(n as nat));
    s
}

/// The line that reports a count, or nothing when the count is zero.
pub open spec fn count_line(n: nat, noun: Seq<char>) -> Seq<char> {
    if n > 0 {
        "\n"@ + decimal(n) + noun
    } else {
        seq![]
    }
}

/// The terse rendering of a report with the given formatting function.
pub open spec fn terse_text(r: Report, function: FormattingFunction) -> Seq<char> {
    "Report<"@ + r.context_type_name@ + ">:\n"@ + (if function == FormattingFunction::Display {
        r.context_display@
    } else {
        r.context_debug@
    }) + match first_attachment(r.attachments@, AttachmentType::Location) {
        Some(a) => "\n@ "@ + a.display@,
        None => seq![],
    } + match first_attachment(r.attachments@, AttachmentType::Backtrace) {
        Some(a) => "\n"@ + a.display@,
        None => seq![],
    } + count_line(r.attachments@.len(), " attachments"@) + count_line(
        r.children@.len(),
        " children"@,
    )
}

/// A report with children: its terse text ends with a line giving, in
/// decimal digits, the number of its direct children, then ` children`.
pub proof fn lemma_terse_counts_direct_children(r: Report, function: FormattingFunction)
    requires
        r.children@.len() > 0,
    ensures
        exists|prefix: Seq<char>, digits: Seq<char>|
            #![trigger prefix + "\n"@ + digits]
            terse_text(r, function) == prefix + "\n"@ + digits + " children"@ && digits.len() > 0
                && all_digits(digits) && decimal_value(digits) == r.children@.len(),
{
    let n = r.children@.len();
    lemma_decimal_reads_back(n);
    let t = terse_text(r, function);
    let digits = decimal(n);
    let prefix = t.subrange(0, t.len() - (digits.len() + 10));
    assert(t =~= prefix + "\n"@ + digits + " children"@) by {
        reveal_strlit("\n");
        reveal_strlit(" children");
    }
}

/// The terse text reads the children only through how many there are: two
/// reports alike but for their children, with as many children each, render
/// alike.
pub proof fn lemma_terse_depends_on_child_count(r1: Report, r2: Report, function: FormattingFunction)
    requires
        r1.context_type_name == r2.context_type_name,
        r1.context_display == r2.context_display,
        r1.context_debug == r2.context_debug,
        r1.attachments@ == r2.attachments@,
        r1.children@.len() == r2.children@.len(),
    ensures
        terse_text(r1, function) == terse_text(r2, function),
{
}

/// A report with no attachments and no children renders as its header line
/// and its context, in the requested formatting, and nothing more.
pub proof fn lemma_terse_bare(r: Report, function: FormattingFunction)
    requires
        r.attachments@.len() == 0,
        r.children@.len() == 0,
    ensures
        function == FormattingFunction::Display ==> terse_text(r, function) == "Report<"@
            + r.context_type_name@ + ">:\n"@ + r.context_display@,
        function == FormattingFunction::Debug ==> terse_text(r, function) == "Report<"@
            + r.context_type_name@ + ">:\n"@ + r.context_debug@,
{
    assert(!crate::utils::has_attachment(r.attachments@, AttachmentType::Location));
    assert(!crate::utils::has_attachment(r.attachments@, AttachmentType::Backtrace));
    assert(terse_text(r, function) =~= "Report<"@ + r.context_type_name@ + ">:\n"@ + (
    if function == FormattingFunction::Display {
        r.context_display@
    } else {
        r.context_debug@
    }));
}

/// The report formatter that renders only the first report, tersely.
#[derive(Debug, Clone, Copy, PartialEq, Eq, Hash)]
pub struct TerseReportFormatting;

impl TerseReportFormatting {
    /// Renders the first of the reports, or nothing when there is none.
    pub fn format_reports(&self, reports: &[&Report], function: FormattingFunction) -> (s: String)
        ensures
            reports@.len() == 0 ==> s@ == Seq::<char>::empty(),
            reports@.len() > 0 ==> s@ == terse_text(*reports@[0], function),
    {
        if reports.len() > 0 {
            self.format_report(reports[0], function)
        } else {
            String::new()
        }
    }

    /// Renders one report.
    pub fn format_report(&self, report: &Report, function: FormattingFunction) -> (s: String)
        ensures
            s@ == terse_text(*report, function),
    {
        let mut out = String::from_str("Report<");
        out.append(report.context_type_name.as_str());
        out.append(">:\n");
        match function {
            FormattingFunction::Display => out.append(report.context_display.as_str()),
            FormattingFunction::Debug => out.append(report.context_debug.as_str()),
        }
        let ghost head = out@;
        match find_attachment_index(&report.attachments, AttachmentType::Location) {
            Some(i) => {
                proof {
                    lemma_first_attachment_unique(report.attachments@, AttachmentType::Location, i as int);
                }
                out.append("\n@ ");
                out.append(report.attachments[i].display.as_str());
            },
            None => {},
        }
        let ghost with_location = out@;
        match find_attachment_index(&report.attachments, AttachmentType::Backtrace) {
            Some(i) => {
                proof {
                    lemma_first_attachment_unique(report.attachments@, AttachmentType::Backtrace, i as int);
                }
                out.append("\n");
                out.append(report.attachments[i].display.as_str());
            },
            None => {},
        }
        let ghost with_backtrace = out@;
        let n_attachments: usize = report.attachments.len();
        if n_attachments > 0 {
            out.append("\n");
            push_decimal(&mut out, n_attachments);
            out.append(" attachments");
        }
        let ghost with_attachments = out@;
        let n_children: usize = report.children.len();
        if n_children > 0 {
            out.append("\n");
            push_decimal(&mut out, n_children);
            out.append(" children");
        }
        proof {
            let r = *report;
            assert(with_location =~= head + match first_attachment(r.attachments@, AttachmentType::Location) {
                Some(a) => "\n@ "@ + a.display@,
                None => seq![],
            });
            assert(with_backtrace =~= with_location + match first_attachment(r.attachments@, AttachmentType::Backtrace) {
                Some(a) => "\n"@ + a.display@,
                None => seq![],
            });
            assert(with_attachments =~= with_backtrace + count_line(r.attachments@.len(), " attachments"@));
            assert(out@ =~= with_attachments + count_line(r.children@.len(), " children"@));
            assert(out@ =~= terse_text(r, function));
        }
        out
    }
}

} // verus!
