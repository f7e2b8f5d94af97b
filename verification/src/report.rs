//! The report on a file as lines of text: the format, the build
//! identifiers with their architectures, and the usability.

use vstd::prelude::*;
use vstd::arithmetic::power::pow;
use crate::kind::DifType;
use crate::repr::{variant_views, DifRepr, Document, Variant, Verdict};

verus! {

/// The sixteen digits of lower-case hexadecimal notation, by value.
pub open spec fn hex_digits() -> Seq<char> {
    seq!['0', '1', '2', '3', '4', '5', '6', '7', '8', '9', 'a', 'b', 'c', 'd', 'e', 'f']
}

/// The character at place `i` of a build identifier's text: a hyphen after
/// the groups of 8, 4, 4 and 4 digits, else the digit whose turn it is,
/// the most significant first.
pub open spec fn uuid_text_char(uuid: u128, i: int) -> char {
    if i == 8 || i == 13 || i == 18 || i == 23 {
        '-'
    } else {
        let hyphens: int = if i > 23 {
            4
        } else if i > 18 {
            3
        } else if i > 13 {
            2
        } else if i > 8 {
            1
        } else {
            0
        };
        hex_digits()[((uuid as int) / pow(16, (31 - (i - hyphens)) as nat)) % 16]
    }
}

/// A build identifier in its usual notation: 32 hexadecimal digits in five
/// groups with hyphens between them.
pub open spec fn spec_uuid_text(uuid: u128) -> Seq<char> {
    Seq::new(36, |i: int| uuid_text_char(uuid, i))
}

/// Calls `uuid::Uuid::from_u128`, which takes the number's bytes from the
/// most significant down, and formats the identifier through
/// `uuid::Uuid::hyphenated`, which writes lower-case digits in groups of
/// 8, 4, 4, 4 and 12.
#[verifier::external_body]
fn uuid_text(uuid: u128) -> (s: String)
    ensures
        s@ == spec_uuid_text(uuid),
{
    uuid::Uuid::from_u128(uuid).hyphenated().to_string()
}

/// One line of the report.
#[derive(Debug)]
pub enum ReportLine {
    /// The report's title.
    Title,
    /// The format of the file.
    Type(DifType),
    /// The heading above the build identifiers.
    Heading,
    /// One build identifier, with its architecture where it has one.
    Entry(Variant),
    /// The file is usable.
    Usable,
    /// The file is not usable, and why.
    Unusable(String),
}

/// A line of the report over plain values.
pub enum LineView {
    Title,
    Type(DifType),
    Heading,
    Entry(u128, Option<Seq<char>>),
    Usable,
    Unusable(Seq<char>),
}

/// The text of a line.
pub open spec fn line_text(line: LineView) -> Seq<char> {
    match line {
        LineView::Title => "Debug Info File Check"@,
        LineView::Type(t) => "  Type: "@ + t.spec_name(),
        LineView::Heading => "  Contained UUIDs:"@,
        LineView::Entry(uuid, arch) => match arch {
            Some(a) => "    > "@ + spec_uuid_text(uuid) + " ("@ + a + ")"@,
            None => "    > "@ + spec_uuid_text(uuid),
        },
        LineView::Usable => "  Usable: yes"@,
        LineView::Unusable(problem) => "  Usable: no ("@ + problem + ")"@,
    }
}

/// The last line of a report.
pub open spec fn usability_line(repr: DifRepr) -> LineView {
    match repr.spec_problem() {
        Some(problem) => LineView::Unusable(problem),
        None => LineView::Usable,
    }
}

/// The lines of a report: title, format, heading, one line for each
/// variant in the order of the variants, and the usability.
pub open spec fn spec_report(repr: DifRepr) -> Seq<LineView> {
    seq![LineView::Title, LineView::Type(repr.spec_ty()), LineView::Heading] + Seq::new(
        repr.spec_variants().len(),
        |i: int| LineView::Entry(repr.spec_variants()[i].0, repr.spec_variants()[i].1),
    ) + seq![usability_line(repr)]
}

/// The lines of a list, each over plain values.
pub open spec fn line_views(lines: Seq<ReportLine>) -> Seq<LineView> {
    Seq::new(lines.len(), |i: int| lines[i]@)
}

impl ReportLine {
    pub open spec fn view(&self) -> LineView {
        match self {
            ReportLine::Title => LineView::Title,
            ReportLine::Type(t) => LineView::Type(*t),
            ReportLine::Heading => LineView::Heading,
            ReportLine::Entry(v) => LineView::Entry(v@.0, v@.1),
            ReportLine::Usable => LineView::Usable,
            ReportLine::Unusable(problem) => LineView::Unusable(problem@),
        }
    }

    /// The line as text, without any styling.
    pub fn text(&self) -> (s: String)
        ensures
            s@ == line_text(self@),
    {
        match self {
            ReportLine::Title => "Debug Info File Check".to_owned(),
            ReportLine::Type(t) => "  Type: ".to_owned().concat(t.name()),
            ReportLine::Heading => "  Contained UUIDs:".to_owned(),
            ReportLine::Entry(v) => {
                let id = uuid_text(v.uuid);
                let head = "    > ".to_owned().concat(id.as_str());
                match &v.arch {
                    Some(a) => head.concat(" (").concat(a.as_str()).concat(")"),
                    None => head,
                }
            },
            ReportLine::Usable => "  Usable: yes".to_owned(),
            ReportLine::Unusable(problem) => "  Usable: no (".to_owned().concat(
                problem.as_str(),
            ).concat(")"),
        }
    }
}

/// What is written out about a file.
#[derive(Debug)]
pub enum Output {
    /// The structured document.
    Json(Document),
    /// The report as lines of text.
    Text(Vec<ReportLine>),
}

/// The end of a check: what is written out, and how the process leaves.
#[derive(Debug)]
pub struct Rendering {
    pub output: Output,
    pub verdict: Verdict,
}

/// The report on a file, line by line.
pub fn report(repr: &DifRepr) -> (lines: Vec<ReportLine>)
    ensures
        line_views(lines@) == spec_report(*repr),
{
    let mut lines: Vec<ReportLine> = Vec::new();
    lines.push(ReportLine::Title);
    lines.push(ReportLine::Type(repr.ty()));
    lines.push(ReportLine::Heading);
    let variants = repr.variants();
    let n: usize = variants.len();
    let mut i: usize = 0;
    while i < n
        invariant
            i <= n,
            n == variants@.len(),
            variant_views(variants@) == repr.spec_variants(),
            lines@.len() == 3 + i,
            lines@[0]@ == LineView::Title,
            lines@[1]@ == LineView::Type(repr.spec_ty()),
            lines@[2]@ == LineView::Heading,
            forall|k: int|
                0 <= k < i ==> (#[trigger] lines@[3 + k])@ == LineView::Entry(
                    variants@[k]@.0,
                    variants@[k]@.1,
                ),
        decreases n - i,
    {
        let v = &variants[i];
        let arch: Option<String> = match &v.arch {
            Some(a) => Some(a.clone()),
            None => None,
        };
        lines.push(ReportLine::Entry(Variant { uuid: v.uuid, arch }));
        i += 1;
    }
    match repr.get_problem() {
        Some(problem) => lines.push(ReportLine::Unusable(problem.to_owned())),
        None => lines.push(ReportLine::Usable),
    }
    proof {
        let got = line_views(lines@);
        let want = spec_report(*repr);
        assert(got.len() == want.len());
        assert forall|k: int| 0 <= k < got.len() implies got[k] == want[k] by {
            if 3 <= k < 3 + n {
                assert(lines@[3 + (k - 3)]@ == LineView::Entry(
                    variants@[k - 3]@.0,
                    variants@[k - 3]@.1,
                ));
                assert(variant_views(variants@)[k - 3] == variants@[k - 3]@);
            }
        }
        assert(got =~= want);
    }
    lines
}

/// Ends a check: the structured document where it was asked for, else the
/// lines of the report; and in both forms the same verdict, which goes by
/// the usability alone.
pub fn render(repr: &DifRepr, json: bool) -> (r: Rendering)
    ensures
        r.verdict == repr.spec_verdict(),
        match r.output {
            Output::Json(d) => json && repr.described_by(d),
            Output::Text(lines) => !json && line_views(lines@) == spec_report(*repr),
        },
{
    let output = if json {
        Output::Json(repr.document())
    } else {
        Output::Text(report(repr))
    };
    Rendering { output, verdict: repr.verdict() }
}

} // verus!
