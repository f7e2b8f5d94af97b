//! One representation for every supported format: the format's tag, the
//! variants that the file holds, whether the file is usable, and what is
//! wrong with it where it is not.

use vstd::prelude::*;
use crate::kind::DifType;
use crate::macho::{ascending, MachoInfo};
use crate::mapping::ProguardInfo;

verus! {

/// The exit code that tells a caller that the file is well-formed but of no
/// use, without any further words.
pub const QUIET_EXIT_CODE: i32 = 1;

/// One build identifier of a file, with the architecture that it belongs to
/// where the format knows of architectures.
#[derive(Debug)]
pub struct Variant {
    pub uuid: u128,
    pub arch: Option<String>,
}

impl Variant {
    pub open spec fn view(&self) -> (u128, Option<Seq<char>>) {
        (self.uuid, text_view(self.arch))
    }
}

/// The variants of a list, each as a pair of plain values.
pub open spec fn variant_views(v: Seq<Variant>) -> Seq<(u128, Option<Seq<char>>)> {
    Seq::new(v.len(), |i: int| v[i]@)
}

/// How a check ends for the calling process.
#[derive(Clone, Copy, Debug, PartialEq, Eq, Structural)]
pub enum Verdict {
    /// The file is usable.
    Success,
    /// The file is not usable: leave with this code and say no more.
    QuietExit(i32),
}

/// The structured form of a representation, field by field in the order in
/// which it is written out.
#[derive(Debug)]
pub struct Document {
    pub ty: DifType,
    pub variants: Vec<Variant>,
    pub is_usable: bool,
    pub problem: Option<String>,
}

/// The view of a text that may be absent.
pub open spec fn text_view(text: Option<String>) -> Option<Seq<char>> {
    match text {
        Some(t) => Some(t@),
        None => None,
    }
}

/// A debug information file of one of the supported formats.
#[derive(Debug)]
pub enum DifRepr {
    Dsym(MachoInfo),
    Proguard(ProguardInfo),
}

impl DifRepr {
    /// The invariant of the type: that of the summary it holds.
    pub open spec fn wf(&self) -> bool {
        match self {
            DifRepr::Dsym(mi) => mi.wf(),
            DifRepr::Proguard(_) => true,
        }
    }

    pub open spec fn spec_ty(&self) -> DifType {
        match self {
            DifRepr::Dsym(_) => DifType::Dsym,
            DifRepr::Proguard(_) => DifType::Proguard,
        }
    }

    /// One variant per architecture slice, labelled, for a symbol file; one
    /// variant without a label for a mapping table.
    pub open spec fn spec_variants(&self) -> Seq<(u128, Option<Seq<char>>)> {
        match self {
            DifRepr::Dsym(mi) => Seq::new(
                mi.slices().len(),
                |i: int| (mi.slices()[i].uuid, Some(mi.slices()[i].name@)),
            ),
            DifRepr::Proguard(pg) => seq![(pg.uuid, None)],
        }
    }

    pub open spec fn spec_is_usable(&self) -> bool {
        match self {
            DifRepr::Dsym(mi) => mi.spec_has_debug_info(),
            DifRepr::Proguard(pg) => pg.has_line_info,
        }
    }

    /// The fixed wording for a file that is not usable, by format.
    pub open spec fn spec_problem(&self) -> Option<Seq<char>> {
        if self.spec_is_usable() {
            None
        } else {
            Some(
                match self {
                    DifRepr::Dsym(_) => "missing DWARF debug info"@,
                    DifRepr::Proguard(_) => "missing line information"@,
                },
            )
        }
    }

    pub open spec fn spec_verdict(&self) -> Verdict {
        if self.spec_is_usable() {
            Verdict::Success
        } else {
            Verdict::QuietExit(QUIET_EXIT_CODE)
        }
    }

    /// The document holds, field by field, what the accessors of the
    /// representation return.
    pub open spec fn described_by(&self, d: Document) -> bool {
        &&& d.ty == self.spec_ty()
        &&& variant_views(d.variants@) == self.spec_variants()
        &&& d.is_usable == self.spec_is_usable()
        &&& text_view(d.problem) == self.spec_problem()
    }

    /// The format of the file.
    pub fn ty(&self) -> (t: DifType)
        ensures
            t == self.spec_ty(),
    {
        match self {
            DifRepr::Dsym(_) => DifType::Dsym,
            DifRepr::Proguard(_) => DifType::Proguard,
        }
    }

    /// The build identifiers of the file, in rising order, each with its
    /// architecture label where the format has one.
    pub fn variants(&self) -> (v: Vec<Variant>)
        ensures
            variant_views(v@) == self.spec_variants(),
    {
        let mut out: Vec<Variant> = Vec::new();
        match self {
            DifRepr::Dsym(mi) => {
                let archs = mi.architectures();
                let n: usize = archs.len();
                let mut i: usize = 0;
                while i < n
                    invariant
                        i <= n,
                        n == archs@.len(),
                        archs@ == mi.slices(),
                        out@.len() == i,
                        forall|k: int|
                            0 <= k < i ==> (#[trigger] out@[k])@ == (
                                archs@[k].uuid,
                                Some(archs@[k].name@),
                            ),
                    decreases n - i,
                {
                    let a = &archs[i];
                    out.push(Variant { uuid: a.uuid, arch: Some(a.name.clone()) });
                    i += 1;
                }
                assert(variant_views(out@) =~= self.spec_variants());
            },
            DifRepr::Proguard(pg) => {
                out.push(Variant { uuid: pg.uuid, arch: None });
                assert(variant_views(out@) =~= self.spec_variants());
            },
        }
        out
    }

    /// Whether the file holds what symbolication needs: debug information
    /// in a symbol file, line mappings in a mapping table.
    pub fn is_usable(&self) -> (r: bool)
        ensures
            r == self.spec_is_usable(),
    {
        match self {
            DifRepr::Dsym(mi) => mi.has_debug_info(),
            DifRepr::Proguard(pg) => pg.has_line_info,
        }
    }

    /// What is wrong with the file: nothing where it is usable, else the
    /// format's fixed wording.
    pub fn get_problem(&self) -> (r: Option<&'static str>)
        ensures
            match r {
                Some(s) => self.spec_problem() == Some(s@),
                None => self.spec_problem() is None,
            },
    {
        if self.is_usable() {
            None
        } else {
            Some(
                match self {
                    DifRepr::Dsym(_) => "missing DWARF debug info",
                    DifRepr::Proguard(_) => "missing line information",
                },
            )
        }
    }

    /// How a check of this file ends for the calling process.
    pub fn verdict(&self) -> (v: Verdict)
        ensures
            v == self.spec_verdict(),
    {
        if self.is_usable() {
            Verdict::Success
        } else {
            Verdict::QuietExit(QUIET_EXIT_CODE)
        }
    }

    /// The structured form of the file's representation: each field holds
    /// what the accessor of the same name returns.
    pub fn document(&self) -> (d: Document)
        ensures
            self.described_by(d),
    {
        let problem: Option<String> = match self.get_problem() {
            Some(s) => Some(s.to_owned()),
            None => None,
        };
        Document {
            ty: self.ty(),
            variants: self.variants(),
            is_usable: self.is_usable(),
            problem,
        }
    }

    /// A symbol file has as many variants as it has architecture slices, in
    /// rising order of their build identifiers, and each carries a label.
    pub proof fn lemma_symbol_file_variants(mi: MachoInfo)
        requires
            mi.wf(),
        ensures
            DifRepr::Dsym(mi).spec_variants().len() == mi.slices().len(),
            forall|i: int|
                0 <= i < mi.slices().len() ==> (#[trigger] DifRepr::Dsym(
                    mi,
                ).spec_variants()[i]).1 is Some,
            forall|i: int, j: int|
                0 <= i < j < mi.slices().len() ==> DifRepr::Dsym(mi).spec_variants()[i].0
                    < DifRepr::Dsym(mi).spec_variants()[j].0,
    {
        assert(ascending(mi.slices()));
    }

    /// A mapping table has exactly one variant, and it carries no label.
    pub proof fn lemma_mapping_table_variants(pg: ProguardInfo)
        ensures
            DifRepr::Proguard(pg).spec_variants().len() == 1,
            DifRepr::Proguard(pg).spec_variants()[0] == (pg.uuid, None::<Seq<char>>),
    {
    }

    /// No representation is without a variant.
    pub proof fn lemma_variants_never_empty(r: DifRepr)
        requires
            r.wf(),
        ensures
            r.spec_variants().len() > 0,
    {
    }

    /// A representation has a problem exactly where it is not usable, and
    /// the check then ends quietly with the code for that.
    pub proof fn lemma_problem_iff_unusable(r: DifRepr)
        ensures
            !r.spec_is_usable() <==> r.spec_problem() is Some,
            r.spec_is_usable() <==> r.spec_verdict() == Verdict::Success,
            !r.spec_is_usable() <==> r.spec_verdict() == Verdict::QuietExit(1),
    {
    }
}

} // verus!
