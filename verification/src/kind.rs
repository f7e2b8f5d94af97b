//! The closed set of supported debug information file formats.

use vstd::prelude::*;

verus! {

/// The format of a debug information file.
#[derive(Clone, Copy, Debug, PartialEq, Eq, Structural, Hash)]
pub enum DifType {
    /// An Apple-style symbol file holding one or more architecture slices.
    Dsym,
    /// An Android Proguard mapping table.
    Proguard,
}

/// Whether two string slices hold the same characters.
pub fn same_text(a: &str, b: &str) -> (r: bool)
    ensures
        r == (a@ == b@),
{
    let x = a.to_owned();
    let y = b.to_owned();
    x == y
}

impl DifType {
    /// The tag under which the format is known on the command line and in
    /// structured output.
    pub open spec fn spec_name(self) -> Seq<char> {
        match self {
            DifType::Dsym => "dsym"@,
            DifType::Proguard => "proguard"@,
        }
    }

    /// The format that a tag stands for, if any.
    pub open spec fn spec_from_name(name: Seq<char>) -> Option<DifType> {
        if name == "dsym"@ {
            Some(DifType::Dsym)
        } else if name == "proguard"@ {
            Some(DifType::Proguard)
        } else {
            None
        }
    }

    pub fn name(&self) -> (s: &'static str)
        ensures
            s@ == self.spec_name(),
    {
        match self {
            DifType::Dsym => "dsym",
            DifType::Proguard => "proguard",
        }
    }

    pub fn from_name(name: &str) -> (r: Option<DifType>)
        ensures
            r == Self::spec_from_name(name@),
    {
        if same_text(name, "dsym") {
            Some(DifType::Dsym)
        } else if same_text(name, "proguard") {
            Some(DifType::Proguard)
        } else {
            None
        }
    }

    /// Every format is found again from its own tag.
    pub proof fn lemma_name_round_trip(t: DifType)
        ensures
            Self::spec_from_name(t.spec_name()) == Some(t),
    {
        reveal_strlit("dsym");
        reveal_strlit("proguard");
        assert("dsym"@.len() != "proguard"@.len());
    }
}

} // verus!
