//! Which format a file has. With a format asked for, only that format's
//! reader is tried. Without one the symbol file reader goes first and the
//! mapping table reader second, and a mapping table is taken only where its
//! name or its content speaks for it.

use vstd::prelude::*;
use crate::kind::{same_text, DifType};
use crate::macho::MachoInfo;
use crate::mapping::ProguardInfo;
use crate::repr::DifRepr;

verus! {

/// Why no representation came of a file.
#[derive(Debug)]
pub enum CheckError {
    /// The reader of a format refused the file; the message is the
    /// reader's own.
    Adapter { format: DifType, message: String },
    /// The bytes of the file are no mapping table.
    InvalidMapping,
    /// No format could be assigned with confidence.
    Classification,
}

/// What the caller is to fetch next.
#[derive(Clone, Copy, Debug, PartialEq, Eq, Structural)]
pub enum Request {
    /// Open the file with the symbol file reader.
    OpenMacho,
    /// Read the bytes of the file.
    ReadMapping,
}

/// Where detection stands after an answer.
#[derive(Debug)]
pub enum Step {
    /// The file's bytes are to be read next.
    ReadMapping,
    /// Detection is over.
    Done(Result<DifRepr, CheckError>),
}

/// The characters of a file name's extension, where it has one.
pub open spec fn extension_view(extension: Option<&str>) -> Option<Seq<char>> {
    match extension {
        Some(e) => Some(e@),
        None => None,
    }
}

/// What speaks for a mapping table: the conventional extension of its
/// name, or line mappings in its content.
pub open spec fn spec_mapping_guard(extension: Option<Seq<char>>, has_line_info: bool) -> bool {
    extension == Some("txt"@) || has_line_info
}

/// The reader that is tried first.
pub open spec fn spec_begin(hint: Option<DifType>) -> Request {
    if hint == Some(DifType::Proguard) {
        Request::ReadMapping
    } else {
        Request::OpenMacho
    }
}

/// What follows from the symbol file reader's answer. A file that it opens
/// is a symbol file, usable or not. One that it refuses goes on to the
/// mapping table reader where no format was asked for.
pub open spec fn spec_after_macho(hint: Option<DifType>, outcome: Result<MachoInfo, String>) -> Step {
    match outcome {
        Ok(mi) => Step::Done(Ok(DifRepr::Dsym(mi))),
        Err(message) => if hint is None {
            Step::ReadMapping
        } else {
            Step::Done(Err(CheckError::Adapter { format: DifType::Dsym, message }))
        },
    }
}

/// What becomes of a mapping table's summary. Where a format was asked
/// for it is taken as it is; else only where the guard speaks for it.
pub open spec fn spec_accept_mapping(
    hint: Option<DifType>,
    extension: Option<Seq<char>>,
    info: ProguardInfo,
) -> Result<DifRepr, CheckError> {
    if hint is Some || spec_mapping_guard(extension, info.has_line_info) {
        Ok(DifRepr::Proguard(info))
    } else {
        Err(CheckError::Classification)
    }
}

/// What follows from the attempt to read the file's bytes.
pub open spec fn spec_after_mapping(
    hint: Option<DifType>,
    extension: Option<Seq<char>>,
    outcome: Result<Vec<u8>, String>,
) -> Result<DifRepr, CheckError> {
    match outcome {
        Err(message) => Err(CheckError::Adapter { format: DifType::Proguard, message }),
        Ok(content) => match ProguardInfo::spec_parse(content@) {
            None => Err(CheckError::InvalidMapping),
            Some(info) => spec_accept_mapping(hint, extension, info),
        },
    }
}

/// Detection as a whole, from the answers of both readers. The second
/// answer counts only where the first reader was not asked or sent the
/// file on.
pub open spec fn spec_classify(
    hint: Option<DifType>,
    macho: Result<MachoInfo, String>,
    extension: Option<Seq<char>>,
    mapping: Result<Vec<u8>, String>,
) -> Result<DifRepr, CheckError> {
    match spec_begin(hint) {
        Request::ReadMapping => spec_after_mapping(hint, extension, mapping),
        Request::OpenMacho => match spec_after_macho(hint, macho) {
            Step::Done(r) => r,
            Step::ReadMapping => spec_after_mapping(hint, extension, mapping),
        },
    }
}

/// The format that detection assigns, if any.
pub open spec fn detected_format(r: Result<DifRepr, CheckError>) -> Option<DifType> {
    match r {
        Ok(repr) => Some(repr.spec_ty()),
        Err(_) => None,
    }
}

/// Whether a file that reads as a mapping table, and of which no format
/// was given, is to be taken for one.
pub fn mapping_guard(extension: Option<&str>, has_line_info: bool) -> (r: bool)
    ensures
        r == spec_mapping_guard(extension_view(extension), has_line_info),
{
    match extension {
        Some(e) => same_text(e, "txt") || has_line_info,
        None => has_line_info,
    }
}

/// Starts detection: says which reader is tried first.
pub fn begin(hint: Option<DifType>) -> (r: Request)
    ensures
        r == spec_begin(hint),
{
    match hint {
        Some(DifType::Proguard) => Request::ReadMapping,
        _ => Request::OpenMacho,
    }
}

/// Goes on from the symbol file reader's answer.
pub fn after_macho(hint: Option<DifType>, outcome: Result<MachoInfo, String>) -> (s: Step)
    requires
        outcome matches Ok(mi) ==> mi.wf(),
    ensures
        s == spec_after_macho(hint, outcome),
        s matches Step::Done(Ok(repr)) ==> repr.wf(),
{
    match outcome {
        Ok(mi) => Step::Done(Ok(DifRepr::Dsym(mi))),
        Err(message) => {
            if hint.is_none() {
                Step::ReadMapping
            } else {
                Step::Done(Err(CheckError::Adapter { format: DifType::Dsym, message }))
            }
        },
    }
}

/// Decides on a file that read as a mapping table.
pub fn accept_mapping(hint: Option<DifType>, extension: Option<&str>, info: ProguardInfo) -> (r:
    Result<DifRepr, CheckError>)
    ensures
        r == spec_accept_mapping(hint, extension_view(extension), info),
{
    if hint.is_some() || mapping_guard(extension, info.has_line_info) {
        Ok(DifRepr::Proguard(info))
    } else {
        Err(CheckError::Classification)
    }
}

/// Goes on from the attempt to read the file's bytes. Detection is over
/// after it, whatever came back.
pub fn after_mapping(
    hint: Option<DifType>,
    extension: Option<&str>,
    outcome: Result<Vec<u8>, String>,
) -> (r: Result<DifRepr, CheckError>)
    ensures
        r == spec_after_mapping(hint, extension_view(extension), outcome),
        r matches Ok(repr) ==> repr.wf(),
{
    match outcome {
        Err(message) => Err(CheckError::Adapter { format: DifType::Proguard, message }),
        Ok(content) => match ProguardInfo::parse(content.as_slice()) {
            None => Err(CheckError::InvalidMapping),
            Some(info) => accept_mapping(hint, extension, info),
        },
    }
}

/// Detection with the answers of both readers at hand.
pub fn classify(
    hint: Option<DifType>,
    macho: Result<MachoInfo, String>,
    extension: Option<&str>,
    mapping: Result<Vec<u8>, String>,
) -> (r: Result<DifRepr, CheckError>)
    requires
        macho matches Ok(mi) ==> mi.wf(),
    ensures
        r == spec_classify(hint, macho, extension_view(extension), mapping),
        r matches Ok(repr) ==> repr.wf(),
{
    match begin(hint) {
        Request::ReadMapping => after_mapping(hint, extension, mapping),
        Request::OpenMacho => match after_macho(hint, macho) {
            Step::Done(r) => r,
            Step::ReadMapping => after_mapping(hint, extension, mapping),
        },
    }
}

impl CheckError {
    /// The words that describe the error.
    pub open spec fn spec_message(&self) -> Seq<char> {
        match self {
            CheckError::Adapter { message, .. } => message@,
            CheckError::InvalidMapping => "invalid proguard mapping file"@,
            CheckError::Classification => "invalid debug info file"@,
        }
    }

    pub fn message(&self) -> (s: String)
        ensures
            s@ == self.spec_message(),
    {
        match self {
            CheckError::Adapter { message, .. } => message.clone(),
            CheckError::InvalidMapping => "invalid proguard mapping file".to_owned(),
            CheckError::Classification => "invalid debug info file".to_owned(),
        }
    }
}

/// Without a format asked for, the format that detection assigns depends
/// only on whether the symbol file reader opened the file, on the file's
/// bytes and on its extension: two runs that agree in these agree in the
/// format.
pub proof fn lemma_detection_deterministic(
    first: Result<MachoInfo, String>,
    second: Result<MachoInfo, String>,
    extension: Option<Seq<char>>,
    content: Result<Vec<u8>, String>,
    again: Result<Vec<u8>, String>,
)
    requires
        first is Ok <==> second is Ok,
        content is Ok <==> again is Ok,
        content is Ok ==> content->Ok_0@ == again->Ok_0@,
    ensures
        detected_format(spec_classify(None, first, extension, content)) == detected_format(
            spec_classify(None, second, extension, again),
        ),
{
}

/// A file that reads as a mapping table, whose extension is not the
/// conventional one and which maps no lines, is refused where no format
/// was asked for; with either of the two it is taken.
pub proof fn lemma_guard(extension: Option<Seq<char>>, info: ProguardInfo)
    ensures
        extension != Some("txt"@) && !info.has_line_info ==> spec_accept_mapping(
            None,
            extension,
            info,
        ) == Err::<DifRepr, CheckError>(CheckError::Classification),
        extension == Some("txt"@) || info.has_line_info ==> spec_accept_mapping(
            None,
            extension,
            info,
        ) == Ok::<DifRepr, CheckError>(DifRepr::Proguard(info)),
{
}

/// With a format asked for, only that format comes out, and the guard
/// plays no part.
pub proof fn lemma_explicit_format(
    format: DifType,
    macho: Result<MachoInfo, String>,
    extension: Option<Seq<char>>,
    mapping: Result<Vec<u8>, String>,
)
    ensures
        detected_format(spec_classify(Some(format), macho, extension, mapping)) is Some
            ==> detected_format(spec_classify(Some(format), macho, extension, mapping)) == Some(
            format,
        ),
        format == DifType::Dsym ==> (spec_classify(Some(format), macho, extension, mapping) is Ok
            <==> macho is Ok),
        format == DifType::Proguard ==> (spec_classify(Some(format), macho, extension, mapping)
            is Ok <==> mapping is Ok && ProguardInfo::spec_parse(mapping->Ok_0@) is Some),
{
}

/// A file that the symbol file reader opens is a symbol file, whatever
/// else it may read as.
pub proof fn lemma_symbol_file_first(
    mi: MachoInfo,
    extension: Option<Seq<char>>,
    mapping: Result<Vec<u8>, String>,
)
    ensures
        spec_classify(None, Ok(mi), extension, mapping) == Ok::<DifRepr, CheckError>(
            DifRepr::Dsym(mi),
        ),
{
}

} // verus!
