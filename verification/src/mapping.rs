//! What a Proguard mapping table tells about itself. The table is read by
//! the `proguard` crate; this module asks it three questions about a file's
//! bytes and keeps the answers.

use vstd::prelude::*;

verus! {

/// Whether the `proguard` crate takes the bytes for a mapping table.
pub uninterp spec fn proguard_is_valid(content: Seq<u8>) -> bool;

/// Whether the `proguard` crate finds a line mapping in the bytes.
pub uninterp spec fn proguard_has_line_info(content: Seq<u8>) -> bool;

/// The build identifier that the `proguard` crate derives from the bytes, as
/// a big-endian 128-bit number.
pub uninterp spec fn proguard_uuid(content: Seq<u8>) -> u128;

/// Calls `proguard::ProguardMapping::is_valid` on a mapping made of the
/// bytes. The answer depends on the bytes alone: the crate looks, among the
/// first records, for a class line followed by a member line.
#[verifier::external_body]
fn mapping_is_valid(content: &[u8]) -> (r: bool)
    ensures
        r == proguard_is_valid(content@),
{
    proguard::ProguardMapping::new(content).is_valid()
}

/// Calls `proguard::ProguardMapping::has_line_info` on a mapping made of the
/// bytes. The answer depends on the bytes alone: the crate walks the records
/// and looks for a method line with a line mapping.
#[verifier::external_body]
fn mapping_has_line_info(content: &[u8]) -> (r: bool)
    ensures
        r == proguard_has_line_info(content@),
{
    proguard::ProguardMapping::new(content).has_line_info()
}

/// Calls `proguard::ProguardMapping::uuid` on a mapping made of the bytes,
/// and `uuid::Uuid::as_u128` on what it returns. The identifier is a name-based
/// hash of the bytes under a fixed namespace, so it depends on the bytes alone.
#[verifier::external_body]
fn mapping_uuid(content: &[u8]) -> (r: u128)
    ensures
        r == proguard_uuid(content@),
{
    proguard::ProguardMapping::new(content).uuid().as_u128()
}

/// The summary of one mapping table.
#[derive(Clone, Copy, Debug, PartialEq, Eq, Structural)]
pub struct ProguardInfo {
    /// The table's build identifier, as a big-endian 128-bit number.
    pub uuid: u128,
    /// Whether the table maps source lines, and not only names.
    pub has_line_info: bool,
}

impl ProguardInfo {
    /// The summary of the bytes of a file, where they are a mapping table.
    pub open spec fn spec_parse(content: Seq<u8>) -> Option<ProguardInfo> {
        if proguard_is_valid(content) {
            Some(
                ProguardInfo {
                    uuid: proguard_uuid(content),
                    has_line_info: proguard_has_line_info(content),
                },
            )
        } else {
            None
        }
    }

    /// Reads the bytes of a file as a mapping table. `None` means that they
    /// are none.
    pub fn parse(content: &[u8]) -> (r: Option<ProguardInfo>)
        ensures
            r == Self::spec_parse(content@),
    {
        if mapping_is_valid(content) {
            let uuid: u128 = mapping_uuid(content);
            let has_line_info: bool = mapping_has_line_info(content);
            Some(ProguardInfo { uuid, has_line_info })
        } else {
            None
        }
    }
}

} // verus!
