use vstd::prelude::*;

verus! {

/// The failure kinds of a single mesh conversion call.
///
/// Every conversion is all-or-nothing: a decoder either returns a complete
/// mesh or one of these values, never partial output.
#[derive(Debug, Clone, Copy, PartialEq, Eq, Structural)]
pub enum ConversionError {
    /// The input has no version line at all (no newline found).
    MalformedHeader,
    /// The version line is present but matches none of the known versions.
    UnsupportedVersion,
    /// The file declares bones, subsets or facial-capture data, which this
    /// codec rejects rather than decodes.
    UnsupportedFeature,
    /// A structural violation in the body: a wrong declared record size,
    /// bad bracket syntax, a bad numeric literal, a wrong component count,
    /// or a face index out of range.
    MalformedBody,
    /// The buffer ends before a declared field or record is complete.
    TruncatedInput,
    /// Polygon-mesh input with no sub-mesh or no face indices.
    NoMeshData,
    /// The external polygon-mesh reader rejected its input.
    ObjParse,
}

} // verus!
