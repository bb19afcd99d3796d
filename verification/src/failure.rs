//! What can go wrong while derivatives are produced.

use vstd::prelude::*;

verus! {

/// The reasons for which a run, or the work on one source file, ends early.
#[derive(Clone, Copy, Debug, PartialEq, Eq, Structural)]
pub enum Failure {
    /// The source path names neither a file nor a directory.
    SourceNotFound,
    /// The source file has no extension, or one that is none of `jpg`,
    /// `jpeg` and `png`.
    UnsupportedFormat,
    /// The source file does not lie under the source root.
    OutsideRoot,
    /// The source bytes are no image of the format their extension names.
    Decode,
    /// The source image has no pixels.
    EmptyImage,
    /// The derivative would have no pixels.
    EmptyDerivative,
    /// A derivative's size cannot be represented or held in memory.
    TooLarge,
    /// The pixel layout is one that the requested format cannot carry.
    UnsupportedColor,
    /// The pixels do not have the size that the derivative states.
    Inconsistent,
    /// The encoder refused the image.
    Encode,
    /// A directory could not be created, or a file not read or written.
    Storage,
    /// A report came that does not answer what the run had asked for.
    OutOfTurn,
    /// There are fewer qualities than widths, and more than one.
    Unpaired,
    /// A width is zero, or a quality above 100.
    InvalidRequest,
    /// The manifest could not be written.
    ManifestWrite,
}

impl Failure {
    /// Whether nothing more can be produced after this failure. Every other
    /// failure costs one source file and the run goes on.
    pub open spec fn fatal(self) -> bool {
        self == Failure::SourceNotFound || self == Failure::ManifestWrite || self
            == Failure::Unpaired || self == Failure::InvalidRequest || self == Failure::OutOfTurn
    }

    pub fn is_fatal(&self) -> (out: bool)
        ensures
            out == self.fatal(),
    {
        match self {
            Failure::SourceNotFound => true,
            Failure::ManifestWrite => true,
            Failure::Unpaired => true,
            Failure::InvalidRequest => true,
            Failure::OutOfTurn => true,
            _ => false,
        }
    }
}

} // verus!
