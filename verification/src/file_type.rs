//! The two source formats, told apart by file extension alone.

use vstd::prelude::*;
use crate::text::{chars_of, lowercase, lowercase_of, same_text};

verus! {

/// The format of a source image and of the derivatives made from it.
#[derive(Clone, Copy, Debug, PartialEq, Eq, Structural)]
pub enum FileType {
    Jpeg,
    Png,
}

/// The format that the extension `ext` stands for, whatever the case of its
/// letters: `jpg` and `jpeg` are JPEG, `png` is PNG, anything else is no
/// supported format.
pub open spec fn file_type_of(ext: Seq<char>) -> Option<FileType> {
    if lowercase(ext) == "jpg"@ || lowercase(ext) == "jpeg"@ {
        Some(FileType::Jpeg)
    } else if lowercase(ext) == "png"@ {
        Some(FileType::Png)
    } else {
        None
    }
}

impl FileType {
    pub fn from_extension(ext: &[char]) -> (out: Option<FileType>)
        ensures
            out == file_type_of(ext@),
    {
        let lower = lowercase_of(ext);
        let jpg = chars_of("jpg");
        let jpeg = chars_of("jpeg");
        let png = chars_of("png");
        if same_text(lower.as_slice(), jpg.as_slice()) || same_text(
            lower.as_slice(),
            jpeg.as_slice(),
        ) {
            Some(FileType::Jpeg)
        } else if same_text(lower.as_slice(), png.as_slice()) {
            Some(FileType::Png)
        } else {
            None
        }
    }
}

} // verus!
