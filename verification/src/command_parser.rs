//! What a run is asked for on the command line, and the requests that it
//! amounts to.

use vstd::prelude::*;
use crate::failure::Failure;
use crate::paths::{join, join_of};
use crate::text::{chars_of, string_of};

verus! {

/// The arguments of the program.
#[derive(Debug)]
pub struct Args {
    /// The destination directory.
    pub destination: String,
    /// The name of the manifest file below the destination; empty where no
    /// manifest is asked for.
    pub jsonfile: String,
    /// The source: a directory, or a single file.
    pub source: String,
    /// What the public names of the manifest begin with.
    pub prefix: String,
    /// The qualities of the derivatives.
    pub qualities: Vec<u8>,
    /// The widths of the derivatives.
    pub widths: Vec<u32>,
    /// Whether each source file gets a thumbnail.
    pub thumbnail: bool,
    /// Whether each derivative gets a WebP stream beside it.
    pub webp: bool,
}

/// The quality that goes with the width at `position`: the one quality
/// where there is only one, else the quality at the same position.
pub open spec fn quality_at(qualities: Seq<u8>, position: int) -> u8 {
    if qualities.len() == 1 {
        qualities[0]
    } else {
        qualities[position]
    }
}

/// Whether every width can be given a quality: there is one quality for
/// all, or one for each.
pub open spec fn pairable(widths: Seq<u32>, qualities: Seq<u8>) -> bool {
    qualities.len() == 1 || qualities.len() >= widths.len()
}

/// Whether the width at `position` is above zero and its quality at most
/// 100.
pub open spec fn sound(widths: Seq<u32>, qualities: Seq<u8>, position: int) -> bool {
    widths[position] > 0 && quality_at(qualities, position) <= 100
}

/// Whether every width is above zero and every quality that is used at most
/// 100.
pub open spec fn in_range(widths: Seq<u32>, qualities: Seq<u8>) -> bool {
    forall|i: int| 0 <= i < widths.len() ==> #[trigger] sound(widths, qualities, i)
}

/// The requests that the widths and qualities amount to: each width with
/// its quality, in the order of the widths.
pub open spec fn paired(widths: Seq<u32>, qualities: Seq<u8>) -> Result<Seq<(u32, u8)>, Failure> {
    if !pairable(widths, qualities) {
        Err(Failure::Unpaired)
    } else if !in_range(widths, qualities) {
        Err(Failure::InvalidRequest)
    } else {
        Ok(Seq::new(widths.len(), |i: int| (widths[i], quality_at(qualities, i))))
    }
}

impl Args {
    /// The requests of the run, one for each width.
    pub fn requests(&self) -> (out: Result<Vec<(u32, u8)>, Failure>)
        ensures
            match out {
                Ok(pairs) => paired(self.widths@, self.qualities@) == Ok::<
                    Seq<(u32, u8)>,
                    Failure,
                >(pairs@),
                Err(failure) => paired(self.widths@, self.qualities@) == Err::<
                    Seq<(u32, u8)>,
                    Failure,
                >(failure),
            },
    {
        if self.qualities.len() != 1 && self.qualities.len() < self.widths.len() {
            return Err(Failure::Unpaired);
        }
        let mut pairs: Vec<(u32, u8)> = Vec::new();
        let mut i: usize = 0;
        while i < self.widths.len()
            invariant
                i <= self.widths.len(),
                pairable(self.widths@, self.qualities@),
                pairs@.len() == i,
                forall|j: int|
                    0 <= j < i ==> pairs@[j] == (
                        self.widths@[j],
                        #[trigger] quality_at(self.qualities@, j),
                    ),
                forall|j: int| 0 <= j < i ==> #[trigger] sound(self.widths@, self.qualities@, j),
            decreases self.widths.len() - i,
        {
            let width = self.widths[i];
            let quality = if self.qualities.len() == 1 {
                self.qualities[0]
            } else {
                self.qualities[i]
            };
            if width == 0 || quality > 100 {
                assert(!sound(self.widths@, self.qualities@, i as int));
                return Err(Failure::InvalidRequest);
            }
            pairs.push((width, quality));
            i += 1;
        }
        assert(pairs@ =~= Seq::new(
            self.widths@.len(),
            |i: int| (self.widths@[i], quality_at(self.qualities@, i)),
        ));
        Ok(pairs)
    }

    /// Where the manifest goes: the file named `jsonfile` in the directory
    /// `destination_path`, the absolute path of the destination. Nowhere,
    /// where no manifest is asked for.
    pub fn manifest_path(&self, destination_path: &str) -> (out: Option<String>)
        ensures
            match out {
                Some(path) => self.jsonfile@.len() > 0 && path@ == join(
                    destination_path@,
                    self.jsonfile@,
                ),
                None => self.jsonfile@.len() == 0,
            },
    {
        let name = chars_of(self.jsonfile.as_str());
        if name.len() == 0 {
            None
        } else {
            Some(string_of(join_of(chars_of(destination_path).as_slice(), name.as_slice()).as_slice()))
        }
    }
}

} // verus!
