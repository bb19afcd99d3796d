//! A run that gives every source file a thumbnail and every derivative a
//! WebP stream, and that hands out its part of the manifest.

use vstd::prelude::*;
use crate::manifest::{join_records, joined};
use crate::resize_image::{Action, Event, Phase, Progress, ResizeImage};

verus! {

/// A run with thumbnails and WebP streams, and its records.
pub struct ResizeImages {
    pub pass: ResizeImage,
}

impl View for ResizeImages {
    type V = Progress;

    open spec fn view(&self) -> Progress {
        self.pass@
    }
}

impl ResizeImages {
    /// A run that has not begun. The two absolute paths and whether the
    /// source is a single file are what the file system says of `source`
    /// and `destination`.
    pub fn new(
        source: String,
        source_path: String,
        source_is_file: bool,
        destination: String,
        destination_path: String,
        prefix: String,
        width: u32,
        quality: u8,
    ) -> (out: ResizeImages)
        ensures
            out.pass.source == source,
            out.pass.source_path == source_path,
            out.pass.source_is_file == source_is_file,
            out.pass.destination == destination,
            out.pass.destination_path == destination_path,
            out.pass.prefix == prefix,
            out.pass.width == width,
            out.pass.quality == quality,
            out.pass.webpimage,
            out.pass.thumbnail,
            out@ == (Progress {
                phase: Phase::Ready,
                entries: Seq::empty(),
                position: 0,
                pending: None,
                json: Seq::empty(),
                skipped: Seq::empty(),
                stopped: None,
            }),
            out@.wf(),
    {
        ResizeImages {
            pass: ResizeImage::new(
                source,
                source_path,
                source_is_file,
                destination,
                destination_path,
                prefix,
                width,
                quality,
                true,
                true,
            ),
        }
    }

    /// The run takes what the last action brought and answers with the next
    /// action, as `ResizeImage::run_resize_images` does.
    pub fn run_resize_images(&mut self, event: Event) -> (out: Action)
        ensures
            old(self).pass.follows(event, &final(self).pass, out),
    {
        self.pass.run_resize_images(event)
    }

    /// The records of the source files converted so far, with a comma and a
    /// space between each two.
    pub fn get_metadata_json(&self) -> (out: String)
        ensures
            out@ == joined(self@.json, ", "@),
    {
        join_records(&self.pass.json)
    }
}

} // verus!
