//! One source file and one width: where the derivatives go, what they are
//! called, and how they are made from the source's bytes.

use vstd::prelude::*;
use image::{DynamicImage, ImageError};
use crate::failure::Failure;
use crate::file_type::{file_type_of, FileType};
use crate::image_optimizer::{
    fill_refusal, fit_height, fit_refusal, sibling, stream_refusal, webp_limit, ImageOptimizer,
};
use crate::manifest::{json_string, quote, record_layout, Record};
use crate::paths::{
    collapse, collapse_of, extension, extension_of, file_name, file_name_of, forward_slashes,
    forward_slashes_of, join, join_of, parent, parent_of, relative_to, relative_to_of, stem,
    stem_of,
};
use crate::pixels::{color_of, decode, decoded_geometry, geometry, ColorKind, Geometry};
use crate::text::{append, chars_of, decimal, decimal_of, lowercase, lowercase_of, string_of};

verus! {

/// The name of a derivative: the stem of the source, `_` and the width, for
/// a thumbnail `_thumbnail`, then `.` and the extension.
pub open spec fn derived_name(stem: Seq<char>, width: nat, thumbnail: bool, ext: Seq<char>) -> Seq<
    char,
> {
    stem + "_"@ + decimal(width) + (if thumbnail {
        "_thumbnail"@
    } else {
        Seq::empty()
    }) + "."@ + ext
}

/// The name under which a file is published: the prefix, `/`, the folders
/// of the source below its root, `/` and the file's name, with `/` for
/// every `\` of the folders and the name and with every run of `/` reduced
/// to one.
pub open spec fn public_name(prefix: Seq<char>, folders: Seq<char>, name: Seq<char>) -> Seq<char> {
    collapse(prefix + "/"@ + forward_slashes(folders + "/"@ + name))
}

/// What a `ConvertImage` holds, as text.
#[verifier::ext_equal]
pub struct Names {
    pub dest_file: Seq<char>,
    pub dest_parent: Seq<char>,
    pub dest_thumbnail: Seq<char>,
    pub file_name_src: Seq<char>,
    pub file_name_thumbnail: Seq<char>,
    pub file_name_thumbnail_webp: Seq<char>,
    pub file_name: Seq<char>,
    pub file_name_webp: Seq<char>,
    pub file_type: Seq<char>,
    pub width: u32,
    pub src_file: Seq<char>,
}

/// The root below which the source file `src_file` is looked at: its own
/// directory where the source of the run is a single file, else the source
/// directory of the run.
pub open spec fn root_of(src_file: Seq<char>, source_path: Seq<char>, source_is_file: bool) -> Seq<
    char,
> {
    if source_is_file {
        parent(src_file)
    } else {
        source_path
    }
}

/// The names for the source file `src_file` and the width `width`. The
/// destination mirrors the folders of the source below its root. A source
/// whose extension names no supported format, or that does not lie under
/// the root, has none.
pub open spec fn resolve(
    src_file: Seq<char>,
    source_path: Seq<char>,
    source_is_file: bool,
    destination: Seq<char>,
    prefix: Seq<char>,
    width: u32,
) -> Result<Names, Failure> {
    let name = file_name(src_file);
    let below = relative_to(parent(src_file), root_of(src_file, source_path, source_is_file));
    if extension(name) is None || file_type_of(extension(name).unwrap()) is None {
        Err(Failure::UnsupportedFormat)
    } else if below is None {
        Err(Failure::OutsideRoot)
    } else {
        let ext = extension(name).unwrap();
        let folders = below.unwrap();
        let dest_parent = join(destination, folders);
        let primary = derived_name(stem(name), width as nat, false, ext);
        let thumbnail = derived_name(stem(name), width as nat, true, ext);
        Ok(
            Names {
                dest_file: join(dest_parent, primary),
                dest_parent,
                dest_thumbnail: join(dest_parent, thumbnail),
                file_name_src: public_name(prefix, folders, name),
                file_name_thumbnail: public_name(prefix, folders, thumbnail),
                file_name_thumbnail_webp: public_name(
                    prefix,
                    folders,
                    derived_name(stem(name), width as nat, true, "webp"@),
                ),
                file_name: public_name(prefix, folders, primary),
                file_name_webp: public_name(
                    prefix,
                    folders,
                    derived_name(stem(name), width as nat, false, "webp"@),
                ),
                file_type: lowercase(ext),
                width,
                src_file,
            },
        )
    }
}

pub fn derived_name_of(stem: &[char], width: u32, thumbnail: bool, ext: &[char]) -> (out: Vec<char>)
    ensures
        out@ == derived_name(stem@, width as nat, thumbnail, ext@),
{
    let mut out: Vec<char> = Vec::new();
    append(&mut out, stem);
    append(&mut out, chars_of("_").as_slice());
    append(&mut out, decimal_of(width).as_slice());
    if thumbnail {
        append(&mut out, chars_of("_thumbnail").as_slice());
    }
    append(&mut out, chars_of(".").as_slice());
    append(&mut out, ext);
    assert(out@ == derived_name(stem@, width as nat, thumbnail, ext@));
    out
}

pub fn public_name_of(prefix: &[char], folders: &[char], name: &[char]) -> (out: String)
    ensures
        out@ == public_name(prefix@, folders@, name@),
{
    let mut below: Vec<char> = Vec::new();
    append(&mut below, folders);
    append(&mut below, chars_of("/").as_slice());
    append(&mut below, name);
    assert(below@ == folders@ + "/"@ + name@);
    let mut whole: Vec<char> = Vec::new();
    append(&mut whole, prefix);
    append(&mut whole, chars_of("/").as_slice());
    append(&mut whole, forward_slashes_of(below.as_slice()).as_slice());
    assert(whole@ == prefix@ + "/"@ + forward_slashes(below@));
    string_of(collapse_of(whole.as_slice()).as_slice())
}

/// One file to write: where, and what.
pub struct OutputFile {
    pub path: String,
    pub bytes: Vec<u8>,
}

/// A file to write, as its path and contents.
pub struct FileText {
    pub path: Seq<char>,
    pub bytes: Seq<u8>,
}

pub open spec fn file_texts(files: Seq<OutputFile>) -> Seq<FileText> {
    Seq::new(files.len(), |i: int| FileText { path: files[i].path@, bytes: files[i].bytes@ })
}

/// The files made, or the failure, as text.
pub open spec fn outcome_text(out: Result<Vec<OutputFile>, Failure>) -> Result<
    Seq<FileText>,
    Failure,
> {
    match out {
        Ok(files) => Ok(file_texts(files@)),
        Err(failure) => Err(failure),
    }
}

/// The format that the extension of the last component of `path` names.
pub open spec fn type_at(path: Seq<char>) -> Option<FileType> {
    match extension(file_name(path)) {
        Some(ext) => file_type_of(ext),
        None => None,
    }
}

/// The geometry of the derivative of width `nwidth` of a source of the
/// geometry `source`: square for a thumbnail, else of the proportions of
/// the source, in the layout of the source.
pub open spec fn derived_shape(source: Geometry, nwidth: u32, thumbnail: bool) -> Geometry {
    Geometry {
        width: nwidth,
        height: if thumbnail {
            nwidth
        } else {
            fit_height(source.width as nat, source.height as nat, nwidth as nat) as u32
        },
        color: source.color,
    }
}

/// Why the files of a derivative that goes to `target` are not made of a
/// source of the geometry `source`, where no encoder is to blame: the size
/// cannot be had, the path or the layout names no format, the format cannot
/// carry the pixels, or WebP cannot.
pub open spec fn render_refusal(
    target: Seq<char>,
    source: Geometry,
    nwidth: u32,
    webpimage: bool,
    thumbnail: bool,
) -> Option<Failure> {
    let size = if thumbnail {
        fill_refusal(source, nwidth)
    } else {
        fit_refusal(source, nwidth)
    };
    let shape = derived_shape(source, nwidth, thumbnail);
    if size is Some {
        size
    } else if type_at(target) is None {
        Some(Failure::UnsupportedFormat)
    } else if source.color == ColorKind::Other {
        Some(Failure::UnsupportedColor)
    } else if stream_refusal(type_at(target).unwrap(), shape) is Some {
        stream_refusal(type_at(target).unwrap(), shape)
    } else if webpimage {
        webp_limit(shape)
    } else {
        None
    }
}

/// Whether `files` are the files of the derivative `made`: its WebP stream
/// first, beside it, where one is asked for, then at its own path the
/// stream that the encoder of its format writes for it.
pub open spec fn files_of(made: ImageOptimizer, webpimage: bool, files: Seq<FileText>) -> bool {
    &&& type_at(made.nfilename@) is Some
    &&& files.len() == (if webpimage {
        2int
    } else {
        1int
    })
    &&& files.last().path == made.nfilename@
    &&& made.stream(type_at(made.nfilename@).unwrap()) matches Some(known) ==> files.last().bytes
        == known
    &&& webpimage ==> files[0].path == sibling(made.nfilename@, "webp"@)
}

/// Whether `files` are the files of a derivative of a source of the
/// geometry `source` that is as asked for and goes to `target`.
pub open spec fn files_as_asked(
    target: Seq<char>,
    source: Geometry,
    nwidth: u32,
    nquality: u8,
    webpimage: bool,
    thumbnail: bool,
    files: Seq<FileText>,
) -> bool {
    exists|made: ImageOptimizer|
        made.derived(source, target, nwidth, nquality, thumbnail) && #[trigger] files_of(
            made,
            webpimage,
            files,
        )
}

/// Whether `out` is what making the files of one derivative comes to. A
/// derivative that is refused gives that refusal. Any other gives the files
/// of a derivative of the source that is as asked for; only where a WebP
/// stream is asked for may its encoder fail instead.
pub open spec fn rendered(
    target: Seq<char>,
    source: Geometry,
    nwidth: u32,
    nquality: u8,
    webpimage: bool,
    thumbnail: bool,
    out: Result<Seq<FileText>, Failure>,
) -> bool {
    match render_refusal(target, source, nwidth, webpimage, thumbnail) {
        Some(known) => out == Err::<Seq<FileText>, Failure>(known),
        None => match out {
            Ok(files) => files_as_asked(
                target,
                source,
                nwidth,
                nquality,
                webpimage,
                thumbnail,
                files,
            ),
            Err(failure) => webpimage && failure == Failure::Encode,
        },
    }
}

/// A source file with the places and names of its derivatives at one width.
#[derive(Debug)]
pub struct ConvertImage {
    pub dest_file: String,
    pub dest_parent: String,
    pub dest_thumbnail: String,
    pub file_name_src: String,
    pub file_name_thumbnail: String,
    pub file_name_thumbnail_webp: String,
    pub file_name: String,
    pub file_name_webp: String,
    pub file_type: String,
    pub width: u32,
    pub src_file: String,
}

impl View for ConvertImage {
    type V = Names;

    open spec fn view(&self) -> Names {
        Names {
            dest_file: self.dest_file@,
            dest_parent: self.dest_parent@,
            dest_thumbnail: self.dest_thumbnail@,
            file_name_src: self.file_name_src@,
            file_name_thumbnail: self.file_name_thumbnail@,
            file_name_thumbnail_webp: self.file_name_thumbnail_webp@,
            file_name: self.file_name@,
            file_name_webp: self.file_name_webp@,
            file_type: self.file_type@,
            width: self.width,
            src_file: self.src_file@,
        }
    }
}

impl ConvertImage {
    /// The places and names for the source file `file_name_src`, given by
    /// its absolute path, in a run over `source_path` into `destination`.
    pub fn new(
        file_name_src: &str,
        source_path: &str,
        source_is_file: bool,
        destination: &str,
        prefix: &str,
        width: u32,
    ) -> (out: Result<ConvertImage, Failure>)
        ensures
            match out {
                Ok(made) => resolve(
                    file_name_src@,
                    source_path@,
                    source_is_file,
                    destination@,
                    prefix@,
                    width,
                ) == Ok::<Names, Failure>(made@),
                Err(failure) => resolve(
                    file_name_src@,
                    source_path@,
                    source_is_file,
                    destination@,
                    prefix@,
                    width,
                ) == Err::<Names, Failure>(failure),
            },
    {
        let src_file = chars_of(file_name_src);
        let name = file_name_of(src_file.as_slice());
        let directory = parent_of(src_file.as_slice());
        let ext = match extension_of(name.as_slice()) {
            Some(ext) => ext,
            None => {
                return Err(Failure::UnsupportedFormat);
            },
        };
        if FileType::from_extension(ext.as_slice()).is_none() {
            return Err(Failure::UnsupportedFormat);
        }
        let root = if source_is_file {
            parent_of(src_file.as_slice())
        } else {
            chars_of(source_path)
        };
        let below = match relative_to_of(directory.as_slice(), root.as_slice()) {
            Some(below) => below,
            None => {
                return Err(Failure::OutsideRoot);
            },
        };
        let folders = below;
        let dest_parent = join_of(chars_of(destination).as_slice(), folders.as_slice());
        let stem = stem_of(name.as_slice());
        let primary = derived_name_of(stem.as_slice(), width, false, ext.as_slice());
        let thumbnail = derived_name_of(stem.as_slice(), width, true, ext.as_slice());
        let webp = chars_of("webp");
        let primary_webp = derived_name_of(stem.as_slice(), width, false, webp.as_slice());
        let thumbnail_webp = derived_name_of(stem.as_slice(), width, true, webp.as_slice());
        let lead = chars_of(prefix);
        let made = ConvertImage {
            dest_file: string_of(join_of(dest_parent.as_slice(), primary.as_slice()).as_slice()),
            dest_parent: string_of(dest_parent.as_slice()),
            dest_thumbnail: string_of(
                join_of(dest_parent.as_slice(), thumbnail.as_slice()).as_slice(),
            ),
            file_name_src: public_name_of(lead.as_slice(), folders.as_slice(), name.as_slice()),
            file_name_thumbnail: public_name_of(
                lead.as_slice(),
                folders.as_slice(),
                thumbnail.as_slice(),
            ),
            file_name_thumbnail_webp: public_name_of(
                lead.as_slice(),
                folders.as_slice(),
                thumbnail_webp.as_slice(),
            ),
            file_name: public_name_of(lead.as_slice(), folders.as_slice(), primary.as_slice()),
            file_name_webp: public_name_of(
                lead.as_slice(),
                folders.as_slice(),
                primary_webp.as_slice(),
            ),
            file_type: string_of(lowercase_of(ext.as_slice()).as_slice()),
            width,
            src_file: string_of(src_file.as_slice()),
        };
        assert(made@ =~= resolve(
            file_name_src@,
            source_path@,
            source_is_file,
            destination@,
            prefix@,
            width,
        )->Ok_0);
        Ok(made)
    }

    /// The format that the extension of the source file names.
    pub open spec fn source_type(&self) -> Option<FileType> {
        type_at(self.src_file@)
    }

    /// The path that a derivative goes to.
    pub open spec fn target(&self, thumbnail: bool) -> Seq<char> {
        if thumbnail {
            self.dest_thumbnail@
        } else {
            self.dest_file@
        }
    }

    /// The files of one derivative of `original_image`: its WebP stream
    /// first, where one is asked for, then the stream in the format of its
    /// path.
    pub fn render(
        &self,
        original_image: &DynamicImage,
        nwidth: u32,
        nquality: u8,
        webpimage: bool,
        thumbnail: bool,
    ) -> (out: Result<Vec<OutputFile>, Failure>)
        ensures
            rendered(
                self.target(thumbnail),
                geometry(*original_image),
                nwidth,
                nquality,
                webpimage,
                thumbnail,
                outcome_text(out),
            ),
    {
        let made = if thumbnail {
            ImageOptimizer::new_thumbnail(
                original_image,
                self.dest_thumbnail.clone(),
                nwidth,
                nquality,
            )
        } else {
            ImageOptimizer::new(original_image, self.dest_file.clone(), nwidth, nquality)
        };
        let optimized = match made {
            Ok(optimized) => optimized,
            Err(failure) => {
                return Err(failure);
            },
        };
        let kind = match optimized.extension() {
            Some(ext) => FileType::from_extension(chars_of(ext.as_str()).as_slice()),
            None => None,
        };
        let kind = match kind {
            Some(kind) => kind,
            None => {
                return Err(Failure::UnsupportedFormat);
            },
        };
        if color_of(original_image) == ColorKind::Other {
            return Err(Failure::UnsupportedColor);
        }
        if let Some(failure) = optimized.refuses(kind) {
            return Err(failure);
        }
        let mut files: Vec<OutputFile> = Vec::new();
        if webpimage {
            if let Some(failure) = optimized.refuses_webp() {
                return Err(failure);
            }
            match optimized.save_webp_image() {
                Ok(bytes) => {
                    files.push(OutputFile { path: optimized.webp_filename(), bytes });
                },
                Err(failure) => {
                    return Err(failure);
                },
            }
        }
        let stream = match kind {
            FileType::Jpeg => optimized.save_jpg_image(),
            FileType::Png => optimized.save_png_image(),
        };
        let ghost witness = optimized;
        proof {
            let source = geometry(*original_image);
            assert(witness.shape() == derived_shape(source, nwidth, thumbnail));
            assert(type_at(self.target(thumbnail)) == Some(kind));
            assert(render_refusal(self.target(thumbnail), source, nwidth, webpimage, thumbnail)
                is None);
            assert(witness.derived(source, self.target(thumbnail), nwidth, nquality, thumbnail));
        }
        match stream {
            Ok(bytes) => {
                files.push(OutputFile { path: optimized.nfilename, bytes });
                assert(files_of(witness, webpimage, file_texts(files@)));
                Ok(files)
            },
            Err(failure) => Err(failure),
        }
    }

    /// What the decoder made of the source's bytes, as this library reports
    /// it.
    pub fn decoded(outcome: Result<DynamicImage, ImageError>) -> (out: Result<
        DynamicImage,
        Failure,
    >)
        ensures
            match outcome {
                Ok(image) => out == Ok::<DynamicImage, Failure>(image),
                Err(_) => out == Err::<DynamicImage, Failure>(Failure::Decode),
            },
    {
        match outcome {
            Ok(image) => Ok(image),
            Err(_) => Err(Failure::Decode),
        }
    }

    /// Whether `out` is what making the files of one derivative from the
    /// bytes `source` of the source file comes to. A source whose extension
    /// names no format is refused for that; bytes in which the decoder of
    /// that format finds no image are refused for that; any other source
    /// gives what `rendered` says of an image of the geometry that the
    /// decoder finds.
    pub open spec fn resized(
        &self,
        source: Seq<u8>,
        nwidth: u32,
        nquality: u8,
        webpimage: bool,
        thumbnail: bool,
        out: Result<Seq<FileText>, Failure>,
    ) -> bool {
        match self.source_type() {
            None => out == Err::<Seq<FileText>, Failure>(Failure::UnsupportedFormat),
            Some(kind) => match decoded_geometry(source, kind) {
                None => out == Err::<Seq<FileText>, Failure>(Failure::Decode),
                Some(found) => rendered(
                    self.target(thumbnail),
                    found,
                    nwidth,
                    nquality,
                    webpimage,
                    thumbnail,
                    out,
                ),
            },
        }
    }

    /// The files of one derivative, made from the bytes of the source file:
    /// the bytes are decoded in the format that the source's extension
    /// names, and `render` does the rest.
    pub fn resize_one(
        &self,
        source: &[u8],
        nwidth: u32,
        nquality: u8,
        webpimage: bool,
        thumbnail: bool,
    ) -> (out: Result<Vec<OutputFile>, Failure>)
        ensures
            self.resized(source@, nwidth, nquality, webpimage, thumbnail, outcome_text(out)),
    {
        let path = chars_of(self.src_file.as_str());
        let name = file_name_of(path.as_slice());
        let kind = match extension_of(name.as_slice()) {
            Some(ext) => FileType::from_extension(ext.as_slice()),
            None => None,
        };
        let kind = match kind {
            Some(kind) => kind,
            None => {
                return Err(Failure::UnsupportedFormat);
            },
        };
        match Self::decoded(decode(source, kind)) {
            Ok(original_image) => self.render(
                &original_image,
                nwidth,
                nquality,
                webpimage,
                thumbnail,
            ),
            Err(failure) => Err(failure),
        }
    }

    /// The record of this source file in the manifest.
    pub fn to_json(&self) -> (out: String)
        ensures
            out@ == manifest_record(self@),
    {
        let record = Record {
            file_name_src: Self::quoted(quote(self.file_name_src.as_str())),
            file_name: Self::quoted(quote(self.file_name.as_str())),
            file_name_webp: Self::quoted(quote(self.file_name_webp.as_str())),
            file_name_thumbnail: Self::quoted(quote(self.file_name_thumbnail.as_str())),
            file_name_thumbnail_webp: Self::quoted(quote(self.file_name_thumbnail_webp.as_str())),
            file_type: Self::quoted(quote(self.file_type.as_str())),
            width: self.width,
        };
        record.to_text()
    }

    /// The JSON string that the serializer made; the empty text where it
    /// made none.
    pub fn quoted(outcome: Result<String, serde_json::Error>) -> (out: String)
        ensures
            match outcome {
                Ok(text) => out == text,
                Err(_) => out@ == Seq::<char>::empty(),
            },
    {
        match outcome {
            Ok(text) => text,
            Err(_) => String::new(),
        }
    }
}

/// The record of a source file in the manifest: an object whose members are
/// its public names and its type, each as a JSON string, and its width.
pub open spec fn manifest_record(names: Names) -> Seq<char> {
    record_layout(
        json_string(names.file_name_src),
        json_string(names.file_name),
        json_string(names.file_name_webp),
        json_string(names.file_name_thumbnail),
        json_string(names.file_name_thumbnail_webp),
        json_string(names.file_type),
        decimal(names.width as nat),
    )
}

} // verus!
