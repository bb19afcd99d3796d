//! One request over all source files. The run decides and the surroundings
//! act: each call takes what the last action brought and answers with the
//! next action, until there is nothing left to do.

use vstd::prelude::*;
use crate::convert_image::{
    file_texts, manifest_record, render_refusal, rendered, resolve, type_at, ConvertImage,
    FileText, Names, OutputFile,
};
use crate::failure::Failure;
use crate::image_optimizer::sibling;
use crate::manifest::texts;
use crate::pixels::{decoded_geometry, Geometry};
use crate::paths::{escaped, escaped_of};
use crate::text::{append, chars_of, string_of};

verus! {

/// Where a run stands.
#[derive(Clone, Copy, Debug, PartialEq, Eq, Structural)]
pub enum Phase {
    /// Nothing was asked for yet.
    Ready,
    /// The source files are being looked for.
    Discovering,
    /// The current source file is being read.
    Loading,
    /// The derivatives of the current source file are being written.
    Storing,
    /// The run is over.
    Finished,
}

/// What the surroundings bring back from an action.
pub enum Event {
    /// The run may begin.
    Begin,
    /// The source files that were found, in the order in which they are to
    /// be worked on.
    Discovered(Vec<String>),
    /// The absolute path of the file that was asked for, and its bytes.
    Loaded { path: String, bytes: Vec<u8> },
    /// The files were written.
    Stored,
    /// The action could not be carried out.
    Failed,
}

/// What the surroundings are asked to do next.
pub enum Action {
    /// Find the files that match one of the patterns, whatever the case of
    /// their letters.
    Discover { patterns: Vec<String> },
    /// Find the absolute path of the file and read it.
    Load { file: String },
    /// Create the directory, with the directories above it where they are
    /// missing, and write the files.
    Store { directory: String, files: Vec<OutputFile> },
    /// Nothing: the run is over.
    Finish,
}

/// What a run goes on from: an event, after the work that it called for.
pub enum Report {
    Begin,
    Discovered(Vec<String>),
    /// The current source file was read and its derivatives were made.
    Converted { record: String, directory: String, files: Vec<OutputFile> },
    /// The current action, or the work on what it brought, failed.
    Refused(Failure),
    Stored,
    /// An event that cannot come where the run stands.
    Misplaced,
}

pub enum ActionText {
    Discover(Seq<Seq<char>>),
    Load(Seq<char>),
    Store(Seq<char>, Seq<FileText>),
    Finish,
}

pub enum ReportText {
    Begin,
    Discovered(Seq<Seq<char>>),
    Converted(Seq<char>, Seq<char>, Seq<FileText>),
    Refused(Failure),
    Stored,
    Misplaced,
}

impl View for Action {
    type V = ActionText;

    open spec fn view(&self) -> ActionText {
        match self {
            Action::Discover { patterns } => ActionText::Discover(texts(patterns@)),
            Action::Load { file } => ActionText::Load(file@),
            Action::Store { directory, files } => ActionText::Store(directory@, file_texts(files@)),
            Action::Finish => ActionText::Finish,
        }
    }
}

impl View for Report {
    type V = ReportText;

    open spec fn view(&self) -> ReportText {
        match self {
            Report::Begin => ReportText::Begin,
            Report::Discovered(entries) => ReportText::Discovered(texts(entries@)),
            Report::Converted { record, directory, files } => ReportText::Converted(
                record@,
                directory@,
                file_texts(files@),
            ),
            Report::Refused(failure) => ReportText::Refused(*failure),
            Report::Stored => ReportText::Stored,
            Report::Misplaced => ReportText::Misplaced,
        }
    }
}

/// How far a run has come.
pub struct Progress {
    pub phase: Phase,
    /// The source files, in the order in which they are worked on.
    pub entries: Seq<Seq<char>>,
    /// How many source files are done with, converted or skipped.
    pub position: nat,
    /// The record of the source file whose derivatives are being written.
    pub pending: Option<Seq<char>>,
    /// The records of the source files converted so far.
    pub json: Seq<Seq<char>>,
    /// Why each source file skipped so far was skipped.
    pub skipped: Seq<Failure>,
    /// Why the run was given up, if it was.
    pub stopped: Option<Failure>,
}

impl Progress {
    /// The counts add up: every source file that is done with was converted
    /// or skipped, and a record is pending exactly while files are written.
    pub open spec fn wf(self) -> bool {
        &&& self.position <= self.entries.len()
        &&& self.json.len() + self.skipped.len() == self.position
        &&& self.pending is Some <==> self.phase == Phase::Storing
        &&& (self.phase == Phase::Loading || self.phase == Phase::Storing) ==> self.position
            < self.entries.len()
        &&& (self.phase == Phase::Ready || self.phase == Phase::Discovering) ==> self.entries.len()
            == 0
        &&& (self.phase == Phase::Finished && self.stopped is None) ==> self.position
            == self.entries.len()
    }

    /// The run turns to the next source file, or ends where none is left.
    pub open spec fn upcoming(self) -> (Progress, ActionText) {
        if self.position < self.entries.len() {
            (
                Progress { phase: Phase::Loading, pending: None, ..self },
                ActionText::Load(self.entries[self.position as int]),
            )
        } else {
            (Progress { phase: Phase::Finished, pending: None, ..self }, ActionText::Finish)
        }
    }

    /// The run is given up.
    pub open spec fn halted(self, failure: Failure) -> (Progress, ActionText) {
        (
            Progress { phase: Phase::Finished, pending: None, stopped: Some(failure), ..self },
            ActionText::Finish,
        )
    }

    /// The current source file is skipped.
    pub open spec fn skip(self, failure: Failure) -> (Progress, ActionText) {
        (Progress {
            position: self.position + 1,
            skipped: self.skipped.push(failure),
            ..self
        }).upcoming()
    }

    /// The run after `report`, and the action that it asks for. A run over
    /// a single file begins with that file; any other begins by looking for
    /// its source files. A failure
    /// while one source file is read, converted or written costs that file
    /// and the run goes on, unless it is a fatal one, which ends the run as
    /// the lack of the list of source files does, and as a report does that
    /// does not answer the last action.
    pub open spec fn next(self, sought: Sought, report: ReportText) -> (Progress, ActionText) {
        match (self.phase, report) {
            (Phase::Ready, ReportText::Begin) => match sought {
                Sought::File(file) => (Progress {
                    entries: seq![file],
                    position: 0,
                    ..self
                }).upcoming(),
                Sought::Patterns(patterns) => (
                    Progress { phase: Phase::Discovering, ..self },
                    ActionText::Discover(patterns),
                ),
            },
            (Phase::Discovering, ReportText::Discovered(entries)) => (Progress {
                entries,
                position: 0,
                ..self
            }).upcoming(),
            (Phase::Discovering, ReportText::Refused(_)) => self.halted(Failure::SourceNotFound),
            (Phase::Loading, ReportText::Converted(record, directory, files)) => {
                if self.position < self.entries.len() {
                    (
                        Progress { phase: Phase::Storing, pending: Some(record), ..self },
                        ActionText::Store(directory, files),
                    )
                } else {
                    self.halted(Failure::OutOfTurn)
                }
            },
            (Phase::Loading, ReportText::Refused(failure)) => {
                if self.position >= self.entries.len() {
                    self.halted(Failure::OutOfTurn)
                } else if failure.fatal() {
                    self.halted(failure)
                } else {
                    self.skip(failure)
                }
            },
            (Phase::Storing, ReportText::Stored) => {
                if self.position < self.entries.len() && self.pending is Some {
                    (Progress {
                        position: self.position + 1,
                        json: self.json.push(self.pending.unwrap()),
                        ..self
                    }).upcoming()
                } else {
                    self.halted(Failure::OutOfTurn)
                }
            },
            (Phase::Storing, ReportText::Refused(failure)) => {
                if self.position >= self.entries.len() {
                    self.halted(Failure::OutOfTurn)
                } else if failure.fatal() {
                    self.halted(failure)
                } else {
                    self.skip(failure)
                }
            },
            _ => self.halted(Failure::OutOfTurn),
        }
    }
}

/// The paths of `files`, in order.
pub open spec fn paths_of(files: Seq<FileText>) -> Seq<Seq<char>> {
    Seq::new(files.len(), |i: int| files[i].path)
}

/// The paths of the files of one derivative: that of its WebP stream
/// first, where one is asked for, then its own.
pub open spec fn derivative_paths(target: Seq<char>, webpimage: bool) -> Seq<Seq<char>> {
    if webpimage {
        seq![sibling(target, "webp"@), target]
    } else {
        seq![target]
    }
}

/// The paths of the files written for one source file: those of the
/// primary derivative, then those of the thumbnail where one is asked for.
pub open spec fn planned_paths(names: Names, webpimage: bool, thumbnail: bool) -> Seq<Seq<char>> {
    if thumbnail {
        derivative_paths(names.dest_file, webpimage) + derivative_paths(
            names.dest_thumbnail,
            webpimage,
        )
    } else {
        derivative_paths(names.dest_file, webpimage)
    }
}

/// The report that an event amounts to where it calls for no work: every
/// event but the one that brings a source file's bytes.
pub open spec fn told(event: Event) -> ReportText {
    match event {
        Event::Begin => ReportText::Begin,
        Event::Discovered(entries) => ReportText::Discovered(texts(entries@)),
        Event::Stored => ReportText::Stored,
        Event::Failed => ReportText::Refused(Failure::Storage),
        Event::Loaded { .. } => ReportText::Misplaced,
    }
}

/// What a run works on: one file, or the files that match one of some
/// patterns.
pub enum Sought {
    File(Seq<char>),
    Patterns(Seq<Seq<char>>),
}

/// The patterns for the files of the directory `source`: every file below
/// it, at any depth, whose name ends in `.jpg`, `.jpeg` or `.png`. The
/// directory itself is taken by the letter, whatever its name holds.
pub open spec fn patterns_of(source: Seq<char>) -> Seq<Seq<char>> {
    seq![
        escaped(source) + "/**/*.jpg"@,
        escaped(source) + "/**/*.jpeg"@,
        escaped(source) + "/**/*.png"@,
    ]
}

/// What the run over `source` works on: the source itself where it is a
/// single file, named as it was given and matched against nothing, else
/// the files that match the patterns of the directory.
pub open spec fn sought(source: Seq<char>, source_is_file: bool) -> Sought {
    if source_is_file {
        Sought::File(source)
    } else {
        Sought::Patterns(patterns_of(source))
    }
}

/// One request, and the run that carries it out over all source files.
pub struct ResizeImage {
    /// The source as it was given: a file or a directory.
    pub source: String,
    /// The absolute path of the source.
    pub source_path: String,
    /// Whether the source is a single file.
    pub source_is_file: bool,
    /// The destination directory as it was given.
    pub destination: String,
    /// The absolute path of the destination directory.
    pub destination_path: String,
    /// What the public names of the manifest begin with.
    pub prefix: String,
    pub width: u32,
    pub quality: u8,
    /// Whether each derivative gets a WebP stream beside it.
    pub webpimage: bool,
    /// Whether each source file gets a thumbnail.
    pub thumbnail: bool,
    pub phase: Phase,
    pub entries: Vec<String>,
    pub position: usize,
    pub pending: Option<String>,
    pub json: Vec<String>,
    pub skipped: Vec<Failure>,
    pub stopped: Option<Failure>,
}

impl View for ResizeImage {
    type V = Progress;

    open spec fn view(&self) -> Progress {
        Progress {
            phase: self.phase,
            entries: texts(self.entries@),
            position: self.position as nat,
            pending: match self.pending {
                Some(record) => Some(record@),
                None => None,
            },
            json: texts(self.json@),
            skipped: self.skipped@,
            stopped: self.stopped,
        }
    }
}

impl ResizeImage {
    /// What stays as it is through a run: the request.
    pub open spec fn same_request(&self, other: &ResizeImage) -> bool {
        &&& self.source == other.source
        &&& self.source_path == other.source_path
        &&& self.source_is_file == other.source_is_file
        &&& self.destination == other.destination
        &&& self.destination_path == other.destination_path
        &&& self.prefix == other.prefix
        &&& self.width == other.width
        &&& self.quality == other.quality
        &&& self.webpimage == other.webpimage
        &&& self.thumbnail == other.thumbnail
    }

    /// A run that has not begun. The two absolute paths and whether the
    /// source is a single file are what the file system says of `source`
    /// and `destination`.
    pub fn new(
        source: String,
        source_path: String,
        source_is_file: bool,
        destination: String,
        destination_path: String,
        prefix: String,
        width: u32,
        quality: u8,
        webpimage: bool,
        thumbnail: bool,
    ) -> (out: ResizeImage)
        ensures
            out.source == source,
            out.source_path == source_path,
            out.source_is_file == source_is_file,
            out.destination == destination,
            out.destination_path == destination_path,
            out.prefix == prefix,
            out.width == width,
            out.quality == quality,
            out.webpimage == webpimage,
            out.thumbnail == thumbnail,
            out@ == (Progress {
                phase: Phase::Ready,
                entries: Seq::empty(),
                position: 0,
                pending: None,
                json: Seq::empty(),
                skipped: Seq::empty(),
                stopped: None,
            }),
            out@.wf(),
    {
        let out = ResizeImage {
            source,
            source_path,
            source_is_file,
            destination,
            destination_path,
            prefix,
            width,
            quality,
            webpimage,
            thumbnail,
            phase: Phase::Ready,
            entries: Vec::new(),
            position: 0,
            pending: None,
            json: Vec::new(),
            skipped: Vec::new(),
            stopped: None,
        };
        assert(out@.entries =~= Seq::empty());
        assert(out@.json =~= Seq::empty());
        out
    }

    /// The patterns that discovery is asked to match where the source is a
    /// directory.
    pub fn patterns(&self) -> (out: Vec<String>)
        ensures
            texts(out@) == patterns_of(self.source@),
    {
        let mut out: Vec<String> = Vec::new();
        let source = escaped_of(chars_of(self.source.as_str()).as_slice());
        let mut jpg = source.clone();
        append(&mut jpg, chars_of("/**/*.jpg").as_slice());
        let mut jpeg = source.clone();
        append(&mut jpeg, chars_of("/**/*.jpeg").as_slice());
        let mut png = source.clone();
        append(&mut png, chars_of("/**/*.png").as_slice());
        out.push(string_of(jpg.as_slice()));
        out.push(string_of(jpeg.as_slice()));
        out.push(string_of(png.as_slice()));
        assert(texts(out@) =~= patterns_of(self.source@));
        out
    }

    /// The action for the source file that is next in line.
    fn turn(&mut self) -> (out: Action)
        ensures
            final(self).same_request(old(self)),
            (final(self)@, out@) == old(self)@.upcoming(),
    {
        self.pending = None;
        if self.position < self.entries.len() {
            self.phase = Phase::Loading;
            Action::Load { file: self.entries[self.position].clone() }
        } else {
            self.phase = Phase::Finished;
            Action::Finish
        }
    }

    /// The run is given up.
    fn halt(&mut self, failure: Failure) -> (out: Action)
        ensures
            final(self).same_request(old(self)),
            (final(self)@, out@) == old(self)@.halted(failure),
    {
        self.pending = None;
        self.phase = Phase::Finished;
        self.stopped = Some(failure);
        Action::Finish
    }

    /// The current source file is given up and the run turns to the next.
    fn pass_over(&mut self, failure: Failure) -> (out: Action)
        requires
            old(self).position < old(self).entries.len(),
        ensures
            final(self).same_request(old(self)),
            (final(self)@, out@) == old(self)@.skip(failure),
    {
        self.position = self.position + 1;
        self.skipped.push(failure);
        self.turn()
    }

    /// The run goes on from `report`.
    pub fn advance(&mut self, report: Report) -> (out: Action)
        ensures
            final(self).same_request(old(self)),
            (final(self)@, out@) == old(self)@.next(
                sought(old(self).source@, old(self).source_is_file),
                report@,
            ),
    {
        match (self.phase, report) {
            (Phase::Ready, Report::Begin) => {
                if self.source_is_file {
                    let mut entries: Vec<String> = Vec::new();
                    entries.push(self.source.clone());
                    assert(texts(entries@) =~= seq![self.source@]);
                    self.entries = entries;
                    self.position = 0;
                    self.turn()
                } else {
                    self.phase = Phase::Discovering;
                    Action::Discover { patterns: self.patterns() }
                }
            },
            (Phase::Discovering, Report::Discovered(entries)) => {
                self.entries = entries;
                self.position = 0;
                self.turn()
            },
            (Phase::Discovering, Report::Refused(_)) => self.halt(Failure::SourceNotFound),
            (Phase::Loading, Report::Converted { record, directory, files }) => {
                if self.position < self.entries.len() {
                    self.phase = Phase::Storing;
                    self.pending = Some(record);
                    Action::Store { directory, files }
                } else {
                    self.halt(Failure::OutOfTurn)
                }
            },
            (Phase::Loading, Report::Refused(failure)) => {
                if self.position >= self.entries.len() {
                    self.halt(Failure::OutOfTurn)
                } else if failure.is_fatal() {
                    self.halt(failure)
                } else {
                    self.pass_over(failure)
                }
            },
            (Phase::Storing, Report::Stored) => {
                if self.position < self.entries.len() && self.pending.is_some() {
                    let record = self.pending.take().unwrap();
                    let ghost before = texts(self.json@);
                    self.json.push(record);
                    assert(texts(self.json@) =~= before.push(record@));
                    self.position = self.position + 1;
                    self.turn()
                } else {
                    self.halt(Failure::OutOfTurn)
                }
            },
            (Phase::Storing, Report::Refused(failure)) => {
                if self.position >= self.entries.len() {
                    self.halt(Failure::OutOfTurn)
                } else if failure.is_fatal() {
                    self.halt(failure)
                } else {
                    self.pass_over(failure)
                }
            },
            _ => self.halt(Failure::OutOfTurn),
        }
    }

    /// The names of the source file at `path`, as this run resolves them.
    pub open spec fn names(&self, path: Seq<char>) -> Result<Names, Failure> {
        resolve(
            path,
            self.source_path@,
            self.source_is_file,
            self.destination_path@,
            self.prefix@,
            self.width,
        )
    }

    /// Whether `files` are the files of the derivatives of a source file
    /// with the names `names` whose image has the geometry `found`: those of
    /// the primary derivative, then those of the thumbnail where one is
    /// asked for.
    pub open spec fn made_of(&self, names: Names, found: Geometry, files: Seq<FileText>) -> bool {
        if self.thumbnail {
            exists|first: Seq<FileText>, second: Seq<FileText>|
                {
                    &&& files == first + second
                    &&& #[trigger] rendered(
                        names.dest_file,
                        found,
                        self.width,
                        self.quality,
                        self.webpimage,
                        false,
                        Ok(first),
                    )
                    &&& #[trigger] rendered(
                        names.dest_thumbnail,
                        found,
                        self.width,
                        self.quality,
                        self.webpimage,
                        true,
                        Ok(second),
                    )
                }
        } else {
            rendered(
                names.dest_file,
                found,
                self.width,
                self.quality,
                self.webpimage,
                false,
                Ok(files),
            )
        }
    }

    /// Whether `report` is one that the work on the source file at `path`
    /// with the contents `bytes` can end in. A file without names is
    /// refused for that reason; one in which the decoder finds no image,
    /// for that; one of which a derivative is refused, for the reason of
    /// the first that is. Any other file is converted, with its record, its
    /// directory and the files of its derivatives; only where WebP streams
    /// are asked for may their encoder fail instead.
    pub open spec fn answers(&self, path: Seq<char>, bytes: Seq<u8>, report: ReportText) -> bool {
        match self.names(path) {
            Err(failure) => report == ReportText::Refused(failure),
            Ok(names) => match decoded_geometry(bytes, type_at(path).unwrap()) {
                None => report == ReportText::Refused(Failure::Decode),
                Some(found) => {
                    let first = render_refusal(
                        names.dest_file,
                        found,
                        self.width,
                        self.webpimage,
                        false,
                    );
                    let second = render_refusal(
                        names.dest_thumbnail,
                        found,
                        self.width,
                        self.webpimage,
                        true,
                    );
                    if first is Some {
                        report == ReportText::Refused(first.unwrap())
                    } else if self.webpimage && report == ReportText::Refused(Failure::Encode) {
                        true
                    } else if self.thumbnail && second is Some {
                        report == ReportText::Refused(second.unwrap())
                    } else {
                        &&& report matches ReportText::Converted(record, directory, files)
                        &&& record == manifest_record(names)
                        &&& directory == names.dest_parent
                        &&& self.made_of(names, found, files)
                    }
                },
            },
        }
    }

    /// The derivatives of the source file at `path`, made from its bytes:
    /// its record for the manifest, the directory that they go to, and the
    /// files to write, or the reason for which there are none.
    pub fn convert(&self, path: &str, bytes: &[u8]) -> (out: Report)
        ensures
            self.answers(path@, bytes@, out@),
    {
        let image = match ConvertImage::new(
            path,
            self.source_path.as_str(),
            self.source_is_file,
            self.destination_path.as_str(),
            self.prefix.as_str(),
            self.width,
        ) {
            Ok(image) => image,
            Err(failure) => {
                return Report::Refused(failure);
            },
        };
        let record = image.to_json();
        let mut files = match image.resize_one(
            bytes,
            self.width,
            self.quality,
            self.webpimage,
            false,
        ) {
            Ok(files) => files,
            Err(failure) => {
                return Report::Refused(failure);
            },
        };
        if self.thumbnail {
            let mut more = match image.resize_one(
                bytes,
                self.width,
                self.quality,
                self.webpimage,
                true,
            ) {
                Ok(more) => more,
                Err(failure) => {
                    return Report::Refused(failure);
                },
            };
            let ghost first = file_texts(files@);
            let ghost second = file_texts(more@);
            files.append(&mut more);
            assert(file_texts(files@) =~= first + second);
        }
        Report::Converted { record, directory: image.dest_parent, files }
    }

    /// Whether the run `after` and the action `action` are what this run
    /// and `event` lead to. The request stays. An event that brings the
    /// bytes of the source file that the run waits for leads to what one of
    /// the reports that the work on that file can end in leads to; any other
    /// event leads to what the report that it amounts to leads to.
    pub open spec fn follows(&self, event: Event, after: &ResizeImage, action: Action) -> bool {
        &&& after.same_request(self)
        &&& match event {
            Event::Loaded { path, bytes } => {
                if self.phase != Phase::Loading {
                    (after@, action@) == self@.next(
                        sought(self.source@, self.source_is_file),
                        ReportText::Misplaced,
                    )
                } else {
                    exists|report: ReportText|
                        {
                            &&& (after@, action@) == #[trigger] self@.next(
                                sought(self.source@, self.source_is_file),
                                report,
                            )
                            &&& self.answers(path@, bytes@, report)
                        }
                }
            },
            _ => (after@, action@) == self@.next(
                sought(self.source@, self.source_is_file),
                told(event),
            ),
        }
    }

    /// The run takes what the last action brought and answers with the next
    /// action. Where a source file was read, its derivatives are made before
    /// the run goes on.
    pub fn run_resize_images(&mut self, event: Event) -> (out: Action)
        ensures
            old(self).follows(event, final(self), out),
    {
        match event {
            Event::Begin => self.advance(Report::Begin),
            Event::Discovered(entries) => self.advance(Report::Discovered(entries)),
            Event::Loaded { path, bytes } => {
                if self.phase == Phase::Loading {
                    let report = self.convert(path.as_str(), bytes.as_slice());
                    self.advance(report)
                } else {
                    self.advance(Report::Misplaced)
                }
            },
            Event::Stored => self.advance(Report::Stored),
            Event::Failed => self.advance(Report::Refused(Failure::Storage)),
        }
    }
}

} // verus!
