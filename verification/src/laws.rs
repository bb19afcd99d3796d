//! What holds of the library as a whole, proved from the definitions that
//! the contracts of its functions use.

use vstd::prelude::*;
use crate::convert_image::{
    derived_name, files_as_asked, files_of, public_name, rendered, resolve, FileText, Names,
};
use crate::failure::Failure;
use crate::file_type::file_type_of;
use crate::image_optimizer::{fit_height, sibling};
use crate::image_optimizer::ImageOptimizer;
use crate::paths::{
    collapse, doubled, extension, file_name, forward_slashes, join, last_index,
    lemma_collapse_single, lemma_last_index, lemma_last_index_at, parent, relative_to,
    single_slashes, stem, with_extension,
};
use crate::pixels::Geometry;
use crate::resize_image::{
    paths_of, planned_paths, Phase, Progress, ReportText, ResizeImage, Sought,
};
use crate::text::decimal;

verus! {

/// The height of a derivative that keeps the proportions is the quotient
/// of `height * target` by `width`, rounded down and never up: it is the
/// one number whose product with `width` is at most `height * target` and
/// misses it by less than `width`.
pub proof fn lemma_fit_height_rounds_down(width: nat, height: nat, target: nat)
    requires
        width > 0,
    ensures
        fit_height(width, height, target) * width <= height * target,
        height * target < (fit_height(width, height, target) + 1) * width,
{
    let product = height * target;
    assert(product / width * width <= product && product < (product / width + 1) * width)
        by (nonlinear_arith)
        requires
            width > 0,
    ;
}

/// A derivative as wide as its source is as high as its source.
pub proof fn lemma_fit_height_of_same_width(width: nat, height: nat)
    requires
        width > 0,
    ensures
        fit_height(width, height, width) == height,
{
    assert(height * width / width == height) by (nonlinear_arith)
        requires
            width > 0,
    ;
}

/// Every character of a decimal number is a digit.
pub proof fn lemma_decimal_digits(n: nat)
    ensures
        decimal(n).len() > 0,
        forall|i: int| 0 <= i < decimal(n).len() ==> '0' <= #[trigger] decimal(n)[i] <= '9',
    decreases n,
{
    if n >= 10 {
        lemma_decimal_digits(n / 10);
    }
}

/// A derivative's name splits where it was put together: its extension is
/// the extension that it was given and its stem is all that stands before,
/// where that extension holds no `.`.
pub proof fn lemma_derived_name_splits(stem: Seq<char>, width: nat, thumbnail: bool, ext: Seq<char>)
    requires
        !ext.contains('.'),
    ensures
        extension(derived_name(stem, width, thumbnail, ext)) == Some(ext),
        crate::paths::stem(derived_name(stem, width, thumbnail, ext)) + seq!['.'] + ext
            == derived_name(stem, width, thumbnail, ext),
{
    reveal_strlit("_");
    reveal_strlit(".");
    reveal_strlit("_thumbnail");
    let name = derived_name(stem, width, thumbnail, ext);
    let at = name.len() - ext.len() - 1;
    lemma_decimal_digits(width);
    assert(name[at] == '.');
    assert forall|j: int| at < j < name.len() implies name[j] != '.' by {
        assert(name[j] == ext[j - at - 1]);
        assert(ext.contains(ext[j - at - 1]));
    }
    lemma_last_index_at(name, '.', at);
    assert(name.take(at) + seq!['.'] + ext =~= name);
    assert(name.skip(at + 1) =~= ext);
}

/// The name of the WebP stream of a derivative is the name of the
/// derivative with its extension replaced by `webp`, whatever the case of
/// the letters of that extension.
pub proof fn lemma_webp_name_replaces_extension(
    stem: Seq<char>,
    width: nat,
    thumbnail: bool,
    ext: Seq<char>,
)
    requires
        !ext.contains('.'),
    ensures
        with_extension(derived_name(stem, width, thumbnail, ext), "webp"@) == derived_name(
            stem,
            width,
            thumbnail,
            "webp"@,
        ),
{
    reveal_strlit(".");
    lemma_derived_name_splits(stem, width, thumbnail, ext);
    let name = derived_name(stem, width, thumbnail, ext);
    let webp = derived_name(stem, width, thumbnail, "webp"@);
    assert(crate::paths::stem(name) + seq!['.'] =~= name.take(name.len() - ext.len()));
    assert(name.take(name.len() - ext.len()) =~= webp.take(webp.len() - "webp"@.len()));
    assert(webp.take(webp.len() - "webp"@.len()) + "webp"@ =~= webp);
}

/// The extension of a file name holds no `.`.
pub proof fn lemma_extension_has_no_dot(name: Seq<char>)
    requires
        extension(name) is Some,
    ensures
        !extension(name).unwrap().contains('.'),
{
    lemma_last_index(name, '.');
    let at = last_index(name, '.');
    let ext = extension(name).unwrap();
    if ext.contains('.') {
        let i = choose|i: int| 0 <= i < ext.len() && ext[i] == '.';
        assert(name[at + 1 + i] == '.');
    }
}

/// The last component of a path that ends in `/` and a name without `/` is
/// that name, and its parent is what stands before the `/`.
pub proof fn lemma_split_at_name(directory: Seq<char>, name: Seq<char>)
    requires
        !name.contains('/'),
        directory.len() > 0,
    ensures
        file_name(directory + seq!['/'] + name) == name,
        parent(directory + seq!['/'] + name) == directory,
{
    let path = directory + seq!['/'] + name;
    let at = directory.len() as int;
    assert(path[at] == '/');
    assert forall|j: int| at < j < path.len() implies path[j] != '/' by {
        assert(path[j] == name[j - at - 1]);
        assert(name.contains(name[j - at - 1]));
    }
    lemma_last_index_at(path, '/', at);
    assert(path.skip(at + 1) =~= name);
    assert(path.take(at) =~= directory);
}

/// The destination mirrors the source. A source file that lies in the
/// folders `folders` below the source directory has its derivatives in the
/// same folders below the destination, under their derived names.
pub proof fn lemma_destination_mirrors_source(
    source_path: Seq<char>,
    folders: Seq<char>,
    name: Seq<char>,
    destination: Seq<char>,
    prefix: Seq<char>,
    width: u32,
)
    requires
        source_path.len() > 0,
        source_path.last() != '/',
        folders.len() > 0,
        folders.last() != '/',
        destination.len() > 0,
        destination.last() != '/',
        !name.contains('/'),
        extension(name) is Some,
        file_type_of(extension(name).unwrap()) is Some,
    ensures
        resolve(
            source_path + seq!['/'] + folders + seq!['/'] + name,
            source_path,
            false,
            destination,
            prefix,
            width,
        ) matches Ok(names) && {
            &&& names.dest_parent == destination + seq!['/'] + folders
            &&& names.dest_file == destination + seq!['/'] + folders + seq!['/'] + derived_name(
                stem(name),
                width as nat,
                false,
                extension(name).unwrap(),
            )
            &&& names.dest_thumbnail == destination + seq!['/'] + folders + seq!['/']
                + derived_name(stem(name), width as nat, true, extension(name).unwrap())
        },
{
    reveal_strlit("_");
    let directory = source_path + seq!['/'] + folders;
    let src_file = directory + seq!['/'] + name;
    lemma_split_at_name(directory, name);
    assert(source_path.is_prefix_of(directory)) by {
        assert(directory.subrange(0, source_path.len() as int) =~= source_path);
    }
    assert(directory[source_path.len() as int] == '/');
    assert(directory.skip(source_path.len() as int + 1) =~= folders);
    assert(relative_to(directory, source_path) == Some(folders));
    let dest_parent = join(destination, folders);
    assert(dest_parent == destination + seq!['/'] + folders);
    assert(dest_parent.last() == folders.last());
    let ext = extension(name).unwrap();
    let primary = derived_name(stem(name), width as nat, false, ext);
    let thumbnail = derived_name(stem(name), width as nat, true, ext);
    assert(primary.len() > 0);
    assert(thumbnail.len() > 0);
}

/// A source file directly in the source directory has its derivatives
/// directly in the destination.
pub proof fn lemma_destination_of_top_level(
    source_path: Seq<char>,
    name: Seq<char>,
    destination: Seq<char>,
    prefix: Seq<char>,
    width: u32,
)
    requires
        source_path.len() > 0,
        destination.len() > 0,
        destination.last() != '/',
        !name.contains('/'),
        extension(name) is Some,
        file_type_of(extension(name).unwrap()) is Some,
    ensures
        resolve(source_path + seq!['/'] + name, source_path, false, destination, prefix, width)
            matches Ok(names) && {
            &&& names.dest_parent == destination
            &&& names.dest_file == destination + seq!['/'] + derived_name(
                stem(name),
                width as nat,
                false,
                extension(name).unwrap(),
            )
        },
{
    reveal_strlit("_");
    lemma_split_at_name(source_path, name);
    let ext = extension(name).unwrap();
    let primary = derived_name(stem(name), width as nat, false, ext);
    assert(primary.len() > 0);
}

/// The last component of a path holds no `/`, and neither do its stem and
/// its extension.
pub proof fn lemma_name_has_no_slash(path: Seq<char>)
    ensures
        !file_name(path).contains('/'),
        !stem(file_name(path)).contains('/'),
        extension(file_name(path)) is Some ==> !extension(file_name(path)).unwrap().contains('/'),
{
    lemma_last_index(path, '/');
    let name = file_name(path);
    let from = last_index(path, '/') + 1;
    assert forall|i: int| 0 <= i < name.len() implies name[i] != '/' by {
        assert(name[i] == path[from + i]);
    }
    lemma_last_index(name, '.');
}

/// A derivative's name holds no `/` where the stem and extension that it
/// is made of hold none.
pub proof fn lemma_derived_name_has_no_slash(
    stem: Seq<char>,
    width: nat,
    thumbnail: bool,
    ext: Seq<char>,
)
    requires
        !stem.contains('/'),
        !ext.contains('/'),
    ensures
        !derived_name(stem, width, thumbnail, ext).contains('/'),
        derived_name(stem, width, thumbnail, ext).len() > 0,
{
    reveal_strlit("_");
    reveal_strlit(".");
    reveal_strlit("_thumbnail");
    lemma_decimal_digits(width);
    let name = derived_name(stem, width, thumbnail, ext);
    let digits = decimal(width);
    let mark: Seq<char> = if thumbnail {
        "_thumbnail"@
    } else {
        Seq::empty()
    };
    assert forall|i: int| 0 <= i < name.len() implies name[i] != '/' by {
        if i < stem.len() {
            assert(name[i] == stem[i]);
            assert(stem.contains(stem[i]));
        } else if i < stem.len() + 1 {
        } else if i < stem.len() + 1 + digits.len() {
            assert(name[i] == digits[i - stem.len() - 1]);
        } else if i < stem.len() + 1 + digits.len() + mark.len() {
            assert(name[i] == mark[i - stem.len() - 1 - digits.len()]);
        } else if i < stem.len() + 1 + digits.len() + mark.len() + 1 {
        } else {
            let k = i - stem.len() - 1 - digits.len() - mark.len() - 1;
            assert(name[i] == ext[k]);
            assert(ext.contains(ext[k]));
        }
    }
}

/// A path put together from a directory and a name splits there again:
/// the name is its last component, and replacing the extension of the path
/// replaces that of the name.
pub proof fn lemma_join_splits(directory: Seq<char>, name: Seq<char>, ext: Seq<char>)
    requires
        name.len() > 0,
        !name.contains('/'),
    ensures
        file_name(join(directory, name)) == name,
        sibling(join(directory, name), ext) == join(directory, with_extension(name, ext)),
{
    let path = join(directory, name);
    let at = path.len() - name.len() - 1;
    assert forall|j: int| at < j < path.len() implies path[j] != '/' by {
        assert(path[j] == name[j - at - 1]);
        assert(name.contains(name[j - at - 1]));
    }
    if directory.len() > 0 {
        assert(path[at] == '/');
    }
    lemma_last_index_at(path, '/', at);
    assert(path.skip(at + 1) =~= name);
    let renamed = with_extension(name, ext);
    assert(renamed.len() > 0);
    assert(path.take(path.len() - name.len()) + renamed =~= join(directory, renamed));
}

/// The derivatives of a source file have its extension, so they are
/// written in the format that the source was read in, and the WebP stream
/// of each lies beside it in the destination under the same name with
/// `webp` for its extension.
pub proof fn lemma_derivatives_follow_source(
    src_file: Seq<char>,
    source_path: Seq<char>,
    source_is_file: bool,
    destination: Seq<char>,
    prefix: Seq<char>,
    width: u32,
)
    requires
        resolve(src_file, source_path, source_is_file, destination, prefix, width) is Ok,
    ensures
        ({
            let names = resolve(
                src_file,
                source_path,
                source_is_file,
                destination,
                prefix,
                width,
            )->Ok_0;
            let name = file_name(src_file);
            &&& extension(file_name(names.dest_file)) == extension(name)
            &&& extension(file_name(names.dest_thumbnail)) == extension(name)
            &&& sibling(names.dest_file, "webp"@) == join(
                names.dest_parent,
                derived_name(stem(name), width as nat, false, "webp"@),
            )
            &&& sibling(names.dest_thumbnail, "webp"@) == join(
                names.dest_parent,
                derived_name(stem(name), width as nat, true, "webp"@),
            )
        }),
{
    let names = resolve(src_file, source_path, source_is_file, destination, prefix, width)->Ok_0;
    let name = file_name(src_file);
    let ext = extension(name).unwrap();
    lemma_name_has_no_slash(src_file);
    lemma_extension_has_no_dot(name);
    let primary = derived_name(stem(name), width as nat, false, ext);
    let thumbnail = derived_name(stem(name), width as nat, true, ext);
    lemma_derived_name_has_no_slash(stem(name), width as nat, false, ext);
    lemma_derived_name_has_no_slash(stem(name), width as nat, true, ext);
    lemma_derived_name_splits(stem(name), width as nat, false, ext);
    lemma_derived_name_splits(stem(name), width as nat, true, ext);
    lemma_webp_name_replaces_extension(stem(name), width as nat, false, ext);
    lemma_webp_name_replaces_extension(stem(name), width as nat, true, ext);
    lemma_join_splits(names.dest_parent, primary, "webp"@);
    lemma_join_splits(names.dest_parent, thumbnail, "webp"@);
}

/// The counts of a run add up at every step: from a state in which every
/// source file that is done with was converted or skipped, any report leads
/// to another such state.
pub proof fn lemma_run_keeps_count(run: Progress, sought: Sought, report: ReportText)
    requires
        run.wf(),
    ensures
        run.next(sought, report).0.wf(),
{
}

/// A record is added to the manifest exactly where the files of a source
/// file were written, and never taken away.
pub proof fn lemma_records_follow_stores(
    run: Progress,
    sought: Sought,
    report: ReportText,
)
    requires
        run.wf(),
    ensures
        run.phase == Phase::Storing && report == ReportText::Stored ==> run.next(
            sought,
            report,
        ).0.json == run.json.push(run.pending.unwrap()),
        !(run.phase == Phase::Storing && report == ReportText::Stored) ==> run.next(
            sought,
            report,
        ).0.json == run.json,
{
}

/// When a run has ended without being given up, the manifest holds one
/// record for each source file that was not skipped.
pub proof fn lemma_manifest_counts_converted(run: Progress)
    requires
        run.wf(),
        run.phase == Phase::Finished,
        run.stopped is None,
    ensures
        run.json.len() == run.entries.len() - run.skipped.len(),
{
}

/// A run in which nothing fails ends with one record for each source file.
pub proof fn lemma_manifest_complete_without_failure(run: Progress)
    requires
        run.wf(),
        run.phase == Phase::Finished,
        run.stopped is None,
        run.skipped.len() == 0,
    ensures
        run.json.len() == run.entries.len(),
{
}

/// Every character of what is left of a text is a character of the text.
pub proof fn lemma_collapse_keeps(text: Seq<char>, ch: char)
    requires
        collapse(text).contains(ch),
    ensures
        text.contains(ch),
    decreases text.len(),
{
    if text.len() >= 2 {
        let rest = text.skip(1);
        let kept = collapse(rest);
        let at = choose|at: int| 0 <= at < collapse(text).len() && collapse(text)[at] == ch;
        if text[0] == '/' && text[1] == '/' {
            lemma_collapse_keeps(rest, ch);
            let from = choose|from: int| 0 <= from < rest.len() && rest[from] == ch;
            assert(text[from + 1] == ch);
        } else if at == 0 {
            assert(text[0] == ch);
        } else {
            assert(kept[at - 1] == ch);
            lemma_collapse_keeps(rest, ch);
            let from = choose|from: int| 0 <= from < rest.len() && rest[from] == ch;
            assert(text[from + 1] == ch);
        }
    }
}

/// A text that holds no two `/` in a row is left as it is.
pub proof fn lemma_collapse_of_single(text: Seq<char>)
    requires
        single_slashes(text),
    ensures
        collapse(text) == text,
    decreases text.len(),
{
    if text.len() >= 2 {
        let rest = text.skip(1);
        assert(!doubled(text, 0));
        assert forall|at: int| 0 <= at < rest.len() - 1 implies !doubled(rest, at) by {
            assert(!doubled(text, at + 1));
        }
        lemma_collapse_of_single(rest);
        assert(seq![text[0]] + rest =~= text);
    }
}

/// Reducing the runs of `/` a second time changes nothing: a public name
/// that is published again stays as it is.
pub proof fn lemma_collapse_is_idempotent(text: Seq<char>)
    ensures
        collapse(collapse(text)) == collapse(text),
{
    lemma_collapse_single(text);
    lemma_collapse_of_single(collapse(text));
}

/// A public name holds no two `/` in a row, and no `\\` where the prefix
/// holds none, whatever the folders and the name of the file are.
pub proof fn lemma_public_name_is_clean(prefix: Seq<char>, folders: Seq<char>, name: Seq<char>)
    ensures
        single_slashes(public_name(prefix, folders, name)),
        !prefix.contains('\\') ==> !public_name(prefix, folders, name).contains('\\'),
{
    reveal_strlit("/");
    let below = forward_slashes(folders + "/"@ + name);
    let whole = prefix + "/"@ + below;
    lemma_collapse_single(whole);
    if !prefix.contains('\\') && collapse(whole).contains('\\') {
        lemma_collapse_keeps(whole, '\\');
        let at = choose|at: int| 0 <= at < whole.len() && whole[at] == '\\';
        if at < prefix.len() {
            assert(prefix[at] == '\\');
        } else if at >= prefix.len() + 1 {
            assert(whole[at] == below[at - prefix.len() - 1]);
        }
    }
}

/// No failure that the work on one source file ends in is fatal: such a
/// failure costs that file and the run goes on.
pub proof fn lemma_a_file_never_ends_the_run(
    run: ResizeImage,
    path: Seq<char>,
    bytes: Seq<u8>,
    failure: Failure,
)
    requires
        run.answers(path, bytes, ReportText::Refused(failure)),
    ensures
        !failure.fatal(),
{
}

/// The files of a derivative are written where they were planned: its
/// WebP stream, where one is asked for, beside the path of the derivative,
/// then the derivative at its path.
pub proof fn lemma_files_at_planned_paths(
    target: Seq<char>,
    source: Geometry,
    nwidth: u32,
    nquality: u8,
    webpimage: bool,
    thumbnail: bool,
    files: Seq<FileText>,
)
    requires
        rendered(target, source, nwidth, nquality, webpimage, thumbnail, Ok(files)),
    ensures
        paths_of(files) == crate::resize_image::derivative_paths(target, webpimage),
{
    assert(files_as_asked(target, source, nwidth, nquality, webpimage, thumbnail, files));
    let made = choose|made: ImageOptimizer|
        made.derived(source, target, nwidth, nquality, thumbnail) && #[trigger] files_of(
            made,
            webpimage,
            files,
        );
    assert(paths_of(files) =~= crate::resize_image::derivative_paths(target, webpimage));
}

/// The files of a source file that was converted are written where they
/// were planned: those of the primary derivative, then those of the
/// thumbnail where one is asked for.
pub proof fn lemma_converted_at_planned_paths(
    run: ResizeImage,
    names: Names,
    found: Geometry,
    files: Seq<FileText>,
)
    requires
        run.made_of(names, found, files),
    ensures
        paths_of(files) == planned_paths(names, run.webpimage, run.thumbnail),
{
    if run.thumbnail {
        let (first, second) = choose|first: Seq<FileText>, second: Seq<FileText>|
            {
                &&& files == first + second
                &&& #[trigger] rendered(
                    names.dest_file,
                    found,
                    run.width,
                    run.quality,
                    run.webpimage,
                    false,
                    Ok(first),
                )
                &&& #[trigger] rendered(
                    names.dest_thumbnail,
                    found,
                    run.width,
                    run.quality,
                    run.webpimage,
                    true,
                    Ok(second),
                )
            };
        lemma_files_at_planned_paths(
            names.dest_file,
            found,
            run.width,
            run.quality,
            run.webpimage,
            false,
            first,
        );
        lemma_files_at_planned_paths(
            names.dest_thumbnail,
            found,
            run.width,
            run.quality,
            run.webpimage,
            true,
            second,
        );
        assert(paths_of(first + second) =~= paths_of(first) + paths_of(second));
    } else {
        lemma_files_at_planned_paths(
            names.dest_file,
            found,
            run.width,
            run.quality,
            run.webpimage,
            false,
            files,
        );
    }
}

} // verus!
