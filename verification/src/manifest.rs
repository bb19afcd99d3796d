//! The manifest: one JSON object for each source file and request, and the
//! array that holds them.

use vstd::prelude::*;
use crate::text::{append, chars_of, decimal, decimal_of, string_of};

verus! {

#[verifier::external_type_specification]
#[verifier::external_body]
pub struct ExJsonError(serde_json::Error);

/// `text` as a JSON string: between double quotes, with the characters that
/// JSON does not take as they are written as escapes.
pub uninterp spec fn json_string(text: Seq<char>) -> Seq<char>;

/// `serde_json::to_string` on a string: the JSON string of `text`. The
/// serializer writes a string into a vector and has no error to report for
/// it.
#[verifier::external_body]
pub(crate) fn quote(text: &str) -> (out: Result<String, serde_json::Error>)
    ensures
        out is Ok,
        out matches Ok(quoted) ==> quoted@ == json_string(text@),
{
    serde_json::to_string(text)
}

/// The values of one record, each as the JSON text that stands for it.
pub struct Record {
    pub file_name_src: String,
    pub file_name: String,
    pub file_name_webp: String,
    pub file_name_thumbnail: String,
    pub file_name_thumbnail_webp: String,
    pub file_type: String,
    pub width: u32,
}

/// One member of a record: two spaces, the key between double quotes, a
/// colon, a space and the value.
pub open spec fn member(key: Seq<char>, value: Seq<char>) -> Seq<char> {
    "  \""@ + key + "\": "@ + value
}

/// A record as JSON text: an object with one member on each line. Every
/// value is given as the JSON text that stands for it.
pub open spec fn record_layout(
    file_name_src: Seq<char>,
    file_name: Seq<char>,
    file_name_webp: Seq<char>,
    file_name_thumbnail: Seq<char>,
    file_name_thumbnail_webp: Seq<char>,
    file_type: Seq<char>,
    width: Seq<char>,
) -> Seq<char> {
    "{\n"@ + member("fileNameSrc"@, file_name_src) + ",\n"@ + member("fileName"@, file_name)
        + ",\n"@ + member("fileNameWebp"@, file_name_webp) + ",\n"@ + member(
        "fileNameThumbnail"@,
        file_name_thumbnail,
    ) + ",\n"@ + member("fileNameThumbnailWebp"@, file_name_thumbnail_webp) + ",\n"@ + member(
        "fileType"@,
        file_type,
    ) + ",\n"@ + member("width"@, width) + "\n}"@
}

impl Record {
    /// The record as JSON text, in the order of the fields.
    pub open spec fn text(&self) -> Seq<char> {
        record_layout(
            self.file_name_src@,
            self.file_name@,
            self.file_name_webp@,
            self.file_name_thumbnail@,
            self.file_name_thumbnail_webp@,
            self.file_type@,
            decimal(self.width as nat),
        )
    }

    pub fn to_text(&self) -> (out: String)
        ensures
            out@ == self.text(),
    {
        let mut out = chars_of("{\n");
        push_member(&mut out, "fileNameSrc", chars_of(self.file_name_src.as_str()).as_slice());
        append(&mut out, chars_of(",\n").as_slice());
        push_member(&mut out, "fileName", chars_of(self.file_name.as_str()).as_slice());
        append(&mut out, chars_of(",\n").as_slice());
        push_member(&mut out, "fileNameWebp", chars_of(self.file_name_webp.as_str()).as_slice());
        append(&mut out, chars_of(",\n").as_slice());
        push_member(
            &mut out,
            "fileNameThumbnail",
            chars_of(self.file_name_thumbnail.as_str()).as_slice(),
        );
        append(&mut out, chars_of(",\n").as_slice());
        push_member(
            &mut out,
            "fileNameThumbnailWebp",
            chars_of(self.file_name_thumbnail_webp.as_str()).as_slice(),
        );
        append(&mut out, chars_of(",\n").as_slice());
        push_member(&mut out, "fileType", chars_of(self.file_type.as_str()).as_slice());
        append(&mut out, chars_of(",\n").as_slice());
        push_member(&mut out, "width", decimal_of(self.width).as_slice());
        append(&mut out, chars_of("\n}").as_slice());
        string_of(out.as_slice())
    }
}

/// Appends the member of the given key and value to `out`.
pub fn push_member(out: &mut Vec<char>, key: &str, value: &[char])
    ensures
        final(out)@ == old(out)@ + member(key@, value@),
{
    let ghost before = out@;
    append(out, chars_of("  \"").as_slice());
    append(out, chars_of(key).as_slice());
    append(out, chars_of("\": ").as_slice());
    append(out, value);
    assert(out@ == before + member(key@, value@));
}

/// The texts of `parts`, in order, with `separator` between each two.
pub open spec fn joined(parts: Seq<Seq<char>>, separator: Seq<char>) -> Seq<char>
    decreases parts.len(),
{
    if parts.len() == 0 {
        Seq::empty()
    } else if parts.len() == 1 {
        parts[0]
    } else {
        joined(parts.drop_last(), separator) + separator + parts.last()
    }
}

/// The views of the strings of `parts`.
pub open spec fn texts(parts: Seq<String>) -> Seq<Seq<char>> {
    Seq::new(parts.len(), |i: int| parts[i]@)
}

/// The strings of `parts`, with a comma and a space between each two.
pub fn join_records(parts: &Vec<String>) -> (out: String)
    ensures
        out@ == joined(texts(parts@), ", "@),
{
    let mut out: Vec<char> = Vec::new();
    let separator = chars_of(", ");
    let mut i: usize = 0;
    while i < parts.len()
        invariant
            i <= parts.len(),
            separator@ == ", "@,
            out@ == joined(texts(parts@).take(i as int), ", "@),
        decreases parts.len() - i,
    {
        let ghost done = texts(parts@).take(i as int);
        let ghost next = texts(parts@).take(i as int + 1);
        assert(next.drop_last() == done);
        assert(next.last() == parts@[i as int]@);
        if i > 0 {
            append(&mut out, separator.as_slice());
        }
        append(&mut out, chars_of(parts[i].as_str()).as_slice());
        i += 1;
    }
    assert(texts(parts@).take(parts.len() as int) == texts(parts@));
    string_of(out.as_slice())
}

/// The parts of `parts` that are not empty, in order.
pub open spec fn filled(parts: Seq<Seq<char>>) -> Seq<Seq<char>> {
    parts.filter(|part: Seq<char>| part.len() > 0)
}

/// The manifest: the records of `parts` as one JSON array. Each part holds
/// the records of one request, already joined; a request that produced none
/// leaves nothing behind.
pub open spec fn manifest_text(parts: Seq<Seq<char>>) -> Seq<char> {
    "["@ + joined(filled(parts), ", "@) + "]"@
}

pub fn manifest(parts: &Vec<String>) -> (out: String)
    ensures
        out@ == manifest_text(texts(parts@)),
{
    let mut kept: Vec<String> = Vec::new();
    let mut i: usize = 0;
    while i < parts.len()
        invariant
            i <= parts.len(),
            texts(kept@) == filled(texts(parts@).take(i as int)),
        decreases parts.len() - i,
    {
        let ghost done = texts(parts@).take(i as int);
        let ghost next = texts(parts@).take(i as int + 1);
        proof {
            assert(next.drop_last() == done);
            assert(next.last() == parts@[i as int]@);
            reveal(Seq::filter);
        }
        let part = parts[i].clone();
        if part.as_str().unicode_len() > 0 {
            let ghost before = texts(kept@);
            kept.push(part);
            assert(texts(kept@) == before.push(parts@[i as int]@));
        }
        i += 1;
    }
    assert(texts(parts@).take(parts.len() as int) == texts(parts@));
    let body = join_records(&kept);
    let mut out = chars_of("[");
    append(&mut out, chars_of(body.as_str()).as_slice());
    append(&mut out, chars_of("]").as_slice());
    string_of(out.as_slice())
}

} // verus!
