//! Paths as text. A path is a sequence of characters whose components are
//! separated by `/`; its last component is what follows its last `/`.

use vstd::prelude::*;
use crate::text::append;

verus! {

/// The position of the last `ch` in `text`, or -1 where there is none.
pub open spec fn last_index(text: Seq<char>, ch: char) -> int
    decreases text.len(),
{
    if text.len() == 0 {
        -1
    } else if text.last() == ch {
        text.len() - 1
    } else {
        last_index(text.drop_last(), ch)
    }
}

/// `last_index` is the one position that holds `ch` with no `ch` behind it.
pub proof fn lemma_last_index(text: Seq<char>, ch: char)
    ensures
        -1 <= last_index(text, ch) < text.len(),
        last_index(text, ch) >= 0 ==> text[last_index(text, ch)] == ch,
        forall|j: int| last_index(text, ch) < j < text.len() ==> text[j] != ch,
    decreases text.len(),
{
    if text.len() > 0 && text.last() != ch {
        lemma_last_index(text.drop_last(), ch);
        assert forall|j: int| last_index(text, ch) < j < text.len() implies text[j] != ch by {
            if j < text.len() - 1 {
                assert(text.drop_last()[j] == text[j]);
            }
        }
    }
}

/// A position that holds `ch` with no `ch` behind it is `last_index`.
pub proof fn lemma_last_index_at(text: Seq<char>, ch: char, at: int)
    requires
        -1 <= at < text.len(),
        at >= 0 ==> text[at] == ch,
        forall|j: int| at < j < text.len() ==> text[j] != ch,
    ensures
        last_index(text, ch) == at,
    decreases text.len(),
{
    if text.len() > 0 && at < text.len() - 1 {
        lemma_last_index_at(text.drop_last(), ch, at);
    }
}

pub fn find_last(text: &[char], ch: char) -> (out: Option<usize>)
    ensures
        match out {
            Some(at) => at == last_index(text@, ch) && at < text.len(),
            None => last_index(text@, ch) == -1,
        },
{
    let mut i: usize = text.len();
    while i > 0
        invariant
            i <= text.len(),
            forall|j: int| i <= j < text.len() ==> text@[j] != ch,
        decreases i,
    {
        i -= 1;
        if text[i] == ch {
            proof {
                lemma_last_index_at(text@, ch, i as int);
            }
            return Some(i);
        }
    }
    proof {
        lemma_last_index_at(text@, ch, -1);
    }
    None
}

/// The characters of `text` from position `from` up to, not including, `to`.
pub fn copy_range(text: &[char], from: usize, to: usize) -> (out: Vec<char>)
    requires
        from <= to <= text.len(),
    ensures
        out@ == text@.subrange(from as int, to as int),
{
    let mut out: Vec<char> = Vec::new();
    let mut i: usize = from;
    while i < to
        invariant
            from <= i <= to,
            to <= text.len(),
            out@ == text@.subrange(from as int, i as int),
        decreases to - i,
    {
        out.push(text[i]);
        i += 1;
        assert(text@.subrange(from as int, i as int) == text@.subrange(from as int, i as int - 1).push(
            text@[i as int - 1],
        ));
    }
    out
}

/// The last component of `path`: what follows its last `/`.
pub open spec fn file_name(path: Seq<char>) -> Seq<char> {
    path.skip(last_index(path, '/') + 1)
}

/// `path` without its last component: what stands before its last `/`. The
/// parent of a path directly under the root is the root, and a path without
/// `/` has the empty parent.
pub open spec fn parent(path: Seq<char>) -> Seq<char> {
    let at = last_index(path, '/');
    if at < 0 {
        Seq::empty()
    } else if at == 0 {
        seq!['/']
    } else {
        path.take(at)
    }
}

/// The extension of a file name: what follows its last `.`, unless that `.`
/// is the name's first character or the name has none.
pub open spec fn extension(name: Seq<char>) -> Option<Seq<char>> {
    let at = last_index(name, '.');
    if at <= 0 {
        None
    } else {
        Some(name.skip(at + 1))
    }
}

/// The stem of a file name: the name without its extension and the `.`
/// before it.
pub open spec fn stem(name: Seq<char>) -> Seq<char> {
    let at = last_index(name, '.');
    if at <= 0 {
        name
    } else {
        name.take(at)
    }
}

/// `name` with its extension replaced by `ext`; a name without extension
/// gets `.` and `ext` appended.
pub open spec fn with_extension(name: Seq<char>, ext: Seq<char>) -> Seq<char> {
    stem(name) + seq!['.'] + ext
}

/// `base` followed by the relative path `rel`, with one `/` between them
/// where `base` does not already end in one. An empty side leaves the other.
pub open spec fn join(base: Seq<char>, rel: Seq<char>) -> Seq<char> {
    if rel.len() == 0 {
        base
    } else if base.len() == 0 {
        rel
    } else if base.last() == '/' {
        base + rel
    } else {
        base + seq!['/'] + rel
    }
}

/// The path of the directory `dir` relative to the directory `root`: empty
/// where they are the same, what follows `root` and a `/` where `dir` lies
/// below `root`, and nothing where it does not.
pub open spec fn relative_to(dir: Seq<char>, root: Seq<char>) -> Option<Seq<char>> {
    if dir == root {
        Some(Seq::empty())
    } else if !root.is_prefix_of(dir) || root.len() == 0 {
        None
    } else if root.last() == '/' {
        Some(dir.skip(root.len() as int))
    } else if dir[root.len() as int] == '/' {
        Some(dir.skip(root.len() as int + 1))
    } else {
        None
    }
}

/// `text` with every `\` replaced by `/`.
pub open spec fn forward_slashes(text: Seq<char>) -> Seq<char> {
    Seq::new(text.len(), |i: int| if text[i] == '\\' { '/' } else { text[i] })
}

/// `text` with every run of `/` reduced to a single `/`.
pub open spec fn collapse(text: Seq<char>) -> Seq<char>
    decreases text.len(),
{
    if text.len() < 2 {
        text
    } else if text[0] == '/' && text[1] == '/' {
        collapse(text.skip(1))
    } else {
        seq![text[0]] + collapse(text.skip(1))
    }
}

/// Whether `text` holds a `/` at `at` and another right behind it.
pub open spec fn doubled(text: Seq<char>, at: int) -> bool {
    text[at] == '/' && text[at + 1] == '/'
}

/// Whether `text` holds no two `/` in a row.
pub open spec fn single_slashes(text: Seq<char>) -> bool {
    forall|at: int| 0 <= at < text.len() - 1 ==> !#[trigger] doubled(text, at)
}

/// What is left of a text that is not empty begins as the text does and
/// holds no two `/` in a row.
pub proof fn lemma_collapse_single(text: Seq<char>)
    ensures
        single_slashes(collapse(text)),
        text.len() > 0 ==> collapse(text).len() > 0 && collapse(text)[0] == text[0],
    decreases text.len(),
{
    if text.len() >= 2 {
        let rest = text.skip(1);
        lemma_collapse_single(rest);
        if !(text[0] == '/' && text[1] == '/') {
            let kept = collapse(rest);
            let whole = seq![text[0]] + kept;
            assert(kept[0] == text[1]);
            assert forall|at: int| 0 <= at < whole.len() - 1 implies !doubled(whole, at) by {
                if at > 0 {
                    assert(!doubled(kept, at - 1));
                    assert(whole[at] == kept[at - 1]);
                    assert(whole[at + 1] == kept[at]);
                }
            }
        }
    }
}

/// Whether `ch` has a meaning of its own in a pattern for file names.
pub open spec fn special(ch: char) -> bool {
    ch == '?' || ch == '*' || ch == '[' || ch == ']'
}

/// `text` as a pattern that matches `text` and nothing else: every
/// character that has a meaning of its own in a pattern stands between
/// `[` and `]`.
pub open spec fn escaped(text: Seq<char>) -> Seq<char>
    decreases text.len(),
{
    if text.len() == 0 {
        Seq::empty()
    } else if special(text.last()) {
        escaped(text.drop_last()) + seq!['[', text.last(), ']']
    } else {
        escaped(text.drop_last()).push(text.last())
    }
}

pub fn escaped_of(text: &[char]) -> (out: Vec<char>)
    ensures
        out@ == escaped(text@),
{
    let mut out: Vec<char> = Vec::new();
    let mut i: usize = 0;
    assert(text@.take(0) =~= Seq::<char>::empty());
    while i < text.len()
        invariant
            i <= text.len(),
            out@ == escaped(text@.take(i as int)),
        decreases text.len() - i,
    {
        let ch = text[i];
        let ghost before = out@;
        let ghost next = text@.take(i as int + 1);
        assert(next.drop_last() =~= text@.take(i as int));
        assert(next.last() == ch);
        if ch == '?' || ch == '*' || ch == '[' || ch == ']' {
            out.push('[');
            out.push(ch);
            out.push(']');
            assert(out@ =~= before + seq!['[', ch, ']']);
        } else {
            out.push(ch);
        }
        i += 1;
    }
    assert(text@.take(text.len() as int) =~= text@);
    out
}

pub fn file_name_of(path: &[char]) -> (out: Vec<char>)
    ensures
        out@ == file_name(path@),
{
    proof {
        lemma_last_index(path@, '/');
    }
    match find_last(path, '/') {
        Some(at) => copy_range(path, at + 1, path.len()),
        None => copy_range(path, 0, path.len()),
    }
}

pub fn parent_of(path: &[char]) -> (out: Vec<char>)
    ensures
        out@ == parent(path@),
{
    proof {
        lemma_last_index(path@, '/');
    }
    match find_last(path, '/') {
        Some(at) => {
            if at == 0 {
                let mut out: Vec<char> = Vec::new();
                out.push('/');
                assert(out@ =~= seq!['/']);
                out
            } else {
                copy_range(path, 0, at)
            }
        },
        None => Vec::new(),
    }
}

pub fn extension_of(name: &[char]) -> (out: Option<Vec<char>>)
    ensures
        match out {
            Some(ext) => extension(name@) == Some(ext@),
            None => extension(name@) is None,
        },
{
    proof {
        lemma_last_index(name@, '.');
    }
    match find_last(name, '.') {
        Some(at) => {
            if at == 0 {
                None
            } else {
                Some(copy_range(name, at + 1, name.len()))
            }
        },
        None => None,
    }
}

pub fn stem_of(name: &[char]) -> (out: Vec<char>)
    ensures
        out@ == stem(name@),
{
    proof {
        lemma_last_index(name@, '.');
    }
    match find_last(name, '.') {
        Some(at) => {
            if at == 0 {
                copy_range(name, 0, name.len())
            } else {
                copy_range(name, 0, at)
            }
        },
        None => copy_range(name, 0, name.len()),
    }
}

pub fn with_extension_of(name: &[char], ext: &[char]) -> (out: Vec<char>)
    ensures
        out@ == with_extension(name@, ext@),
{
    let mut out = stem_of(name);
    out.push('.');
    append(&mut out, ext);
    out
}

pub fn join_of(base: &[char], rel: &[char]) -> (out: Vec<char>)
    ensures
        out@ == join(base@, rel@),
{
    let mut out = copy_range(base, 0, base.len());
    assert(out@ == base@);
    if rel.len() == 0 {
        return out;
    }
    if base.len() > 0 && base[base.len() - 1] != '/' {
        out.push('/');
    }
    append(&mut out, rel);
    out
}

/// Whether `text` begins with the characters of `start`.
pub fn starts_with(text: &[char], start: &[char]) -> (out: bool)
    ensures
        out == start@.is_prefix_of(text@),
{
    if start.len() > text.len() {
        return false;
    }
    let mut i: usize = 0;
    while i < start.len()
        invariant
            i <= start.len() <= text.len(),
            forall|j: int| 0 <= j < i ==> start@[j] == text@[j],
        decreases start.len() - i,
    {
        if start[i] != text[i] {
            assert(start@[i as int] != text@.subrange(0, start@.len() as int)[i as int]);
            return false;
        }
        i += 1;
    }
    assert(start@ =~= text@.subrange(0, start@.len() as int));
    true
}

pub fn relative_to_of(dir: &[char], root: &[char]) -> (out: Option<Vec<char>>)
    ensures
        match out {
            Some(rel) => relative_to(dir@, root@) == Some(rel@),
            None => relative_to(dir@, root@) is None,
        },
{
    if crate::text::same_text(dir, root) {
        return Some(Vec::new());
    }
    if root.len() == 0 || !starts_with(dir, root) {
        return None;
    }
    assert(root@.len() < dir@.len()) by {
        if root@.len() == dir@.len() {
            assert(dir@ =~= dir@.subrange(0, root@.len() as int));
        }
    }
    if root[root.len() - 1] == '/' {
        Some(copy_range(dir, root.len(), dir.len()))
    } else if dir[root.len()] == '/' {
        Some(copy_range(dir, root.len() + 1, dir.len()))
    } else {
        None
    }
}

pub fn forward_slashes_of(text: &[char]) -> (out: Vec<char>)
    ensures
        out@ == forward_slashes(text@),
{
    let mut out: Vec<char> = Vec::new();
    let mut i: usize = 0;
    while i < text.len()
        invariant
            i <= text.len(),
            out@.len() == i,
            forall|j: int| 0 <= j < i ==> out@[j] == forward_slashes(text@)[j],
        decreases text.len() - i,
    {
        if text[i] == '\\' {
            out.push('/');
        } else {
            out.push(text[i]);
        }
        i += 1;
    }
    assert(out@ =~= forward_slashes(text@));
    out
}

pub fn collapse_of(text: &[char]) -> (out: Vec<char>)
    ensures
        out@ == collapse(text@),
        single_slashes(out@),
{
    let mut out: Vec<char> = Vec::new();
    let mut i: usize = 0;
    assert(text@.skip(0) == text@);
    while i < text.len()
        invariant
            i <= text.len(),
            collapse(text@) == out@ + collapse(text@.skip(i as int)),
        decreases text.len() - i,
    {
        let ghost rest = text@.skip(i as int);
        let ghost before = out@;
        if i + 1 < text.len() && text[i] == '/' && text[i + 1] == '/' {
            i += 1;
            assert(rest.skip(1) == text@.skip(i as int));
        } else {
            out.push(text[i]);
            i += 1;
            proof {
                assert(rest.skip(1) == text@.skip(i as int));
                if rest.len() < 2 {
                    assert(collapse(text@.skip(i as int)) == Seq::<char>::empty());
                    assert(out@ + collapse(text@.skip(i as int)) == before + rest);
                } else {
                    assert(out@ + collapse(text@.skip(i as int)) == before + (seq![rest[0]]
                        + collapse(rest.skip(1))));
                }
            }
        }
    }
    assert(out@ + collapse(text@.skip(i as int)) == out@);
    proof {
        lemma_collapse_single(text@);
    }
    out
}

} // verus!
