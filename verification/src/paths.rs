//! What a path says about the entry it names: its file name, its extension and
//! its parent folder.

use crate::text::{
    is_blank, lemma_trimmed_empty_iff_blank, lemma_trimmed_is_stable, trim, trimmed,
};
use vstd::prelude::*;
use vstd::string::*;

verus! {

/// The final component of `path`, read by the path grammar of the platform
/// this crate is built for; `None` where the path ends in a root or in `..`.
pub uninterp spec fn file_name_of(path: Seq<char>) -> Option<Seq<char>>;

/// `path` without its final component, read by the path grammar of the
/// platform this crate is built for; `None` where the path ends in a root or
/// is empty.
pub uninterp spec fn parent_of(path: Seq<char>) -> Option<Seq<char>>;

/// The characters of an optional text.
pub open spec fn text_of(text: Option<&str>) -> Option<Seq<char>> {
    match text {
        Some(s) => Some(s@),
        None => None,
    }
}

/// The characters of an optional owned text.
pub open spec fn owned_text_of(text: Option<String>) -> Option<Seq<char>> {
    match text {
        Some(s) => Some(s@),
        None => None,
    }
}

/// `std::path::Path::file_name` splits the final component off a path. The
/// component is a part of the text that was handed in, so it is text again;
/// which part it is depends on the path alone.
#[verifier::external_body]
pub(crate) fn file_name(path: &str) -> (name: Option<&str>)
    ensures
        text_of(name) == file_name_of(path@),
{
    match std::path::Path::new(path).file_name() {
        Some(name) => name.to_str(),
        None => None,
    }
}

/// `std::path::Path::parent` drops the final component of a path. What is
/// left is a part of the text that was handed in; which part it is depends on
/// the path alone.
#[verifier::external_body]
pub(crate) fn parent(path: &str) -> (folder: Option<String>)
    ensures
        owned_text_of(folder) == parent_of(path@),
{
    match std::path::Path::new(path).parent() {
        Some(folder) => Some(folder.to_string_lossy().into_owned()),
        None => None,
    }
}

/// The path that a command works on: the text it was handed, without leading
/// and trailing whitespace. A blank text names no path.
pub open spec fn target(target_path: Seq<char>) -> Option<Seq<char>> {
    if is_blank(target_path) {
        None
    } else {
        Some(trimmed(target_path))
    }
}

/// The path that a command works on, or `None` where the text is blank. A
/// caller that gets `None` has nothing to look up on disk.
pub fn target_of(target_path: &str) -> (path: Option<&str>)
    ensures
        text_of(path) == target(target_path@),
{
    let path = trim(target_path);
    proof {
        lemma_trimmed_empty_iff_blank(target_path@);
    }
    if path.is_empty() {
        None
    } else {
        Some(path)
    }
}

/// A path that a command has found in its input is found again, unchanged,
/// when it is handed to a command as it is.
pub proof fn lemma_target_is_stable(target_path: Seq<char>)
    requires
        target(target_path) is Some,
    ensures
        target(target(target_path)->Some_0) == target(target_path),
{
    lemma_trimmed_empty_iff_blank(target_path);
    lemma_trimmed_is_stable(target_path);
    lemma_trimmed_empty_iff_blank(trimmed(target_path));
}

/// The position of the last `.` in `name`, or -1 where it holds none.
pub open spec fn last_dot(name: Seq<char>) -> int
    decreases name.len(),
{
    if name.len() == 0 {
        -1
    } else if name.last() == '.' {
        name.len() - 1
    } else {
        last_dot(name.drop_last())
    }
}

/// The extension of a file name: what follows its last `.`. A name without a
/// `.`, and one whose only `.` is its first character, has none.
pub open spec fn name_extension(name: Seq<char>) -> Option<Seq<char>> {
    let dot = last_dot(name);
    if dot <= 0 {
        None
    } else {
        Some(name.subrange(dot + 1, name.len() as int))
    }
}

/// The extension of the entry that `path` names, or the empty text where it
/// has none.
pub open spec fn extension_of(path: Seq<char>) -> Seq<char> {
    match file_name_of(path) {
        Some(name) => match name_extension(name) {
            Some(extension) => extension,
            None => Seq::<char>::empty(),
        },
        None => Seq::<char>::empty(),
    }
}

/// The name shown for the entry that `path` names: its file name, or the whole
/// path where it has none.
pub open spec fn display_name_of(path: Seq<char>) -> Seq<char> {
    match file_name_of(path) {
        Some(name) => name,
        None => path,
    }
}

/// `last_dot` names a `.` of the text, and no `.` follows it.
pub proof fn lemma_last_dot(name: Seq<char>)
    ensures
        -1 <= last_dot(name) < name.len(),
        last_dot(name) >= 0 ==> name[last_dot(name)] == '.',
        forall|k: int| last_dot(name) < k < name.len() ==> #[trigger] name[k] != '.',
    decreases name.len(),
{
    if name.len() > 0 && name.last() != '.' {
        let front = name.drop_last();
        lemma_last_dot(front);
        assert forall|k: int| last_dot(name) < k < name.len() implies #[trigger] name[k]
            != '.' by {
            if k < front.len() {
                assert(front[k] == name[k]);
            }
        }
    }
}

/// A name with an extension is a stem that is not empty, a `.` and the
/// extension, and the extension holds no `.`.
pub proof fn lemma_name_extension(name: Seq<char>)
    requires
        name_extension(name) is Some,
    ensures
        0 < last_dot(name) < name.len(),
        name == name.take(last_dot(name)) + seq!['.'] + name_extension(name)->Some_0,
        !name_extension(name)->Some_0.contains('.'),
{
    lemma_last_dot(name);
    let dot = last_dot(name);
    let found = name.subrange(dot + 1, name.len() as int);
    assert(name =~= name.take(dot) + seq!['.'] + found);
    if found.contains('.') {
        let k = choose|k: int| 0 <= k < found.len() && found[k] == '.';
        assert(name[dot + 1 + k] == '.');
    }
}

/// The extension of a file name, if it has one.
pub fn extension(name: &str) -> (r: Option<&str>)
    ensures
        text_of(r) == name_extension(name@),
{
    let total = name.unicode_len();
    let mut found = false;
    let mut dot: usize = 0;
    let mut position: usize = 0;
    for c in it: name.chars()
        invariant
            it.seq() == name@,
            total == name@.len(),
            position == it.index(),
            found ==> dot < position,
            last_dot(name@.take(position as int)) == (if found {
                dot as int
            } else {
                -1
            }),
    {
        proof {
            let longer = name@.take(position + 1);
            assert(longer.drop_last() =~= name@.take(position as int));
            assert(longer.last() == c);
        }
        if c == '.' {
            found = true;
            dot = position;
        }
        position = position + 1;
    }
    assert(name@.take(position as int) =~= name@);
    if found && dot > 0 {
        Some(name.substring_char(dot + 1, total))
    } else {
        None
    }
}

} // verus!
