//! The pure part of the metadata reader: deriving a file's display name
//! and extension from its path string. The filesystem stat itself happens
//! outside the library; it hands in the path and the size.

use vstd::prelude::*;
use crate::model::FileInfo;

verus! {

/// The file name of a path: the suffix after the last `/`, or the whole
/// path when it has none. A path ending in `/` has an empty name.
pub open spec fn spec_file_name(p: Seq<char>) -> Seq<char>
    decreases p.len(),
{
    if p.len() == 0 {
        Seq::empty()
    } else if p.last() == '/' {
        Seq::empty()
    } else {
        spec_file_name(p.drop_last()).push(p.last())
    }
}

/// The extension of a file name, if it has one: the suffix after the
/// last `.` that does not stand first, so a leading-dot name such as a
/// hidden file has no extension.
pub open spec fn spec_extension_opt(n: Seq<char>) -> Option<Seq<char>>
    decreases n.len(),
{
    if n.len() <= 1 {
        None
    } else if n.last() == '.' {
        Some(Seq::empty())
    } else {
        match spec_extension_opt(n.drop_last()) {
            Some(e) => Some(e.push(n.last())),
            None => None,
        }
    }
}

/// The extension of a file name, or empty when it has none.
pub open spec fn spec_extension(n: Seq<char>) -> Seq<char> {
    match spec_extension_opt(n) {
        Some(e) => e,
        None => Seq::empty(),
    }
}

/// When `p[i]` is the last `/` of `p`, the file name is everything after it.
proof fn lemma_file_name_after_slash(p: Seq<char>, i: int)
    requires
        0 <= i < p.len(),
        p[i] == '/',
        forall|j: int| i < j < p.len() ==> p[j] != '/',
    ensures
        spec_file_name(p) == p.subrange(i + 1, p.len() as int),
    decreases p.len(),
{
    if i == p.len() - 1 {
        assert(spec_file_name(p) =~= p.subrange(i + 1, p.len() as int));
    } else {
        lemma_file_name_after_slash(p.drop_last(), i);
        assert(spec_file_name(p.drop_last()).push(p.last()) =~= p.subrange(i + 1, p.len() as int));
    }
}

/// A path without any `/` is its own file name.
proof fn lemma_file_name_no_slash(p: Seq<char>)
    requires
        forall|j: int| 0 <= j < p.len() ==> p[j] != '/',
    ensures
        spec_file_name(p) == p,
    decreases p.len(),
{
    if p.len() > 0 {
        lemma_file_name_no_slash(p.drop_last());
        assert(spec_file_name(p.drop_last()).push(p.last()) =~= p);
    }
}

/// When `n[i]` is the last `.` of the name and not its first character,
/// the extension is everything after it.
proof fn lemma_extension_after_dot(n: Seq<char>, i: int)
    requires
        1 <= i < n.len(),
        n[i] == '.',
        forall|j: int| i < j < n.len() ==> n[j] != '.',
    ensures
        spec_extension_opt(n) == Some(n.subrange(i + 1, n.len() as int)),
    decreases n.len(),
{
    if i == n.len() - 1 {
        assert(n.subrange(i + 1, n.len() as int) =~= Seq::<char>::empty());
    } else {
        lemma_extension_after_dot(n.drop_last(), i);
        assert(spec_extension_opt(n.drop_last()).unwrap().push(n.last()) =~= n.subrange(
            i + 1,
            n.len() as int,
        ));
    }
}

/// A name with no `.` past its first character has no extension.
proof fn lemma_extension_no_dot(n: Seq<char>)
    requires
        forall|j: int| 1 <= j < n.len() ==> n[j] != '.',
    ensures
        spec_extension_opt(n) is None,
    decreases n.len(),
{
    if n.len() > 1 {
        lemma_extension_no_dot(n.drop_last());
    }
}

/// Extracts the file name of a path: the part after the last `/`.
pub fn file_name_of(path: &str) -> (name: String)
    ensures
        name@ == spec_file_name(path@),
{
    let len = path.unicode_len();
    let mut j: usize = len;
    while j > 0
        invariant
            j <= len,
            len == path@.len(),
            forall|k: int| j <= k < len ==> path@[k] != '/',
        decreases j,
    {
        if path.get_char(j - 1) == '/' {
            proof {
                lemma_file_name_after_slash(path@, j - 1);
            }
            let tail = path.substring_char(j, len);
            return String::from_str(tail);
        }
        j = j - 1;
    }
    proof {
        lemma_file_name_no_slash(path@);
    }
    String::from_str(path)
}

/// Extracts the extension of a file name: the part after the last `.`
/// that does not stand first; empty when there is none.
pub fn extension_of(name: &str) -> (ext: String)
    ensures
        ext@ == spec_extension(name@),
{
    let len = name.unicode_len();
    let mut j: usize = len;
    while j > 1
        invariant
            j <= len,
            len == name@.len(),
            forall|k: int| j <= k < len ==> name@[k] != '.',
        decreases j,
    {
        if name.get_char(j - 1) == '.' {
            proof {
                lemma_extension_after_dot(name@, j - 1);
            }
            let tail = name.substring_char(j, len);
            return String::from_str(tail);
        }
        j = j - 1;
    }
    proof {
        lemma_extension_no_dot(name@);
    }
    String::new()
}

/// Builds the `FileInfo` for a path whose stat returned `size`: the name
/// and extension are derived from the path text by the rules above.
pub fn file_info_from_path(path: &str, size: u64) -> (info: FileInfo)
    ensures
        info@.path == path@,
        info@.size == size,
        info@.name == spec_file_name(path@),
        info@.extension == spec_extension(spec_file_name(path@)),
{
    let name = file_name_of(path);
    let extension = extension_of(name.as_str());
    FileInfo { name, path: String::from_str(path), size, extension }
}

} // verus!
