//! Unix path names held as text.

use vstd::prelude::*;
use vstd::string::*;
use crate::text::has_suffix;

verus! {

/// The characters of an optional string.
pub open spec fn opt_text(o: Option<String>) -> Option<Seq<char>> {
    match o {
        Some(s) => Some(s@),
        None => None,
    }
}

/// What `std::path::Path::parent` gives for a path name.
pub uninterp spec fn path_parent(p: Seq<char>) -> Option<Seq<char>>;

/// What `std::path::Path::file_stem` gives for a path name.
pub uninterp spec fn path_stem(p: Seq<char>) -> Option<Seq<char>>;

/// Where the last component of a path name starts: behind its last slash.
pub open spec fn name_start(p: Seq<char>) -> nat
    decreases p.len(),
{
    if p.len() == 0 || p.last() == '/' {
        p.len()
    } else {
        name_start(p.drop_last())
    }
}

/// Whether what stands behind the last slash is an ordinary file name.
pub open spec fn has_plain_name(p: Seq<char>) -> bool {
    let name = p.skip(name_start(p) as int);
    name.len() > 0 && name != seq!['.'] && name != seq!['.', '.']
}

/// The directory part before the last slash; the slash itself where it is the root.
pub open spec fn dir_text(p: Seq<char>) -> Seq<char> {
    if name_start(p) <= 1 {
        p.take(name_start(p) as int)
    } else {
        p.take(name_start(p) - 1)
    }
}

/// Whether the directory part is written without a redundant slash or dot at its end.
pub open spec fn has_plain_dir(p: Seq<char>) -> bool {
    name_start(p) <= 1 || (dir_text(p).last() != '/' && !has_suffix(dir_text(p), seq!['/', '.']))
}

/// A file name without its extension: what comes before the last dot, unless that dot is the only
/// one and the first character, or there is none.
pub open spec fn stem_of(name: Seq<char>) -> Seq<char> {
    if last_dot(name) <= 0 {
        name
    } else {
        name.take(last_dot(name))
    }
}

/// The position of the last dot, or -1.
pub open spec fn last_dot(name: Seq<char>) -> int
    decreases name.len(),
{
    if name.len() == 0 {
        -1
    } else if name.last() == '.' {
        name.len() - 1
    } else {
        last_dot(name.drop_last())
    }
}

/// `std::path::Path::parent` on Unix: the path without its final component. It is named by
/// `path_parent`; of a path that is written plainly, it is stated to be the text before the last
/// slash, and the root and the empty path have none.
#[verifier::external_body]
pub(crate) fn parent(path: &str) -> (r: Option<String>)
    ensures
        opt_text(r) == path_parent(path@),
        path@.len() == 0 ==> r is None,
        path@ == seq!['/'] ==> r is None,
        has_plain_name(path@) && has_plain_dir(path@) ==> opt_text(r) == Some(dir_text(path@)),
{
    std::path::Path::new(path).parent().map(|p| p.to_string_lossy().into_owned())
}

/// `std::path::Path::file_stem` on Unix: the final component without its extension. It is named by
/// `path_stem`; of a path that ends in an ordinary file name, it is stated to be the stem of what
/// stands behind the last slash.
#[verifier::external_body]
pub(crate) fn file_stem(path: &str) -> (r: Option<String>)
    ensures
        opt_text(r) == path_stem(path@),
        has_plain_name(path@) ==> opt_text(r) == Some(
            stem_of(path@.skip(name_start(path@) as int)),
        ),
{
    std::path::Path::new(path).file_stem().map(|s| s.to_string_lossy().into_owned())
}

/// A relative name below a directory.
pub open spec fn joined_path(dir: Seq<char>, name: Seq<char>) -> Seq<char> {
    if dir.len() == 0 || dir.last() == '/' {
        dir + name
    } else {
        dir + seq!['/'] + name
    }
}

/// Names an entry of a directory. The name is relative: an absolute one would stand for itself.
pub fn join_path(dir: &str, name: &str) -> (r: String)
    requires
        name@.len() > 0 ==> name@[0] != '/',
    ensures
        r@ == joined_path(dir@, name@),
{
    let n: usize = dir.unicode_len();
    let mut out = dir.to_owned();
    if n > 0 && dir.get_char(n - 1) != '/' {
        out.push('/');
        assert(out@ == dir@ + seq!['/']);
    }
    out.append(name);
    out
}

/// A name below a directory starts with the directory and ends with the name; between them stands a
/// slash, and only one where the directory ends in one.
pub proof fn law_name_stands_below_its_directory(dir: Seq<char>, name: Seq<char>)
    ensures
        dir.is_prefix_of(joined_path(dir, name)),
        joined_path(dir, name).skip(joined_path(dir, name).len() - name.len()) == name,
        dir.len() > 0 ==> joined_path(dir, name)[joined_path(dir, name).len() - name.len() - 1]
            == '/',
        joined_path(dir.push('/'), name) == dir.push('/') + name,
        dir.len() > 0 && dir.last() != '/' ==> joined_path(dir, name) == joined_path(
            dir.push('/'),
            name,
        ),
        joined_path(seq![], name) == name,
{
    let p = joined_path(dir, name);
    assert(p.take(dir.len() as int) =~= dir);
    assert(p.skip(p.len() - name.len()) =~= name);
    assert(dir + seq!['/'] + name =~= dir.push('/') + name);
    assert(joined_path(seq![], name) =~= name);
}

} // verus!
