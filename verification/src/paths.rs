//! Unix-style path strings, modelled as character sequences.
//!
//! A path is split at its last `'/'`: the directory prefix (everything up to
//! and including that separator, empty when there is none) and the file-name
//! part (everything after it). Planned targets are built by replacing the
//! file-name part, in the way `Path::with_file_name` builds them, and
//! absolute paths are built from a base directory as `PathBuf::push` does.

use vstd::prelude::*;

verus! {

/// Length of the directory prefix of `s`: one past the position of the last
/// `'/'`, or 0 when `s` holds no separator.
pub open spec fn dir_prefix_len(s: Seq<char>) -> int
    decreases s.len(),
{
    if s.len() == 0 {
        0
    } else if s.last() == '/' {
        s.len() as int
    } else {
        dir_prefix_len(s.drop_last())
    }
}

/// The directory part of a path: everything up to and including the last
/// `'/'`; empty when the path has no separator.
pub open spec fn dir_prefix_of(s: Seq<char>) -> Seq<char> {
    s.subrange(0, dir_prefix_len(s))
}

/// The file-name part of a path: everything after the last `'/'`.
pub open spec fn file_part_of(s: Seq<char>) -> Seq<char> {
    s.subrange(dir_prefix_len(s), s.len() as int)
}

/// True of a bare file name: no separator anywhere in it.
pub open spec fn has_no_separator(s: Seq<char>) -> bool {
    forall|i: int| 0 <= i < s.len() ==> s[i] != '/'
}

/// True of a path that starts at the filesystem root.
pub open spec fn is_absolute(s: Seq<char>) -> bool {
    s.len() > 0 && s[0] == '/'
}

pub proof fn lemma_dir_prefix_len_bounds(s: Seq<char>)
    ensures
        0 <= dir_prefix_len(s) <= s.len(),
    decreases s.len(),
{
    if s.len() > 0 && s.last() != '/' {
        lemma_dir_prefix_len_bounds(s.drop_last());
    }
}

/// When the prefix length is positive, the character just before it is the
/// last separator.
pub proof fn lemma_dir_prefix_ends_in_separator(s: Seq<char>)
    ensures
        dir_prefix_len(s) > 0 ==> s[dir_prefix_len(s) - 1] == '/',
    decreases s.len(),
{
    if s.len() > 0 && s.last() != '/' {
        lemma_dir_prefix_len_bounds(s.drop_last());
        lemma_dir_prefix_ends_in_separator(s.drop_last());
    }
}

/// The directory prefix extends past any separator the path holds.
pub proof fn lemma_dir_prefix_len_after_separator(s: Seq<char>, i: int)
    requires
        0 <= i < s.len(),
        s[i] == '/',
    ensures
        dir_prefix_len(s) > i,
    decreases s.len(),
{
    if s.last() != '/' {
        lemma_dir_prefix_len_after_separator(s.drop_last(), i);
    }
}

/// Joining any path onto an absolute base yields an absolute path.
pub proof fn lemma_join_absolute(base: Seq<char>, rel: Seq<char>)
    requires
        is_absolute(base),
    ensures
        is_absolute(join_path_spec(base, rel)),
{
}

/// Appending separator-free characters does not move the last separator.
pub proof fn lemma_dir_prefix_len_append(a: Seq<char>, b: Seq<char>)
    requires
        has_no_separator(b),
    ensures
        dir_prefix_len(a + b) == dir_prefix_len(a),
    decreases b.len(),
{
    if b.len() == 0 {
        assert(a + b =~= a);
    } else {
        assert((a + b).last() == b.last());
        assert((a + b).drop_last() =~= a + b.drop_last());
        lemma_dir_prefix_len_append(a, b.drop_last());
    }
}

/// The directory prefix is its own directory prefix: it is empty or ends in
/// a separator.
pub proof fn lemma_dir_prefix_idempotent(s: Seq<char>)
    ensures
        dir_prefix_len(dir_prefix_of(s)) == dir_prefix_len(s),
{
    lemma_dir_prefix_len_bounds(s);
    let p = dir_prefix_of(s);
    if dir_prefix_len(s) == 0 {
        assert(p =~= Seq::<char>::empty());
    } else {
        lemma_dir_prefix_ends_in_separator(s);
        assert(p.last() == '/');
    }
}

/// Replacing the file-name part of a Unix-style path string: an absolute
/// `name` replaces the whole path; otherwise `name` replaces everything
/// after the last separator of `path`. This is `Path::with_file_name` for
/// every path that does not end in a separator; for one that does (an empty
/// file-name part, which no glob candidate has) it appends `name` instead
/// of replacing the last named component.
pub open spec fn with_file_name_spec(path: Seq<char>, name: Seq<char>) -> Seq<char> {
    if is_absolute(name) {
        name
    } else {
        dir_prefix_of(path) + name
    }
}

/// A target built from a bare file name keeps the source's parent directory,
/// and its file-name part is exactly the new name.
pub proof fn lemma_with_file_name_keeps_parent(path: Seq<char>, name: Seq<char>)
    requires
        has_no_separator(name),
    ensures
        dir_prefix_of(with_file_name_spec(path, name)) == dir_prefix_of(path),
        file_part_of(with_file_name_spec(path, name)) == name,
{
    lemma_dir_prefix_len_bounds(path);
    let p = dir_prefix_of(path);
    let r = with_file_name_spec(path, name);
    assert(r =~= p + name);
    lemma_dir_prefix_len_append(p, name);
    lemma_dir_prefix_idempotent(path);
    assert(dir_prefix_len(r) == p.len());
    assert(dir_prefix_of(r) =~= p);
    assert(file_part_of(r) =~= name);
}

/// Index one past the last `'/'` of `path`, as executable code.
fn dir_prefix_end(path: &str) -> (r: usize)
    ensures
        r == dir_prefix_len(path@),
{
    let len: usize = path.unicode_len();
    let mut i: usize = 0;
    let mut last: usize = 0;
    while i < len
        invariant
            0 <= i <= len,
            len == path@.len(),
            last == dir_prefix_len(path@.subrange(0, i as int)),
        decreases len - i,
    {
        let c = path.get_char(i);
        proof {
            assert(path@.subrange(0, i + 1).last() == path@[i as int]);
            assert(path@.subrange(0, i + 1).drop_last() =~= path@.subrange(0, i as int));
        }
        if c == '/' {
            last = i + 1;
        }
        i = i + 1;
    }
    proof {
        assert(path@.subrange(0, len as int) =~= path@);
    }
    last
}

/// Replace the file-name part of `path` with `name`: an absolute `name`
/// replaces the whole path. See `with_file_name_spec` for the one deviation
/// from `Path::with_file_name`, on paths ending in a separator.
pub fn with_file_name(path: &str, name: &str) -> (r: String)
    ensures
        r@ == with_file_name_spec(path@, name@),
{
    if name.unicode_len() > 0 && name.get_char(0) == '/' {
        return name.to_owned();
    }
    let end = dir_prefix_end(path);
    proof {
        lemma_dir_prefix_len_bounds(path@);
    }
    let prefix = path.substring_char(0, end);
    let mut r = prefix.to_owned();
    r.append(name);
    r
}

/// `PathBuf::push` on Unix-style path strings: an absolute `rel` replaces
/// `base`; otherwise `rel` is appended, with a separator unless `base` is
/// empty or already ends in one.
pub open spec fn join_path_spec(base: Seq<char>, rel: Seq<char>) -> Seq<char> {
    if is_absolute(rel) {
        rel
    } else if base.len() == 0 {
        rel
    } else if base.last() == '/' {
        base + rel
    } else {
        base + seq!['/'] + rel
    }
}

/// Join a relative path onto a base directory, as `PathBuf::push` does.
pub fn join_path(base: &str, rel: &str) -> (r: String)
    ensures
        r@ == join_path_spec(base@, rel@),
{
    let base_len = base.unicode_len();
    if rel.unicode_len() > 0 && rel.get_char(0) == '/' {
        return rel.to_owned();
    }
    if base_len == 0 {
        return rel.to_owned();
    }
    let mut r = base.to_owned();
    if base.get_char(base_len - 1) != '/' {
        r.append("/");
        proof {
            reveal_strlit("/");
            assert(r@ =~= base@ + seq!['/']);
        }
    }
    r.append(rel);
    proof {
        if base@.last() != '/' {
            assert(r@ =~= base@ + seq!['/'] + rel@);
        }
    }
    r
}

} // verus!
