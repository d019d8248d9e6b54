//! Paths as the resolver sees them: byte strings whose components are
//! separated by `/`. The document root and every path that the file system
//! hands back are canonical: absolute, without `.` and `..`, without doubled
//! or trailing separators.

use crate::text::append_bytes;
use vstd::prelude::*;
use vstd::slice::slice_subrange;

verus! {

pub const SLASH: u8 = 47;

pub const DOT: u8 = 46;

/// The request path without its leading separator.
pub open spec fn relative_part(path: Seq<u8>) -> Seq<u8> {
    if path.len() > 0 && path[0] == SLASH {
        path.skip(1)
    } else {
        path
    }
}

/// `rel` joined onto `base`. An absolute `rel` takes the place of `base`;
/// otherwise it follows `base`, with one separator between the two unless
/// `base` is empty or ends in one.
pub open spec fn joined(base: Seq<u8>, rel: Seq<u8>) -> Seq<u8> {
    if rel.len() > 0 && rel[0] == SLASH {
        rel
    } else if base.len() > 0 && base.last() != SLASH {
        base + seq![SLASH] + rel
    } else {
        base + rel
    }
}

/// Whether `path` is `root` or lies below it: `root` is a prefix of `path`
/// that ends where a component of `path` ends.
pub open spec fn within(root: Seq<u8>, path: Seq<u8>) -> bool {
    &&& root.len() <= path.len()
    &&& path.subrange(0, root.len() as int) == root
    &&& (path.len() == root.len() || (root.len() > 0 && root.last() == SLASH)
        || path[root.len() as int] == SLASH)
}

/// Index of the last occurrence of `byte` in `s`, or -1 where it has none.
pub open spec fn last_index_of(s: Seq<u8>, byte: u8) -> int
    decreases s.len(),
{
    if s.len() == 0 {
        -1
    } else if s.last() == byte {
        s.len() - 1
    } else {
        last_index_of(s.drop_last(), byte)
    }
}

/// The last component of a path: what stands behind its last separator.
pub open spec fn file_name(path: Seq<u8>) -> Seq<u8> {
    path.skip(last_index_of(path, SLASH) + 1)
}

/// The extension of a path: what stands behind the last dot of its file
/// name. There is none where the name has no dot, where its only dot is its
/// first byte, and where the name is `..`.
pub open spec fn extension(path: Seq<u8>) -> Option<Seq<u8>> {
    let name = file_name(path);
    if last_index_of(name, DOT) <= 0 || name == seq![DOT, DOT] {
        None
    } else {
        Some(name.skip(last_index_of(name, DOT) + 1))
    }
}

/// `last_index_of` is the greatest index that holds the byte.
pub proof fn lemma_last_index_of(s: Seq<u8>, byte: u8)
    ensures
        -1 <= last_index_of(s, byte) < s.len(),
        last_index_of(s, byte) >= 0 ==> s[last_index_of(s, byte)] == byte,
        forall|i: int| last_index_of(s, byte) < i < s.len() ==> s[i] != byte,
    decreases s.len(),
{
    if s.len() > 0 && s.last() != byte {
        lemma_last_index_of(s.drop_last(), byte);
        assert forall|i: int| last_index_of(s, byte) < i < s.len() implies s[i] != byte by {
            if i < s.len() - 1 {
                assert(s.drop_last()[i] == s[i]);
            }
        }
    }
}

/// An index that holds the byte, with none behind it, is the last one.
pub proof fn lemma_last_index_of_is(s: Seq<u8>, byte: u8, at: int)
    requires
        -1 <= at < s.len(),
        at >= 0 ==> s[at] == byte,
        forall|i: int| at < i < s.len() ==> s[i] != byte,
    ensures
        last_index_of(s, byte) == at,
    decreases s.len(),
{
    if s.len() > 0 && at < s.len() - 1 {
        assert(s.last() != byte);
        assert forall|i: int| at < i < s.drop_last().len() implies s.drop_last()[i] != byte by {
            assert(s.drop_last()[i] == s[i]);
        }
        lemma_last_index_of_is(s.drop_last(), byte, at);
    }
}

/// Strips the leading separator of a request path.
pub fn strip_leading_slash(path: &[u8]) -> (rest: &[u8])
    ensures
        rest@ == relative_part(path@),
{
    if path.len() > 0 && path[0] == SLASH {
        let rest = slice_subrange(path, 1, path.len());
        assert(rest@ =~= path@.skip(1));
        rest
    } else {
        path
    }
}

/// Joins `rel` onto `base`.
pub fn join(base: &[u8], rel: &[u8]) -> (path: Vec<u8>)
    ensures
        path@ == joined(base@, rel@),
{
    let mut path: Vec<u8> = Vec::new();
    if rel.len() > 0 && rel[0] == SLASH {
        append_bytes(&mut path, rel);
        assert(path@ =~= rel@);
        return path;
    }
    append_bytes(&mut path, base);
    if base.len() > 0 && base[base.len() - 1] != SLASH {
        path.push(SLASH);
    }
    append_bytes(&mut path, rel);
    assert(path@ =~= joined(base@, rel@));
    path
}

/// Whether `path` is `root` or lies below it.
pub fn is_within(root: &[u8], path: &[u8]) -> (inside: bool)
    ensures
        inside == within(root@, path@),
{
    if root.len() > path.len() {
        return false;
    }
    let mut i: usize = 0;
    while i < root.len()
        invariant
            i <= root@.len() <= path@.len(),
            forall|j: int| 0 <= j < i ==> root@[j] == path@[j],
        decreases root@.len() - i,
    {
        if root[i] != path[i] {
            proof {
                assert(path@.subrange(0, root@.len() as int)[i as int] == path@[i as int]);
            }
            return false;
        }
        i = i + 1;
    }
    assert(path@.subrange(0, root@.len() as int) =~= root@);
    path.len() == root.len() || (root.len() > 0 && root[root.len() - 1] == SLASH)
        || path[root.len()] == SLASH
}

/// Finds the last occurrence of `byte` in `buf[from..]`. The result is an
/// index into `buf`; it is `from` where the byte occurs nowhere, and one
/// past the occurrence where it does.
fn scan_back(buf: &[u8], from: usize, byte: u8) -> (behind: usize)
    requires
        from <= buf@.len(),
    ensures
        behind == from + last_index_of(buf@.skip(from as int), byte) + 1,
        from <= behind <= buf@.len(),
{
    let ghost tail = buf@.skip(from as int);
    let mut behind: usize = buf.len();
    proof {
        lemma_last_index_of(tail, byte);
    }
    while behind > from && buf[behind - 1] != byte
        invariant
            from <= behind <= buf@.len(),
            tail == buf@.skip(from as int),
            forall|i: int| behind - from <= i < tail.len() ==> tail[i] != byte,
        decreases behind,
    {
        behind = behind - 1;
    }
    proof {
        lemma_last_index_of_is(tail, byte, behind - from - 1);
    }
    behind
}

/// The extension of a path, if it has one.
pub fn extension_of(path: &[u8]) -> (ext: Option<&[u8]>)
    ensures
        ext is Some <==> extension(path@) is Some,
        ext matches Some(bytes) ==> extension(path@) == Some(bytes@),
{
    let name_start = scan_back(path, 0, SLASH);
    let ext_start = scan_back(path, name_start, DOT);
    let ghost name = file_name(path@);
    proof {
        assert(path@.skip(0) =~= path@);
        assert(name =~= path@.skip(name_start as int));
    }
    if ext_start - name_start <= 1 {
        return None;
    }
    if path.len() - name_start == 2 && path[name_start] == DOT && path[name_start + 1] == DOT {
        assert(name =~= seq![DOT, DOT]);
        return None;
    }
    proof {
        if name == seq![DOT, DOT] {
            assert(name.len() == 2);
            assert(name[0] == DOT && name[1] == DOT);
        }
    }
    let ext = slice_subrange(path, ext_start, path.len());
    assert(ext@ =~= name.skip(last_index_of(name, DOT) + 1));
    Some(ext)
}

} // verus!
