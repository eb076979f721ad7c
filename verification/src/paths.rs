//! The standard library's paths, as the rest of the crate sees them.
//!
//! A path is modelled by its bytes and, where its structure matters, by the
//! parts that the bytes stand for. Which bytes separate the parts, and what
//! counts as a prefix, is fixed by the target that the crate is built for.
//! So the bytes that `parent` and `join` produce are named rather than
//! written out, and what is stated of the parts holds on every target.
use crate::text::occurrences;
use std::path::{Path, PathBuf};
use vstd::prelude::*;
use vstd::utf8::{encode_utf8, valid_utf8, decode_utf8};

verus! {

/// The standard library's borrowed path.
#[verifier::external_type_specification]
#[verifier::external_body]
pub struct ExPath(std::path::Path);

/// The standard library's owned path.
#[verifier::external_type_specification]
#[verifier::external_body]
pub struct ExPathBuf(std::path::PathBuf);

/// The error of `std::str::from_utf8`.
#[verifier::external_type_specification]
#[verifier::external_body]
pub struct ExUtf8Error(std::str::Utf8Error);

/// One component of a path, as `std::path::Component` tells them apart.
pub enum PathPart {
    /// A drive or share, such as `C:`.
    Prefix(Seq<u8>),
    /// The separator that roots a path.
    Root,
    /// A leading `.`.
    Current,
    /// A `..`.
    Up,
    /// A file or directory name.
    Named(Seq<u8>),
}

impl PathPart {
    /// Whether a path has a parent when this part is its last.
    pub open spec fn is_entry(self) -> bool {
        self is Current || self is Up || self is Named
    }
}

/// What a borrowed path holds: its bytes, which for Unicode text are UTF-8.
pub uninterp spec fn path_bytes(path: &Path) -> Seq<u8>;

/// What an owned path holds: its bytes, which for Unicode text are UTF-8.
pub uninterp spec fn buf_bytes(path: &PathBuf) -> Seq<u8>;

/// The components of the path with these bytes: what
/// `std::path::Path::components` yields.
pub uninterp spec fn path_parts(path: Seq<u8>) -> Seq<PathPart>;

/// The bytes of `std::path::Path::parent` on the path with these bytes.
pub uninterp spec fn parent_bytes(path: Seq<u8>) -> Option<Seq<u8>>;

/// The bytes of `std::path::Path::join` on the path with the bytes `base`.
pub uninterp spec fn joined(base: Seq<u8>, piece: Seq<char>) -> Seq<u8>;

/// What `std::path::Path::display` prints for the path with these bytes.
pub uninterp spec fn display_chars(path: Seq<u8>) -> Seq<char>;

/// Whether the byte separates components on some target.
pub open spec fn separator(b: u8) -> bool {
    b == 0x2f || b == 0x5c
}

/// Whether a path starts with two separators, as shares and devices do.
pub open spec fn two_separators(path: Seq<u8>) -> bool {
    path.len() >= 2 && separator(path[0]) && separator(path[1])
}

/// Whether a path starts as a verbatim one does: `\\?\`.
pub open spec fn verbatim_start(path: Seq<u8>) -> bool {
    path.len() >= 4 && two_separators(path) && path[2] == 0x3f && separator(path[3])
}

/// Whether a path starts as a device's does: `\\.\`.
pub open spec fn device_start(path: Seq<u8>) -> bool {
    path.len() >= 4 && two_separators(path) && path[2] == 0x2e && separator(path[3])
}

/// Whether a prefix starts as that of a verbatim share does:
/// `\\?\UNC\`.
pub open spec fn verbatim_share_start(prefix: Seq<u8>) -> bool {
    &&& prefix.len() >= 8
    &&& verbatim_start(prefix)
    &&& prefix[4] == 0x55 && prefix[5] == 0x4e && prefix[6] == 0x43
    &&& separator(prefix[7])
}

/// Whether `prefix`, the first of `parts`, stays what it is when a component
/// is appended. A share is complete once it is a prefix. A device needs a
/// name or something after it. A verbatim prefix needs its root, no `.` or
/// `..` that joining could resolve, and, for a share, the share's own name
/// after the server's.
pub open spec fn settled_prefix(prefix: Seq<u8>, parts: Seq<PathPart>) -> bool {
    if verbatim_start(prefix) {
        &&& parts.len() >= 2
        &&& parts[1] is Root
        &&& forall|i: int|
            0 <= i < parts.len() ==> !(#[trigger] parts[i] is Current) && !(parts[i] is Up)
        &&& verbatim_share_start(prefix) ==> exists|i: int|
            8 <= i < prefix.len() - 1 && #[trigger] prefix[i] == 0x5c
    } else if device_start(prefix) {
        parts.len() >= 3 || prefix.len() > 4
    } else {
        true
    }
}

/// Whether a component appended to the path is one more part on every
/// target. Only a path that starts with two separators can fail: a lone
/// server name becomes a share, and an unfinished prefix is finished.
pub open spec fn steady(path: Seq<u8>) -> bool {
    let parts = path_parts(path);
    ||| !two_separators(path)
    ||| path.len() >= 3 && separator(path[2])
    ||| parts.len() > 0 && match parts[0] {
        PathPart::Prefix(prefix) => settled_prefix(prefix, parts),
        PathPart::Root => parts.len() >= 3,
        _ => true,
    }
}

/// What a path holds besides separators.
pub open spec fn without_separators(path: Seq<u8>) -> Seq<u8> {
    path.filter(|b: u8| !separator(b))
}

/// Whether a path is another one with an entry joined on.
pub open spec fn ends_in_joined_entry(path: Seq<u8>) -> bool {
    exists|base: Seq<u8>, piece: Seq<char>|
        path == #[trigger] joined(base, piece) && entry_name(piece)
}

/// Whether `path` is `base` with `piece` after it, up to separators. Said of
/// an entry and of a base that an entry was joined onto before.
pub open spec fn appended(path: Seq<u8>, base: Seq<u8>, piece: Seq<char>) -> bool {
    entry_name(piece) && ends_in_joined_entry(base) ==> without_separators(path)
        == without_separators(base) + encode_utf8(piece)
}

/// Whether `piece` is one directory entry's name on every target: not empty,
/// neither `.` nor `..`, and free of separators and colons.
pub open spec fn entry_name(piece: Seq<char>) -> bool {
    &&& piece.len() > 0
    &&& piece != seq!['.']
    &&& piece != seq!['.', '.']
    &&& forall|i: int| 0 <= i < piece.len() ==> piece[i] != '/' && piece[i] != '\\' && piece[i] != ':'
}

/// Whether `piece` is one component and a name: on every target, or on the
/// one that the crate is built for, where as a path it is just itself.
pub open spec fn one_component(piece: Seq<char>) -> bool {
    ||| entry_name(piece)
    ||| path_parts(encode_utf8(piece)) == seq![PathPart::Named(encode_utf8(piece))]
}

/// The bytes of what lies two levels above a path.
pub open spec fn grandparent_bytes(path: Seq<u8>) -> Option<Seq<u8>> {
    match parent_bytes(path) {
        Some(parent) => parent_bytes(parent),
        None => None,
    }
}

/// `std::path::PathBuf::as_path`: the same path, borrowed.
pub assume_specification[ std::path::PathBuf::as_path ](path: &PathBuf) -> (r: &Path)
    ensures
        path_bytes(r) == buf_bytes(path),
;

/// `std::path::Path::to_path_buf`: the same path, owned.
pub assume_specification[ std::path::Path::to_path_buf ](path: &Path) -> (r: PathBuf)
    ensures
        buf_bytes(&r) == path_bytes(path),
;

/// `std::path::Path::parent`: the path without its final component. There is
/// none when the path is empty or ends in a root or prefix. What lies above
/// the parent of a path that two components were joined onto does not depend
/// on those two.
pub assume_specification[ std::path::Path::parent ](path: &Path) -> (r: Option<&Path>)
    ensures
        match r {
            Some(p) => {
                let parts = path_parts(path_bytes(path));
                &&& parent_bytes(path_bytes(path)) == Some(path_bytes(p))
                &&& parts.len() > 0 && parts.last().is_entry()
                &&& path_parts(path_bytes(p)) == parts.drop_last()
            },
            None => {
                let parts = path_parts(path_bytes(path));
                &&& parent_bytes(path_bytes(path)) is None
                &&& parts.len() > 0 ==> !parts.last().is_entry()
            },
        },
        forall|
            base: Seq<u8>,
            first: Seq<char>,
            second: Seq<char>,
            other_first: Seq<char>,
            other_second: Seq<char>,
        |
            #![trigger joined(joined(base, first), second), joined(joined(base, other_first), other_second)]
            path_bytes(path) == joined(joined(base, first), second) && one_component(first)
                && one_component(second) && one_component(other_first) && one_component(
                other_second,
            ) ==> (match r {
                Some(p) => parent_bytes(path_bytes(p)),
                None => None,
            }) == grandparent_bytes(joined(joined(base, other_first), other_second)),
;

/// `std::path::Path::file_name`: the final component, when that is a name
/// and not a root, a prefix, `.` or `..`. The name comes as its bytes.
#[verifier::external_body]
pub(crate) fn file_name(path: &Path) -> (r: Option<&[u8]>)
    ensures
        match r {
            Some(name) => {
                let parts = path_parts(path_bytes(path));
                parts.len() > 0 && parts.last() == PathPart::Named(name@)
            },
            None => {
                let parts = path_parts(path_bytes(path));
                parts.len() > 0 ==> !(parts.last() is Named)
            },
        },
{
    match path.file_name() {
        Some(name) => Some(name.as_encoded_bytes()),
        None => None,
    }
}

/// `std::path::Path::join`: `piece` adjoined to `base`. A piece that is one
/// directory entry's name becomes one more part of a steady base, which
/// stays steady. Onto a base that an entry was joined onto before, it goes
/// with nothing but separators between the two, and nothing but separators
/// is lost; of other bases that is left unsaid, since joining onto a verbatim
/// path may resolve its `.` and `..`.
#[verifier::external_body]
pub(crate) fn join(base: &Path, piece: &str) -> (r: PathBuf)
    ensures
        buf_bytes(&r) == joined(path_bytes(base), piece@),
        entry_name(piece@) && steady(path_bytes(base)) ==> {
            &&& path_parts(buf_bytes(&r)) == path_parts(path_bytes(base)).push(
                PathPart::Named(encode_utf8(piece@)),
            )
            &&& steady(buf_bytes(&r))
        },
        appended(buf_bytes(&r), path_bytes(base), piece@),
{
    base.join(piece)
}

/// `std::path::Path::display`: the path as text, with what is not Unicode
/// replaced. A path that is Unicode prints as it is, and of any path the
/// ASCII characters print, and no others.
#[verifier::external_body]
pub(crate) fn display(path: &Path) -> (r: String)
    ensures
        r@ == display_chars(path_bytes(path)),
        valid_utf8(path_bytes(path)) ==> r@ == decode_utf8(path_bytes(path)),
        forall|c: char|
            c <= '\u{7f}' ==> #[trigger] occurrences(r@, c) == occurrences(
                path_bytes(path),
                c as u8,
            ),
{
    path.display().to_string()
}

/// `std::str::from_utf8`: the text that the bytes encode, if they are UTF-8.
pub assume_specification[ std::str::from_utf8 ](bytes: &[u8]) -> (r: Result<
    &str,
    std::str::Utf8Error,
>)
    ensures
        match r {
            Ok(text) => valid_utf8(bytes@) && text@ == decode_utf8(bytes@),
            Err(_) => !valid_utf8(bytes@),
        },
;

/// A text of more than two characters is an entry's name when it is free of
/// separators and colons.
pub proof fn longer_entry_name(piece: Seq<char>)
    requires
        piece.len() > 2,
        forall|i: int|
            0 <= i < piece.len() ==> piece[i] != '/' && piece[i] != '\\' && piece[i] != ':',
    ensures
        entry_name(piece),
{
    assert(seq!['.'].len() == 1 && seq!['.', '.'].len() == 2);
}

/// `pieces` joined onto `base`, one after the other.
pub open spec fn joined_all(base: Seq<u8>, pieces: Seq<Seq<char>>) -> Seq<u8>
    decreases pieces.len(),
{
    if pieces.len() == 0 {
        base
    } else {
        joined(joined_all(base, pieces.drop_last()), pieces.last())
    }
}

/// The parts of a path that lies under `base`, at the end of the named
/// entries `pieces`.
pub open spec fn parts_under(base: Seq<u8>, pieces: Seq<Seq<char>>) -> Seq<PathPart> {
    path_parts(base) + pieces.map_values(|piece: Seq<char>| PathPart::Named(encode_utf8(piece)))
}

/// Joins `pieces` onto `base`, one after the other.
pub(crate) fn join_all(base: &Path, pieces: &[&str]) -> (r: PathBuf)
    ensures
        buf_bytes(&r) == joined_all(
            path_bytes(base),
            pieces@.map_values(|piece: &str| piece@),
        ),
        steady(path_bytes(base)) && (forall|i: int|
            0 <= i < pieces@.len() ==> entry_name(#[trigger] pieces@[i]@)) ==> {
            &&& path_parts(buf_bytes(&r)) == parts_under(
                path_bytes(base),
                pieces@.map_values(|piece: &str| piece@),
            )
            &&& steady(buf_bytes(&r))
        },
        pieces@.len() > 0 ==> appended(
            buf_bytes(&r),
            joined_all(
                path_bytes(base),
                pieces@.map_values(|piece: &str| piece@).drop_last(),
            ),
            pieces@.last()@,
        ),
{
    let ghost all = pieces@.map_values(|piece: &str| piece@);
    let ghost safe = steady(path_bytes(base)) && (forall|i: int|
        0 <= i < pieces@.len() ==> entry_name(#[trigger] pieces@[i]@));
    let mut path = base.to_path_buf();
    let mut i: usize = 0;
    assert(all.take(0).len() == 0);
    assert(parts_under(path_bytes(base), all.take(0)) =~= path_parts(path_bytes(base)));
    while i < pieces.len()
        invariant
            i <= pieces@.len(),
            all == pieces@.map_values(|piece: &str| piece@),
            safe ==> (forall|k: int| 0 <= k < pieces@.len() ==> entry_name(#[trigger] pieces@[k]@)),
            buf_bytes(&path) == joined_all(path_bytes(base), all.take(i as int)),
            safe ==> steady(buf_bytes(&path)),
            safe ==> path_parts(buf_bytes(&path)) == parts_under(
                path_bytes(base),
                all.take(i as int),
            ),
            i > 0 ==> appended(
                buf_bytes(&path),
                joined_all(path_bytes(base), all.take(i - 1)),
                pieces@[i - 1]@,
            ),
        decreases pieces@.len() - i,
    {
        let ghost before = path_parts(buf_bytes(&path));
        path = join(path.as_path(), pieces[i]);
        proof {
            let next = all.take(i + 1);
            assert(next.drop_last() =~= all.take(i as int));
            assert(next.last() == pieces@[i as int]@);
            if safe {
                assert(entry_name(pieces@[i as int]@));
                assert(parts_under(path_bytes(base), next) =~= before.push(
                    PathPart::Named(encode_utf8(next.last())),
                ));
            }
        }
        i += 1;
    }
    assert(all.take(i as int) =~= all);
    assert(i > 0 ==> all.take(i - 1) =~= all.drop_last());
    path
}

} // verus!
